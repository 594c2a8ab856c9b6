use pinetime_bsp::display::{clear_plan, clip_bounds, fill_strip, strip_plan, Bounds, Clip, Strip};

#[test]
fn clip_of_rectangle_on_panel() {
    let c = clip_bounds(&Bounds { x: 10, y: 20, width: 5, height: 7 });
    assert_eq!(c, Some(Clip { start_x: 10, end_x: 14, start_y: 20, end_y: 26 }));
}

#[test]
fn clip_of_empty_rectangle_is_none() {
    assert_eq!(clip_bounds(&Bounds { x: 10, y: 20, width: 0, height: 7 }), None);
    assert_eq!(clip_bounds(&Bounds { x: 10, y: 20, width: 5, height: 0 }), None);
}

#[test]
fn clip_is_brought_onto_panel() {
    let c = clip_bounds(&Bounds { x: -10, y: -5, width: 300, height: 100 });
    assert_eq!(c, Some(Clip { start_x: 0, end_x: 240, start_y: 0, end_y: 94 }));
    let c = clip_bounds(&Bounds { x: 300, y: 20, width: 10, height: 10 });
    assert_eq!(c, Some(Clip { start_x: 240, end_x: 240, start_y: 20, end_y: 29 }));
}

#[test]
fn small_drawing_is_one_strip() {
    let plan = strip_plan(&Clip { start_x: 10, end_x: 14, start_y: 20, end_y: 26 });
    assert_eq!(plan, vec![Strip { x: 10, y: 20, width: 4, height: 6, byte_len: 48 }]);
}

#[test]
fn wide_drawing_is_cut_into_strips() {
    let plan = strip_plan(&Clip { start_x: 0, end_x: 240, start_y: 0, end_y: 94 });
    assert_eq!(
        plan,
        vec![
            Strip { x: 0, y: 0, width: 240, height: 20, byte_len: 9600 },
            Strip { x: 0, y: 20, width: 240, height: 20, byte_len: 9600 },
            Strip { x: 0, y: 40, width: 240, height: 20, byte_len: 9600 },
            Strip { x: 0, y: 60, width: 240, height: 20, byte_len: 9600 },
            Strip { x: 0, y: 80, width: 240, height: 14, byte_len: 6720 },
        ]
    );
}

#[test]
fn strips_tile_the_clip() {
    let clip = Clip { start_x: 7, end_x: 130, start_y: 3, end_y: 239 };
    let plan = strip_plan(&clip);
    let mut y = 3u16;
    for s in &plan {
        assert_eq!(s.y, y);
        assert_eq!(s.x, 7);
        assert_eq!(s.width, 123);
        assert!(s.height >= 1);
        assert_eq!(s.byte_len, 123 * s.height as usize * 2);
        assert!(s.byte_len <= 9600);
        y += s.height;
    }
    assert_eq!(y, 239);
}

#[test]
fn flat_clip_has_no_strips() {
    assert!(strip_plan(&Clip { start_x: 0, end_x: 10, start_y: 50, end_y: 50 }).is_empty());
}

#[test]
fn clear_covers_the_panel() {
    let plan = clear_plan();
    assert_eq!(plan.len(), 12);
    for (i, s) in plan.iter().enumerate() {
        assert_eq!(*s, Strip { x: 0, y: 20 * i as u16, width: 240, height: 20, byte_len: 9600 });
    }
    let full = strip_plan(&Clip { start_x: 0, end_x: 240, start_y: 0, end_y: 240 });
    assert_eq!(full, plan);
}

#[test]
fn fill_strip_writes_the_colour_big_endian() {
    let mut fb = vec![0xAAu8; 9600];
    let strip = Strip { x: 0, y: 0, width: 3, height: 2, byte_len: 12 };
    fill_strip(&mut fb, &strip, 0xF81F);
    for k in 0..12 {
        assert_eq!(fb[k], if k % 2 == 0 { 0xF8 } else { 0x1F });
    }
    for k in 12..9600 {
        assert_eq!(fb[k], 0xAA);
    }
}

#[test]
fn fill_full_strip_covers_the_framebuffer() {
    let mut fb = vec![0u8; 9600];
    let plan = clear_plan();
    fill_strip(&mut fb, &plan[0], 0x07E0);
    assert!(fb.chunks(2).all(|p| p == [0x07, 0xE0]));
}
