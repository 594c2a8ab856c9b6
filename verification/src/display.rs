//! Planning the transfers that put pixels on the 240 x 240 ST7789 panel.
//!
//! Pixels are rendered into a framebuffer of `FRAMEBUFFER_SIZE` bytes and sent
//! to the panel strip by strip. This module decides the strips: where each one
//! lies on the panel and how many framebuffer bytes it carries.
use embedded_graphics::draw_target::DrawTarget;
use embedded_graphics::geometry::{Point, Size};
use embedded_graphics::pixelcolor::raw::RawU16;
use embedded_graphics::pixelcolor::Rgb565;
use embedded_graphics::primitives::Rectangle;
use lcd_async::raw_framebuf::RawFrameBuf;
use vstd::prelude::*;

verus! {

/// Panel width in pixels.
pub const WIDTH: usize = 240;

/// Panel height in pixels.
pub const HEIGHT: usize = 240;

/// Number of strips that a full-screen transfer is cut into.
pub const FRAMEBUFFER_ROWS: usize = 12;

/// Height, in pixel rows, of one full-width strip.
pub const FRAMEBUFFER_HEIGHT: usize = HEIGHT / FRAMEBUFFER_ROWS;

/// Bytes per RGB565 pixel.
pub const BYTES_PER_PIXEL: usize = 2;

/// Size of the framebuffer in bytes: one full-width strip.
pub const FRAMEBUFFER_SIZE: usize = WIDTH * FRAMEBUFFER_HEIGHT * BYTES_PER_PIXEL;

/// An axis-aligned rectangle: top-left corner and size in pixels.
#[derive(Clone, Copy, Debug, PartialEq, Eq, Structural)]
pub struct Bounds {
    pub x: i32,
    pub y: i32,
    pub width: u32,
    pub height: u32,
}

/// The part of a rectangle that a draw keeps, in panel coordinates:
/// columns `start_x .. end_x` and rows `start_y .. end_y`.
#[derive(Clone, Copy, Debug, PartialEq, Eq, Structural)]
pub struct Clip {
    pub start_x: i32,
    pub end_x: i32,
    pub start_y: i32,
    pub end_y: i32,
}

/// One transfer to the panel: the window at (`x`, `y`) of `width` x `height`
/// pixels, filled from the first `byte_len` bytes of the framebuffer.
#[derive(Clone, Copy, Debug, PartialEq, Eq, Structural)]
pub struct Strip {
    pub x: u16,
    pub y: u16,
    pub width: u16,
    pub height: u16,
    pub byte_len: usize,
}

/// The bottom-right pixel of a rectangle, or `None` for a rectangle with no
/// pixels (zero width or zero height).
pub open spec fn bottom_right(b: Bounds) -> Option<(int, int)> {
    if b.width > 0 && b.height > 0 {
        Some((b.x + b.width - 1, b.y + b.height - 1))
    } else {
        None
    }
}

/// The bottom-right corner of `b` can be computed without leaving `i32`.
pub open spec fn corner_representable(b: Bounds) -> bool {
    (b.width > 0 && b.height > 0) ==> {
        &&& b.width <= i32::MAX
        &&& b.height <= i32::MAX
        &&& b.x + b.width <= i32::MAX
        &&& b.y + b.height <= i32::MAX
    }
}

/// `embedded_graphics::primitives::Rectangle::bottom_right` on `b`.
///
/// The outside function returns `top_left + size - (1, 1)` when both sides are
/// non-zero and `None` otherwise; its `Point + Size` asserts (in debug builds)
/// that the sizes fit in `i32` and that the sum does not overflow, which the
/// `requires` rules out.
#[verifier::external_body]
fn rectangle_bottom_right(b: &Bounds) -> (r: Option<(i32, i32)>)
    requires
        corner_representable(*b),
    ensures
        match r {
            Some(p) => bottom_right(*b) == Some((p.0 as int, p.1 as int)),
            None => bottom_right(*b) is None,
        },
{
    let rect = Rectangle::new(Point::new(b.x, b.y), Size::new(b.width, b.height));
    match rect.bottom_right() {
        Some(p) => Some((p.x, p.y)),
        None => None,
    }
}

/// `v` brought into `0 ..= limit`.
pub open spec fn clamp(v: int, limit: int) -> int {
    if v < 0 {
        0
    } else if v > limit {
        limit
    } else {
        v
    }
}

/// The clip of a draw over `b`: the top-left corner and the bottom-right pixel
/// of `b`, each brought onto the panel. The bottom-right pixel bounds the clip
/// from outside, so the clip leaves out the last column and row of `b`.
pub open spec fn clip_of(b: Bounds) -> Option<Clip> {
    match bottom_right(b) {
        Some(br) => Some(
            Clip {
                start_x: clamp(b.x as int, WIDTH as int) as i32,
                end_x: clamp(br.0, WIDTH as int) as i32,
                start_y: clamp(b.y as int, HEIGHT as int) as i32,
                end_y: clamp(br.1, HEIGHT as int) as i32,
            },
        ),
        None => None,
    }
}

/// The clip's edges are the rectangle's edges brought onto the panel: its
/// left column and top row each held to `0 ..= WIDTH` / `0 ..= HEIGHT`, and its
/// right and bottom ends its bottom-right pixel (`x + width - 1`,
/// `y + height - 1`) held the same way.
pub open spec fn clip_edges_of_rectangle(c: Clip, b: Bounds) -> bool {
    let right = b.x + b.width - 1;
    let bottom = b.y + b.height - 1;
    &&& c.start_x == (if b.x < 0 {
        0
    } else if b.x > WIDTH {
        WIDTH as int
    } else {
        b.x as int
    })
    &&& c.end_x == (if right < 0 {
        0
    } else if right > WIDTH {
        WIDTH as int
    } else {
        right
    })
    &&& c.start_y == (if b.y < 0 {
        0
    } else if b.y > HEIGHT {
        HEIGHT as int
    } else {
        b.y as int
    })
    &&& c.end_y == (if bottom < 0 {
        0
    } else if bottom > HEIGHT {
        HEIGHT as int
    } else {
        bottom
    })
}

/// The clip of a rectangle with pixels has its edges brought onto the panel
/// from the rectangle's own edges; a rectangle without pixels has no clip.
pub proof fn lemma_clip_edges(b: Bounds)
    ensures
        clip_of(b) is None <==> (b.width == 0 || b.height == 0),
        clip_of(b) matches Some(c) ==> clip_edges_of_rectangle(c, b),
{
}

/// A rectangle whose top row is on the panel but whose bottom row lies below
/// it is drawn from its top row down to the panel's last row: its clip has
/// height `HEIGHT - y`. Likewise a rectangle hanging off the right edge keeps
/// the columns from its left edge to the panel's right edge.
pub proof fn lemma_clip_keeps_overhanging_part(b: Bounds)
    requires
        b.width > 0,
        b.height > 0,
    ensures
        0 <= b.y < HEIGHT && b.y + b.height - 1 >= HEIGHT ==> ({
            let c = clip_of(b).unwrap();
            &&& clip_of(b) is Some
            &&& c.start_y == b.y
            &&& c.end_y == HEIGHT
            &&& c.height() == HEIGHT - b.y
            &&& c.height() > 0
        }),
        0 <= b.x < WIDTH && b.x + b.width - 1 >= WIDTH ==> ({
            let c = clip_of(b).unwrap();
            &&& clip_of(b) is Some
            &&& c.start_x == b.x
            &&& c.end_x == WIDTH
            &&& c.width() == WIDTH - b.x
            &&& c.width() > 0
        }),
        0 <= b.y && b.y + b.height - 1 <= HEIGHT ==> (clip_of(b) is Some && clip_of(b).unwrap().height()
            == b.height - 1),
        0 <= b.x && b.x + b.width - 1 <= WIDTH ==> (clip_of(b) is Some && clip_of(b).unwrap().width()
            == b.width - 1),
{
}

impl Clip {
    /// The clip lies on the panel, with its ends not before its starts.
    pub open spec fn wf(self) -> bool {
        &&& 0 <= self.start_x <= self.end_x <= WIDTH
        &&& 0 <= self.start_y <= self.end_y <= HEIGHT
    }

    /// Width of the clip in pixels.
    pub open spec fn width(self) -> int {
        self.end_x - self.start_x
    }

    /// Height of the clip in pixels.
    pub open spec fn height(self) -> int {
        self.end_y - self.start_y
    }
}

fn clamp_coordinate(v: i32, limit: i32) -> (r: i32)
    requires
        limit >= 0,
    ensures
        r == clamp(v as int, limit as int),
{
    let lower = if v < 0 {
        0
    } else {
        v
    };
    if lower > limit {
        limit
    } else {
        lower
    }
}

/// The clip that a draw over `bounds` keeps, or `None` when `bounds` holds no
/// pixel, so that it has no bottom-right corner to clip against.
pub fn clip_bounds(bounds: &Bounds) -> (r: Option<Clip>)
    requires
        corner_representable(*bounds),
    ensures
        r == clip_of(*bounds),
        r matches Some(c) ==> c.wf(),
        r is None <==> (bounds.width == 0 || bounds.height == 0),
        r matches Some(c) ==> clip_edges_of_rectangle(c, *bounds),
{
    match rectangle_bottom_right(bounds) {
        Some((right, bottom)) => {
            let w: i32 = WIDTH as i32;
            let h: i32 = HEIGHT as i32;
            Some(
                Clip {
                    start_x: clamp_coordinate(bounds.x, w),
                    end_x: clamp_coordinate(right, w),
                    start_y: clamp_coordinate(bounds.y, h),
                    end_y: clamp_coordinate(bottom, h),
                },
            )
        },
        None => None,
    }
}

/// Pixel rows per strip for a clip `width` pixels wide: as many as the
/// framebuffer holds.
pub open spec fn rows_per_strip(width: int) -> int {
    FRAMEBUFFER_SIZE as int / (width * BYTES_PER_PIXEL as int)
}

/// Number of strips that cover a clip: its height divided by the rows per
/// strip, rounded up.
pub open spec fn strip_count(c: Clip) -> int {
    (c.height() + rows_per_strip(c.width()) - 1) / rows_per_strip(c.width())
}

/// Top row of strip `i` of clip `c`.
pub open spec fn strip_top(c: Clip, i: int) -> int {
    c.start_y + rows_per_strip(c.width()) * i
}

/// Height of strip `i` of clip `c`: a full strip, or what is left of the clip.
pub open spec fn strip_height(c: Clip, i: int) -> int {
    let top = strip_top(c, i);
    let full = top + rows_per_strip(c.width());
    (if full < c.end_y {
        full
    } else {
        c.end_y as int
    }) - top
}

/// The strip's window is a non-empty rectangle on the panel.
pub open spec fn window_on_panel(s: Strip) -> bool {
    &&& s.width >= 1
    &&& s.height >= 1
    &&& s.x + s.width <= WIDTH
    &&& s.y + s.height <= HEIGHT
}

/// Strip `i` of the transfer plan of clip `c`.
pub open spec fn strip_matches(s: Strip, c: Clip, i: int) -> bool {
    &&& s.x == c.start_x
    &&& s.y == strip_top(c, i)
    &&& s.width == c.width()
    &&& s.height == strip_height(c, i)
    &&& s.byte_len == c.width() * strip_height(c, i) * BYTES_PER_PIXEL
}

/// Rows per strip lie between a full-width strip's height and the whole
/// framebuffer, and a strip of that many rows fits in the framebuffer.
proof fn lemma_rows_per_strip(width: int)
    requires
        0 < width <= WIDTH,
    ensures
        FRAMEBUFFER_HEIGHT <= rows_per_strip(width) <= FRAMEBUFFER_SIZE / 2,
        rows_per_strip(width) * (width * 2) <= FRAMEBUFFER_SIZE,
{
    let d = width * 2;
    vstd::arithmetic::div_mod::lemma_div_is_ordered_by_denominator(9600, d, 480);
    vstd::arithmetic::div_mod::lemma_div_is_ordered_by_denominator(9600, 2, d);
    vstd::arithmetic::div_mod::lemma_fundamental_div_mod(9600, d);
    assert(rows_per_strip(width) * d <= 9600) by (nonlinear_arith)
        requires
            9600int == d * (9600int / d) + 9600int % d,
            0 <= 9600int % d,
            rows_per_strip(width) == 9600int / d,
    ;
}

/// Where strip `i` of a plan lies, and that it fits in the framebuffer.
pub proof fn lemma_strip_shape(c: Clip, i: int)
    requires
        c.wf(),
        c.width() > 0,
        0 <= i < strip_count(c),
    ensures
        strip_top(c, i) >= c.start_y,
        strip_top(c, i) + strip_height(c, i) <= c.end_y,
        1 <= strip_height(c, i) <= rows_per_strip(c.width()),
        i + 1 < strip_count(c) ==> strip_height(c, i) == rows_per_strip(c.width()),
        i + 1 == strip_count(c) ==> strip_top(c, i) + strip_height(c, i) == c.end_y,
        c.width() * strip_height(c, i) * BYTES_PER_PIXEL <= FRAMEBUFFER_SIZE,
{
    let f = rows_per_strip(c.width());
    let h = c.height();
    lemma_rows_per_strip(c.width());
    let q = strip_count(c);
    vstd::arithmetic::div_mod::lemma_fundamental_div_mod(h + f - 1, f);
    let r = (h + f - 1) % f;
    assert(h + f - 1 == f * q + r);
    assert(0 <= r < f);
    assert(f * i <= f * q - f) by (nonlinear_arith)
        requires
            0 <= i < q,
            f > 0,
    ;
    assert(f * i >= 0) by (nonlinear_arith)
        requires
            0 <= i,
            f > 0,
    ;
    assert(f * (i + 1) == f * i + f) by (nonlinear_arith);
    if i + 1 < q {
        assert(f * (i + 1) <= f * q - f) by (nonlinear_arith)
            requires
                0 <= i + 1 < q,
                f > 0,
        ;
    }
    if i + 1 == q {
        assert(f * (i + 1) == f * q);
    }
    let sh = strip_height(c, i);
    assert(c.width() * sh * 2 <= f * (c.width() * 2)) by (nonlinear_arith)
        requires
            0 < c.width(),
            1 <= sh <= f,
    ;
}

/// The strips of a plan tile the clip: the first starts at its top row, each
/// next one starts where the one before ends, and the last ends at its bottom
/// row. Together they cover exactly the clip's rows.
pub proof fn lemma_strips_tile_clip(c: Clip)
    requires
        c.wf(),
        c.width() > 0,
    ensures
        strip_count(c) >= 0,
        strip_count(c) == 0 <==> c.height() == 0,
        strip_count(c) > 0 ==> strip_top(c, 0) == c.start_y,
        forall|i: int|
            0 <= i && i + 1 < strip_count(c) ==> #[trigger] strip_top(c, i + 1) == strip_top(c, i)
                + strip_height(c, i),
        strip_count(c) > 0 ==> strip_top(c, strip_count(c) - 1) + strip_height(c, strip_count(c) - 1)
            == c.end_y,
        forall|i: int| 0 <= i < strip_count(c) ==> #[trigger] strip_height(c, i) >= 1,
{
    let f = rows_per_strip(c.width());
    lemma_rows_per_strip(c.width());
    let h = c.height();
    vstd::arithmetic::div_mod::lemma_div_pos_is_pos(h + f - 1, f);
    if h == 0 {
        vstd::arithmetic::div_mod::lemma_basic_div(f - 1, f);
    } else {
        vstd::arithmetic::div_mod::lemma_div_is_ordered(f, h + f - 1, f);
        vstd::arithmetic::div_mod::lemma_div_by_self(f);
    }
    assert forall|i: int| 0 <= i && i + 1 < strip_count(c) implies #[trigger] strip_top(c, i + 1)
        == strip_top(c, i) + strip_height(c, i) by {
        lemma_strip_shape(c, i);
        assert(f * (i + 1) == f * i + f) by (nonlinear_arith);
    }
    assert forall|i: int| 0 <= i < strip_count(c) implies #[trigger] strip_height(c, i) >= 1 by {
        lemma_strip_shape(c, i);
    }
    if strip_count(c) > 0 {
        lemma_strip_shape(c, strip_count(c) - 1);
    }
}

/// The transfers that put a drawing clipped to `clip` on the panel: strips as
/// wide as the clip and as tall as the framebuffer allows, top to bottom.
pub fn strip_plan(clip: &Clip) -> (r: Vec<Strip>)
    requires
        clip.wf(),
        clip.width() > 0,
    ensures
        r.len() == strip_count(*clip),
        forall|i: int| 0 <= i < r.len() ==> strip_matches(#[trigger] r[i], *clip, i),
        forall|i: int| 0 <= i < r.len() ==> #[trigger] r[i].byte_len <= FRAMEBUFFER_SIZE,
        forall|i: int| 0 <= i < r.len() ==> #[trigger] window_on_panel(r[i]),
        strips_fill_framebuffer(r@, *clip),
{
    let start_x = clip.start_x;
    let end_x = clip.end_x;
    let start_y = clip.start_y;
    let end_y = clip.end_y;
    let width: usize = (end_x - start_x) as usize;
    let height: usize = (end_y - start_y) as usize;
    proof {
        lemma_rows_per_strip(width as int);
    }
    let fb_height: usize = FRAMEBUFFER_SIZE / (width * BYTES_PER_PIXEL);
    let rows: usize = (height + fb_height - 1) / fb_height;
    let mut plan: Vec<Strip> = Vec::new();
    let mut i: usize = 0;
    while i < rows
        invariant
            clip.wf(),
            clip.width() > 0,
            width == clip.width(),
            height == clip.height(),
            start_x == clip.start_x,
            start_y == clip.start_y,
            end_y == clip.end_y,
            fb_height == rows_per_strip(clip.width()),
            rows == strip_count(*clip),
            0 <= i <= rows,
            plan.len() == i,
            forall|k: int| 0 <= k < i ==> strip_matches(#[trigger] plan[k], *clip, k),
            forall|k: int| 0 <= k < i ==> #[trigger] plan[k].byte_len <= FRAMEBUFFER_SIZE,
            forall|k: int| 0 <= k < i ==> #[trigger] window_on_panel(plan[k]),
        decreases rows - i,
    {
        proof {
            lemma_strip_shape(*clip, i as int);
        }
        let y: usize = start_y as usize + fb_height * i;
        let y_max: usize = y + fb_height;
        let bottom: usize = if y_max < end_y as usize {
            y_max
        } else {
            end_y as usize
        };
        let strip_height: usize = bottom - y;
        let size: usize = width * strip_height * BYTES_PER_PIXEL;
        plan.push(
            Strip {
                x: start_x as u16,
                y: y as u16,
                width: width as u16,
                height: strip_height as u16,
                byte_len: size,
            },
        );
        i = i + 1;
    }
    proof {
        lemma_plan_fills_framebuffer(plan@, *clip);
    }
    plan
}

/// `strips` cut the clip `c` into bands as tall as the framebuffer holds at
/// the clip's width: every strip is as wide as the clip and starts at its left
/// column; there are `ceil(height / rows)` of them with
/// `rows = FRAMEBUFFER_SIZE / (width * BYTES_PER_PIXEL)`; every strip but the
/// last has `rows` rows; the first starts at the clip's top row, each next one
/// where the one before ends, and the last ends at the clip's bottom row.
pub open spec fn strips_fill_framebuffer(strips: Seq<Strip>, c: Clip) -> bool {
    let w = c.end_x - c.start_x;
    let rows = FRAMEBUFFER_SIZE as int / (w * BYTES_PER_PIXEL as int);
    let n = strips.len() as int;
    &&& n == (c.end_y - c.start_y + rows - 1) / rows
    &&& forall|i: int| 0 <= i < n ==> (#[trigger] strips[i]).x == c.start_x && strips[i].width == w
    &&& forall|i: int|
        0 <= i < n ==> (#[trigger] strips[i]).byte_len == strips[i].width * strips[i].height
            * BYTES_PER_PIXEL
    &&& forall|i: int| 0 <= i < n - 1 ==> (#[trigger] strips[i]).height == rows
    &&& forall|i: int|
        0 <= i < n - 1 ==> #[trigger] strips[i + 1].y == strips[i].y + strips[i].height
    &&& n > 0 ==> strips[0].y == c.start_y
    &&& n > 0 ==> strips[n - 1].y + strips[n - 1].height == c.end_y
}

/// A sequence of strips that matches the plan of clip `c` strip for strip
/// fills the framebuffer band by band as `strips_fill_framebuffer` states.
pub proof fn lemma_plan_fills_framebuffer(strips: Seq<Strip>, c: Clip)
    requires
        c.wf(),
        c.width() > 0,
        strips.len() == strip_count(c),
        forall|i: int| 0 <= i < strips.len() ==> strip_matches(#[trigger] strips[i], c, i),
    ensures
        strips_fill_framebuffer(strips, c),
{
    lemma_strips_tile_clip(c);
    let n = strips.len() as int;
    assert forall|i: int| 0 <= i < n implies (#[trigger] strips[i]).byte_len == strips[i].width
        * strips[i].height * BYTES_PER_PIXEL by {
        assert(strip_matches(strips[i], c, i));
    }
    assert forall|i: int| 0 <= i < n - 1 implies (#[trigger] strips[i]).height == rows_per_strip(
        c.width(),
    ) by {
        assert(strip_matches(strips[i], c, i));
        lemma_strip_shape(c, i);
    }
    assert forall|i: int| 0 <= i < n - 1 implies #[trigger] strips[i + 1].y == strips[i].y
        + strips[i].height by {
        assert(strip_matches(strips[i], c, i));
        assert(strip_matches(strips[i + 1], c, i + 1));
        assert(strip_top(c, i + 1) == strip_top(c, i) + strip_height(c, i));
    }
    if n > 0 {
        assert(strip_matches(strips[0], c, 0));
        assert(strip_matches(strips[n - 1], c, n - 1));
    }
}

/// Strip `i` of a full-screen transfer: full panel width, `FRAMEBUFFER_HEIGHT`
/// rows starting at row `FRAMEBUFFER_HEIGHT * i`, carrying the whole framebuffer.
pub open spec fn full_strip_matches(s: Strip, i: int) -> bool {
    &&& s.x == 0
    &&& s.y == FRAMEBUFFER_HEIGHT * i
    &&& s.width == WIDTH
    &&& s.height == FRAMEBUFFER_HEIGHT
    &&& s.byte_len == FRAMEBUFFER_SIZE
}

/// The clip that covers the whole panel.
pub open spec fn full_panel() -> Clip {
    Clip { start_x: 0, end_x: WIDTH as i32, start_y: 0, end_y: HEIGHT as i32 }
}

/// The transfers that fill the whole panel with one colour: `FRAMEBUFFER_ROWS`
/// full-width strips, top to bottom.
pub fn clear_plan() -> (r: Vec<Strip>)
    ensures
        r.len() == FRAMEBUFFER_ROWS,
        forall|i: int| 0 <= i < r.len() ==> full_strip_matches(#[trigger] r[i], i),
        forall|i: int| 0 <= i < r.len() ==> #[trigger] window_on_panel(r[i]),
{
    assert(FRAMEBUFFER_HEIGHT == 20 && FRAMEBUFFER_SIZE == 9600);
    let mut plan: Vec<Strip> = Vec::new();
    let mut i: usize = 0;
    while i < FRAMEBUFFER_ROWS
        invariant
            0 <= i <= FRAMEBUFFER_ROWS,
            plan.len() == i,
            forall|k: int| 0 <= k < i ==> full_strip_matches(#[trigger] plan[k], k),
            forall|k: int| 0 <= k < i ==> #[trigger] window_on_panel(plan[k]),
            FRAMEBUFFER_HEIGHT == 20,
        decreases FRAMEBUFFER_ROWS - i,
    {
        let y: usize = FRAMEBUFFER_HEIGHT * i;
        plan.push(
            Strip {
                x: 0,
                y: y as u16,
                width: WIDTH as u16,
                height: FRAMEBUFFER_HEIGHT as u16,
                byte_len: FRAMEBUFFER_SIZE,
            },
        );
        i = i + 1;
    }
    plan
}

/// Clearing the panel sends the same strips as drawing over the whole panel:
/// a full-screen clear is the transfer plan of the full-panel clip.
pub proof fn lemma_clear_is_full_panel_plan()
    ensures
        full_panel().wf(),
        strip_count(full_panel()) == FRAMEBUFFER_ROWS,
        forall|s: Strip, i: int|
            0 <= i < FRAMEBUFFER_ROWS ==> (full_strip_matches(s, i) <==> #[trigger] strip_matches(
                s,
                full_panel(),
                i,
            )),
{
    assert(FRAMEBUFFER_HEIGHT == 20 && FRAMEBUFFER_SIZE == 9600);
    assert(9600int / 480int == 20) by (nonlinear_arith);
    assert(rows_per_strip(240) == 20);
    assert(259int / 20int == 12) by (nonlinear_arith);
    assert(full_panel().height() == 240);
    assert(strip_count(full_panel()) == 12);
    assert forall|s: Strip, i: int| 0 <= i < FRAMEBUFFER_ROWS implies (full_strip_matches(s, i)
        <==> #[trigger] strip_matches(s, full_panel(), i)) by {
        assert(strip_top(full_panel(), i) == 20 * i);
        assert(strip_height(full_panel(), i) == 20);
    }
}

/// Byte `k` of a framebuffer filled with the RGB565 colour `color`: pixels of
/// two bytes, most significant byte first.
pub open spec fn fill_byte(color: u16, k: int) -> u8 {
    if k % 2 == 0 {
        (color / 256) as u8
    } else {
        (color % 256) as u8
    }
}

/// `lcd_async::raw_framebuf::RawFrameBuf::<Rgb565, &mut [u8]>::clear` on a
/// framebuffer of `width` x `height` pixels laid over `buffer`, with the colour
/// whose raw RGB565 value is `color`.
///
/// The outside `new` asserts that `buffer` holds `width * height * 2` bytes;
/// `clear` writes the colour's two big-endian bytes over each of the first
/// `width * height` pixels and leaves the bytes after them alone. An `Rgb565`
/// made from a raw value gives that value back, as all 16 bits are channel bits.
#[verifier::external_body]
fn raw_framebuf_clear(buffer: &mut Vec<u8>, width: usize, height: usize, color: u16)
    requires
        width * height * BYTES_PER_PIXEL <= old(buffer).len(),
    ensures
        final(buffer).len() == old(buffer).len(),
        forall|k: int|
            0 <= k < width * height * BYTES_PER_PIXEL ==> #[trigger] final(buffer)[k] == fill_byte(
                color,
                k,
            ),
        forall|k: int|
            width * height * BYTES_PER_PIXEL <= k < old(buffer).len() ==> #[trigger] final(buffer)[k]
                == old(buffer)[k],
{
    let mut fbuf = RawFrameBuf::<Rgb565, &mut [u8]>::new(buffer.as_mut_slice(), width, height);
    let _ = fbuf.clear(Rgb565::from(RawU16::new(color)));
}

/// Fill the part of `framebuffer` that `strip` carries with the colour whose
/// raw RGB565 value is `color`, leaving the rest of the framebuffer as it was.
pub fn fill_strip(framebuffer: &mut Vec<u8>, strip: &Strip, color: u16)
    requires
        old(framebuffer).len() == FRAMEBUFFER_SIZE,
        strip.byte_len == strip.width * strip.height * BYTES_PER_PIXEL,
        strip.byte_len <= FRAMEBUFFER_SIZE,
    ensures
        final(framebuffer).len() == FRAMEBUFFER_SIZE,
        forall|k: int| 0 <= k < strip.byte_len ==> #[trigger] final(framebuffer)[k] == fill_byte(color, k),
        forall|k: int|
            strip.byte_len <= k < FRAMEBUFFER_SIZE ==> #[trigger] final(framebuffer)[k] == old(
                framebuffer,
            )[k],
{
    raw_framebuf_clear(framebuffer, strip.width as usize, strip.height as usize, color);
}

} // verus!
