use pinetime_bsp::battery::{approximate_charge, charge_level_from_sample, millivolts_from_sample};

#[test]
fn charge_below_curve_is_empty() {
    assert_eq!(approximate_charge(0), 0);
    assert_eq!(approximate_charge(3000), 0);
    assert_eq!(approximate_charge(3499), 0);
}

#[test]
fn charge_at_curve_points() {
    assert_eq!(approximate_charge(3500), 0);
    assert_eq!(approximate_charge(3616), 3);
    assert_eq!(approximate_charge(3723), 22);
    assert_eq!(approximate_charge(3776), 48);
    assert_eq!(approximate_charge(3979), 79);
    assert_eq!(approximate_charge(4180), 100);
}

#[test]
fn charge_interpolates_between_points() {
    assert_eq!(approximate_charge(3558), 1);
    assert_eq!(approximate_charge(3700), 17);
    assert_eq!(approximate_charge(3750), 35);
    assert_eq!(approximate_charge(3900), 66);
    assert_eq!(approximate_charge(4100), 91);
    assert_eq!(approximate_charge(4179), 99);
}

#[test]
fn charge_above_curve_is_full() {
    assert_eq!(approximate_charge(4181), 100);
    assert_eq!(approximate_charge(5000), 100);
    assert_eq!(approximate_charge(u32::MAX), 100);
}

#[test]
fn charge_never_decreases_with_voltage() {
    let mut previous = 0;
    for mv in 3000..4300u32 {
        let c = approximate_charge(mv);
        assert!(c >= previous);
        assert!(c <= 100);
        previous = c;
    }
}

#[test]
fn millivolts_from_readings() {
    assert_eq!(millivolts_from_sample(0), 0);
    assert_eq!(millivolts_from_sample(1), 4);
    assert_eq!(millivolts_from_sample(875), 4101);
    assert_eq!(millivolts_from_sample(1023), 4795);
    assert_eq!(millivolts_from_sample(i16::MAX), 153595);
}

#[test]
fn charge_from_readings() {
    assert_eq!(charge_level_from_sample(0), 0);
    assert_eq!(charge_level_from_sample(875), 91);
    assert_eq!(charge_level_from_sample(1023), 100);
}
