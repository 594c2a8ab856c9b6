//! Battery voltage and charge estimation.
//!
//! The SAADC samples the battery through a 1/2 divider with gain 1/4 against
//! the internal 0.6 V reference at 10-bit resolution, so one count stands for
//! 8 * 600 / 1024 millivolts.
use vstd::prelude::*;

verus! {

/// Millivolts that one full-scale reading (1024 counts) stands for.
pub const MILLIVOLTS_FULL_SCALE: u32 = 8 * 600;

/// Counts in a full-scale 10-bit reading.
pub const COUNTS_FULL_SCALE: u32 = 1024;

/// Linear interpolation between the curve points `(v0, c0)` and `(v1, c1)`,
/// rounded down.
pub open spec fn interpolate(v: int, v0: int, c0: int, v1: int, c1: int) -> int {
    c0 + (v - v0) * (c1 - c0) / (v1 - v0)
}

/// The discharge curve: below 3500 mV the battery is empty, from 4180 mV on it
/// is full, and in between the charge is interpolated between the points
/// (3500, 0), (3616, 3), (3723, 22), (3776, 48), (3979, 79), (4180, 100).
pub open spec fn charge_percent(v: int) -> int {
    if v < 3500 {
        0
    } else if v < 3616 {
        interpolate(v, 3500, 0, 3616, 3)
    } else if v < 3723 {
        interpolate(v, 3616, 3, 3723, 22)
    } else if v < 3776 {
        interpolate(v, 3723, 22, 3776, 48)
    } else if v < 3979 {
        interpolate(v, 3776, 48, 3979, 79)
    } else if v < 4180 {
        interpolate(v, 3979, 79, 4180, 100)
    } else {
        100
    }
}

/// `r` is the charge that the discharge curve (3500, 0), (3616, 3), (3723, 22),
/// (3776, 48), (3979, 79), (4180, 100) gives at `v` millivolts: 0 below the
/// first point, 100 from the last one on, and in between the straight line
/// through the two points around `v`, rounded down.
pub open spec fn on_discharge_curve(v: int, r: int) -> bool {
    &&& v < 3500 ==> r == 0
    &&& 3500 <= v < 3616 ==> r == 0 + (v - 3500) * (3 - 0) / (3616 - 3500)
    &&& 3616 <= v < 3723 ==> r == 3 + (v - 3616) * (22 - 3) / (3723 - 3616)
    &&& 3723 <= v < 3776 ==> r == 22 + (v - 3723) * (48 - 22) / (3776 - 3723)
    &&& 3776 <= v < 3979 ==> r == 48 + (v - 3776) * (79 - 48) / (3979 - 3776)
    &&& 3979 <= v < 4180 ==> r == 79 + (v - 3979) * (100 - 79) / (4180 - 3979)
    &&& 4180 <= v ==> r == 100
}

/// The charge estimate follows the discharge curve: on each segment between
/// adjacent curve points it is the linear interpolation between them.
pub proof fn lemma_charge_follows_curve(v: int)
    ensures
        on_discharge_curve(v, charge_percent(v)),
{
}

/// The battery voltage, in millivolts, that a non-negative SAADC sample stands for.
pub open spec fn sample_millivolts(sample: int) -> int {
    sample * 4800 / 1024
}

/// The breakpoints of the discharge curve, in the order they are searched.
pub open spec fn curve_point(i: int) -> (u32, u32) {
    if i == 0 {
        (3500u32, 0u32)
    } else if i == 1 {
        (3616u32, 3u32)
    } else if i == 2 {
        (3723u32, 22u32)
    } else if i == 3 {
        (3776u32, 48u32)
    } else if i == 4 {
        (3979u32, 79u32)
    } else {
        (4180u32, 100u32)
    }
}

/// Approximate battery charge, in percent, for a voltage in millivolts.
pub fn approximate_charge(voltage_millis: u32) -> (r: u32)
    ensures
        r == charge_percent(voltage_millis as int),
        on_discharge_curve(voltage_millis as int, r as int),
        r <= 100,
{
    let level_approx: [(u32, u32); 6] = [
        (3500, 0),
        (3616, 3),
        (3723, 22),
        (3776, 48),
        (3979, 79),
        (4180, 100),
    ];
    assert(forall|k: int| 0 <= k < 6 ==> level_approx@[k] == curve_point(k));
    let value = voltage_millis;
    if value < level_approx[0].0 {
        level_approx[0].1
    } else {
        let mut ret: u32 = level_approx[level_approx.len() - 1].1;
        let mut i: usize = 1;
        while i < level_approx.len()
            invariant_except_break
                1 <= i <= 6,
                level_approx@.len() == 6,
                forall|k: int| 0 <= k < 6 ==> level_approx@[k] == curve_point(k),
                value >= curve_point(i - 1).0,
                ret == 100,
            ensures
                ret == charge_percent(value as int),
            decreases 6 - i,
        {
            let prev = level_approx[i - 1];
            let val = level_approx[i];
            assert(prev == curve_point(i - 1) && val == curve_point(i as int));
            if value < val.0 {
                proof {
                    assert(i == 1 || i == 2 || i == 3 || i == 4 || i == 5);
                    lemma_segment_fits(value as int, prev.0 as int, prev.1 as int, val.0 as int, val.1 as int);
                }
                ret = prev.1 + (value - prev.0) * (val.1 - prev.1) / (val.0 - prev.0);
                assert(ret == charge_percent(value as int)) by {
                    assert(i == 1 || i == 2 || i == 3 || i == 4 || i == 5);
                }
                break;
            }
            i = i + 1;
        }
        ret
    }
}

/// One step of interpolation on the curve stays within the segment's charges
/// and its products fit comfortably in a `u32`.
proof fn lemma_segment_fits(v: int, v0: int, c0: int, v1: int, c1: int)
    requires
        v0 <= v < v1,
        v1 - v0 <= 256,
        0 <= c0 <= c1 <= 100,
        c1 - c0 <= 32,
    ensures
        0 <= (v - v0) * (c1 - c0) < 256 * 33,
        c0 <= interpolate(v, v0, c0, v1, c1) <= c1,
{
    assert(0 <= (v - v0) * (c1 - c0) < 256 * 33) by (nonlinear_arith)
        requires
            0 <= v - v0 < 256,
            0 <= c1 - c0 <= 32,
    ;
    lemma_interpolate_bounds(v, v0, c0, v1, c1);
}

/// Interpolation on a segment gives a charge between the segment's two ends.
pub proof fn lemma_interpolate_bounds(v: int, v0: int, c0: int, v1: int, c1: int)
    requires
        v0 <= v < v1,
        c0 <= c1,
    ensures
        c0 <= interpolate(v, v0, c0, v1, c1) <= c1,
{
    let a = v - v0;
    let d = c1 - c0;
    let w = v1 - v0;
    assert(0 <= a * d) by (nonlinear_arith)
        requires
            0 <= a,
            0 <= d,
    ;
    assert(a * d <= w * d) by (nonlinear_arith)
        requires
            0 <= a < w,
            0 <= d,
    ;
    vstd::arithmetic::div_mod::lemma_div_is_ordered(a * d, w * d, w);
    vstd::arithmetic::div_mod::lemma_div_pos_is_pos(a * d, w);
    assert(w * d / w == d) by {
        vstd::arithmetic::div_mod::lemma_div_multiples_vanish(d, w);
    }
}

/// Battery voltage in millivolts for a reading of the battery channel.
///
/// A negative reading (the SAADC can report slightly below zero) would make the
/// conversion overflow; such readings are outside this function's domain.
pub fn millivolts_from_sample(sample: i16) -> (r: u32)
    requires
        sample >= 0,
    ensures
        r == sample_millivolts(sample as int),
        r == sample * 4800 / 1024,
{
    let counts: u32 = sample as u32;
    assert(counts * MILLIVOLTS_FULL_SCALE <= 32767 * 4800) by (nonlinear_arith)
        requires
            counts <= 32767,
            MILLIVOLTS_FULL_SCALE == 4800,
    ;
    counts * MILLIVOLTS_FULL_SCALE / COUNTS_FULL_SCALE
}

/// Approximate battery charge, in percent, for a reading of the battery channel.
pub fn charge_level_from_sample(sample: i16) -> (r: u32)
    requires
        sample >= 0,
    ensures
        r == charge_percent(sample_millivolts(sample as int)),
        on_discharge_curve(sample * 4800 / 1024, r as int),
        r <= 100,
{
    let mv = millivolts_from_sample(sample);
    approximate_charge(mv)
}

/// On one segment, a higher voltage never gives a lower interpolated charge.
pub proof fn lemma_interpolate_monotonic(a: int, b: int, v0: int, c0: int, v1: int, c1: int)
    requires
        v0 <= a <= b < v1,
        c0 <= c1,
    ensures
        interpolate(a, v0, c0, v1, c1) <= interpolate(b, v0, c0, v1, c1),
{
    let d = c1 - c0;
    assert((a - v0) * d <= (b - v0) * d) by (nonlinear_arith)
        requires
            0 <= a - v0 <= b - v0,
            0 <= d,
    ;
    vstd::arithmetic::div_mod::lemma_div_is_ordered((a - v0) * d, (b - v0) * d, v1 - v0);
}

/// The charge at a voltage lies between the charges at the ends of the curve
/// segment that holds the voltage.
proof fn lemma_charge_in_segment(v: int)
    ensures
        v < 3500 ==> charge_percent(v) == 0,
        3500 <= v < 3616 ==> 0 <= charge_percent(v) <= 3,
        3616 <= v < 3723 ==> 3 <= charge_percent(v) <= 22,
        3723 <= v < 3776 ==> 22 <= charge_percent(v) <= 48,
        3776 <= v < 3979 ==> 48 <= charge_percent(v) <= 79,
        3979 <= v < 4180 ==> 79 <= charge_percent(v) <= 100,
        4180 <= v ==> charge_percent(v) == 100,
{
    if 3500 <= v < 3616 {
        lemma_interpolate_bounds(v, 3500, 0, 3616, 3);
    } else if 3616 <= v < 3723 {
        lemma_interpolate_bounds(v, 3616, 3, 3723, 22);
    } else if 3723 <= v < 3776 {
        lemma_interpolate_bounds(v, 3723, 22, 3776, 48);
    } else if 3776 <= v < 3979 {
        lemma_interpolate_bounds(v, 3776, 48, 3979, 79);
    } else if 3979 <= v < 4180 {
        lemma_interpolate_bounds(v, 3979, 79, 4180, 100);
    }
}

/// A higher battery voltage never gives a lower charge estimate.
pub proof fn lemma_charge_monotonic(v1: int, v2: int)
    requires
        v1 <= v2,
    ensures
        charge_percent(v1) <= charge_percent(v2),
{
    lemma_charge_in_segment(v1);
    lemma_charge_in_segment(v2);
    if 3500 <= v1 && v2 < 3616 {
        lemma_interpolate_monotonic(v1, v2, 3500, 0, 3616, 3);
    } else if 3616 <= v1 && v2 < 3723 {
        lemma_interpolate_monotonic(v1, v2, 3616, 3, 3723, 22);
    } else if 3723 <= v1 && v2 < 3776 {
        lemma_interpolate_monotonic(v1, v2, 3723, 22, 3776, 48);
    } else if 3776 <= v1 && v2 < 3979 {
        lemma_interpolate_monotonic(v1, v2, 3776, 48, 3979, 79);
    } else if 3979 <= v1 && v2 < 4180 {
        lemma_interpolate_monotonic(v1, v2, 3979, 79, 4180, 100);
    }
}

/// The charge estimate is a percentage: it lies between 0 and 100.
pub proof fn lemma_charge_is_percentage(v: int)
    ensures
        0 <= charge_percent(v) <= 100,
{
    lemma_charge_in_segment(v);
}

/// At each point of the discharge curve the estimate is exactly the curve's charge.
pub proof fn lemma_charge_at_curve_points()
    ensures
        charge_percent(3500) == 0,
        charge_percent(3616) == 3,
        charge_percent(3723) == 22,
        charge_percent(3776) == 48,
        charge_percent(3979) == 79,
        charge_percent(4180) == 100,
{
}

/// A higher battery reading never gives a lower voltage nor a lower charge.
pub proof fn lemma_sample_monotonic(s1: int, s2: int)
    requires
        0 <= s1 <= s2,
    ensures
        sample_millivolts(s1) <= sample_millivolts(s2),
        charge_percent(sample_millivolts(s1)) <= charge_percent(sample_millivolts(s2)),
{
    vstd::arithmetic::div_mod::lemma_div_is_ordered(s1 * 4800, s2 * 4800, 1024);
    lemma_charge_monotonic(sample_millivolts(s1), sample_millivolts(s2));
}

} // verus!
