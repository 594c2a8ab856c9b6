//! Vibration motor sequencing.
//!
//! The motor is driven by an active-low line: low runs the motor, high stops
//! it. A vibration is a sequence of steps that whoever owns the line carries
//! out in order. Times are clock ticks.
use vstd::prelude::*;

verus! {

/// One step of a vibration.
#[derive(Clone, Copy, Debug, PartialEq, Eq, Structural)]
pub enum VibratorStep {
    /// Drive the line low: the motor runs.
    MotorOn,
    /// Drive the line high: the motor stops.
    MotorOff,
    /// Wait this many ticks.
    Wait(u64),
}

/// A pulse: run the motor for `on` ticks, then stop it.
pub open spec fn pulse_seq(on: u64) -> Seq<VibratorStep> {
    seq![VibratorStep::MotorOn, VibratorStep::Wait(on), VibratorStep::MotorOff]
}

/// Step `i` of a pattern of pulses of `on` ticks, each followed by a pause of
/// `off` ticks.
pub open spec fn pattern_step(on: u64, off: u64, i: int) -> VibratorStep {
    if i % 4 == 0 {
        VibratorStep::MotorOn
    } else if i % 4 == 1 {
        VibratorStep::Wait(on)
    } else if i % 4 == 2 {
        VibratorStep::MotorOff
    } else {
        VibratorStep::Wait(off)
    }
}

/// A pattern of `n` repetitions of a pulse of `on` ticks and a pause of `off` ticks.
pub open spec fn pattern_seq(on: u64, off: u64, n: nat) -> Seq<VibratorStep> {
    Seq::new(4 * n, |i: int| pattern_step(on, off, i))
}

/// Steps that pulse the vibrator for `duration` ticks.
pub fn pulse_steps(duration: u64) -> (r: Vec<VibratorStep>)
    ensures
        r@ == pulse_seq(duration),
{
    let mut steps: Vec<VibratorStep> = Vec::new();
    steps.push(VibratorStep::MotorOn);
    steps.push(VibratorStep::Wait(duration));
    steps.push(VibratorStep::MotorOff);
    assert(steps@ =~= pulse_seq(duration));
    steps
}

/// Steps of a vibration pattern: `repetitions` times a pulse of `on_duration`
/// ticks followed by a pause of `off_duration` ticks.
pub fn pattern_steps(on_duration: u64, off_duration: u64, repetitions: u8) -> (r: Vec<VibratorStep>)
    ensures
        r@ == pattern_seq(on_duration, off_duration, repetitions as nat),
{
    let mut steps: Vec<VibratorStep> = Vec::new();
    let mut k: u8 = 0;
    while k < repetitions
        invariant
            k <= repetitions,
            steps@ == pattern_seq(on_duration, off_duration, k as nat),
        decreases repetitions - k,
    {
        let pulse = pulse_steps(on_duration);
        let mut j: usize = 0;
        while j < pulse.len()
            invariant
                pulse@ == pulse_seq(on_duration),
                j <= pulse.len(),
                steps@ == pattern_seq(on_duration, off_duration, k as nat) + pulse@.take(j as int),
            decreases pulse.len() - j,
        {
            steps.push(pulse[j]);
            proof {
                assert(pulse@.take(j as int).push(pulse@[j as int]) =~= pulse@.take(j + 1));
            }
            j = j + 1;
        }
        steps.push(VibratorStep::Wait(off_duration));
        proof {
            lemma_pattern_extends(on_duration, off_duration, k as nat);
            assert(pulse@.take(3) =~= pulse@);
        }
        k = k + 1;
    }
    steps
}

/// One more repetition of a pattern appends one pulse and one pause.
pub proof fn lemma_pattern_extends(on: u64, off: u64, n: nat)
    ensures
        pattern_seq(on, off, n + 1) == pattern_seq(on, off, n) + pulse_seq(on).push(
            VibratorStep::Wait(off),
        ),
{
    let lhs = pattern_seq(on, off, n + 1);
    let rhs = pattern_seq(on, off, n) + pulse_seq(on).push(VibratorStep::Wait(off));
    assert forall|i: int| 0 <= i < lhs.len() implies lhs[i] == rhs[i] by {
        if i >= 4 * n {
            assert((i - 4 * n) % 4 == i % 4) by {
                vstd::arithmetic::div_mod::lemma_mod_multiples_vanish(n as int, i - 4 * n, 4);
            }
        }
    }
    assert(lhs =~= rhs);
}

/// Whether the motor runs after carrying out `steps` from a state where it
/// runs exactly when `running`.
pub open spec fn motor_running_after(steps: Seq<VibratorStep>, running: bool) -> bool
    decreases steps.len(),
{
    if steps.len() == 0 {
        running
    } else {
        match steps.last() {
            VibratorStep::MotorOn => true,
            VibratorStep::MotorOff => false,
            VibratorStep::Wait(_) => motor_running_after(steps.drop_last(), running),
        }
    }
}

/// Total ticks of motor running while carrying out `steps` from a stopped motor.
pub open spec fn running_time(steps: Seq<VibratorStep>) -> int
    decreases steps.len(),
{
    if steps.len() == 0 {
        0
    } else {
        running_time(steps.drop_last()) + match steps.last() {
            VibratorStep::Wait(t) => if motor_running_after(steps.drop_last(), false) {
                t as int
            } else {
                0
            },
            _ => 0,
        }
    }
}

/// A pattern leaves the motor stopped, and runs it for `on` ticks per repetition.
pub proof fn lemma_pattern_stops_motor(on: u64, off: u64, n: nat)
    ensures
        !motor_running_after(pattern_seq(on, off, n), false),
        running_time(pattern_seq(on, off, n)) == n * on,
    decreases n,
{
    if n == 0 {
        assert(pattern_seq(on, off, 0) =~= Seq::<VibratorStep>::empty());
    } else {
        let m = (n - 1) as nat;
        lemma_pattern_stops_motor(on, off, m);
        lemma_pattern_extends(on, off, m);
        let p = pattern_seq(on, off, m);
        let s1 = p.push(VibratorStep::MotorOn);
        let s2 = s1.push(VibratorStep::Wait(on));
        let s3 = s2.push(VibratorStep::MotorOff);
        let s4 = s3.push(VibratorStep::Wait(off));
        assert(pattern_seq(on, off, n) =~= s4);
        assert(s4.drop_last() =~= s3);
        assert(s3.drop_last() =~= s2);
        assert(s2.drop_last() =~= s1);
        assert(s1.drop_last() =~= p);
        assert(motor_running_after(s1, false));
        assert(running_time(s1) == running_time(p));
        assert(running_time(s2) == running_time(p) + on);
        assert(!motor_running_after(s3, false));
        assert(running_time(s3) == running_time(p) + on);
        assert(running_time(s4) == running_time(p) + on);
        assert(!motor_running_after(s4, false));
        assert(n * on == m * on + on) by (nonlinear_arith)
            requires
                n == m + 1,
        ;
    }
}

/// A pulse leaves the motor stopped after running it for its duration.
pub proof fn lemma_pulse_stops_motor(on: u64)
    ensures
        !motor_running_after(pulse_seq(on), false),
        running_time(pulse_seq(on)) == on,
{
    let s = pulse_seq(on);
    assert(s.drop_last() =~= seq![VibratorStep::MotorOn, VibratorStep::Wait(on)]);
    assert(s.drop_last().drop_last() =~= seq![VibratorStep::MotorOn]);
    assert(s.drop_last().drop_last().drop_last() =~= Seq::<VibratorStep>::empty());
    assert(running_time(Seq::<VibratorStep>::empty()) == 0);
    assert(s.drop_last().drop_last().last() == VibratorStep::MotorOn);
    assert(running_time(s.drop_last().drop_last()) == 0);
    assert(motor_running_after(s.drop_last().drop_last(), false));
    assert(running_time(s.drop_last()) == on);
}

} // verus!
