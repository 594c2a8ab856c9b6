use pinetime_bsp::vibrator::{pattern_steps, pulse_steps, VibratorStep};

#[test]
fn pulse_runs_then_stops() {
    assert_eq!(
        pulse_steps(250),
        vec![VibratorStep::MotorOn, VibratorStep::Wait(250), VibratorStep::MotorOff]
    );
}

#[test]
fn pattern_repeats_pulse_and_pause() {
    assert_eq!(
        pattern_steps(100, 50, 2),
        vec![
            VibratorStep::MotorOn,
            VibratorStep::Wait(100),
            VibratorStep::MotorOff,
            VibratorStep::Wait(50),
            VibratorStep::MotorOn,
            VibratorStep::Wait(100),
            VibratorStep::MotorOff,
            VibratorStep::Wait(50)
        ]
    );
}

#[test]
fn empty_pattern_does_nothing() {
    assert!(pattern_steps(100, 50, 0).is_empty());
}

#[test]
fn pattern_ends_with_motor_stopped_and_runs_on_time_per_repetition() {
    let steps = pattern_steps(30, 70, 5);
    assert_eq!(steps.len(), 20);
    let mut running = false;
    let mut on_time = 0u64;
    for s in &steps {
        match s {
            VibratorStep::MotorOn => running = true,
            VibratorStep::MotorOff => running = false,
            VibratorStep::Wait(t) => {
                if running {
                    on_time += t
                }
            }
        }
    }
    assert!(!running);
    assert_eq!(on_time, 150);
}
