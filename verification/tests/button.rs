use pinetime_bsp::button::{Button, ButtonAction, WaitGoal, WaitState};

#[test]
fn new_button_keeps_polling_rate() {
    let b = Button::new(3277);
    assert_eq!(b.polling_rate(), 3277);
}

#[test]
fn waits_start_with_a_poll() {
    let b = Button::new(10);
    assert_eq!(
        b.start_wait(WaitGoal::Press),
        (WaitState::AwaitingPress { timed: false }, ButtonAction::PollAfter(10))
    );
    assert_eq!(
        b.start_wait(WaitGoal::Release),
        (WaitState::AwaitingRelease { pressed_at: None }, ButtonAction::PollAfter(10))
    );
    assert_eq!(
        b.start_wait(WaitGoal::PressDuration),
        (WaitState::AwaitingPress { timed: true }, ButtonAction::PollAfter(10))
    );
}

#[test]
fn press_wait_ends_at_first_press() {
    let b = Button::new(10);
    let (s, _) = b.start_wait(WaitGoal::Press);
    let (s, a) = b.on_sample(s, false, 10);
    assert_eq!(a, ButtonAction::PollAfter(10));
    let (s, a) = b.on_sample(s, false, 20);
    assert_eq!(a, ButtonAction::PollAfter(10));
    let (s, a) = b.on_sample(s, true, 30);
    assert_eq!(s, WaitState::Finished);
    assert_eq!(a, ButtonAction::Done(None));
}

#[test]
fn release_wait_ends_at_first_release() {
    let b = Button::new(10);
    let (s, _) = b.start_wait(WaitGoal::Release);
    let (s, a) = b.on_sample(s, true, 10);
    assert_eq!(a, ButtonAction::PollAfter(10));
    let (s, a) = b.on_sample(s, false, 20);
    assert_eq!(s, WaitState::Finished);
    assert_eq!(a, ButtonAction::Done(None));
}

#[test]
fn press_duration_is_time_from_press_to_release() {
    let b = Button::new(5);
    let (s, _) = b.start_wait(WaitGoal::PressDuration);
    let (s, a) = b.on_sample(s, false, 5);
    assert_eq!(a, ButtonAction::PollAfter(5));
    let (s, a) = b.on_sample(s, true, 12);
    assert_eq!(s, WaitState::AwaitingRelease { pressed_at: Some(12) });
    assert_eq!(a, ButtonAction::PollAfter(5));
    let (s, a) = b.on_sample(s, true, 18);
    assert_eq!(a, ButtonAction::PollAfter(5));
    let (s, a) = b.on_sample(s, false, 40);
    assert_eq!(s, WaitState::Finished);
    assert_eq!(a, ButtonAction::Done(Some(28)));
}
