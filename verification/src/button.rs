//! Button handling.
//!
//! The button is polled: wait a polling period, sample it, and decide whether
//! the wait is over. A [`Button`] makes those decisions; the caller sleeps,
//! samples the pin and reads the clock, and hands each sample back. Times are
//! clock ticks.
use vstd::prelude::*;

verus! {

/// What a wait is for.
#[derive(Clone, Copy, Debug, PartialEq, Eq, Structural)]
pub enum WaitGoal {
    /// Until the button reads pressed.
    Press,
    /// Until the button reads released.
    Release,
    /// Until a press has come and gone, measuring how long it lasted.
    PressDuration,
}

/// Where a wait stands.
#[derive(Clone, Copy, Debug, PartialEq, Eq, Structural)]
pub enum WaitState {
    /// Polling for a press; `timed` when the press is to be measured.
    AwaitingPress { timed: bool },
    /// Polling for a release; `pressed_at` is when the measured press was seen.
    AwaitingRelease { pressed_at: Option<u64> },
    /// The wait is over.
    Finished,
}

/// What the caller does next.
#[derive(Clone, Copy, Debug, PartialEq, Eq, Structural)]
pub enum ButtonAction {
    /// Sleep this many ticks, then sample the button and report the sample.
    PollAfter(u64),
    /// The wait is over; for a measured press, how many ticks it lasted.
    Done(Option<u64>),
}

/// Button
#[derive(Clone, Copy, Debug, PartialEq, Eq, Structural)]
pub struct Button {
    polling_rate: u64,
}

/// The state a wait for `goal` starts in.
pub open spec fn initial_state(goal: WaitGoal) -> WaitState {
    match goal {
        WaitGoal::Press => WaitState::AwaitingPress { timed: false },
        WaitGoal::Release => WaitState::AwaitingRelease { pressed_at: None },
        WaitGoal::PressDuration => WaitState::AwaitingPress { timed: true },
    }
}

/// A sample may be handed to a wait in `state` taken at time `now`: the wait
/// is not over, and the clock has not gone back past a recorded press.
pub open spec fn sample_allowed(state: WaitState, now: u64) -> bool {
    match state {
        WaitState::AwaitingPress { .. } => true,
        WaitState::AwaitingRelease { pressed_at } => match pressed_at {
            Some(t) => t <= now,
            None => true,
        },
        WaitState::Finished => false,
    }
}

/// The next state and action of a wait in `state` that samples `pressed` at
/// time `now`, polling every `rate` ticks.
pub open spec fn next_step(state: WaitState, pressed: bool, now: u64, rate: u64) -> (
    WaitState,
    ButtonAction,
) {
    match state {
        WaitState::AwaitingPress { timed } => if !pressed {
            (state, ButtonAction::PollAfter(rate))
        } else if timed {
            (WaitState::AwaitingRelease { pressed_at: Some(now) }, ButtonAction::PollAfter(rate))
        } else {
            (WaitState::Finished, ButtonAction::Done(None))
        },
        WaitState::AwaitingRelease { pressed_at } => if pressed {
            (state, ButtonAction::PollAfter(rate))
        } else {
            (
                WaitState::Finished,
                ButtonAction::Done(
                    match pressed_at {
                        Some(t) => Some((now - t) as u64),
                        None => None,
                    },
                ),
            )
        },
        WaitState::Finished => (state, ButtonAction::Done(None)),
    }
}

/// What a sample does to a wait, stated case by case: a wait that goes on
/// polls again after exactly one polling period `rate`; a wait for a press
/// ends at a pressed sample and one for a release at a released sample; a
/// measured press records the time of the press and reports `now` minus it at
/// the release.
pub open spec fn sample_outcome(
    state: WaitState,
    pressed: bool,
    now: u64,
    rate: u64,
    r: (WaitState, ButtonAction),
) -> bool {
    &&& (r.1 matches ButtonAction::PollAfter(d) ==> d == rate)
    &&& (state matches WaitState::AwaitingPress { timed } ==> {
        &&& !pressed ==> r == (state, ButtonAction::PollAfter(rate))
        &&& pressed && timed ==> r == (
            WaitState::AwaitingRelease { pressed_at: Some(now) },
            ButtonAction::PollAfter(rate),
        )
        &&& pressed && !timed ==> r == (WaitState::Finished, ButtonAction::Done(None))
    })
    &&& (state matches WaitState::AwaitingRelease { pressed_at } ==> {
        &&& pressed ==> r == (state, ButtonAction::PollAfter(rate))
        &&& !pressed && pressed_at is None ==> r == (WaitState::Finished, ButtonAction::Done(None))
        &&& !pressed && pressed_at is Some ==> r.0 == WaitState::Finished && r.1 == ButtonAction::Done(
            Some((now - pressed_at.unwrap()) as u64),
        )
    })
}

/// Every step of a wait that goes on polls again after exactly the polling
/// period, and each sample has the outcome `sample_outcome` states.
pub proof fn lemma_step_outcome(state: WaitState, pressed: bool, now: u64, rate: u64)
    requires
        !(state is Finished),
    ensures
        sample_outcome(state, pressed, now, rate, next_step(state, pressed, now, rate)),
        next_step(state, pressed, now, rate).1 matches ButtonAction::PollAfter(d) ==> d == rate,
{
}

impl Button {
    /// The polling period in ticks.
    pub closed spec fn rate(self) -> u64 {
        self.polling_rate
    }

    /// Create a new button that is polled every `polling_rate` ticks.
    pub fn new(polling_rate: u64) -> (r: Self)
        ensures
            r.rate() == polling_rate,
    {
        Button { polling_rate }
    }

    /// The polling period in ticks.
    pub fn polling_rate(&self) -> (r: u64)
        ensures
            r == self.rate(),
    {
        self.polling_rate
    }

    /// Start a wait for `goal`: its first state, and a first poll after one period.
    pub fn start_wait(&self, goal: WaitGoal) -> (r: (WaitState, ButtonAction))
        ensures
            r == (initial_state(goal), ButtonAction::PollAfter(self.rate())),
    {
        let state = match goal {
            WaitGoal::Press => WaitState::AwaitingPress { timed: false },
            WaitGoal::Release => WaitState::AwaitingRelease { pressed_at: None },
            WaitGoal::PressDuration => WaitState::AwaitingPress { timed: true },
        };
        (state, ButtonAction::PollAfter(self.polling_rate))
    }

    /// Take a sample `pressed`, read at time `now`, of a wait in `state`: the
    /// wait's next state and what to do next.
    pub fn on_sample(&self, state: WaitState, pressed: bool, now: u64) -> (r: (WaitState, ButtonAction))
        requires
            sample_allowed(state, now),
        ensures
            r == next_step(state, pressed, now, self.rate()),
            sample_outcome(state, pressed, now, self.rate(), r),
    {
        match state {
            WaitState::AwaitingPress { timed } => {
                if !pressed {
                    (state, ButtonAction::PollAfter(self.polling_rate))
                } else if timed {
                    (
                        WaitState::AwaitingRelease { pressed_at: Some(now) },
                        ButtonAction::PollAfter(self.polling_rate),
                    )
                } else {
                    (WaitState::Finished, ButtonAction::Done(None))
                }
            },
            WaitState::AwaitingRelease { pressed_at } => {
                if pressed {
                    (state, ButtonAction::PollAfter(self.polling_rate))
                } else {
                    let duration = match pressed_at {
                        Some(t) => Some(now - t),
                        None => None,
                    };
                    (WaitState::Finished, ButtonAction::Done(duration))
                }
            },
            WaitState::Finished => (state, ButtonAction::Done(None)),
        }
    }
}

/// A wait from `state` fed the `(pressed, time)` samples in order: the state
/// it reaches and, once it is over, what it reported (`None` while it polls on).
/// Samples after the wait is over are not looked at.
pub open spec fn run(state: WaitState, samples: Seq<(bool, u64)>, rate: u64) -> (
    WaitState,
    Option<Option<u64>>,
)
    decreases samples.len(),
{
    if samples.len() == 0 {
        (state, None)
    } else {
        let before = run(state, samples.drop_last(), rate);
        if before.1 is Some {
            before
        } else {
            let step = next_step(before.0, samples.last().0, samples.last().1, rate);
            match step.1 {
                ButtonAction::Done(d) => (step.0, Some(d)),
                ButtonAction::PollAfter(_) => (step.0, None),
            }
        }
    }
}

/// Every sample in `samples` reads `pressed`.
pub open spec fn all_read(samples: Seq<(bool, u64)>, pressed: bool) -> bool {
    forall|i: int| 0 <= i < samples.len() ==> (#[trigger] samples[i]).0 == pressed
}

/// Feeding two runs of samples one after the other is feeding their
/// concatenation, as long as the wait is not over after the first.
proof fn lemma_run_append(state: WaitState, a: Seq<(bool, u64)>, b: Seq<(bool, u64)>, rate: u64)
    requires
        run(state, a, rate).1 is None,
    ensures
        run(state, a + b, rate) == run(run(state, a, rate).0, b, rate),
    decreases b.len(),
{
    if b.len() == 0 {
        assert(a + b =~= a);
    } else {
        lemma_run_append(state, a, b.drop_last(), rate);
        assert((a + b).drop_last() =~= a + b.drop_last());
        assert((a + b).last() == b.last());
    }
}

/// A wait stays where it is while every sample reads what it is not waiting for.
proof fn lemma_run_unchanged(state: WaitState, samples: Seq<(bool, u64)>, rate: u64)
    requires
        state matches WaitState::AwaitingPress { .. } ==> all_read(samples, false),
        state matches WaitState::AwaitingRelease { .. } ==> all_read(samples, true),
        !(state is Finished),
    ensures
        run(state, samples, rate) == (state, None::<Option<u64>>),
    decreases samples.len(),
{
    if samples.len() > 0 {
        let rest = samples.drop_last();
        assert forall|i: int| 0 <= i < rest.len() implies (#[trigger] rest[i]).0 == samples[i].0 by {
        }
        lemma_run_unchanged(state, rest, rate);
        assert(samples.last() == samples[samples.len() - 1]);
    }
}

/// A wait for a press ends, reporting no duration, at the first sample that
/// reads pressed; before it, the wait polls on.
pub proof fn lemma_press_wait_ends_at_first_press(unpressed: Seq<(bool, u64)>, t: u64, rate: u64)
    requires
        all_read(unpressed, false),
    ensures
        run(initial_state(WaitGoal::Press), unpressed, rate).1 is None,
        run(initial_state(WaitGoal::Press), unpressed.push((true, t)), rate) == (
            WaitState::Finished,
            Some(None::<u64>),
        ),
{
    let s0 = initial_state(WaitGoal::Press);
    lemma_run_unchanged(s0, unpressed, rate);
    assert(unpressed.push((true, t)).drop_last() =~= unpressed);
}

/// A wait for a release ends, reporting no duration, at the first sample that
/// reads released; before it, the wait polls on.
pub proof fn lemma_release_wait_ends_at_first_release(pressed: Seq<(bool, u64)>, t: u64, rate: u64)
    requires
        all_read(pressed, true),
    ensures
        run(initial_state(WaitGoal::Release), pressed, rate).1 is None,
        run(initial_state(WaitGoal::Release), pressed.push((false, t)), rate) == (
            WaitState::Finished,
            Some(None::<u64>),
        ),
{
    let s0 = initial_state(WaitGoal::Release);
    lemma_run_unchanged(s0, pressed, rate);
    assert(pressed.push((false, t)).drop_last() =~= pressed);
}

/// A measured press reports the time from the sample that first read pressed
/// to the first later sample that reads released, and nothing before that.
pub proof fn lemma_press_duration_measured(
    unpressed: Seq<(bool, u64)>,
    t_press: u64,
    held: Seq<(bool, u64)>,
    t_release: u64,
    rate: u64,
)
    requires
        all_read(unpressed, false),
        all_read(held, true),
        t_press <= t_release,
    ensures
        run(
            initial_state(WaitGoal::PressDuration),
            unpressed.push((true, t_press)) + held,
            rate,
        ).1 is None,
        run(
            initial_state(WaitGoal::PressDuration),
            (unpressed.push((true, t_press)) + held).push((false, t_release)),
            rate,
        ) == (WaitState::Finished, Some(Some((t_release - t_press) as u64))),
{
    let s0 = initial_state(WaitGoal::PressDuration);
    let pressed_seen = WaitState::AwaitingRelease { pressed_at: Some(t_press) };
    lemma_run_unchanged(s0, unpressed, rate);
    let first = unpressed.push((true, t_press));
    assert(first.drop_last() =~= unpressed);
    assert(run(s0, first, rate) == (pressed_seen, None::<Option<u64>>));
    lemma_run_unchanged(pressed_seen, held, rate);
    lemma_run_append(s0, first, held, rate);
    let all = first + held;
    assert(all.push((false, t_release)).drop_last() =~= all);
}

} // verus!
