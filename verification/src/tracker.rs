//! The stall tracker: counts how often in a row the daemon has reported the
//! same progress value.

use crate::classifier::{
    best_number_text, has_lock_marker, line_signal, LineClassifier, Signal,
};
use vstd::prelude::*;

verus! {

/// What the tracker knows, as a mathematical value: the progress value seen
/// last, and how many observations in a row have repeated it.
pub struct TrackerState {
    pub last_value: u32,
    pub idle_count: nat,
}

impl TrackerState {
    /// The state at the start of a run.
    pub open spec fn fresh() -> TrackerState {
        TrackerState { last_value: 0, idle_count: 0 }
    }

    /// The state after one progress value: a repeated value counts as idle,
    /// any other value is remembered and the count starts over.
    pub open spec fn observe(self, value: u32) -> TrackerState {
        if value == self.last_value {
            TrackerState { last_value: self.last_value, idle_count: self.idle_count + 1 }
        } else {
            TrackerState { last_value: value, idle_count: 0 }
        }
    }

    /// The state after one signal. Only a progress value changes it.
    pub open spec fn apply(self, signal: Signal) -> TrackerState {
        match signal {
            Signal::Progress(value) => self.observe(value),
            _ => self,
        }
    }

    /// The state after a sequence of progress values, first to last.
    pub open spec fn observe_all(self, values: Seq<u32>) -> TrackerState
        decreases values.len(),
    {
        if values.len() == 0 {
            self
        } else {
            self.observe_all(values.drop_last()).observe(values.last())
        }
    }
}

/// `value`, `count` times.
pub open spec fn repeated(value: u32, count: nat) -> Seq<u32> {
    Seq::new(count, |i: int| value)
}

/// The tracker of one run.
#[derive(Clone, Copy, Debug)]
pub struct StallTracker {
    last_value: u32,
    idle_count: u64,
}

impl View for StallTracker {
    type V = TrackerState;

    closed spec fn view(&self) -> TrackerState {
        TrackerState { last_value: self.last_value, idle_count: self.idle_count as nat }
    }
}

impl StallTracker {
    /// A tracker at the start of a run: value zero, never idle.
    pub fn new() -> (tracker: StallTracker)
        ensures
            tracker@ == TrackerState::fresh(),
    {
        StallTracker { last_value: 0, idle_count: 0 }
    }

    /// The progress value seen last.
    pub fn last_value(&self) -> (value: u32)
        ensures
            value == self@.last_value,
    {
        self.last_value
    }

    /// How many observations in a row have repeated the last value.
    pub fn idle_count(&self) -> (count: u64)
        ensures
            count == self@.idle_count,
    {
        self.idle_count
    }

    /// Whether the idle count is above `limit`. The tracker only reports;
    /// what follows from the answer is the caller's business.
    pub fn exceeds(&self, limit: u32) -> (over: bool)
        ensures
            over == (self@.idle_count > limit),
    {
        self.idle_count > limit as u64
    }

    /// Takes in one progress value.
    pub fn observe(&mut self, value: u32)
        requires
            old(self)@.idle_count < u64::MAX,
        ensures
            final(self)@ == old(self)@.observe(value),
    {
        if value == self.last_value {
            self.idle_count = self.idle_count + 1;
        } else {
            self.last_value = value;
            self.idle_count = 0;
        }
    }

    /// Takes in one signal. Anything but a progress value leaves the tracker
    /// as it is.
    pub fn update(&mut self, signal: Signal)
        requires
            old(self)@.idle_count < u64::MAX,
        ensures
            final(self)@ == old(self)@.apply(signal),
    {
        match signal {
            Signal::Progress(value) => self.observe(value),
            Signal::NoSignal => {},
            Signal::FatalMarker(_) => {},
        }
    }
}

/// Classifies one line and feeds the outcome to the tracker. The signal comes
/// back so that the caller can log or act on it.
pub fn check_sync(classifier: &LineClassifier, log: &str, tracker: &mut StallTracker) -> (signal:
    Signal)
    requires
        old(tracker)@.idle_count < u64::MAX,
    ensures
        signal == line_signal(log@),
        final(tracker)@ == old(tracker)@.apply(line_signal(log@)),
{
    let signal = classifier.classify(log);
    tracker.update(signal);
    signal
}

/// Values taken in one sequence after another.
pub proof fn lemma_observe_all_concat(state: TrackerState, first: Seq<u32>, second: Seq<u32>)
    ensures
        state.observe_all(first + second) == state.observe_all(first).observe_all(second),
    decreases second.len(),
{
    if second.len() == 0 {
        assert(first + second == first);
    } else {
        assert((first + second).drop_last() == first + second.drop_last());
        lemma_observe_all_concat(state, first, second.drop_last());
    }
}

/// A value that differs from the one seen last sets the idle count to zero at
/// once; each repetition after that adds one. So `count` observations of a
/// value that is new to the tracker leave the idle count at `count - 1`.
pub proof fn lemma_repeats_count_idle(state: TrackerState, value: u32, count: nat)
    requires
        count >= 1,
        value != state.last_value,
    ensures
        state.observe(value).idle_count == 0,
        state.observe_all(repeated(value, count)) == (TrackerState {
            last_value: value,
            idle_count: (count - 1) as nat,
        }),
    decreases count,
{
    let run = repeated(value, count);
    assert(run.drop_last() == repeated(value, (count - 1) as nat));
    if count == 1 {
        assert(state.observe_all(run.drop_last()) == state);
    } else {
        lemma_repeats_count_idle(state, value, (count - 1) as nat);
    }
}

/// A value that the tracker has seen last adds one to the idle count with
/// every repetition.
pub proof fn lemma_repeats_of_last_value(state: TrackerState, count: nat)
    ensures
        state.observe_all(repeated(state.last_value, count)) == (TrackerState {
            last_value: state.last_value,
            idle_count: state.idle_count + count,
        }),
    decreases count,
{
    let run = repeated(state.last_value, count);
    if count > 0 {
        assert(run.drop_last() == repeated(state.last_value, (count - 1) as nat));
        lemma_repeats_of_last_value(state, (count - 1) as nat);
    }
}

/// After any sequence of values that ends in `count` repetitions of one value,
/// with a different value (or, at the start of a run, a value other than
/// zero) before them, the idle count is `count - 1`.
pub proof fn lemma_idle_count_of_trailing_run(before: Seq<u32>, value: u32, count: nat)
    requires
        count >= 1,
        before.len() > 0 ==> before.last() != value,
        before.len() == 0 ==> value != 0,
    ensures
        TrackerState::fresh().observe_all(before + repeated(value, count)) == (TrackerState {
            last_value: value,
            idle_count: (count - 1) as nat,
        }),
{
    let reached = TrackerState::fresh().observe_all(before);
    lemma_observe_all_concat(TrackerState::fresh(), before, repeated(value, count));
    if before.len() > 0 {
        lemma_last_value_is_last_seen(TrackerState::fresh(), before);
    }
    lemma_repeats_count_idle(reached, value, count);
}

/// The tracker remembers the value it saw last.
pub proof fn lemma_last_value_is_last_seen(state: TrackerState, values: Seq<u32>)
    requires
        values.len() > 0,
    ensures
        state.observe_all(values).last_value == values.last(),
{
}

/// A line that matches neither the lock marker nor the progress expression is
/// no signal, and leaves the tracker as it was.
pub proof fn lemma_unmatched_line_changes_nothing(state: TrackerState, line: Seq<char>)
    requires
        !has_lock_marker(line),
        best_number_text(line) is None,
    ensures
        line_signal(line) == Signal::NoSignal,
        state.apply(line_signal(line)) == state,
{
}

} // verus!
