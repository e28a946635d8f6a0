//! The line classifier: from one line of the daemon's diagnostic stream to
//! the signal it carries.

use crate::pattern::{
    capture, capture_text, compile, compiled_from, compiles, pattern_error, pattern_of, source,
    PatternError,
};
use crate::text::{
    contains_text, decimal_u32, decimal_value, is_decimal, occurs_in, parse_decimal,
};
use vstd::prelude::*;

verus! {

/// The marker that the daemon's storage layer leaves in a line when its lock
/// file is held by someone else.
pub const DB_LOCK_MARKER: &'static str = "db/LOCK";

/// The expression that finds the daemon's progress counter: some text, the
/// word `best`, some more text, and a `#` followed by digits, which are the
/// first capture group.
pub const BEST_NUMBER_PATTERN: &'static str = r".+?best.+?#(\d+)";

/// The capture group of [`BEST_NUMBER_PATTERN`] that holds the digits.
pub const BEST_NUMBER_GROUP: usize = 1;

/// The fatal conditions that a line can report.
#[derive(Clone, Copy, Debug, PartialEq, Eq, Structural)]
pub enum FatalKind {
    /// The storage lock is held: the daemon cannot open its database.
    DbLocked,
}

/// What one line of the diagnostic stream tells the supervisor.
#[derive(Clone, Copy, Debug, PartialEq, Eq, Structural)]
pub enum Signal {
    /// Nothing the supervisor acts on.
    NoSignal,
    /// The daemon reported its progress counter.
    Progress(u32),
    /// The daemon reported a condition it cannot recover from.
    FatalMarker(FatalKind),
}

/// The line holds the storage-lock marker.
pub open spec fn has_lock_marker(line: Seq<char>) -> bool {
    occurs_in(DB_LOCK_MARKER@, line)
}

/// The digits that the progress expression captures in the line, if it matches.
pub open spec fn best_number_text(line: Seq<char>) -> Option<Seq<char>> {
    capture_text(BEST_NUMBER_PATTERN@, line, BEST_NUMBER_GROUP as nat)
}

/// The progress value that captured text stands for. Text that is no decimal
/// number of 32 bits stands for none.
pub open spec fn progress_of(captured: Option<Seq<char>>) -> Option<u32> {
    match captured {
        Some(digits) => decimal_u32(digits),
        None => None,
    }
}

/// The signal of a line, given whether it holds the lock marker and what the
/// progress expression captured in it. The marker wins over a progress value.
pub open spec fn signal_of(locked: bool, captured: Option<Seq<char>>) -> Signal {
    if locked {
        Signal::FatalMarker(FatalKind::DbLocked)
    } else {
        match progress_of(captured) {
            Some(value) => Signal::Progress(value),
            None => Signal::NoSignal,
        }
    }
}

/// The signal of a line.
pub open spec fn line_signal(line: Seq<char>) -> Signal {
    signal_of(has_lock_marker(line), best_number_text(line))
}

/// The view of captured text, where there is any.
pub open spec fn captured_view(captured: Option<&str>) -> Option<Seq<char>> {
    match captured {
        Some(text) => Some(text@),
        None => None,
    }
}

/// Whether the line reports that the storage lock is held.
pub fn db_locked(log: &str) -> (locked: bool)
    ensures
        locked == has_lock_marker(log@),
{
    contains_text(log, DB_LOCK_MARKER)
}

/// Decides the signal of a line from the two observations made on it: whether
/// it holds the lock marker, and the text that the progress expression
/// captured. Captured text that cannot be read as a number is no signal.
pub fn signal_from(locked: bool, captured: Option<&str>) -> (signal: Signal)
    ensures
        signal == signal_of(locked, captured_view(captured)),
{
    if locked {
        return Signal::FatalMarker(FatalKind::DbLocked);
    }
    match captured {
        Some(digits) => match parse_decimal(digits) {
            Some(value) => Signal::Progress(value),
            None => Signal::NoSignal,
        },
        None => Signal::NoSignal,
    }
}

/// The classifier with its expression compiled, built once and handed to
/// whoever reads lines.
pub struct LineClassifier {
    best_number: regex::Regex,
}

impl LineClassifier {
    #[verifier::type_invariant]
    spec fn holds_best_number_pattern(self) -> bool {
        compiled_from(self.best_number, BEST_NUMBER_PATTERN@)
    }

    /// The pattern of the expression that this classifier holds.
    pub closed spec fn pattern_text(&self) -> Seq<char> {
        pattern_of(self.best_number)
    }

    /// Compiles the progress expression. There is a classifier exactly if the
    /// engine compiles the pattern; its refusal comes back as the error.
    pub fn new() -> (made: Result<LineClassifier, PatternError>)
        ensures
            made is Ok <==> compiles(BEST_NUMBER_PATTERN@),
            made matches Ok(classifier) ==> classifier.pattern_text() == BEST_NUMBER_PATTERN@,
    {
        LineClassifier::from_compiled(compile(BEST_NUMBER_PATTERN))
    }

    /// Makes a classifier of what the engine answered when it was asked to
    /// compile the progress expression: a classifier where it compiled, and
    /// the engine's refusal as an error where it did not. The expression must
    /// be one that `regex::Regex::new` made of [`BEST_NUMBER_PATTERN`]; one
    /// built from the same text with other options matches other lines.
    pub fn from_compiled(compiled: Result<regex::Regex, regex::Error>) -> (made: Result<
        LineClassifier,
        PatternError,
    >)
        requires
            compiled matches Ok(expression) ==> compiled_from(expression, BEST_NUMBER_PATTERN@),
        ensures
            made is Ok <==> compiled is Ok,
            made matches Ok(classifier) ==> classifier.pattern_text() == BEST_NUMBER_PATTERN@,
    {
        match compiled {
            Ok(best_number) => Ok(LineClassifier { best_number }),
            Err(refusal) => Err(pattern_error(refusal)),
        }
    }

    /// The text of the progress expression this classifier works with.
    pub fn pattern(&self) -> (text: &str)
        ensures
            text@ == BEST_NUMBER_PATTERN@,
    {
        proof {
            use_type_invariant(self);
        }
        source(&self.best_number)
    }

    /// The digits that the progress expression captures in the line.
    pub fn best_number<'h>(&self, line: &'h str) -> (captured: Option<&'h str>)
        ensures
            captured_view(captured) == best_number_text(line@),
    {
        proof {
            use_type_invariant(self);
        }
        capture(&self.best_number, line, BEST_NUMBER_GROUP)
    }

    /// Classifies one line.
    pub fn classify(&self, line: &str) -> (signal: Signal)
        ensures
            signal == line_signal(line@),
    {
        let locked = db_locked(line);
        if locked {
            Signal::FatalMarker(FatalKind::DbLocked)
        } else {
            signal_from(false, self.best_number(line))
        }
    }
}

/// A line that holds the lock marker is a fatal marker, whatever else it
/// holds.
pub proof fn lemma_lock_marker_is_fatal(line: Seq<char>)
    requires
        has_lock_marker(line),
    ensures
        line_signal(line) == Signal::FatalMarker(FatalKind::DbLocked),
{
}

/// A line without the lock marker in which the progress expression captures
/// decimal digits is a progress signal with the number they denote, as long
/// as that number fits in 32 bits; digits that denote a larger number, like
/// any captured text that is no decimal numeral, are no signal.
pub proof fn lemma_captured_digits_are_progress(line: Seq<char>, digits: Seq<char>)
    requires
        !has_lock_marker(line),
        best_number_text(line) == Some(digits),
    ensures
        is_decimal(digits) && decimal_value(digits) <= u32::MAX ==> line_signal(line)
            == Signal::Progress(decimal_value(digits) as u32),
        !is_decimal(digits) || decimal_value(digits) > u32::MAX ==> line_signal(line)
            == Signal::NoSignal,
{
}

} // verus!
