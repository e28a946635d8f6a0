//! Terminal classification of one supervised run.

use vstd::prelude::*;

verus! {

/// How a run of the daemon ended. `Unknown` is the value a run carries while
/// nothing has been decided yet.
#[derive(Clone, Copy, Debug, PartialEq, Eq, Structural)]
pub enum Status {
    Unknown,
    Crashed,
    DbLocked,
    Idled,
    Clean,
}

impl Status {
    /// Whether the supervisor restarts the daemon after a run that ended so.
    pub open spec fn restarts(self) -> bool {
        self is Crashed || self is DbLocked || self is Idled
    }

    /// Executable form of [`Status::restarts`].
    pub fn wants_restart(self) -> (b: bool)
        ensures
            b == self.restarts(),
    {
        match self {
            Status::Crashed | Status::DbLocked | Status::Idled => true,
            Status::Unknown | Status::Clean => false,
        }
    }

    /// The text that names a status in the supervisor's own diagnostics.
    pub open spec fn label_text(self) -> Seq<char> {
        match self {
            Status::Unknown => "Unknown"@,
            Status::Crashed => "Crashed"@,
            Status::DbLocked => "DB Locked"@,
            Status::Idled => "Idled"@,
            Status::Clean => "Clean"@,
        }
    }

    /// The name of a status, as written in front of a restart countdown.
    pub fn label(self) -> (s: &'static str)
        ensures
            s@ == self.label_text(),
    {
        match self {
            Status::Unknown => "Unknown",
            Status::Crashed => "Crashed",
            Status::DbLocked => "DB Locked",
            Status::Idled => "Idled",
            Status::Clean => "Clean",
        }
    }
}

} // verus!
