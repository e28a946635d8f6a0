//! Process-tree teardown: which of the live processes a run's teardown kills,
//! and how long it waits for the daemon to be gone.
//!
//! The daemon and whatever it forked share the supervisor's process group. At
//! teardown the driving program lists the live processes with their groups,
//! and this module picks the ones to kill: every member of the group but the
//! supervisor itself. The program then polls the daemon until it has exited
//! or a grace period is over; this module says after each poll which it is.

use vstd::prelude::*;

verus! {

/// One live process, as the operating system lists it.
#[derive(Clone, Copy, Debug, PartialEq, Eq, Structural)]
pub struct ProcessEntry {
    /// The process identifier.
    pub pid: i32,
    /// The identifier of the process group it belongs to.
    pub group: i32,
}

/// The process belongs to the group and is not the supervisor.
pub open spec fn is_target(entry: ProcessEntry, supervisor: i32, group: i32) -> bool {
    entry.group == group && entry.pid != supervisor
}

/// The identifiers to kill, in the order in which the table lists them.
pub open spec fn targets_of(table: Seq<ProcessEntry>, supervisor: i32, group: i32) -> Seq<i32>
    decreases table.len(),
{
    if table.len() == 0 {
        Seq::empty()
    } else if is_target(table.last(), supervisor, group) {
        targets_of(table.drop_last(), supervisor, group).push(table.last().pid)
    } else {
        targets_of(table.drop_last(), supervisor, group)
    }
}

/// The table without the processes that a teardown kills.
pub open spec fn survivors_of(table: Seq<ProcessEntry>, supervisor: i32, group: i32) -> Seq<
    ProcessEntry,
>
    decreases table.len(),
{
    if table.len() == 0 {
        Seq::empty()
    } else if is_target(table.last(), supervisor, group) {
        survivors_of(table.drop_last(), supervisor, group)
    } else {
        survivors_of(table.drop_last(), supervisor, group).push(table.last())
    }
}

/// Picks the processes that a teardown kills: the members of `group` other
/// than the supervisor, in table order.
pub fn teardown_targets(table: &Vec<ProcessEntry>, supervisor: i32, group: i32) -> (targets: Vec<
    i32,
>)
    ensures
        targets@ == targets_of(table@, supervisor, group),
{
    let mut targets: Vec<i32> = Vec::new();
    let mut i: usize = 0;
    while i < table.len()
        invariant
            i <= table.len(),
            targets@ == targets_of(table@.take(i as int), supervisor, group),
        decreases table.len() - i,
    {
        let entry = table[i];
        proof {
            assert(table@.take(i + 1).drop_last() == table@.take(i as int));
        }
        if entry.group == group && entry.pid != supervisor {
            targets.push(entry.pid);
        }
        i += 1;
    }
    proof {
        assert(table@.take(table@.len() as int) == table@);
    }
    targets
}

/// A process is picked exactly when the table lists it as a member of the
/// group other than the supervisor.
pub proof fn lemma_targets_are_the_group(
    table: Seq<ProcessEntry>,
    supervisor: i32,
    group: i32,
    pid: i32,
)
    ensures
        targets_of(table, supervisor, group).contains(pid) <==> exists|i: int|
            0 <= i < table.len() && #[trigger] table[i].pid == pid && is_target(
                table[i],
                supervisor,
                group,
            ),
    decreases table.len(),
{
    if table.len() > 0 {
        let rest = table.drop_last();
        lemma_targets_are_the_group(rest, supervisor, group, pid);
        let picked = targets_of(table, supervisor, group);
        let earlier = targets_of(rest, supervisor, group);
        if picked.contains(pid) && !earlier.contains(pid) {
            assert(table[table.len() - 1].pid == pid);
        }
        if earlier.contains(pid) {
            let i = choose|i: int|
                0 <= i < rest.len() && #[trigger] rest[i].pid == pid && is_target(
                    rest[i],
                    supervisor,
                    group,
                );
            assert(table[i] == rest[i]);
            let k = choose|k: int| 0 <= k < earlier.len() && earlier[k] == pid;
            assert(picked[k] == pid);
        }
        if exists|i: int|
            0 <= i < table.len() && #[trigger] table[i].pid == pid && is_target(
                table[i],
                supervisor,
                group,
            ) {
            let i = choose|i: int|
                0 <= i < table.len() && #[trigger] table[i].pid == pid && is_target(
                    table[i],
                    supervisor,
                    group,
                );
            if i < rest.len() {
                assert(rest[i] == table[i]);
            } else {
                assert(picked[picked.len() - 1] == pid);
            }
        }
    }
}

/// The supervisor never picks itself.
pub proof fn lemma_supervisor_is_spared(table: Seq<ProcessEntry>, supervisor: i32, group: i32)
    ensures
        !targets_of(table, supervisor, group).contains(supervisor),
{
    lemma_targets_are_the_group(table, supervisor, group, supervisor);
}

/// A teardown that is repeated finds nothing left to kill: once the processes
/// it picked are gone from the table, it picks none.
pub proof fn lemma_second_teardown_picks_nothing(
    table: Seq<ProcessEntry>,
    supervisor: i32,
    group: i32,
)
    ensures
        targets_of(survivors_of(table, supervisor, group), supervisor, group) == Seq::<
            i32,
        >::empty(),
    decreases table.len(),
{
    if table.len() > 0 {
        lemma_second_teardown_picks_nothing(table.drop_last(), supervisor, group);
        let kept = survivors_of(table.drop_last(), supervisor, group);
        if !is_target(table.last(), supervisor, group) {
            assert(kept.push(table.last()).drop_last() == kept);
        }
    }
}

/// What a poll of the killed daemon found.
#[derive(Clone, Copy, Debug, PartialEq, Eq, Structural)]
pub enum ChildPoll {
    /// The daemon has exited and is reaped.
    Exited,
    /// The daemon is still there.
    Running,
    /// The poll itself failed: there is no daemon left to wait for.
    Failed,
}

/// What to do after a poll of the killed daemon.
#[derive(Clone, Copy, Debug, PartialEq, Eq, Structural)]
pub enum ReapStep {
    /// Sleep for the interval, then poll again.
    Wait,
    /// The daemon is gone: the teardown is complete.
    Done,
    /// The grace period is over and the daemon is still there: note it and
    /// go on as if the teardown were complete.
    GiveUp,
}

/// The grace period that a killed daemon is given to exit.
#[derive(Clone, Copy, Debug, PartialEq, Eq, Structural)]
pub struct ReapPolicy {
    /// How many times the daemon is polled at most.
    pub polls: u32,
    /// How long to sleep between two polls, in milliseconds.
    pub interval_millis: u64,
}

impl Default for ReapPolicy {
    /// A hundred polls, fifty milliseconds apart.
    fn default() -> (policy: ReapPolicy)
        ensures
            policy == (ReapPolicy { polls: 100, interval_millis: 50 }),
    {
        ReapPolicy { polls: 100, interval_millis: 50 }
    }
}

impl ReapPolicy {
    /// What follows a poll, given how many polls have been made, this one
    /// included. A daemon that is gone, or that cannot be polled, ends the
    /// wait; one that is still there is waited for until the polls are used
    /// up.
    pub open spec fn step_of(self, polls_made: u32, found: ChildPoll) -> ReapStep {
        match found {
            ChildPoll::Exited => ReapStep::Done,
            ChildPoll::Failed => ReapStep::Done,
            ChildPoll::Running => if polls_made < self.polls {
                ReapStep::Wait
            } else {
                ReapStep::GiveUp
            },
        }
    }

    /// Says what to do after a poll of the killed daemon; `polls_made` counts
    /// the polls so far, this one included.
    pub fn step(&self, polls_made: u32, found: ChildPoll) -> (next: ReapStep)
        ensures
            next == self.step_of(polls_made, found),
    {
        match found {
            ChildPoll::Exited => ReapStep::Done,
            ChildPoll::Failed => ReapStep::Done,
            ChildPoll::Running => {
                if polls_made < self.polls {
                    ReapStep::Wait
                } else {
                    ReapStep::GiveUp
                }
            },
        }
    }
}

/// The wait for a killed daemon is bounded: no poll from the last allowed one
/// on asks for another wait, whatever it found. A daemon that outlives the
/// grace period is given up, which is no failure of the teardown.
pub proof fn lemma_reaping_is_bounded(policy: ReapPolicy, polls_made: u32, found: ChildPoll)
    requires
        polls_made >= policy.polls,
    ensures
        policy.step_of(polls_made, found) !is Wait,
        found is Running ==> policy.step_of(polls_made, found) is GiveUp,
{
}

} // verus!
