use sync_supervisor::teardown::{
    teardown_targets, ChildPoll, ProcessEntry, ReapPolicy, ReapStep,
};

fn table(entries: &[(i32, i32)]) -> Vec<ProcessEntry> {
    entries.iter().map(|&(pid, group)| ProcessEntry { pid, group }).collect()
}

#[test]
fn empty_table_has_no_targets() {
    assert_eq!(teardown_targets(&Vec::new(), 100, 100), Vec::<i32>::new());
}

#[test]
fn group_members_are_picked_in_table_order() {
    let t = table(&[(1, 1), (100, 100), (101, 100), (250, 250), (102, 100), (99, 100)]);
    assert_eq!(teardown_targets(&t, 100, 100), vec![101, 102, 99]);
}

#[test]
fn supervisor_is_never_picked() {
    let t = table(&[(100, 100), (100, 100)]);
    assert_eq!(teardown_targets(&t, 100, 100), Vec::<i32>::new());
    let t = table(&[(7, 3), (8, 3)]);
    assert_eq!(teardown_targets(&t, 7, 3), vec![8]);
}

#[test]
fn other_groups_are_left_alone() {
    let t = table(&[(101, 101), (102, 101), (103, 99), (1, 0)]);
    assert_eq!(teardown_targets(&t, 100, 100), Vec::<i32>::new());
}

#[test]
fn members_below_the_supervisor_pid_are_picked_too() {
    let t = table(&[(50, 100), (100, 100), (150, 100)]);
    assert_eq!(teardown_targets(&t, 100, 100), vec![50, 150]);
}

#[test]
fn fixed_offsets_play_no_part() {
    let t = table(&[(100, 100), (101, 7), (102, 7), (110, 7), (5000, 100)]);
    assert_eq!(teardown_targets(&t, 100, 100), vec![5000]);
}

#[test]
fn second_teardown_finds_nothing() {
    let t = table(&[(100, 100), (101, 100), (102, 100), (7, 7)]);
    let first = teardown_targets(&t, 100, 100);
    assert_eq!(first, vec![101, 102]);
    let left: Vec<ProcessEntry> = t.into_iter().filter(|e| !first.contains(&e.pid)).collect();
    assert_eq!(teardown_targets(&left, 100, 100), Vec::<i32>::new());
    assert_eq!(teardown_targets(&left, 100, 100), Vec::<i32>::new());
}

#[test]
fn negative_identifiers_are_plain_values() {
    let t = table(&[(-1, -1), (5, -1), (6, 2)]);
    assert_eq!(teardown_targets(&t, -1, -1), vec![5]);
}

#[test]
fn default_grace_is_a_hundred_polls_of_fifty_milliseconds() {
    let p = ReapPolicy::default();
    assert_eq!(p.polls, 100);
    assert_eq!(p.interval_millis, 50);
}

#[test]
fn exited_daemon_ends_the_wait() {
    let p = ReapPolicy { polls: 3, interval_millis: 1 };
    for polls_made in [0u32, 1, 2, 3, 4, u32::MAX] {
        assert_eq!(p.step(polls_made, ChildPoll::Exited), ReapStep::Done);
    }
}

#[test]
fn failed_poll_ends_the_wait_without_error() {
    let p = ReapPolicy { polls: 3, interval_millis: 1 };
    for polls_made in [0u32, 1, 2, 3, 4, u32::MAX] {
        assert_eq!(p.step(polls_made, ChildPoll::Failed), ReapStep::Done);
    }
}

#[test]
fn running_daemon_is_waited_for_until_the_polls_are_used_up() {
    let p = ReapPolicy { polls: 3, interval_millis: 1 };
    assert_eq!(p.step(1, ChildPoll::Running), ReapStep::Wait);
    assert_eq!(p.step(2, ChildPoll::Running), ReapStep::Wait);
    assert_eq!(p.step(3, ChildPoll::Running), ReapStep::GiveUp);
    assert_eq!(p.step(4, ChildPoll::Running), ReapStep::GiveUp);
    assert_eq!(p.step(u32::MAX, ChildPoll::Running), ReapStep::GiveUp);
}

#[test]
fn no_poll_allowed_gives_up_at_once() {
    let p = ReapPolicy { polls: 0, interval_millis: 1 };
    assert_eq!(p.step(1, ChildPoll::Running), ReapStep::GiveUp);
    assert_eq!(p.step(1, ChildPoll::Exited), ReapStep::Done);
}

#[test]
fn stubborn_daemon_is_polled_exactly_as_often_as_allowed() {
    let p = ReapPolicy::default();
    let mut polls_made: u32 = 0;
    let mut waits = 0;
    loop {
        polls_made += 1;
        match p.step(polls_made, ChildPoll::Running) {
            ReapStep::Wait => waits += 1,
            ReapStep::GiveUp => break,
            ReapStep::Done => panic!("a running daemon is not done"),
        }
    }
    assert_eq!(polls_made, 100);
    assert_eq!(waits, 99);
}

#[test]
fn daemon_that_exits_late_is_still_reaped() {
    let p = ReapPolicy { polls: 5, interval_millis: 1 };
    assert_eq!(p.step(1, ChildPoll::Running), ReapStep::Wait);
    assert_eq!(p.step(2, ChildPoll::Running), ReapStep::Wait);
    assert_eq!(p.step(3, ChildPoll::Exited), ReapStep::Done);
}
