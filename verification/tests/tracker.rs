use sync_supervisor::classifier::{FatalKind, LineClassifier, Signal};
use sync_supervisor::tracker::{check_sync, StallTracker};

#[test]
fn fresh_tracker_is_all_zero() {
    let t = StallTracker::new();
    assert_eq!(t.last_value(), 0);
    assert_eq!(t.idle_count(), 0);
    assert!(!t.exceeds(0));
}

#[test]
fn repeated_value_counts_one_less_than_its_repeats() {
    for k in 1u64..=20 {
        let mut t = StallTracker::new();
        for _ in 0..k {
            t.observe(10);
        }
        assert_eq!(t.last_value(), 10);
        assert_eq!(t.idle_count(), k - 1);
    }
}

#[test]
fn differing_value_resets_at_once() {
    let mut t = StallTracker::new();
    t.observe(10);
    t.observe(10);
    t.observe(10);
    assert_eq!(t.idle_count(), 2);
    t.observe(11);
    assert_eq!(t.last_value(), 11);
    assert_eq!(t.idle_count(), 0);
    t.observe(10);
    assert_eq!(t.last_value(), 10);
    assert_eq!(t.idle_count(), 0);
}

#[test]
fn value_may_go_backwards() {
    let mut t = StallTracker::new();
    t.observe(100);
    t.observe(99);
    assert_eq!(t.last_value(), 99);
    assert_eq!(t.idle_count(), 0);
    t.observe(99);
    assert_eq!(t.idle_count(), 1);
}

#[test]
fn zero_repeats_the_initial_value() {
    let mut t = StallTracker::new();
    t.observe(0);
    assert_eq!(t.idle_count(), 1);
    t.observe(0);
    t.observe(0);
    assert_eq!(t.last_value(), 0);
    assert_eq!(t.idle_count(), 3);
}

#[test]
fn trailing_run_decides_the_count() {
    let mut t = StallTracker::new();
    for v in [1u32, 1, 1, 1, 2, 3, 3, 3] {
        t.observe(v);
    }
    assert_eq!(t.last_value(), 3);
    assert_eq!(t.idle_count(), 2);
}

#[test]
fn exceeds_is_a_strict_comparison() {
    let mut t = StallTracker::new();
    t.observe(5);
    t.observe(5);
    t.observe(5);
    t.observe(5);
    assert_eq!(t.idle_count(), 3);
    assert!(t.exceeds(0));
    assert!(t.exceeds(2));
    assert!(!t.exceeds(3));
    assert!(!t.exceeds(4));
    assert!(!t.exceeds(u32::MAX));
}

#[test]
fn update_takes_only_progress() {
    let mut t = StallTracker::new();
    t.update(Signal::Progress(8));
    t.update(Signal::Progress(8));
    assert_eq!((t.last_value(), t.idle_count()), (8, 1));
    t.update(Signal::NoSignal);
    assert_eq!((t.last_value(), t.idle_count()), (8, 1));
    t.update(Signal::FatalMarker(FatalKind::DbLocked));
    assert_eq!((t.last_value(), t.idle_count()), (8, 1));
    t.update(Signal::Progress(9));
    assert_eq!((t.last_value(), t.idle_count()), (9, 0));
}

#[test]
fn reading_the_tracker_changes_nothing() {
    let mut t = StallTracker::new();
    t.observe(3);
    t.observe(3);
    for _ in 0..5 {
        assert_eq!(t.last_value(), 3);
        assert_eq!(t.idle_count(), 1);
        assert!(t.exceeds(0));
    }
}

#[test]
fn check_sync_feeds_progress_to_the_tracker() {
    let c = LineClassifier::new().expect("the progress expression compiles");
    let mut t = StallTracker::new();
    assert_eq!(check_sync(&c, "Idle, best: #10 (0xab)", &mut t), Signal::Progress(10));
    assert_eq!((t.last_value(), t.idle_count()), (10, 0));
    assert_eq!(check_sync(&c, "Idle, best: #10 (0xab)", &mut t), Signal::Progress(10));
    assert_eq!((t.last_value(), t.idle_count()), (10, 1));
    assert_eq!(check_sync(&c, "Idle, best: #11 (0xcd)", &mut t), Signal::Progress(11));
    assert_eq!((t.last_value(), t.idle_count()), (11, 0));
}

#[test]
fn check_sync_leaves_the_tracker_on_other_lines() {
    let c = LineClassifier::new().expect("the progress expression compiles");
    let mut t = StallTracker::new();
    check_sync(&c, "x best y #4", &mut t);
    check_sync(&c, "x best y #4", &mut t);
    assert_eq!(check_sync(&c, "nothing to see", &mut t), Signal::NoSignal);
    assert_eq!((t.last_value(), t.idle_count()), (4, 1));
    assert_eq!(check_sync(&c, "x best y #99999999999", &mut t), Signal::NoSignal);
    assert_eq!((t.last_value(), t.idle_count()), (4, 1));
    assert_eq!(
        check_sync(&c, "x best y #4 db/LOCK", &mut t),
        Signal::FatalMarker(FatalKind::DbLocked)
    );
    assert_eq!((t.last_value(), t.idle_count()), (4, 1));
}
