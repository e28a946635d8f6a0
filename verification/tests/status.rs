use sync_supervisor::status::Status;

#[test]
fn labels_name_each_status() {
    assert_eq!(Status::Unknown.label(), "Unknown");
    assert_eq!(Status::Crashed.label(), "Crashed");
    assert_eq!(Status::DbLocked.label(), "DB Locked");
    assert_eq!(Status::Idled.label(), "Idled");
    assert_eq!(Status::Clean.label(), "Clean");
}

#[test]
fn restart_follows_fatal_and_idle_only() {
    assert!(Status::Crashed.wants_restart());
    assert!(Status::DbLocked.wants_restart());
    assert!(Status::Idled.wants_restart());
    assert!(!Status::Clean.wants_restart());
    assert!(!Status::Unknown.wants_restart());
}

#[test]
fn statuses_are_distinct() {
    let all = [Status::Unknown, Status::Crashed, Status::DbLocked, Status::Idled, Status::Clean];
    for (i, a) in all.iter().enumerate() {
        for (j, b) in all.iter().enumerate() {
            assert_eq!(a == b, i == j);
        }
    }
}
