use mu_cli::util::MyWatcher;

#[test]
fn a_fresh_latch_is_disabled_and_never_resolves() {
    let mut w = MyWatcher::new();
    assert!(!w.poll_next());
    w.notify();
    w.notify();
    assert!(!w.poll_next());
    assert!(!w.poll_next());
}

#[test]
fn enabling_drains_stale_notifications_before_arming() {
    // Notifications that arrived while the latch was disabled must not
    // be replayed: the first poll after arming stays pending.
    let mut w = MyWatcher::new();
    for _ in 0..5 {
        w.notify();
    }
    w.enable();
    assert!(!w.poll_next());
}

#[test]
fn an_armed_latch_resolves_exactly_once_per_arm() {
    let mut w = MyWatcher::new();
    for _ in 0..3 {
        w.notify();
    }
    w.enable();
    // Stale notifications were drained; new ones arrive now.
    for _ in 0..4 {
        w.notify();
    }
    assert!(w.poll_next());
    // The latch disarmed itself: the remaining queued notifications and
    // any further ones are not observed until it is re-enabled.
    assert!(!w.poll_next());
    w.notify();
    assert!(!w.poll_next());
    w.enable();
    w.notify();
    assert!(w.poll_next());
    assert!(!w.poll_next());
}

#[test]
fn re_enabling_forgets_what_queued_while_disarmed() {
    let mut w = MyWatcher::new();
    w.enable();
    w.notify();
    w.notify();
    assert!(w.poll_next());
    // One notification is still queued, but re-arming drains it.
    w.enable();
    assert!(!w.poll_next());
}
