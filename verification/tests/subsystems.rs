use efl::lifecycle::Lifecycle;

#[test]
fn init_shutdown_single_pair() {
    let mut l = Lifecycle::new();
    assert!(!l.is_initialized());
    assert_eq!(l.init(), 1);
    assert!(l.is_initialized());
    assert_eq!(l.shutdown(), 0);
    assert!(!l.is_initialized());
}

#[test]
fn repeated_pairs_match_single_pair() {
    // Any number of init/shutdown pairs leaves the subsystem exactly
    // where one pair leaves it.
    let mut once = Lifecycle::new();
    once.init();
    once.shutdown();
    let mut many = Lifecycle::new();
    for _k in 0..5 {
        many.init();
        many.shutdown();
    }
    assert_eq!(once.is_initialized(), many.is_initialized());
    assert!(!many.is_initialized());
    assert_eq!(many.init(), 1);
}

#[test]
fn nested_init_shutdown() {
    let mut l = Lifecycle::new();
    assert_eq!(l.init(), 1);
    assert_eq!(l.init(), 2);
    assert_eq!(l.shutdown(), 1);
    assert!(l.is_initialized());
    assert_eq!(l.shutdown(), 0);
    // A shutdown with no init outstanding is absorbed at zero.
    assert_eq!(l.shutdown(), 0);
    assert!(!l.is_initialized());
}
