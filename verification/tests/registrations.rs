use efl::bridge::Continuation;
use efl::bridge::RegState;
use efl::bridge::Registration;
use efl::ecore::event_handler_add;
use efl::ecore::evas_callback_resize_set;
use efl::ecore::evas_new;
use efl::ecore::timer_add;
use efl::ecore::EcoreEvas;
use efl::ecore::EcoreEvent;
use efl::ecore::EcoreEventSignalExit;
use efl::ecore::SigInfo;

#[test]
fn timer_counts_to_three() {
    // A timer with interval 0 whose context starts at 0; each invocation
    // increments it and cancels once it reaches 3.
    let cb = |c: Option<i32>, _a: ()| -> (Option<i32>, Continuation) {
        let v = c.unwrap() + 1;
        if v >= 3 {
            (Some(v), Continuation::Cancel)
        } else {
            (Some(v), Continuation::Renew)
        }
    };
    let mut h = timer_add(0, cb, Some(0));
    let mut invocations: u32 = 0;
    while h.reg().is_active() {
        let r = h.dispatch(());
        assert!(r.is_some());
        invocations += 1;
        assert!(invocations <= 10);
    }
    assert_eq!(invocations, 3);
    assert_eq!(*h.reg().context(), Some(3));
    // The registration is retired: no further invocation happens.
    assert_eq!(h.dispatch(()), None);
    assert_eq!(h.dispatch(()), None);
    assert_eq!(*h.reg().context(), Some(3));
}

#[test]
fn context_observed_unchanged() {
    // The exact context given at registration is what every invocation
    // observes, as long as the callback hands it back unchanged.
    let cb = |c: Option<String>, _n: i64| -> (Option<String>, Continuation) {
        assert_eq!(c.as_deref(), Some("hello"));
        (c, Continuation::Renew)
    };
    let mut h = event_handler_add(EcoreEvent::EcoreEventSignalUser, cb, Some(String::from("hello")));
    for k in 0..5 {
        assert_eq!(h.dispatch(k as i64), Some(Continuation::Renew));
    }
    assert!(h.reg().is_active());
    assert_eq!(h.reg().context().as_deref(), Some("hello"));
}

#[test]
fn no_context_stays_none() {
    let cb = |c: Option<u8>, _a: ()| -> (Option<u8>, Continuation) {
        assert!(c.is_none());
        (c, Continuation::Renew)
    };
    let mut h = timer_add(500, cb, None);
    h.dispatch(());
    h.dispatch(());
    assert!(h.reg().context().is_none());
}

#[test]
fn cancel_stops_invocations() {
    let cb = |c: Option<u32>, _a: ()| -> (Option<u32>, Continuation) {
        (Some(c.unwrap() + 1), Continuation::Cancel)
    };
    let mut h = timer_add(1000, cb, Some(0));
    assert_eq!(h.dispatch(()), Some(Continuation::Cancel));
    assert!(!h.reg().is_active());
    assert_eq!(h.dispatch(()), None);
    assert_eq!(h.dispatch(()), None);
    // Invoked exactly once: the context was incremented exactly once.
    assert_eq!(*h.reg().context(), Some(1));
}

#[test]
fn renew_keeps_registration_eligible() {
    let cb = |c: Option<u32>, _a: ()| -> (Option<u32>, Continuation) {
        (Some(c.unwrap() + 1), Continuation::Renew)
    };
    let mut h = timer_add(1, cb, Some(0));
    for _k in 0..4 {
        assert_eq!(h.dispatch(()), Some(Continuation::Renew));
        assert!(h.reg().is_active());
    }
    assert_eq!(*h.reg().context(), Some(4));
}

#[test]
fn distinct_context_types() {
    // Two registrations with distinct context types coexist; each callback
    // is written against its own context type, and nothing in the
    // interface lets one registration receive the other's context.
    let cb_num = |c: Option<i32>, _a: ()| -> (Option<i32>, Continuation) {
        (c.map(|v| v * 2), Continuation::Renew)
    };
    let cb_text = |c: Option<String>, _a: ()| -> (Option<String>, Continuation) {
        (
            c.map(|mut s| {
                s.push('!');
                s
            }),
            Continuation::Renew,
        )
    };
    let mut hn = timer_add(0, cb_num, Some(21));
    let mut ht = timer_add(0, cb_text, Some(String::from("hi")));
    hn.dispatch(());
    ht.dispatch(());
    assert_eq!(*hn.reg().context(), Some(42));
    assert_eq!(ht.reg().context().as_deref(), Some("hi!"));
}

#[test]
fn exit_event_payload() {
    let cb = |c: Option<u32>, e: EcoreEventSignalExit| -> (Option<u32>, Continuation) {
        if e.interrupt {
            (c.map(|v| v + 1), Continuation::Renew)
        } else {
            (c, Continuation::Renew)
        }
    };
    let mut h = event_handler_add(EcoreEvent::EcoreEventSignalExit, cb, Some(0));
    h.dispatch(EcoreEventSignalExit { interrupt: true, quit: false, terminate: false, data: SigInfo });
    h.dispatch(EcoreEventSignalExit { interrupt: false, quit: true, terminate: false, data: SigInfo });
    assert_eq!(*h.reg().context(), Some(1));
}

#[test]
fn resize_callback_sees_geometry() {
    let ee: EcoreEvas<u8> = evas_new(None, 0, 0, 100, 100, "");
    let cb = |_c: Option<(i32, i32)>, g: (i32, i32, i32, i32)| -> (Option<(i32, i32)>, Continuation) {
        (Some((g.2, g.3)), Continuation::Renew)
    };
    let mut h = evas_callback_resize_set(&ee, cb, None);
    h.dispatch((0, 0, 800, 600));
    assert_eq!(*h.reg().context(), Some((800, 600)));
}

#[test]
fn context_returned_at_retirement() {
    let cb = |c: Option<Vec<u8>>, _a: ()| -> (Option<Vec<u8>>, Continuation) {
        let mut v = c.unwrap();
        v.push(9);
        (Some(v), Continuation::Cancel)
    };
    let mut reg = Registration::register(cb, Some(vec![1, 2]));
    assert_eq!(reg.state(), RegState::Active);
    reg.dispatch(());
    assert_eq!(reg.state(), RegState::Retired);
    // The caller owns the context; the registration hands it back.
    assert_eq!(reg.into_context(), Some(vec![1, 2, 9]));
}

#[test]
fn continuation_native_encoding() {
    assert_eq!(Continuation::Renew.to_native(), 1);
    assert_eq!(Continuation::Cancel.to_native(), 0);
    assert_eq!(Continuation::of_native(0), Continuation::Cancel);
    assert_eq!(Continuation::of_native(1), Continuation::Renew);
    // Any non-zero byte counts as true in the native convention.
    assert_eq!(Continuation::of_native(77), Continuation::Renew);
}
