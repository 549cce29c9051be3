//! Typed entry points of the event and windowing layer.
//!
//! [`event_handler_add`], [`timer_add`] and [`evas_callback_resize_set`]
//! build a typed [`EcoreEventHandler`]: a registration of the
//! [`crate::bridge`] together with the trigger it listens on.  [`EcoreEvas`]
//! is a window object that owns its geometry and user data as plain values.

use crate::bridge::Continuation;
use crate::bridge::Registration;
use vstd::prelude::*;

verus! {

/// The event kinds the native event layer can deliver to a registered
/// handler.
#[derive(Clone, Copy, Debug, PartialEq, Eq, Structural)]
pub enum EcoreEvent {
    EcoreEventNone,
    EcoreEventSignalUser,
    EcoreEventSignalHup,
    EcoreEventSignalExit,
    EcoreEventSignalPower,
    EcoreEventSignalRealtime,
    EcoreEventMemoryState,
    EcoreEventPowerState,
    EcoreEventLocaleChanged,
    EcoreEventHostnameChanged,
    EcoreEventSystemTimedateChanged,
    EcoreEventCount,
}

/// Signal details attached to a signal event; the native layer leaves
/// them opaque.
#[derive(Clone, Copy, Debug, PartialEq, Eq, Structural)]
pub struct SigInfo;

/// The payload of an exit-signal event: which signal asked the program to
/// leave.
#[derive(Clone, Copy, Debug, PartialEq, Eq, Structural)]
pub struct EcoreEventSignalExit {
    pub interrupt: bool,
    pub quit: bool,
    pub terminate: bool,
    pub data: SigInfo,
}

/// A registration handle: the trigger it listens on, together with the
/// typed registration the bridge keeps for it.  The trigger is fixed when
/// the registration is made and never changes afterwards.
pub enum EcoreEventHandler<T, A, F> {
    /// Listens for occurrences of an event kind.
    Event(EcoreEvent, Registration<T, A, F>),
    /// Fires on a timer; the interval is kept in microseconds.
    Timer(u64, Registration<T, A, F>),
    /// Listens for resize notifications of a window.
    Resize(Registration<T, A, F>),
}

impl<T, A, F: Fn(Option<T>, A) -> (Option<T>, Continuation)> EcoreEventHandler<T, A, F> {
    /// The registration behind this handle.
    pub open spec fn spec_reg(self) -> Registration<T, A, F> {
        match self {
            EcoreEventHandler::Event(_, r) => r,
            EcoreEventHandler::Timer(_, r) => r,
            EcoreEventHandler::Resize(r) => r,
        }
    }

    /// Whether two handles listen on the very same trigger.
    pub open spec fn same_trigger(a: Self, b: Self) -> bool {
        match (a, b) {
            (EcoreEventHandler::Event(e1, _), EcoreEventHandler::Event(e2, _)) => e1 == e2,
            (EcoreEventHandler::Timer(i1, _), EcoreEventHandler::Timer(i2, _)) => i1 == i2,
            (EcoreEventHandler::Resize(_), EcoreEventHandler::Resize(_)) => true,
            _ => false,
        }
    }

    /// The registration behind this handle, to observe its state and
    /// context.
    pub fn reg(&self) -> (r: &Registration<T, A, F>)
        ensures
            *r == self.spec_reg(),
    {
        match self {
            EcoreEventHandler::Event(_, r) => r,
            EcoreEventHandler::Timer(_, r) => r,
            EcoreEventHandler::Resize(r) => r,
        }
    }

    /// One occurrence of this handle's trigger: forwards to
    /// [`Registration::dispatch`], leaving the trigger itself untouched.
    pub fn dispatch(&mut self, arg: A) -> (r: Option<Continuation>)
        requires
            old(self).spec_reg().wf(),
        ensures
            Self::same_trigger(*old(self), *final(self)),
            final(self).spec_reg().wf(),
            final(self).spec_reg().spec_cb() == old(self).spec_reg().spec_cb(),
            old(self).spec_reg().spec_state() is Retired ==> {
                &&& r is None
                &&& final(self).spec_reg() == old(self).spec_reg()
            },
            old(self).spec_reg().spec_state() is Active ==> {
                &&& r matches Some(cont) && {
                    &&& call_ensures(
                        old(self).spec_reg().spec_cb(),
                        (old(self).spec_reg().spec_ctx(), arg),
                        (final(self).spec_reg().spec_ctx(), cont),
                    )
                    &&& final(self).spec_reg().spec_state() == crate::bridge::spec_step(
                        old(self).spec_reg().spec_state(),
                        cont,
                    )
                }
                &&& final(self).spec_reg().observed() =~= old(self).spec_reg().observed().push(
                    old(self).spec_reg().spec_ctx(),
                )
            },
    {
        match self {
            EcoreEventHandler::Event(_, r) => r.dispatch(arg),
            EcoreEventHandler::Timer(_, r) => r.dispatch(arg),
            EcoreEventHandler::Resize(r) => r.dispatch(arg),
        }
    }
}

/// Register `func` to run with context `data` whenever an event of kind
/// `htype` occurs.  The callback observes exactly `data` at its first
/// invocation; `A` is the payload the event delivers.
pub fn event_handler_add<T, A, F: Fn(Option<T>, A) -> (Option<T>, Continuation)>(
    htype: EcoreEvent,
    func: F,
    data: Option<T>,
) -> (h: EcoreEventHandler<T, A, F>)
    requires
        forall|c: Option<T>, a: A| #[trigger] call_requires(func, (c, a)),
    ensures
        h matches EcoreEventHandler::Event(e, reg) && {
            &&& e == htype
            &&& reg.wf()
            &&& reg.spec_state() is Active
            &&& reg.spec_ctx() == data
            &&& reg.spec_cb() == func
            &&& reg.observed() =~= Seq::<Option<T>>::empty()
        },
{
    EcoreEventHandler::Event(htype, Registration::register(func, data))
}

/// Register `func` to run with context `data` every `interval_us`
/// microseconds.  A timer occurrence carries no payload.
pub fn timer_add<T, F: Fn(Option<T>, ()) -> (Option<T>, Continuation)>(
    interval_us: u64,
    func: F,
    data: Option<T>,
) -> (h: EcoreEventHandler<T, (), F>)
    requires
        forall|c: Option<T>, a: ()| #[trigger] call_requires(func, (c, a)),
    ensures
        h matches EcoreEventHandler::Timer(i, reg) && {
            &&& i == interval_us
            &&& reg.wf()
            &&& reg.spec_state() is Active
            &&& reg.spec_ctx() == data
            &&& reg.spec_cb() == func
            &&& reg.observed() =~= Seq::<Option<T>>::empty()
        },
{
    EcoreEventHandler::Timer(interval_us, Registration::register(func, data))
}

/// Register `func` to run with context `data` whenever the window `ee` is
/// resized; an occurrence carries the window's new geometry.  The native
/// side is what ties the notifications to the window; the handle returned
/// here carries the typed registration they are delivered through.
pub fn evas_callback_resize_set<V, T, F: Fn(Option<T>, (i32, i32, i32, i32)) -> (Option<T>, Continuation)>(
    ee: &EcoreEvas<V>,
    func: F,
    data: Option<T>,
) -> (h: EcoreEventHandler<T, (i32, i32, i32, i32), F>)
    requires
        forall|c: Option<T>, a: (i32, i32, i32, i32)| #[trigger] call_requires(func, (c, a)),
    ensures
        h matches EcoreEventHandler::Resize(reg) && {
            &&& reg.wf()
            &&& reg.spec_state() is Active
            &&& reg.spec_ctx() == data
            &&& reg.spec_cb() == func
            &&& reg.observed() =~= Seq::<Option<T>>::empty()
        },
{
    let _ = ee;
    EcoreEventHandler::Resize(Registration::register(func, data))
}

/// The value stored under `key` in an association list, where the entry
/// nearest the front wins.
pub open spec fn assoc_lookup<V>(entries: Seq<(String, V)>, key: Seq<char>) -> Option<V>
    decreases entries.len(),
{
    if entries.len() == 0 {
        None
    } else if entries[0].0@ == key {
        Some(entries[0].1)
    } else {
        assoc_lookup(entries.drop_first(), key)
    }
}

/// A window of the windowing layer: its engine, geometry, visibility and
/// the user data stored on it, all owned as plain values.  `V` is the type
/// of the user-data values.
pub struct EcoreEvas<V> {
    engine: Option<String>,
    options: String,
    x: i32,
    y: i32,
    w: i32,
    h: i32,
    shown: bool,
    data: Vec<(String, V)>,
}

impl<V> EcoreEvas<V> {
    /// The engine the window was created with, `None` for the default.
    pub closed spec fn spec_engine(&self) -> Option<Seq<char>> {
        match self.engine {
            Some(s) => Some(s@),
            None => None,
        }
    }

    /// The extra options the window was created with.
    pub closed spec fn spec_options(&self) -> Seq<char> {
        self.options@
    }

    /// The window's geometry: position and size.
    pub closed spec fn spec_geometry(&self) -> (i32, i32, i32, i32) {
        (self.x, self.y, self.w, self.h)
    }

    /// Whether the window has been shown.
    pub closed spec fn spec_shown(&self) -> bool {
        self.shown
    }

    /// The user-data entries stored on the window, most recent first.
    pub closed spec fn spec_data(&self) -> Seq<(String, V)> {
        self.data@
    }

    /// The user-data value stored under `key`, if any.
    pub open spec fn spec_lookup(&self, key: Seq<char>) -> Option<V> {
        assoc_lookup(self.spec_data(), key)
    }
}

/// Create a window with the given engine (`None` asks the native layer to
/// pick one), geometry and extra options.  The window starts hidden, its
/// geometry is exactly the one asked for, and no user data is stored yet.
pub fn evas_new<V>(
    engine_name: Option<&str>,
    x: i32,
    y: i32,
    w: i32,
    h: i32,
    extra_options: &str,
) -> (ee: EcoreEvas<V>)
    ensures
        engine_name matches Some(s) ==> ee.spec_engine() == Some(s@),
        engine_name is None ==> ee.spec_engine() is None,
        ee.spec_options() == extra_options@,
        ee.spec_geometry() == (x, y, w, h),
        !ee.spec_shown(),
        ee.spec_data() =~= Seq::<(String, V)>::empty(),
{
    let engine = match engine_name {
        Some(s) => Some(s.to_owned()),
        None => None,
    };
    EcoreEvas { engine, options: extra_options.to_owned(), x, y, w, h, shown: false, data: Vec::new() }
}

/// Show the window; everything else about it stays as it was.
pub fn evas_show<V>(ee: &mut EcoreEvas<V>)
    ensures
        final(ee).spec_shown(),
        final(ee).spec_engine() == old(ee).spec_engine(),
        final(ee).spec_options() == old(ee).spec_options(),
        final(ee).spec_geometry() == old(ee).spec_geometry(),
        final(ee).spec_data() == old(ee).spec_data(),
{
    ee.shown = true;
}

/// The window's geometry, exactly as it was created or last resized.
pub fn evas_geometry_get<V>(ee: &EcoreEvas<V>) -> (g: (i32, i32, i32, i32))
    ensures
        g == ee.spec_geometry(),
{
    (ee.x, ee.y, ee.w, ee.h)
}

/// Store `value` under `key` on the window.  Afterwards `key` holds
/// exactly `value`, every other key holds what it held before, and the
/// rest of the window is untouched.
pub fn evas_data_set<V>(ee: &mut EcoreEvas<V>, key: &str, value: V)
    ensures
        final(ee).spec_lookup(key@) == Some(value),
        forall|k: Seq<char>| k != key@ ==> final(ee).spec_lookup(k) == old(ee).spec_lookup(k),
        final(ee).spec_engine() == old(ee).spec_engine(),
        final(ee).spec_options() == old(ee).spec_options(),
        final(ee).spec_geometry() == old(ee).spec_geometry(),
        final(ee).spec_shown() == old(ee).spec_shown(),
{
    ee.data.insert(0, (key.to_owned(), value));
    proof {
        assert(ee.data@.drop_first() =~= old(ee).data@);
    }
}

/// The value stored under `key` on the window, if any.
pub fn evas_data_get<'a, V>(ee: &'a EcoreEvas<V>, key: &str) -> (r: Option<&'a V>)
    ensures
        r matches Some(v) ==> ee.spec_lookup(key@) == Some(*v),
        r is None ==> ee.spec_lookup(key@) is None,
{
    let k: String = key.to_owned();
    let mut i: usize = 0;
    proof {
        assert(ee.data@.skip(0) =~= ee.data@);
    }
    while i < ee.data.len()
        invariant
            i <= ee.data.len(),
            k@ == key@,
            assoc_lookup(ee.data@.skip(i as int), key@) == ee.spec_lookup(key@),
        decreases ee.data.len() - i,
    {
        if ee.data[i].0 == k {
            proof {
                assert(ee.data@.skip(i as int)[0] == ee.data@[i as int]);
            }
            return Some(&ee.data[i].1);
        }
        proof {
            assert(ee.data@.skip(i as int)[0] == ee.data@[i as int]);
            assert(ee.data@.skip(i as int).drop_first() =~= ee.data@.skip(i as int + 1));
        }
        i = i + 1;
    }
    proof {
        assert(ee.data@.skip(i as int) =~= Seq::<(String, V)>::empty());
    }
    None
}

/// Release the window.  Taking it by value, the handle cannot be used
/// again afterwards: what the native layer documents as a caller
/// obligation is owed here by ownership.
pub fn evas_free<V>(ee: EcoreEvas<V>) {
    let _ = ee;
}

} // verus!
