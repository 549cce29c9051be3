//! The typed callback bridge.
//!
//! A [`Registration`] pairs a strongly-typed callback with the context it
//! was registered with.  Each occurrence of the trigger hands the callback
//! the stored context together with the occurrence's payload; the callback
//! answers with the next context and a [`Continuation`].  `Cancel` retires
//! the registration: a retired registration is never invoked again.
//!
//! The context type is a type parameter of the registration, so a callback
//! can only ever be registered together with a context of the type it
//! expects; no erased pointer appears anywhere in this interface.

use vstd::prelude::*;

verus! {

/// What a callback answers after an invocation: keep the registration
/// (`Renew`) or retire it (`Cancel`).
#[derive(Clone, Copy, Debug, PartialEq, Eq, Structural)]
pub enum Continuation {
    Renew,
    Cancel,
}

/// The two lifecycle states of a registration: `Active` registrations are
/// invoked on each occurrence of their trigger, `Retired` ones never again.
#[derive(Clone, Copy, Debug, PartialEq, Eq, Structural)]
pub enum RegState {
    Active,
    Retired,
}

/// The byte the native toolkit uses for a true boolean, and for the
/// "renew" answer of a callback.
pub const NATIVE_TRUE: u8 = 1;

/// The byte the native toolkit uses for a false boolean, and for the
/// "cancel" answer of a callback.
pub const NATIVE_FALSE: u8 = 0;

impl Continuation {
    /// The byte encoding the toolkit expects for this answer.
    pub open spec fn spec_to_native(self) -> u8 {
        if self is Renew {
            NATIVE_TRUE
        } else {
            NATIVE_FALSE
        }
    }

    /// The answer a byte of the toolkit decodes to: any non-zero byte
    /// counts as true, hence as `Renew`.
    pub open spec fn spec_of_native(v: u8) -> Continuation {
        if v == NATIVE_FALSE {
            Continuation::Cancel
        } else {
            Continuation::Renew
        }
    }

    /// Encode this answer in the toolkit's boolean convention.
    pub fn to_native(self) -> (r: u8)
        ensures
            r == self.spec_to_native(),
    {
        match self {
            Continuation::Renew => NATIVE_TRUE,
            Continuation::Cancel => NATIVE_FALSE,
        }
    }

    /// Decode an answer from the toolkit's boolean convention.
    pub fn of_native(v: u8) -> (r: Continuation)
        ensures
            r == Continuation::spec_of_native(v),
    {
        if v == NATIVE_FALSE {
            Continuation::Cancel
        } else {
            Continuation::Renew
        }
    }
}

/// Decoding an encoded answer gives the answer back: the boolean
/// convention loses nothing.
pub proof fn lemma_native_round_trip(c: Continuation)
    ensures
        Continuation::spec_of_native(c.spec_to_native()) == c,
{
}

/// The state a registration is in after one invocation that answered `c`.
pub open spec fn spec_step(s: RegState, c: Continuation) -> RegState {
    if s is Retired {
        RegState::Retired
    } else if c is Cancel {
        RegState::Retired
    } else {
        RegState::Active
    }
}

/// A run of one registration, with the callback's behaviour abstracted: at
/// its `i`-th invocation the callback answers with `replies[i].0` as the
/// next context and `replies[i].1` as its continuation.  Starting from
/// state `s` and context `ctx`, and with the trigger occurring once per
/// reply, the result is the final state, the final context, and the
/// sequence of contexts the callback observed, one per invocation.
pub open spec fn spec_run<T>(
    s: RegState,
    ctx: Option<T>,
    replies: Seq<(Option<T>, Continuation)>,
) -> (RegState, Option<T>, Seq<Option<T>>)
    decreases replies.len(),
{
    if replies.len() == 0 {
        (s, ctx, Seq::<Option<T>>::empty())
    } else if s is Retired {
        (RegState::Retired, ctx, Seq::<Option<T>>::empty())
    } else {
        let reply = replies[0];
        let rest = spec_run(spec_step(s, reply.1), reply.0, replies.drop_first());
        (rest.0, rest.1, seq![ctx] + rest.2)
    }
}

/// A retired registration is invoked exactly zero further times, however
/// often its trigger still occurs, and it stays retired.
pub proof fn lemma_retired_never_invoked<T>(
    ctx: Option<T>,
    replies: Seq<(Option<T>, Continuation)>,
)
    ensures
        spec_run(RegState::Retired, ctx, replies).0 is Retired,
        spec_run(RegState::Retired, ctx, replies).2 == Seq::<Option<T>>::empty(),
        spec_run(RegState::Retired, ctx, replies).1 == ctx,
{
}

/// What every invocation observes is exactly what the bridge stored: the
/// first invocation observes the context given at registration, and each
/// later invocation observes precisely the context the callback answered
/// with the time before.  The bridge never substitutes a value of its own,
/// and never invokes more often than the trigger occurs.
pub proof fn lemma_observed_is_stored<T>(
    ctx: Option<T>,
    replies: Seq<(Option<T>, Continuation)>,
)
    ensures
        ({
            let run = spec_run(RegState::Active, ctx, replies);
            &&& run.2.len() <= replies.len()
            &&& run.2.len() > 0 ==> run.2[0] == ctx
            &&& forall|i: int| 1 <= i < run.2.len() ==> run.2[i] == replies[i - 1].0
        }),
    decreases replies.len(),
{
    if replies.len() > 0 {
        let reply = replies[0];
        let rest = spec_run(spec_step(RegState::Active, reply.1), reply.0, replies.drop_first());
        if reply.1 is Cancel {
            lemma_retired_never_invoked(reply.0, replies.drop_first());
        } else {
            lemma_observed_is_stored(reply.0, replies.drop_first());
            let run = spec_run(RegState::Active, ctx, replies);
            assert forall|i: int| 1 <= i < run.2.len() implies run.2[i] == replies[i - 1].0 by {
                assert(run.2[i] == rest.2[i - 1]);
                if i == 1 {
                    assert(rest.2[0] == reply.0);
                } else {
                    assert(rest.2[i - 1] == replies.drop_first()[i - 2].0);
                    assert(replies.drop_first()[i - 2] == replies[i - 1]);
                }
            }
        }
    }
}

/// A callback that hands its context back unchanged observes the very
/// value given at registration on every single invocation, for as long as
/// the registration is active.
pub proof fn lemma_context_constant<T>(
    ctx: Option<T>,
    replies: Seq<(Option<T>, Continuation)>,
)
    requires
        forall|j: int| 0 <= j < replies.len() ==> (#[trigger] replies[j]).0 == ctx,
    ensures
        forall|i: int|
            0 <= i < spec_run(RegState::Active, ctx, replies).2.len()
                ==> #[trigger] spec_run(RegState::Active, ctx, replies).2[i] == ctx,
{
    lemma_observed_is_stored(ctx, replies);
}

/// Answering `Cancel` stops the invocations at once: if the callback
/// answers `Renew` at the first `k` invocations and `Cancel` at the next,
/// there are exactly `k + 1` invocations and the registration ends
/// retired, however often the trigger still occurs.
pub proof fn lemma_cancel_stops_invocations<T>(
    ctx: Option<T>,
    replies: Seq<(Option<T>, Continuation)>,
    k: int,
)
    requires
        0 <= k < replies.len(),
        replies[k].1 is Cancel,
        forall|j: int| 0 <= j < k ==> (#[trigger] replies[j]).1 is Renew,
    ensures
        spec_run(RegState::Active, ctx, replies).0 is Retired,
        spec_run(RegState::Active, ctx, replies).2.len() == k + 1,
    decreases replies.len(),
{
    let reply = replies[0];
    if k == 0 {
        lemma_retired_never_invoked(reply.0, replies.drop_first());
    } else {
        assert(replies.drop_first()[k - 1] == replies[k]);
        assert forall|j: int| 0 <= j < k - 1 implies (#[trigger] replies.drop_first()[j]).1
            is Renew by {
            assert(replies.drop_first()[j] == replies[j + 1]);
        }
        lemma_cancel_stops_invocations(reply.0, replies.drop_first(), k - 1);
    }
}

/// Answering `Renew` keeps the registration eligible: a callback that
/// always answers `Renew` is invoked at every occurrence of the trigger,
/// and the registration stays active throughout.
pub proof fn lemma_renew_keeps_active<T>(
    ctx: Option<T>,
    replies: Seq<(Option<T>, Continuation)>,
)
    requires
        forall|j: int| 0 <= j < replies.len() ==> (#[trigger] replies[j]).1 is Renew,
    ensures
        spec_run(RegState::Active, ctx, replies).0 is Active,
        spec_run(RegState::Active, ctx, replies).2.len() == replies.len(),
    decreases replies.len(),
{
    if replies.len() > 0 {
        let reply = replies[0];
        assert forall|j: int| 0 <= j < replies.drop_first().len() implies (#[trigger] replies
            .drop_first()[j]).1 is Renew by {
            assert(replies.drop_first()[j] == replies[j + 1]);
        }
        lemma_renew_keeps_active(reply.0, replies.drop_first());
    }
}

/// One registration: a callback of type `F`, the context it runs with, and
/// its lifecycle state.
///
/// `T` is the context type, `A` the payload one occurrence of the trigger
/// carries (`()` for timers).  The callback receives the stored context and
/// the payload, and answers with the context to store next and a
/// [`Continuation`].  Because `T` is a parameter of the registration, the
/// context handed to the callback always has the type the callback was
/// written for.
pub struct Registration<T, A, F> {
    state: RegState,
    ctx: Option<T>,
    cb: F,
    observed: Ghost<Seq<Option<T>>>,
    payload: core::marker::PhantomData<A>,
}

impl<T, A, F: Fn(Option<T>, A) -> (Option<T>, Continuation)> Registration<T, A, F> {
    /// The lifecycle state of this registration.
    pub closed spec fn spec_state(&self) -> RegState {
        self.state
    }

    /// The context the next invocation will observe.
    pub closed spec fn spec_ctx(&self) -> Option<T> {
        self.ctx
    }

    /// The callback this registration was made with.
    pub closed spec fn spec_cb(&self) -> F {
        self.cb
    }

    /// The contexts every invocation so far has observed, in order.
    pub closed spec fn observed(&self) -> Seq<Option<T>> {
        self.observed@
    }

    /// The callback accepts every context and payload, so it can be
    /// invoked on whatever occurrence the trigger delivers.
    pub open spec fn wf(&self) -> bool {
        forall|c: Option<T>, a: A| #[trigger] call_requires(self.spec_cb(), (c, a))
    }

    /// Register `cb` to run with context `ctx` on each occurrence of the
    /// trigger.  The registration starts `Active`, holding exactly the
    /// context it was given.
    pub fn register(cb: F, ctx: Option<T>) -> (reg: Self)
        requires
            forall|c: Option<T>, a: A| #[trigger] call_requires(cb, (c, a)),
        ensures
            reg.wf(),
            reg.spec_state() is Active,
            reg.spec_ctx() == ctx,
            reg.spec_cb() == cb,
            reg.observed() =~= Seq::<Option<T>>::empty(),
    {
        Registration {
            state: RegState::Active,
            ctx,
            cb,
            observed: Ghost(Seq::empty()),
            payload: core::marker::PhantomData,
        }
    }

    /// One occurrence of the trigger.  An `Active` registration invokes
    /// the callback on exactly the stored context and the payload, stores
    /// the context the callback answers with, steps the state by the
    /// callback's continuation, and returns that continuation.  A
    /// `Retired` registration is left untouched and returns `None`: it is
    /// invoked zero further times.
    pub fn dispatch(&mut self, arg: A) -> (r: Option<Continuation>)
        requires
            old(self).wf(),
        ensures
            final(self).wf(),
            final(self).spec_cb() == old(self).spec_cb(),
            old(self).spec_state() is Retired ==> {
                &&& r is None
                &&& *final(self) == *old(self)
            },
            old(self).spec_state() is Active ==> {
                &&& r matches Some(cont) && {
                    &&& call_ensures(
                        old(self).spec_cb(),
                        (old(self).spec_ctx(), arg),
                        (final(self).spec_ctx(), cont),
                    )
                    &&& final(self).spec_state() == spec_step(old(self).spec_state(), cont)
                }
                &&& final(self).observed() =~= old(self).observed().push(old(self).spec_ctx())
            },
    {
        let r = match self.state {
            RegState::Retired => None,
            RegState::Active => {
                let ghost seen = self.ctx;
                let c = self.ctx.take();
                proof {
                    assert(call_requires(old(self).spec_cb(), (c, arg)));
                }
                let (c2, cont) = (self.cb)(c, arg);
                self.ctx = c2;
                self.state = match cont {
                    Continuation::Renew => RegState::Active,
                    Continuation::Cancel => RegState::Retired,
                };
                self.observed = Ghost(self.observed@.push(seen));
                Some(cont)
            },
        };
        proof {
            assert forall|c: Option<T>, a: A| #[trigger]
                call_requires(self.spec_cb(), (c, a)) by {
                assert(call_requires(old(self).spec_cb(), (c, a)));
            }
        }
        r
    }

    /// Read the lifecycle state.
    pub fn state(&self) -> (s: RegState)
        ensures
            s == self.spec_state(),
    {
        self.state
    }

    /// Whether the registration is still eligible for invocations.
    pub fn is_active(&self) -> (b: bool)
        ensures
            b == (self.spec_state() is Active),
    {
        match self.state {
            RegState::Active => true,
            RegState::Retired => false,
        }
    }

    /// The context the next invocation would observe.
    pub fn context(&self) -> (c: &Option<T>)
        ensures
            *c == self.spec_ctx(),
    {
        &self.ctx
    }

    /// Give the context back to the caller and discard the registration;
    /// the caller owns the context, the registration only carried it.
    pub fn into_context(self) -> (c: Option<T>)
        ensures
            c == self.spec_ctx(),
    {
        self.ctx
    }
}

} // verus!
