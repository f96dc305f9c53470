//! The scoped event-observation mechanism, generic over one layer's events.
//!
//! A [`Tracer`] owns one layer's binding slot together with its write-once
//! activation cache. Interpreter instances own one tracer per layer; nothing
//! here is global, so two interpreter instances never share a slot, and
//! re-entrant broadcast into an occupied slot is ruled out by exclusive
//! (`&mut`) access instead of a run-time abort.

use vstd::prelude::*;

verus! {

/// The capability an observer implements: accept one event of this layer's
/// taxonomy, mutating arbitrary state of its own.
///
/// `received` is the listener's abstraction: the ordered sequence of events
/// it has accepted so far. Every implementation accounts for each delivered
/// event by appending it there, and is otherwise unconstrained.
pub trait EventListener: Sized {
    /// The layer's event taxonomy.
    type Event;

    /// The ordered sequence of events this listener has accepted so far.
    spec fn received(&self) -> Seq<Self::Event>;

    /// Accept one event.
    fn event(&mut self, e: Self::Event)
        ensures
            final(self).received() == old(self).received().push(e),
    ;
}

/// The abstract state of a [`Tracer`]: who occupies the binding slot, and
/// what the activation cache holds (`None` while still uninitialized).
pub struct TracerView<L: EventListener> {
    pub listener: Option<L>,
    pub cache: Option<bool>,
}

impl<L: EventListener> TracerView<L> {
    /// Whether the binding slot is occupied.
    pub open spec fn bound(&self) -> bool {
        self.listener is Some
    }

    /// The events the current occupant has accepted so far.
    pub open spec fn trace(&self) -> Seq<L::Event>
        recommends
            self.bound(),
    {
        self.listener->0.received()
    }

    /// What `is_environmental` answers in this state: the cached value if the
    /// cache is initialized, and otherwise the present occupancy of the slot.
    pub open spec fn env_active(&self) -> bool {
        match self.cache {
            Some(b) => b,
            None => self.bound(),
        }
    }
}

/// How one broadcast changes a tracer state: with the slot empty nothing at
/// all happens; with an occupant, that occupant accepts the event and stays
/// bound, and the cache is untouched.
pub open spec fn emit_step<L: EventListener>(
    pre: TracerView<L>,
    e: L::Event,
    post: TracerView<L>,
) -> bool {
    match pre.listener {
        None => post == pre,
        Some(l) => {
            &&& post.cache == pre.cache
            &&& post.listener matches Some(l2) && l2.received() == l.received().push(e)
        },
    }
}

/// How entering a scope changes a tracer state: the new listener occupies the
/// slot; the cache carries over.
pub open spec fn install_step<L: EventListener>(
    pre: TracerView<L>,
    new_listener: L,
    post: TracerView<L>,
) -> bool {
    &&& post.listener == Some(new_listener)
    &&& post.cache == pre.cache
}

/// How leaving a scope changes a tracer state: the occupant recorded before
/// the scope (`pre`, possibly none) is back in the slot. A cache that already
/// held a value before the scope is write-once and keeps it; only a cache
/// that was still uninitialized adopts what the scope determined
/// (`inner_end`).
pub open spec fn restore_step<L: EventListener>(
    pre: TracerView<L>,
    inner_end: TracerView<L>,
    post: TracerView<L>,
) -> bool {
    &&& post.listener == pre.listener
    &&& post.cache == (if pre.cache is Some {
        pre.cache
    } else {
        inner_end.cache
    })
}

/// How one activation query changes a tracer state: the binding is untouched
/// and the cache afterwards holds the answer, which never changes again.
pub open spec fn env_step<L: EventListener>(pre: TracerView<L>, post: TracerView<L>) -> bool {
    &&& post.listener == pre.listener
    &&& post.cache == Some(pre.env_active())
}

/// One layer's binding slot and activation cache.
///
/// The slot holds at most one listener, installed for the duration of one
/// [`Tracer::using`] scope; scopes nest with stack discipline. The cache is
/// write-once: the first [`Tracer::is_environmental`] call fixes its value
/// for the rest of the tracer's lifetime.
pub struct Tracer<L: EventListener> {
    slot: Option<L>,
    active: Option<bool>,
}

impl<L: EventListener> View for Tracer<L> {
    type V = TracerView<L>;

    closed spec fn view(&self) -> TracerView<L> {
        TracerView { listener: self.slot, cache: self.active }
    }
}

impl<L: EventListener> Tracer<L> {
    /// A fresh layer state: no listener bound, activation cache untouched.
    pub fn new() -> (t: Tracer<L>)
        ensures
            t@.listener is None,
            t@.cache is None,
    {
        Tracer { slot: None, active: None }
    }

    /// Broadcast one event: the current occupant of the slot accepts it; with
    /// the slot empty, nothing observable happens and the state is unchanged.
    ///
    /// Delivery is synchronous and in emission order: each call appends the
    /// event to the occupant's `received` sequence before returning.
    pub fn emit(&mut self, e: L::Event)
        ensures
            emit_step(old(self)@, e, final(self)@),
            old(self)@.listener is None ==> final(self)@ == old(self)@,
            old(self)@.bound() ==> final(self)@.bound() && final(self)@.trace()
                == old(self)@.trace().push(e),
    {
        if let Some(l) = &mut self.slot {
            l.event(e);
        }
    }

    /// Look up the slot and hand the callback the occupant, returning the
    /// callback's result; with the slot empty the callback is never invoked
    /// and the state is unchanged.
    ///
    /// The callback takes the occupant by value and gives a successor back;
    /// exclusive access is thereby enforced at compile time, so a re-entrant
    /// lookup of the same slot from inside the callback cannot be written.
    pub fn with<R, F: FnOnce(L) -> (L, R)>(&mut self, f: F) -> (res: Option<R>)
        requires
            forall|l: L| old(self)@.listener == Some(l) ==> call_requires(f, (l,)),
        ensures
            final(self)@.cache == old(self)@.cache,
            old(self)@.listener is None ==> final(self)@ == old(self)@ && res is None,
            old(self)@.listener is Some ==> res is Some && final(self)@.listener is Some
                && call_ensures(f, (old(self)@.listener->0,), (final(self)@.listener->0, res->0)),
    {
        match self.slot.take() {
            Some(l) => {
                let (l2, r) = f(l);
                self.slot = Some(l2);
                Some(r)
            },
            None => None,
        }
    }

    /// Answer "was a listener bound the first time this was asked".
    ///
    /// The first call reads the slot and fixes the answer in the activation
    /// cache; every later call returns the cached value without consulting
    /// the slot again. The answer is therefore deliberately stale once the
    /// binding state changes after that first call.
    pub fn is_environmental(&mut self) -> (active: bool)
        ensures
            active == old(self)@.env_active(),
            env_step(old(self)@, final(self)@),
            final(self)@.listener == old(self)@.listener,
            final(self)@.cache == Some(active),
    {
        match self.active {
            Some(b) => b,
            None => {
                let b = self.slot.is_some();
                self.active = Some(b);
                b
            },
        }
    }

    /// Run `operation` with `new_listener` installed in the slot, and restore
    /// the occupant recorded beforehand — possibly "no listener" — when the
    /// operation is done, whatever state the operation leaves behind. An
    /// activation cache that already held a value keeps it; one still
    /// uninitialized adopts what the scope determined.
    ///
    /// The operation receives the layer state by value and returns its
    /// successor, so nested `using` calls shadow and un-shadow listeners with
    /// stack discipline. The call returns the operation's result together
    /// with the listener the operation left installed (normally
    /// `new_listener`, after accepting the events emitted in the scope).
    ///
    /// An operation that unwinds instead of returning is outside the verified
    /// model: the tracer was moved into it, so nothing is restored then.
    pub fn using<R, F: FnOnce(Tracer<L>) -> (Tracer<L>, R)>(&mut self, new_listener: L, f: F)
        -> (res: (R, Option<L>))
        requires
            forall|t: Tracer<L>| install_step(old(self)@, new_listener, t@)
                ==> call_requires(f, (t,)),
        ensures
            final(self)@.listener == old(self)@.listener,
            old(self)@.cache is Some ==> final(self)@.cache == old(self)@.cache,
            exists|t1: Tracer<L>, t2: Tracer<L>| {
                &&& install_step(old(self)@, new_listener, t1@)
                &&& #[trigger] call_ensures(f, (t1,), (t2, res.0))
                &&& res.1 == t2@.listener
                &&& restore_step(old(self)@, t2@, final(self)@)
            },
    {
        let previous = self.slot.take();
        let inner = Tracer { slot: Some(new_listener), active: self.active };
        let ghost started: Tracer<L> = inner;
        proof {
            // The forall of the requires is instantiated at the scope
            // actually handed to the operation.
            assert(install_step(old(self)@, new_listener, inner@));
        }
        let (end, r) = f(inner);
        let ghost ended: Tracer<L> = end;
        let Tracer { slot: end_slot, active: end_active } = end;
        if self.active.is_none() {
            self.active = end_active;
        }
        self.slot = previous;
        let res = (r, end_slot);
        proof {
            // The witnesses of the ensures: the scope as installed and as the
            // operation left it.
            assert(call_ensures(f, (started,), (ended, res.0)));
        }
        res
    }
}

/// Nested scopes route events with stack discipline: an event emitted while
/// an inner scope is active reaches the inner listener, and an event emitted
/// after the inner scope has ended — still inside the outer scope — reaches
/// the outer listener.
pub proof fn lemma_nested_scope_routing<L: EventListener>(
    v0: TracerView<L>,
    outer: L,
    v1: TracerView<L>,
    inner: L,
    v2: TracerView<L>,
    e_inner: L::Event,
    v3: TracerView<L>,
    v4: TracerView<L>,
    e_outer: L::Event,
    v5: TracerView<L>,
)
    requires
        install_step(v0, outer, v1),
        install_step(v1, inner, v2),
        emit_step(v2, e_inner, v3),
        restore_step(v1, v3, v4),
        emit_step(v4, e_outer, v5),
    ensures
        v3.listener matches Some(l) && l.received() == inner.received().push(e_inner),
        v5.listener matches Some(l) && l.received() == outer.received().push(e_outer),
{
}

/// A scope restores the binding state recorded before it exactly — including
/// "no listener" — whatever binding state the operation inside left behind.
pub proof fn lemma_scope_restores_binding<L: EventListener>(
    pre: TracerView<L>,
    inner_end: TracerView<L>,
    post: TracerView<L>,
)
    requires
        restore_step(pre, inner_end, post),
    ensures
        post.listener == pre.listener,
        !pre.bound() ==> !post.bound(),
{
}

/// With no listener ever bound — so the activation cache holds nothing or
/// `false` — broadcasting changes nothing at all, and the activation query
/// answers `false`.
pub proof fn lemma_unobserved_is_inert<L: EventListener>(v: TracerView<L>, e: L::Event)
    requires
        !v.bound(),
        v.cache is None || v.cache == Some(false),
    ensures
        forall|post: TracerView<L>| emit_step(v, e, post) ==> post == v,
        !v.env_active(),
{
}

/// The activation answer is deliberately stale: asked once with no listener
/// bound, the query fixes `false`, and inside a scope entered afterwards the
/// query still answers `false` although a listener is bound there.
pub proof fn lemma_activation_cache_is_stale<L: EventListener>(
    v0: TracerView<L>,
    v1: TracerView<L>,
    l: L,
    v2: TracerView<L>,
)
    requires
        !v0.bound(),
        v0.cache is None,
        env_step(v0, v1),
        install_step(v1, l, v2),
    ensures
        !v0.env_active(),
        v2.bound(),
        !v2.env_active(),
{
}

/// Events are delivered in emission order: two broadcasts into an occupied
/// slot extend the occupant's received sequence by exactly those two events,
/// in that order.
pub proof fn lemma_delivery_in_order<L: EventListener>(
    v0: TracerView<L>,
    e1: L::Event,
    v1: TracerView<L>,
    e2: L::Event,
    v2: TracerView<L>,
)
    requires
        v0.bound(),
        emit_step(v0, e1, v1),
        emit_step(v1, e2, v2),
    ensures
        v2.bound(),
        v2.trace() == v0.trace().push(e1).push(e2),
{
}

/// The activation cache is write-once: once it holds a value, no single step
/// of the mechanism — a broadcast, entering a scope, leaving it again, or the
/// activation query itself — ever changes it, whatever state
/// (`inner_end`) the left scope hands back.
pub proof fn lemma_cache_write_once<L: EventListener>(
    pre: TracerView<L>,
    post: TracerView<L>,
    b: bool,
    e: L::Event,
    l: L,
    inner_end: TracerView<L>,
)
    requires
        pre.cache == Some(b),
    ensures
        emit_step(pre, e, post) ==> post.cache == Some(b),
        install_step(pre, l, post) ==> post.cache == Some(b),
        restore_step(pre, inner_end, post) ==> post.cache == Some(b),
        env_step(pre, post) ==> post.cache == Some(b),
{
}

/// A listener that records every event it accepts, in order, into a vector.
pub struct RecordingListener<E> {
    pub log: Vec<E>,
}

impl<E> RecordingListener<E> {
    /// A recorder with an empty log.
    pub fn new() -> (l: RecordingListener<E>)
        ensures
            l.received() == Seq::<E>::empty(),
    {
        RecordingListener { log: Vec::new() }
    }
}

impl<E> EventListener for RecordingListener<E> {
    type Event = E;

    open spec fn received(&self) -> Seq<E> {
        self.log@
    }

    fn event(&mut self, e: E) {
        self.log.push(e);
    }
}

} // verus!
