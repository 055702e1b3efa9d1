//! Admission control: a shared counter that bounds how many connections
//! are concurrently serviced.
//!
//! The acceptor calls [`AdmissionCounter::reserve`] once per accepted
//! connection; `reserve` always increments the counter and admits the
//! connection exactly when the pre-increment value was below the ceiling.
//! Every reservation — admitted or denied — is paid back by exactly one
//! [`AdmissionCounter::release`].

use vstd::prelude::*;

verus! {

/// The admission ceiling of the reference configuration.
pub const DEFAULT_CEILING: u8 = 8;

/// A connection is admitted exactly when the slot it drew (the counter's
/// pre-increment value) lies below the ceiling.
pub open spec fn is_admitted(slot: nat, ceiling: nat) -> bool {
    slot < ceiling
}

/// Spec-level image of an [`AdmissionCounter`].
pub ghost struct AdmissionModel {
    /// Reservations currently outstanding.
    pub count: nat,
    /// The fixed admission ceiling.
    pub ceiling: nat,
}

/// The shared admission counter: a single non-negative integer, plus the
/// fixed ceiling it is checked against.  It is initialized to zero and
/// mutated only through the `reserve`/`release` pair.
pub struct AdmissionCounter {
    count: u8,
    ceiling: u8,
}

impl View for AdmissionCounter {
    type V = AdmissionModel;

    closed spec fn view(&self) -> AdmissionModel {
        AdmissionModel { count: self.count as nat, ceiling: self.ceiling as nat }
    }
}

impl AdmissionCounter {
    /// A fresh counter: no reservations outstanding.
    pub fn new(ceiling: u8) -> (c: Self)
        ensures
            c@.count == 0,
            c@.ceiling == ceiling as nat,
    {
        AdmissionCounter { count: 0, ceiling }
    }

    /// The counter's current value.
    pub fn value(&self) -> (n: u8)
        ensures
            n as nat == self@.count,
    {
        self.count
    }

    /// The fixed ceiling the counter was created with.
    pub fn ceiling(&self) -> (n: u8)
        ensures
            n as nat == self@.ceiling,
    {
        self.ceiling
    }

    /// Take a reservation.  The counter is always incremented, whatever the
    /// admission outcome; the returned slot is the pre-increment value, and
    /// the connection is admitted exactly when that slot is below the
    /// ceiling.
    pub fn reserve(&mut self) -> (r: (bool, u8))
        requires
            old(self)@.count < u8::MAX,
        ensures
            final(self)@.count == old(self)@.count + 1,
            final(self)@.ceiling == old(self)@.ceiling,
            r.1 as nat == old(self)@.count,
            r.0 == is_admitted(old(self)@.count, old(self)@.ceiling),
    {
        let slot = self.count;
        self.count = self.count + 1;
        (slot < self.ceiling, slot)
    }

    /// Pay a reservation back.  Called exactly once for every `reserve`,
    /// whether or not admission was granted.
    pub fn release(&mut self)
        requires
            old(self)@.count > 0,
        ensures
            final(self)@.count == old(self)@.count - 1,
            final(self)@.ceiling == old(self)@.ceiling,
    {
        self.count = self.count - 1;
    }
}

/// Abstract state of the whole service's admission protocol at one
/// instant: the value of the shared counter, the number of connections a
/// handler is currently servicing, and the number of reservations taken
/// for denied connections and not yet released.
pub ghost struct ProtocolState {
    pub count: nat,
    pub active: nat,
    pub denied: nat,
}

/// The service starts with the counter at zero and nothing in flight.
pub open spec fn protocol_init(s: ProtocolState) -> bool {
    s.count == 0 && s.active == 0 && s.denied == 0
}

/// The acceptor reserves a slot for a connection whose slot lies below the
/// ceiling and hands the connection to a new handler.
pub open spec fn admit_step(pre: ProtocolState, post: ProtocolState, ceiling: nat) -> bool {
    &&& is_admitted(pre.count, ceiling)
    &&& post.count == pre.count + 1
    &&& post.active == pre.active + 1
    &&& post.denied == pre.denied
}

/// The acceptor reserves a slot for a connection whose slot is at or above
/// the ceiling: the counter still goes up, and the release is now owed.
pub open spec fn deny_reserve_step(pre: ProtocolState, post: ProtocolState, ceiling: nat) -> bool {
    &&& !is_admitted(pre.count, ceiling)
    &&& post.count == pre.count + 1
    &&& post.active == pre.active
    &&& post.denied == pre.denied + 1
}

/// The acceptor pays back the reservation of a denied connection.
pub open spec fn deny_release_step(pre: ProtocolState, post: ProtocolState) -> bool {
    &&& pre.denied > 0
    &&& post.count + 1 == pre.count
    &&& post.active == pre.active
    &&& post.denied + 1 == pre.denied
}

/// A handler finishes — cleanly or not — and pays back its reservation.
pub open spec fn finish_step(pre: ProtocolState, post: ProtocolState) -> bool {
    &&& pre.active > 0
    &&& post.count + 1 == pre.count
    &&& post.active + 1 == pre.active
    &&& post.denied == pre.denied
}

/// One atomic step of the admission protocol, by any of its parties (the
/// acceptor, or any running handler).
pub open spec fn protocol_step(pre: ProtocolState, post: ProtocolState, ceiling: nat) -> bool {
    ||| admit_step(pre, post, ceiling)
    ||| deny_reserve_step(pre, post, ceiling)
    ||| deny_release_step(pre, post)
    ||| finish_step(pre, post)
}

/// The protocol invariant: the counter counts exactly the outstanding
/// reservations, and the number of concurrently serviced connections
/// never exceeds the ceiling.
pub open spec fn protocol_inv(s: ProtocolState, ceiling: nat) -> bool {
    &&& s.count == s.active + s.denied
    &&& s.active <= ceiling
}

/// A run of the admission protocol: a non-empty sequence of states that
/// starts at the initial state and advances only by protocol steps.
pub open spec fn is_execution(tr: Seq<ProtocolState>, ceiling: nat) -> bool {
    &&& tr.len() > 0
    &&& protocol_init(tr[0])
    &&& forall|i: int|
        0 <= i < tr.len() - 1 ==> #[trigger] protocol_step(tr[i], tr[i + 1], ceiling)
}

/// The initial state satisfies the protocol invariant.
pub proof fn lemma_init_inv(s: ProtocolState, ceiling: nat)
    requires
        protocol_init(s),
    ensures
        protocol_inv(s, ceiling),
{
}

/// Every protocol step preserves the protocol invariant.
pub proof fn lemma_step_preserves_inv(pre: ProtocolState, post: ProtocolState, ceiling: nat)
    requires
        protocol_inv(pre, ceiling),
        protocol_step(pre, post, ceiling),
    ensures
        protocol_inv(post, ceiling),
{
}

/// Every state along a run of the admission protocol satisfies the
/// protocol invariant.
pub proof fn lemma_execution_inv(tr: Seq<ProtocolState>, ceiling: nat, i: int)
    requires
        is_execution(tr, ceiling),
        0 <= i < tr.len(),
    ensures
        protocol_inv(tr[i], ceiling),
    decreases i,
{
    if i == 0 {
        lemma_init_inv(tr[0], ceiling);
    } else {
        lemma_execution_inv(tr, ceiling, i - 1);
        assert(protocol_step(tr[i - 1], tr[(i - 1) + 1], ceiling));
        lemma_step_preserves_inv(tr[i - 1], tr[i], ceiling);
    }
}

/// Admission ceiling: at every instant of every run of the protocol, at
/// most `ceiling` connections are concurrently serviced.
pub proof fn lemma_admission_ceiling(tr: Seq<ProtocolState>, ceiling: nat, i: int)
    requires
        is_execution(tr, ceiling),
        0 <= i < tr.len(),
    ensures
        tr[i].active <= ceiling,
{
    lemma_execution_inv(tr, ceiling, i);
}

/// Counter conservation: every reservation is paid back by exactly one
/// release, so at every quiescent instant of every run — no handler still
/// running, no denied reservation still owed — the counter is back at
/// zero.
pub proof fn lemma_counter_conservation(tr: Seq<ProtocolState>, ceiling: nat, i: int)
    requires
        is_execution(tr, ceiling),
        0 <= i < tr.len(),
        tr[i].active == 0,
        tr[i].denied == 0,
    ensures
        tr[i].count == 0,
{
    lemma_execution_inv(tr, ceiling, i);
}

/// The counter exceeds the ceiling at most transiently: never by more
/// than the number of denied reservations still awaiting their release.
pub proof fn lemma_transient_excess(tr: Seq<ProtocolState>, ceiling: nat, i: int)
    requires
        is_execution(tr, ceiling),
        0 <= i < tr.len(),
    ensures
        tr[i].count <= ceiling + tr[i].denied,
{
    lemma_execution_inv(tr, ceiling, i);
}

} // verus!
