//! Connection identifiers and their generator.
//!
//! Each accepted connection is assigned a `ConnectionId`, minted by a
//! `ConnectionIdGenerator`: a single monotonically increasing counter shared
//! by every accept event of the process. Generation calls linearize (the
//! counter is advanced under exclusive access, here expressed by `&mut`), so
//! any history of calls is a sequence in which every call reads the counter
//! and advances it by one; the lemmas below derive uniqueness and
//! monotonicity of the returned identifiers from that.

use vstd::prelude::*;

verus! {

/// An opaque, comparable, cheaply copyable value identifying one connection
/// for the lifetime of the process. Minted once at accept time, never reused.
#[derive(Debug, Clone, Copy, PartialEq, Eq, Structural, Hash)]
pub struct ConnectionId {
    value: u64,
}

impl ConnectionId {
    /// The numeric value behind the identifier.
    pub closed spec fn spec_value(self) -> u64 {
        self.value
    }

    /// Returns the numeric value behind the identifier.
    pub fn value(&self) -> (v: u64)
        ensures
            v == self.spec_value(),
    {
        self.value
    }
}

/// The process-wide source of connection identifiers: a counter that every
/// generation call reads and advances by one.
#[derive(Debug)]
pub struct ConnectionIdGenerator {
    next_id: u64,
}

/// One generation call: starting from the counter state `pre`, the call
/// returns `id` and leaves the counter in state `post`.
pub open spec fn generates(
    pre: ConnectionIdGenerator,
    id: ConnectionId,
    post: ConnectionIdGenerator,
) -> bool {
    &&& id.spec_value() == pre.next()
    &&& post.next() == pre.next() + 1
}

impl ConnectionIdGenerator {
    /// The value the next generated identifier will carry.
    pub closed spec fn next(self) -> u64 {
        self.next_id
    }

    /// Creates a fresh generator; numbering restarts at 1.
    pub fn new() -> (g: Self)
        ensures
            g.next() == 1,
    {
        ConnectionIdGenerator { next_id: 1 }
    }

    /// Returns the value the next generated identifier will carry, without
    /// advancing the counter: unverified callers use it to rule out the
    /// counter's upper bound before generating.
    pub fn next_value(&self) -> (v: u64)
        ensures
            v == self.next(),
    {
        self.next_id
    }

    /// Mints the next identifier and advances the counter.
    ///
    /// Never fails; wraparound of the counter is out of scope (unreachable in
    /// a process lifetime at realistic connection rates), so the natural range
    /// of the counter is the only bound.
    pub fn generate_id(&mut self) -> (id: ConnectionId)
        requires
            old(self).next() < u64::MAX,
        ensures
            generates(*old(self), id, *final(self)),
    {
        let id = ConnectionId { value: self.next_id };
        self.next_id = self.next_id + 1;
        id
    }
}

impl Default for ConnectionIdGenerator {
    /// A fresh generator, numbering from 1.
    fn default() -> (g: Self)
        ensures
            g.next() == 1,
    {
        ConnectionIdGenerator::new()
    }
}

/// A history of generation calls: starting from counter state `g0`, the calls
/// returned the identifiers of `ids` in order and left the counter in state
/// `g1`. Concurrent calls linearize to such a history because each call holds
/// the counter exclusively while it reads and advances it.
pub open spec fn generation_history(
    g0: ConnectionIdGenerator,
    ids: Seq<ConnectionId>,
    g1: ConnectionIdGenerator,
) -> bool
    decreases ids.len(),
{
    if ids.len() == 0 {
        g1 == g0
    } else {
        exists|mid: ConnectionIdGenerator|
            generates(g0, ids[0], mid) && generation_history(mid, ids.skip(1), g1)
    }
}

/// The empty history: no call happened, the counter did not move.
pub proof fn lemma_history_empty(g: ConnectionIdGenerator)
    ensures
        generation_history(g, Seq::empty(), g),
{
}

/// A history grows by one call: appending the contract of a further
/// `generate_id` call to a history yields the longer history.
pub proof fn lemma_history_extend(
    g0: ConnectionIdGenerator,
    ids: Seq<ConnectionId>,
    g1: ConnectionIdGenerator,
    id: ConnectionId,
    g2: ConnectionIdGenerator,
)
    requires
        generation_history(g0, ids, g1),
        generates(g1, id, g2),
    ensures
        generation_history(g0, ids.push(id), g2),
    decreases ids.len(),
{
    if ids.len() == 0 {
        assert(ids.push(id)[0] == id);
        assert(ids.push(id).skip(1) =~= Seq::empty());
        assert(generates(g0, ids.push(id)[0], g2) && generation_history(
            g2,
            ids.push(id).skip(1),
            g2,
        ));
    } else {
        let mid = choose|mid: ConnectionIdGenerator|
            generates(g0, ids[0], mid) && generation_history(mid, ids.skip(1), g1);
        lemma_history_extend(mid, ids.skip(1), g1, id, g2);
        assert(ids.push(id).skip(1) =~= ids.skip(1).push(id));
        assert(ids.push(id)[0] == ids[0]);
        assert(generates(g0, ids.push(id)[0], mid) && generation_history(
            mid,
            ids.push(id).skip(1),
            g2,
        ));
    }
}

/// In any generation history, the identifier of call `i` carries the initial
/// counter value advanced by `i`, and the final counter has advanced by the
/// number of calls.
pub proof fn lemma_history_values(
    g0: ConnectionIdGenerator,
    ids: Seq<ConnectionId>,
    g1: ConnectionIdGenerator,
)
    requires
        generation_history(g0, ids, g1),
    ensures
        g1.next() == g0.next() + ids.len(),
        forall|i: int| 0 <= i < ids.len() ==> ids[i].spec_value() == g0.next() + i,
    decreases ids.len(),
{
    if ids.len() > 0 {
        let mid = choose|mid: ConnectionIdGenerator|
            generates(g0, ids[0], mid) && generation_history(mid, ids.skip(1), g1);
        lemma_history_values(mid, ids.skip(1), g1);
        assert forall|i: int| 0 <= i < ids.len() implies ids[i].spec_value() == g0.next() + i by {
            if i > 0 {
                assert(ids.skip(1)[i - 1] == ids[i]);
            }
        }
    }
}

/// Uniqueness: the identifiers returned by the calls of one generation
/// history are pairwise distinct, however many calls the history holds.
pub proof fn lemma_history_ids_distinct(
    g0: ConnectionIdGenerator,
    ids: Seq<ConnectionId>,
    g1: ConnectionIdGenerator,
)
    requires
        generation_history(g0, ids, g1),
    ensures
        forall|i: int, j: int|
            0 <= i < ids.len() && 0 <= j < ids.len() && i != j ==> ids[i] != ids[j],
{
    lemma_history_values(g0, ids, g1);
    assert forall|i: int, j: int|
        0 <= i < ids.len() && 0 <= j < ids.len() && i != j implies ids[i] != ids[j] by {
        assert(ids[i].spec_value() != ids[j].spec_value());
    }
}

/// Monotonicity: when one generation call fully precedes another (the
/// counter never moves backward between them: it only ever advances), the
/// earlier call's identifier compares strictly less than the later one's.
pub proof fn lemma_generation_monotonic(
    pre_a: ConnectionIdGenerator,
    a: ConnectionId,
    post_a: ConnectionIdGenerator,
    pre_b: ConnectionIdGenerator,
    b: ConnectionId,
    post_b: ConnectionIdGenerator,
)
    requires
        generates(pre_a, a, post_a),
        generates(pre_b, b, post_b),
        post_a.next() <= pre_b.next(),
    ensures
        a.spec_value() < b.spec_value(),
{
}

} // verus!
