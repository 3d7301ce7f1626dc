//! Edge detection with one latch bit per identifier.
//!
//! A level-triggered signal ("the key is held", "the colliders touch") is
//! turned into an edge-triggered one ("the key was just pressed") by
//! remembering, per identifier, whether the signal was already high at the
//! previous probe. Keys and collider handles share this state machine.

use vstd::prelude::*;
use crate::tables::IdSet;

verus! {

/// One probe of the latch for `id` while the signal is at `level`: the latch
/// set afterwards, and whether this probe saw a rising edge.
pub open spec fn latch_step(locks: Set<u64>, id: u64, level: bool) -> (Set<u64>, bool) {
    if level {
        if locks.contains(id) {
            (locks, false)
        } else {
            (locks.insert(id), true)
        }
    } else {
        (locks.remove(id), false)
    }
}

/// A set of latched identifiers.
pub struct EdgeLatch {
    locks: IdSet,
}

impl View for EdgeLatch {
    type V = Set<u64>;

    closed spec fn view(&self) -> Set<u64> {
        self.locks@
    }
}

impl EdgeLatch {
    pub fn new() -> (latch: EdgeLatch)
        ensures
            latch@ == Set::<u64>::empty(),
    {
        EdgeLatch { locks: IdSet::new() }
    }

    pub fn is_latched(&self, id: u64) -> (latched: bool)
        ensures
            latched == self@.contains(id),
    {
        self.locks.contains(id)
    }

    /// Probes the latch for `id` with the signal at `level`. Returns `true`
    /// exactly when the signal is high and was not latched, and latches it;
    /// a low signal releases the latch.
    pub fn rising_edge(&mut self, id: u64, level: bool) -> (edge: bool)
        ensures
            (final(self)@, edge) == latch_step(old(self)@, id, level),
    {
        if level {
            if self.locks.contains(id) {
                false
            } else {
                self.locks.insert(id);
                true
            }
        } else {
            self.locks.remove(id);
            proof {
                assert(final(self)@ =~= old(self)@.remove(id));
            }
            false
        }
    }

    pub fn duplicate(&self) -> (copy: EdgeLatch)
        ensures
            copy@ == self@,
    {
        EdgeLatch { locks: self.locks.duplicate() }
    }
}

/// One probe in a history: which identifier was asked about, and the level
/// of its signal at that moment.
pub struct Probe {
    pub id: u64,
    pub level: bool,
}

/// The latch set after a history of probes.
pub open spec fn locks_after(locks: Set<u64>, probes: Seq<Probe>) -> Set<u64>
    decreases probes.len(),
{
    if probes.len() == 0 {
        locks
    } else {
        latch_step(locks_after(locks, probes.drop_last()), probes.last().id, probes.last().level).0
    }
}

/// Whether the probe at position `i` of a history reported a rising edge.
pub open spec fn edge_at(locks: Set<u64>, probes: Seq<Probe>, i: int) -> bool
    recommends
        0 <= i < probes.len(),
{
    latch_step(locks_after(locks, probes.take(i)), probes[i].id, probes[i].level).1
}

/// The level `id` had at its most recent probe in the history, or whether it
/// was latched at the start when the history never probed it.
pub open spec fn last_level(locks: Set<u64>, probes: Seq<Probe>, id: u64) -> bool
    decreases probes.len(),
{
    if probes.len() == 0 {
        locks.contains(id)
    } else if probes.last().id == id {
        probes.last().level
    } else {
        last_level(locks, probes.drop_last(), id)
    }
}

/// An identifier is latched exactly when its signal was high at its most
/// recent probe; probes of other identifiers do not disturb it.
pub proof fn lemma_latched_iff_last_level(locks: Set<u64>, probes: Seq<Probe>, id: u64)
    ensures
        locks_after(locks, probes).contains(id) == last_level(locks, probes, id),
    decreases probes.len(),
{
    if probes.len() > 0 {
        lemma_latched_iff_last_level(locks, probes.drop_last(), id);
    }
}

/// A probe reports an edge exactly when the signal is high now and was low
/// at the previous probe of the same identifier.
pub proof fn lemma_edge_is_low_to_high(locks: Set<u64>, probes: Seq<Probe>, i: int)
    requires
        0 <= i < probes.len(),
    ensures
        edge_at(locks, probes, i) == (probes[i].level && !last_level(
            locks,
            probes.take(i),
            probes[i].id,
        )),
{
    lemma_latched_iff_last_level(locks, probes.take(i), probes[i].id);
}

/// A probe never reports an edge while the signal is low.
pub proof fn lemma_no_edge_while_low(locks: Set<u64>, probes: Seq<Probe>, i: int)
    requires
        0 <= i < probes.len(),
        !probes[i].level,
    ensures
        !edge_at(locks, probes, i),
{
}

/// While the signal of `id` stays high from probe `a` on, every later probe
/// of `id` finds it latched.
proof fn lemma_high_run_stays_latched(locks: Set<u64>, probes: Seq<Probe>, id: u64, a: int, i: int)
    requires
        0 <= a < i <= probes.len(),
        probes[a].id == id,
        forall|j: int| a <= j < i && probes[j].id == id ==> probes[j].level,
    ensures
        last_level(locks, probes.take(i), id),
    decreases i - a,
{
    let prefix = probes.take(i);
    assert(prefix.last() == probes[i - 1]);
    assert(prefix.drop_last() =~= probes.take(i - 1));
    if probes[i - 1].id != id {
        lemma_high_run_stays_latched(locks, probes, id, a, i - 1);
    }
}

/// Edge property. Take a stretch `a..=b` of a probe history in which every
/// probe of `id` finds its signal high, starting at a probe of `id` that
/// follows a low probe (or an unlatched start). Then the probe at `a` reports
/// the edge, and no later probe of `id` in the stretch reports one, however
/// long the stretch is and whatever other identifiers are probed in between.
pub proof fn lemma_single_edge_per_high_run(
    locks: Set<u64>,
    probes: Seq<Probe>,
    id: u64,
    a: int,
    b: int,
)
    requires
        0 <= a <= b < probes.len(),
        probes[a].id == id,
        !last_level(locks, probes.take(a), id),
        forall|j: int| a <= j <= b && probes[j].id == id ==> probes[j].level,
    ensures
        edge_at(locks, probes, a),
        forall|i: int| a < i <= b && probes[i].id == id ==> !edge_at(locks, probes, i),
{
    lemma_edge_is_low_to_high(locks, probes, a);
    assert forall|i: int| a < i <= b && probes[i].id == id implies !edge_at(locks, probes, i) by {
        lemma_high_run_stays_latched(locks, probes, id, a, i);
        lemma_edge_is_low_to_high(locks, probes, i);
    }
}

/// After a low probe of `id`, the next high probe of `id` reports an edge
/// again: a new run begins only after a full release.
pub proof fn lemma_edge_returns_after_low(
    locks: Set<u64>,
    probes: Seq<Probe>,
    id: u64,
    low: int,
    next: int,
)
    requires
        0 <= low < next < probes.len(),
        probes[low].id == id,
        !probes[low].level,
        probes[next].id == id,
        probes[next].level,
        forall|j: int| low < j < next ==> probes[j].id != id,
    ensures
        edge_at(locks, probes, next),
{
    lemma_edge_is_low_to_high(locks, probes, next);
    lemma_last_level_skips_others(locks, probes, id, low, next);
}

/// The most recent level of `id` before position `next` is the one of its
/// probe at `low` when no probe in between concerns `id`.
proof fn lemma_last_level_skips_others(
    locks: Set<u64>,
    probes: Seq<Probe>,
    id: u64,
    low: int,
    next: int,
)
    requires
        0 <= low < next <= probes.len(),
        probes[low].id == id,
        forall|j: int| low < j < next ==> probes[j].id != id,
    ensures
        last_level(locks, probes.take(next), id) == probes[low].level,
    decreases next - low,
{
    let prefix = probes.take(next);
    assert(prefix.last() == probes[next - 1]);
    assert(prefix.drop_last() =~= probes.take(next - 1));
    if next - 1 > low {
        lemma_last_level_skips_others(locks, probes, id, low, next - 1);
    }
}

} // verus!
