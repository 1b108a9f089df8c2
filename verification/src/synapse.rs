//! Synapse records of the entity store.
//!
//! A synapse references its presynaptic and postsynaptic neurons by store
//! identity, owns a fixed conduction delay and an adaptive strength, and
//! keeps its scheduled deliveries in a queue ordered by delivery time with
//! the earliest first.

use vstd::prelude::*;
use crate::stdp::STDPLearningRule;
use crate::Time;

verus! {

/// Largest accepted conduction delay, in ticks. The wiring generator draws
/// delays below twenty; capping the store at the same range keeps every
/// scheduled delivery time `now + delay` within the clock's type.
pub const MAX_SYNAPSE_DELAY: usize = 19;

/// One scheduled delivery: the tick at which it falls due.
#[derive(Clone, Copy, PartialEq, Eq, Structural, Debug)]
pub struct PendingSpike(pub Time);

/// One synapse record of the entity store.
#[derive(Clone, PartialEq, Eq, Debug)]
pub struct Synapse {
    /// Store identity of the presynaptic neuron.
    pub pre_neuron: usize,
    /// Store identity of the postsynaptic neuron.
    pub post_neuron: usize,
    /// Conduction delay in ticks, fixed at creation, at least one.
    pub delay: usize,
    /// Signed strength; the sign encodes excitatory or inhibitory.
    pub strength: i64,
    /// Scheduled deliveries, earliest first.
    pub pending_spikes: Vec<PendingSpike>,
    /// Spike-age counters of the plasticity rule attached at creation.
    pub stdp: STDPLearningRule,
}

/// The queue is ordered by delivery time, earliest first.
pub open spec fn pending_sorted(s: Seq<PendingSpike>) -> bool {
    forall|i: int, j: int| 0 <= i <= j < s.len() ==> s[i].0 <= s[j].0
}

/// Length of the leading run of entries due at or before `t`. On a sorted
/// queue this is the number of due deliveries.
pub open spec fn le_count(s: Seq<PendingSpike>, t: int) -> nat
    decreases s.len(),
{
    if s.len() == 0 {
        0
    } else if s[0].0 <= t {
        1 + le_count(s.skip(1), t)
    } else {
        0
    }
}

/// A sorted queue with `p` inserted after every entry due no later than it.
pub open spec fn insert_sorted_spec(s: Seq<PendingSpike>, p: PendingSpike) -> Seq<PendingSpike> {
    s.insert(le_count(s, p.0 as int) as int, p)
}

/// A position `k` with everything before it due and everything from it on
/// not due is exactly the due count.
pub proof fn lemma_le_count_boundary(s: Seq<PendingSpike>, t: int, k: int)
    requires
        0 <= k <= s.len(),
        forall|i: int| 0 <= i < k ==> s[i].0 <= t,
        k < s.len() ==> s[k].0 > t,
    ensures
        le_count(s, t) == k,
    decreases s.len(),
{
    if k == 0 {
        if s.len() > 0 {
            assert(s[0].0 > t);
        }
    } else {
        assert(s[0].0 <= t);
        let rest = s.skip(1);
        assert(forall|i: int| 0 <= i < k - 1 ==> rest[i] == s[i + 1]);
        lemma_le_count_boundary(rest, t, k - 1);
    }
}

/// The due count never exceeds the queue length, counts only due entries,
/// and stops at the first entry that is not due.
pub proof fn lemma_le_count_in_range(s: Seq<PendingSpike>, t: int)
    ensures
        le_count(s, t) <= s.len(),
        forall|i: int| 0 <= i < le_count(s, t) ==> s[i].0 <= t,
        le_count(s, t) < s.len() ==> s[le_count(s, t) as int].0 > t,
    decreases s.len(),
{
    if s.len() > 0 && s[0].0 <= t {
        lemma_le_count_in_range(s.skip(1), t);
        assert forall|i: int| 0 <= i < le_count(s, t) implies s[i].0 <= t by {
            if i > 0 {
                assert(s.skip(1)[i - 1] == s[i]);
            }
        }
        if le_count(s, t) < s.len() {
            assert(s.skip(1)[le_count(s.skip(1), t) as int] == s[le_count(s, t) as int]);
        }
    }
}

/// A run of due entries at the front is a lower bound on the due count.
pub proof fn lemma_le_count_at_least(s: Seq<PendingSpike>, t: int, m: int)
    requires
        0 <= m <= s.len(),
        forall|i: int| 0 <= i < m ==> s[i].0 <= t,
    ensures
        le_count(s, t) >= m,
    decreases s.len(),
{
    if m > 0 {
        assert(s[0].0 <= t);
        let rest = s.skip(1);
        assert(forall|i: int| 0 <= i < m - 1 ==> rest[i] == s[i + 1]);
        lemma_le_count_at_least(rest, t, m - 1);
    }
}

/// Scheduling a delivery that is not yet due leaves the due count alone.
pub proof fn lemma_le_count_insert_later(s: Seq<PendingSpike>, p: PendingSpike, t: int)
    requires
        p.0 > t,
    ensures
        le_count(insert_sorted_spec(s, p), t) == le_count(s, t),
{
    let k = le_count(s, p.0 as int) as int;
    let s1 = s.insert(k, p);
    let c = le_count(s, t) as int;
    lemma_le_count_in_range(s, t);
    lemma_le_count_in_range(s, p.0 as int);
    // The due run is part of the longer run of entries at or before the
    // inserted time, so the insertion point lies at or beyond it.
    lemma_le_count_at_least(s, p.0 as int, c);
    assert(c <= k);
    assert(forall|i: int| 0 <= i < c ==> s1[i] == s[i]);
    if c < k {
        assert(s1[c] == s[c]);
    } else {
        assert(s1[c] == p);
    }
    lemma_le_count_boundary(s1, t, c);
}

impl Synapse {
    /// The record is well formed against a store of `neuron_count`
    /// neurons: both endpoints exist, the delay is positive and within the
    /// accepted range, and the delivery queue is ordered.
    pub open spec fn wf(self, neuron_count: nat) -> bool {
        &&& self.pre_neuron < neuron_count
        &&& self.post_neuron < neuron_count
        &&& 1 <= self.delay <= MAX_SYNAPSE_DELAY
        &&& pending_sorted(self.pending_spikes@)
    }

    /// Record a presynaptic action potential: schedule one delivery at the
    /// tick `at`, keeping the queue ordered.
    pub fn schedule(&mut self, at: Time)
        requires
            pending_sorted(old(self).pending_spikes@),
        ensures
            final(self).pending_spikes@ == insert_sorted_spec(
                old(self).pending_spikes@,
                PendingSpike(at),
            ),
            pending_sorted(final(self).pending_spikes@),
            final(self).pre_neuron == old(self).pre_neuron,
            final(self).post_neuron == old(self).post_neuron,
            final(self).delay == old(self).delay,
            final(self).strength == old(self).strength,
            final(self).stdp == old(self).stdp,
    {
        let ghost s0 = self.pending_spikes@;
        let mut idx: usize = 0;
        while idx < self.pending_spikes.len() && self.pending_spikes[idx].0 <= at
            invariant
                idx <= self.pending_spikes.len(),
                self.pending_spikes@ == s0,
                forall|i: int| 0 <= i < idx ==> s0[i].0 <= at,
            decreases self.pending_spikes.len() - idx,
        {
            idx = idx + 1;
        }
        proof {
            lemma_le_count_boundary(s0, at as int, idx as int);
        }
        self.pending_spikes.insert(idx, PendingSpike(at));
        proof {
            let s1 = self.pending_spikes@;
            assert forall|i: int, j: int| 0 <= i <= j < s1.len() implies s1[i].0 <= s1[j].0 by {
                if j < idx {
                } else if i > idx {
                } else if i == idx && j == idx {
                } else if i < idx && j == idx {
                    assert(s1[i] == s0[i]);
                } else if i == idx && j > idx {
                    assert(s1[j] == s0[j - 1]);
                    assert(s0[j - 1].0 > at) by {
                        if s0[j - 1].0 <= at {
                            assert(s0[idx as int].0 <= s0[j - 1].0);
                        }
                    }
                } else {
                    assert(s1[i] == s0[i] && s1[j] == s0[j - 1]);
                    assert(s0[i].0 <= s0[j - 1].0);
                }
            }
        }
    }

    /// Pop every delivery due at or before `now`, returning how many there
    /// were; later deliveries stay queued in order.
    pub fn drain_due(&mut self, now: Time) -> (count: usize)
        requires
            pending_sorted(old(self).pending_spikes@),
        ensures
            count == le_count(old(self).pending_spikes@, now as int),
            final(self).pending_spikes@ == old(self).pending_spikes@.skip(count as int),
            pending_sorted(final(self).pending_spikes@),
            final(self).pre_neuron == old(self).pre_neuron,
            final(self).post_neuron == old(self).post_neuron,
            final(self).delay == old(self).delay,
            final(self).strength == old(self).strength,
            final(self).stdp == old(self).stdp,
    {
        let ghost s0 = self.pending_spikes@;
        let initial_len: usize = self.pending_spikes.len();
        proof {
            assert(s0.len() == initial_len);
        }
        let mut count: usize = 0;
        while self.pending_spikes.len() > 0 && self.pending_spikes[0].0 <= now
            invariant
                count <= s0.len(),
                s0.len() <= usize::MAX,
                self.pending_spikes@ == s0.skip(count as int),
                pending_sorted(self.pending_spikes@),
                le_count(s0, now as int) == count + le_count(self.pending_spikes@, now as int),
                self.pre_neuron == old(self).pre_neuron,
                self.post_neuron == old(self).post_neuron,
                self.delay == old(self).delay,
                self.strength == old(self).strength,
                self.stdp == old(self).stdp,
            decreases self.pending_spikes.len(),
        {
            proof {
                let cur = self.pending_spikes@;
                assert(le_count(cur, now as int) == 1 + le_count(cur.skip(1), now as int));
                assert(s0.skip(count as int).skip(1) =~= s0.skip(count as int + 1));
            }
            self.pending_spikes.remove(0);
            count = count + 1;
        }
        count
    }
}

} // verus!
