//! Synaptic transmission.
//!
//! Per tick, every synapse whose presynaptic neuron raised an action
//! potential schedules a delivery one conduction delay ahead, and every
//! delivery that has fallen due adds the synapse's (optionally clamped)
//! strength to the postsynaptic neuron's input accumulator. Deliveries are
//! gathered read-only first and applied afterwards — the collect-then-apply
//! protocol — so the accumulated input of a neuron is the plain sum of the
//! amounts due to it, independent of any processing order.

use vstd::prelude::*;
use crate::fixed::{fx_clamp, fx_clamp_spec, narrow_to_i64, sat64};
use crate::neuron::Neuron;
use crate::synapse::{
    insert_sorted_spec, le_count, lemma_le_count_insert_later, PendingSpike, Synapse,
    MAX_SYNAPSE_DELAY,
};
use crate::world::{elem_mut, World};
use crate::Time;

verus! {

/// The transmission stage; one pass per tick.
pub struct SynapticTransmissionSystem;

/// One due delivery gathered in the collect phase.
#[derive(Clone, Copy, PartialEq, Eq, Structural, Debug)]
pub struct Delivery {
    /// Store identity of the neuron the amount goes to.
    pub post_neuron: usize,
    /// Signed amount added to that neuron's accumulator.
    pub amount: i64,
}

/// A usable delivery clamp: absent, or a non-negative bound.
pub open spec fn limit_wf(limit: Option<i64>) -> bool {
    match limit {
        Some(l) => l >= 0,
        None => true,
    }
}

/// The amplitude one delivery carries: the synapse's strength, clamped
/// symmetrically when a bound is configured.
pub open spec fn delivery_amount_spec(strength: int, limit: Option<i64>) -> int {
    match limit {
        Some(l) => fx_clamp_spec(strength, l as int),
        None => strength,
    }
}

fn delivery_amount(strength: i64, limit: Option<i64>) -> (r: i64)
    requires
        limit_wf(limit),
    ensures
        r as int == delivery_amount_spec(strength as int, limit),
{
    match limit {
        Some(l) => fx_clamp(strength, l),
        None => strength,
    }
}

/// How many deliveries a synapse has due at `now`.
pub open spec fn due_count(s: Synapse, now: int) -> nat {
    le_count(s.pending_spikes@, now)
}

/// What one gathered delivery contributes to neuron `n`.
pub open spec fn delivery_contrib(d: Delivery, n: int) -> int {
    if d.post_neuron == n {
        d.amount as int
    } else {
        0
    }
}

/// The summed contribution of a delivery list to neuron `n`.
pub open spec fn delivery_total(ds: Seq<Delivery>, n: int) -> int
    decreases ds.len(),
{
    if ds.len() == 0 {
        0
    } else {
        delivery_total(ds.drop_last(), n) + delivery_contrib(ds.last(), n)
    }
}

/// The input one synapse owes neuron `n` at `now`: one amplitude per due
/// delivery.
pub open spec fn synapse_input(s: Synapse, now: int, limit: Option<i64>, n: int) -> int {
    if s.post_neuron == n {
        due_count(s, now) * delivery_amount_spec(s.strength as int, limit)
    } else {
        0
    }
}

/// The total input a set of synapses owes neuron `n` at `now`.
pub open spec fn total_input(syns: Seq<Synapse>, now: int, limit: Option<i64>, n: int) -> int
    decreases syns.len(),
{
    if syns.len() == 0 {
        0
    } else {
        total_input(syns.drop_last(), now, limit, n) + synapse_input(syns.last(), now, limit, n)
    }
}

/// How the scheduling sub-pass rewrites one synapse: a delivery one delay
/// ahead is queued exactly when the presynaptic neuron spiked this tick.
pub open spec fn scheduled_rel(s0: Synapse, neurons: Seq<Neuron>, now: Time, s1: Synapse) -> bool {
    &&& s1.pre_neuron == s0.pre_neuron
    &&& s1.post_neuron == s0.post_neuron
    &&& s1.delay == s0.delay
    &&& s1.strength == s0.strength
    &&& s1.stdp == s0.stdp
    &&& s1.pending_spikes@ == (if s0.pre_neuron < neurons.len()
        && neurons[s0.pre_neuron as int].action_potential {
        insert_sorted_spec(s0.pending_spikes@, PendingSpike((now + s0.delay) as usize))
    } else {
        s0.pending_spikes@
    })
}

/// How one full transmission pass rewrites one synapse: the fresh delivery
/// is queued first, then everything due at `now` — never the fresh entry,
/// whose time lies at least one tick ahead — is popped.
pub open spec fn transmitted_rel(s0: Synapse, neurons: Seq<Neuron>, now: Time, s1: Synapse) -> bool {
    let scheduled = if s0.pre_neuron < neurons.len()
        && neurons[s0.pre_neuron as int].action_potential {
        insert_sorted_spec(s0.pending_spikes@, PendingSpike((now + s0.delay) as usize))
    } else {
        s0.pending_spikes@
    };
    &&& s1.pre_neuron == s0.pre_neuron
    &&& s1.post_neuron == s0.post_neuron
    &&& s1.delay == s0.delay
    &&& s1.strength == s0.strength
    &&& s1.stdp == s0.stdp
    &&& s1.pending_spikes@ == scheduled.skip(le_count(scheduled, now as int) as int)
}

/// How the apply sub-pass rewrites one neuron: only the input accumulator
/// moves, by the summed amount, saturating.
pub open spec fn psp_applied(n0: Neuron, amount: int, n1: Neuron) -> bool {
    &&& n1.state == n0.state
    &&& n1.spiking == n0.spiking
    &&& n1.action_potential == n0.action_potential
    &&& n1.coordinates == n0.coordinates
    &&& n1.psp as int == sat64(n0.psp + amount)
}

/// Removing one delivery from a list removes exactly its contribution.
proof fn lemma_delivery_total_remove(ds: Seq<Delivery>, j: int, n: int)
    requires
        0 <= j < ds.len(),
    ensures
        delivery_total(ds.remove(j), n) == delivery_total(ds, n) - delivery_contrib(ds[j], n),
    decreases ds.len(),
{
    if j == ds.len() - 1 {
        assert(ds.remove(j) =~= ds.drop_last());
    } else {
        assert(ds.remove(j).drop_last() =~= ds.drop_last().remove(j));
        assert(ds.remove(j).last() == ds.last());
        lemma_delivery_total_remove(ds.drop_last(), j, n);
    }
}

/// Law: the input accumulated by a neuron does not depend on the order in
/// which the gathered deliveries are processed. Two delivery lists holding
/// the same deliveries — the same multiset, in any order — sum to the same
/// total for every neuron, so the collect-then-apply pass is free to
/// process deliveries in any order, as a parallel implementation would.
pub proof fn lemma_delivery_order_insensitive(ds1: Seq<Delivery>, ds2: Seq<Delivery>, n: int)
    requires
        ds1.to_multiset() == ds2.to_multiset(),
    ensures
        delivery_total(ds1, n) == delivery_total(ds2, n),
    decreases ds1.len(),
{
    broadcast use vstd::seq_lib::group_to_multiset_ensures;

    if ds1.len() == 0 {
        assert(ds1.to_multiset().len() == ds1.len());
        assert(ds2.to_multiset().len() == ds2.len());
        assert(ds2.len() == 0);
    } else {
        let d = ds1.last();
        assert(ds1[ds1.len() - 1] == d);
        assert(ds1.contains(d));
        assert(ds2.to_multiset().count(d) > 0);
        assert(ds2.contains(d));
        let j = choose|j: int| 0 <= j < ds2.len() && ds2[j] == d;
        let r1 = ds1.remove(ds1.len() - 1);
        let r2 = ds2.remove(j);
        assert(r1.to_multiset() =~= ds1.to_multiset().remove(d));
        assert(r2.to_multiset() =~= ds2.to_multiset().remove(d));
        lemma_delivery_order_insensitive(r1, r2, n);
        assert(r1 =~= ds1.drop_last());
        lemma_delivery_total_remove(ds2, j, n);
    }
}

/// Law (scheduling half of the conduction-delay guarantee): a presynaptic
/// action potential at tick `now` on a synapse whose queue is empty leaves
/// exactly one scheduled delivery, at tick `now + delay` — never the
/// current tick, since the delay is positive.
pub proof fn lemma_spike_scheduled_at_delay(
    s0: Synapse,
    neurons: Seq<Neuron>,
    now: Time,
    s1: Synapse,
)
    requires
        transmitted_rel(s0, neurons, now, s1),
        s0.pending_spikes@.len() == 0,
        s0.pre_neuron < neurons.len(),
        neurons[s0.pre_neuron as int].action_potential,
        now + s0.delay <= usize::MAX,
        s0.delay >= 1,
    ensures
        s1.pending_spikes@ =~= seq![PendingSpike((now + s0.delay) as usize)],
{
    let p = PendingSpike((now + s0.delay) as usize);
    let scheduled = insert_sorted_spec(s0.pending_spikes@, p);
    assert(le_count(s0.pending_spikes@, p.0 as int) == 0);
    assert(scheduled =~= seq![p]);
    assert(le_count(scheduled, now as int) == 0);
    assert(s1.pending_spikes@ =~= scheduled.skip(0));
}

/// Law (delivery half of the conduction-delay guarantee): a synapse
/// holding exactly one scheduled delivery contributes nothing to its
/// target before the scheduled tick; at that tick it contributes exactly
/// one (clamped) strength and its queue empties, so it contributes nothing
/// afterwards either.
pub proof fn lemma_conduction_delay(s: Synapse, due: Time, limit: Option<i64>, now: Time)
    requires
        s.pending_spikes@ =~= seq![PendingSpike(due)],
    ensures
        now < due ==> synapse_input(s, now as int, limit, s.post_neuron as int) == 0,
        now < due ==> s.pending_spikes@.skip(due_count(s, now as int) as int) == s.pending_spikes@,
        now >= due ==> synapse_input(s, now as int, limit, s.post_neuron as int)
            == delivery_amount_spec(s.strength as int, limit),
        now >= due ==> s.pending_spikes@.skip(due_count(s, now as int) as int) =~= Seq::<
            PendingSpike,
        >::empty(),
{
    let q = s.pending_spikes@;
    assert(q[0] == PendingSpike(due));
    if now < due {
        assert(le_count(q, now as int) == 0);
        assert(due_count(s, now as int) as int * delivery_amount_spec(s.strength as int, limit)
            == 0) by (nonlinear_arith)
            requires
                due_count(s, now as int) == 0,
        ;
        assert(q.skip(0) =~= q);
    } else {
        assert(q.skip(1).len() == 0);
        assert(le_count(q.skip(1), now as int) == 0);
        assert(le_count(q, now as int) == 1);
    }
}

/// A synapse with an empty queue contributes nothing to any neuron.
pub proof fn lemma_empty_queue_silent(s: Synapse, now: int, limit: Option<i64>, n: int)
    requires
        s.pending_spikes@.len() == 0,
    ensures
        synapse_input(s, now, limit, n) == 0,
{
    assert(due_count(s, now) == 0);
}

/// Equal per-synapse inputs give equal totals.
proof fn lemma_total_input_pointwise(
    s1: Seq<Synapse>,
    s2: Seq<Synapse>,
    now: int,
    limit: Option<i64>,
    n: int,
)
    requires
        s1.len() == s2.len(),
        forall|k: int|
            0 <= k < s1.len() ==> synapse_input(#[trigger] s1[k], now, limit, n) == synapse_input(
                s2[k],
                now,
                limit,
                n,
            ),
    ensures
        total_input(s1, now, limit, n) == total_input(s2, now, limit, n),
    decreases s1.len(),
{
    if s1.len() > 0 {
        lemma_total_input_pointwise(s1.drop_last(), s2.drop_last(), now, limit, n);
    }
}

fn schedule_spikes(world: &mut World, now: Time)
    requires
        old(world).wf(),
        now + MAX_SYNAPSE_DELAY <= usize::MAX,
    ensures
        final(world).wf(),
        final(world).neurons@ == old(world).neurons@,
        final(world).synapses.len() == old(world).synapses.len(),
        forall|k: int|
            0 <= k < old(world).synapses.len() ==> scheduled_rel(
                old(world).synapses@[k],
                old(world).neurons@,
                now,
                #[trigger] final(world).synapses@[k],
            ),
{
    let ghost n0 = world.neurons@;
    let ghost s_init = world.synapses@;
    let count = world.synapses.len();
    for k in 0..count
        invariant
            world.wf(),
            world.neurons@ == n0,
            world.synapses.len() == s_init.len(),
            count == s_init.len(),
            now + MAX_SYNAPSE_DELAY <= usize::MAX,
            forall|j: int|
                0 <= j < k ==> scheduled_rel(s_init[j], n0, now, #[trigger] world.synapses@[j]),
            forall|j: int| k <= j < s_init.len() ==> world.synapses@[j] == s_init[j],
    {
        let pre = world.synapses[k].pre_neuron;
        let fired = world.neurons[pre].action_potential;
        if fired {
            let delay = world.synapses[k].delay;
            let at = now + delay;
            let syn = elem_mut(&mut world.synapses, k);
            syn.schedule(at);
        }
    }
}

fn deliver_due(world: &mut World, now: Time, limit: Option<i64>)
    requires
        old(world).wf(),
        limit_wf(limit),
    ensures
        final(world).wf(),
        final(world).neurons.len() == old(world).neurons.len(),
        final(world).synapses.len() == old(world).synapses.len(),
        forall|k: int|
            0 <= k < old(world).synapses.len() ==> {
                let s0 = old(world).synapses@[k];
                let s1 = #[trigger] final(world).synapses@[k];
                &&& s1.pre_neuron == s0.pre_neuron
                &&& s1.post_neuron == s0.post_neuron
                &&& s1.delay == s0.delay
                &&& s1.strength == s0.strength
                &&& s1.stdp == s0.stdp
                &&& s1.pending_spikes@ == s0.pending_spikes@.skip(due_count(s0, now as int) as int)
            },
        forall|n: int|
            0 <= n < old(world).neurons.len() ==> psp_applied(
                old(world).neurons@[n],
                total_input(old(world).synapses@, now as int, limit, n),
                #[trigger] final(world).neurons@[n],
            ),
{
    let ghost s_init = world.synapses@;
    let ghost n_init = world.neurons@;

    // Collect: pop every due delivery, gathering (target, amount) pairs
    // read-only with respect to the neurons.
    let mut deliveries: Vec<Delivery> = Vec::new();
    let scount = world.synapses.len();
    for k in 0..scount
        invariant
            world.wf(),
            limit_wf(limit),
            world.neurons@ == n_init,
            world.synapses.len() == s_init.len(),
            scount == s_init.len(),
            forall|j: int|
                0 <= j < k ==> {
                    let s0 = s_init[j];
                    let s1 = #[trigger] world.synapses@[j];
                    &&& s1.pre_neuron == s0.pre_neuron
                    &&& s1.post_neuron == s0.post_neuron
                    &&& s1.delay == s0.delay
                    &&& s1.strength == s0.strength
                    &&& s1.stdp == s0.stdp
                    &&& s1.pending_spikes@ == s0.pending_spikes@.skip(
                        due_count(s0, now as int) as int,
                    )
                },
            forall|j: int| k <= j < s_init.len() ==> world.synapses@[j] == s_init[j],
            forall|i: int|
                0 <= i < deliveries@.len() ==> (#[trigger] deliveries@[i]).post_neuron
                    < n_init.len(),
            forall|n: int|
                #![trigger delivery_total(deliveries@, n)]
                delivery_total(deliveries@, n) == total_input(
                    s_init.take(k as int),
                    now as int,
                    limit,
                    n,
                ),
    {
        let syn = elem_mut(&mut world.synapses, k);
        let cnt = syn.drain_due(now);
        let post = world.synapses[k].post_neuron;
        let amount = delivery_amount(world.synapses[k].strength, limit);
        let ghost pre_deliv = deliveries@;
        let mut m: usize = 0;
        while m < cnt
            invariant
                m <= cnt,
                post < n_init.len(),
                amount as int == delivery_amount_spec(s_init[k as int].strength as int, limit),
                forall|i: int|
                    0 <= i < deliveries@.len() ==> (#[trigger] deliveries@[i]).post_neuron
                        < n_init.len(),
                forall|n: int|
                    #![trigger delivery_total(deliveries@, n)]
                    delivery_total(deliveries@, n) == delivery_total(pre_deliv, n) + (if post
                        == n {
                        m as int * amount as int
                    } else {
                        0
                    }),
            decreases cnt - m,
        {
            let ghost before = deliveries@;
            deliveries.push(Delivery { post_neuron: post, amount });
            proof {
                assert(deliveries@.drop_last() =~= before);
                assert forall|n: int| #![trigger delivery_total(deliveries@, n)]
                    delivery_total(deliveries@, n) == delivery_total(pre_deliv, n) + (if post == n {
                        (m + 1) as int * amount as int
                    } else {
                        0
                    }) by {
                    assert(delivery_total(before, n) == delivery_total(pre_deliv, n) + (if post
                        == n {
                        m as int * amount as int
                    } else {
                        0
                    }));
                    assert(deliveries@.last() == Delivery { post_neuron: post, amount });
                    assert(delivery_total(deliveries@, n) == delivery_total(before, n)
                        + delivery_contrib(Delivery { post_neuron: post, amount }, n));
                    assert((m + 1) as int * amount as int == m as int * amount as int
                        + amount as int) by (nonlinear_arith);
                }
            }
            m = m + 1;
        }
        proof {
            assert(s_init.take(k as int + 1).drop_last() =~= s_init.take(k as int));
            assert(s_init.take(k as int + 1).last() == s_init[k as int]);
            assert(cnt as int * amount as int == due_count(s_init[k as int], now as int) as int
                * delivery_amount_spec(s_init[k as int].strength as int, limit));
        }
    }
    proof {
        assert(s_init.take(scount as int) =~= s_init);
    }

    // Apply: sum the gathered amounts per target neuron in a wide
    // accumulator, then move each accumulator into its neuron's psp with a
    // single saturation.
    let ncount = world.neurons.len();
    let mut totals: Vec<i128> = Vec::new();
    while totals.len() < ncount
        invariant
            totals@.len() <= ncount,
            forall|j: int| 0 <= j < totals@.len() ==> totals@[j] == 0,
        decreases ncount - totals.len(),
    {
        totals.push(0);
    }
    let dcount = deliveries.len();
    proof {
        assert(deliveries@.take(0) =~= Seq::<Delivery>::empty());
    }
    for idx in 0..dcount
        invariant
            totals@.len() == ncount,
            ncount == n_init.len(),
            dcount == deliveries@.len(),
            dcount <= usize::MAX,
            forall|i: int|
                0 <= i < deliveries@.len() ==> (#[trigger] deliveries@[i]).post_neuron
                    < n_init.len(),
            forall|j: int|
                #![trigger totals@[j]]
                0 <= j < ncount ==> totals@[j] == delivery_total(
                    deliveries@.take(idx as int),
                    j,
                ),
            forall|j: int|
                0 <= j < ncount ==> -(idx as int) * 0x8000_0000_0000_0000 <= #[trigger] totals@[j]
                    <= (idx as int) * 0x8000_0000_0000_0000,
    {
        let d = deliveries[idx];
        let cur = totals[d.post_neuron];
        proof {
            assert((idx as int + 1) * 0x8000_0000_0000_0000 == idx as int * 0x8000_0000_0000_0000
                + 0x8000_0000_0000_0000) by (nonlinear_arith);
            assert((idx as int + 1) * 0x8000_0000_0000_0000 <= 0x1_0000_0000_0000_0000int
                * 0x8000_0000_0000_0000) by (nonlinear_arith)
                requires
                    idx as int + 1 <= 0x1_0000_0000_0000_0000int,
            ;
        }
        let updated: i128 = cur + (d.amount as i128);
        let slot = elem_mut(&mut totals, d.post_neuron);
        *slot = updated;
        proof {
            assert(deliveries@.take(idx as int + 1).drop_last() =~= deliveries@.take(idx as int));
            assert(deliveries@.take(idx as int + 1).last() == deliveries@[idx as int]);
        }
    }

    let ghost mid_syn = world.synapses@;
    proof {
        assert(deliveries@.take(dcount as int) =~= deliveries@);
    }
    for i in 0..ncount
        invariant
            world.wf(),
            ncount == n_init.len(),
            world.neurons@.len() == n_init.len(),
            world.synapses@ == mid_syn,
            totals@.len() == ncount,
            dcount <= usize::MAX,
            forall|j: int|
                #![trigger totals@[j]]
                0 <= j < ncount ==> totals@[j] == delivery_total(deliveries@, j),
            forall|j: int|
                0 <= j < ncount ==> -(dcount as int) * 0x8000_0000_0000_0000
                    <= #[trigger] totals@[j] <= (dcount as int) * 0x8000_0000_0000_0000,
            forall|n: int|
                #![trigger delivery_total(deliveries@, n)]
                delivery_total(deliveries@, n) == total_input(s_init, now as int, limit, n),
            forall|j: int|
                0 <= j < i ==> psp_applied(
                    n_init[j],
                    total_input(s_init, now as int, limit, j),
                    #[trigger] world.neurons@[j],
                ),
            forall|j: int| i <= j < ncount ==> world.neurons@[j] == n_init[j],
    {
        let t = totals[i];
        proof {
            assert((dcount as int) * 0x8000_0000_0000_0000 <= 0xffff_ffff_ffff_ffffint
                * 0x8000_0000_0000_0000) by (nonlinear_arith)
                requires
                    dcount as int <= 0xffff_ffff_ffff_ffffint,
            ;
        }
        let nrn = elem_mut(&mut world.neurons, i);
        let wide: i128 = (nrn.psp as i128) + t;
        nrn.psp = narrow_to_i64(wide);
    }
}

impl SynapticTransmissionSystem {
    /// One transmission pass at tick `now`: schedule a delivery one
    /// conduction delay ahead for every presynaptic action potential, then
    /// pop every delivery due at `now` and add its amplitude to its target
    /// neuron's input accumulator. The fresh deliveries lie at least one
    /// tick ahead, so a spike is never delivered in the tick that scheduled
    /// it, and each neuron's accumulator moves by exactly the summed
    /// amplitude of the deliveries already due.
    ///
    /// The action-potential markers are read here but retired by the
    /// scheduler, only after every same-tick consumer (this stage and the
    /// plasticity stage) has run.
    pub fn run(world: &mut World, now: Time, limit: Option<i64>)
        requires
            old(world).wf(),
            limit_wf(limit),
            now + MAX_SYNAPSE_DELAY <= usize::MAX,
        ensures
            final(world).wf(),
            final(world).neurons.len() == old(world).neurons.len(),
            final(world).synapses.len() == old(world).synapses.len(),
            forall|k: int|
                0 <= k < old(world).synapses.len() ==> transmitted_rel(
                    old(world).synapses@[k],
                    old(world).neurons@,
                    now,
                    #[trigger] final(world).synapses@[k],
                ),
            forall|n: int|
                0 <= n < old(world).neurons.len() ==> psp_applied(
                    old(world).neurons@[n],
                    total_input(old(world).synapses@, now as int, limit, n),
                    #[trigger] final(world).neurons@[n],
                ),
    {
        let ghost w0_syn = world.synapses@;
        let ghost w0_neu = world.neurons@;
        schedule_spikes(world, now);
        let ghost mid_syn = world.synapses@;
        proof {
            // Scheduling adds only deliveries that are not yet due, so the
            // total due input of every neuron is unchanged.
            assert forall|k: int| 0 <= k < w0_syn.len() implies forall|n: int|
                synapse_input(#[trigger] mid_syn[k], now as int, limit, n) == synapse_input(
                    w0_syn[k],
                    now as int,
                    limit,
                    n,
                ) by {
                let s0 = w0_syn[k];
                assert(scheduled_rel(s0, w0_neu, now, mid_syn[k]));
                if s0.pre_neuron < w0_neu.len() && w0_neu[s0.pre_neuron as int].action_potential {
                    lemma_le_count_insert_later(
                        s0.pending_spikes@,
                        PendingSpike((now + s0.delay) as usize),
                        now as int,
                    );
                }
            }
            assert forall|n: int|
                total_input(mid_syn, now as int, limit, n) == total_input(
                    w0_syn,
                    now as int,
                    limit,
                    n,
                ) by {
                lemma_total_input_pointwise(mid_syn, w0_syn, now as int, limit, n);
            }
        }
        deliver_due(world, now, limit);
    }
}

} // verus!
