//! Spike-timing-dependent plasticity.
//!
//! Each synapse carries a pair of counters recording how many ticks have
//! passed since its presynaptic and its postsynaptic neuron last spiked.
//! When one side spikes, the synaptic strength is nudged by an amount that
//! decays with the age of the most recent spike on the other side:
//! long-term depression when the presynaptic neuron fires after the
//! postsynaptic one, long-term potentiation in the causal order.

use vstd::prelude::*;
use vstd::arithmetic::div_mod::{
    lemma_basic_div, lemma_div_by_self, lemma_div_is_ordered, lemma_div_is_ordered_by_denominator,
    lemma_div_multiples_vanish, lemma_div_pos_is_pos,
};
use crate::fixed::{div_trunc, fx_add, narrow_to_i64, sat64};
use crate::neuron::Neuron;
use crate::synapse::Synapse;
use crate::world::{elem_mut, World};

verus! {

/// Sentinel counter value meaning "this side has never spiked".
///
/// The counters saturate here, so a side that never spikes keeps an
/// effectively infinite age and contributes no plasticity.
pub const STDP_NEVER: u64 = u64::MAX;

/// Per-synapse spike-age counters, attached to every synapse at creation.
#[derive(Clone, Copy, PartialEq, Eq, Structural, Debug)]
pub struct STDPLearningRule {
    /// Ticks since the presynaptic neuron last spiked.
    pub pre_dt: u64,
    /// Ticks since the postsynaptic neuron last spiked.
    pub post_dt: u64,
}

impl Default for STDPLearningRule {
    /// A fresh rule: neither side has ever spiked.
    fn default() -> (r: Self)
        ensures
            r.pre_dt == STDP_NEVER,
            r.post_dt == STDP_NEVER,
    {
        STDPLearningRule { pre_dt: STDP_NEVER, post_dt: STDP_NEVER }
    }
}

/// The plasticity constants, supplied by the caller's configuration.
#[derive(Clone, Copy, PartialEq, Eq, Structural, Debug)]
pub struct PlasticityConfig {
    /// Maximal strengthening per postsynaptic spike (raw amount, >= 0).
    pub max_ltp: i64,
    /// Maximal weakening per presynaptic spike (raw amount, <= 0).
    pub max_ltd: i64,
    /// Spike-age half-life of the plasticity effect, in ticks.
    pub half_life: u64,
}

impl PlasticityConfig {
    /// A usable configuration: the half-life is a positive tick count small
    /// enough for exact arithmetic, strengthening is non-negative and
    /// weakening non-positive.
    pub open spec fn wf(self) -> bool {
        &&& 1 <= self.half_life <= 0xffff_ffff
        &&& self.max_ltp >= 0
        &&& self.max_ltd <= 0
    }

    /// The standard constants: +/- one tenth of a
    /// unit, with a twenty-tick half-life.
    pub fn standard() -> (r: Self)
        ensures
            r.max_ltp == 100_000int,
            r.max_ltd == -100_000int,
            r.half_life == 20,
            r.wf(),
    {
        PlasticityConfig { max_ltp: 100_000, max_ltd: -100_000, half_life: 20 }
    }
}

/// The plasticity contribution of a spike whose partner's most recent spike
/// is `dt` ticks old: `amp / (1 + dt / half_life)`, carried out exactly as
/// `amp * half_life / (half_life + dt)` with truncating division.
pub open spec fn decay_spec(amp: int, dt: int, half_life: int) -> int
    recommends
        half_life >= 1,
        dt >= 0,
{
    sat64(div_trunc(amp * half_life, half_life + dt))
}

/// The counter value a side carries for the current tick: zero if it spiked
/// this tick, otherwise one more than before, saturating at the sentinel.
pub open spec fn aged_dt_spec(dt: int, fired: bool) -> int {
    if fired {
        0
    } else if dt + 1 > STDP_NEVER {
        STDP_NEVER as int
    } else {
        dt + 1
    }
}

/// The counters after one tick's update.
pub open spec fn next_rule_spec(rule: STDPLearningRule, pre_fired: bool, post_fired: bool) -> STDPLearningRule {
    STDPLearningRule {
        pre_dt: aged_dt_spec(rule.pre_dt as int, pre_fired) as u64,
        post_dt: aged_dt_spec(rule.post_dt as int, post_fired) as u64,
    }
}

/// The strength change one tick applies: depression when the presynaptic
/// side fires, potentiation when the postsynaptic side fires, both decayed
/// by the partner's spike age for the current tick.
pub open spec fn stdp_effect_spec(
    rule: STDPLearningRule,
    pre_fired: bool,
    post_fired: bool,
    config: PlasticityConfig,
) -> int {
    sat64(
        (if pre_fired {
            decay_spec(
                config.max_ltd as int,
                aged_dt_spec(rule.post_dt as int, post_fired),
                config.half_life as int,
            )
        } else {
            0
        }) + (if post_fired {
            decay_spec(
                config.max_ltp as int,
                aged_dt_spec(rule.pre_dt as int, pre_fired),
                config.half_life as int,
            )
        } else {
            0
        }),
    )
}

/// The decayed plasticity contribution never exceeds its amplitude in
/// magnitude.
pub proof fn lemma_decay_bounded(amp: int, dt: int, half_life: int)
    requires
        half_life >= 1,
        dt >= 0,
        i64::MIN as int <= amp <= i64::MAX as int,
    ensures
        amp >= 0 ==> 0 <= decay_spec(amp, dt, half_life) <= amp,
        amp < 0 ==> amp <= decay_spec(amp, dt, half_life) <= 0,
{
    let mag = if amp >= 0 {
        amp
    } else {
        -amp
    };
    let m = amp * half_life;
    assert(mag * half_life >= 0 && half_life * mag == mag * half_life && (amp >= 0 ==> m == mag
        * half_life) && (amp < 0 ==> -m == mag * half_life)) by (nonlinear_arith)
        requires
            mag == (if amp >= 0 { amp } else { -amp }),
            m == amp * half_life,
            half_life >= 1,
    ;
    // (mag * half_life) / half_life == mag, and a larger denominator only
    // shrinks the quotient.
    lemma_div_multiples_vanish(mag, half_life);
    lemma_div_is_ordered_by_denominator(mag * half_life, half_life, half_life + dt);
    lemma_div_pos_is_pos(mag * half_life, half_life + dt);
}

/// Executable form of [`decay_spec`].
fn decay(amp: i64, dt: u64, half_life: u64) -> (r: i64)
    requires
        1 <= half_life <= 0xffff_ffff,
    ensures
        r as int == decay_spec(amp as int, dt as int, half_life as int),
{
    proof {
        assert(-0x8000_0000_0000_0000_0000_0000 <= (amp as int) * (half_life as int)
            <= 0x8000_0000_0000_0000_0000_0000) by (nonlinear_arith)
            requires
                -0x8000_0000_0000_0000 <= amp as int <= 0x7fff_ffff_ffff_ffff,
                1 <= half_life as int <= 0xffff_ffff,
        ;
    }
    let num: i128 = (amp as i128) * (half_life as i128);
    let den: i128 = (half_life as i128) + (dt as i128);
    let q = crate::fixed::div_trunc_i128(num, den);
    narrow_to_i64(q)
}

/// Law: a synapse whose presynaptic neuron fires at some tick and whose
/// postsynaptic neuron fires at the next tick (causal order) ends the pair
/// of ticks with strictly increased strength: the depression term of the
/// first tick vanishes against a never-spiking partner, while the
/// potentiation term of the second tick sees a one-tick-old presynaptic
/// spike and contributes at least one raw unit.
///
/// The two arithmetic preconditions exclude degenerate configurations:
/// a potentiation amplitude so small that a one-tick decay truncates it to
/// nothing, and a depression amplitude so enormous that even an infinitely
/// old partner spike would not silence it. A strength close enough to the
/// representable maximum to saturate is excluded as well.
pub proof fn lemma_causal_spike_pair_potentiates(
    rule: STDPLearningRule,
    config: PlasticityConfig,
    strength: int,
)
    requires
        config.wf(),
        rule.pre_dt == STDP_NEVER,
        rule.post_dt == STDP_NEVER,
        config.max_ltp * config.half_life >= config.half_life + 1,
        -(config.max_ltd * config.half_life) < config.half_life + STDP_NEVER,
        i64::MIN as int <= strength,
        strength + config.max_ltp <= i64::MAX as int,
    ensures
        ({
            let e1 = stdp_effect_spec(rule, true, false, config);
            let r1 = next_rule_spec(rule, true, false);
            let e2 = stdp_effect_spec(r1, false, true, config);
            e1 == 0 && e2 >= 1 && sat64(sat64(strength + e1) + e2) > strength
        }),
{
    let hl = config.half_life as int;
    let ltd = config.max_ltd as int;
    let ltp = config.max_ltp as int;
    // First tick: only the depression term is active, and the postsynaptic
    // side has never spiked, so the decayed amount truncates to zero.
    assert(ltd * hl <= 0) by (nonlinear_arith)
        requires
            ltd <= 0,
            hl >= 1,
    ;
    if ltd * hl < 0 {
        lemma_basic_div(-(ltd * hl), hl + STDP_NEVER);
    } else {
        lemma_basic_div(0, hl + STDP_NEVER);
    }
    assert(stdp_effect_spec(rule, true, false, config) == 0);
    // Second tick: the presynaptic spike is one tick old, so the
    // potentiation term contributes at least one raw unit.
    let r1 = next_rule_spec(rule, true, false);
    assert(r1.pre_dt == 0 && r1.post_dt == STDP_NEVER);
    lemma_div_by_self(hl + 1);
    lemma_div_is_ordered(hl + 1, ltp * hl, hl + 1);
    lemma_decay_bounded(ltp, 1, hl);
}

/// Law: the reversed (acausal) order — postsynaptic spike first, then the
/// presynaptic spike one tick later — ends the pair of ticks with strictly
/// decreased strength, by the mirror of the reasoning in
/// [`lemma_causal_spike_pair_potentiates`].
pub proof fn lemma_acausal_spike_pair_depresses(
    rule: STDPLearningRule,
    config: PlasticityConfig,
    strength: int,
)
    requires
        config.wf(),
        rule.pre_dt == STDP_NEVER,
        rule.post_dt == STDP_NEVER,
        -(config.max_ltd * config.half_life) >= config.half_life + 1,
        config.max_ltp * config.half_life < config.half_life + STDP_NEVER,
        strength <= i64::MAX as int,
        i64::MIN as int <= strength + config.max_ltd,
    ensures
        ({
            let e1 = stdp_effect_spec(rule, false, true, config);
            let r1 = next_rule_spec(rule, false, true);
            let e2 = stdp_effect_spec(r1, true, false, config);
            e1 == 0 && e2 <= -1 && sat64(sat64(strength + e1) + e2) < strength
        }),
{
    let hl = config.half_life as int;
    let ltd = config.max_ltd as int;
    let ltp = config.max_ltp as int;
    // First tick: only the potentiation term is active, against a partner
    // that has never spiked; it truncates to zero.
    assert(ltp * hl >= 0) by (nonlinear_arith)
        requires
            ltp >= 0,
            hl >= 1,
    ;
    lemma_basic_div(ltp * hl, hl + STDP_NEVER);
    assert(stdp_effect_spec(rule, false, true, config) == 0);
    // Second tick: the postsynaptic spike is one tick old, so the
    // depression term removes at least one raw unit.
    let r1 = next_rule_spec(rule, false, true);
    assert(r1.post_dt == 0 && r1.pre_dt == STDP_NEVER);
    lemma_div_by_self(hl + 1);
    lemma_div_is_ordered(hl + 1, -(ltd * hl), hl + 1);
    lemma_decay_bounded(ltd, 1, hl);
}

impl STDPLearningRule {
    /// One tick of the plasticity rule for one synapse: ages or resets the
    /// two counters and returns the strength change to apply.
    pub fn update(&mut self, pre_fired: bool, post_fired: bool, config: &PlasticityConfig) -> (effect: i64)
        requires
            config.wf(),
        ensures
            *final(self) == next_rule_spec(*old(self), pre_fired, post_fired),
            effect as int == stdp_effect_spec(*old(self), pre_fired, post_fired, *config),
    {
        let new_pre: u64 = if pre_fired {
            0
        } else {
            self.pre_dt.saturating_add(1)
        };
        let new_post: u64 = if post_fired {
            0
        } else {
            self.post_dt.saturating_add(1)
        };
        let depression: i64 = if pre_fired {
            decay(config.max_ltd, new_post, config.half_life)
        } else {
            0
        };
        let potentiation: i64 = if post_fired {
            decay(config.max_ltp, new_pre, config.half_life)
        } else {
            0
        };
        self.pre_dt = new_pre;
        self.post_dt = new_post;
        narrow_to_i64((depression as i128) + (potentiation as i128))
    }
}

/// The plasticity stage; one pass per tick.
pub struct STDPLearningSystem;

/// How one plasticity pass rewrites one synapse: the spike-age counters
/// age or reset against this tick's action potentials, and the strength
/// moves by the decayed depression and potentiation amounts.
pub open spec fn plasticity_rel(
    s0: Synapse,
    neurons: Seq<Neuron>,
    config: PlasticityConfig,
    s1: Synapse,
) -> bool {
    let pre_fired = s0.pre_neuron < neurons.len() && neurons[s0.pre_neuron as int].action_potential;
    let post_fired = s0.post_neuron < neurons.len()
        && neurons[s0.post_neuron as int].action_potential;
    &&& s1.pre_neuron == s0.pre_neuron
    &&& s1.post_neuron == s0.post_neuron
    &&& s1.delay == s0.delay
    &&& s1.pending_spikes@ == s0.pending_spikes@
    &&& s1.stdp == next_rule_spec(s0.stdp, pre_fired, post_fired)
    &&& s1.strength as int == sat64(
        s0.strength + stdp_effect_spec(s0.stdp, pre_fired, post_fired, config),
    )
}

impl STDPLearningSystem {
    /// One plasticity pass: for every synapse, consult this tick's
    /// action-potential markers — still unretired, the scheduler clears
    /// them only after this stage — and apply the spike-timing rule.
    pub fn run(world: &mut World, config: &PlasticityConfig)
        requires
            old(world).wf(),
            config.wf(),
        ensures
            final(world).wf(),
            final(world).neurons == old(world).neurons,
            final(world).synapses.len() == old(world).synapses.len(),
            forall|k: int|
                0 <= k < old(world).synapses.len() ==> plasticity_rel(
                    old(world).synapses@[k],
                    old(world).neurons@,
                    *config,
                    #[trigger] final(world).synapses@[k],
                ),
    {
        let ghost n0 = world.neurons@;
        let ghost s_init = world.synapses@;
        let count = world.synapses.len();
        for k in 0..count
            invariant
                world.wf(),
                config.wf(),
                world.neurons == old(world).neurons,
                world.synapses.len() == s_init.len(),
                count == s_init.len(),
                n0 == old(world).neurons@,
                forall|j: int|
                    0 <= j < k ==> plasticity_rel(
                        s_init[j],
                        n0,
                        *config,
                        #[trigger] world.synapses@[j],
                    ),
                forall|j: int| k <= j < s_init.len() ==> world.synapses@[j] == s_init[j],
        {
            let pre = world.synapses[k].pre_neuron;
            let post = world.synapses[k].post_neuron;
            let pre_fired = world.neurons[pre].action_potential;
            let post_fired = world.neurons[post].action_potential;
            let syn = elem_mut(&mut world.synapses, k);
            let effect = syn.stdp.update(pre_fired, post_fired, config);
            syn.strength = fx_add(syn.strength, effect);
        }
    }
}

} // verus!
