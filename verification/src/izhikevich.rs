//! The Izhikevich neuron model.
//!
//! Intrinsic dynamics of the membrane potential `v` and recovery variable
//! `u`, integrated once per tick in two half-steps, with a hard reset and an
//! action-potential marker when `v` reaches the spike threshold.

use vstd::prelude::*;
use crate::fixed::{
    div_trunc, fx_add, fx_div_int, fx_mul, fx_mul_spec, narrow_to_i64, sat64, FX_ONE,
};
use crate::neuron::{advance_neuron, neuron_advances_to};
use crate::rng::random_below;
use crate::world::{elem_mut, World};
use vstd::arithmetic::div_mod::{lemma_div_is_ordered, lemma_div_pos_is_pos};

verus! {

/// Membrane potential at or above this raw amount (30 units) triggers the
/// reset rule and an action potential.
pub const IZH_SPIKE_THRESHOLD: i64 = 30_000_000;

/// Quadratic coefficient of the membrane equation (0.04 units).
pub const IZH_SQUARE_COEFF: i64 = 40_000;

/// Linear coefficient of the membrane equation (5 units).
pub const IZH_LINEAR_COEFF: i64 = 5_000_000;

/// Constant drive of the membrane equation (140 units).
pub const IZH_BASE_CURRENT: i64 = 140_000_000;

/// Exclusive upper bound of the uniformly drawn thalamic noise (5 units).
pub const THALAMIC_INPUT_LIMIT: i64 = 5_000_000;

/// Dynamical state of one Izhikevich neuron.
#[derive(Clone, Copy, PartialEq, Eq, Structural, Debug)]
pub struct IzhikevichModel {
    /// Recovery variable.
    pub u: i64,
    /// Membrane potential.
    pub v: i64,
}

/// Immutable parameter set of one Izhikevich neuron.
#[derive(Clone, Copy, PartialEq, Eq, Structural, Debug)]
pub struct IzhikevichMorphology {
    /// Recovery time scale.
    pub a: i64,
    /// Recovery sensitivity to the membrane potential.
    pub b: i64,
    /// Post-spike reset value of the membrane potential.
    pub c: i64,
    /// Post-spike increment of the recovery variable.
    pub d: i64,
}

impl IzhikevichMorphology {
    /// The regular-spiking cortical parameter set
    /// (a = 0.02, b = 0.2, c = -65, d = 2).
    pub fn regular_spiking() -> (r: Self)
        ensures
            r.a == 20_000int,
            r.b == 200_000int,
            r.c == -65_000_000int,
            r.d == 2_000_000int,
    {
        IzhikevichMorphology { a: 20_000, b: 200_000, c: -65_000_000, d: 2_000_000 }
    }
}

impl IzhikevichModel {
    /// The resting state the network generator starts every neuron in
    /// (v = -65, u = 0.02 * -65).
    pub fn resting() -> (r: Self)
        ensures
            r.v == -65_000_000int,
            r.u == -1_300_000int,
    {
        IzhikevichModel { v: -65_000_000, u: -1_300_000 }
    }
}

/// The membrane derivative-like increment `0.04 v^2 + 5 v + 140 - u + i`,
/// in raw units.
pub open spec fn izh_dv_spec(v: int, u: int, i: int) -> int {
    sat64(
        fx_mul_spec(IZH_SQUARE_COEFF as int, fx_mul_spec(v, v)) + fx_mul_spec(
            IZH_LINEAR_COEFF as int,
            v,
        ) + IZH_BASE_CURRENT + (-u) + i,
    )
}

/// One half-step of the membrane update: `v + 0.5 * (0.04 v^2 + 5 v + 140 -
/// u + i)`.
pub open spec fn izh_half_step_spec(v: int, u: int, i: int) -> int {
    sat64(v + div_trunc(izh_dv_spec(v, u, i), 2))
}

/// The membrane potential after the tick's two half-steps; the recovery
/// variable and the input current are held fixed between them.
pub open spec fn izh_integrated_v_spec(v: int, u: int, i: int) -> int {
    izh_half_step_spec(izh_half_step_spec(v, u, i), u, i)
}

/// The recovery update `u + a * (b * v - u)`, applied once after the two
/// half-steps, with `v` already integrated.
pub open spec fn izh_integrated_u_spec(v2: int, u: int, a: int, b: int) -> int {
    sat64(u + fx_mul_spec(a, sat64(fx_mul_spec(b, v2) - u)))
}

fn izh_half_step(v: i64, u: i64, i: i64) -> (r: i64)
    ensures
        r as int == izh_half_step_spec(v as int, u as int, i as int),
{
    let v_sq = fx_mul(v, v);
    let quad = fx_mul(IZH_SQUARE_COEFF, v_sq);
    let lin = fx_mul(IZH_LINEAR_COEFF, v);
    let dv = narrow_to_i64(
        (quad as i128) + (lin as i128) + (IZH_BASE_CURRENT as i128) + (-(u as i128)) + (i as i128),
    );
    let half = fx_div_int(dv, 2);
    narrow_to_i64((v as i128) + (half as i128))
}

/// One tick of the Izhikevich dynamics for one neuron: integrate the
/// membrane and recovery variables under the input current `psp + noise`,
/// then apply the reset rule. Returns the new state and whether an action
/// potential occurred.
pub fn izhikevich_tick(
    model: &IzhikevichModel,
    morphology: &IzhikevichMorphology,
    psp: i64,
    noise: i64,
) -> (r: (IzhikevichModel, bool))
    ensures
        ({
            let i = sat64(psp as int + noise as int);
            let v2 = izh_integrated_v_spec(model.v as int, model.u as int, i);
            let u2 = izh_integrated_u_spec(v2, model.u as int, morphology.a as int, morphology.b as int);
            if v2 >= IZH_SPIKE_THRESHOLD as int {
                r.0.v == morphology.c && r.0.u as int == sat64(u2 + morphology.d) && r.1 == true
            } else {
                r.0.v as int == v2 && r.0.u as int == u2 && r.1 == false
            }
        }),
{
    let i = fx_add(psp, noise);
    let v1 = izh_half_step(model.v, model.u, i);
    let v2 = izh_half_step(v1, model.u, i);
    let bv = fx_mul(morphology.b, v2);
    let gap = narrow_to_i64((bv as i128) - (model.u as i128));
    let u2 = narrow_to_i64((model.u as i128) + (fx_mul(morphology.a, gap) as i128));
    if v2 >= IZH_SPIKE_THRESHOLD {
        let u3 = narrow_to_i64((u2 as i128) + (morphology.d as i128));
        (IzhikevichModel { v: morphology.c, u: u3 }, true)
    } else {
        (IzhikevichModel { v: v2, u: u2 }, false)
    }
}

/// A fresh draw of the uniform thalamic background current, one per neuron
/// per tick.
pub fn thalamic_input() -> (r: i64)
    ensures
        0 <= r < THALAMIC_INPUT_LIMIT,
{
    let raw = random_below(THALAMIC_INPUT_LIMIT as u64);
    raw as i64
}

/// The Izhikevich integration stage; one pass per tick, independent of
/// and order-interchangeable with the Hindmarsh-Rose stage, which touches
/// a disjoint set of neurons.
pub struct IzhikevichIntegrator;

impl IzhikevichIntegrator {
    /// Advance every Izhikevich neuron by one tick under a fresh uniform
    /// thalamic input; neurons of other variants are untouched.
    pub fn run(world: &mut World)
        requires
            old(world).wf(),
        ensures
            final(world).wf(),
            final(world).synapses == old(world).synapses,
            final(world).neurons.len() == old(world).neurons.len(),
            forall|j: int|
                0 <= j < old(world).neurons.len() ==> {
                    let n0 = old(world).neurons@[j];
                    let n1 = #[trigger] final(world).neurons@[j];
                    if n0.state is Izhikevich {
                        exists|noise: int|
                            0 <= noise < THALAMIC_INPUT_LIMIT && neuron_advances_to(n0, noise, n1)
                    } else {
                        n1 == n0
                    }
                },
    {
        let ghost n_init = world.neurons@;
        let count = world.neurons.len();
        for j in 0..count
            invariant
                world.wf(),
                world.synapses == old(world).synapses,
                world.neurons.len() == n_init.len(),
                count == n_init.len(),
                n_init == old(world).neurons@,
                forall|i: int|
                    0 <= i < j ==> {
                        let n0 = n_init[i];
                        let n1 = #[trigger] world.neurons@[i];
                        if n0.state is Izhikevich {
                            exists|noise: int|
                                0 <= noise < THALAMIC_INPUT_LIMIT && neuron_advances_to(
                                    n0,
                                    noise,
                                    n1,
                                )
                        } else {
                            n1 == n0
                        }
                    },
                forall|i: int| j <= i < n_init.len() ==> world.neurons@[i] == n_init[i],
        {
            if world.neurons[j].is_izhikevich_variant() {
                let noise = thalamic_input();
                let nrn = elem_mut(&mut world.neurons, j);
                advance_neuron(nrn, noise, j);
                proof {
                    assert(neuron_advances_to(
                        n_init[j as int],
                        noise as int,
                        world.neurons@[j as int],
                    ));
                }
            }
        }
    }
}

proof fn lemma_half_step_holds_above_threshold(v: int, u: int, i: int)
    requires
        IZH_SPIKE_THRESHOLD as int <= v <= i64::MAX as int,
        i64::MIN as int <= u <= 326_000_000,
        0 <= i <= i64::MAX as int,
    ensures
        v <= izh_half_step_spec(v, u, i) <= i64::MAX as int,
{
    let s = FX_ONE as int;
    // v^2 in raw units is at least 900 units.
    assert(v * v >= 900_000_000_000_000) by (nonlinear_arith)
        requires
            v >= 30_000_000,
    ;
    lemma_div_is_ordered(900_000_000_000_000, v * v, s);
    vstd::arithmetic::div_mod::lemma_div_multiples_vanish(900_000_000, s);
    let v_sq = fx_mul_spec(v, v);
    assert(v_sq >= 900_000_000);
    // 0.04 v^2 is at least 36 units.
    lemma_div_is_ordered(40_000int * 900_000_000int, 40_000 * v_sq, s);
    vstd::arithmetic::div_mod::lemma_div_multiples_vanish(36_000_000, s);
    let quad = fx_mul_spec(IZH_SQUARE_COEFF as int, v_sq);
    assert(quad >= 36_000_000);
    // 5 v is at least 150 units.
    lemma_div_is_ordered(5_000_000int * 30_000_000int, 5_000_000 * v, s);
    vstd::arithmetic::div_mod::lemma_div_multiples_vanish(150_000_000, s);
    let lin = fx_mul_spec(IZH_LINEAR_COEFF as int, v);
    assert(lin >= 150_000_000);
    // The increment is non-negative: 36 + 150 + 140 covers a recovery
    // variable as large as 326 units.
    let dv = izh_dv_spec(v, u, i);
    assert(dv >= 0);
    lemma_div_pos_is_pos(dv, 2);
}

/// Law: an Izhikevich neuron whose membrane potential starts at or above
/// the spike threshold fires on that tick and is reset: the new membrane
/// potential is exactly the reset parameter `c`, the recovery variable
/// gains exactly the post-spike increment `d` on top of its integrated
/// value, and the action-potential marker is raised. With a zero recovery
/// time scale (`a == 0`) the integration leaves `u` untouched, so the gain
/// over the starting value is exactly `d`.
///
/// The membrane holds above threshold only while the recovery variable does
/// not overwhelm the quadratic drive (here: at most 326 units) and the
/// input current is non-negative, as the thalamic noise always is; a larger
/// `u` or a negative input can pull the potential back below threshold
/// within the tick.
pub proof fn lemma_reset_above_threshold(
    model: IzhikevichModel,
    morphology: IzhikevichMorphology,
    psp: int,
    noise: int,
)
    requires
        model.v >= IZH_SPIKE_THRESHOLD,
        model.u <= 326_000_000,
        psp >= 0,
        noise >= 0,
    ensures
        ({
            let i = sat64(psp + noise);
            let v2 = izh_integrated_v_spec(model.v as int, model.u as int, i);
            let u2 = izh_integrated_u_spec(v2, model.u as int, morphology.a as int, morphology.b as int);
            v2 >= IZH_SPIKE_THRESHOLD as int && (morphology.a == 0 ==> sat64(u2 + morphology.d)
                == sat64(model.u + morphology.d))
        }),
{
    let i = sat64(psp + noise);
    lemma_half_step_holds_above_threshold(model.v as int, model.u as int, i);
    let v1 = izh_half_step_spec(model.v as int, model.u as int, i);
    lemma_half_step_holds_above_threshold(v1, model.u as int, i);
    let v2 = izh_integrated_v_spec(model.v as int, model.u as int, i);
    if morphology.a == 0 {
        let gap = sat64(fx_mul_spec(morphology.b as int, v2) - model.u);
        assert(fx_mul_spec(0, gap) == 0);
        assert(izh_integrated_u_spec(v2, model.u as int, 0, morphology.b as int) == sat64(
            model.u + 0,
        ));
    }
}

} // verus!
