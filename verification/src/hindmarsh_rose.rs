//! The Hindmarsh-Rose neuron model.
//!
//! Three coupled state variables `x`, `y`, `z` and an input accumulator `i`
//! advance once per tick in two half-steps of half a millisecond each. Both
//! half-steps reuse the derivative evaluated at the pre-step state — a
//! deliberate low-cost stability device, not a true second-order scheme.
//! The membrane surrogate is `y`: a neuron is spiking while `y` stays above
//! the threshold, and the upward crossing marks an action potential.

use vstd::prelude::*;
use crate::fixed::{
    div_trunc, fx_div, fx_div_int, fx_div_spec, fx_mul, fx_mul_spec, fx_neg, fx_neg_spec, fx_sub,
    fx_sub_spec, narrow_to_i64, sat64,
};
use crate::errors::ConfigError;
use crate::neuron::{advance_neuron, neuron_advances_to};
use crate::world::{elem_mut, World};
use vstd::arithmetic::div_mod::{lemma_div_by_self, lemma_div_is_ordered};

verus! {

/// A `y` above this raw amount (-3.5 units) counts as spiking.
pub const HR_SPIKE_THRESHOLD: i64 = -3_500_000;

/// Divisor turning a per-second derivative into a half-millisecond
/// half-step (0.5 / 1000).
pub const HR_HALF_STEP_DIVISOR: i64 = 2000;

/// Dynamical state of one Hindmarsh-Rose neuron.
#[derive(Clone, Copy, PartialEq, Eq, Structural, Debug)]
pub struct HindmarshRoseModel {
    /// Membrane-potential-like variable.
    pub x: i64,
    /// Spiking variable; the model's primary observable.
    pub y: i64,
    /// Slow adaptation current.
    pub z: i64,
    /// Externally driven input accumulator.
    pub i: i64,
}

/// Immutable parameter set of one Hindmarsh-Rose neuron.
#[derive(Clone, Copy, PartialEq, Eq, Structural, Debug)]
pub struct HindmarshRoseMorphology {
    /// Cubic coefficient of the fast subsystem.
    pub a: i64,
    /// Quadratic coefficient of the fast subsystem.
    pub b: i64,
    /// Constant drive of the `y` equation.
    pub c: i64,
    /// Quadratic coefficient of the `y` equation.
    pub d: i64,
    /// Damping of the `y` equation.
    pub beta: i64,
    /// Time scale of the slow subsystem.
    pub r: i64,
    /// Sensitivity of the slow subsystem.
    pub s: i64,
    /// Resting value of `x` for the slow subsystem.
    pub x_r: i64,
    /// Time scale dividing every derivative; must be positive.
    pub t_s: i64,
    /// Amplitude assigned to one incoming postsynaptic impulse.
    pub epsp_amp: i64,
}

impl HindmarshRoseMorphology {
    /// A morphology the integrator can run on: the time scale divisor is
    /// positive.
    pub open spec fn wf(self) -> bool {
        self.t_s >= 1
    }

    /// Check this parameter set before building neurons from it: a
    /// non-positive time scale is a configuration fault, surfaced as a
    /// typed error before any tick runs.
    pub fn validate(&self) -> (r: Result<(), ConfigError>)
        ensures
            r is Ok <==> self.wf(),
            match r {
                Ok(_) => self.wf(),
                Err(e) => !self.wf() && e == ConfigError::NonPositiveTimescale,
            },
    {
        if self.t_s >= 1 {
            Ok(())
        } else {
            Err(ConfigError::NonPositiveTimescale)
        }
    }
}

/// `sigma(x) = -a x^3 + b x^2`, the fast drive of the `x` equation.
pub open spec fn hr_sigma_spec(morph: HindmarshRoseMorphology, x: int) -> int {
    let x_sq = fx_mul_spec(x, x);
    let x_cu = fx_mul_spec(x_sq, x);
    sat64(fx_mul_spec(fx_neg_spec(morph.a as int), x_cu) + fx_mul_spec(morph.b as int, x_sq))
}

/// `psi(x) = c - d x^2`, the drive of the `y` equation.
pub open spec fn hr_psi_spec(morph: HindmarshRoseMorphology, x: int) -> int {
    fx_sub_spec(morph.c as int, fx_mul_spec(morph.d as int, fx_mul_spec(x, x)))
}

/// Raw derivative of `x`: `y + sigma(x) - z + i`.
pub open spec fn hr_dx_spec(morph: HindmarshRoseMorphology, m: HindmarshRoseModel) -> int {
    sat64(m.y + hr_sigma_spec(morph, m.x as int) + (-(m.z as int)) + m.i)
}

/// Raw derivative of `y`: `psi(x) - beta * y`.
pub open spec fn hr_dy_spec(morph: HindmarshRoseMorphology, m: HindmarshRoseModel) -> int {
    fx_sub_spec(hr_psi_spec(morph, m.x as int), fx_mul_spec(morph.beta as int, m.y as int))
}

/// Raw derivative of `z`: `r * (s * (x - x_r) - z)`.
pub open spec fn hr_dz_spec(morph: HindmarshRoseMorphology, m: HindmarshRoseModel) -> int {
    fx_mul_spec(
        morph.r as int,
        fx_sub_spec(
            fx_mul_spec(morph.s as int, fx_sub_spec(m.x as int, morph.x_r as int)),
            m.z as int,
        ),
    )
}

/// A derivative rescaled by the morphology's time scale.
pub open spec fn hr_scaled(d: int, t_s: int) -> int
    recommends
        t_s >= 1,
{
    fx_div_spec(d, t_s)
}

/// Two identical half-step increments applied to a state variable.
pub open spec fn hr_two_halves(v: int, inc: int) -> int {
    sat64(sat64(v + inc) + inc)
}

/// The per-half-step increment of an ordinary state variable: half a
/// millisecond of its time-scaled derivative.
pub open spec fn hr_half_inc(d: int, t_s: int) -> int
    recommends
        t_s >= 1,
{
    div_trunc(hr_scaled(d, t_s), HR_HALF_STEP_DIVISOR as int)
}

/// The per-half-step increment of the input accumulator: the postsynaptic
/// impulse is injected undivided by the millisecond scaling.
pub open spec fn hr_input_inc(psp: int, t_s: int) -> int
    recommends
        t_s >= 1,
{
    div_trunc(hr_scaled(psp, t_s), 2)
}

/// The `y` component after one tick.
pub open spec fn hr_y_after_spec(morph: HindmarshRoseMorphology, m: HindmarshRoseModel) -> int {
    hr_two_halves(m.y as int, hr_half_inc(hr_dy_spec(morph, m), morph.t_s as int))
}

/// The `x` component after one tick.
pub open spec fn hr_x_after_spec(morph: HindmarshRoseMorphology, m: HindmarshRoseModel) -> int {
    hr_two_halves(m.x as int, hr_half_inc(hr_dx_spec(morph, m), morph.t_s as int))
}

/// The `z` component after one tick.
pub open spec fn hr_z_after_spec(morph: HindmarshRoseMorphology, m: HindmarshRoseModel) -> int {
    hr_two_halves(m.z as int, hr_half_inc(hr_dz_spec(morph, m), morph.t_s as int))
}

/// The input accumulator after one tick under the impulse `psp`.
pub open spec fn hr_i_after_spec(morph: HindmarshRoseMorphology, m: HindmarshRoseModel, psp: int) -> int {
    hr_two_halves(m.i as int, hr_input_inc(psp, morph.t_s as int))
}

fn apply_two_halves(v: i64, inc: i64) -> (r: i64)
    ensures
        r as int == hr_two_halves(v as int, inc as int),
{
    let first = narrow_to_i64((v as i128) + (inc as i128));
    narrow_to_i64((first as i128) + (inc as i128))
}

/// One tick of the Hindmarsh-Rose dynamics for one neuron under the
/// postsynaptic impulse `psp`: the derivative is evaluated once at the
/// pre-step state and applied as two half-millisecond half-steps.
pub fn hindmarsh_rose_step(
    model: &HindmarshRoseModel,
    morphology: &HindmarshRoseMorphology,
    psp: i64,
) -> (r: HindmarshRoseModel)
    requires
        morphology.wf(),
    ensures
        r.x as int == hr_x_after_spec(*morphology, *model),
        r.y as int == hr_y_after_spec(*morphology, *model),
        r.z as int == hr_z_after_spec(*morphology, *model),
        r.i as int == hr_i_after_spec(*morphology, *model, psp as int),
{
    let x_sq = fx_mul(model.x, model.x);
    let x_cu = fx_mul(x_sq, model.x);
    let sigma = narrow_to_i64(
        (fx_mul(fx_neg(morphology.a), x_cu) as i128) + (fx_mul(morphology.b, x_sq) as i128),
    );
    let psi = fx_sub(morphology.c, fx_mul(morphology.d, x_sq));

    let dx = narrow_to_i64(
        (model.y as i128) + (sigma as i128) + (-(model.z as i128)) + (model.i as i128),
    );
    let dy = fx_sub(psi, fx_mul(morphology.beta, model.y));
    let dz = fx_mul(
        morphology.r,
        fx_sub(fx_mul(morphology.s, fx_sub(model.x, morphology.x_r)), model.z),
    );

    let inc_x = fx_div_int(fx_div(dx, morphology.t_s), HR_HALF_STEP_DIVISOR);
    let inc_y = fx_div_int(fx_div(dy, morphology.t_s), HR_HALF_STEP_DIVISOR);
    let inc_z = fx_div_int(fx_div(dz, morphology.t_s), HR_HALF_STEP_DIVISOR);
    let inc_i = fx_div_int(fx_div(psp, morphology.t_s), 2);

    HindmarshRoseModel {
        x: apply_two_halves(model.x, inc_x),
        y: apply_two_halves(model.y, inc_y),
        z: apply_two_halves(model.z, inc_z),
        i: apply_two_halves(model.i, inc_i),
    }
}

/// The Hindmarsh-Rose integration stage; one pass per tick, independent
/// of and order-interchangeable with the Izhikevich stage, which touches a
/// disjoint set of neurons.
pub struct HindmarshRoseIntegrator;

impl HindmarshRoseIntegrator {
    /// Advance every Hindmarsh-Rose neuron by one tick; neurons of other
    /// variants are untouched.
    pub fn run(world: &mut World)
        requires
            old(world).wf(),
        ensures
            final(world).wf(),
            final(world).synapses == old(world).synapses,
            final(world).neurons.len() == old(world).neurons.len(),
            forall|j: int|
                0 <= j < old(world).neurons.len() ==> {
                    let n0 = old(world).neurons@[j];
                    let n1 = #[trigger] final(world).neurons@[j];
                    if n0.state is HindmarshRose {
                        neuron_advances_to(n0, 0, n1)
                    } else {
                        n1 == n0
                    }
                },
    {
        let ghost n_init = world.neurons@;
        let count = world.neurons.len();
        for j in 0..count
            invariant
                world.wf(),
                world.synapses == old(world).synapses,
                world.neurons.len() == n_init.len(),
                count == n_init.len(),
                n_init == old(world).neurons@,
                forall|i: int|
                    0 <= i < j ==> {
                        let n0 = n_init[i];
                        let n1 = #[trigger] world.neurons@[i];
                        if n0.state is HindmarshRose {
                            neuron_advances_to(n0, 0, n1)
                        } else {
                            n1 == n0
                        }
                    },
                forall|i: int| j <= i < n_init.len() ==> world.neurons@[i] == n_init[i],
        {
            if world.neurons[j].is_hindmarsh_rose_variant() {
                let nrn = elem_mut(&mut world.neurons, j);
                advance_neuron(nrn, 0, j);
            }
        }
    }
}

/// The quiescent, damped regime of the `y` equation: the time-scaled `y`
/// derivative is at least one half-step quantum below zero, so each
/// half-step moves `y` down by at least one raw unit.
pub open spec fn hr_damped_regime(morph: HindmarshRoseMorphology, m: HindmarshRoseModel) -> bool {
    hr_scaled(hr_dy_spec(morph, m), morph.t_s as int) <= -(HR_HALF_STEP_DIVISOR as int)
}

/// Law: with a quiescent input accumulator and parameters and state in the
/// damped regime, `y` strictly decreases across one tick.
pub proof fn lemma_damped_y_strictly_decreases(
    morph: HindmarshRoseMorphology,
    m: HindmarshRoseModel,
)
    requires
        morph.wf(),
        m.i == 0,
        hr_damped_regime(morph, m),
        m.y > i64::MIN,
    ensures
        hr_y_after_spec(morph, m) < m.y,
{
    let scaled = hr_scaled(hr_dy_spec(morph, m), morph.t_s as int);
    let q = HR_HALF_STEP_DIVISOR as int;
    lemma_div_by_self(q);
    lemma_div_is_ordered(q, -scaled, q);
    let inc = hr_half_inc(hr_dy_spec(morph, m), morph.t_s as int);
    assert(inc <= -1);
}

} // verus!
