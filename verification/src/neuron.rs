//! Neuron records of the entity store.
//!
//! A neuron couples one dynamical-state variant — fixed at creation for its
//! whole lifetime — with the per-tick bookkeeping every stage shares: the
//! postsynaptic input accumulator, the persistent spiking flag, the
//! one-tick action-potential marker and optional column coordinates.

use vstd::prelude::*;
use crate::fixed::sat64;
use crate::hindmarsh_rose::{
    hindmarsh_rose_step, hr_i_after_spec, hr_x_after_spec, hr_y_after_spec, hr_z_after_spec,
    HindmarshRoseModel, HindmarshRoseMorphology, HR_SPIKE_THRESHOLD,
};
use crate::izhikevich::{
    izh_integrated_u_spec, izh_integrated_v_spec, izhikevich_tick, IzhikevichModel,
    IzhikevichMorphology, IZH_SPIKE_THRESHOLD,
};

verus! {

/// The layer a neuron belongs to within its column.
#[derive(Clone, Copy, PartialEq, Eq, Structural, Debug)]
pub enum Layer {
    /// Receives from the environment.
    Sensory,
    /// Sends to the environment.
    Motor,
    /// Sends to other columns.
    Afferent,
    /// Receives from other columns.
    Efferent,
    /// Connected only within the column.
    Internal,
}

/// The layers in the creation order the topology generator uses.
pub open spec fn layer_order() -> Seq<Layer> {
    seq![Layer::Sensory, Layer::Motor, Layer::Afferent, Layer::Efferent, Layer::Internal]
}

impl Layer {
    /// All layers, in creation order.
    pub fn iter() -> (r: Vec<Layer>)
        ensures
            r@ == layer_order(),
    {
        let mut v: Vec<Layer> = Vec::new();
        v.push(Layer::Sensory);
        v.push(Layer::Motor);
        v.push(Layer::Afferent);
        v.push(Layer::Efferent);
        v.push(Layer::Internal);
        proof {
            assert(v@ =~= layer_order());
        }
        v
    }
}

/// Where a neuron sits in the column/layer grid.
#[derive(Clone, Copy, PartialEq, Eq, Structural, Debug)]
pub struct ColumnCoordinates {
    /// Index of the column.
    pub column: usize,
    /// Layer within the column.
    pub layer: Layer,
}

/// The dynamical-state variant of a neuron, fixed at creation, together
/// with its immutable parameter set.
#[derive(Clone, Copy, PartialEq, Eq, Structural, Debug)]
pub enum NeuronState {
    /// A Hindmarsh-Rose neuron.
    HindmarshRose {
        /// Mutable dynamical state.
        model: HindmarshRoseModel,
        /// Immutable parameters.
        morphology: HindmarshRoseMorphology,
    },
    /// An Izhikevich neuron.
    Izhikevich {
        /// Mutable dynamical state.
        model: IzhikevichModel,
        /// Immutable parameters.
        morphology: IzhikevichMorphology,
    },
}

impl NeuronState {
    /// The variant's morphology is usable by its integrator.
    pub open spec fn wf(self) -> bool {
        match self {
            NeuronState::HindmarshRose { morphology, .. } => morphology.wf(),
            NeuronState::Izhikevich { .. } => true,
        }
    }
}

/// Two states of one neuron at different ticks: same variant, same
/// morphology.
pub open spec fn same_kind(a: NeuronState, b: NeuronState) -> bool {
    match (a, b) {
        (
            NeuronState::HindmarshRose { morphology: m1, .. },
            NeuronState::HindmarshRose { morphology: m2, .. },
        ) => m1 == m2,
        (
            NeuronState::Izhikevich { morphology: m1, .. },
            NeuronState::Izhikevich { morphology: m2, .. },
        ) => m1 == m2,
        _ => false,
    }
}

/// One neuron record of the entity store.
#[derive(Clone, Copy, PartialEq, Eq, Structural, Debug)]
pub struct Neuron {
    /// Dynamical state and parameters.
    pub state: NeuronState,
    /// Postsynaptic input accumulator, reset to zero every tick after being
    /// read by the integrator.
    pub psp: i64,
    /// Persistent "currently above threshold" flag.
    pub spiking: bool,
    /// One-tick "crossed into spiking this tick" marker; retired by the
    /// scheduler after every same-tick consumer has read it.
    pub action_potential: bool,
    /// Position in the column/layer grid, when the neuron has one.
    pub coordinates: Option<ColumnCoordinates>,
}

impl Neuron {
    /// The record can be integrated.
    pub open spec fn wf(self) -> bool {
        self.state.wf()
    }

    /// A fresh Izhikevich neuron with quiet accumulators and flags.
    pub fn izhikevich(
        model: IzhikevichModel,
        morphology: IzhikevichMorphology,
        coordinates: Option<ColumnCoordinates>,
    ) -> (r: Neuron)
        ensures
            r.state == (NeuronState::Izhikevich { model, morphology }),
            r.psp == 0,
            !r.spiking,
            !r.action_potential,
            r.coordinates == coordinates,
            r.wf(),
    {
        Neuron {
            state: NeuronState::Izhikevich { model, morphology },
            psp: 0,
            spiking: false,
            action_potential: false,
            coordinates,
        }
    }

    /// A fresh Hindmarsh-Rose neuron with quiet accumulators and flags; the
    /// morphology must have been validated.
    pub fn hindmarsh_rose(
        model: HindmarshRoseModel,
        morphology: HindmarshRoseMorphology,
        coordinates: Option<ColumnCoordinates>,
    ) -> (r: Neuron)
        requires
            morphology.wf(),
        ensures
            r.state == (NeuronState::HindmarshRose { model, morphology }),
            r.psp == 0,
            !r.spiking,
            !r.action_potential,
            r.coordinates == coordinates,
            r.wf(),
    {
        Neuron {
            state: NeuronState::HindmarshRose { model, morphology },
            psp: 0,
            spiking: false,
            action_potential: false,
            coordinates,
        }
    }

    /// Whether this record holds the Izhikevich variant.
    pub fn is_izhikevich_variant(&self) -> (r: bool)
        ensures
            r == (self.state is Izhikevich),
    {
        matches!(self.state, NeuronState::Izhikevich { .. })
    }

    /// Whether this record holds the Hindmarsh-Rose variant.
    pub fn is_hindmarsh_rose_variant(&self) -> (r: bool)
        ensures
            r == (self.state is HindmarshRose),
    {
        matches!(self.state, NeuronState::HindmarshRose { .. })
    }

    /// The model's primary observable: `y` for Hindmarsh-Rose, `v` for
    /// Izhikevich.
    pub open spec fn observable_spec(self) -> int {
        match self.state {
            NeuronState::HindmarshRose { model, .. } => model.y as int,
            NeuronState::Izhikevich { model, .. } => model.v as int,
        }
    }

    /// Executable form of [`Neuron::observable_spec`].
    pub fn primary_observable(&self) -> (r: i64)
        ensures
            r as int == self.observable_spec(),
    {
        match self.state {
            NeuronState::HindmarshRose { model, .. } => model.y,
            NeuronState::Izhikevich { model, .. } => model.v,
        }
    }

    /// Whether some dynamical state variable has saturated the raw range —
    /// the fixed-point analogue of a non-finite value, exposed so callers
    /// can detect numeric divergence which the kernel itself never traps.
    pub open spec fn diverged_spec(self) -> bool {
        match self.state {
            NeuronState::HindmarshRose { model, .. } => {
                ||| model.x == i64::MIN || model.x == i64::MAX
                ||| model.y == i64::MIN || model.y == i64::MAX
                ||| model.z == i64::MIN || model.z == i64::MAX
                ||| model.i == i64::MIN || model.i == i64::MAX
            },
            NeuronState::Izhikevich { model, .. } => {
                ||| model.v == i64::MIN || model.v == i64::MAX
                ||| model.u == i64::MIN || model.u == i64::MAX
            },
        }
    }

    /// Executable form of [`Neuron::diverged_spec`].
    pub fn has_diverged(&self) -> (r: bool)
        ensures
            r == self.diverged_spec(),
    {
        match self.state {
            NeuronState::HindmarshRose { model, .. } => {
                model.x == i64::MIN || model.x == i64::MAX || model.y == i64::MIN || model.y
                    == i64::MAX || model.z == i64::MIN || model.z == i64::MAX || model.i
                    == i64::MIN || model.i == i64::MAX
            },
            NeuronState::Izhikevich { model, .. } => {
                model.v == i64::MIN || model.v == i64::MAX || model.u == i64::MIN || model.u
                    == i64::MAX
            },
        }
    }
}

/// Per-neuron outcome of one integration step: did a spike start or end
/// this tick.
#[derive(Clone, Copy, PartialEq, Eq, Structural, Debug)]
pub struct TimeStepResult {
    /// Identity of the neuron within the store.
    pub id: usize,
    /// The neuron crossed into spiking this tick.
    pub spike_start: bool,
    /// The neuron dropped out of spiking this tick.
    pub spike_end: bool,
}

/// How one integration step relates a neuron's record before and after the
/// tick, for the noise amount the Izhikevich integrator drew (ignored by a
/// Hindmarsh-Rose neuron).
pub open spec fn neuron_advances_to(pre: Neuron, noise: int, post: Neuron) -> bool {
    &&& post.psp == 0
    &&& post.coordinates == pre.coordinates
    &&& match (pre.state, post.state) {
        (
            NeuronState::HindmarshRose { model: m0, morphology: mo0 },
            NeuronState::HindmarshRose { model: m1, morphology: mo1 },
        ) => {
            &&& mo1 == mo0
            &&& m1.x as int == hr_x_after_spec(mo0, m0)
            &&& m1.y as int == hr_y_after_spec(mo0, m0)
            &&& m1.z as int == hr_z_after_spec(mo0, m0)
            &&& m1.i as int == hr_i_after_spec(mo0, m0, pre.psp as int)
            &&& post.spiking == (m1.y > HR_SPIKE_THRESHOLD)
            &&& post.action_potential == (pre.action_potential || (m1.y > HR_SPIKE_THRESHOLD
                && !pre.spiking))
        },
        (
            NeuronState::Izhikevich { model: m0, morphology: mo0 },
            NeuronState::Izhikevich { model: m1, morphology: mo1 },
        ) => {
            let i = sat64(pre.psp + noise);
            let v2 = izh_integrated_v_spec(m0.v as int, m0.u as int, i);
            let u2 = izh_integrated_u_spec(v2, m0.u as int, mo0.a as int, mo0.b as int);
            &&& mo1 == mo0
            &&& if v2 >= IZH_SPIKE_THRESHOLD as int {
                &&& m1.v == mo0.c
                &&& m1.u as int == sat64(u2 + mo0.d)
                &&& post.spiking
                &&& post.action_potential
            } else {
                &&& m1.v as int == v2
                &&& m1.u as int == u2
                &&& !post.spiking
                &&& !post.action_potential
            }
        },
        _ => false,
    }
}

/// Advance one neuron by one tick: read and reset its input accumulator,
/// integrate its dynamical variant, and maintain the spike flags. `noise`
/// is the freshly drawn thalamic input for an Izhikevich neuron and is
/// ignored by a Hindmarsh-Rose neuron.
pub fn advance_neuron(neuron: &mut Neuron, noise: i64, id: usize) -> (r: TimeStepResult)
    requires
        old(neuron).wf(),
    ensures
        neuron_advances_to(*old(neuron), noise as int, *final(neuron)),
        same_kind(old(neuron).state, final(neuron).state),
        final(neuron).wf(),
        r.id == id,
        r.spike_start == (final(neuron).spiking && !old(neuron).spiking),
        r.spike_end == (old(neuron).spiking && !final(neuron).spiking),
{
    let was_spiking = neuron.spiking;
    match neuron.state {
        NeuronState::HindmarshRose { model, morphology } => {
            let stepped = hindmarsh_rose_step(&model, &morphology, neuron.psp);
            let now_spiking = stepped.y > HR_SPIKE_THRESHOLD;
            let marker = neuron.action_potential || (now_spiking && !neuron.spiking);
            neuron.state = NeuronState::HindmarshRose { model: stepped, morphology };
            neuron.psp = 0;
            neuron.spiking = now_spiking;
            neuron.action_potential = marker;
        },
        NeuronState::Izhikevich { model, morphology } => {
            let (stepped, fired) = izhikevich_tick(&model, &morphology, neuron.psp, noise);
            neuron.state = NeuronState::Izhikevich { model: stepped, morphology };
            neuron.psp = 0;
            neuron.spiking = fired;
            neuron.action_potential = fired;
        },
    }
    TimeStepResult {
        id,
        spike_start: neuron.spiking && !was_spiking,
        spike_end: was_spiking && !neuron.spiking,
    }
}

} // verus!
