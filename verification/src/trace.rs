//! Per-tick observable output.
//!
//! For every tick the kernel exposes one row: per neuron, in creation
//! order, the model's primary observable (`y` for Hindmarsh-Rose, `v` for
//! Izhikevich) and whether the neuron raised an action potential this
//! tick. Writing the rows out is the caller's concern; the kernel only
//! computes them, so they can be emitted incrementally as the run
//! progresses.

use vstd::prelude::*;
use crate::world::World;

verus! {

/// One tick's samples: per neuron, in creation order, the primary
/// observable and the spike indicator.
pub fn trace_row(world: &World) -> (r: Vec<(i64, bool)>)
    ensures
        r@.len() == world.neurons.len(),
        forall|j: int|
            0 <= j < r@.len() ==> (#[trigger] r@[j]).0 as int == world.neurons@[j].observable_spec()
                && r@[j].1 == world.neurons@[j].action_potential,
{
    let mut row: Vec<(i64, bool)> = Vec::new();
    let count = world.neurons.len();
    for j in 0..count
        invariant
            count == world.neurons.len(),
            row@.len() == j,
            forall|i: int|
                0 <= i < j ==> (#[trigger] row@[i]).0 as int == world.neurons@[i].observable_spec()
                    && row@[i].1 == world.neurons@[i].action_potential,
    {
        let sample = world.neurons[j].primary_observable();
        let fired = world.neurons[j].action_potential;
        row.push((sample, fired));
    }
    row
}

} // verus!
