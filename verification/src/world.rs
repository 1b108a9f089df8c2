//! The entity/component store.
//!
//! Pure storage with stable identity: neurons and synapses are created once
//! during topology generation, addressed by their index, and never deleted.
//! The store validates every wiring request and fails fast with a typed
//! error instead of tolerating a dangling reference or a zero delay at
//! runtime.

use vstd::prelude::*;
use crate::errors::TopologyError;
use crate::neuron::Neuron;
use crate::stdp::{STDPLearningRule, STDP_NEVER};
use crate::synapse::{Synapse, MAX_SYNAPSE_DELAY};

verus! {

/// Mutable access to one element of a vector, with the final value of the
/// vector expressed through the final value of the borrow.
pub(crate) fn elem_mut<T>(v: &mut Vec<T>, i: usize) -> (r: &mut T)
    requires
        i < old(v).len(),
    ensures
        *r == old(v)@[i as int],
        final(v)@ == old(v)@.update(i as int, *final(r)),
{
    &mut v[i]
}

/// The world every stage reads and writes: all neuron and synapse records.
#[derive(Clone, PartialEq, Eq, Debug)]
pub struct World {
    /// Neuron records, addressed by creation index.
    pub neurons: Vec<Neuron>,
    /// Synapse records, addressed by creation index.
    pub synapses: Vec<Synapse>,
}

impl World {
    /// Every neuron can be integrated and every synapse references
    /// existing neurons, has a positive in-range delay, and keeps its
    /// delivery queue ordered.
    pub open spec fn wf(self) -> bool {
        &&& forall|j: int| 0 <= j < self.neurons.len() ==> (#[trigger] self.neurons[j]).wf()
        &&& forall|k: int|
            0 <= k < self.synapses.len() ==> (#[trigger] self.synapses[k]).wf(
                self.neurons.len() as nat,
            )
    }

    /// A wiring request the store accepts: both endpoints exist and the
    /// delay is positive and within range.
    pub open spec fn synapse_request_valid(self, pre: int, post: int, delay: int) -> bool {
        &&& pre < self.neurons.len()
        &&& post < self.neurons.len()
        &&& 1 <= delay <= MAX_SYNAPSE_DELAY
    }

    /// An empty store.
    pub fn new() -> (r: World)
        ensures
            r.neurons.len() == 0,
            r.synapses.len() == 0,
            r.wf(),
    {
        World { neurons: Vec::new(), synapses: Vec::new() }
    }

    /// Number of neurons created so far.
    pub fn neuron_count(&self) -> (r: usize)
        ensures
            r == self.neurons.len(),
    {
        self.neurons.len()
    }

    /// Number of synapses created so far.
    pub fn synapse_count(&self) -> (r: usize)
        ensures
            r == self.synapses.len(),
    {
        self.synapses.len()
    }

    /// Read one neuron record.
    pub fn neuron(&self, id: usize) -> (r: &Neuron)
        requires
            id < self.neurons.len(),
        ensures
            *r == self.neurons[id as int],
    {
        &self.neurons[id]
    }

    /// Read one synapse record.
    pub fn synapse(&self, id: usize) -> (r: &Synapse)
        requires
            id < self.synapses.len(),
        ensures
            *r == self.synapses[id as int],
    {
        &self.synapses[id]
    }

    /// Create one neuron, returning its stable identity.
    pub fn add_neuron(&mut self, neuron: Neuron) -> (id: usize)
        requires
            old(self).wf(),
            neuron.wf(),
            old(self).neurons.len() < usize::MAX,
        ensures
            id == old(self).neurons.len(),
            final(self).neurons@ == old(self).neurons@.push(neuron),
            final(self).synapses == old(self).synapses,
            final(self).wf(),
    {
        let id = self.neurons.len();
        self.neurons.push(neuron);
        id
    }

    /// Create one synapse with an empty delivery queue and a fresh
    /// plasticity rule, validating the request first: an invalid request
    /// leaves the store untouched and names the fault.
    pub fn add_synapse(
        &mut self,
        pre_neuron: usize,
        post_neuron: usize,
        delay: usize,
        strength: i64,
    ) -> (r: Result<usize, TopologyError>)
        requires
            old(self).wf(),
            old(self).synapses.len() < usize::MAX,
        ensures
            final(self).neurons == old(self).neurons,
            final(self).wf(),
            r is Ok <==> old(self).synapse_request_valid(
                pre_neuron as int,
                post_neuron as int,
                delay as int,
            ),
            match r {
                Ok(id) => {
                    &&& id == old(self).synapses.len()
                    &&& final(self).synapses@.len() == old(self).synapses@.len() + 1
                    &&& final(self).synapses@.subrange(0, old(self).synapses@.len() as int) == old(
                        self,
                    ).synapses@
                    &&& ({
                        let s = final(self).synapses@.last();
                        &&& s.pre_neuron == pre_neuron
                        &&& s.post_neuron == post_neuron
                        &&& s.delay == delay
                        &&& s.strength == strength
                        &&& s.pending_spikes@.len() == 0
                        &&& s.stdp.pre_dt == STDP_NEVER
                        &&& s.stdp.post_dt == STDP_NEVER
                    })
                },
                Err(e) => {
                    &&& final(self).synapses == old(self).synapses
                    &&& (e == TopologyError::PreNeuronMissing <==> pre_neuron >= old(
                        self,
                    ).neurons.len())
                    &&& (e == TopologyError::PostNeuronMissing <==> (pre_neuron < old(
                        self,
                    ).neurons.len() && post_neuron >= old(self).neurons.len()))
                    &&& (e == TopologyError::ZeroDelay <==> (pre_neuron < old(self).neurons.len()
                        && post_neuron < old(self).neurons.len() && delay == 0))
                    &&& (e == TopologyError::ExcessiveDelay <==> (pre_neuron < old(
                        self,
                    ).neurons.len() && post_neuron < old(self).neurons.len() && delay
                        > MAX_SYNAPSE_DELAY))
                },
            },
    {
        if pre_neuron >= self.neurons.len() {
            return Err(TopologyError::PreNeuronMissing);
        }
        if post_neuron >= self.neurons.len() {
            return Err(TopologyError::PostNeuronMissing);
        }
        if delay == 0 {
            return Err(TopologyError::ZeroDelay);
        }
        if delay > MAX_SYNAPSE_DELAY {
            return Err(TopologyError::ExcessiveDelay);
        }
        let id = self.synapses.len();
        self.synapses.push(
            Synapse {
                pre_neuron,
                post_neuron,
                delay,
                strength,
                pending_spikes: Vec::new(),
                stdp: STDPLearningRule { pre_dt: STDP_NEVER, post_dt: STDP_NEVER },
            },
        );
        proof {
            assert(final(self).synapses@.subrange(0, old(self).synapses@.len() as int) =~= old(
                self,
            ).synapses@);
        }
        Ok(id)
    }
}

} // verus!
