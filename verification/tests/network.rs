//! Tests of synaptic transmission and plasticity at the world level.

use spiking_column_net::errors::TopologyError;
use spiking_column_net::izhikevich::{IzhikevichModel, IzhikevichMorphology};
use spiking_column_net::neuron::Neuron;
use spiking_column_net::stdp::{
    PlasticityConfig, STDPLearningRule, STDPLearningSystem, STDP_NEVER,
};
use spiking_column_net::transmission::SynapticTransmissionSystem;
use spiking_column_net::world::World;

fn world_with_neurons(count: usize) -> World {
    let mut world = World::new();
    for _ in 0..count {
        world.add_neuron(Neuron::izhikevich(
            IzhikevichModel::resting(),
            IzhikevichMorphology::regular_spiking(),
            None,
        ));
    }
    world
}

#[test]
fn delayed_delivery_arrives_exactly_once() {
    let mut world = world_with_neurons(2);
    world.add_synapse(0, 1, 5, 2_000_000).unwrap();

    // presynaptic action potential at tick 3
    world.neurons[0].action_potential = true;
    SynapticTransmissionSystem::run(&mut world, 3, None);
    world.neurons[0].action_potential = false;
    assert_eq!(world.neurons[1].psp, 0);

    // nothing arrives before tick 3 + 5
    for now in 4..8 {
        SynapticTransmissionSystem::run(&mut world, now, None);
        assert_eq!(world.neurons[1].psp, 0);
    }

    // exactly the strength arrives at tick 8
    SynapticTransmissionSystem::run(&mut world, 8, None);
    assert_eq!(world.neurons[1].psp, 2_000_000);
    assert!(world.synapses[0].pending_spikes.is_empty());

    // and never again
    for now in 9..12 {
        SynapticTransmissionSystem::run(&mut world, now, None);
        assert_eq!(world.neurons[1].psp, 2_000_000);
    }
}

#[test]
fn spike_is_never_delivered_in_its_own_tick() {
    let mut world = world_with_neurons(2);
    world.add_synapse(0, 1, 1, 1_000_000).unwrap();
    world.neurons[0].action_potential = true;
    SynapticTransmissionSystem::run(&mut world, 10, None);
    world.neurons[0].action_potential = false;
    assert_eq!(world.neurons[1].psp, 0);
    SynapticTransmissionSystem::run(&mut world, 11, None);
    assert_eq!(world.neurons[1].psp, 1_000_000);
}

#[test]
fn simultaneous_deliveries_sum_exactly() {
    // several synapses target the same neuron with deliveries due in the
    // same tick; the accumulated input is the plain sum of the strengths
    let mut world = world_with_neurons(4);
    world.add_synapse(0, 3, 1, 1_000_000).unwrap();
    world.add_synapse(1, 3, 1, -2_000_000).unwrap();
    world.add_synapse(2, 3, 1, 3_500_000).unwrap();
    world.neurons[0].action_potential = true;
    world.neurons[1].action_potential = true;
    world.neurons[2].action_potential = true;
    SynapticTransmissionSystem::run(&mut world, 0, None);
    world.neurons[0].action_potential = false;
    world.neurons[1].action_potential = false;
    world.neurons[2].action_potential = false;
    SynapticTransmissionSystem::run(&mut world, 1, None);
    assert_eq!(world.neurons[3].psp, 1_000_000 - 2_000_000 + 3_500_000);
}

#[test]
fn one_synapse_drains_every_due_delivery() {
    // two deliveries of one synapse fall due in the same tick; both drain
    let mut world = world_with_neurons(2);
    world.add_synapse(0, 1, 2, 700_000).unwrap();
    world.neurons[0].action_potential = true;
    SynapticTransmissionSystem::run(&mut world, 0, None);
    SynapticTransmissionSystem::run(&mut world, 0, None);
    world.neurons[0].action_potential = false;
    assert_eq!(world.synapses[0].pending_spikes.len(), 2);
    SynapticTransmissionSystem::run(&mut world, 2, None);
    assert_eq!(world.neurons[1].psp, 1_400_000);
    assert!(world.synapses[0].pending_spikes.is_empty());
}

#[test]
fn delivery_amplitude_is_clamped_only_when_limited() {
    let mut world = world_with_neurons(2);
    world.add_synapse(0, 1, 1, 5_000_000).unwrap();
    world.neurons[0].action_potential = true;
    SynapticTransmissionSystem::run(&mut world, 0, Some(4_000_000));
    world.neurons[0].action_potential = false;
    SynapticTransmissionSystem::run(&mut world, 1, Some(4_000_000));
    assert_eq!(world.neurons[1].psp, 4_000_000);

    let mut unlimited = world_with_neurons(2);
    unlimited.add_synapse(0, 1, 1, -5_000_000).unwrap();
    unlimited.neurons[0].action_potential = true;
    SynapticTransmissionSystem::run(&mut unlimited, 0, None);
    unlimited.neurons[0].action_potential = false;
    SynapticTransmissionSystem::run(&mut unlimited, 1, None);
    assert_eq!(unlimited.neurons[1].psp, -5_000_000);
}

#[test]
fn wiring_requests_are_validated() {
    let mut world = world_with_neurons(2);
    assert_eq!(world.add_synapse(5, 0, 1, 0), Err(TopologyError::PreNeuronMissing));
    assert_eq!(world.add_synapse(0, 5, 1, 0), Err(TopologyError::PostNeuronMissing));
    assert_eq!(world.add_synapse(0, 1, 0, 0), Err(TopologyError::ZeroDelay));
    assert_eq!(world.add_synapse(0, 1, 25, 0), Err(TopologyError::ExcessiveDelay));
    assert_eq!(world.synapse_count(), 0);

    let id = world.add_synapse(0, 1, 4, 1_500_000).unwrap();
    assert_eq!(id, 0);
    let synapse = world.synapse(0);
    assert_eq!(synapse.pre_neuron, 0);
    assert_eq!(synapse.post_neuron, 1);
    assert_eq!(synapse.delay, 4);
    assert_eq!(synapse.strength, 1_500_000);
    assert!(synapse.pending_spikes.is_empty());
    assert_eq!(synapse.stdp.pre_dt, STDP_NEVER);
    assert_eq!(synapse.stdp.post_dt, STDP_NEVER);
}

#[test]
fn causal_spike_pair_strengthens() {
    // presynaptic spike at one tick, postsynaptic spike the next: the
    // depression term sees a never-spiking partner and vanishes, the
    // potentiation term sees a one-tick-old spike:
    // 0.1 / (1 + 1/20) = 0.1 * 20 / 21 raw-truncated
    let config = PlasticityConfig::standard();
    let mut world = world_with_neurons(2);
    world.add_synapse(0, 1, 1, 1_000_000).unwrap();

    world.neurons[0].action_potential = true;
    STDPLearningSystem::run(&mut world, &config);
    assert_eq!(world.synapses[0].strength, 1_000_000);
    assert_eq!(world.synapses[0].stdp.pre_dt, 0);

    world.neurons[0].action_potential = false;
    world.neurons[1].action_potential = true;
    STDPLearningSystem::run(&mut world, &config);
    assert_eq!(world.synapses[0].strength, 1_000_000 + 95_238);
}

#[test]
fn acausal_spike_pair_weakens() {
    let config = PlasticityConfig::standard();
    let mut world = world_with_neurons(2);
    world.add_synapse(0, 1, 1, 1_000_000).unwrap();

    world.neurons[1].action_potential = true;
    STDPLearningSystem::run(&mut world, &config);
    assert_eq!(world.synapses[0].strength, 1_000_000);

    world.neurons[1].action_potential = false;
    world.neurons[0].action_potential = true;
    STDPLearningSystem::run(&mut world, &config);
    assert_eq!(world.synapses[0].strength, 1_000_000 - 95_238);
}

#[test]
fn simultaneous_spikes_apply_both_terms() {
    // both sides fire in one tick: full potentiation plus full depression,
    // which cancel under the standard amplitudes
    let config = PlasticityConfig::standard();
    let mut world = world_with_neurons(2);
    world.add_synapse(0, 1, 1, 1_000_000).unwrap();
    world.neurons[0].action_potential = true;
    world.neurons[1].action_potential = true;
    STDPLearningSystem::run(&mut world, &config);
    assert_eq!(world.synapses[0].strength, 1_000_000);
    assert_eq!(world.synapses[0].stdp.pre_dt, 0);
    assert_eq!(world.synapses[0].stdp.post_dt, 0);
}

#[test]
fn stdp_counters_age_when_quiet() {
    let config = PlasticityConfig::standard();
    let mut rule = STDPLearningRule::default();
    assert_eq!(rule.pre_dt, STDP_NEVER);
    let effect = rule.update(true, false, &config);
    assert_eq!(effect, 0);
    assert_eq!(rule.pre_dt, 0);
    assert_eq!(rule.post_dt, STDP_NEVER);
    let effect = rule.update(false, false, &config);
    assert_eq!(effect, 0);
    assert_eq!(rule.pre_dt, 1);
    // the sentinel stays infinite
    assert_eq!(rule.post_dt, STDP_NEVER);
}
