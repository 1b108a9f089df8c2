//! Tests of topology generation, the scheduler, and whole runs.

use spiking_column_net::errors::ConfigError;
use spiking_column_net::izhikevich::IzhikevichMorphology;
use spiking_column_net::neuron::{ColumnCoordinates, Layer};
use spiking_column_net::scheduler::Scheduler;
use spiking_column_net::stdp::{PlasticityConfig, STDP_NEVER};
use spiking_column_net::topology::{
    connection_probability, generate, ProbabilityTable, TopologyConfig,
};
use spiking_column_net::trace::trace_row;
use spiking_column_net::world::World;
use spiking_column_net::run;

fn zero_table() -> ProbabilityTable {
    ProbabilityTable {
        internal_internal: 0,
        intra_same_layer: 0,
        sensory_internal: 0,
        afferent_internal: 0,
        internal_motor: 0,
        internal_efferent: 0,
        efferent_afferent: 0,
    }
}

fn certain_table() -> ProbabilityTable {
    ProbabilityTable {
        internal_internal: 1000,
        intra_same_layer: 1000,
        sensory_internal: 1000,
        afferent_internal: 1000,
        internal_motor: 1000,
        internal_efferent: 1000,
        efferent_afferent: 1000,
    }
}

#[test]
fn connection_probability_matches_the_table() {
    let table = ProbabilityTable::standard();
    let at = |column: usize, layer: Layer| ColumnCoordinates { column, layer };
    assert_eq!(connection_probability(&table, at(0, Layer::Internal), at(0, Layer::Internal)), 800);
    assert_eq!(connection_probability(&table, at(2, Layer::Motor), at(2, Layer::Motor)), 400);
    assert_eq!(connection_probability(&table, at(1, Layer::Sensory), at(1, Layer::Internal)), 800);
    assert_eq!(connection_probability(&table, at(1, Layer::Afferent), at(1, Layer::Internal)), 800);
    assert_eq!(connection_probability(&table, at(0, Layer::Internal), at(0, Layer::Motor)), 800);
    assert_eq!(connection_probability(&table, at(0, Layer::Internal), at(0, Layer::Efferent)), 800);
    assert_eq!(connection_probability(&table, at(0, Layer::Efferent), at(1, Layer::Afferent)), 300);
    // pairs the table does not name are never wired
    assert_eq!(connection_probability(&table, at(0, Layer::Motor), at(0, Layer::Sensory)), 0);
    assert_eq!(connection_probability(&table, at(0, Layer::Internal), at(1, Layer::Internal)), 0);
    assert_eq!(connection_probability(&table, at(0, Layer::Sensory), at(1, Layer::Sensory)), 0);
}

#[test]
fn zero_probability_table_wires_nothing() {
    // over ten thousand ordered-pair trials, not one synapse
    let cfg = TopologyConfig {
        num_columns: 13,
        sensory: 1,
        motor: 1,
        afferent: 1,
        efferent: 1,
        internal: 4,
    };
    let world = generate(&cfg, &zero_table(), &IzhikevichMorphology::regular_spiking());
    assert_eq!(world.neuron_count(), 104);
    assert_eq!(world.synapse_count(), 0);
}

#[test]
fn certain_probability_wires_every_eligible_pair() {
    // one column, one neuron per layer; creation order is sensory, motor,
    // afferent, efferent, internal, so with every table entry certain the
    // eligible ordered pairs are exactly: sensory->internal,
    // afferent->internal, internal->motor, internal->efferent
    let cfg = TopologyConfig {
        num_columns: 1,
        sensory: 1,
        motor: 1,
        afferent: 1,
        efferent: 1,
        internal: 1,
    };
    let world = generate(&cfg, &certain_table(), &IzhikevichMorphology::regular_spiking());
    assert_eq!(world.neuron_count(), 5);
    let mut pairs: Vec<(usize, usize)> = world
        .synapses
        .iter()
        .map(|s| (s.pre_neuron, s.post_neuron))
        .collect();
    pairs.sort();
    assert_eq!(pairs, vec![(0, 4), (2, 4), (4, 1), (4, 3)]);
}

#[test]
fn certain_same_layer_pairs_exclude_self() {
    // two sensory neurons in one column: both ordered pairs are wired,
    // the self-pairs never
    let cfg = TopologyConfig {
        num_columns: 1,
        sensory: 2,
        motor: 0,
        afferent: 0,
        efferent: 0,
        internal: 0,
    };
    let world = generate(&cfg, &certain_table(), &IzhikevichMorphology::regular_spiking());
    assert_eq!(world.neuron_count(), 2);
    let mut pairs: Vec<(usize, usize)> = world
        .synapses
        .iter()
        .map(|s| (s.pre_neuron, s.post_neuron))
        .collect();
    pairs.sort();
    assert_eq!(pairs, vec![(0, 1), (1, 0)]);
}

#[test]
fn cross_column_wiring_is_efferent_to_afferent_only() {
    // two columns, one afferent and one efferent neuron each; creation
    // order per column is afferent then efferent
    let cfg = TopologyConfig {
        num_columns: 2,
        sensory: 0,
        motor: 0,
        afferent: 1,
        efferent: 1,
        internal: 0,
    };
    let world = generate(&cfg, &certain_table(), &IzhikevichMorphology::regular_spiking());
    assert_eq!(world.neuron_count(), 4);
    let mut pairs: Vec<(usize, usize)> = world
        .synapses
        .iter()
        .map(|s| (s.pre_neuron, s.post_neuron))
        .collect();
    pairs.sort();
    // efferent of each column to the afferent of the other
    assert_eq!(pairs, vec![(1, 2), (3, 0)]);
}

#[test]
fn generated_population_has_expected_coordinates() {
    let cfg = TopologyConfig {
        num_columns: 2,
        sensory: 1,
        motor: 1,
        afferent: 1,
        efferent: 1,
        internal: 2,
    };
    let world = generate(&cfg, &zero_table(), &IzhikevichMorphology::regular_spiking());
    assert_eq!(world.neuron_count(), 12);
    let expected = [
        (0, Layer::Sensory),
        (0, Layer::Motor),
        (0, Layer::Afferent),
        (0, Layer::Efferent),
        (0, Layer::Internal),
        (0, Layer::Internal),
        (1, Layer::Sensory),
        (1, Layer::Motor),
        (1, Layer::Afferent),
        (1, Layer::Efferent),
        (1, Layer::Internal),
        (1, Layer::Internal),
    ];
    for (i, (column, layer)) in expected.iter().enumerate() {
        let coords = world.neurons[i].coordinates.unwrap();
        assert_eq!(coords.column, *column);
        assert_eq!(coords.layer, *layer);
        assert_eq!(world.neurons[i].psp, 0);
        assert!(!world.neurons[i].spiking);
        assert!(!world.neurons[i].action_potential);
    }
}

#[test]
fn drawn_synapse_parameters_lie_in_range() {
    let cfg = TopologyConfig {
        num_columns: 2,
        sensory: 1,
        motor: 1,
        afferent: 1,
        efferent: 1,
        internal: 3,
    };
    let world = generate(
        &cfg,
        &ProbabilityTable::standard(),
        &IzhikevichMorphology::regular_spiking(),
    );
    for synapse in world.synapses.iter() {
        assert_ne!(synapse.pre_neuron, synapse.post_neuron);
        assert!(synapse.pre_neuron < world.neurons.len());
        assert!(synapse.post_neuron < world.neurons.len());
        assert!(1 <= synapse.delay && synapse.delay < 20);
        let magnitude = synapse.strength.abs();
        assert!(500_000 <= magnitude && magnitude < 4_000_000);
        assert!(synapse.pending_spikes.is_empty());
        assert_eq!(synapse.stdp.pre_dt, STDP_NEVER);
        assert_eq!(synapse.stdp.post_dt, STDP_NEVER);
    }
}

#[test]
fn zero_tick_run_changes_nothing() {
    let cfg = TopologyConfig {
        num_columns: 1,
        sensory: 1,
        motor: 1,
        afferent: 1,
        efferent: 1,
        internal: 2,
    };
    let world = generate(
        &cfg,
        &ProbabilityTable::standard(),
        &IzhikevichMorphology::regular_spiking(),
    );
    let mut scheduler =
        Scheduler::new(world, PlasticityConfig::standard(), Some(4_000_000), 0).unwrap();
    let before = scheduler.clone();
    scheduler.run();
    assert_eq!(scheduler, before);
}

#[test]
fn run_advances_clock_to_budget() {
    let cfg = TopologyConfig {
        num_columns: 1,
        sensory: 1,
        motor: 1,
        afferent: 1,
        efferent: 1,
        internal: 2,
    };
    let scheduler = run(
        &cfg,
        &ProbabilityTable::standard(),
        &IzhikevichMorphology::regular_spiking(),
        PlasticityConfig::standard(),
        Some(4_000_000),
        5,
    )
    .unwrap();
    assert_eq!(scheduler.time(), 5);
    assert_eq!(scheduler.world.neuron_count(), 6);
    let row = trace_row(&scheduler.world);
    assert_eq!(row.len(), 6);
}

#[test]
fn trace_row_reports_observable_and_spike_marker() {
    let cfg = TopologyConfig {
        num_columns: 1,
        sensory: 1,
        motor: 0,
        afferent: 0,
        efferent: 0,
        internal: 0,
    };
    let mut world = generate(&cfg, &zero_table(), &IzhikevichMorphology::regular_spiking());
    let row = trace_row(&world);
    assert_eq!(row, vec![(-65_000_000, false)]);
    world.neurons[0].action_potential = true;
    let row = trace_row(&world);
    assert_eq!(row, vec![(-65_000_000, true)]);
}

#[test]
fn configuration_faults_are_typed() {
    let cfg = TopologyConfig {
        num_columns: 1,
        sensory: 1,
        motor: 0,
        afferent: 0,
        efferent: 0,
        internal: 0,
    };
    let table = ProbabilityTable::standard();
    let morphology = IzhikevichMorphology::regular_spiking();
    let good = PlasticityConfig::standard();

    let empty = TopologyConfig { num_columns: 1, sensory: 0, motor: 0, afferent: 0, efferent: 0, internal: 0 };
    assert_eq!(
        run(&empty, &table, &morphology, good, None, 1).unwrap_err(),
        ConfigError::EmptyColumn
    );

    let huge = TopologyConfig { num_columns: 65_535, sensory: 1, motor: 1, afferent: 1, efferent: 1, internal: 1 };
    assert_eq!(
        run(&huge, &table, &morphology, good, None, 1).unwrap_err(),
        ConfigError::PopulationTooLarge
    );

    let zero_half_life = PlasticityConfig { max_ltp: 100_000, max_ltd: -100_000, half_life: 0 };
    assert_eq!(
        run(&cfg, &table, &morphology, zero_half_life, None, 1).unwrap_err(),
        ConfigError::ZeroHalfLife
    );

    let huge_half_life =
        PlasticityConfig { max_ltp: 100_000, max_ltd: -100_000, half_life: u64::MAX };
    assert_eq!(
        run(&cfg, &table, &morphology, huge_half_life, None, 1).unwrap_err(),
        ConfigError::HalfLifeTooLarge
    );

    let negative_ltp = PlasticityConfig { max_ltp: -1, max_ltd: -100_000, half_life: 20 };
    assert_eq!(
        run(&cfg, &table, &morphology, negative_ltp, None, 1).unwrap_err(),
        ConfigError::NegativeLtp
    );

    let positive_ltd = PlasticityConfig { max_ltp: 100_000, max_ltd: 1, half_life: 20 };
    assert_eq!(
        run(&cfg, &table, &morphology, positive_ltd, None, 1).unwrap_err(),
        ConfigError::PositiveLtd
    );

    assert_eq!(
        run(&cfg, &table, &morphology, good, Some(-1), 1).unwrap_err(),
        ConfigError::NegativeDeliveryLimit
    );

    assert_eq!(
        run(&cfg, &table, &morphology, good, None, usize::MAX).unwrap_err(),
        ConfigError::BudgetTooLarge
    );
}

#[test]
fn empty_world_steps_without_effect() {
    let world = World::new();
    let mut scheduler =
        Scheduler::new(world, PlasticityConfig::standard(), None, 3).unwrap();
    scheduler.run();
    assert_eq!(scheduler.time(), 3);
    assert_eq!(scheduler.world.neuron_count(), 0);
    assert!(trace_row(&scheduler.world).is_empty());
}

#[test]
fn short_run_keeps_state_finite() {
    let cfg = TopologyConfig {
        num_columns: 1,
        sensory: 1,
        motor: 1,
        afferent: 1,
        efferent: 1,
        internal: 4,
    };
    let scheduler = run(
        &cfg,
        &ProbabilityTable::standard(),
        &IzhikevichMorphology::regular_spiking(),
        PlasticityConfig::standard(),
        Some(4_000_000),
        50,
    )
    .unwrap();
    for neuron in scheduler.world.neurons.iter() {
        assert!(!neuron.has_diverged());
    }
}
