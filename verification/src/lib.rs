//! A verified simulation kernel for a network of spiking model neurons
//! connected by delayed, weight-adaptive synapses.
//!
//! Continuous quantities (membrane potentials, synaptic strengths, currents)
//! are held in a fixed-point representation: a raw `i64` counts millionths
//! of a model unit (see [`fixed`]). All update rules are stated exactly over
//! that representation.

use vstd::prelude::*;

pub mod errors;
pub mod fixed;
pub mod hindmarsh_rose;
pub mod izhikevich;
pub mod neuron;
pub mod rng;
pub mod scheduler;
pub mod stdp;
pub mod synapse;
pub mod topology;
pub mod trace;
pub mod transmission;
pub mod world;

use crate::errors::ConfigError;
use crate::izhikevich::IzhikevichMorphology;
use crate::scheduler::{runs_rel, Scheduler};
use crate::stdp::PlasticityConfig;
use crate::synapse::MAX_SYNAPSE_DELAY;
use crate::topology::{generated_world, ProbabilityTable, TopologyConfig};
use crate::transmission::limit_wf;
use crate::world::World;

verus! {

/// The discrete simulation clock counts ticks; one tick models one
/// millisecond of simulated time.
pub type Time = usize;

/// The global clock value, owned by the scheduler and handed read-only to
/// every stage.
#[derive(Clone, Copy, PartialEq, Eq, Structural, Debug)]
pub struct SimulationTime(pub Time);

/// Set up and run a whole simulation: validate the configuration, build
/// the layered-column network, and advance the scheduler to its tick
/// budget. The final scheduler, with the run's end state of every
/// component, is returned; every configuration fault is surfaced as a
/// typed error before any tick runs.
pub fn run(
    topology: &TopologyConfig,
    table: &ProbabilityTable,
    morphology: &IzhikevichMorphology,
    plasticity: PlasticityConfig,
    delivery_limit: Option<i64>,
    tick_budget: Time,
) -> (r: Result<Scheduler, ConfigError>)
    ensures
        r is Ok <==> (topology.column_size() >= 1 && topology.total() <= 0xffff
            && plasticity.wf() && limit_wf(delivery_limit) && tick_budget + MAX_SYNAPSE_DELAY
            <= usize::MAX),
        match r {
            Ok(s) => {
                &&& s.wf()
                &&& s.time.0 == tick_budget
                &&& s.tick_budget == tick_budget
                &&& s.plasticity == plasticity
                &&& s.delivery_limit == delivery_limit
                &&& s.world.neurons@.len() == topology.total()
                &&& exists|w0: World|
                    #![trigger runs_rel(w0, 0, s.world, tick_budget, plasticity, delivery_limit)]
                    {
                        &&& generated_world(*topology, *table, *morphology, w0)
                        &&& runs_rel(w0, 0, s.world, tick_budget, plasticity, delivery_limit)
                    }
            },
            Err(e) => {
                let topology_ok = topology.column_size() >= 1 && topology.total() <= 0xffff;
                &&& (e == ConfigError::EmptyColumn <==> topology.column_size() == 0)
                &&& (e == ConfigError::PopulationTooLarge <==> (topology.column_size() >= 1
                    && topology.total() > 0xffff))
                &&& (e == ConfigError::ZeroHalfLife <==> (topology_ok && plasticity.half_life
                    == 0))
                &&& (e == ConfigError::HalfLifeTooLarge <==> (topology_ok && plasticity.half_life
                    > 0xffff_ffff))
                &&& (e == ConfigError::NegativeLtp <==> (topology_ok && 1 <= plasticity.half_life
                    <= 0xffff_ffff && plasticity.max_ltp < 0))
                &&& (e == ConfigError::PositiveLtd <==> (topology_ok && 1 <= plasticity.half_life
                    <= 0xffff_ffff && plasticity.max_ltp >= 0 && plasticity.max_ltd > 0))
                &&& (e == ConfigError::NegativeDeliveryLimit <==> (topology_ok && plasticity.wf()
                    && !limit_wf(delivery_limit)))
                &&& (e == ConfigError::BudgetTooLarge <==> (topology_ok && plasticity.wf()
                    && limit_wf(delivery_limit) && tick_budget + MAX_SYNAPSE_DELAY > usize::MAX))
            },
        },
{
    let csize_wide: u128 = (topology.sensory as u128) + (topology.motor as u128)
        + (topology.afferent as u128) + (topology.efferent as u128) + (topology.internal as u128);
    if csize_wide == 0 {
        return Err(ConfigError::EmptyColumn);
    }
    if topology.num_columns > 0 && csize_wide > 0xffff {
        proof {
            assert((topology.num_columns as int) * (csize_wide as int) >= (csize_wide as int))
                by (nonlinear_arith)
                requires
                    topology.num_columns as int >= 1,
                    csize_wide as int >= 0,
            ;
        }
        return Err(ConfigError::PopulationTooLarge);
    }
    proof {
        if topology.num_columns > 0 {
            assert((topology.num_columns as int) * (csize_wide as int) <= 0xffff_ffff_ffff_ffff
                * 0xffff) by (nonlinear_arith)
                requires
                    0 <= (topology.num_columns as int) && (topology.num_columns as int)
                        <= 0xffff_ffff_ffff_ffff,
                    0 <= (csize_wide as int) && (csize_wide as int) <= 0xffff,
            ;
        } else {
            assert((topology.num_columns as int) * (csize_wide as int) == 0) by (nonlinear_arith)
                requires
                    topology.num_columns as int == 0,
            ;
        }
    }
    let total_wide: u128 = (topology.num_columns as u128) * csize_wide;
    if total_wide > 0xffff {
        return Err(ConfigError::PopulationTooLarge);
    }
    let world = crate::topology::generate(topology, table, morphology);
    let ghost initial_world = world;
    let mut scheduler = match Scheduler::new(world, plasticity, delivery_limit, tick_budget) {
        Ok(s) => s,
        Err(e) => {
            return Err(e);
        },
    };
    scheduler.run();
    proof {
        assert(runs_rel(
            initial_world,
            0,
            scheduler.world,
            tick_budget,
            plasticity,
            delivery_limit,
        ));
        assert(generated_world(*topology, *table, *morphology, initial_world));
    }
    Ok(scheduler)
}

} // verus!
