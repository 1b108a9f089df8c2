//! The scheduler: owner of the global clock and of the per-tick pipeline.
//!
//! Each tick first retires the previous tick's action-potential markers,
//! then executes, in strict dependency order: the two model integrators
//! (mutually independent), synaptic transmission, plasticity, and finally
//! the clock increment. Retirement is the single point in the pipeline
//! that clears the transient flag, and it runs only after every consumer
//! of the marker — transmission, plasticity, and any external observer
//! reading the tick's output — has seen it; the flag is thus true for at
//! most one tick and gone before the next integration.
//!
//! The only termination condition is the configured tick budget; a fresh
//! run requires a fresh world.

use vstd::prelude::*;
use crate::errors::ConfigError;
use crate::hindmarsh_rose::HindmarshRoseIntegrator;
use crate::izhikevich::{IzhikevichIntegrator, THALAMIC_INPUT_LIMIT};
use crate::neuron::{neuron_advances_to, Neuron};
use crate::stdp::{plasticity_rel, PlasticityConfig, STDPLearningSystem};
use crate::synapse::{Synapse, MAX_SYNAPSE_DELAY};
use crate::transmission::{
    limit_wf, psp_applied, total_input, transmitted_rel, SynapticTransmissionSystem,
};
use crate::world::{elem_mut, World};
use crate::{SimulationTime, Time};

verus! {

/// How one integration stage pass rewrites the neurons: each neuron
/// advances under its own variant's rule, Izhikevich ones under some
/// freshly drawn thalamic input.
pub open spec fn integration_rel(n0: Seq<Neuron>, n1: Seq<Neuron>) -> bool {
    &&& n0.len() == n1.len()
    &&& forall|j: int|
        0 <= j < n0.len() ==> {
            let pre = n0[j];
            let post = #[trigger] n1[j];
            if pre.state is Izhikevich {
                exists|noise: int|
                    0 <= noise < THALAMIC_INPUT_LIMIT && neuron_advances_to(pre, noise, post)
            } else {
                neuron_advances_to(pre, 0, post)
            }
        }
}

/// How the transmission stage rewrites neurons and synapses at tick `now`.
pub open spec fn transmission_stage_rel(
    n0: Seq<Neuron>,
    s0: Seq<Synapse>,
    n1: Seq<Neuron>,
    s1: Seq<Synapse>,
    now: Time,
    limit: Option<i64>,
) -> bool {
    &&& n0.len() == n1.len()
    &&& s0.len() == s1.len()
    &&& forall|k: int| 0 <= k < s0.len() ==> transmitted_rel(s0[k], n0, now, #[trigger] s1[k])
    &&& forall|n: int|
        0 <= n < n0.len() ==> psp_applied(
            n0[n],
            total_input(s0, now as int, limit, n),
            #[trigger] n1[n],
        )
}

/// How the plasticity stage rewrites the synapses against the tick's
/// still-unretired action potentials.
pub open spec fn plasticity_stage_rel(
    neurons: Seq<Neuron>,
    s0: Seq<Synapse>,
    s1: Seq<Synapse>,
    config: PlasticityConfig,
) -> bool {
    &&& s0.len() == s1.len()
    &&& forall|k: int| 0 <= k < s0.len() ==> plasticity_rel(s0[k], neurons, config, #[trigger] s1[k])
}

/// How the retirement pass rewrites the neurons: every action-potential
/// marker is cleared and nothing else moves.
pub open spec fn retire_rel(n0: Seq<Neuron>, n1: Seq<Neuron>) -> bool {
    &&& n0.len() == n1.len()
    &&& forall|j: int|
        0 <= j < n0.len() ==> {
            let pre = n0[j];
            let post = #[trigger] n1[j];
            &&& post.state == pre.state
            &&& post.psp == pre.psp
            &&& post.spiking == pre.spiking
            &&& post.coordinates == pre.coordinates
            &&& !post.action_potential
        }
}

/// How one full tick at time `now` rewrites the world: the previous
/// tick's markers are retired before anything else, then integration,
/// transmission and plasticity run in order. The new markers stay set when
/// the tick ends, readable by any observer, and are retired at the start
/// of the next tick — before the next integration.
pub open spec fn tick_rel(
    w0: World,
    w1: World,
    now: Time,
    config: PlasticityConfig,
    limit: Option<i64>,
) -> bool {
    exists|nr: Seq<Neuron>, na: Seq<Neuron>, sm: Seq<Synapse>|
        #![trigger retire_rel(w0.neurons@, nr), transmission_stage_rel(
            na,
            w0.synapses@,
            w1.neurons@,
            sm,
            now,
            limit,
        )]
        {
            &&& retire_rel(w0.neurons@, nr)
            &&& integration_rel(nr, na)
            &&& transmission_stage_rel(na, w0.synapses@, w1.neurons@, sm, now, limit)
            &&& plasticity_stage_rel(w1.neurons@, sm, w1.synapses@, config)
        }
}

/// How a run of consecutive ticks rewrites the world: one [`tick_rel`]
/// per tick, from the clock at `t0` up to the clock at `t1`. An empty run
/// leaves the world exactly as it was.
pub open spec fn runs_rel(
    w0: World,
    t0: Time,
    w1: World,
    t1: Time,
    config: PlasticityConfig,
    limit: Option<i64>,
) -> bool
    decreases t1 - t0,
{
    if t1 <= t0 {
        w1 == w0
    } else {
        exists|mid: World|
            #![trigger tick_rel(w0, mid, t0, config, limit)]
            {
                &&& tick_rel(w0, mid, t0, config, limit)
                &&& runs_rel(mid, (t0 + 1) as usize, w1, t1, config, limit)
            }
    }
}

/// A run of ticks followed by one more tick is a run of ticks.
proof fn lemma_runs_rel_extend(
    w0: World,
    t0: Time,
    w1: World,
    t1: Time,
    w2: World,
    config: PlasticityConfig,
    limit: Option<i64>,
)
    requires
        runs_rel(w0, t0, w1, t1, config, limit),
        t0 <= t1,
        t1 < usize::MAX,
        tick_rel(w1, w2, t1, config, limit),
    ensures
        runs_rel(w0, t0, w2, (t1 + 1) as usize, config, limit),
    decreases t1 - t0,
{
    if t1 <= t0 {
        assert(w1 == w0);
        assert(runs_rel(w2, (t0 + 1) as usize, w2, (t1 + 1) as usize, config, limit));
        assert(tick_rel(w0, w2, t0, config, limit));
    } else {
        let mid = choose|mid: World|
            #![trigger tick_rel(w0, mid, t0, config, limit)]
            {
                &&& tick_rel(w0, mid, t0, config, limit)
                &&& runs_rel(mid, (t0 + 1) as usize, w1, t1, config, limit)
            };
        lemma_runs_rel_extend(mid, (t0 + 1) as usize, w1, t1, w2, config, limit);
        assert(tick_rel(w0, mid, t0, config, limit));
    }
}

/// Clear every neuron's action-potential marker; the single point that
/// retires the transient flag, run once per tick after all its consumers.
fn retire_action_potentials(world: &mut World)
    requires
        old(world).wf(),
    ensures
        final(world).wf(),
        final(world).synapses == old(world).synapses,
        retire_rel(old(world).neurons@, final(world).neurons@),
{
    let ghost n_init = world.neurons@;
    let count = world.neurons.len();
    for j in 0..count
        invariant
            world.wf(),
            world.synapses == old(world).synapses,
            world.neurons.len() == n_init.len(),
            count == n_init.len(),
            n_init == old(world).neurons@,
            forall|i: int|
                0 <= i < j ==> {
                    let pre = n_init[i];
                    let post = #[trigger] world.neurons@[i];
                    &&& post.state == pre.state
                    &&& post.psp == pre.psp
                    &&& post.spiking == pre.spiking
                    &&& post.coordinates == pre.coordinates
                    &&& !post.action_potential
                },
            forall|i: int| j <= i < n_init.len() ==> world.neurons@[i] == n_init[i],
    {
        let nrn = elem_mut(&mut world.neurons, j);
        nrn.action_potential = false;
    }
}

/// The scheduler: the world, the clock, the run's configuration.
#[derive(Clone, PartialEq, Eq, Debug)]
pub struct Scheduler {
    /// All component state.
    pub world: World,
    /// The global clock, incremented exactly once per tick by this
    /// scheduler and read-only to every stage.
    pub time: SimulationTime,
    /// Plasticity constants.
    pub plasticity: PlasticityConfig,
    /// Optional symmetric clamp on delivered amplitudes; the weight itself
    /// is never clamped.
    pub delivery_limit: Option<i64>,
    /// Tick count after which the run terminates.
    pub tick_budget: Time,
}

impl Scheduler {
    /// The scheduler can step: its state is well formed and the clock can
    /// reach the budget without its delivery times overflowing.
    pub open spec fn wf(self) -> bool {
        &&& self.world.wf()
        &&& self.plasticity.wf()
        &&& limit_wf(self.delivery_limit)
        &&& self.time.0 <= self.tick_budget
        &&& self.tick_budget + MAX_SYNAPSE_DELAY <= usize::MAX
    }

    /// Validate a configuration and build a scheduler with the clock at
    /// zero. Every malformed constant is reported as a typed error before
    /// any tick runs.
    pub fn new(
        world: World,
        plasticity: PlasticityConfig,
        delivery_limit: Option<i64>,
        tick_budget: Time,
    ) -> (r: Result<Scheduler, ConfigError>)
        requires
            world.wf(),
        ensures
            match r {
                Ok(s) => {
                    &&& s.wf()
                    &&& s.world == world
                    &&& s.time.0 == 0
                    &&& s.plasticity == plasticity
                    &&& s.delivery_limit == delivery_limit
                    &&& s.tick_budget == tick_budget
                },
                Err(e) => {
                    &&& (e == ConfigError::ZeroHalfLife <==> plasticity.half_life == 0)
                    &&& (e == ConfigError::HalfLifeTooLarge <==> (plasticity.half_life > 0
                        && plasticity.half_life > 0xffff_ffff))
                    &&& (e == ConfigError::NegativeLtp <==> (1 <= plasticity.half_life
                        <= 0xffff_ffff && plasticity.max_ltp < 0))
                    &&& (e == ConfigError::PositiveLtd <==> (1 <= plasticity.half_life
                        <= 0xffff_ffff && plasticity.max_ltp >= 0 && plasticity.max_ltd > 0))
                    &&& (e == ConfigError::NegativeDeliveryLimit <==> (plasticity.wf() && !limit_wf(
                        delivery_limit,
                    )))
                    &&& (e == ConfigError::BudgetTooLarge <==> (plasticity.wf() && limit_wf(
                        delivery_limit,
                    ) && tick_budget + MAX_SYNAPSE_DELAY > usize::MAX))
                },
            },
            r is Ok <==> (plasticity.wf() && limit_wf(delivery_limit) && tick_budget
                + MAX_SYNAPSE_DELAY <= usize::MAX),
    {
        if plasticity.half_life == 0 {
            return Err(ConfigError::ZeroHalfLife);
        }
        if plasticity.half_life > 0xffff_ffff {
            return Err(ConfigError::HalfLifeTooLarge);
        }
        if plasticity.max_ltp < 0 {
            return Err(ConfigError::NegativeLtp);
        }
        if plasticity.max_ltd > 0 {
            return Err(ConfigError::PositiveLtd);
        }
        let limit_ok = match delivery_limit {
            Some(l) => l >= 0,
            None => true,
        };
        if !limit_ok {
            return Err(ConfigError::NegativeDeliveryLimit);
        }
        if tick_budget > usize::MAX - MAX_SYNAPSE_DELAY {
            return Err(ConfigError::BudgetTooLarge);
        }
        Ok(
            Scheduler {
                world,
                time: SimulationTime(0),
                plasticity,
                delivery_limit,
                tick_budget,
            },
        )
    }

    /// The current clock value.
    pub fn time(&self) -> (r: Time)
        ensures
            r == self.time.0,
    {
        self.time.0
    }

    /// One tick: retire the previous tick's action-potential markers,
    /// run the stages in dependency order, and advance the clock by
    /// exactly one. When the call returns, this tick's markers are still
    /// set, so a caller can sample them; they are cleared at the start of
    /// the next tick.
    pub fn step(&mut self)
        requires
            old(self).wf(),
            old(self).time.0 < old(self).tick_budget,
        ensures
            final(self).wf(),
            final(self).time.0 == old(self).time.0 + 1,
            final(self).plasticity == old(self).plasticity,
            final(self).delivery_limit == old(self).delivery_limit,
            final(self).tick_budget == old(self).tick_budget,
            final(self).world.neurons.len() == old(self).world.neurons.len(),
            final(self).world.synapses.len() == old(self).world.synapses.len(),
            tick_rel(
                old(self).world,
                final(self).world,
                old(self).time.0,
                old(self).plasticity,
                old(self).delivery_limit,
            ),
    {
        let now = self.time.0;
        retire_action_potentials(&mut self.world);
        let ghost n0 = self.world.neurons@;
        HindmarshRoseIntegrator::run(&mut self.world);
        let ghost nm = self.world.neurons@;
        IzhikevichIntegrator::run(&mut self.world);
        let ghost na = self.world.neurons@;
        let ghost sa = self.world.synapses@;
        proof {
            // The two integrator passes touch disjoint neurons, so their
            // composition advances every neuron under its own variant.
            assert forall|j: int| 0 <= j < n0.len() implies {
                let pre = n0[j];
                let post = #[trigger] na[j];
                if pre.state is Izhikevich {
                    exists|noise: int|
                        0 <= noise < THALAMIC_INPUT_LIMIT && neuron_advances_to(pre, noise, post)
                } else {
                    neuron_advances_to(pre, 0, post)
                }
            } by {
                if n0[j].state is Izhikevich {
                    assert(nm[j] == n0[j]);
                } else {
                    assert(neuron_advances_to(n0[j], 0, nm[j]));
                    assert(na[j] == nm[j]);
                }
            }
            assert(integration_rel(n0, na));
        }
        SynapticTransmissionSystem::run(&mut self.world, now, self.delivery_limit);
        let ghost nb = self.world.neurons@;
        let ghost sb = self.world.synapses@;
        STDPLearningSystem::run(&mut self.world, &self.plasticity);
        self.time = SimulationTime(now + 1);
        proof {
            assert(sa == old(self).world.synapses@);
            assert(retire_rel(old(self).world.neurons@, n0));
            assert(transmission_stage_rel(na, sa, nb, sb, now, old(self).delivery_limit));
            assert(self.world.neurons@ == nb);
            assert(plasticity_stage_rel(nb, sb, self.world.synapses@, old(self).plasticity));
        }
    }

    /// Run the pipeline until the clock reaches the tick budget: the final
    /// world is the initial one rewritten by one full tick per elapsed
    /// clock value. A scheduler whose clock already stands at or past the
    /// budget — in particular, a budget of zero — is left exactly as it
    /// is.
    pub fn run(&mut self)
        requires
            old(self).wf(),
        ensures
            final(self).wf(),
            final(self).time.0 == old(self).tick_budget,
            final(self).plasticity == old(self).plasticity,
            final(self).delivery_limit == old(self).delivery_limit,
            final(self).tick_budget == old(self).tick_budget,
            final(self).world.neurons.len() == old(self).world.neurons.len(),
            final(self).world.synapses.len() == old(self).world.synapses.len(),
            runs_rel(
                old(self).world,
                old(self).time.0,
                final(self).world,
                old(self).tick_budget,
                old(self).plasticity,
                old(self).delivery_limit,
            ),
            old(self).time.0 >= old(self).tick_budget ==> *final(self) == *old(self),
    {
        proof {
            assert(runs_rel(
                old(self).world,
                old(self).time.0,
                old(self).world,
                old(self).time.0,
                old(self).plasticity,
                old(self).delivery_limit,
            ));
        }
        while self.time.0 < self.tick_budget
            invariant
                self.wf(),
                self.plasticity == old(self).plasticity,
                self.delivery_limit == old(self).delivery_limit,
                self.tick_budget == old(self).tick_budget,
                self.world.neurons.len() == old(self).world.neurons.len(),
                self.world.synapses.len() == old(self).world.synapses.len(),
                old(self).time.0 <= self.time.0,
                runs_rel(
                    old(self).world,
                    old(self).time.0,
                    self.world,
                    self.time.0,
                    old(self).plasticity,
                    old(self).delivery_limit,
                ),
                old(self).time.0 >= old(self).tick_budget ==> *self == *old(self),
            decreases self.tick_budget - self.time.0,
        {
            let ghost prev_world = self.world;
            let ghost prev_time = self.time.0;
            self.step();
            proof {
                lemma_runs_rel_extend(
                    old(self).world,
                    old(self).time.0,
                    prev_world,
                    prev_time,
                    self.world,
                    old(self).plasticity,
                    old(self).delivery_limit,
                );
            }
        }
    }
}

} // verus!
