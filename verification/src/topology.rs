//! The topology generator.
//!
//! Builds the layered-column population — a fixed number of columns, each
//! holding fixed per-layer counts of Izhikevich neurons — and wires every
//! ordered pair of distinct neurons with a probability looked up from a
//! table keyed on column and layer membership. A created synapse draws its
//! delay, its sign and its strength, and carries a fresh plasticity rule.
//! Self-connections are never created: the pair loop visits every ordered
//! pair and excludes `pre == post` explicitly.

use vstd::prelude::*;
use vstd::arithmetic::div_mod::lemma_fundamental_div_mod_converse;
use crate::izhikevich::{IzhikevichModel, IzhikevichMorphology};
use crate::neuron::{layer_order, ColumnCoordinates, Layer, Neuron, NeuronState};
use crate::rng::random_below;
use crate::stdp::STDP_NEVER;
use crate::synapse::Synapse;
use crate::world::World;

verus! {

/// Connection probabilities in thousandths, one entry per rule of the
/// wiring table; every pair the table does not name has probability zero.
#[derive(Clone, Copy, PartialEq, Eq, Structural, Debug)]
pub struct ProbabilityTable {
    /// Same column, internal to internal.
    pub internal_internal: u32,
    /// Same column, same non-internal layer.
    pub intra_same_layer: u32,
    /// Same column, sensory to internal.
    pub sensory_internal: u32,
    /// Same column, afferent to internal.
    pub afferent_internal: u32,
    /// Same column, internal to motor.
    pub internal_motor: u32,
    /// Same column, internal to efferent.
    pub internal_efferent: u32,
    /// Across columns, efferent to afferent.
    pub efferent_afferent: u32,
}

impl ProbabilityTable {
    /// The standard wiring probabilities.
    pub fn standard() -> (r: Self)
        ensures
            r.internal_internal == 800,
            r.intra_same_layer == 400,
            r.sensory_internal == 800,
            r.afferent_internal == 800,
            r.internal_motor == 800,
            r.internal_efferent == 800,
            r.efferent_afferent == 300,
    {
        ProbabilityTable {
            internal_internal: 800,
            intra_same_layer: 400,
            sensory_internal: 800,
            afferent_internal: 800,
            internal_motor: 800,
            internal_efferent: 800,
            efferent_afferent: 300,
        }
    }
}

/// The wiring probability, in thousandths, for an ordered pair of grid
/// positions; rules are tried in the table's order.
pub open spec fn connection_probability_spec(
    t: ProbabilityTable,
    pre: ColumnCoordinates,
    post: ColumnCoordinates,
) -> u32 {
    if pre.column == post.column {
        if pre.layer is Internal && post.layer is Internal {
            t.internal_internal
        } else if pre.layer == post.layer {
            t.intra_same_layer
        } else if pre.layer is Sensory && post.layer is Internal {
            t.sensory_internal
        } else if pre.layer is Afferent && post.layer is Internal {
            t.afferent_internal
        } else if pre.layer is Internal && post.layer is Motor {
            t.internal_motor
        } else if pre.layer is Internal && post.layer is Efferent {
            t.internal_efferent
        } else {
            0
        }
    } else if pre.layer is Efferent && post.layer is Afferent {
        t.efferent_afferent
    } else {
        0
    }
}

/// Executable form of [`connection_probability_spec`].
pub fn connection_probability(
    t: &ProbabilityTable,
    pre: ColumnCoordinates,
    post: ColumnCoordinates,
) -> (p: u32)
    ensures
        p == connection_probability_spec(*t, pre, post),
{
    if pre.column == post.column {
        if matches!(pre.layer, Layer::Internal) && matches!(post.layer, Layer::Internal) {
            t.internal_internal
        } else if pre.layer == post.layer {
            t.intra_same_layer
        } else if matches!(pre.layer, Layer::Sensory) && matches!(post.layer, Layer::Internal) {
            t.sensory_internal
        } else if matches!(pre.layer, Layer::Afferent) && matches!(post.layer, Layer::Internal) {
            t.afferent_internal
        } else if matches!(pre.layer, Layer::Internal) && matches!(post.layer, Layer::Motor) {
            t.internal_motor
        } else if matches!(pre.layer, Layer::Internal) && matches!(post.layer, Layer::Efferent) {
            t.internal_efferent
        } else {
            0
        }
    } else if matches!(pre.layer, Layer::Efferent) && matches!(post.layer, Layer::Afferent) {
        t.efferent_afferent
    } else {
        0
    }
}

/// The wiring probability for an ordered pair of neurons, in thousandths;
/// a neuron without grid coordinates pairs with nothing.
pub open spec fn pair_probability(
    neurons: Seq<Neuron>,
    t: ProbabilityTable,
    a: int,
    b: int,
) -> int {
    match (neurons[a].coordinates, neurons[b].coordinates) {
        (Some(ca), Some(cb)) => connection_probability_spec(t, ca, cb) as int,
        _ => 0,
    }
}

/// Column count and per-layer populations.
#[derive(Clone, Copy, PartialEq, Eq, Structural, Debug)]
pub struct TopologyConfig {
    /// Number of columns.
    pub num_columns: usize,
    /// Sensory neurons per column.
    pub sensory: usize,
    /// Motor neurons per column.
    pub motor: usize,
    /// Afferent neurons per column.
    pub afferent: usize,
    /// Efferent neurons per column.
    pub efferent: usize,
    /// Internal neurons per column.
    pub internal: usize,
}

impl TopologyConfig {
    /// The standard population: twenty columns of sixty internal neurons
    /// and ten of each other layer.
    pub fn standard() -> (r: Self)
        ensures
            r.num_columns == 20,
            r.sensory == 10,
            r.motor == 10,
            r.afferent == 10,
            r.efferent == 10,
            r.internal == 60,
    {
        TopologyConfig {
            num_columns: 20,
            sensory: 10,
            motor: 10,
            afferent: 10,
            efferent: 10,
            internal: 60,
        }
    }

    /// Neurons per column.
    pub open spec fn column_size(self) -> int {
        self.sensory + self.motor + self.afferent + self.efferent + self.internal
    }

    /// Neurons in the whole grid.
    pub open spec fn total(self) -> int {
        self.num_columns * self.column_size()
    }

    /// The population of one layer within a column.
    pub open spec fn population_spec(self, layer: Layer) -> int {
        match layer {
            Layer::Sensory => self.sensory as int,
            Layer::Motor => self.motor as int,
            Layer::Afferent => self.afferent as int,
            Layer::Efferent => self.efferent as int,
            Layer::Internal => self.internal as int,
        }
    }

    /// Executable form of [`TopologyConfig::population_spec`].
    pub fn population(&self, layer: Layer) -> (r: usize)
        ensures
            r == self.population_spec(layer),
    {
        match layer {
            Layer::Sensory => self.sensory,
            Layer::Motor => self.motor,
            Layer::Afferent => self.afferent,
            Layer::Efferent => self.efferent,
            Layer::Internal => self.internal,
        }
    }
}

/// Neurons of the layers before position `li` of the creation order,
/// within one column.
pub open spec fn prefix_population(cfg: TopologyConfig, li: int) -> int
    decreases li,
{
    if li <= 0 {
        0
    } else {
        prefix_population(cfg, li - 1) + cfg.population_spec(layer_order()[li - 1])
    }
}

/// The layer of the neuron at offset `off` within its column, under the
/// creation order.
pub open spec fn expected_layer(cfg: TopologyConfig, off: int) -> Layer {
    if off < cfg.sensory {
        Layer::Sensory
    } else if off < cfg.sensory + cfg.motor {
        Layer::Motor
    } else if off < cfg.sensory + cfg.motor + cfg.afferent {
        Layer::Afferent
    } else if off < cfg.sensory + cfg.motor + cfg.afferent + cfg.efferent {
        Layer::Efferent
    } else {
        Layer::Internal
    }
}

/// The grid position of the neuron created at index `i`.
pub open spec fn expected_coordinates(cfg: TopologyConfig, i: int) -> ColumnCoordinates
    recommends
        cfg.column_size() >= 1,
{
    ColumnCoordinates {
        column: (i / cfg.column_size()) as usize,
        layer: expected_layer(cfg, i % cfg.column_size()),
    }
}

/// The record every generated neuron starts from: the resting Izhikevich
/// state, quiet accumulators and flags, and its grid position.
pub open spec fn generated_neuron(morphology: IzhikevichMorphology, coords: ColumnCoordinates) -> Neuron {
    Neuron {
        state: NeuronState::Izhikevich {
            model: IzhikevichModel { v: -65_000_000i64, u: -1_300_000i64 },
            morphology,
        },
        psp: 0,
        spiking: false,
        action_potential: false,
        coordinates: Some(coords),
    }
}

proof fn lemma_expected_layer_at(cfg: TopologyConfig, li: int, m: int)
    requires
        0 <= li < 5,
        0 <= m < cfg.population_spec(layer_order()[li]),
    ensures
        expected_layer(cfg, prefix_population(cfg, li) + m) == layer_order()[li],
{
    lemma_prefix_population_unfold(cfg);
}

/// The first few prefix populations, written out.
proof fn lemma_prefix_population_unfold(cfg: TopologyConfig)
    ensures
        prefix_population(cfg, 0) == 0,
        prefix_population(cfg, 1) == cfg.sensory,
        prefix_population(cfg, 2) == cfg.sensory + cfg.motor,
        prefix_population(cfg, 3) == cfg.sensory + cfg.motor + cfg.afferent,
        prefix_population(cfg, 4) == cfg.sensory + cfg.motor + cfg.afferent + cfg.efferent,
        prefix_population(cfg, 5) == cfg.column_size(),
        layer_order()[0] == Layer::Sensory,
        layer_order()[1] == Layer::Motor,
        layer_order()[2] == Layer::Afferent,
        layer_order()[3] == Layer::Efferent,
        layer_order()[4] == Layer::Internal,
{
    assert(layer_order()[0] == Layer::Sensory);
    assert(layer_order()[1] == Layer::Motor);
    assert(layer_order()[2] == Layer::Afferent);
    assert(layer_order()[3] == Layer::Efferent);
    assert(layer_order()[4] == Layer::Internal);
    assert(prefix_population(cfg, 0) == 0);
    assert(prefix_population(cfg, 1) == prefix_population(cfg, 0) + cfg.population_spec(
        layer_order()[0],
    ));
    assert(prefix_population(cfg, 2) == prefix_population(cfg, 1) + cfg.population_spec(
        layer_order()[1],
    ));
    assert(prefix_population(cfg, 3) == prefix_population(cfg, 2) + cfg.population_spec(
        layer_order()[2],
    ));
    assert(prefix_population(cfg, 4) == prefix_population(cfg, 3) + cfg.population_spec(
        layer_order()[3],
    ));
    assert(prefix_population(cfg, 5) == prefix_population(cfg, 4) + cfg.population_spec(
        layer_order()[4],
    ));
}

/// The per-column layer blocks exactly fill the column.
proof fn lemma_prefix_population_total(cfg: TopologyConfig)
    ensures
        prefix_population(cfg, 5) == cfg.column_size(),
        forall|li: int| 0 <= li < 5 ==> cfg.population_spec(#[trigger] layer_order()[li]) >= 0,
        forall|li: int|
            0 <= li <= 5 ==> 0 <= #[trigger] prefix_population(cfg, li) <= cfg.column_size(),
{
    lemma_prefix_population_unfold(cfg);
    assert forall|li: int| 0 <= li <= 5 implies 0 <= #[trigger] prefix_population(cfg, li)
        <= cfg.column_size() by {
        lemma_prefix_population_unfold(cfg);
    }
}

/// Create the full population: column by column, layer by layer in
/// creation order, every neuron an Izhikevich cell at rest with its grid
/// position attached.
fn generate_neurons(world: &mut World, cfg: &TopologyConfig, morphology: &IzhikevichMorphology)
    requires
        old(world).wf(),
        old(world).neurons.len() == 0,
        old(world).synapses.len() == 0,
        cfg.column_size() >= 1,
        cfg.total() <= 0xffff,
    ensures
        final(world).wf(),
        final(world).synapses.len() == 0,
        final(world).neurons@.len() == cfg.total(),
        forall|i: int|
            0 <= i < cfg.total() ==> (#[trigger] final(world).neurons@[i]) == generated_neuron(
                *morphology,
                expected_coordinates(*cfg, i),
            ),
{
    proof {
        lemma_prefix_population_total(*cfg);
    }
    let layers = Layer::iter();
    let ghost csize = cfg.column_size();
    let mut col: usize = 0;
    while col < cfg.num_columns
        invariant
            world.wf(),
            world.synapses.len() == 0,
            csize == cfg.column_size(),
            csize >= 1,
            cfg.total() <= 0xffff,
            col <= cfg.num_columns,
            layers@ == layer_order(),
            world.neurons@.len() == col * csize,
            forall|i: int|
                0 <= i < world.neurons@.len() ==> (#[trigger] world.neurons@[i])
                    == generated_neuron(*morphology, expected_coordinates(*cfg, i)),
        decreases cfg.num_columns - col,
    {
        proof {
            assert((col + 1) * csize <= cfg.num_columns * csize) by (nonlinear_arith)
                requires
                    col + 1 <= cfg.num_columns,
                    csize >= 1,
            ;
        }
        let mut li: usize = 0;
        while li < 5
            invariant
                world.wf(),
                world.synapses.len() == 0,
                csize == cfg.column_size(),
                csize >= 1,
                cfg.total() <= 0xffff,
                col < cfg.num_columns,
                li <= 5,
                layers@ == layer_order(),
                layers@.len() == 5,
                (col + 1) * csize <= cfg.total(),
                world.neurons@.len() == col * csize + prefix_population(*cfg, li as int),
                forall|i: int|
                    0 <= i < world.neurons@.len() ==> (#[trigger] world.neurons@[i])
                        == generated_neuron(*morphology, expected_coordinates(*cfg, i)),
            decreases 5 - li,
        {
            let layer = layers[li];
            let pop = cfg.population(layer);
            let ghost base = prefix_population(*cfg, li as int);
            proof {
                lemma_prefix_population_total(*cfg);
                assert(prefix_population(*cfg, li as int + 1) == base + cfg.population_spec(
                    layer_order()[li as int],
                ));
            }
            let mut m: usize = 0;
            while m < pop
                invariant
                    world.wf(),
                    world.synapses.len() == 0,
                    csize == cfg.column_size(),
                    csize >= 1,
                    cfg.total() <= 0xffff,
                    col < cfg.num_columns,
                    li < 5,
                    m <= pop,
                    layer == layer_order()[li as int],
                    pop == cfg.population_spec(layer),
                    base == prefix_population(*cfg, li as int),
                    (col + 1) * csize <= cfg.total(),
                    0 <= base,
                    base + pop <= csize,
                    world.neurons@.len() == col * csize + base + m,
                    forall|i: int|
                        0 <= i < world.neurons@.len() ==> (#[trigger] world.neurons@[i])
                            == generated_neuron(*morphology, expected_coordinates(*cfg, i)),
                decreases pop - m,
            {
                let coords = ColumnCoordinates { column: col, layer };
                let neuron = Neuron::izhikevich(
                    IzhikevichModel::resting(),
                    *morphology,
                    Some(coords),
                );
                let ghost idx = world.neurons@.len() as int;
                proof {
                    assert(idx == col * csize + (base + m));
                    assert(0 <= base + m < csize);
                    lemma_fundamental_div_mod_converse(idx, csize, col as int, base + m);
                    lemma_expected_layer_at(*cfg, li as int, m as int);
                    assert(expected_coordinates(*cfg, idx) == coords);
                    assert(col * csize + csize == (col + 1) * csize) by (nonlinear_arith);
                    assert(idx < cfg.total());
                }
                world.add_neuron(neuron);
                m = m + 1;
            }
            li = li + 1;
        }
        proof {
            lemma_prefix_population_unfold(*cfg);
            assert(col * csize + csize == (col + 1) * csize) by (nonlinear_arith);
        }
        col = col + 1;
    }
    proof {
        assert(world.neurons@.len() == cfg.num_columns * csize);
    }
}

/// Ordered-pair position `(p1, q1)` comes before `(p2, q2)` in the wiring
/// loop's visiting order.
pub open spec fn pair_before(p1: int, q1: int, p2: int, q2: int) -> bool {
    p1 < p2 || (p1 == p2 && q1 < q2)
}

/// What holds of every created synapse: existing distinct endpoints wired
/// only where the table gives positive probability, a delay drawn from
/// `[1, 20)`, a strength whose magnitude was drawn from `[0.5, 4.0)` units
/// and negated for an inhibitory synapse, an empty delivery queue and a
/// fresh plasticity rule; and no ordered pair is wired twice — the pairs
/// appear in the visiting order.
pub open spec fn synapse_guarantees(
    syns: Seq<Synapse>,
    neurons: Seq<Neuron>,
    t: ProbabilityTable,
) -> bool {
    &&& forall|k: int|
        0 <= k < syns.len() ==> {
            let s = #[trigger] syns[k];
            &&& s.pre_neuron < neurons.len()
            &&& s.post_neuron < neurons.len()
            &&& s.pre_neuron != s.post_neuron
            &&& pair_probability(neurons, t, s.pre_neuron as int, s.post_neuron as int) > 0
            &&& 1 <= s.delay < 20
            &&& (500_000 <= s.strength < 4_000_000 || -4_000_000 < s.strength <= -500_000)
            &&& s.pending_spikes@.len() == 0
            &&& s.stdp.pre_dt == STDP_NEVER
            &&& s.stdp.post_dt == STDP_NEVER
        }
    &&& forall|k1: int, k2: int|
        0 <= k1 < k2 < syns.len() ==> pair_before(
            (#[trigger] syns[k1]).pre_neuron as int,
            syns[k1].post_neuron as int,
            (#[trigger] syns[k2]).pre_neuron as int,
            syns[k2].post_neuron as int,
        )
}

/// Every certainly-wired pair visited before position `(fa, fb)` has its
/// synapse: a pair of distinct neurons whose table probability reaches one
/// thousand thousandths is always wired.
pub open spec fn certain_pairs_wired(
    syns: Seq<Synapse>,
    neurons: Seq<Neuron>,
    t: ProbabilityTable,
    fa: int,
    fb: int,
) -> bool {
    forall|a: int, b: int|
        #![trigger pair_probability(neurons, t, a, b)]
        0 <= a < neurons.len() && 0 <= b < neurons.len() && a != b && pair_before(a, b, fa, fb)
            && pair_probability(neurons, t, a, b) >= 1000 ==> exists|k: int|
            0 <= k < syns.len() && (#[trigger] syns[k]).pre_neuron == a && syns[k].post_neuron == b
}

/// Wire the population: visit every ordered pair of distinct neurons, look
/// up its probability, and create a synapse on a successful Bernoulli
/// trial carried out as a uniform draw of thousandths.
fn generate_synapses(world: &mut World, table: &ProbabilityTable)
    requires
        old(world).wf(),
        old(world).synapses.len() == 0,
        old(world).neurons.len() <= 0xffff,
    ensures
        final(world).wf(),
        final(world).neurons == old(world).neurons,
        synapse_guarantees(final(world).synapses@, old(world).neurons@, *table),
        certain_pairs_wired(
            final(world).synapses@,
            old(world).neurons@,
            *table,
            old(world).neurons.len() as int,
            0,
        ),
{
    let ghost n0 = world.neurons@;
    let n = world.neuron_count();
    for a in 0..n
        invariant
            world.wf(),
            world.neurons == old(world).neurons,
            n == n0.len(),
            n0 == old(world).neurons@,
            n <= 0xffff,
            world.synapses@.len() <= (a as int) * (n as int),
            synapse_guarantees(world.synapses@, n0, *table),
            forall|k: int|
                0 <= k < world.synapses@.len() ==> pair_before(
                    (#[trigger] world.synapses@[k]).pre_neuron as int,
                    world.synapses@[k].post_neuron as int,
                    a as int,
                    0,
                ),
            certain_pairs_wired(world.synapses@, n0, *table, a as int, 0),
    {
        for b in 0..n
            invariant
                world.wf(),
                world.neurons == old(world).neurons,
                n == n0.len(),
                n0 == old(world).neurons@,
                n <= 0xffff,
                a < n,
                world.synapses@.len() <= (a as int) * (n as int) + b as int,
                synapse_guarantees(world.synapses@, n0, *table),
                forall|k: int|
                    0 <= k < world.synapses@.len() ==> pair_before(
                        (#[trigger] world.synapses@[k]).pre_neuron as int,
                        world.synapses@[k].post_neuron as int,
                        a as int,
                        b as int,
                    ),
                certain_pairs_wired(world.synapses@, n0, *table, a as int, b as int),
        {
            if a != b {
                let ca_opt = world.neurons[a].coordinates;
                let cb_opt = world.neurons[b].coordinates;
                let p: u32 = match (ca_opt, cb_opt) {
                    (Some(ca), Some(cb)) => connection_probability(table, ca, cb),
                    _ => 0,
                };
                proof {
                    assert(p as int == pair_probability(n0, *table, a as int, b as int));
                }
                if p > 0 {
                    let roll = random_below(1000);
                    if (roll as u32) < p {
                        let delay: usize = 1 + (random_below(19) as usize);
                        let excitatory = random_below(1000) < 800;
                        let magnitude: i64 = 500_000i64 + (random_below(3_500_000) as i64);
                        let strength: i64 = if excitatory {
                            magnitude
                        } else {
                            -magnitude
                        };
                        proof {
                            assert((a as int) * (n as int) + (b as int) + 1 <= (n as int) * (
                            n as int)) by (nonlinear_arith)
                                requires
                                    0 <= (a as int) && (a as int) < (n as int),
                                    0 <= (b as int) && (b as int) < (n as int),
                            ;
                            assert((n as int) * (n as int) <= 0xffff * 0xffff) by (nonlinear_arith)
                                requires
                                    0 <= (n as int) && (n as int) <= 0xffff,
                            ;
                        }
                        let ghost prev = world.synapses@;
                        let res = world.add_synapse(a, b, delay, strength);
                        proof {
                            assert(res is Ok);
                            let cur = world.synapses@;
                            assert forall|k: int| 0 <= k < prev.len() implies cur[k]
                                == prev[k] by {
                                assert(cur.subrange(0, prev.len() as int)[k] == cur[k]);
                            }
                            assert(cur.last().pre_neuron == a && cur.last().post_neuron == b);
                            assert forall|x: int, y: int|
                                #![trigger pair_probability(n0, *table, x, y)]
                                0 <= x < n0.len() && 0 <= y < n0.len() && x != y && pair_before(
                                    x,
                                    y,
                                    a as int,
                                    b as int + 1,
                                ) && pair_probability(n0, *table, x, y) >= 1000 implies exists|
                                k: int,
                            |
                                0 <= k < cur.len() && (#[trigger] cur[k]).pre_neuron == x
                                    && cur[k].post_neuron == y by {
                                if pair_before(x, y, a as int, b as int) {
                                    let k = choose|k: int|
                                        0 <= k < prev.len() && (#[trigger] prev[k]).pre_neuron == x
                                            && prev[k].post_neuron == y;
                                    assert(cur[k].pre_neuron == x && cur[k].post_neuron == y);
                                } else {
                                    let k = cur.len() - 1;
                                    assert(cur[k].pre_neuron == x && cur[k].post_neuron == y);
                                }
                            }
                        }
                    }
                }
            }
            proof {
                assert forall|x: int, y: int|
                    #![trigger pair_probability(n0, *table, x, y)]
                    0 <= x < n0.len() && 0 <= y < n0.len() && x != y && pair_before(
                        x,
                        y,
                        a as int,
                        b as int + 1,
                    ) && pair_probability(n0, *table, x, y) >= 1000 implies exists|k: int|
                    0 <= k < world.synapses@.len() && (#[trigger] world.synapses@[k]).pre_neuron
                        == x && world.synapses@[k].post_neuron == y by {
                    if x == a as int && y == b as int {
                        assert(pair_probability(n0, *table, a as int, b as int) >= 1000);
                    }
                }
            }
        }
        proof {
            assert forall|x: int, y: int|
                #![trigger pair_probability(n0, *table, x, y)]
                0 <= x < n0.len() && 0 <= y < n0.len() && x != y && pair_before(
                    x,
                    y,
                    a as int + 1,
                    0,
                ) && pair_probability(n0, *table, x, y) >= 1000 implies exists|k: int|
                0 <= k < world.synapses@.len() && (#[trigger] world.synapses@[k]).pre_neuron == x
                    && world.synapses@[k].post_neuron == y by {
                assert(pair_before(x, y, a as int, n as int));
            }
            assert((a as int) * (n as int) + (n as int) == (a as int + 1) * (n as int))
                by (nonlinear_arith);
        }
    }
}

/// Everything the generator guarantees of a freshly wired world: the full
/// deterministic population layout, and the wiring guarantees that hold of
/// every outcome of the probabilistic draws.
pub open spec fn generated_world(
    cfg: TopologyConfig,
    table: ProbabilityTable,
    morphology: IzhikevichMorphology,
    w: World,
) -> bool {
    &&& w.wf()
    &&& w.neurons@.len() == cfg.total()
    &&& forall|i: int|
        0 <= i < cfg.total() ==> (#[trigger] w.neurons@[i]) == generated_neuron(
            morphology,
            expected_coordinates(cfg, i),
        )
    &&& synapse_guarantees(w.synapses@, w.neurons@, table)
    &&& certain_pairs_wired(w.synapses@, w.neurons@, table, w.neurons@.len() as int, 0)
}

/// Build the whole network: the layered-column population, then the
/// probabilistic wiring.
pub fn generate(
    cfg: &TopologyConfig,
    table: &ProbabilityTable,
    morphology: &IzhikevichMorphology,
) -> (w: World)
    requires
        cfg.column_size() >= 1,
        cfg.total() <= 0xffff,
    ensures
        generated_world(*cfg, *table, *morphology, w),
{
    let mut world = World::new();
    generate_neurons(&mut world, cfg, morphology);
    generate_synapses(&mut world, table);
    world
}

} // verus!
