//! Typed faults of the simulation kernel.
//!
//! Every detected error is surfaced to the caller as a value of one of
//! these enums; nothing is logged away or silently tolerated.
//! Configuration faults are caught once at setup, before any tick runs;
//! wiring faults are caught at topology-generation time.

use vstd::prelude::*;

verus! {

/// A malformed configuration, detected at setup.
#[derive(Clone, Copy, PartialEq, Eq, Structural, Debug)]
pub enum ConfigError {
    /// A Hindmarsh-Rose time scale was not positive.
    NonPositiveTimescale,
    /// The plasticity half-life was zero.
    ZeroHalfLife,
    /// The plasticity half-life exceeds the exactly representable range.
    HalfLifeTooLarge,
    /// The potentiation amplitude was negative.
    NegativeLtp,
    /// The depression amplitude was positive.
    PositiveLtd,
    /// A delivery clamp bound was negative.
    NegativeDeliveryLimit,
    /// The requested populations overflow the store's index range.
    PopulationTooLarge,
    /// Every per-layer population is zero.
    EmptyColumn,
    /// The tick budget overflows the clock's range.
    BudgetTooLarge,
}

/// An invalid wiring request, detected at topology-generation time.
#[derive(Clone, Copy, PartialEq, Eq, Structural, Debug)]
pub enum TopologyError {
    /// The presynaptic neuron does not exist in the store.
    PreNeuronMissing,
    /// The postsynaptic neuron does not exist in the store.
    PostNeuronMissing,
    /// The conduction delay was zero.
    ZeroDelay,
    /// The conduction delay exceeds the accepted range.
    ExcessiveDelay,
}

} // verus!
