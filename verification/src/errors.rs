use vstd::prelude::*;

verus! {

/// Fatal failures of the benchmark pipeline. There is no local recovery:
/// every variant aborts the run and is surfaced at the top level.
#[derive(Clone, Copy, Debug, PartialEq, Eq, Structural)]
pub enum BenchError {
    /// A cached parameter blob was present but is not a valid encoding of
    /// parameters of the expected capacity.
    CorruptParams,
    /// The requested capacity exponent cannot hold the circuit.
    CapacityTooSmall,
    /// The requested capacity exponent is beyond what the parameter
    /// generator can construct.
    CapacityTooLarge,
    /// Key derivation reported failure.
    KeygenFailed,
    /// Proof construction reported failure.
    ProvingFailed,
    /// Persisting an artifact reported failure.
    WriteFailed,
    /// A pipeline step was driven out of order.
    OutOfOrder,
}

} // verus!
