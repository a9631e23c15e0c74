//! Planning and recording of proving/verifying key derivation. Derivation
//! itself synthesizes the constraint system through the hash gadget and is
//! driven outside this crate; here stands what can be decided from the
//! shape alone: the capacity invariant, and the binding of a derived key
//! pair to one parameter capacity and one circuit shape.

use vstd::prelude::*;
use crate::circuit::CircuitShape;
use crate::errors::BenchError;

verus! {

/// Smallest capacity exponent the hash gadget admits: its lookup table
/// alone fills `2^16` rows, so any circuit invoking the gadget needs a
/// strictly larger row count, whatever the repetition count.
pub const MIN_CAPACITY: u32 = 17;

/// Largest capacity exponent (exclusive) for which setup parameters can be
/// constructed at all.
pub const MAX_CAPACITY: u32 = 32;

/// A capacity that key derivation can possibly succeed on: at least
/// `MIN_CAPACITY`, below `MAX_CAPACITY`.
pub open spec fn spec_capacity_admissible(k: u32) -> bool {
    MIN_CAPACITY <= k < MAX_CAPACITY
}

/// The verified record of one derived proving/verifying key pair: the
/// capacity of the parameters it was derived from and the shape it is
/// bound to. The unverified driver keeps the key material itself beside
/// this record; the verifying key is consumed into the proving key and is
/// not independently retained.
#[derive(Clone, Copy, Debug, PartialEq, Eq, Structural)]
pub struct KeyHandle {
    pub capacity: u32,
    pub repetition_count: u64,
}

/// Checks, before the expensive derivation begins, the necessary capacity
/// condition: parameters of capacity `k` cannot hold the gadget's lookup
/// table unless `k` is at least `MIN_CAPACITY`.
pub fn check_capacity(k: u32) -> (r: Result<(), BenchError>)
    ensures
        r is Ok <==> spec_capacity_admissible(k),
        k < MIN_CAPACITY ==> (r matches Err(e) && e == BenchError::CapacityTooSmall),
        k >= MAX_CAPACITY ==> (r matches Err(e) && e == BenchError::CapacityTooLarge),
{
    if k < MIN_CAPACITY {
        Err(BenchError::CapacityTooSmall)
    } else if k >= MAX_CAPACITY {
        Err(BenchError::CapacityTooLarge)
    } else {
        Ok(())
    }
}

/// Whether a key pair recorded by `h` may prove a circuit of shape
/// `shape` against parameters of capacity `k`: both bindings must agree
/// exactly. A key derived for one shape is incompatible with every other.
pub open spec fn spec_key_matches(h: KeyHandle, k: u32, shape: CircuitShape) -> bool {
    h.capacity == k && h.repetition_count == shape.repetition_count
}

/// Runtime form of `spec_key_matches`.
pub fn key_matches(h: &KeyHandle, k: u32, shape: &CircuitShape) -> (r: bool)
    ensures
        r == spec_key_matches(*h, k, *shape),
{
    h.capacity == k && h.repetition_count == shape.repetition_count
}

/// Law: keys derived for one repetition count never match a circuit of a
/// different repetition count; cross-use without re-derivation is refused.
pub proof fn lemma_cross_shape_refused(h: KeyHandle, k: u32, shape: CircuitShape)
    requires
        h.repetition_count != shape.repetition_count,
    ensures
        !spec_key_matches(h, k, shape),
{
}

} // verus!
