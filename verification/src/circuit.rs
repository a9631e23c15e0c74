//! The circuit description: how many times the hash gadget is repeated,
//! and, when populated, the concrete input words. The witness-free shape
//! and the populated description are distinct types, so key generation can
//! only be planned from the witness-free one.

use vstd::prelude::*;
use crate::input::fixed_input_words;
use crate::input::spec_fixed_input;

verus! {

/// The witness-free circuit description. The shape alone fixes the
/// constraint system: `repetition_count` independent invocations of the
/// hash gadget, no wires shared across repetitions.
#[derive(Clone, Copy, Debug, PartialEq, Eq, Structural)]
pub struct CircuitShape {
    pub repetition_count: u64,
}

/// The populated circuit description: the shape together with the concrete
/// input words that every repetition hashes.
pub struct PopulatedCircuit {
    pub shape: CircuitShape,
    pub words: Vec<u32>,
}

impl CircuitShape {
    /// A witness-free description with the given repetition count.
    pub fn new(repetition_count: u64) -> (r: CircuitShape)
        ensures
            r.repetition_count == repetition_count,
    {
        CircuitShape { repetition_count }
    }

    /// Populates the shape with the fixed input words.
    pub fn populate(&self) -> (r: PopulatedCircuit)
        ensures
            r.wf(),
            r.shape == *self,
    {
        PopulatedCircuit { shape: CircuitShape { repetition_count: self.repetition_count }, words: fixed_input_words() }
    }
}

impl PopulatedCircuit {
    /// A populated description always carries exactly the fixed input.
    pub open spec fn wf(self) -> bool {
        self.words@ == spec_fixed_input()
    }

    /// Forgets the witness values and keeps the shape: the key-generation
    /// view of the same circuit. The constraint system it implies is
    /// identical to the populated one's, which is what makes key reuse
    /// valid.
    pub fn without_witnesses(&self) -> (r: CircuitShape)
        ensures
            r == self.shape,
    {
        CircuitShape { repetition_count: self.shape.repetition_count }
    }

    /// The input words of repetition `i`: every repetition hashes the same
    /// fixed input, whatever `i` is — an explicit simplification of this
    /// benchmark, not a per-repetition payload.
    pub fn input_for_repetition(&self, i: u64) -> (r: Vec<u32>)
        requires
            self.wf(),
            i < self.shape.repetition_count,
        ensures
            r@ == self.words@,
            r@ == spec_fixed_input(),
    {
        let mut r: Vec<u32> = Vec::new();
        let mut j: usize = 0;
        while j < self.words.len()
            invariant
                j <= self.words@.len(),
                r@ == self.words@.subrange(0, j as int),
            decreases self.words@.len() - j,
        {
            r.push(self.words[j]);
            proof {
                assert(r@ =~= self.words@.subrange(0, j + 1 as int));
            }
            j = j + 1;
        }
        proof {
            assert(self.words@.subrange(0, self.words@.len() as int) =~= self.words@);
        }
        r
    }
}

} // verus!
