//! One benchmark run, as a verified state machine: parameter acquisition,
//! key derivation, proving and artifact persistence follow each other in
//! one fixed order, every failure is final, and the unverified driver
//! feeds in the outcome of each piece of outside work as an event.

use vstd::prelude::*;
use crate::circuit::CircuitShape;
use crate::circuit::PopulatedCircuit;
use crate::errors::BenchError;
use crate::keys::KeyHandle;
use crate::keys::MIN_CAPACITY;
use crate::keys::spec_key_matches;
use crate::names::params_cache_name;
use crate::names::proof_file_name;
use crate::names::spec_params_cache_name;
use crate::names::spec_proof_file_name;
use crate::params::SetupParameters;
use crate::params::acquire;
use crate::params::spec_cache_blob_valid;

verus! {

/// Where a run stands. The stages follow each other in one fixed order;
/// there is no retry and no resumption.
#[derive(Clone, Copy, Debug, PartialEq, Eq, Structural)]
pub enum Stage {
    /// Waiting for the cached parameter blob, or word that none exists.
    AwaitParams,
    /// Parameters held; waiting for the outcome of key derivation.
    AwaitKeys,
    /// Keys derived; waiting for the proof bytes.
    AwaitProof,
    /// Proof accepted; waiting for the outcome of persisting it.
    AwaitProofWrite,
    /// The artifact is persisted; the run is complete.
    Done,
    /// A fatal error ended the run.
    Failed,
}

/// One benchmark run over a fixed capacity and circuit shape.
pub struct Runner {
    capacity: u32,
    shape: CircuitShape,
    stage: Stage,
    params: Option<SetupParameters>,
    keys: Option<KeyHandle>,
    failure: Option<BenchError>,
}

impl Runner {
    /// The capacity exponent of the run.
    pub closed spec fn spec_capacity(self) -> u32 {
        self.capacity
    }

    /// The circuit shape of the run.
    pub closed spec fn spec_shape(self) -> CircuitShape {
        self.shape
    }

    /// The stage the run stands at.
    pub closed spec fn spec_stage(self) -> Stage {
        self.stage
    }

    /// The parameters held, once acquired.
    pub closed spec fn spec_params(self) -> Option<SetupParameters> {
        self.params
    }

    /// The key record held, once derivation succeeded.
    pub closed spec fn spec_keys(self) -> Option<KeyHandle> {
        self.keys
    }

    /// The error that ended the run, if it failed.
    pub closed spec fn spec_failure(self) -> Option<BenchError> {
        self.failure
    }

    /// Parameters are held, well formed, and of the run's capacity.
    pub open spec fn params_held(self) -> bool {
        self.spec_params() matches Some(p) && p.wf() && p.spec_capacity() == self.spec_capacity()
    }

    /// A key record is held and bound to the run's capacity and shape.
    pub open spec fn keys_held(self) -> bool {
        self.spec_keys() matches Some(h) && spec_key_matches(
            h,
            self.spec_capacity(),
            self.spec_shape(),
        )
    }

    /// What holds of every reachable run state: the capacity is
    /// constructible; parameters, once held, are well formed and of the
    /// run's capacity; keys, once recorded, are bound to the run's
    /// capacity and shape; proving is only reached on an admissible
    /// capacity; and a failure is recorded exactly when the run failed.
    pub open spec fn inv(self) -> bool {
        &&& self.spec_capacity() < 32
        &&& match self.spec_stage() {
            Stage::AwaitParams => self.spec_params() is None && self.spec_keys() is None
                && self.spec_failure() is None,
            Stage::AwaitKeys => self.params_held() && self.spec_keys() is None
                && self.spec_failure() is None,
            Stage::AwaitProof => self.params_held() && self.keys_held()
                && self.spec_failure() is None,
            Stage::AwaitProofWrite => self.params_held() && self.keys_held()
                && self.spec_failure() is None,
            Stage::Done => self.params_held() && self.keys_held() && self.spec_failure() is None,
            Stage::Failed => self.spec_failure() is Some,
        }
    }

    /// Starts a run for capacity `k` and the given shape. A capacity for
    /// which no parameters can be constructed is refused at once.
    pub fn new(k: u32, shape: CircuitShape) -> (r: Result<Runner, BenchError>)
        ensures
            if k < 32 {
                r matches Ok(run) && run.inv() && run.spec_stage() == Stage::AwaitParams
                    && run.spec_capacity() == k && run.spec_shape() == shape
            } else {
                r matches Err(e) && e == BenchError::CapacityTooLarge
            },
    {
        if k >= 32 {
            return Err(BenchError::CapacityTooLarge);
        }
        Ok(
            Runner {
                capacity: k,
                shape,
                stage: Stage::AwaitParams,
                params: None,
                keys: None,
                failure: None,
            },
        )
    }

    /// The name under which this run's parameters are cached. It depends
    /// on the capacity alone: parameters are reusable across shapes.
    pub fn cache_name(&self) -> (s: String)
        ensures
            s@ == spec_params_cache_name(self.spec_capacity()),
    {
        params_cache_name(self.capacity)
    }

    /// The name under which this run's proof is persisted.
    pub fn proof_name(&self) -> (s: String)
        ensures
            s@ == spec_proof_file_name(self.spec_capacity(), self.spec_shape().repetition_count),
    {
        proof_file_name(self.capacity, self.shape.repetition_count)
    }

    /// The populated circuit this run proves.
    pub fn circuit(&self) -> (c: PopulatedCircuit)
        ensures
            c.wf(),
            c.shape == self.spec_shape(),
    {
        self.shape.populate()
    }

    /// The stage the run stands at.
    pub fn stage(&self) -> (s: Stage)
        ensures
            s == self.spec_stage(),
    {
        self.stage
    }

    /// The error that ended the run, if it failed.
    pub fn failure(&self) -> (f: Option<BenchError>)
        ensures
            f == self.spec_failure(),
    {
        self.failure
    }

    /// The held parameters, for the driver to hand to derivation and
    /// proving.
    pub fn params_ref(&self) -> (p: &Option<SetupParameters>)
        ensures
            *p == self.spec_params(),
    {
        &self.params
    }

    /// The held key record, once derivation succeeded.
    pub fn keys(&self) -> (h: Option<KeyHandle>)
        ensures
            h == self.spec_keys(),
    {
        self.keys
    }

    /// Feeds in the cached parameter blob, or `None` on a cache miss. On a
    /// miss the parameters are generated and their serialization is
    /// returned for the driver to persist under the cache name; a valid
    /// blob is decoded with nothing to write back; an invalid blob fails
    /// the run as corruption rather than being silently regenerated.
    pub fn provide_cache(&mut self, cached: Option<Vec<u8>>) -> (r: Result<Option<Vec<u8>>, BenchError>)
        requires
            old(self).inv(),
        ensures
            final(self).inv(),
            final(self).spec_capacity() == old(self).spec_capacity(),
            final(self).spec_shape() == old(self).spec_shape(),
            old(self).spec_stage() != Stage::AwaitParams ==> *final(self) == *old(self) && (
            r matches Err(e) && e == BenchError::OutOfOrder),
            old(self).spec_stage() == Stage::AwaitParams ==> (cached matches Some(b) ==> (
            spec_cache_blob_valid(old(self).spec_capacity(), b@) ==> ((r matches Ok(wb)
                && wb is None) && final(self).spec_stage() == Stage::AwaitKeys && (
            final(self).spec_params() matches Some(p) && p.spec_encoding() == b@)))),
            old(self).spec_stage() == Stage::AwaitParams ==> (cached matches Some(b) ==> (
            !spec_cache_blob_valid(old(self).spec_capacity(), b@) ==> ((r matches Err(e)
                && e == BenchError::CorruptParams) && final(self).spec_stage() == Stage::Failed
                && final(self).spec_failure() == Some(BenchError::CorruptParams)))),
            old(self).spec_stage() == Stage::AwaitParams && cached is None ==> (r matches Ok(wb)
                && wb matches Some(out) && (final(self).spec_params() matches Some(p) && out@
                == p.spec_encoding())) && final(self).spec_stage() == Stage::AwaitKeys,
    {
        if !(self.stage == Stage::AwaitParams) {
            return Err(BenchError::OutOfOrder);
        }
        match acquire(self.capacity, cached) {
            Ok((p, wb)) => {
                self.params = Some(p);
                self.stage = Stage::AwaitKeys;
                Ok(wb)
            },
            Err(e) => {
                self.stage = Stage::Failed;
                self.failure = Some(e);
                Err(e)
            },
        }
    }

    /// Records the outcome of key derivation, which the driver performs
    /// from the witness-free shape against the held parameters. A reported
    /// failure is fatal and is classified: a capacity the hash gadget's
    /// lookup table cannot fit is the capacity invariant violated, any
    /// other failure is the derivation's own. Either way the run ends
    /// before any proving work begins.
    pub fn note_keys(&mut self, derived: bool) -> (r: Result<(), BenchError>)
        requires
            old(self).inv(),
        ensures
            final(self).inv(),
            final(self).spec_capacity() == old(self).spec_capacity(),
            final(self).spec_shape() == old(self).spec_shape(),
            old(self).spec_stage() != Stage::AwaitKeys ==> *final(self) == *old(self) && (
            r matches Err(e) && e == BenchError::OutOfOrder),
            old(self).spec_stage() == Stage::AwaitKeys && derived ==> r is Ok
                && final(self).spec_stage() == Stage::AwaitProof && (
            final(self).spec_keys() matches Some(h) && h.capacity == old(self).spec_capacity()
                && h.repetition_count == old(self).spec_shape().repetition_count),
            old(self).spec_stage() == Stage::AwaitKeys && !derived && old(self).spec_capacity()
                < MIN_CAPACITY ==> (r matches Err(e) && e == BenchError::CapacityTooSmall)
                && final(self).spec_stage() == Stage::Failed && final(self).spec_failure()
                == Some(BenchError::CapacityTooSmall),
            old(self).spec_stage() == Stage::AwaitKeys && !derived && old(self).spec_capacity()
                >= MIN_CAPACITY ==> (r matches Err(e) && e == BenchError::KeygenFailed)
                && final(self).spec_stage() == Stage::Failed && final(self).spec_failure()
                == Some(BenchError::KeygenFailed),
    {
        if !(self.stage == Stage::AwaitKeys) {
            return Err(BenchError::OutOfOrder);
        }
        if derived {
            self.keys = Some(
                KeyHandle {
                    capacity: self.capacity,
                    repetition_count: self.shape.repetition_count,
                },
            );
            self.stage = Stage::AwaitProof;
            Ok(())
        } else {
            let e = if self.capacity < MIN_CAPACITY {
                BenchError::CapacityTooSmall
            } else {
                BenchError::KeygenFailed
            };
            self.stage = Stage::Failed;
            self.failure = Some(e);
            Err(e)
        }
    }

    /// Feeds in the proof bytes the driver obtained from the proving
    /// algorithm, or `None` if proving failed. A present, non-empty proof
    /// is returned together with the file name to persist it under; an
    /// absent or empty one fails the run. Fresh blinding randomness makes
    /// the bytes differ from run to run, so nothing beyond this is claimed
    /// of them.
    pub fn provide_proof(&mut self, proof_bytes: Option<Vec<u8>>) -> (r: Result<(String, Vec<u8>), BenchError>)
        requires
            old(self).inv(),
        ensures
            final(self).inv(),
            final(self).spec_capacity() == old(self).spec_capacity(),
            final(self).spec_shape() == old(self).spec_shape(),
            old(self).spec_stage() != Stage::AwaitProof ==> *final(self) == *old(self) && (
            r matches Err(e) && e == BenchError::OutOfOrder),
            old(self).spec_stage() == Stage::AwaitProof ==> (proof_bytes matches Some(b) ==> (
            b@.len() > 0 ==> ((r matches Ok(out) && out.0@ == spec_proof_file_name(
                old(self).spec_capacity(),
                old(self).spec_shape().repetition_count,
            ) && out.1@ == b@) && final(self).spec_stage() == Stage::AwaitProofWrite))),
            old(self).spec_stage() == Stage::AwaitProof && proof_bytes is None ==> (r matches Err(e)
                && e == BenchError::ProvingFailed) && final(self).spec_stage() == Stage::Failed
                && final(self).spec_failure() == Some(BenchError::ProvingFailed),
            old(self).spec_stage() == Stage::AwaitProof ==> (proof_bytes matches Some(b) ==> (
            b@.len() == 0 ==> ((r matches Err(e) && e == BenchError::ProvingFailed)
                && final(self).spec_stage() == Stage::Failed
                && final(self).spec_failure() == Some(BenchError::ProvingFailed)))),
    {
        if !(self.stage == Stage::AwaitProof) {
            return Err(BenchError::OutOfOrder);
        }
        match proof_bytes {
            Some(b) => {
                if b.len() == 0 {
                    self.stage = Stage::Failed;
                    self.failure = Some(BenchError::ProvingFailed);
                    Err(BenchError::ProvingFailed)
                } else {
                    let name = proof_file_name(self.capacity, self.shape.repetition_count);
                    self.stage = Stage::AwaitProofWrite;
                    Ok((name, b))
                }
            },
            None => {
                self.stage = Stage::Failed;
                self.failure = Some(BenchError::ProvingFailed);
                Err(BenchError::ProvingFailed)
            },
        }
    }

    /// Records the outcome of persisting the proof artifact: success
    /// completes the run, failure to write is fatal.
    pub fn note_write(&mut self, wrote: bool) -> (r: Result<(), BenchError>)
        requires
            old(self).inv(),
        ensures
            final(self).inv(),
            final(self).spec_capacity() == old(self).spec_capacity(),
            final(self).spec_shape() == old(self).spec_shape(),
            old(self).spec_stage() != Stage::AwaitProofWrite ==> *final(self) == *old(self) && (
            r matches Err(e) && e == BenchError::OutOfOrder),
            old(self).spec_stage() == Stage::AwaitProofWrite && wrote ==> r is Ok
                && final(self).spec_stage() == Stage::Done
                && final(self).spec_keys() == old(self).spec_keys(),
            old(self).spec_stage() == Stage::AwaitProofWrite && !wrote ==> (r matches Err(e)
                && e == BenchError::WriteFailed) && final(self).spec_stage() == Stage::Failed
                && final(self).spec_failure() == Some(BenchError::WriteFailed),
    {
        if !(self.stage == Stage::AwaitProofWrite) {
            return Err(BenchError::OutOfOrder);
        }
        if wrote {
            self.stage = Stage::Done;
            Ok(())
        } else {
            self.stage = Stage::Failed;
            self.failure = Some(BenchError::WriteFailed);
            Err(BenchError::WriteFailed)
        }
    }

    /// Law: a completed run holds well-formed parameters of its capacity
    /// and a key record bound to its capacity and shape — the proof that
    /// was persisted was built from keys derived for exactly the shape
    /// that was proved.
    pub proof fn lemma_done_is_consistent(self)
        requires
            self.inv(),
            self.spec_stage() == Stage::Done,
        ensures
            self.params_held(),
            self.keys_held(),
    {
    }
}

} // verus!
