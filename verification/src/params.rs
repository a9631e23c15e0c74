//! Acquisition and caching of the public setup parameters. Parameters are
//! sized by a capacity exponent `k` (the circuit may use up to `2^k` rows),
//! are immutable once generated, and are expensive to regenerate, so they
//! are cached under a name derived from `k` alone. A cached entry that does
//! not decode, or that records a different capacity, is corruption and
//! fails the run rather than being silently regenerated.

use vstd::prelude::*;
use crate::errors::BenchError;
use halo2_proofs::poly::commitment::Params;
use pasta_curves::EqAffine;

verus! {

/// The raw setup parameters of the underlying proving library, opaque to
/// verification (declaring the library's generic parameter type is refused,
/// since its generic bound is an outside trait). The field is public so
/// that the unverified driver can hand it to key derivation and proving.
#[verifier::external_body]
pub struct RawParams {
    pub inner: Params<EqAffine>,
}

/// Whether `bytes` is a serialization of setup parameters, exactly as the
/// underlying library's writer emits it and its reader accepts it.
pub uninterp spec fn is_params_encoding(bytes: Seq<u8>) -> bool;

/// The serialization of the parameters that generation produces for
/// capacity `k`: generation draws its points from a fixed oracle and
/// consumes no entropy, so the bytes are a function of `k` alone.
pub uninterp spec fn spec_generated_encoding(k: u32) -> Seq<u8>;

/// The unsigned value of four little-endian bytes.
pub open spec fn spec_le32(b0: u8, b1: u8, b2: u8, b3: u8) -> int {
    b0 + 256 * b1 + 65536 * b2 + 16777216 * b3
}

/// Relies on halo2's `Params::new` and `Params::write`. `new` builds the
/// parameters of capacity `k` deterministically, drawing the commitment
/// bases from a fixed hash-to-curve oracle (it consumes no entropy), and
/// asserts `k < 32`. `write` serializes the value it just built — the
/// capacity as four little-endian bytes, then the point encodings, which
/// `Params::read` accepts back — and writing into a `Vec` cannot fail.
/// The two calls stand in one wrapper because the serialization is stated
/// only for the freshly generated value it is paired with.
#[verifier::external_body]
fn raw_generate(k: u32) -> (r: (RawParams, Vec<u8>))
    requires
        k < 32,
    ensures
        r.1@ == spec_generated_encoding(k),
        is_params_encoding(r.1@),
        r.1@.len() >= 4,
        spec_le32(r.1@[0], r.1@[1], r.1@[2], r.1@[3]) == k as int,
{
    let inner: Params<EqAffine> = Params::new(k);
    let mut buf: Vec<u8> = Vec::new();
    inner.write(&mut buf).expect("writing to a Vec cannot fail");
    (RawParams { inner }, buf)
}

/// Relies on halo2's `Params::read`: it accepts exactly the serializations
/// that `Params::write` emits — the parameters it returns are the ones the
/// bytes encode, with the four-byte little-endian capacity prefix as their
/// capacity — and fails on anything else. `read` stops at the serialization's
/// end, so bytes it leaves unconsumed are not part of any serialization and
/// make the blob invalid. The prefix must be below 32 so that the row-count
/// computation stays in range.
#[verifier::external_body]
fn raw_from_bytes(bytes: &Vec<u8>) -> (r: Option<RawParams>)
    requires
        bytes@.len() >= 4,
        spec_le32(bytes@[0], bytes@[1], bytes@[2], bytes@[3]) < 32,
    ensures
        r is Some <==> is_params_encoding(bytes@),
{
    let mut rest: &[u8] = &bytes[..];
    match Params::<EqAffine>::read(&mut rest) {
        Ok(inner) if rest.is_empty() => Some(RawParams { inner }),
        _ => None,
    }
}

/// The public setup parameters, together with the capacity exponent they
/// were built for and, as a model, their byte serialization.
pub struct SetupParameters {
    inner: RawParams,
    capacity: u32,
    encoding: Ghost<Seq<u8>>,
}

impl SetupParameters {
    /// The capacity exponent the parameters were built for.
    pub closed spec fn spec_capacity(self) -> u32 {
        self.capacity
    }

    /// The byte serialization of the held parameters.
    pub closed spec fn spec_encoding(self) -> Seq<u8> {
        self.encoding@
    }

    /// The serialization decodes back to these parameters, opens with the
    /// capacity as four little-endian bytes, and the capacity is in the
    /// range the underlying library can construct.
    pub open spec fn wf(self) -> bool {
        &&& is_params_encoding(self.spec_encoding())
        &&& self.spec_encoding().len() >= 4
        &&& spec_le32(
            self.spec_encoding()[0],
            self.spec_encoding()[1],
            self.spec_encoding()[2],
            self.spec_encoding()[3],
        ) == self.spec_capacity() as int
        &&& self.spec_capacity() < 32
    }

    /// The capacity exponent.
    pub fn capacity(&self) -> (k: u32)
        ensures
            k == self.spec_capacity(),
    {
        self.capacity
    }

    /// The underlying parameters, for the key-derivation and proving calls
    /// that are driven outside this crate.
    pub fn raw(&self) -> &RawParams {
        &self.inner
    }
}

/// Relies on halo2's `Params::write`, as `raw_generate` does: it emits the
/// serialization of the held parameters. Both constructors record as the
/// model exactly that serialization — `raw_generate` pairs the value with
/// the bytes it just wrote, and the decoding path records the accepted
/// bytes, which re-serialize to themselves since the point encodings are
/// canonical — so the call returns the recorded model.
#[verifier::external_body]
fn raw_encode(p: &SetupParameters) -> (r: Vec<u8>)
    ensures
        r@ == p.spec_encoding(),
{
    let mut buf: Vec<u8> = Vec::new();
    p.inner.inner.write(&mut buf).expect("writing to a Vec cannot fail");
    buf
}

impl SetupParameters {
    /// The serialization of the parameters: byte-identical to the cached
    /// form.
    pub fn to_cache_blob(&self) -> (r: Vec<u8>)
        ensures
            r@ == self.spec_encoding(),
    {
        raw_encode(self)
    }
}

/// A cache entry for capacity `k` must open with `k` itself as four
/// little-endian bytes and must be a parameter serialization.
pub open spec fn spec_cache_blob_valid(k: u32, b: Seq<u8>) -> bool {
    &&& b.len() >= 4
    &&& spec_le32(b[0], b[1], b[2], b[3]) == k as int
    &&& is_params_encoding(b)
}

/// Acquires the setup parameters of capacity `k`. A valid cached blob is
/// decoded and returned with nothing to write back; with no cached blob
/// the parameters are generated and returned together with their
/// serialization, which the caller persists under the cache name. A cached
/// blob that is not a valid capacity-`k` entry fails the run as corruption.
pub fn acquire(k: u32, cached: Option<Vec<u8>>) -> (r: Result<
    (SetupParameters, Option<Vec<u8>>),
    BenchError,
>)
    requires
        k < 32,
    ensures
        match cached {
            Some(b) => {
                if spec_cache_blob_valid(k, b@) {
                    r matches Ok(pr) && pr.0.wf() && pr.0.spec_capacity() == k
                        && pr.0.spec_encoding() == b@ && pr.1 is None
                } else {
                    r matches Err(e) && e == BenchError::CorruptParams
                }
            },
            None => r matches Ok(pr) && pr.0.wf() && pr.0.spec_capacity() == k
                && pr.0.spec_encoding() == spec_generated_encoding(k) && (
            pr.1 matches Some(out) && out@ == pr.0.spec_encoding()),
        },
{
    match cached {
        None => {
            let (inner, blob) = raw_generate(k);
            let p = SetupParameters { inner, capacity: k, encoding: Ghost(blob@) };
            Ok((p, Some(blob)))
        },
        Some(b) => {
            if b.len() < 4 {
                return Err(BenchError::CorruptParams);
            }
            let b0 = b[0];
            let b1 = b[1];
            let b2 = b[2];
            let b3 = b[3];
            proof {
                assert(k as u8 as int == k as int) by (bit_vector)
                    requires
                        k < 32,
                ;
            }
            if !(b0 == k as u8 && b1 == 0 && b2 == 0 && b3 == 0) {
                return Err(BenchError::CorruptParams);
            }
            match raw_from_bytes(&b) {
                Some(inner) => {
                    let p = SetupParameters { inner, capacity: k, encoding: Ghost(b@) };
                    Ok((p, None))
                },
                None => Err(BenchError::CorruptParams),
            }
        },
    }
}

/// Law: the blob a cache miss writes back is a valid cache entry for the
/// same capacity. Together with the contract of `acquire`, a second
/// `acquire` of the same capacity fed that blob therefore succeeds, returns
/// parameters with a byte-identical encoding, and writes nothing back.
pub proof fn lemma_acquire_round_trip(k: u32, p: SetupParameters)
    requires
        p.wf(),
        p.spec_capacity() == k,
    ensures
        spec_cache_blob_valid(k, p.spec_encoding()),
{
}

} // verus!
