//! The bytes that a signature covers.
//!
//! A signing payload is the call, the extra data and the additional data, in
//! that order. A payload of more than 256 bytes is replaced by its 32-byte
//! digest before it is signed.

use sp_core::Hasher;
use vstd::prelude::*;

verus! {

/// The longest payload that is signed as it is.
pub const HASH_THRESHOLD: usize = 256;

/// The length of a digest.
pub const DIGEST_LEN: usize = 32;

/// The BLAKE2b digest of `data`, 256 bits long.
pub uninterp spec fn blake2_256_digest(data: Seq<u8>) -> Seq<u8>;

/// The signing payload of a call with its extra and additional data.
pub open spec fn signing_payload(call: Seq<u8>, extra: Seq<u8>, additional: Seq<u8>) -> Seq<u8> {
    call + extra + additional
}

/// What is handed to the signer for `payload`.
pub open spec fn signer_input(payload: Seq<u8>) -> Seq<u8> {
    if payload.len() > HASH_THRESHOLD {
        blake2_256_digest(payload)
    } else {
        payload
    }
}

/// Calls `Blake2Hasher::hash` of sp_core, which hashes with BLAKE2b to 32
/// bytes. Trusted: the digest is a function of the data alone, and it is 32
/// bytes long.
#[verifier::external_body]
fn blake2_256(data: &[u8]) -> (digest: Vec<u8>)
    ensures
        digest@ == blake2_256_digest(data@),
        digest@.len() == DIGEST_LEN,
{
    sp_core::Blake2Hasher::hash(data).0.to_vec()
}

/// Joins the call, the extra data and the additional data into the payload
/// to sign.
pub fn make_signing_payload(call_bytes: &[u8], extra_bytes: &[u8], additional_bytes: &[u8]) -> (out:
    Vec<u8>)
    ensures
        out@ == signing_payload(call_bytes@, extra_bytes@, additional_bytes@),
{
    let mut out: Vec<u8> = Vec::new();
    out.extend_from_slice(call_bytes);
    out.extend_from_slice(extra_bytes);
    out.extend_from_slice(additional_bytes);
    assert(out@ =~= signing_payload(call_bytes@, extra_bytes@, additional_bytes@));
    out
}

/// Gives what the signer is to sign: the payload itself while it has at most
/// 256 bytes, its digest beyond that.
pub fn prepare_for_signing(payload: &[u8]) -> (out: Vec<u8>)
    ensures
        out@ == signer_input(payload@),
        payload@.len() <= HASH_THRESHOLD ==> out@ == payload@,
        payload@.len() > HASH_THRESHOLD ==> out@.len() == DIGEST_LEN,
{
    if payload.len() > HASH_THRESHOLD {
        blake2_256(payload)
    } else {
        vstd::slice::slice_to_vec(payload)
    }
}

} // verus!
