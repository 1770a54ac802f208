//! The two groups of data that are signed along with a call: the "extra"
//! data, which travel with the extrinsic, and the "additional" data, which
//! only enter the signature.

use crate::compact::{compact_encoding, encode_compact, le_bytes, le_encode};
use vstd::prelude::*;

verus! {

/// The era byte of an extrinsic that never expires.
pub const IMMORTAL_ERA: u8 = 0;

/// The extra data: the era byte, then the nonce and the tip, each compact.
pub open spec fn extra_bytes(era: u8, nonce: nat, tip: nat) -> Seq<u8> {
    seq![era] + compact_encoding(nonce) + compact_encoding(tip)
}

/// The additional data: both versions as four little-endian bytes each, then
/// the genesis reference and the fork reference.
pub open spec fn additional_bytes(
    spec_version: u32,
    transaction_version: u32,
    genesis_ref: Seq<u8>,
    fork_ref: Seq<u8>,
) -> Seq<u8> {
    le_bytes(spec_version as nat, 4) + le_bytes(transaction_version as nat, 4) + genesis_ref
        + fork_ref
}

/// Builds the extra data of an extrinsic.
pub fn build_extra(era: u8, nonce: u64, tip: u128) -> (out: Vec<u8>)
    ensures
        out@ == extra_bytes(era, nonce as nat, tip as nat),
{
    let mut out: Vec<u8> = Vec::new();
    out.push(era);
    let mut nonce_bytes = encode_compact(nonce as u128);
    let mut tip_bytes = encode_compact(tip);
    out.append(&mut nonce_bytes);
    out.append(&mut tip_bytes);
    assert(out@ =~= extra_bytes(era, nonce as nat, tip as nat));
    out
}

/// Builds the additional signed data of an extrinsic.
pub fn build_additional(
    spec_version: u32,
    transaction_version: u32,
    genesis_ref: &[u8],
    fork_ref: &[u8],
) -> (out: Vec<u8>)
    ensures
        out@ == additional_bytes(spec_version, transaction_version, genesis_ref@, fork_ref@),
{
    let mut out = le_encode(spec_version as u128, 4);
    let mut version_bytes = le_encode(transaction_version as u128, 4);
    out.append(&mut version_bytes);
    out.extend_from_slice(genesis_ref);
    out.extend_from_slice(fork_ref);
    assert(out@ =~= additional_bytes(
        spec_version,
        transaction_version,
        genesis_ref@,
        fork_ref@,
    ));
    out
}

} // verus!
