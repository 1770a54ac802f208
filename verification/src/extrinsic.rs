//! The bytes of a signed extrinsic as they are sent to a node.

use crate::address::PublicKey;
use crate::model::error::{Cause, Error};
use crate::compact::{
    compact_decoding, compact_encoding, compact_size, encode_compact, lemma_compact_round_trip,
    lemma_compact_size,
};
use vstd::prelude::*;

verus! {

/// The version of the extrinsic format.
pub const PROTOCOL_VERSION: u8 = 4;

/// The bit of the header byte that marks an extrinsic as signed.
pub const SIGNED_BIT: u8 = 0b1000_0000;

/// The byte that says that the signer is given by its raw public key.
pub const SIGNER_ID_TAG: u8 = 0x00;

/// The byte that says that the signature is an sr25519 one.
pub const SIGNATURE_TAG: u8 = 0x01;

/// The number of bytes before the signature: header, signer tag, public key
/// and signature tag.
pub const PREAMBLE_LEN: usize = 35;

/// An extrinsic without its length prefix: the header byte, the signer, the
/// signature, the extra data and the call.
pub open spec fn extrinsic_inner(
    public_key: Seq<u8>,
    signature: Seq<u8>,
    extra: Seq<u8>,
    call: Seq<u8>,
) -> Seq<u8> {
    seq![(SIGNED_BIT + PROTOCOL_VERSION) as u8, SIGNER_ID_TAG] + public_key + seq![SIGNATURE_TAG]
        + signature + extra + call
}

/// A whole extrinsic: the compact length of the inner bytes, then the inner
/// bytes.
pub open spec fn extrinsic_bytes(
    public_key: Seq<u8>,
    signature: Seq<u8>,
    extra: Seq<u8>,
    call: Seq<u8>,
) -> Seq<u8> {
    let inner = extrinsic_inner(public_key, signature, extra, call);
    compact_encoding(inner.len()) + inner
}

/// Whether an extrinsic with parts of these lengths stays below 2^32 inner
/// bytes.
pub open spec fn extrinsic_fits(signature: nat, extra: nat, call: nat) -> bool {
    PREAMBLE_LEN + signature + extra + call <= u32::MAX
}

/// Lays out a signed extrinsic and puts its length in front.
///
/// The inner bytes must number less than 2^32.
pub fn assemble(public_key: &PublicKey, signature: &[u8], extra_bytes: &[u8], call_bytes: &[u8]) -> (out:
    Vec<u8>)
    requires
        extrinsic_fits(signature@.len(), extra_bytes@.len(), call_bytes@.len()),
    ensures
        out@ == extrinsic_bytes(public_key@, signature@, extra_bytes@, call_bytes@),
        compact_decoding(out@) == Some(
            extrinsic_inner(public_key@, signature@, extra_bytes@, call_bytes@).len() as u128,
        ),
        out@.len() == extrinsic_inner(public_key@, signature@, extra_bytes@, call_bytes@).len()
            + compact_size(
            extrinsic_inner(public_key@, signature@, extra_bytes@, call_bytes@).len(),
        ),
{
    proof {
        lemma_length_prefix(public_key@, signature@, extra_bytes@, call_bytes@);
    }
    let mut inner: Vec<u8> = Vec::new();
    inner.push(SIGNED_BIT + PROTOCOL_VERSION);
    inner.push(SIGNER_ID_TAG);
    inner.extend_from_slice(public_key.as_bytes());
    inner.push(SIGNATURE_TAG);
    inner.extend_from_slice(signature);
    inner.extend_from_slice(extra_bytes);
    inner.extend_from_slice(call_bytes);
    assert(inner@ =~= extrinsic_inner(public_key@, signature@, extra_bytes@, call_bytes@));
    let mut out = encode_compact(inner.len() as u128);
    out.append(&mut inner);
    out
}

/// The error that an extrinsic of 2^32 inner bytes or more is refused with.
pub open spec fn size_refused(error: Error) -> bool {
    error matches Error::Codec(cause) && cause@ == "extrinsic size expected to be <4GB"@
}

/// Lays out a signed extrinsic as `assemble` does, where it stays below 2^32
/// inner bytes; a longer one is a codec error.
pub fn assemble_checked(
    public_key: &PublicKey,
    signature: &[u8],
    extra_bytes: &[u8],
    call_bytes: &[u8],
) -> (res: Result<Vec<u8>, Error>)
    ensures
        match res {
            Ok(out) => {
                &&& extrinsic_fits(signature@.len(), extra_bytes@.len(), call_bytes@.len())
                &&& out@ == extrinsic_bytes(public_key@, signature@, extra_bytes@, call_bytes@)
            },
            Err(error) => {
                &&& !extrinsic_fits(signature@.len(), extra_bytes@.len(), call_bytes@.len())
                &&& size_refused(error)
            },
        },
{
    let inner_len = PREAMBLE_LEN as u128 + signature.len() as u128 + extra_bytes.len() as u128
        + call_bytes.len() as u128;
    if inner_len <= u32::MAX as u128 {
        Ok(assemble(public_key, signature, extra_bytes, call_bytes))
    } else {
        Err(Error::Codec(Cause::from("extrinsic size expected to be <4GB")))
    }
}

/// The length prefix of an extrinsic decodes to the number of bytes that
/// follow it, and the whole is as long as the prefix and those bytes
/// together.
pub proof fn lemma_length_prefix(
    public_key: Seq<u8>,
    signature: Seq<u8>,
    extra: Seq<u8>,
    call: Seq<u8>,
)
    requires
        extrinsic_inner(public_key, signature, extra, call).len() <= u128::MAX,
    ensures
        ({
            let inner = extrinsic_inner(public_key, signature, extra, call);
            let whole = extrinsic_bytes(public_key, signature, extra, call);
            &&& compact_decoding(whole) == Some(inner.len() as u128)
            &&& whole.len() == inner.len() + compact_size(inner.len())
            &&& whole.skip(compact_size(inner.len()) as int) == inner
        }),
{
    let inner = extrinsic_inner(public_key, signature, extra, call);
    lemma_compact_round_trip(inner.len() as u128, inner);
    lemma_compact_size(inner.len());
    let whole = extrinsic_bytes(public_key, signature, extra, call);
    assert(whole.skip(compact_size(inner.len()) as int) =~= inner);
}

} // verus!
