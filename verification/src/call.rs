//! A call as it is put into an extrinsic, and the data signed with it.

use crate::address::PublicKey;
use crate::model::error::{Cause, Error};
use crate::params::{additional_bytes, build_additional, build_extra, extra_bytes, IMMORTAL_ERA};
use crate::payload::{make_signing_payload, signing_payload};
use vstd::prelude::*;

verus! {

/// What the chain's metadata holds for a pallet: its index, and the type of
/// its calls where it has any.
#[derive(Clone, Copy, Debug)]
pub struct PalletEntry {
    pub index: u8,
    pub calls: Option<u32>,
}

/// The arguments of a call.
#[derive(Clone, Copy, Debug)]
pub enum CallArgs {
    /// Move `value` to the account `dest`.
    Transfer { dest: PublicKey, value: u128 },
}

/// A call resolved against the chain's metadata, ready to be encoded.
#[derive(Clone, Copy, Debug)]
pub struct CallDescriptor {
    pub pallet_index: u8,
    pub call_type_id: u32,
    pub args: CallArgs,
}

/// The bytes of a call: the index of its pallet, then its encoded arguments.
pub open spec fn call_bytes(pallet_index: u8, call_data: Seq<u8>) -> Seq<u8> {
    seq![pallet_index] + call_data
}

/// The index of a pallet and the type of its calls, as the metadata gives
/// them.
pub open spec fn resolved(pallet: Option<PalletEntry>) -> Option<(u8, u32)> {
    match pallet {
        Some(entry) => match entry.calls {
            Some(call_type_id) => Some((entry.index, call_type_id)),
            None => None,
        },
        None => None,
    }
}

/// The error that a pallet without a call type is refused with.
pub open spec fn resolution_refused(pallet: Option<PalletEntry>, error: Error) -> bool {
    &&& error matches Error::Schema(cause)
    &&& cause@ == (if pallet is None {
        "pallet does not exist"@
    } else {
        "pallet does not have calls"@
    })
}

/// Resolves a call against what the metadata holds for its pallet. A missing
/// pallet, or one without calls, is a schema error.
pub fn resolve_call(pallet: Option<PalletEntry>) -> (res: Result<(u8, u32), Error>)
    ensures
        match res {
            Ok(found) => resolved(pallet) == Some(found),
            Err(error) => resolved(pallet) is None && resolution_refused(pallet, error),
        },
{
    match pallet {
        None => Err(Error::Schema(Cause::from("pallet does not exist"))),
        Some(entry) => match entry.calls {
            None => Err(Error::Schema(Cause::from("pallet does not have calls"))),
            Some(call_type_id) => Ok((entry.index, call_type_id)),
        },
    }
}

/// Puts the index of the pallet in front of the encoded arguments of a call.
pub fn construct_transfer_call(pallet_index: u8, call_data: &[u8]) -> (out: Vec<u8>)
    ensures
        out@ == call_bytes(pallet_index, call_data@),
{
    let mut out: Vec<u8> = Vec::new();
    out.push(pallet_index);
    out.extend_from_slice(call_data);
    assert(out@ =~= call_bytes(pallet_index, call_data@));
    out
}

/// Builds the extra data and the signing payload of a call that never
/// expires and carries no tip. The genesis reference also stands for the
/// fork reference.
pub fn construct_extrinsic_data(
    call_data: &[u8],
    nonce: u64,
    spec_version: u32,
    transaction_version: u32,
    genesis: &[u8],
) -> (out: (Vec<u8>, Vec<u8>))
    ensures
        out.0@ == extra_bytes(IMMORTAL_ERA, nonce as nat, 0),
        out.1@ == signing_payload(
            call_data@,
            out.0@,
            additional_bytes(spec_version, transaction_version, genesis@, genesis@),
        ),
{
    let extra = build_extra(IMMORTAL_ERA, nonce, 0);
    let additional = build_additional(spec_version, transaction_version, genesis, genesis);
    let payload = make_signing_payload(call_data, extra.as_slice(), additional.as_slice());
    (extra, payload)
}

} // verus!
