//! The facts that a chain reports in JSON, and the numbers read from them.

use crate::model::error::{Cause, Error};
use vstd::prelude::*;

verus! {

/// What a JSON value holds under a key, as far as a number is looked for.
#[derive(Clone, Copy, Debug)]
pub enum JsonNumber {
    /// The value is no object, or the object lacks the key.
    Missing,
    /// The member is there, but it is no integer from 0 to 2^64 - 1.
    NotNumber,
    /// The member is this number.
    Number(u64),
}

/// What the JSON text `text` holds under `key`; `None` where `text` is no
/// JSON.
pub uninterp spec fn json_number(text: Seq<char>, key: Seq<char>) -> Option<JsonNumber>;

/// The nonce that an account's state gives: the number under `nonce`, and 0
/// for an account that has none yet.
pub open spec fn nonce_of(field: JsonNumber) -> Option<u64> {
    match field {
        JsonNumber::Missing => Some(0),
        JsonNumber::NotNumber => None,
        JsonNumber::Number(nonce) => Some(nonce),
    }
}

/// The nonce that the JSON text of an account's state gives.
pub open spec fn account_nonce_of(account_info: Seq<char>) -> Option<u64> {
    match json_number(account_info, "nonce"@) {
        Some(field) => nonce_of(field),
        None => None,
    }
}

/// The error that an account's state without a readable nonce is refused
/// with.
pub open spec fn nonce_refused(account_info: Seq<char>, error: Error) -> bool {
    match json_number(account_info, "nonce"@) {
        Some(_) => error matches Error::Codec(cause) && cause@ == "nonce not a Number"@,
        None => error is Codec,
    }
}

/// The version that a number stands for: its low 32 bits.
pub open spec fn version_of(field: JsonNumber) -> Option<u32> {
    match field {
        JsonNumber::Number(version) => Some((version % 0x1_0000_0000) as u32),
        _ => None,
    }
}

/// The error that a field without a version is refused with: a schema error
/// where the member is missing, a codec error where it is no number.
pub open spec fn version_refused(
    field: JsonNumber,
    missing: Seq<char>,
    not_number: Seq<char>,
    error: Error,
) -> bool {
    match field {
        JsonNumber::Missing => error matches Error::Schema(cause) && cause@ == missing,
        JsonNumber::NotNumber => error matches Error::Codec(cause) && cause@ == not_number,
        JsonNumber::Number(_) => false,
    }
}

/// The error that a runtime version without its two versions is refused
/// with. The spec version is looked at first.
pub open spec fn runtime_versions_refused(runtime_version: Seq<char>, error: Error) -> bool {
    match json_number(runtime_version, "spec_version"@) {
        None => error is Codec,
        Some(spec_field) => if version_of(spec_field) is None {
            version_refused(
                spec_field,
                "spec_version not found"@,
                "spec_version not a Number"@,
                error,
            )
        } else {
            match json_number(runtime_version, "transaction_version"@) {
                None => error is Codec,
                Some(transaction_field) => version_refused(
                    transaction_field,
                    "transaction_version not found"@,
                    "transaction_version not a Number"@,
                    error,
                ),
            }
        },
    }
}

/// The spec version and the transaction version that the JSON text of a
/// runtime version gives.
pub open spec fn runtime_versions_of(runtime_version: Seq<char>) -> Option<(u32, u32)> {
    match (
        json_number(runtime_version, "spec_version"@),
        json_number(runtime_version, "transaction_version"@),
    ) {
        (Some(spec_field), Some(transaction_field)) => match (
            version_of(spec_field),
            version_of(transaction_field),
        ) {
            (Some(spec_version), Some(transaction_version)) => Some(
                (spec_version, transaction_version),
            ),
            _ => None,
        },
        _ => None,
    }
}

/// Parses `text` with `serde_json::from_str`, looks `key` up with
/// `Value::get` and reads the member with `Value::as_u64`. A text that does
/// not parse gives the words of the parser's error, of which nothing is
/// promised. Trusted: whether the text parses, and what is found under the
/// key, is a function of the text and the key alone.
#[verifier::external_body]
fn json_number_field(text: &str, key: &str) -> (res: Result<JsonNumber, String>)
    ensures
        res matches Ok(field) ==> json_number(text@, key@) == Some(field),
        res is Err ==> json_number(text@, key@) is None,
{
    let value: serde_json::Value = serde_json::from_str(text).map_err(|e| e.to_string())?;
    Ok(
        match value.get(key) {
            None => JsonNumber::Missing,
            Some(member) => match member.as_u64() {
                Some(number) => JsonNumber::Number(number),
                None => JsonNumber::NotNumber,
            },
        },
    )
}

/// Reads the nonce from what was found under `nonce`.
pub fn nonce_from_field(field: JsonNumber) -> (res: Result<u64, Error>)
    ensures
        match res {
            Ok(nonce) => nonce_of(field) == Some(nonce),
            Err(error) => {
                &&& nonce_of(field) is None
                &&& error matches Error::Codec(cause)
                &&& cause@ == "nonce not a Number"@
            },
        },
{
    match field {
        JsonNumber::Missing => Ok(0),
        JsonNumber::NotNumber => Err(Error::Codec(Cause::from("nonce not a Number"))),
        JsonNumber::Number(nonce) => Ok(nonce),
    }
}

/// Reads the next nonce of an account from the JSON text of its state.
///
/// An account without a `nonce` has nonce 0. A text that is no JSON, or a
/// nonce that is no number, is a codec error.
pub fn account_nonce(account_info: &str) -> (res: Result<u64, Error>)
    ensures
        match res {
            Ok(nonce) => account_nonce_of(account_info@) == Some(nonce),
            Err(error) => account_nonce_of(account_info@) is None && nonce_refused(
                account_info@,
                error,
            ),
        },
{
    match json_number_field(account_info, "nonce") {
        Ok(field) => nonce_from_field(field),
        Err(error) => Err(Error::Codec(Cause::from(error.as_str()))),
    }
}

/// Reads a version from what was found under its key. A missing member is
/// a schema error with the words of `missing`, a member that is no number a
/// codec error with the words of `not_number`. Of a number beyond 32 bits the
/// low 32 bits are kept.
pub fn version_from_field(field: JsonNumber, missing: &str, not_number: &str) -> (res: Result<
    u32,
    Error,
>)
    ensures
        match res {
            Ok(version) => version_of(field) == Some(version),
            Err(error) => version_refused(field, missing@, not_number@, error),
        },
{
    match field {
        JsonNumber::Missing => Err(Error::Schema(Cause::from(missing))),
        JsonNumber::NotNumber => Err(Error::Codec(Cause::from(not_number))),
        JsonNumber::Number(version) => Ok((version % 0x1_0000_0000) as u32),
    }
}

/// Reads the spec version and the transaction version from the JSON text of
/// a runtime version.
pub fn runtime_versions(runtime_version: &str) -> (res: Result<(u32, u32), Error>)
    ensures
        match res {
            Ok(versions) => runtime_versions_of(runtime_version@) == Some(versions),
            Err(error) => {
                &&& runtime_versions_of(runtime_version@) is None
                &&& runtime_versions_refused(runtime_version@, error)
            },
        },
{
    let spec_field = match json_number_field(runtime_version, "spec_version") {
        Ok(field) => field,
        Err(error) => {
            return Err(Error::Codec(Cause::from(error.as_str())));
        },
    };
    let spec_version = version_from_field(
        spec_field,
        "spec_version not found",
        "spec_version not a Number",
    )?;
    let transaction_field = match json_number_field(runtime_version, "transaction_version") {
        Ok(field) => field,
        Err(error) => {
            return Err(Error::Codec(Cause::from(error.as_str())));
        },
    };
    let transaction_version = version_from_field(
        transaction_field,
        "transaction_version not found",
        "transaction_version not a Number",
    )?;
    Ok((spec_version, transaction_version))
}

} // verus!
