//! Account addresses and the public keys behind them.
//!
//! An address is read as an SS58 address of a registered network first.
//! Failing that, it is taken as the key itself: in hexadecimal after `0x`,
//! or else as the very bytes of the text.

use crate::model::error::{Cause, Error};
use sp_core::crypto::Ss58Codec;
use vstd::prelude::*;
use vstd::string::StringExecFns;
use vstd::utf8::encode_utf8;

verus! {

/// The length of a public key.
pub const PUBLIC_KEY_LEN: usize = 32;

/// The public key of an account.
#[derive(Clone, Copy, Debug)]
pub struct PublicKey(pub [u8; 32]);

impl View for PublicKey {
    type V = Seq<u8>;

    open spec fn view(&self) -> Seq<u8> {
        self.0@
    }
}

/// The key and the network prefix that an SS58 address holds; `None` for a
/// text that is no SS58 address of a 32-byte key.
pub uninterp spec fn ss58_decoding(address: Seq<char>) -> Option<(Seq<u8>, u16)>;

/// Whether a network prefix is missing from the registry of known networks.
pub uninterp spec fn ss58_prefix_is_custom(prefix: u16) -> bool;

/// The value of a hexadecimal digit, given as its ASCII code.
pub open spec fn hex_digit(c: u8) -> Option<u8> {
    if 0x30 <= c <= 0x39 {
        Some((c - 0x30) as u8)
    } else if 0x41 <= c <= 0x46 {
        Some((c - 0x41 + 10) as u8)
    } else if 0x61 <= c <= 0x66 {
        Some((c - 0x61 + 10) as u8)
    } else {
        None
    }
}

/// The bytes that a text of hexadecimal digits stands for, two digits to a
/// byte, the high one first; `None` where a digit is left over or a
/// character is no digit.
pub open spec fn hex_decoding(digits: Seq<u8>) -> Option<Seq<u8>>
    decreases digits.len(),
{
    if digits.len() == 0 {
        Some(Seq::empty())
    } else if digits.len() == 1 {
        None
    } else {
        match (hex_digit(digits[0]), hex_digit(digits[1]), hex_decoding(digits.skip(2))) {
            (Some(high), Some(low), Some(rest)) => Some(seq![(16 * high + low) as u8] + rest),
            _ => None,
        }
    }
}

/// The lower-case hexadecimal digit of a number below 16.
pub open spec fn hex_char(nibble: u8) -> char {
    if nibble < 10 {
        (0x30 + nibble) as char
    } else {
        (0x61 + nibble - 10) as char
    }
}

/// The bytes in lower-case hexadecimal, two digits to a byte.
pub open spec fn hex_text(bytes: Seq<u8>) -> Seq<char>
    decreases bytes.len(),
{
    if bytes.len() == 0 {
        Seq::empty()
    } else {
        seq![hex_char(bytes[0] / 16), hex_char(bytes[0] % 16)] + hex_text(bytes.skip(1))
    }
}

/// Whether a text begins with `0x`.
pub open spec fn has_hex_prefix(text: Seq<u8>) -> bool {
    text.len() >= 2 && text[0] == 0x30 && text[1] == 0x78
}

/// The key that an SS58 address of a registered network names.
pub open spec fn ss58_key(address: Seq<char>) -> Option<Seq<u8>> {
    match ss58_decoding(address) {
        Some((key, prefix)) => if ss58_prefix_is_custom(prefix) {
            None
        } else {
            Some(key)
        },
        None => None,
    }
}

/// The bytes that a text gives when it is taken as the key itself: what
/// follows `0x` read as hexadecimal, or else the text's own bytes. `None`
/// where the hexadecimal is malformed.
pub open spec fn raw_key(text: Seq<u8>) -> Option<Seq<u8>> {
    if has_hex_prefix(text) {
        hex_decoding(text.skip(2))
    } else {
        Some(text)
    }
}

/// The public key that an address names, if it names one.
pub open spec fn address_key(address: Seq<char>) -> Option<Seq<u8>> {
    match ss58_key(address) {
        Some(key) => Some(key),
        None => match raw_key(encode_utf8(address)) {
            Some(bytes) => if bytes.len() == PUBLIC_KEY_LEN {
                Some(bytes)
            } else {
                None
            },
            None => None,
        },
    }
}

/// The error that a text which names no key is refused with: a codec error,
/// which speaks of the length where the text could be read as bytes at all.
pub open spec fn address_refused(address: Seq<char>, error: Error) -> bool {
    &&& error matches Error::Codec(cause)
    &&& raw_key(encode_utf8(address)) is Some ==> cause@ == "Invalid public key length"@
}

/// The path under which the chain stores the state of an account.
pub open spec fn storage_path(key: Seq<u8>) -> Seq<char> {
    "system/account/"@ + "0x"@ + hex_text(key)
}

/// Calls `from_ss58check_with_version` of sp_core on its sr25519 `Public`,
/// which decodes base 58, reads the network prefix, and checks length and
/// checksum. Trusted: the outcome is a function of the text alone, and a key
/// that comes out has 32 bytes.
#[verifier::external_body]
fn ss58_decode(address: &str) -> (res: Option<(PublicKey, u16)>)
    ensures
        res matches Some((key, prefix)) ==> ss58_decoding(address@) == Some((key@, prefix)),
        res is None ==> ss58_decoding(address@) is None,
{
    match sp_core::sr25519::Public::from_ss58check_with_version(address) {
        Ok((key, format)) => Some((PublicKey(key.0), u16::from(format))),
        Err(_) => None,
    }
}

/// Calls `is_custom` of sp_core's `Ss58AddressFormat`, which looks the
/// prefix up in the registry of known networks. Trusted: the answer is a
/// function of the prefix alone.
#[verifier::external_body]
fn ss58_is_custom(prefix: u16) -> (custom: bool)
    ensures
        custom == ss58_prefix_is_custom(prefix),
{
    sp_core::crypto::Ss58AddressFormat::custom(prefix).is_custom()
}

/// Calls `hex::decode`. Trusted: it gives the bytes that the digits stand
/// for, in either case of the letters, and fails on an odd number of digits
/// or on a character that is no digit.
#[verifier::external_body]
fn hex_decode(digits: &[u8]) -> (res: Result<Vec<u8>, hex::FromHexError>)
    ensures
        res matches Ok(bytes) ==> hex_decoding(digits@) == Some(bytes@),
        res is Err ==> hex_decoding(digits@) is None,
{
    hex::decode(digits)
}

/// Gives the words of a `hex::FromHexError`. Nothing is promised of them.
#[verifier::external_body]
fn hex_error_text(error: &hex::FromHexError) -> String {
    format!("{}", error)
}

/// Calls `hex::encode`. Trusted: it writes each byte as two lower-case
/// hexadecimal digits, the high one first.
#[verifier::external_body]
fn hex_encode(bytes: &[u8]) -> (text: String)
    ensures
        text@ == hex_text(bytes@),
{
    hex::encode(bytes)
}

impl PublicKey {
    /// The key's 32 bytes.
    pub fn as_bytes(&self) -> (bytes: &[u8])
        ensures
            bytes@ == self@,
            bytes@.len() == PUBLIC_KEY_LEN,
    {
        self.0.as_slice()
    }

    /// The key made of `bytes`, where they are 32.
    pub fn from_slice(bytes: &[u8]) -> (key: Option<PublicKey>)
        ensures
            bytes@.len() == PUBLIC_KEY_LEN ==> (key matches Some(k) && k@ == bytes@),
            bytes@.len() != PUBLIC_KEY_LEN ==> key is None,
    {
        if bytes.len() != PUBLIC_KEY_LEN {
            return None;
        }
        let mut raw = [0u8; 32];
        let mut i: usize = 0;
        while i < PUBLIC_KEY_LEN
            invariant
                i <= PUBLIC_KEY_LEN,
                bytes@.len() == PUBLIC_KEY_LEN,
                forall|j: int| 0 <= j < i ==> raw@[j] == bytes@[j],
            decreases PUBLIC_KEY_LEN - i,
        {
            raw[i] = bytes[i];
            i = i + 1;
        }
        assert(raw@ =~= bytes@);
        Some(PublicKey(raw))
    }

    /// The key in hexadecimal after `0x`.
    pub fn to_hex(&self) -> (text: String)
        ensures
            text@ == "0x"@ + hex_text(self@),
    {
        let digits = hex_encode(self.as_bytes());
        String::from_str("0x").concat(digits.as_str())
    }
}

/// Finds the public key that an address names.
///
/// An SS58 address of a registered network gives the key it encodes. Any
/// other text is taken as the key itself, in hexadecimal where it begins
/// with `0x`, and must then come to exactly 32 bytes.
pub fn get_address(address: &str) -> (res: Result<PublicKey, Error>)
    ensures
        match res {
            Ok(key) => address_key(address@) == Some(key@),
            Err(error) => address_key(address@) is None && address_refused(address@, error),
        },
{
    match ss58_decode(address) {
        Some((key, prefix)) => {
            if !ss58_is_custom(prefix) {
                return Ok(key);
            }
        },
        None => {},
    }
    let text = address.as_bytes();
    let raw: Vec<u8> = if text.len() >= 2 && text[0] == 0x30 && text[1] == 0x78 {
        let digits = vstd::slice::slice_subrange(text, 2, text.len());
        assert(digits@ =~= text@.skip(2));
        match hex_decode(digits) {
            Ok(bytes) => bytes,
            Err(error) => {
                return Err(Error::Codec(Cause::from(hex_error_text(&error).as_str())));
            },
        }
    } else {
        vstd::slice::slice_to_vec(text)
    };
    match PublicKey::from_slice(raw.as_slice()) {
        Some(key) => Ok(key),
        None => Err(Error::Codec(Cause::from("Invalid public key length"))),
    }
}

/// The path under which the chain stores the state of the account with the
/// given key.
pub fn account_storage_path(key: &PublicKey) -> (path: String)
    ensures
        path@ == storage_path(key@),
{
    let hex = key.to_hex();
    let path = String::from_str("system/account/").concat(hex.as_str());
    assert(path@ =~= storage_path(key@));
    path
}

} // verus!
