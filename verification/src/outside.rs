//! The types of other crates that pass through this library unread.

use vstd::prelude::*;

verus! {

/// The error that `hex` refuses a hexadecimal text with.
#[verifier::external_type_specification]
#[verifier::external_body]
pub struct ExFromHexError(hex::FromHexError);

} // verus!
