//! What can go wrong while an extrinsic is built, and why.

use vstd::prelude::*;
use vstd::std_specs::convert::FromSpecImpl;
use vstd::string::StringExecFns;

verus! {

/// The reason for a failure, in words.
#[derive(Debug)]
pub struct Cause {
    cause: String,
}

impl View for Cause {
    type V = Seq<char>;

    closed spec fn view(&self) -> Seq<char> {
        self.cause@
    }
}

impl FromSpecImpl<&str> for Cause {
    /// A `String` cannot be built in a specification, so `from` states its
    /// result through the view instead.
    open spec fn obeys_from_spec() -> bool {
        false
    }

    open spec fn from_spec(cause: &str) -> Self {
        arbitrary()
    }
}

impl From<&str> for Cause {
    fn from(cause: &str) -> (out: Self)
        ensures
            out@ == cause@,
    {
        Cause { cause: String::from_str(cause) }
    }
}

impl Cause {
    /// The reason as it was given.
    pub fn to_string(&self) -> (text: String)
        ensures
            text@ == self@,
    {
        self.cause.clone()
    }
}

/// A failed construction. Each variant names the stage that failed and
/// carries the reason.
#[derive(Debug)]
pub enum Error {
    /// The chain's metadata lacks a pallet, a call or a constant, or a
    /// constant has another shape than expected.
    Schema(Cause),
    /// The signer failed, or its signature does not verify.
    Wallet(Cause),
    /// Bytes or text could not be encoded or decoded: malformed text, a
    /// field that is no number, a key of the wrong length.
    Codec(Cause),
    /// The chain could not be reached or refused a request.
    Sube(Cause),
}

impl Error {
    /// The reason the error carries.
    pub open spec fn cause(&self) -> Cause {
        match self {
            Error::Schema(cause) => *cause,
            Error::Wallet(cause) => *cause,
            Error::Codec(cause) => *cause,
            Error::Sube(cause) => *cause,
        }
    }

    /// The words that introduce the reason.
    pub open spec fn heading(&self) -> Seq<char> {
        match self {
            Error::Schema(_) => "Error resolving the call schema: "@,
            Error::Wallet(_) => "Error handling wallet: "@,
            Error::Codec(_) => "Error encoding/decoding data: "@,
            Error::Sube(_) => "Error handling connection with sube: "@,
        }
    }

    /// The error as one line of text.
    pub open spec fn message(&self) -> Seq<char> {
        self.heading() + self.cause()@
    }

    /// The error as one line of text: the stage's heading, then the reason.
    pub fn to_string(&self) -> (text: String)
        ensures
            text@ == self.message(),
    {
        match self {
            Error::Schema(cause) => String::from_str("Error resolving the call schema: ").concat(
                cause.cause.as_str(),
            ),
            Error::Wallet(cause) => String::from_str("Error handling wallet: ").concat(
                cause.cause.as_str(),
            ),
            Error::Codec(cause) => String::from_str("Error encoding/decoding data: ").concat(
                cause.cause.as_str(),
            ),
            Error::Sube(cause) => String::from_str("Error handling connection with sube: ").concat(
                cause.cause.as_str(),
            ),
        }
    }
}

} // verus!
