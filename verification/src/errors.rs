//! The failures of the local key store.

use vstd::prelude::*;
use vstd::string::StringExecFns;

verus! {

/// A failure met before any chain is contacted.
#[derive(Debug)]
pub enum Error {
    /// The directory that holds the secrets was not found.
    Dir,
    /// A public key could not be read.
    PkDecode,
    /// A stored value could not be read.
    DecodeStorage,
}

impl Error {
    /// The error in words.
    pub open spec fn message(&self) -> Seq<char> {
        match self {
            Error::Dir => "Dir not found"@,
            Error::PkDecode => "Could not decode public key"@,
            Error::DecodeStorage => "Error decoding storage"@,
        }
    }

    /// The error in words.
    pub fn to_string(&self) -> (text: String)
        ensures
            text@ == self.message(),
    {
        match self {
            Error::Dir => String::from_str("Dir not found"),
            Error::PkDecode => String::from_str("Could not decode public key"),
            Error::DecodeStorage => String::from_str("Error decoding storage"),
        }
    }
}

} // verus!
