//! Construction and signing of extrinsics for a chain whose call schema is
//! supplied at run time.
//!
//! Every byte layout is given as a `spec` function over `Seq<u8>`; the
//! executable functions are proved to produce exactly those bytes.

pub mod address;
pub mod call;
pub mod chain;
pub mod compact;
pub mod errors;
pub mod extrinsic;
pub mod model;
pub mod outside;
pub mod params;
pub mod payload;
pub mod transfer;
