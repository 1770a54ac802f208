//! The types shared by every stage of a construction.

pub mod error;
