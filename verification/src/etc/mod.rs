//! The system files under `/etc`: hosts, services and users.
use vstd::prelude::*;

pub mod host;
pub mod passwd;
pub mod service;
pub mod user;

verus! {

/// Errors in reading a system file.
#[derive(Debug, Clone, PartialEq, Eq)]
pub enum Error {
    /// A number of the file is not a valid integer of its type.
    ParseInt,
    /// The pattern that reads a row does not compile.
    Regex,
}

} // verus!
