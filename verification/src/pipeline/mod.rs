//! The medallion pipeline: the SQL requests that fill and maintain the
//! bronze, silver and gold layers.
use vstd::prelude::*;

pub mod stage;
pub mod task;

verus! {

/// What can stop the pipeline: reading the settings, running a request,
/// handing a request on, waiting for a task, or reading a system file. The
/// first four carry the description that the failing component gave.
#[derive(Debug)]
pub enum Error {
    Config(String),
    Database(String),
    Channel(String),
    Join(String),
    EtcError(crate::etc::Error),
}

} // verus!
