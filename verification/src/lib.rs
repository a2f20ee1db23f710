use vstd::prelude::*;

pub mod clock;
pub mod config;
pub mod etc;
pub mod journal;
pub mod lsof;
pub mod netstat;
pub mod network;
pub mod num;
pub mod pattern;
pub mod pipeline;
pub mod ps;
pub mod text;

verus! {
} // verus!
