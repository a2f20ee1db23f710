//! The requests of each stage of the pipeline.
pub mod bronze;
pub mod copy;
pub mod dimension;
pub mod export;
pub mod file;
pub mod gold;
pub mod schema;
pub mod silver;
pub mod vacuum;
