//! The configuration of the pipeline.

pub mod error;
