//! Business operations on samples.

pub mod laws;
pub mod sample;
