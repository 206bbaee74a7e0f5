//! Domain data: the sample resource, the events that announce its changes
//! and the commands that request them.

pub mod kafka;
pub mod sample;
pub mod state;
