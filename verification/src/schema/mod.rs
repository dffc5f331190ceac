//! The document form of each type: how it is written as JSON and read
//! back.

pub mod debug;
pub mod deploy;
pub mod envelope;
pub mod plan;
pub mod session;
