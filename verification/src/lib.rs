//! XAgentSync: handoffs between work sessions that do not overlap.
//!
//! A session that stops hands its context to the session that takes over:
//! a [`Handoff`] binds one of three mode-specific contexts (deploy, debug,
//! plan) to who made it, when, what the session did and how to warm up. It
//! renders as a briefing and is written as JSON. Handoffs travel through a
//! store of three regions under a root: work in progress is staged in a
//! slot of its own, a finished handoff is sent to the pending region, and a
//! handoff that was taken is moved to the archive.
//!
//! The library decides and leaves performing to its caller: the operations
//! of the store take what was read from it and return the actions to
//! perform on it. [`store::MemoryStore`] performs them in memory.

pub mod cli;
pub mod codec;
pub mod context;
pub mod error;
pub mod handoff;
pub mod ident;
pub mod json;
pub mod order;
pub mod render;
pub mod schema;
pub mod store;
pub mod sync;
pub mod text;
pub mod time;

pub use context::SessionState;
pub use error::Error;
pub use handoff::{
    DebugContext, DeployContext, GitRef, Handoff, HandoffMode, PlanContext, PriorityFile,
    WarmUpSequence,
};
