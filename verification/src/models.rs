//! The data model: jobs, their identifiers and lifecycle states, and the
//! events and actions of the copy engine.

pub mod copy;
pub mod identity;
pub mod job;
