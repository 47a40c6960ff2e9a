//! The core of a copy service: a background service that copies files and
//! directory trees while a controller submits, suspends, resumes, cancels
//! and polls the jobs.
//!
//! The library holds the decisions of the service, each with a contract that
//! is checked by the verifier; the program around it owns the files, the
//! threads and the sockets.
//!
//! - [`models`]: jobs, their identifiers and lifecycle states, and the
//!   events and actions that pass between the copy engine and its workers.
//! - [`services`]: the job registry, the validator, the directory expander,
//!   the intake and the copy engine, with the proofs of what they
//!   guarantee.
//! - [`client`]: the control surface, from a request to its answer.
//! - [`text`]: helpers on texts and lists of texts.

pub mod client;
pub mod models;
pub mod services;
pub mod text;
