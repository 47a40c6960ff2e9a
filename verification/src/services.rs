//! The services: the job registry, the validator, the directory expander,
//! the intake and the copy engine.

pub mod copy;
pub mod copy_proofs;
pub mod expand;
pub mod expand_proofs;
pub mod intake;
pub mod storage;
pub mod validate;
