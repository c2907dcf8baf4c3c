//! Core of a small simulation-job service: a client submits a textual
//! simulation profile, the service stages it as an input artifact, launches an
//! external simulation in the background under a fresh job id, and the client
//! polls until a single numeric metric can be read out of the simulation's
//! output artifact.
//!
//! This crate holds the verified logic of that lifecycle: job-id bookkeeping,
//! staging of the input text, the artifact-path scheme, and the decision rules
//! of the polling protocol. The unverifiable edges (HTTP, the filesystem, the
//! external simulation process) live in the surrounding binary, which calls
//! into this crate with plain values.

pub mod extract;
pub mod paths;
pub mod poll;
pub mod stage;
pub mod store;
pub mod submit;
