//! Supervision of a local worker process for a desktop account manager.
//!
//! The library covers the logic of the supervisor: turning stored accounts
//! into a startup credential bundle, assembling the worker's environment,
//! driving the lifecycle state machine, and converting the worker's output
//! stream into structured log records. The surrounding process and file
//! I/O lives outside the library and hands plain values in and out.

pub mod credentials;
pub mod encode;
pub mod environment;
pub mod errors;
pub mod logstream;
pub mod portable;
pub mod supervisor;
