//! Planning and sequencing for running the OpenAPI generator.
//!
//! The crate computes where the generator artifact is fetched from and cached,
//! turns a generation request into the argument list of the generator process, and decides, step by step, what outside work a run performs. It
//! touches neither the file system, the network nor any process: a driver
//! performs each requested action and reports what happened.

pub mod artifact;
pub mod command;
pub mod plan;
pub mod request;
pub mod run;
pub mod workflow;
