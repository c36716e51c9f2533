//! Control plane of a network monitor.
//!
//! The monitoring itself is done by worker programs. This library shapes
//! their invocations, reads what they print, turns their JSON into stable
//! records, and keeps the state of a monitoring session. It starts no
//! process and touches no file: its caller does, and tells it what came of
//! it.
//!
//! - `commands`: the records, and the invocation for each operation
//! - `replies`: what the reply to each operation means
//! - `normalize`: from a worker's JSON to records
//! - `python`: the worker programs and their output
//! - `supervisor`, `state`: starting and stopping monitoring
//! - `settings`: the settings of a session
//! - `json`, `text`, `error`: what the others stand on

pub mod commands;
pub mod error;
pub mod json;
pub mod normalize;
pub mod python;
pub mod replies;
pub mod settings;
pub mod state;
pub mod supervisor;
pub mod text;
