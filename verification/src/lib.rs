//! Control-tool logic for the Tamandua EDR agent and server.
//!
//! The crate holds the decision logic of the `tamandua-ctl` command-line tool:
//! argument models, the agent IPC protocol types and reply handling, the
//! challenge-response signature, the live-response (Phoenix channel) session
//! state machines, and the parsing and formatting helpers that the commands use.
//! Transport, terminal rendering and process control live in the binary.

pub mod cli;
pub mod commands;
pub mod crypto;
pub mod ipc;
pub mod json;
pub mod output;
pub mod phoenix;
pub mod remote;
pub mod text;
pub mod time;

use vstd::prelude::*;

verus! {

} // verus!
