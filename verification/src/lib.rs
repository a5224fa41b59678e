//! Agent runner: the verified core of a desktop shim that launches an
//! external command-line agent, relays its output line by line, and reports
//! one terminal completion event per invocation.
//!
//! The operating-system work (spawning the child, reading its pipes, pushing
//! events over the host's channel) is left to the embedding application. This
//! library holds everything the runner decides: the command line handed to
//! the child, the text of every event and error message, the line-splitting
//! policy, and the order and multiplicity of the events an invocation may
//! produce. The sequencing rules are stated over a small step model
//! ([`runner::step_model`]) and proved in [`laws`].

use vstd::prelude::*;

pub mod command;
pub mod event;
pub mod laws;
pub mod lines;
pub mod messages;
pub mod runner;

verus! {

} // verus!
