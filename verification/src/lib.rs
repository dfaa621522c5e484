//! Forwarder of newline-delimited Ruuvi sensor telemetry.
//!
//! The crate holds everything the forwarder decides and computes: the checks on
//! telemetry and configuration, the SQL that it issues, and the state machines of
//! the pipeline, of the database worker and of a transaction. It performs no
//! input or output of its own. Each state machine names the next action, and the
//! program around it carries the action out and reports what came of it.
pub mod text;
pub mod dto;
pub mod error;
pub mod config;
pub mod pipeline;
pub mod pattern;
pub mod source;
pub mod sink;
pub mod maintenance;
pub mod startup;
