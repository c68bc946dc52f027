//! Core library for a discv5 command-line harness.
//!
//! The crate builds signed node identity records (ENRs) from operator
//! configuration, loads bootstrap peers from a parsed peer list, drives a
//! periodic peer-search loop as a state machine, and aggregates routing-table
//! statistics by XOR-distance bucket. Calls into the discv5 protocol engine
//! itself go through the narrow trusted boundary in [`engine`].

/// Cli handlers.
pub mod cli;

/// The trusted boundary to the discv5 protocol engine.
pub mod engine;

/// The logging verbosity level.
pub mod logging;

/// Packet handlers.
pub mod packet;

/// Textual encodings used by the configuration: hex byte strings and
/// decimal integers.
pub mod parse;

/// Request ENR handlers.
pub mod request_enr;

/// Server handlers.
pub mod server;
