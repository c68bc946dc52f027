//! The command-line surface: the top-level arguments and the subcommands.

use vstd::prelude::*;

use crate::logging::LogLevel;
use crate::packet::Packet;
use crate::request_enr::RequestEnr;
use crate::server::command::Server;

verus! {

/// The subcommand to run.
#[derive(Clone, Debug)]
pub enum Subcommand {
    /// Performs packet operations.
    Packet(Packet),
    /// Requests an ENR from a node.
    RequestEnr(RequestEnr),
    /// Runs a discv5 test server.
    Server(Server),
}

/// The top-level arguments.
#[derive(Clone, Debug)]
pub struct Cli {
    /// The logging verbosity level.
    pub log_level: LogLevel,
    /// The subcommand to run, if any was given.
    pub subcommand: Option<Subcommand>,
}

} // verus!
