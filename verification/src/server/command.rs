//! The server configuration, as gathered from the command line.

use vstd::prelude::*;

verus! {

/// The service to run once the server is started.
#[derive(Clone, Debug, PartialEq, Eq, PartialOrd, Ord, Default)]
pub enum ServerSubcommand {
    /// Queries random node ids.
    #[default]
    Query,
    /// Prints the event stream.
    Events,
}

/// Server configuration. String-valued fields carry the operator's raw
/// input; the functions in [`crate::server::enr_build`] and
/// [`crate::server::keys`] validate them.
#[derive(Clone, Debug, PartialEq, Eq, PartialOrd, Ord, Default)]
pub struct Server {
    /// The service to run once the server is started.
    pub service: ServerSubcommand,
    /// The listening address(es): a comma-separated list holding at most one
    /// IPv4 and one IPv6 address.
    pub listen_addresses: String,
    /// The listening UDP port.
    pub listen_port: u16,
    /// The listening UDP port for an IPv6 listen address, falling back to
    /// `listen_port` when unset.
    pub listen_port_v6: Option<u16>,
    /// Explicit record address(es), a comma-separated list as above. Unset
    /// leaves the record without address fields unless `enr_default` is set.
    pub enr_addresses: Option<String>,
    /// Explicit record UDP port for the IPv4 family.
    pub enr_v4_port: Option<u16>,
    /// Explicit record UDP port for the IPv6 family.
    pub enr_v6_port: Option<u16>,
    /// The record sequence number, as a decimal string.
    pub enr_seq_no: Option<String>,
    /// The auxiliary `eth2` record field, as a hex string.
    pub enr_eth2: Option<String>,
    /// Advertise the listen address(es) and port(s) in the record.
    pub enr_default: bool,
    /// Use the fixed debugging key for the node identity.
    pub static_key: bool,
    /// A hex-encoded secp256k1 private key for the node identity.
    pub secp256k1_key: Option<String>,
    /// A base64 record this node will initially connect to.
    pub enr: Option<String>,
    /// Minimum number of peers required before updating the external IP.
    pub peer_update_min: u64,
    /// Seconds to wait between successive searches.
    pub break_time: u64,
    /// Period in seconds of the routing-table statistics report; zero
    /// disables the report.
    pub stats: u64,
    /// Do not perform any peer searches.
    pub no_search: bool,
    /// Path of a bootstrap peer file.
    pub bootstrap: Option<String>,
}

} // verus!
