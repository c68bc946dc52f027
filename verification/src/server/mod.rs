//! The server harness: configuration, identity-record construction, peer
//! bootstrapping, the query loop's decision logic and routing-table
//! statistics.

/// Bootstrap peers from a parsed peer list.
pub mod bootstrap;

/// The server configuration.
pub mod command;

/// Identity-record (ENR) construction.
pub mod enr_build;

/// Signing-key selection for the node identity.
pub mod keys;

/// The query loop's decision logic.
pub mod query;

/// Routing-table statistics by XOR-distance bucket.
pub mod stats;

pub use command::Server;
pub use command::ServerSubcommand;

use vstd::prelude::*;

use crate::server::enr_build::IpAddress;
use crate::server::enr_build::classify_addresses;
use crate::server::enr_build::last_v4;
use crate::server::enr_build::last_v6;

verus! {

/// The sockets the server should bind, one per address family: each
/// classified listen address is paired with its family's port, the v6 port
/// falling back to the v4 port when unset.
pub fn listen_sockets(
    listen_addrs: &Vec<IpAddress>,
    listen_port: u16,
    listen_port_v6: Option<u16>,
) -> (r: (Option<([u8; 4], u16)>, Option<([u8; 16], u16)>))
    ensures
        r.0 == match last_v4(listen_addrs@) {
            Some(ip) => Some((ip, listen_port)),
            None => None::<([u8; 4], u16)>,
        },
        r.1 == match last_v6(listen_addrs@) {
            Some(ip) => Some((ip, match listen_port_v6 {
                Some(p) => p,
                None => listen_port,
            })),
            None => None::<([u8; 16], u16)>,
        },
{
    let (v4, v6) = classify_addresses(listen_addrs);
    let port_v6: u16 = match listen_port_v6 {
        Some(p) => p,
        None => listen_port,
    };
    let s4 = match v4 {
        Some(ip) => Some((ip, listen_port)),
        None => None,
    };
    let s6 = match v6 {
        Some(ip) => Some((ip, port_v6)),
        None => None,
    };
    (s4, s6)
}

} // verus!
