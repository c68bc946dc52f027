//! Requesting a remote node's identity record, and the address-list shape of
//! a record: which multiaddress entries a record's address and port fields
//! yield.

use vstd::prelude::*;

use crate::server::enr_build::IpAddress;

verus! {

/// RequestEnr command.
#[derive(Clone, Debug, PartialEq, Eq, PartialOrd, Ord)]
pub struct RequestEnr {
    /// Multiaddr of the node to request the ENR from.
    pub multiaddr: String,
    /// The IPv4 listening address of the local server.
    pub listen_address: String,
    /// The listening UDP port of the local server.
    pub listen_port: u16,
}

/// The address and port fields a record advertises, as plain values.
#[derive(Clone, Copy, Debug, PartialEq, Eq)]
pub struct RecordInfo {
    /// The record's IPv4 address.
    pub ip4: Option<[u8; 4]>,
    /// The record's TCP port for IPv4.
    pub tcp4: Option<u16>,
    /// The record's UDP port for IPv4.
    pub udp4: Option<u16>,
    /// The record's IPv6 address.
    pub ip6: Option<[u8; 16]>,
    /// The record's TCP port for IPv6.
    pub tcp6: Option<u16>,
    /// The record's UDP port for IPv6.
    pub udp6: Option<u16>,
}

/// The transport protocol of a multiaddress entry.
#[derive(Clone, Copy, Debug, PartialEq, Eq, Structural)]
pub enum Transport {
    /// UDP.
    Udp,
    /// TCP.
    Tcp,
}

/// One multiaddress entry: an address, a transport and a port. The peer
/// identifier suffix is the same for every entry and is left to the caller.
#[derive(Clone, Copy, Debug, PartialEq, Eq)]
pub struct MultiaddrPart {
    /// The IP address.
    pub ip: IpAddress,
    /// The transport protocol.
    pub transport: Transport,
    /// The port.
    pub port: u16,
}

/// The single entry for one address, transport and optional port, or nothing.
pub open spec fn spec_part(
    ip: Option<IpAddress>,
    transport: Transport,
    port: Option<u16>,
) -> Seq<MultiaddrPart> {
    match (ip, port) {
        (Some(a), Some(p)) => seq![MultiaddrPart { ip: a, transport, port: p }],
        _ => Seq::empty(),
    }
}

/// The view of an optional IPv4 address as an [`IpAddress`].
pub open spec fn opt_v4(ip: Option<[u8; 4]>) -> Option<IpAddress> {
    match ip {
        Some(a) => Some(IpAddress::V4(a)),
        None => None,
    }
}

/// The view of an optional IPv6 address as an [`IpAddress`].
pub open spec fn opt_v6(ip: Option<[u8; 16]>) -> Option<IpAddress> {
    match ip {
        Some(a) => Some(IpAddress::V6(a)),
        None => None,
    }
}

/// The multiaddress entries a record yields, in order: IPv4 with UDP, IPv4
/// with TCP, IPv6 with UDP, IPv6 with TCP — each present exactly when the
/// record holds both the address and that port.
pub open spec fn spec_multiaddrs(info: RecordInfo) -> Seq<MultiaddrPart> {
    spec_part(opt_v4(info.ip4), Transport::Udp, info.udp4) + spec_part(
        opt_v4(info.ip4),
        Transport::Tcp,
        info.tcp4,
    ) + spec_part(opt_v6(info.ip6), Transport::Udp, info.udp6) + spec_part(
        opt_v6(info.ip6),
        Transport::Tcp,
        info.tcp6,
    )
}

/// The multiaddress entries of a record: one entry per address/port pair the
/// record holds, exactly as [`spec_multiaddrs`] lists them. A record without
/// the address or without the port of a family contributes nothing for it.
pub fn multiaddr(info: &RecordInfo) -> (r: Vec<MultiaddrPart>)
    ensures
        r@ == spec_multiaddrs(*info),
{
    let mut out: Vec<MultiaddrPart> = Vec::new();
    if let Some(ip) = info.ip4 {
        if let Some(p) = info.udp4 {
            out.push(MultiaddrPart { ip: IpAddress::V4(ip), transport: Transport::Udp, port: p });
        }
        if let Some(p) = info.tcp4 {
            out.push(MultiaddrPart { ip: IpAddress::V4(ip), transport: Transport::Tcp, port: p });
        }
    }
    if let Some(ip) = info.ip6 {
        if let Some(p) = info.udp6 {
            out.push(MultiaddrPart { ip: IpAddress::V6(ip), transport: Transport::Udp, port: p });
        }
        if let Some(p) = info.tcp6 {
            out.push(MultiaddrPart { ip: IpAddress::V6(ip), transport: Transport::Tcp, port: p });
        }
    }
    assert(out@ =~= spec_multiaddrs(*info));
    out
}

} // verus!
