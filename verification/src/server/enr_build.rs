//! Builds the node's signed identity record (ENR) from the server
//! configuration: classifies the configured addresses by family, resolves
//! the advertised ports, validates the sequence number and the auxiliary hex
//! field, and hands the resulting plan to the engine for signing.

use vstd::prelude::*;

use crate::engine;
use crate::parse::dec_digits;
use crate::parse::dec_value;
use crate::parse::hex_decode;
use crate::parse::is_dec_string;
use crate::parse::is_hex_string;
use crate::parse::parse_u64;
use crate::parse::spec_hex_decode;
use crate::server::command::Server;

verus! {

/// An IP address as plain bytes, classified by family.
#[derive(Clone, Copy, Debug, PartialEq, Eq)]
pub enum IpAddress {
    /// An IPv4 address.
    V4([u8; 4]),
    /// An IPv6 address.
    V6([u8; 16]),
}

/// The last IPv4 address of a list, if any: when several addresses of one
/// family are configured, the later one wins.
pub open spec fn last_v4(addrs: Seq<IpAddress>) -> Option<[u8; 4]>
    decreases addrs.len(),
{
    if addrs.len() == 0 {
        None
    } else {
        match addrs.last() {
            IpAddress::V4(ip) => Some(ip),
            IpAddress::V6(_) => last_v4(addrs.drop_last()),
        }
    }
}

/// The last IPv6 address of a list, if any.
pub open spec fn last_v6(addrs: Seq<IpAddress>) -> Option<[u8; 16]>
    decreases addrs.len(),
{
    if addrs.len() == 0 {
        None
    } else {
        match addrs.last() {
            IpAddress::V6(ip) => Some(ip),
            IpAddress::V4(_) => last_v6(addrs.drop_last()),
        }
    }
}

/// Splits an address list into its family slots: the last address of each
/// family wins, addresses of the other family notwithstanding.
pub fn classify_addresses(addrs: &Vec<IpAddress>) -> (r: (Option<[u8; 4]>, Option<[u8; 16]>))
    ensures
        r.0 == last_v4(addrs@),
        r.1 == last_v6(addrs@),
{
    let mut v4: Option<[u8; 4]> = None;
    let mut v6: Option<[u8; 16]> = None;
    let mut i: usize = 0;
    while i < addrs.len()
        invariant
            i <= addrs@.len(),
            v4 == last_v4(addrs@.take(i as int)),
            v6 == last_v6(addrs@.take(i as int)),
        decreases addrs@.len() - i,
    {
        proof {
            assert(addrs@.take(i + 1).drop_last() =~= addrs@.take(i as int));
            assert(addrs@.take(i + 1).last() == addrs@[i as int]);
        }
        match addrs[i] {
            IpAddress::V4(ip) => {
                v4 = Some(ip);
            },
            IpAddress::V6(ip) => {
                v6 = Some(ip);
            },
        }
        i = i + 1;
    }
    proof {
        assert(addrs@.take(addrs@.len() as int) =~= addrs@);
    }
    (v4, v6)
}

/// Law: the slot a family ends up with is exactly the list's latest address
/// of that family — every earlier same-family address is discarded, and a
/// family with no address stays empty.
pub proof fn lemma_latest_address_wins(addrs: Seq<IpAddress>)
    ensures
        match last_v4(addrs) {
            Some(ip) => exists|i: int|
                0 <= i < addrs.len() && addrs[i] == IpAddress::V4(ip)
                    && (forall|j: int| i < j < addrs.len() ==> !(#[trigger] addrs[j] is V4)),
            None => forall|i: int| 0 <= i < addrs.len() ==> !(#[trigger] addrs[i] is V4),
        },
        match last_v6(addrs) {
            Some(ip) => exists|i: int|
                0 <= i < addrs.len() && addrs[i] == IpAddress::V6(ip)
                    && (forall|j: int| i < j < addrs.len() ==> !(#[trigger] addrs[j] is V6)),
            None => forall|i: int| 0 <= i < addrs.len() ==> !(#[trigger] addrs[i] is V6),
        },
    decreases addrs.len(),
{
    if addrs.len() > 0 {
        lemma_latest_address_wins(addrs.drop_last());
        let n = addrs.len() - 1;
        assert(forall|i: int| 0 <= i < n ==> addrs.drop_last()[i] == #[trigger] addrs[i]);
        match addrs.last() {
            IpAddress::V4(ip) => {
                assert(addrs[n] == IpAddress::V4(ip));
            },
            IpAddress::V6(ip) => {
                assert(addrs[n] == IpAddress::V6(ip));
            },
        }
    }
}

/// The fields of the identity record about to be signed.
#[derive(Clone, Debug, PartialEq, Eq)]
pub struct RecordPlan {
    /// Advertised IPv4 address.
    pub ip4: Option<[u8; 4]>,
    /// Advertised UDP port for IPv4.
    pub udp4: Option<u16>,
    /// Advertised IPv6 address.
    pub ip6: Option<[u8; 16]>,
    /// Advertised UDP port for IPv6.
    pub udp6: Option<u16>,
    /// Explicit sequence number; unset leaves the signer's default.
    pub seq: Option<u64>,
    /// Decoded auxiliary `eth2` field.
    pub eth2: Option<Vec<u8>>,
}

/// Errors of record construction: operator mistakes, fatal before the engine
/// starts, and a signing failure reported by the engine.
#[derive(Clone, Copy, Debug, PartialEq, Eq, Structural)]
pub enum BuildError {
    /// The sequence number is not a decimal `u64`.
    InvalidSeqNo,
    /// The auxiliary field is not a valid hex string.
    InvalidEth2Hex,
    /// The engine could not sign the record.
    Signing,
}

/// The IPv6 record port: the explicit v6 listen port, falling back to the
/// v4 listen port.
pub open spec fn v6_port_fallback(listen_port: u16, listen_port_v6: Option<u16>) -> u16 {
    match listen_port_v6 {
        Some(p) => p,
        None => listen_port,
    }
}

/// The advertised IPv4 address: in listen-as-record mode the classified
/// listen address; otherwise the classified explicit record address, if any.
pub open spec fn spec_ip4(
    enr_default: bool,
    listen: Seq<IpAddress>,
    record: Option<Seq<IpAddress>>,
) -> Option<[u8; 4]> {
    if enr_default {
        last_v4(listen)
    } else {
        match record {
            Some(r) => last_v4(r),
            None => None,
        }
    }
}

/// The advertised IPv6 address, chosen as [`spec_ip4`] is.
pub open spec fn spec_ip6(
    enr_default: bool,
    listen: Seq<IpAddress>,
    record: Option<Seq<IpAddress>>,
) -> Option<[u8; 16]> {
    if enr_default {
        last_v6(listen)
    } else {
        match record {
            Some(r) => last_v6(r),
            None => None,
        }
    }
}

/// The advertised IPv4 UDP port: the listen port whenever an IPv4 address is
/// advertised; outside listen-as-record mode an explicit record port
/// overrides it (even with no address advertised).
pub open spec fn spec_udp4(
    enr_default: bool,
    listen: Seq<IpAddress>,
    record: Option<Seq<IpAddress>>,
    listen_port: u16,
    enr_v4_port: Option<u16>,
) -> Option<u16> {
    if enr_default {
        if last_v4(listen) is Some {
            Some(listen_port)
        } else {
            None
        }
    } else {
        match enr_v4_port {
            Some(p) => Some(p),
            None => match record {
                Some(r) => if last_v4(r) is Some {
                    Some(listen_port)
                } else {
                    None
                },
                None => None,
            },
        }
    }
}

/// The advertised IPv6 UDP port, chosen as [`spec_udp4`] is but with the v6
/// port fallback.
pub open spec fn spec_udp6(
    enr_default: bool,
    listen: Seq<IpAddress>,
    record: Option<Seq<IpAddress>>,
    listen_port: u16,
    listen_port_v6: Option<u16>,
    enr_v6_port: Option<u16>,
) -> Option<u16> {
    if enr_default {
        if last_v6(listen) is Some {
            Some(v6_port_fallback(listen_port, listen_port_v6))
        } else {
            None
        }
    } else {
        match enr_v6_port {
            Some(p) => Some(p),
            None => match record {
                Some(r) => if last_v6(r) is Some {
                    Some(v6_port_fallback(listen_port, listen_port_v6))
                } else {
                    None
                },
                None => None,
            },
        }
    }
}

/// The configured sequence number is absent or a decimal `u64`.
pub open spec fn seq_field_ok(server: Server) -> bool {
    match server.enr_seq_no {
        Some(t) => is_dec_string(t@) && dec_value(dec_digits(t@)) <= u64::MAX,
        None => true,
    }
}

/// The configured auxiliary field is absent or a valid hex string.
pub open spec fn eth2_field_ok(server: Server) -> bool {
    match server.enr_eth2 {
        Some(t) => is_hex_string(t@),
        None => true,
    }
}

/// The view of an optional parsed address list.
pub open spec fn opt_addrs_view(addrs: Option<Vec<IpAddress>>) -> Option<Seq<IpAddress>> {
    match addrs {
        Some(v) => Some(v@),
        None => None,
    }
}

/// The plan holds exactly the record fields the configuration calls for.
pub open spec fn plan_for(
    plan: RecordPlan,
    server: Server,
    listen: Seq<IpAddress>,
    record: Option<Seq<IpAddress>>,
) -> bool {
    &&& plan.ip4 == spec_ip4(server.enr_default, listen, record)
    &&& plan.udp4 == spec_udp4(
        server.enr_default,
        listen,
        record,
        server.listen_port,
        server.enr_v4_port,
    )
    &&& plan.ip6 == spec_ip6(server.enr_default, listen, record)
    &&& plan.udp6 == spec_udp6(
        server.enr_default,
        listen,
        record,
        server.listen_port,
        server.listen_port_v6,
        server.enr_v6_port,
    )
    &&& plan.seq == match server.enr_seq_no {
        Some(t) => Some(dec_value(dec_digits(t@)) as u64),
        None => None::<u64>,
    }
    &&& match plan.eth2 {
        Some(v) => server.enr_eth2 matches Some(t) && v@ == spec_hex_decode(t@),
        None => server.enr_eth2 is None,
    }
}

/// Computes the record plan from the configuration and the parsed listen and
/// record address lists. Fails exactly on a malformed sequence number or a
/// malformed auxiliary hex field, the sequence number being checked first.
pub fn record_plan(
    server: &Server,
    listen_addrs: &Vec<IpAddress>,
    record_addrs: &Option<Vec<IpAddress>>,
) -> (r: Result<RecordPlan, BuildError>)
    ensures
        r is Ok <==> seq_field_ok(*server) && eth2_field_ok(*server),
        r matches Ok(plan) ==> plan_for(plan, *server, listen_addrs@, opt_addrs_view(*record_addrs)),
        !seq_field_ok(*server) ==> r == Err::<RecordPlan, BuildError>(BuildError::InvalidSeqNo),
        seq_field_ok(*server) && !eth2_field_ok(*server) ==> r == Err::<RecordPlan, BuildError>(
            BuildError::InvalidEth2Hex,
        ),
{
    let (lv4, lv6) = classify_addresses(listen_addrs);
    let port_v6: u16 = match server.listen_port_v6 {
        Some(p) => p,
        None => server.listen_port,
    };
    let mut ip4: Option<[u8; 4]> = None;
    let mut udp4: Option<u16> = None;
    let mut ip6: Option<[u8; 16]> = None;
    let mut udp6: Option<u16> = None;
    if server.enr_default {
        ip4 = lv4;
        if lv4.is_some() {
            udp4 = Some(server.listen_port);
        }
        ip6 = lv6;
        if lv6.is_some() {
            udp6 = Some(port_v6);
        }
    } else {
        match record_addrs {
            Some(list) => {
                let (rv4, rv6) = classify_addresses(list);
                ip4 = rv4;
                if rv4.is_some() {
                    udp4 = Some(server.listen_port);
                }
                ip6 = rv6;
                if rv6.is_some() {
                    udp6 = Some(port_v6);
                }
            },
            None => {},
        }
        match server.enr_v4_port {
            Some(p) => {
                udp4 = Some(p);
            },
            None => {},
        }
        match server.enr_v6_port {
            Some(p) => {
                udp6 = Some(p);
            },
            None => {},
        }
    }
    let seq: Option<u64> = match &server.enr_seq_no {
        Some(t) => match parse_u64(t.as_str()) {
            Some(v) => Some(v),
            None => {
                return Err(BuildError::InvalidSeqNo);
            },
        },
        None => None,
    };
    let eth2: Option<Vec<u8>> = match &server.enr_eth2 {
        Some(t) => match hex_decode(t.as_str()) {
            Some(b) => Some(b),
            None => {
                return Err(BuildError::InvalidEth2Hex);
            },
        },
        None => None,
    };
    Ok(RecordPlan { ip4, udp4, ip6, udp6, seq, eth2 })
}

/// Law: in listen-as-record mode the advertised addresses and ports equal
/// the listen configuration's, for every family — whatever explicit record
/// addresses or record ports were supplied, in either configuration.
pub proof fn lemma_listen_mode_ignores_overrides(
    plan1: RecordPlan,
    plan2: RecordPlan,
    s1: Server,
    s2: Server,
    listen: Seq<IpAddress>,
    rec1: Option<Seq<IpAddress>>,
    rec2: Option<Seq<IpAddress>>,
)
    requires
        s1.enr_default,
        s2.enr_default,
        s1.listen_port == s2.listen_port,
        s1.listen_port_v6 == s2.listen_port_v6,
        plan_for(plan1, s1, listen, rec1),
        plan_for(plan2, s2, listen, rec2),
    ensures
        plan1.ip4 == last_v4(listen),
        plan1.ip6 == last_v6(listen),
        plan1.udp4 == (if last_v4(listen) is Some {
            Some(s1.listen_port)
        } else {
            None::<u16>
        }),
        plan1.udp6 == (if last_v6(listen) is Some {
            Some(v6_port_fallback(s1.listen_port, s1.listen_port_v6))
        } else {
            None::<u16>
        }),
        plan1.ip4 == plan2.ip4,
        plan1.udp4 == plan2.udp4,
        plan1.ip6 == plan2.ip6,
        plan1.udp6 == plan2.udp6,
{
}

/// Builds and signs the identity record: computes the plan and asks the
/// engine to sign it. Configuration errors are reported exactly as
/// [`record_plan`] reports them; with a valid configuration the only
/// remaining failure is the engine's signing step.
pub fn build(
    server: &Server,
    listen_addrs: &Vec<IpAddress>,
    record_addrs: &Option<Vec<IpAddress>>,
    enr_key: &discv5::enr::CombinedKey,
) -> (r: Result<engine::Record, BuildError>)
    ensures
        r is Ok ==> seq_field_ok(*server) && eth2_field_ok(*server),
        !seq_field_ok(*server) ==> r == Err::<engine::Record, BuildError>(BuildError::InvalidSeqNo),
        seq_field_ok(*server) && !eth2_field_ok(*server) ==> r == Err::<
            engine::Record,
            BuildError,
        >(BuildError::InvalidEth2Hex),
        seq_field_ok(*server) && eth2_field_ok(*server) && r is Err ==> r == Err::<
            engine::Record,
            BuildError,
        >(BuildError::Signing),
{
    let plan = match record_plan(server, listen_addrs, record_addrs) {
        Ok(p) => p,
        Err(e) => {
            return Err(e);
        },
    };
    match engine::sign_record(&plan, enr_key) {
        Some(enr) => Ok(enr),
        None => Err(BuildError::Signing),
    }
}

} // verus!
