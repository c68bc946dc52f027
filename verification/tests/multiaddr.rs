use discv5_cli::request_enr::{multiaddr, MultiaddrPart, RecordInfo, Transport};
use discv5_cli::server::enr_build::IpAddress;

const IP4: [u8; 4] = [127, 0, 0, 1];
const IP6: [u8; 16] = [0, 0, 0, 0, 0, 0, 0, 0, 0, 0, 0, 0, 0, 0, 0, 1];

fn empty() -> RecordInfo {
    RecordInfo { ip4: None, tcp4: None, udp4: None, ip6: None, tcp6: None, udp6: None }
}

#[test]
fn full_record_yields_four_entries_in_order() {
    let info = RecordInfo {
        ip4: Some(IP4),
        udp4: Some(9000),
        tcp4: Some(9001),
        ip6: Some(IP6),
        udp6: Some(9002),
        tcp6: Some(9003),
    };
    let parts = multiaddr(&info);
    assert_eq!(
        parts,
        vec![
            MultiaddrPart { ip: IpAddress::V4(IP4), transport: Transport::Udp, port: 9000 },
            MultiaddrPart { ip: IpAddress::V4(IP4), transport: Transport::Tcp, port: 9001 },
            MultiaddrPart { ip: IpAddress::V6(IP6), transport: Transport::Udp, port: 9002 },
            MultiaddrPart { ip: IpAddress::V6(IP6), transport: Transport::Tcp, port: 9003 },
        ]
    );
}

#[test]
fn missing_ports_or_addresses_yield_nothing_for_them() {
    let mut info = empty();
    info.ip4 = Some(IP4);
    assert_eq!(multiaddr(&info), vec![]);

    info.udp4 = Some(9000);
    assert_eq!(
        multiaddr(&info),
        vec![MultiaddrPart { ip: IpAddress::V4(IP4), transport: Transport::Udp, port: 9000 }]
    );

    let mut v6_only = empty();
    v6_only.ip6 = Some(IP6);
    v6_only.tcp6 = Some(30303);
    assert_eq!(
        multiaddr(&v6_only),
        vec![MultiaddrPart { ip: IpAddress::V6(IP6), transport: Transport::Tcp, port: 30303 }]
    );

    let mut ports_only = empty();
    ports_only.udp4 = Some(9000);
    ports_only.udp6 = Some(9001);
    assert_eq!(multiaddr(&ports_only), vec![]);

    assert_eq!(multiaddr(&empty()), vec![]);
}
