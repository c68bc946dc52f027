use discv5_cli::server::command::Server;
use discv5_cli::server::enr_build::{build, classify_addresses, record_plan, BuildError, IpAddress};
use discv5_cli::server::keys::generate;

const V4_A: [u8; 4] = [10, 0, 0, 1];
const V4_B: [u8; 4] = [45, 31, 182, 164];
const V6_A: [u8; 16] = [0, 0, 0, 0, 0, 0, 0, 0, 0, 0, 0, 0, 0, 0, 0, 1];
const V6_B: [u8; 16] = [0xfe, 0x80, 0, 0, 0, 0, 0, 0, 0, 0, 0, 0, 0, 0, 0, 9];

#[test]
fn classify_assigns_family_slots() {
    let addrs = vec![IpAddress::V4(V4_A), IpAddress::V6(V6_A)];
    assert_eq!(classify_addresses(&addrs), (Some(V4_A), Some(V6_A)));

    let only_v6 = vec![IpAddress::V6(V6_A)];
    assert_eq!(classify_addresses(&only_v6), (None, Some(V6_A)));

    let empty: Vec<IpAddress> = vec![];
    assert_eq!(classify_addresses(&empty), (None, None));
}

#[test]
fn classify_keeps_later_same_family_address() {
    let addrs = vec![IpAddress::V4(V4_A), IpAddress::V4(V4_B)];
    assert_eq!(classify_addresses(&addrs), (Some(V4_B), None));

    let addrs = vec![IpAddress::V6(V6_A), IpAddress::V4(V4_A), IpAddress::V6(V6_B)];
    assert_eq!(classify_addresses(&addrs), (Some(V4_A), Some(V6_B)));
}

#[test]
fn listen_mode_ignores_record_overrides() {
    let server = Server {
        enr_default: true,
        listen_port: 9000,
        listen_port_v6: Some(9001),
        enr_addresses: Some("203.0.113.7".to_string()),
        enr_v4_port: Some(50862),
        enr_v6_port: Some(50863),
        ..Default::default()
    };
    let listen = vec![IpAddress::V4(V4_A), IpAddress::V6(V6_A)];
    let overrides = Some(vec![IpAddress::V4([203, 0, 113, 7])]);
    let plan = record_plan(&server, &listen, &overrides).unwrap();
    assert_eq!(plan.ip4, Some(V4_A));
    assert_eq!(plan.udp4, Some(9000));
    assert_eq!(plan.ip6, Some(V6_A));
    assert_eq!(plan.udp6, Some(9001));
}

#[test]
fn record_mode_uses_record_addresses_and_port_overrides() {
    let server = Server {
        listen_port: 9000,
        enr_addresses: Some("45.31.182.164".to_string()),
        enr_v4_port: Some(50862),
        ..Default::default()
    };
    let listen = vec![IpAddress::V4(V4_A)];
    let record = Some(vec![IpAddress::V4(V4_B)]);
    let plan = record_plan(&server, &listen, &record).unwrap();
    assert_eq!(plan.ip4, Some(V4_B));
    assert_eq!(plan.udp4, Some(50862));
    assert_eq!(plan.ip6, None);
    assert_eq!(plan.udp6, None);
}

#[test]
fn record_mode_defaults_ports_to_listen_ports() {
    let server = Server {
        listen_port: 9000,
        listen_port_v6: None,
        enr_addresses: Some("45.31.182.164,fe80::9".to_string()),
        ..Default::default()
    };
    let listen = vec![IpAddress::V4(V4_A)];
    let record = Some(vec![IpAddress::V4(V4_B), IpAddress::V6(V6_B)]);
    let plan = record_plan(&server, &listen, &record).unwrap();
    assert_eq!(plan.ip4, Some(V4_B));
    assert_eq!(plan.udp4, Some(9000));
    assert_eq!(plan.ip6, Some(V6_B));
    assert_eq!(plan.udp6, Some(9000));
}

#[test]
fn no_addresses_leaves_record_empty() {
    let server = Server { listen_port: 9000, ..Default::default() };
    let listen = vec![IpAddress::V4(V4_A)];
    let plan = record_plan(&server, &listen, &None).unwrap();
    assert_eq!(plan.ip4, None);
    assert_eq!(plan.udp4, None);
    assert_eq!(plan.ip6, None);
    assert_eq!(plan.udp6, None);
    assert_eq!(plan.seq, None);
    assert_eq!(plan.eth2, None);
}

#[test]
fn sequence_number_parses_or_fails() {
    let good = Server { enr_seq_no: Some("69".to_string()), ..Default::default() };
    let plan = record_plan(&good, &vec![], &None).unwrap();
    assert_eq!(plan.seq, Some(69));

    let bad = Server { enr_seq_no: Some("abc".to_string()), ..Default::default() };
    assert_eq!(record_plan(&bad, &vec![], &None), Err(BuildError::InvalidSeqNo));

    let huge = Server { enr_seq_no: Some("99999999999999999999".to_string()), ..Default::default() };
    assert_eq!(record_plan(&huge, &vec![], &None), Err(BuildError::InvalidSeqNo));
}

#[test]
fn aux_field_decodes_or_fails() {
    let good = Server { enr_eth2: Some("4a2655".to_string()), ..Default::default() };
    let plan = record_plan(&good, &vec![], &None).unwrap();
    assert_eq!(plan.eth2, Some(vec![0x4a, 0x26, 0x55]));

    let odd = Server { enr_eth2: Some("4a2".to_string()), ..Default::default() };
    assert_eq!(record_plan(&odd, &vec![], &None), Err(BuildError::InvalidEth2Hex));

    let junk = Server { enr_eth2: Some("zzzz".to_string()), ..Default::default() };
    assert_eq!(record_plan(&junk, &vec![], &None), Err(BuildError::InvalidEth2Hex));
}

#[test]
fn sequence_error_reported_before_aux_error() {
    let server = Server {
        enr_seq_no: Some("nope".to_string()),
        enr_eth2: Some("zzz".to_string()),
        ..Default::default()
    };
    assert_eq!(record_plan(&server, &vec![], &None), Err(BuildError::InvalidSeqNo));
}

#[test]
fn built_record_carries_the_plan() {
    let server = Server {
        enr_default: true,
        listen_port: 9000,
        enr_seq_no: Some("7".to_string()),
        enr_eth2: Some("4a2655".to_string()),
        secp256k1_key: Some("11".repeat(32)),
        ..Default::default()
    };
    let key = generate(&server).unwrap();
    let listen = vec![IpAddress::V4(V4_B)];
    let record = build(&server, &listen, &None, &key).unwrap();
    let enr = &record.inner;
    assert_eq!(enr.ip4().map(|ip| ip.octets()), Some(V4_B));
    assert_eq!(enr.udp4(), Some(9000));
    assert_eq!(enr.seq(), 7);
    assert_eq!(enr.get("eth2").unwrap(), &[0x4au8, 0x26, 0x55][..]);
    assert!(enr.udp4_socket().is_some());
}

#[test]
fn build_fails_fatally_on_bad_aux_hex() {
    let server = Server {
        enr_eth2: Some("abc".to_string()),
        secp256k1_key: Some("11".repeat(32)),
        ..Default::default()
    };
    let key = generate(&server).unwrap();
    match build(&server, &vec![], &None, &key) {
        Err(e) => assert_eq!(e, BuildError::InvalidEth2Hex),
        Ok(_) => panic!("malformed aux hex must be fatal"),
    }
}

#[test]
fn oversized_record_fails_at_signing() {
    // a valid hex field that decodes to 300 bytes pushes the record past the
    // engine's size cap, so the plan is fine but signing fails
    let server = Server {
        enr_eth2: Some("ab".repeat(300)),
        secp256k1_key: Some("11".repeat(32)),
        ..Default::default()
    };
    let key = generate(&server).unwrap();
    assert!(record_plan(&server, &vec![], &None).is_ok());
    match build(&server, &vec![], &None, &key) {
        Err(e) => assert_eq!(e, BuildError::Signing),
        Ok(_) => panic!("an oversized record must not sign"),
    }
}
