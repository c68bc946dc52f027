use discv5_cli::logging::{level_name, LogLevel};
use discv5_cli::server::command::Server;
use discv5_cli::server::enr_build::{build, IpAddress};
use discv5_cli::server::keys::{generate, key_choice, KeyChoice, KeyError};

/// The node identifier the record signed with the configuration's key gets.
fn node_id_for(server: &Server) -> [u8; 32] {
    let key = generate(server).unwrap();
    let listen = vec![IpAddress::V4([127, 0, 0, 1])];
    let with_address = Server { enr_default: true, listen_port: 9000, ..server.clone() };
    build(&with_address, &listen, &None, &key).unwrap().inner.node_id().raw()
}

#[test]
fn fixed_key_gives_a_deterministic_identity() {
    let server = Server { static_key: true, ..Default::default() };
    assert_eq!(node_id_for(&server), node_id_for(&server));
}

#[test]
fn fixed_key_wins_over_a_supplied_key() {
    let fixed = Server { static_key: true, ..Default::default() };
    let both = Server {
        static_key: true,
        secp256k1_key: Some("77".repeat(32)),
        ..Default::default()
    };
    assert_eq!(node_id_for(&fixed), node_id_for(&both));

    let supplied = Server { secp256k1_key: Some("77".repeat(32)), ..Default::default() };
    assert_ne!(node_id_for(&fixed), node_id_for(&supplied));
}

#[test]
fn supplied_key_is_honored_and_deterministic() {
    let a = Server { secp256k1_key: Some("77".repeat(32)), ..Default::default() };
    let b = Server { secp256k1_key: Some("77".repeat(32)), ..Default::default() };
    assert_eq!(node_id_for(&a), node_id_for(&b));

    let other = Server { secp256k1_key: Some("78".repeat(32)), ..Default::default() };
    assert_ne!(node_id_for(&a), node_id_for(&other));
}

#[test]
fn generated_keys_differ_across_runs() {
    let server = Server::default();
    assert_ne!(node_id_for(&server), node_id_for(&server));
}

#[test]
fn malformed_key_input_is_fatal() {
    fn error_for(server: &Server) -> KeyError {
        match generate(server) {
            Err(e) => e,
            Ok(_) => panic!("a malformed key must be fatal"),
        }
    }

    let bad_hex = Server { secp256k1_key: Some("not-hex".to_string()), ..Default::default() };
    assert_eq!(error_for(&bad_hex), KeyError::InvalidKeyHex);

    let odd_hex = Server { secp256k1_key: Some("abc".to_string()), ..Default::default() };
    assert_eq!(error_for(&odd_hex), KeyError::InvalidKeyHex);

    // a zero scalar is no secp256k1 secret key
    let zero = Server { secp256k1_key: Some("00".repeat(32)), ..Default::default() };
    assert_eq!(error_for(&zero), KeyError::InvalidKey);

    // 33 bytes cannot be a scalar
    let long = Server { secp256k1_key: Some("11".repeat(33)), ..Default::default() };
    assert_eq!(error_for(&long), KeyError::InvalidKey);
}

#[test]
fn level_names_match_filters() {
    assert_eq!(level_name(LogLevel::Trace), "trace");
    assert_eq!(level_name(LogLevel::Debug), "debug");
    assert_eq!(level_name(LogLevel::Info), "info");
    assert_eq!(level_name(LogLevel::Warn), "warn");
    assert_eq!(level_name(LogLevel::Error), "error");
}

#[test]
fn key_source_precedence_is_fixed() {
    let both = Server {
        static_key: true,
        secp256k1_key: Some("77".repeat(32)),
        ..Default::default()
    };
    assert_eq!(key_choice(&both), KeyChoice::Fixed);

    let supplied = Server { secp256k1_key: Some("77".repeat(32)), ..Default::default() };
    assert_eq!(key_choice(&supplied), KeyChoice::Supplied);

    assert_eq!(key_choice(&Server::default()), KeyChoice::Generated);
}
