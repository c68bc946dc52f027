use discv5::enr as discv5_enr;
use discv5::packet as discv5_packet;
use discv5_cli::packet::{decode, Decode, PacketError};

#[test]
pub fn test_packet_decoding() {
    let source_node_id = discv5_enr::NodeId::random();
    let hex_source_node_id = hex::encode(source_node_id.raw());
    println!("Source node id: {hex_source_node_id:?}");

    let dest_node_id = discv5_enr::NodeId::random();
    let hex_dest_node_id = hex::encode(dest_node_id.raw());
    println!("Destination node id: {hex_dest_node_id:?}");

    let packet = discv5_packet::Packet::new_random(&source_node_id).unwrap();
    let encoded = hex::encode(packet.encode::<discv5::DefaultProtocolId>(&dest_node_id));
    println!("Packet as hex: 0x{encoded:?}");
}

#[test]
fn decodes_an_encoded_packet() {
    let source_node_id = discv5_enr::NodeId::random();
    let dest_node_id = discv5_enr::NodeId::random();
    let packet = discv5_packet::Packet::new_random(&source_node_id).unwrap();
    let nonce = *packet.message_nonce();
    let encoded = hex::encode(packet.encode::<discv5::DefaultProtocolId>(&dest_node_id));

    let input = Decode { packet: encoded, node_id: hex::encode(dest_node_id.raw()) };
    let decoded = decode(&input).expect("round trip must decode");
    assert_eq!(*decoded.inner.message_nonce(), nonce);
}

#[test]
fn rejects_bad_hex_and_long_node_ids() {
    let short = Decode { packet: "zz".to_string(), node_id: "00".to_string() };
    assert!(matches!(decode(&short), Err(PacketError::InvalidPacketHex)));

    let odd = Decode { packet: "abc".to_string(), node_id: "00".to_string() };
    assert!(matches!(decode(&odd), Err(PacketError::InvalidPacketHex)));

    let bad_id = Decode { packet: "00".to_string(), node_id: "0g".to_string() };
    assert!(matches!(decode(&bad_id), Err(PacketError::InvalidNodeIdHex)));

    let long_id = Decode { packet: "00".to_string(), node_id: "00".repeat(33) };
    assert!(matches!(decode(&long_id), Err(PacketError::NodeIdTooLong)));
}

#[test]
fn rejects_an_undecodable_payload() {
    let input = Decode {
        packet: "0011".to_string(),
        node_id: "00".repeat(32),
    };
    assert!(matches!(decode(&input), Err(PacketError::Undecodable)));
}
