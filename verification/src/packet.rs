//! Decoding of raw protocol packets given as hex text: the packet payload
//! and the destination node identifier are validated and decoded here, the
//! wire format itself is the engine's.

use vstd::prelude::*;

use crate::engine;
use crate::engine::packet_decode_ok;
use crate::parse::hex_decode;
use crate::parse::is_hex_string;
use crate::parse::spec_hex_decode;

verus! {

/// Packet command.
#[derive(Clone, Debug)]
pub struct Packet {
    /// Packet subcommand.
    pub subcommand: PacketSubcommand,
}

/// Packet subcommand.
#[derive(Clone, Debug)]
pub enum PacketSubcommand {
    /// Decodes a packet.
    Decode(Decode),
}

/// Decode options.
#[derive(Clone, Debug, PartialEq, Eq, PartialOrd, Ord)]
pub struct Decode {
    /// The packet to be decoded, as a hex string.
    pub packet: String,
    /// The node id of the destination of this packet (to recognize WHOAREYOU
    /// packets), as a hex string.
    pub node_id: String,
}

/// Errors of packet decoding: malformed operator input, or a payload the
/// engine's parser rejects.
#[derive(Clone, Copy, Debug, PartialEq, Eq, Structural)]
pub enum PacketError {
    /// The packet payload is not a valid hex string.
    InvalidPacketHex,
    /// The node identifier is not a valid hex string.
    InvalidNodeIdHex,
    /// The node identifier is longer than 32 bytes.
    NodeIdTooLong,
    /// The engine's parser rejected the payload.
    Undecodable,
}

/// Decodes a packet from the command's hex inputs. The payload hex is
/// checked first, then the node-id hex, then the node-id length; with valid
/// inputs the engine's parser decides, and its acceptance is a function of
/// the two byte strings alone.
pub fn decode(input: &Decode) -> (r: Result<engine::WirePacket, PacketError>)
    ensures
        !is_hex_string(input.packet@) ==> r == Err::<engine::WirePacket, PacketError>(
            PacketError::InvalidPacketHex,
        ),
        is_hex_string(input.packet@) && !is_hex_string(input.node_id@) ==> r == Err::<
            engine::WirePacket,
            PacketError,
        >(PacketError::InvalidNodeIdHex),
        is_hex_string(input.packet@) && is_hex_string(input.node_id@) && spec_hex_decode(
            input.node_id@,
        ).len() > 32 ==> r == Err::<engine::WirePacket, PacketError>(PacketError::NodeIdTooLong),
        is_hex_string(input.packet@) && is_hex_string(input.node_id@) && spec_hex_decode(
            input.node_id@,
        ).len() <= 32 ==> (r is Ok <==> packet_decode_ok(
            spec_hex_decode(input.node_id@),
            spec_hex_decode(input.packet@),
        )),
{
    let packet_bytes = match hex_decode(input.packet.as_str()) {
        Some(b) => b,
        None => {
            return Err(PacketError::InvalidPacketHex);
        },
    };
    let id_bytes = match hex_decode(input.node_id.as_str()) {
        Some(b) => b,
        None => {
            return Err(PacketError::InvalidNodeIdHex);
        },
    };
    if id_bytes.len() > 32 {
        return Err(PacketError::NodeIdTooLong);
    }
    match engine::decode_packet(&id_bytes, &packet_bytes) {
        Some(packet) => Ok(packet),
        None => Err(PacketError::Undecodable),
    }
}

} // verus!
