//! The trusted boundary to the discv5 protocol engine.
//!
//! Everything the library needs from the engine crate goes through the items
//! here: opaque holders for the engine's service handle and its identity
//! records (whose generic types Verus cannot declare directly), declarations
//! of the engine's plain types, and thin wrappers around single engine calls.
//! Each wrapper's contract states only what the engine's own source shows;
//! the rest of the crate is verified against these contracts.

use vstd::prelude::*;

use crate::server::enr_build::RecordPlan;

verus! {

#[verifier::external_type_specification]
#[verifier::external_body]
pub struct ExCombinedKey(discv5::enr::CombinedKey);

/// A shared handle to the engine's service. Opaque to verification: the
/// engine type's generic parameters cannot be declared to Verus, so the
/// handle is held behind this struct. The embedder builds it around its own
/// reference-counted handle.
#[verifier::external_body]
pub struct Engine {
    /// The engine's service handle, shared with the embedder.
    pub handle: std::sync::Arc<discv5::Discv5>,
}

/// A decoded wire packet of the engine's packet type, held opaquely: only
/// the embedder reads it, for display.
#[verifier::external_body]
pub struct WirePacket {
    /// The engine's packet value.
    pub inner: discv5::packet::Packet,
}

/// A signed identity record of the engine's record type, held opaquely for
/// the same reason as [`Engine`].
#[verifier::external_body]
pub struct Record {
    /// The engine's record value.
    pub inner: discv5::Enr,
}

/// Whether the engine's record parser accepts a textual (base64) identity
/// record. Parsing is a function of the string alone.
pub uninterp spec fn enr_parse_ok(s: Seq<char>) -> bool;

/// Relies on `enr::Enr::from_str` (via `str::parse`): decoding a base64
/// identity record and checking its signature depend on the string alone.
#[verifier::external_body]
pub fn parse_record(s: &str) -> (r: Option<Record>)
    ensures
        r is Some <==> enr_parse_ok(s@),
{
    s.parse::<discv5::Enr>().ok().map(|inner| Record { inner })
}

/// Relies on `discv5::Discv5::add_enr`: hands a record to the engine's
/// routing table; the table's own insertion policy decides acceptance, so
/// nothing is promised of the outcome.
#[verifier::external_body]
pub fn register_record(engine: &Engine, record: Record) -> (accepted: bool) {
    engine.handle.add_enr(record.inner).is_ok()
}

/// Relies on `enr::Builder`: sets exactly the fields given by the plan
/// (address and port per family, sequence number, auxiliary field under the
/// key `eth2`) on a fresh "v4"-scheme builder and signs the record. Signing
/// can fail (an oversized record or a key defect), so nothing is promised of
/// the outcome.
#[verifier::external_body]
pub fn sign_record(plan: &RecordPlan, key: &discv5::enr::CombinedKey) -> (r: Option<Record>) {
    let mut b = discv5::Enr::builder();
    if let Some(ip) = plan.ip4 { b.ip4(ip.into()); }
    if let Some(p) = plan.udp4 { b.udp4(p); }
    if let Some(ip) = plan.ip6 { b.ip6(ip.into()); }
    if let Some(p) = plan.udp6 { b.udp6(p); }
    if let Some(s) = plan.seq { b.seq(s); }
    if let Some(bytes) = &plan.eth2 { b.add_value("eth2", bytes); }
    b.build(key).ok().map(|inner| Record { inner })
}

/// Whether a byte string is accepted as a secp256k1 secret key. Acceptance
/// is a function of the bytes alone.
pub uninterp spec fn valid_secp256k1_secret(b: Seq<u8>) -> bool;

/// Relies on `enr::CombinedKey::secp256k1_from_bytes`: building a secp256k1
/// signing key from raw bytes depends on the bytes alone (the engine
/// zeroizes its input, so a copy is handed over).
#[verifier::external_body]
pub fn secp256k1_key_from_bytes(bytes: &Vec<u8>) -> (r: Option<discv5::enr::CombinedKey>)
    ensures
        r is Some <==> valid_secp256k1_secret(bytes@),
{
    let mut copy = bytes.clone();
    discv5::enr::CombinedKey::secp256k1_from_bytes(&mut copy).ok()
}

/// Relies on `enr::CombinedKey::generate_secp256k1`: a freshly generated
/// random key; nothing is promised of it.
#[verifier::external_body]
pub fn generate_secp256k1_key() -> (r: discv5::enr::CombinedKey) {
    discv5::enr::CombinedKey::generate_secp256k1()
}

/// Whether the engine's packet parser accepts `data` as a packet addressed
/// to the node whose identifier `dest_id` (at most 32 bytes, zero-padded)
/// names, under the default protocol identity. Decoding is a function of
/// these two values alone.
pub uninterp spec fn packet_decode_ok(dest_id: Seq<u8>, data: Seq<u8>) -> bool;

/// Relies on `enr::NodeId::parse` and `discv5::packet::Packet::decode` under
/// the default protocol identity: forming the identifier and unmasking and
/// decoding the packet depend on the two byte strings alone.
#[verifier::external_body]
pub fn decode_packet(dest_id: &Vec<u8>, data: &Vec<u8>) -> (r: Option<WirePacket>)
    ensures
        r is Some <==> packet_decode_ok(dest_id@, data@),
{
    let node_id = match discv5::enr::NodeId::parse(dest_id) {
        Ok(id) => id,
        Err(_) => {
            return None;
        },
    };
    discv5::packet::Packet::decode::<discv5::DefaultProtocolId>(&node_id, data)
        .ok()
        .map(|decoded| WirePacket { inner: decoded.0 })
}

} // verus!
