//! Bootstraps the routing table from a parsed peer list: every entry whose
//! identity record parses is handed to the engine's routing table, entries
//! with unparsable records are skipped, and the load never fails as a whole.

use vstd::prelude::*;

use crate::engine;
use crate::engine::enr_parse_ok;

verus! {

/// The direction of a node connection.
#[derive(Clone, Copy, Debug, PartialEq, Eq, PartialOrd, Ord, Hash, Structural)]
pub enum Direction {
    /// An inbound connection.
    Inbound,
    /// An outbound connection.
    Outbound,
}

/// The connection state of a node.
#[derive(Clone, Copy, Debug, PartialEq, Eq, PartialOrd, Ord, Hash, Structural)]
pub enum State {
    /// Connected state.
    Connected,
    /// Disconnected state.
    Disconnected,
}

/// A bootstrap node.
#[derive(Clone, Debug, PartialEq, Eq, PartialOrd, Ord, Hash)]
pub struct BootstrapNode {
    /// The node's peer id.
    pub peer_id: String,
    /// The node's identity record, in textual (base64) form.
    pub enr: String,
    /// The last seen p2p address.
    pub last_seen_p2p_address: String,
    /// The node's state.
    pub state: State,
    /// The node's direction.
    pub direction: Direction,
}

/// The top level bootstrap object.
#[derive(Clone, Debug, PartialEq, Eq, PartialOrd, Ord, Hash)]
pub struct BootstrapStore {
    /// The list of bootstrap nodes.
    pub data: Vec<BootstrapNode>,
}

/// How many entries of the list have a parsable identity record.
pub open spec fn count_parsable(nodes: Seq<BootstrapNode>) -> nat
    decreases nodes.len(),
{
    if nodes.len() == 0 {
        0
    } else {
        count_parsable(nodes.drop_last()) + if enr_parse_ok(nodes.last().enr@) {
            1nat
        } else {
            0nat
        }
    }
}

/// Registers the peers of a bootstrap list with the routing table. Every
/// entry whose identity record parses is handed to the engine — duplicates
/// included, deduplication being the table's own policy — and every other
/// entry is skipped. Returns the number registered and the number skipped;
/// one invalid entry never aborts the load.
pub fn boostrap(engine: &engine::Engine, store: &BootstrapStore) -> (r: (usize, usize))
    ensures
        r.0 == count_parsable(store.data@),
        r.0 + r.1 == store.data@.len(),
{
    let mut registered: usize = 0;
    let mut skipped: usize = 0;
    let mut i: usize = 0;
    while i < store.data.len()
        invariant
            i <= store.data@.len(),
            registered == count_parsable(store.data@.take(i as int)),
            registered + skipped == i,
        decreases store.data@.len() - i,
    {
        proof {
            assert(store.data@.take(i + 1).drop_last() =~= store.data@.take(i as int));
            assert(store.data@.take(i + 1).last() == store.data@[i as int]);
        }
        let node = &store.data[i];
        match engine::parse_record(node.enr.as_str()) {
            Some(record) => {
                engine::register_record(engine, record);
                registered = registered + 1;
            },
            None => {
                skipped = skipped + 1;
            },
        }
        i = i + 1;
    }
    proof {
        assert(store.data@.take(store.data@.len() as int) =~= store.data@);
    }
    (registered, skipped)
}

} // verus!
