//! Routing-table statistics: each snapshot entry is assigned the XOR-distance
//! bucket of its identifier relative to the local identifier (entries with no
//! computable bucket — the local identifier itself — are excluded), and every
//! non-empty bucket is reported with its connected-incoming,
//! connected-outgoing and disconnected counts.

use vstd::prelude::*;

use crate::server::bootstrap::Direction;
use crate::server::bootstrap::State;

verus! {

/// One routing-table entry as read at snapshot time.
#[derive(Clone, Copy, Debug, PartialEq, Eq)]
pub struct SnapshotEntry {
    /// The entry's node identifier.
    pub node_id: [u8; 32],
    /// The entry's connection state.
    pub state: State,
    /// The entry's connection direction.
    pub direction: Direction,
}

/// Connection counts of one non-empty bucket.
#[derive(Clone, Copy, Debug, PartialEq, Eq, Structural)]
pub struct BucketStat {
    /// The bucket index: the log2 XOR distance from the local identifier,
    /// in 1..=256.
    pub bucket: u64,
    /// Peers connected on an inbound connection.
    pub connected_incoming: usize,
    /// Peers connected on an outbound connection.
    pub connected_outgoing: usize,
    /// Disconnected peers.
    pub disconnected: usize,
}

/// Number of leading zero bits of a byte.
pub open spec fn leading_zeros8(x: u8) -> int {
    if x >= 128 {
        0
    } else if x >= 64 {
        1
    } else if x >= 32 {
        2
    } else if x >= 16 {
        3
    } else if x >= 8 {
        4
    } else if x >= 4 {
        5
    } else if x >= 2 {
        6
    } else if x >= 1 {
        7
    } else {
        8
    }
}

/// The log2 XOR distance of two 32-byte identifiers, scanning from byte
/// `i`: the position (counted from 1 at the least significant bit) of the
/// highest bit in which they differ, or `None` if they are equal.
pub open spec fn log2_distance_from(a: Seq<u8>, b: Seq<u8>, i: int) -> Option<u64>
    decreases 32 - i,
{
    if i < 0 || i >= 32 {
        None
    } else if a[i] != b[i] {
        Some((256 - 8 * i - leading_zeros8(a[i] ^ b[i])) as u64)
    } else {
        log2_distance_from(a, b, i + 1)
    }
}

/// The log2 XOR distance of two 32-byte identifiers: `None` exactly for a
/// pair of equal identifiers, else in 1..=256.
pub open spec fn log2_distance(a: Seq<u8>, b: Seq<u8>) -> Option<u64> {
    log2_distance_from(a, b, 0)
}

/// Number of leading zero bits of a byte.
fn byte_leading_zeros(x: u8) -> (r: u8)
    ensures
        r as int == leading_zeros8(x),
{
    if x >= 128 {
        0
    } else if x >= 64 {
        1
    } else if x >= 32 {
        2
    } else if x >= 16 {
        3
    } else if x >= 8 {
        4
    } else if x >= 4 {
        5
    } else if x >= 2 {
        6
    } else if x >= 1 {
        7
    } else {
        8
    }
}

/// The bucket index of `node` relative to `local`: the log2 XOR distance of
/// the two identifiers, `None` exactly when they are equal — the local
/// identifier's own entry has no bucket.
pub fn bucket_index(local: &[u8; 32], node: &[u8; 32]) -> (r: Option<u64>)
    ensures
        r == log2_distance(local@, node@),
        r is None <==> local@ == node@,
        r matches Some(b) ==> 1 <= b <= 256,
{
    let mut i: usize = 0;
    while i < 32
        invariant
            i <= 32,
            local@.len() == 32,
            node@.len() == 32,
            forall|k: int| 0 <= k < i ==> local@[k] == node@[k],
            log2_distance(local@, node@) == log2_distance_from(local@, node@, i as int),
        decreases 32 - i,
    {
        let a = local[i];
        let b = node[i];
        if a != b {
            let x = a ^ b;
            assert(x != 0) by (bit_vector)
                requires
                    a != b,
                    x == a ^ b,
            ;
            let lz = byte_leading_zeros(x);
            let d: u64 = 256 - 8 * (i as u64) - (lz as u64);
            return Some(d);
        }
        i = i + 1;
    }
    assert(local@ =~= node@);
    None
}

/// An entry is connected on an inbound connection.
pub open spec fn is_conn_in(e: SnapshotEntry) -> bool {
    e.state is Connected && e.direction is Inbound
}

/// An entry is connected on an outbound connection.
pub open spec fn is_conn_out(e: SnapshotEntry) -> bool {
    e.state is Connected && e.direction is Outbound
}

/// An entry is disconnected.
pub open spec fn is_disc(e: SnapshotEntry) -> bool {
    e.state is Disconnected
}

/// An entry falls in bucket `b` relative to `local`.
pub open spec fn in_bucket(local: Seq<u8>, e: SnapshotEntry, b: u64) -> bool {
    log2_distance(local, e.node_id@) == Some(b)
}

/// Number of connected-incoming entries of `s` in bucket `b`.
pub open spec fn count_conn_in(local: Seq<u8>, s: Seq<SnapshotEntry>, b: u64) -> nat
    decreases s.len(),
{
    if s.len() == 0 {
        0
    } else {
        count_conn_in(local, s.drop_last(), b) + if in_bucket(local, s.last(), b) && is_conn_in(
            s.last(),
        ) {
            1nat
        } else {
            0nat
        }
    }
}

/// Number of connected-outgoing entries of `s` in bucket `b`.
pub open spec fn count_conn_out(local: Seq<u8>, s: Seq<SnapshotEntry>, b: u64) -> nat
    decreases s.len(),
{
    if s.len() == 0 {
        0
    } else {
        count_conn_out(local, s.drop_last(), b) + if in_bucket(local, s.last(), b) && is_conn_out(
            s.last(),
        ) {
            1nat
        } else {
            0nat
        }
    }
}

/// Number of disconnected entries of `s` in bucket `b`.
pub open spec fn count_disc(local: Seq<u8>, s: Seq<SnapshotEntry>, b: u64) -> nat
    decreases s.len(),
{
    if s.len() == 0 {
        0
    } else {
        count_disc(local, s.drop_last(), b) + if in_bucket(local, s.last(), b) && is_disc(
            s.last(),
        ) {
            1nat
        } else {
            0nat
        }
    }
}

/// Number of entries of `s` with a computable bucket, whichever bucket it is.
pub open spec fn count_bucketed(local: Seq<u8>, s: Seq<SnapshotEntry>) -> nat
    decreases s.len(),
{
    if s.len() == 0 {
        0
    } else {
        count_bucketed(local, s.drop_last()) + if log2_distance(local, s.last().node_id@)
            is Some {
            1nat
        } else {
            0nat
        }
    }
}

/// The three counts a bucket's statistic would report for `s`.
pub open spec fn bucket_total(local: Seq<u8>, s: Seq<SnapshotEntry>, b: u64) -> int {
    count_conn_in(local, s, b) + count_conn_out(local, s, b) + count_disc(local, s, b) as int
}

/// Sum of all counts over a report.
pub open spec fn sum_counts(stats: Seq<BucketStat>) -> int
    decreases stats.len(),
{
    if stats.len() == 0 {
        0
    } else {
        sum_counts(stats.drop_last()) + stats.last().connected_incoming
            + stats.last().connected_outgoing + stats.last().disconnected
    }
}

/// An entry is covered by a report: its bucket, when computable, is listed.
pub open spec fn entry_covered(local: Seq<u8>, e: SnapshotEntry, stats: Seq<BucketStat>) -> bool {
    match log2_distance(local, e.node_id@) {
        Some(b) => exists|i: int| 0 <= i < stats.len() && (#[trigger] stats[i]).bucket == b,
        None => true,
    }
}

/// A report is exact for a snapshot: buckets are listed at most once, each
/// listed bucket's counts are exactly the snapshot's, every entry with a
/// computable bucket is covered by a listed bucket, and no listed bucket is
/// empty.
pub open spec fn stats_exact(local: Seq<u8>, s: Seq<SnapshotEntry>, stats: Seq<BucketStat>) -> bool {
    &&& forall|i: int, j: int|
        0 <= i < j < stats.len() ==> (#[trigger] stats[i]).bucket != (#[trigger] stats[j]).bucket
    &&& forall|i: int| 0 <= i < stats.len() ==> {
        let st = #[trigger] stats[i];
        st.connected_incoming == count_conn_in(local, s, st.bucket)
            && st.connected_outgoing == count_conn_out(local, s, st.bucket)
            && st.disconnected == count_disc(local, s, st.bucket)
    }
    &&& forall|k: int| 0 <= k < s.len() ==> entry_covered(local, #[trigger] s[k], stats)
    &&& forall|i: int| 0 <= i < stats.len() ==> bucket_total(local, s, (#[trigger] stats[i]).bucket)
        >= 1
}

/// Helper: an identifier never differs from itself, from any scan position.
proof fn lemma_log2_self(a: Seq<u8>, i: int)
    requires
        0 <= i <= 32,
    ensures
        log2_distance_from(a, a, i) is None,
    decreases 32 - i,
{
    if i < 32 {
        lemma_log2_self(a, i + 1);
    }
}

/// Law: the distance of an identifier to itself is not computable, so the
/// local identifier's own entry falls in no bucket and is counted nowhere.
pub proof fn lemma_own_entry_excluded(local: Seq<u8>)
    ensures
        log2_distance(local, local) is None,
{
    lemma_log2_self(local, 0);
}

/// Law: an exact report lists exactly the non-empty buckets — a bucket
/// appears in the report if and only if some snapshot entry falls in it.
pub proof fn lemma_reported_iff_nonempty(
    local: Seq<u8>,
    entries: Seq<SnapshotEntry>,
    stats: Seq<BucketStat>,
    b: u64,
)
    requires
        stats_exact(local, entries, stats),
    ensures
        (exists|i: int| 0 <= i < stats.len() && (#[trigger] stats[i]).bucket == b) <==> bucket_total(
            local,
            entries,
            b,
        ) >= 1,
{
    if bucket_total(local, entries, b) >= 1 {
        lemma_count_pos_witness(local, entries, b);
        let k = choose|k: int| 0 <= k < entries.len() && in_bucket(local, #[trigger] entries[k], b);
        assert(entry_covered(local, entries[k], stats));
    }
}

/// Helper: each per-bucket count is bounded by the number of entries.
proof fn lemma_counts_le_len(local: Seq<u8>, s: Seq<SnapshotEntry>, b: u64)
    ensures
        count_conn_in(local, s, b) <= s.len(),
        count_conn_out(local, s, b) <= s.len(),
        count_disc(local, s, b) <= s.len(),
    decreases s.len(),
{
    if s.len() > 0 {
        lemma_counts_le_len(local, s.drop_last(), b);
    }
}

/// Helper: a bucket with a positive count holds a witness entry.
proof fn lemma_count_pos_witness(local: Seq<u8>, s: Seq<SnapshotEntry>, b: u64)
    requires
        bucket_total(local, s, b) > 0,
    ensures
        exists|k: int| 0 <= k < s.len() && in_bucket(local, #[trigger] s[k], b),
    decreases s.len(),
{
    if s.len() > 0 {
        if in_bucket(local, s.last(), b) {
            assert(s[s.len() - 1] == s.last());
        } else {
            lemma_count_pos_witness(local, s.drop_last(), b);
            let k = choose|k: int|
                0 <= k < s.drop_last().len() && in_bucket(local, #[trigger] s.drop_last()[k], b);
            assert(s[k] == s.drop_last()[k]);
        }
    }
}

/// Helper: replacing one statistic changes the report's sum by the change of
/// that statistic's own counts.
proof fn lemma_sum_counts_update(stats: Seq<BucketStat>, i: int, st: BucketStat)
    requires
        0 <= i < stats.len(),
    ensures
        sum_counts(stats.update(i, st)) == sum_counts(stats) + (st.connected_incoming
            + st.connected_outgoing + st.disconnected) - (stats[i].connected_incoming
            + stats[i].connected_outgoing + stats[i].disconnected),
    decreases stats.len(),
{
    if i == stats.len() - 1 {
        assert(stats.update(i, st).drop_last() =~= stats.drop_last());
        assert(stats.update(i, st).last() == st);
    } else {
        lemma_sum_counts_update(stats.drop_last(), i, st);
        assert(stats.update(i, st).drop_last() =~= stats.drop_last().update(i, st));
        assert(stats.update(i, st).last() == stats.last());
    }
}

/// Finds the statistic already opened for bucket `b`, if any.
fn find_bucket(stats: &Vec<BucketStat>, b: u64) -> (r: Option<usize>)
    ensures
        r matches Some(i) ==> i < stats@.len() && stats@[i as int].bucket == b,
        r is None ==> forall|i: int| 0 <= i < stats@.len() ==> (#[trigger] stats@[i]).bucket != b,
{
    let mut i: usize = 0;
    while i < stats.len()
        invariant
            i <= stats@.len(),
            forall|k: int| 0 <= k < i ==> (#[trigger] stats@[k]).bucket != b,
        decreases stats@.len() - i,
    {
        if stats[i].bucket == b {
            return Some(i);
        }
        i = i + 1;
    }
    None
}

/// Aggregates a routing-table snapshot into per-bucket connection counts:
/// exactly the non-empty buckets are reported, in order of first appearance,
/// each with exact connected-incoming, connected-outgoing and disconnected
/// counts; the sum of all counts is the number of entries with a computable
/// bucket, so the local identifier's own entry is never counted.
pub fn aggregate_stats(local: &[u8; 32], entries: &Vec<SnapshotEntry>) -> (r: Vec<BucketStat>)
    ensures
        stats_exact(local@, entries@, r@),
        sum_counts(r@) == count_bucketed(local@, entries@),
{
    let mut stats: Vec<BucketStat> = Vec::new();
    let mut k: usize = 0;
    while k < entries.len()
        invariant
            k <= entries@.len(),
            forall|i: int, j: int|
                0 <= i < j < stats@.len() ==> (#[trigger] stats@[i]).bucket != (
                #[trigger] stats@[j]).bucket,
            forall|i: int| 0 <= i < stats@.len() ==> {
                let st = #[trigger] stats@[i];
                st.connected_incoming == count_conn_in(local@, entries@.take(k as int), st.bucket)
                    && st.connected_outgoing == count_conn_out(
                    local@,
                    entries@.take(k as int),
                    st.bucket,
                ) && st.disconnected == count_disc(local@, entries@.take(k as int), st.bucket)
            },
            forall|kk: int| 0 <= kk < k ==> entry_covered(local@, #[trigger] entries@[kk], stats@),
            forall|i: int|
                0 <= i < stats@.len() ==> bucket_total(
                    local@,
                    entries@.take(k as int),
                    (#[trigger] stats@[i]).bucket,
                ) >= 1,
            sum_counts(stats@) == count_bucketed(local@, entries@.take(k as int)),
        decreases entries@.len() - k,
    {
        let ghost prefix = entries@.take(k as int);
        let ghost next = entries@.take(k + 1);
        proof {
            assert(next.drop_last() =~= prefix);
            assert(next.last() == entries@[k as int]);
        }
        let e = entries[k];
        match bucket_index(local, &e.node_id) {
            None => {
                proof {
                    lemma_step_counts_unchanged(local@, prefix, e, stats@);
                    assert forall|kk: int| 0 <= kk < k + 1 implies entry_covered(
                        local@,
                        entries@[kk],
                        stats@,
                    ) by {
                        if kk < k {
                            assert(entry_covered(local@, entries@[kk], stats@));
                        }
                    }
                }
            },
            Some(b) => {
                match find_bucket(&stats, b) {
                    Some(i) => {
                        let mut st = stats[i];
                        proof {
                            lemma_counts_le_len(local@, prefix, b);
                        }
                        if e.state == State::Connected {
                            if e.direction == Direction::Inbound {
                                st.connected_incoming = st.connected_incoming + 1;
                            } else {
                                st.connected_outgoing = st.connected_outgoing + 1;
                            }
                        } else {
                            st.disconnected = st.disconnected + 1;
                        }
                        let ghost prev = stats@;
                        proof {
                            lemma_sum_counts_update(stats@, i as int, st);
                        }
                        stats.set(i, st);
                        proof {
                            lemma_step_other_buckets(local@, prefix, e, b);
                            assert forall|kk: int| 0 <= kk < k + 1 implies entry_covered(
                                local@,
                                entries@[kk],
                                stats@,
                            ) by {
                                if kk == k {
                                    assert(stats@[i as int].bucket == b);
                                } else {
                                    assert(entry_covered(local@, entries@[kk], prev));
                                    match log2_distance(local@, entries@[kk].node_id@) {
                                        Some(b2) => {
                                            let w = choose|w: int|
                                                0 <= w < prev.len() && (
                                                #[trigger] prev[w]).bucket == b2;
                                            assert(stats@[w].bucket == b2);
                                        },
                                        None => {},
                                    }
                                }
                            }
                        }
                    },
                    None => {
                        proof {
                            if bucket_total(local@, prefix, b) > 0 {
                                lemma_count_pos_witness(local@, prefix, b);
                                let w = choose|w: int|
                                    0 <= w < prefix.len() && in_bucket(
                                        local@,
                                        #[trigger] prefix[w],
                                        b,
                                    );
                                assert(prefix[w] == entries@[w]);
                                assert(false);
                            }
                        }
                        let st = BucketStat {
                            bucket: b,
                            connected_incoming: if e.state == State::Connected && e.direction
                                == Direction::Inbound {
                                1
                            } else {
                                0
                            },
                            connected_outgoing: if e.state == State::Connected && e.direction
                                == Direction::Outbound {
                                1
                            } else {
                                0
                            },
                            disconnected: if e.state == State::Disconnected {
                                1
                            } else {
                                0
                            },
                        };
                        proof {
                            assert(sum_counts(stats@.push(st)) == sum_counts(stats@)
                                + st.connected_incoming + st.connected_outgoing
                                + st.disconnected) by {
                                assert(stats@.push(st).drop_last() =~= stats@);
                                assert(stats@.push(st).last() == st);
                            }
                        }
                        let ghost prev = stats@;
                        stats.push(st);
                        proof {
                            lemma_step_other_buckets(local@, prefix, e, b);
                            assert forall|kk: int| 0 <= kk < k + 1 implies entry_covered(
                                local@,
                                entries@[kk],
                                stats@,
                            ) by {
                                if kk == k {
                                    assert(stats@[stats@.len() - 1].bucket == b);
                                } else {
                                    assert(entry_covered(local@, entries@[kk], prev));
                                    match log2_distance(local@, entries@[kk].node_id@) {
                                        Some(b2) => {
                                            let w = choose|w: int|
                                                0 <= w < prev.len() && (
                                                #[trigger] prev[w]).bucket == b2;
                                            assert(stats@[w].bucket == b2);
                                        },
                                        None => {},
                                    }
                                }
                            }
                        }
                    },
                }
            },
        }
        k = k + 1;
    }
    proof {
        assert(entries@.take(entries@.len() as int) =~= entries@);
    }
    stats
}

/// Helper: an entry with no computable bucket changes no count.
proof fn lemma_step_counts_unchanged(
    local: Seq<u8>,
    prefix: Seq<SnapshotEntry>,
    e: SnapshotEntry,
    stats: Seq<BucketStat>,
)
    requires
        log2_distance(local, e.node_id@) is None,
    ensures
        forall|b: u64|
            count_conn_in(local, prefix.push(e), b) == count_conn_in(local, prefix, b)
                && count_conn_out(local, prefix.push(e), b) == count_conn_out(local, prefix, b)
                && count_disc(local, prefix.push(e), b) == count_disc(local, prefix, b),
        count_bucketed(local, prefix.push(e)) == count_bucketed(local, prefix),
{
    assert forall|b: u64|
        count_conn_in(local, prefix.push(e), b) == count_conn_in(local, prefix, b)
            && count_conn_out(local, prefix.push(e), b) == count_conn_out(local, prefix, b)
            && count_disc(local, prefix.push(e), b) == count_disc(local, prefix, b) by {
        assert(prefix.push(e).drop_last() =~= prefix);
        assert(prefix.push(e).last() == e);
        assert(!in_bucket(local, e, b));
    }
    assert(prefix.push(e).drop_last() =~= prefix);
}

/// Helper: an entry in bucket `b` leaves every other bucket's counts alone.
proof fn lemma_step_other_buckets(
    local: Seq<u8>,
    prefix: Seq<SnapshotEntry>,
    e: SnapshotEntry,
    b: u64,
)
    requires
        in_bucket(local, e, b),
    ensures
        forall|b2: u64|
            b2 != b ==> count_conn_in(local, prefix.push(e), b2) == count_conn_in(
                local,
                prefix,
                b2,
            ) && count_conn_out(local, prefix.push(e), b2) == count_conn_out(local, prefix, b2)
                && count_disc(local, prefix.push(e), b2) == count_disc(local, prefix, b2),
        count_conn_in(local, prefix.push(e), b) == count_conn_in(local, prefix, b) + if is_conn_in(
            e,
        ) {
            1int
        } else {
            0int
        },
        count_conn_out(local, prefix.push(e), b) == count_conn_out(local, prefix, b)
            + if is_conn_out(e) {
            1int
        } else {
            0int
        },
        count_disc(local, prefix.push(e), b) == count_disc(local, prefix, b) + if is_disc(e) {
            1int
        } else {
            0int
        },
        count_bucketed(local, prefix.push(e)) == count_bucketed(local, prefix) + 1,
{
    assert(prefix.push(e).drop_last() =~= prefix);
    assert(prefix.push(e).last() == e);
    assert forall|b2: u64| b2 != b implies count_conn_in(local, prefix.push(e), b2)
        == count_conn_in(local, prefix, b2) && count_conn_out(local, prefix.push(e), b2)
        == count_conn_out(local, prefix, b2) && count_disc(local, prefix.push(e), b2) == count_disc(
        local,
        prefix,
        b2,
    ) by {
        assert(!in_bucket(local, e, b2));
    }
}

} // verus!
