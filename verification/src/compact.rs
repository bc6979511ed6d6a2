//! Compaction: collapsing a batch of per-packet records into one record
//! per flow-key, summing byte counts.

use vstd::prelude::*;
use crate::record::{FlowKey, HostAddr, RawRecord, WireRecord, v4_bytes, v6_bytes, wire_of};

verus! {

/// Sum of the byte counts of every record in `s`.
pub open spec fn total_size(s: Seq<RawRecord>) -> int
    decreases s.len(),
{
    if s.len() == 0 {
        0
    } else {
        total_size(s.drop_last()) + s.last().size
    }
}

/// Sum of the byte counts of the records in `s` whose flow-key is `k`.
pub open spec fn key_size(s: Seq<RawRecord>, k: FlowKey) -> int
    decreases s.len(),
{
    if s.len() == 0 {
        0
    } else {
        key_size(s.drop_last(), k) + if s.last().key() == k {
            s.last().size as int
        } else {
            0
        }
    }
}

/// Every byte count in `s` is nonnegative.
pub open spec fn sizes_nonneg(s: Seq<RawRecord>) -> bool {
    forall|i: int| 0 <= i < s.len() ==> s[i].size >= 0
}

/// No two records of `s` share a flow-key.
pub open spec fn distinct_keys(s: Seq<RawRecord>) -> bool {
    forall|i: int, j: int| 0 <= i < j < s.len() ==> s[i].key() != s[j].key()
}

/// Index of the first record of `s` with flow-key `k`, or -1 when no
/// record has it.
pub open spec fn find_key(s: Seq<RawRecord>, k: FlowKey) -> int
    decreases s.len(),
{
    if s.len() == 0 {
        -1
    } else if s[0].key() == k {
        0
    } else {
        let r = find_key(s.subrange(1, s.len() as int), k);
        if r == -1 {
            -1
        } else {
            r + 1
        }
    }
}

/// Merging one record into an already compacted sequence: add its byte
/// count to the record with the same flow-key, or append it.
pub open spec fn merge_one(c: Seq<RawRecord>, r: RawRecord) -> Seq<RawRecord> {
    let i = find_key(c, r.key());
    if i >= 0 {
        c.update(i, RawRecord { size: (c[i].size + r.size) as i32, ..c[i] })
    } else {
        c.push(r)
    }
}

/// The compaction of `s`: one record per flow-key, keys in order of first
/// appearance, byte counts summed.
pub open spec fn compact_seq(s: Seq<RawRecord>) -> Seq<RawRecord>
    decreases s.len(),
{
    if s.len() == 0 {
        Seq::empty()
    } else {
        merge_one(compact_seq(s.drop_last()), s.last())
    }
}

proof fn lemma_find_key_props(s: Seq<RawRecord>, k: FlowKey)
    ensures
        find_key(s, k) == -1 ==> forall|i: int| 0 <= i < s.len() ==> s[i].key() != k,
        find_key(s, k) != -1 ==> {
            let f = find_key(s, k);
            &&& 0 <= f < s.len()
            &&& s[f].key() == k
            &&& forall|i: int| 0 <= i < f ==> s[i].key() != k
        },
    decreases s.len(),
{
    if s.len() == 0 {
    } else if s[0].key() == k {
    } else {
        let t = s.subrange(1, s.len() as int);
        lemma_find_key_props(t, k);
        let r = find_key(t, k);
        if r == -1 {
            assert forall|i: int| 0 <= i < s.len() implies s[i].key() != k by {
                if i > 0 {
                    assert(s[i] == t[i - 1]);
                }
            }
        } else {
            assert(s[r + 1] == t[r]);
            assert forall|i: int| 0 <= i < r + 1 implies s[i].key() != k by {
                if i > 0 {
                    assert(s[i] == t[i - 1]);
                }
            }
        }
    }
}

proof fn lemma_key_size_le_total(s: Seq<RawRecord>, k: FlowKey)
    requires
        sizes_nonneg(s),
    ensures
        0 <= key_size(s, k) <= total_size(s),
    decreases s.len(),
{
    if s.len() > 0 {
        assert(sizes_nonneg(s.drop_last())) by {
            assert(forall|i: int| 0 <= i < s.len() - 1 ==> s.drop_last()[i] == s[i]);
        }
        lemma_key_size_le_total(s.drop_last(), k);
    }
}

proof fn lemma_key_size_absent(s: Seq<RawRecord>, k: FlowKey)
    requires
        forall|i: int| 0 <= i < s.len() ==> s[i].key() != k,
    ensures
        key_size(s, k) == 0,
    decreases s.len(),
{
    if s.len() > 0 {
        assert(forall|i: int| 0 <= i < s.len() - 1 ==> s.drop_last()[i] == s[i]);
        lemma_key_size_absent(s.drop_last(), k);
    }
}

proof fn lemma_distinct_entry_size(c: Seq<RawRecord>, i: int)
    requires
        distinct_keys(c),
        0 <= i < c.len(),
    ensures
        key_size(c, c[i].key()) == c[i].size,
    decreases c.len(),
{
    let d = c.drop_last();
    assert(forall|m: int| 0 <= m < d.len() ==> d[m] == c[m]);
    if i == c.len() - 1 {
        assert(forall|m: int| 0 <= m < d.len() ==> d[m].key() != c[i].key());
        lemma_key_size_absent(d, c[i].key());
    } else {
        assert(distinct_keys(d));
        lemma_distinct_entry_size(d, i);
        assert(c.last().key() != c[i].key());
    }
}

/// No two records of a compacted batch share a flow-key, and every
/// flow-key of the output is the flow-key of some input record.
pub proof fn lemma_compact_distinct(s: Seq<RawRecord>)
    ensures
        distinct_keys(compact_seq(s)),
        forall|i: int| 0 <= i < compact_seq(s).len() ==> exists|j: int|
            0 <= j < s.len() && #[trigger] compact_seq(s)[i].key() == s[j].key(),
    decreases s.len(),
{
    if s.len() > 0 {
        let d = s.drop_last();
        let c = compact_seq(d);
        let r = s.last();
        lemma_compact_distinct(d);
        lemma_find_key_props(c, r.key());
        assert(forall|m: int| 0 <= m < d.len() ==> d[m] == s[m]);
        let f = find_key(c, r.key());
        if f >= 0 {
            let c2 = c.update(f, RawRecord { size: (c[f].size + r.size) as i32, ..c[f] });
            assert(forall|m: int| 0 <= m < c2.len() ==> #[trigger] c2[m].key() == c[m].key());
            assert(distinct_keys(c2));
            assert forall|i: int| 0 <= i < c2.len() implies exists|j: int|
                0 <= j < s.len() && #[trigger] c2[i].key() == s[j].key() by {
                let j0 = choose|j: int| 0 <= j < d.len() && #[trigger] c[i].key() == d[j].key();
                assert(c2[i].key() == s[j0].key());
            }
        } else {
            let c2 = c.push(r);
            assert(forall|m: int| 0 <= m < c.len() ==> c2[m] == c[m]);
            assert(c2[c.len() as int].key() == s[s.len() - 1].key());
            assert forall|i: int| 0 <= i < c2.len() implies exists|j: int|
                0 <= j < s.len() && #[trigger] c2[i].key() == s[j].key() by {
                if i < c.len() {
                    let j0 = choose|j: int| 0 <= j < d.len() && #[trigger] c[i].key() == d[j].key();
                    assert(c2[i].key() == s[j0].key());
                } else {
                    assert(c2[i].key() == s[s.len() - 1].key());
                }
            }
        }
    }
}

/// Compaction preserves, for every flow-key, the total byte count the
/// input carries for that key.
pub proof fn lemma_compact_key_size(s: Seq<RawRecord>, k: FlowKey)
    requires
        sizes_nonneg(s),
        total_size(s) <= i32::MAX,
    ensures
        key_size(compact_seq(s), k) == key_size(s, k),
    decreases s.len(),
{
    if s.len() > 0 {
        let d = s.drop_last();
        let c = compact_seq(d);
        let r = s.last();
        assert(forall|m: int| 0 <= m < d.len() ==> d[m] == s[m]);
        assert(sizes_nonneg(d));
        assert(total_size(d) <= total_size(s)) by {
            assert(r.size >= 0);
        }
        lemma_compact_key_size(d, k);
        lemma_compact_key_size(d, r.key());
        lemma_compact_distinct(d);
        lemma_find_key_props(c, r.key());
        let f = find_key(c, r.key());
        if f >= 0 {
            lemma_distinct_entry_size(c, f);
            lemma_key_size_le_total(d, r.key());
            assert(c[f].size == key_size(d, r.key()));
            assert(c[f].size + r.size <= total_size(d) + r.size);
            assert(total_size(d) + r.size == total_size(s));
            let nr = RawRecord { size: (c[f].size + r.size) as i32, ..c[f] };
            assert(nr.size == c[f].size + r.size);
            let c2 = c.update(f, nr);
            lemma_key_size_update(c, f, nr, k);
        } else {
            let c2 = c.push(r);
            assert(c2.drop_last() =~= c);
            assert(c2.last() == r);
        }
    }
}

proof fn lemma_key_size_update(c: Seq<RawRecord>, f: int, nr: RawRecord, k: FlowKey)
    requires
        0 <= f < c.len(),
        nr.key() == c[f].key(),
    ensures
        key_size(c.update(f, nr), k) == key_size(c, k) + if c[f].key() == k {
            nr.size - c[f].size
        } else {
            0
        },
    decreases c.len(),
{
    let c2 = c.update(f, nr);
    assert(c2.len() == c.len());
    if f == c.len() - 1 {
        assert(c2.drop_last() =~= c.drop_last());
        assert(c2.last() == nr);
    } else {
        assert(c2.drop_last() =~= c.drop_last().update(f, nr));
        assert(c2.last() == c.last());
        lemma_key_size_update(c.drop_last(), f, nr, k);
        assert(c.drop_last()[f] == c[f]);
    }
}

proof fn lemma_total_size_update(c: Seq<RawRecord>, f: int, nr: RawRecord)
    requires
        0 <= f < c.len(),
    ensures
        total_size(c.update(f, nr)) == total_size(c) + nr.size - c[f].size,
    decreases c.len(),
{
    let c2 = c.update(f, nr);
    if f == c.len() - 1 {
        assert(c2.drop_last() =~= c.drop_last());
        assert(c2.last() == nr);
    } else {
        assert(c2.drop_last() =~= c.drop_last().update(f, nr));
        assert(c2.last() == c.last());
        lemma_total_size_update(c.drop_last(), f, nr);
        assert(c.drop_last()[f] == c[f]);
    }
}

/// Compaction preserves the batch's total byte count: the sum over the
/// compacted batch equals the total captured bytes of the window.
pub proof fn lemma_compact_total_size(s: Seq<RawRecord>)
    requires
        sizes_nonneg(s),
        total_size(s) <= i32::MAX,
    ensures
        total_size(compact_seq(s)) == total_size(s),
    decreases s.len(),
{
    if s.len() > 0 {
        let d = s.drop_last();
        let c = compact_seq(d);
        let r = s.last();
        assert(forall|m: int| 0 <= m < d.len() ==> d[m] == s[m]);
        assert(sizes_nonneg(d));
        assert(total_size(d) <= total_size(s)) by {
            assert(r.size >= 0);
        }
        lemma_compact_total_size(d);
        lemma_compact_distinct(d);
        lemma_find_key_props(c, r.key());
        let f = find_key(c, r.key());
        if f >= 0 {
            lemma_compact_key_size(d, r.key());
            lemma_distinct_entry_size(c, f);
            lemma_key_size_le_total(d, r.key());
            assert(c[f].size == key_size(d, r.key()));
            let nr = RawRecord { size: (c[f].size + r.size) as i32, ..c[f] };
            assert(nr.size == c[f].size + r.size);
            lemma_total_size_update(c, f, nr);
        } else {
            let c2 = c.push(r);
            assert(c2.drop_last() =~= c);
            assert(c2.last() == r);
        }
    }
}

proof fn lemma_compact_of_distinct(s: Seq<RawRecord>)
    requires
        distinct_keys(s),
    ensures
        compact_seq(s) == s,
    decreases s.len(),
{
    if s.len() > 0 {
        let d = s.drop_last();
        assert(forall|m: int| 0 <= m < d.len() ==> d[m] == s[m]);
        assert(distinct_keys(d));
        lemma_compact_of_distinct(d);
        lemma_find_key_props(d, s.last().key());
        let f = find_key(d, s.last().key());
        if f >= 0 {
            assert(d[f].key() == s[f].key());
            assert(false);
        }
        assert(d.push(s.last()) =~= s);
    }
}

/// Compaction is idempotent: compacting an already compacted batch
/// returns it unchanged.
pub proof fn lemma_compact_idempotent(s: Seq<RawRecord>)
    ensures
        compact_seq(compact_seq(s)) == compact_seq(s),
{
    lemma_compact_distinct(s);
    lemma_compact_of_distinct(compact_seq(s));
}

/// When every input record has a local endpoint, so does every record of
/// the compacted batch.
pub proof fn lemma_compact_local(s: Seq<RawRecord>)
    requires
        forall|j: int| 0 <= j < s.len() ==> s[j].is_local(),
    ensures
        forall|i: int| 0 <= i < compact_seq(s).len() ==> compact_seq(s)[i].is_local(),
{
    lemma_compact_distinct(s);
    assert forall|i: int| 0 <= i < compact_seq(s).len() implies compact_seq(s)[i].is_local() by {
        let j = choose|j: int|
            0 <= j < s.len() && #[trigger] compact_seq(s)[i].key() == s[j].key();
        assert(compact_seq(s)[i].src_is_agent == s[j].src_is_agent);
        assert(compact_seq(s)[i].dst_is_agent == s[j].dst_is_agent);
    }
}

proof fn lemma_total_take_le(s: Seq<RawRecord>, i: int)
    requires
        sizes_nonneg(s),
        0 <= i <= s.len(),
    ensures
        total_size(s.take(i)) <= total_size(s),
    decreases s.len() - i,
{
    if i == s.len() {
        assert(s.take(i) =~= s);
    } else {
        assert(s.take(i + 1).drop_last() =~= s.take(i));
        assert(s.take(i + 1).last() == s[i]);
        assert(total_size(s.take(i + 1)) == total_size(s.take(i)) + s[i].size);
        lemma_total_take_le(s, i + 1);
    }
}

/// Compacts a batch: one output record per distinct flow-key of the
/// input, keys in order of first appearance, byte counts summed.
pub fn compact(batch: &Vec<RawRecord>) -> (out: Vec<RawRecord>)
    requires
        sizes_nonneg(batch@),
        total_size(batch@) <= i32::MAX,
    ensures
        out@ == compact_seq(batch@),
{
    let mut out: Vec<RawRecord> = Vec::new();
    let mut i: usize = 0;
    proof {
        assert(batch@.take(0) =~= Seq::<RawRecord>::empty());
    }
    while i < batch.len()
        invariant
            i <= batch@.len(),
            out@ == compact_seq(batch@.take(i as int)),
            sizes_nonneg(batch@),
            total_size(batch@) <= i32::MAX,
        decreases batch@.len() - i,
    {
        let p = batch[i];
        let ghost pre = batch@.take(i as int);
        proof {
            assert(batch@.take(i + 1).drop_last() =~= pre);
            assert(batch@.take(i + 1).last() == batch@[i as int]);
            assert(forall|m: int| 0 <= m < pre.len() ==> pre[m] == batch@[m]);
            assert(sizes_nonneg(pre));
            lemma_compact_distinct(pre);
            lemma_find_key_props(out@, p.key());
        }
        let mut j: usize = 0;
        while j < out.len() && !out[j].same_key(&p)
            invariant
                j <= out@.len(),
                forall|m: int| 0 <= m < j ==> out@[m].key() != p.key(),
            decreases out@.len() - j,
        {
            j = j + 1;
        }
        if j < out.len() {
            proof {
                assert(out@[j as int].key() == p.key());
                assert(find_key(out@, p.key()) == j as int);
                lemma_total_take_le(batch@, i + 1);
                lemma_compact_key_size(pre, p.key());
                lemma_distinct_entry_size(out@, j as int);
                lemma_key_size_le_total(pre, p.key());
                assert(out@[j as int].size == key_size(pre, p.key()));
                assert(key_size(pre, p.key()) + p.size <= total_size(pre) + p.size);
                assert(total_size(pre) + p.size == total_size(batch@.take(i + 1)));
            }
            let merged = RawRecord {
                size: out[j].size + p.size,
                src_ip: out[j].src_ip,
                dst_ip: out[j].dst_ip,
                src_is_agent: out[j].src_is_agent,
                dst_is_agent: out[j].dst_is_agent,
                proto: out[j].proto,
                src_port: out[j].src_port,
                dst_port: out[j].dst_port,
            };
            out[j] = merged;
            proof {
                assert(out@ =~= merge_one(compact_seq(pre), batch@[i as int]));
            }
        } else {
            proof {
                assert(find_key(out@, p.key()) == -1);
            }
            out.push(p);
            proof {
                assert(out@ =~= merge_one(compact_seq(pre), batch@[i as int]));
            }
        }
        i = i + 1;
    }
    proof {
        assert(batch@.take(i as int) =~= batch@);
    }
    out
}

/// Compacts a batch and serializes every record to its wire form. The
/// batch that reaches the wire has one record per flow-key, addresses of
/// 4 or 16 bytes, and byte counts summed per flow.
pub fn compress_packets(batch: &Vec<RawRecord>) -> (out: Vec<WireRecord>)
    requires
        sizes_nonneg(batch@),
        total_size(batch@) <= i32::MAX,
    ensures
        out@.len() == compact_seq(batch@).len(),
        forall|i: int| 0 <= i < out@.len() ==> out@[i]@ == wire_of(
            #[trigger] compact_seq(batch@)[i],
        ),
        forall|i: int| 0 <= i < out@.len() ==> (#[trigger] out@[i]@.src_ip.len() == 4
            || out@[i]@.src_ip.len() == 16) && (out@[i]@.dst_ip.len() == 4 || out@[i]@.dst_ip.len()
            == 16),
{
    let compacted = compact(batch);
    let mut out: Vec<WireRecord> = Vec::new();
    let mut i: usize = 0;
    while i < compacted.len()
        invariant
            i <= compacted@.len(),
            compacted@ == compact_seq(batch@),
            out@.len() == i,
            forall|m: int| 0 <= m < i ==> out@[m]@ == wire_of(#[trigger] compacted@[m]),
        decreases compacted@.len() - i,
    {
        out.push(crate::record::to_wire(&compacted[i]));
        i = i + 1;
    }
    proof {
        assert forall|i: int| 0 <= i < out@.len() implies (#[trigger] out@[i]@.src_ip.len() == 4
            || out@[i]@.src_ip.len() == 16) && (out@[i]@.dst_ip.len() == 4
            || out@[i]@.dst_ip.len() == 16) by {
            let rec = compact_seq(batch@)[i];
            assert(out@[i]@ == wire_of(rec));
            match rec.src_ip {
                HostAddr::V4(a) => assert(rec.src_ip.spec_bytes() == v4_bytes(a)),
                HostAddr::V6(a) => assert(rec.src_ip.spec_bytes() == v6_bytes(a)),
            }
            match rec.dst_ip {
                HostAddr::V4(a) => assert(rec.dst_ip.spec_bytes() == v4_bytes(a)),
                HostAddr::V6(a) => assert(rec.dst_ip.spec_bytes() == v6_bytes(a)),
            }
        }
    }
    out
}

} // verus!
