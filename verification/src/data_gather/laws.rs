//! Properties of the data gathering format that hold across inputs.
use crate::data_gather::spec::{data_gather_of, find_terminator, lemma_find_terminator, record_of, records_from};
use crate::data_gather::types::DataGatherLogView;
use vstd::prelude::*;

verus! {

/// The frame that carries payload `p` as a record of category `c`.
pub open spec fn frame(c: u8, p: Seq<u8>) -> Seq<u8> {
    seq![0x5bu8, c, 0x3du8] + p + seq![0x2fu8, 0x5du8]
}

/// `p` holds a `/]`, which would end its frame early.
pub open spec fn holds_terminator(p: Seq<u8>) -> bool {
    exists|i: int| 0 <= i && i + 1 < p.len() && #[trigger] p[i] == 0x2f && p[i + 1] == 0x5d
}

/// A `/]` found inside `d` is still the first one once bytes are appended.
proof fn lemma_find_terminator_extend(d: Seq<u8>, x: Seq<u8>, s: int)
    requires
        0 <= s,
        find_terminator(d, s) is Some,
    ensures
        find_terminator(d + x, s) == find_terminator(d, s),
    decreases d.len() - s,
{
    let q = d + x;
    assert(s + 1 < d.len());
    assert(q[s] == d[s] && q[s + 1] == d[s + 1]);
    if !(d[s] == 0x2f && d[s + 1] == 0x5d) {
        lemma_find_terminator_extend(d, x, s + 1);
    }
}

/// In `q`, the first `/]` from `k` on is at `t`, when none starts in `k..t`.
proof fn lemma_find_terminator_at(q: Seq<u8>, k: int, t: int)
    requires
        k <= t,
        t + 1 < q.len(),
        q[t] == 0x2f && q[t + 1] == 0x5d,
        forall|i: int| k <= i < t ==> !(#[trigger] q[i] == 0x2f && q[i + 1] == 0x5d),
    ensures
        find_terminator(q, k) == Some(t),
    decreases t - k,
{
    if k < t {
        lemma_find_terminator_at(q, k + 1, t);
    }
}

/// The frame appended at the end of `d` decodes to its record alone.
proof fn lemma_records_of_last_frame(d: Seq<u8>, c: u8, p: Seq<u8>)
    requires
        record_of(c, p) is Ok,
        !holds_terminator(p),
    ensures
        records_from(d + frame(c, p), d.len() as int) == Ok::<_, crate::error::ParseError>(
            seq![record_of(c, p)->Ok_0],
        ),
{
    let q = d + frame(c, p);
    let o = d.len() as int;
    let r = record_of(c, p)->Ok_0;
    assert(q.len() == d.len() + p.len() + 5);
    let t = o + 3 + p.len();
    assert(q[t] == 0x2f && q[t + 1] == 0x5d);
    assert forall|i: int| o + 3 <= i < t implies !(#[trigger] q[i] == 0x2f && q[i + 1] == 0x5d) by {
        if i + 1 < t {
            assert(q[i] == p[i - o - 3] && q[i + 1] == p[i + 1 - o - 3]);
        } else {
            assert(q[i + 1] == 0x2f);
        }
    }
    lemma_find_terminator_at(q, o + 3, t);
    assert(q.subrange(o + 3, t) =~= p);
    assert(q[o] == 0x5b && q[o + 1] == c && q[o + 2] == 0x3d);
    assert(records_from(q, t + 2) == Ok::<_, crate::error::ParseError>(Seq::<crate::data_gather::types::DataGatherRecordView>::empty()));
    assert(seq![r] + Seq::empty() =~= seq![r]);
}

/// Appending a frame to bytes whose records decode from `o` on adds exactly its record.
proof fn lemma_records_extend(d: Seq<u8>, c: u8, p: Seq<u8>, o: int)
    requires
        0 <= o <= d.len(),
        records_from(d, o) is Ok,
        record_of(c, p) is Ok,
        !holds_terminator(p),
    ensures
        records_from(d + frame(c, p), o) == Ok::<_, crate::error::ParseError>(
            records_from(d, o)->Ok_0.push(record_of(c, p)->Ok_0),
        ),
    decreases d.len() - o,
{
    let q = d + frame(c, p);
    let r = record_of(c, p)->Ok_0;
    assert(q.len() == d.len() + p.len() + 5);
    if o == d.len() {
        lemma_records_of_last_frame(d, c, p);
        assert(Seq::<crate::data_gather::types::DataGatherRecordView>::empty().push(r) =~= seq![r]);
    } else {
        assert(d[o] == 0x5b && o + 2 < d.len() && d[o + 2] == 0x3d);
        assert(q[o] == d[o] && q[o + 1] == d[o + 1] && q[o + 2] == d[o + 2]);
        let e = find_terminator(d, o + 3)->Some_0;
        lemma_find_terminator(d, o + 3);
        lemma_find_terminator_extend(d, frame(c, p), o + 3);
        assert(q.subrange(o + 3, e) =~= d.subrange(o + 3, e));
        let r0 = record_of(d[o + 1], d.subrange(o + 3, e))->Ok_0;
        lemma_records_extend(d, c, p, e + 2);
        let rest = records_from(d, e + 2)->Ok_0;
        assert(seq![r0] + rest.push(r) =~= (seq![r0] + rest).push(r));
    }
}

/// Appending a well-formed frame to a log that decodes gives the same log with the frame's
/// record added at the end: records are decoded independently of one another. A payload
/// holding `/]` is left out, since its frame would end early.
pub proof fn law_append_frame(d: Seq<u8>, c: u8, p: Seq<u8>)
    requires
        data_gather_of(d) is Ok,
        record_of(c, p) is Ok,
        !holds_terminator(p),
    ensures
        data_gather_of(d + frame(c, p)) == Ok::<_, crate::error::ParseError>(
            DataGatherLogView {
                records: data_gather_of(d)->Ok_0.records.push(record_of(c, p)->Ok_0),
                ..data_gather_of(d)->Ok_0
            },
        ),
{
    lemma_records_extend(d, c, p, 20);
    let q = d + frame(c, p);
    assert(q.subrange(0, 20) =~= d.subrange(0, 20));
    assert(forall|i: int| 0 <= i < 20 ==> q[i] == d[i]);
}

/// A log of just its 20-byte header decodes, with no records.
pub proof fn law_header_only(d: Seq<u8>)
    requires
        d.len() == 20,
    ensures
        data_gather_of(d) matches Ok(log) && log.records.len() == 0,
{
}

/// Searching for `/]` in bytes equal from `s` on in `a` and from `t` on in `b` finds it at the
/// same distance.
proof fn lemma_find_terminator_shift(a: Seq<u8>, b: Seq<u8>, s: int, t: int)
    requires
        0 <= s <= a.len(),
        0 <= t <= b.len(),
        a.subrange(s, a.len() as int) == b.subrange(t, b.len() as int),
    ensures
        find_terminator(b, t) == match find_terminator(a, s) {
            Some(e) => Some(e - s + t),
            None => None,
        },
    decreases a.len() - s,
{
    assert(a.subrange(s, a.len() as int).len() == a.len() - s);
    assert(b.subrange(t, b.len() as int).len() == b.len() - t);
    assert(a.len() - s == b.len() - t);
    if s + 1 < a.len() {
        assert(a[s] == a.subrange(s, a.len() as int)[0]);
        assert(b[t] == b.subrange(t, b.len() as int)[0]);
        assert(a[s + 1] == a.subrange(s, a.len() as int)[1]);
        assert(b[t + 1] == b.subrange(t, b.len() as int)[1]);
        if !(a[s] == 0x2f && a[s + 1] == 0x5d) {
            assert(a.subrange(s + 1, a.len() as int) =~= a.subrange(s, a.len() as int).subrange(1, a.len() - s));
            assert(b.subrange(t + 1, b.len() as int) =~= b.subrange(t, b.len() as int).subrange(1, b.len() - t));
            lemma_find_terminator_shift(a, b, s + 1, t + 1);
        }
    }
}

/// Records that decode from `s` on in `a` decode the same from `t` on in `b` when the bytes
/// from there on are the same.
proof fn lemma_records_shift(a: Seq<u8>, b: Seq<u8>, s: int, t: int)
    requires
        0 <= s <= a.len(),
        0 <= t <= b.len(),
        a.subrange(s, a.len() as int) == b.subrange(t, b.len() as int),
        records_from(a, s) is Ok,
    ensures
        records_from(b, t) == records_from(a, s),
    decreases a.len() - s,
{
    let sa = a.subrange(s, a.len() as int);
    let sb = b.subrange(t, b.len() as int);
    assert(sa.len() == a.len() - s && sb.len() == b.len() - t);
    assert(a.len() - s == b.len() - t);
    if s < a.len() {
        assert(a[s] == sa[0] && b[t] == sb[0]);
        assert(a[s + 1] == sa[1] && b[t + 1] == sb[1]);
        assert(a[s + 2] == sa[2] && b[t + 2] == sb[2]);
        assert(a.subrange(s + 3, a.len() as int) =~= sa.subrange(3, sa.len() as int));
        assert(b.subrange(t + 3, b.len() as int) =~= sb.subrange(3, sb.len() as int));
        lemma_find_terminator_shift(a, b, s + 3, t + 3);
        let e = find_terminator(a, s + 3)->Some_0;
        lemma_find_terminator(a, s + 3);
        let f = e - s + t;
        assert(a.subrange(s + 3, e) =~= sa.subrange(3, e - s));
        assert(b.subrange(t + 3, f) =~= sb.subrange(3, f - t));
        assert(a.subrange(e + 2, a.len() as int) =~= sa.subrange(e + 2 - s, sa.len() as int));
        assert(b.subrange(f + 2, b.len() as int) =~= sb.subrange(f + 2 - t, sb.len() as int));
        lemma_records_shift(a, b, e + 2, f + 2);
    }
}

/// Records decoding from `o` on in `d`, followed by records decoding from the end of `d` on
/// in `d + x`, decode together from `o` on in `d + x`.
proof fn lemma_records_concat(d: Seq<u8>, x: Seq<u8>, o: int)
    requires
        0 <= o <= d.len(),
        records_from(d, o) is Ok,
        records_from(d + x, d.len() as int) is Ok,
    ensures
        records_from(d + x, o) == Ok::<_, crate::error::ParseError>(
            records_from(d, o)->Ok_0 + records_from(d + x, d.len() as int)->Ok_0,
        ),
    decreases d.len() - o,
{
    let q = d + x;
    let rx = records_from(q, d.len() as int)->Ok_0;
    if o == d.len() {
        assert(Seq::<crate::data_gather::types::DataGatherRecordView>::empty() + rx =~= rx);
    } else {
        assert(q[o] == d[o] && q[o + 1] == d[o + 1] && q[o + 2] == d[o + 2]);
        let e = find_terminator(d, o + 3)->Some_0;
        lemma_find_terminator(d, o + 3);
        lemma_find_terminator_extend(d, x, o + 3);
        assert(q.subrange(o + 3, e) =~= d.subrange(o + 3, e));
        let r0 = record_of(d[o + 1], d.subrange(o + 3, e))->Ok_0;
        lemma_records_concat(d, x, e + 2);
        let rest = records_from(d, e + 2)->Ok_0;
        assert(seq![r0] + (rest + rx) =~= (seq![r0] + rest) + rx);
    }
}

/// Two logs with the same header whose records decode join into one log: the header followed
/// by both logs' record bytes decodes to the first log's records followed by the second's.
pub proof fn law_concat_logs(h: Seq<u8>, s1: Seq<u8>, s2: Seq<u8>)
    requires
        h.len() == 20,
        data_gather_of(h + s1) is Ok,
        data_gather_of(h + s2) is Ok,
    ensures
        data_gather_of(h + s1 + s2) == Ok::<_, crate::error::ParseError>(
            DataGatherLogView {
                records: data_gather_of(h + s1)->Ok_0.records + data_gather_of(h + s2)->Ok_0.records,
                ..data_gather_of(h + s1)->Ok_0
            },
        ),
{
    let d = h + s1;
    let q = d + s2;
    let b = h + s2;
    assert(q.subrange(d.len() as int, q.len() as int) =~= s2);
    assert(b.subrange(20, b.len() as int) =~= s2);
    lemma_records_shift(b, q, 20, d.len() as int);
    lemma_records_concat(d, s2, 20);
    assert(forall|i: int| 0 <= i < 20 ==> #[trigger] q[i] == d[i]);
}

} // verus!
