//! Ordering racers by finish position, keeping tied racers in their original order.
use crate::race_log::types::{PlayerData, PlayerDataView};
use vstd::prelude::*;

verus! {

/// `s`, sorted by finish position, with `x` placed after every racer whose finish
/// position is not greater than its own.
pub open spec fn insert_by_finish(s: Seq<PlayerDataView>, x: PlayerDataView) -> Seq<PlayerDataView>
    decreases s.len(),
{
    if s.len() == 0 {
        seq![x]
    } else if s.last().finish_position <= x.finish_position {
        s.push(x)
    } else {
        insert_by_finish(s.drop_last(), x).push(s.last())
    }
}

/// `s` stably sorted by finish position: each racer in turn is placed after every racer
/// before it whose finish position is not greater.
pub open spec fn sort_by_finish(s: Seq<PlayerDataView>) -> Seq<PlayerDataView>
    decreases s.len(),
{
    if s.len() == 0 {
        seq![]
    } else {
        insert_by_finish(sort_by_finish(s.drop_last()), s.last())
    }
}

/// Inserting `x` at `j`, past every racer finishing no later than it and before every racer
/// finishing later, is `insert_by_finish`.
proof fn lemma_insert_at(s: Seq<PlayerDataView>, x: PlayerDataView, j: int)
    requires
        0 <= j <= s.len(),
        j > 0 ==> s[j - 1].finish_position <= x.finish_position,
        forall|k: int| j <= k < s.len() ==> #[trigger] s[k].finish_position > x.finish_position,
    ensures
        insert_by_finish(s, x) == s.insert(j, x),
    decreases s.len(),
{
    if s.len() == 0 {
        assert(s.insert(j, x) =~= seq![x]);
    } else if j == s.len() {
        assert(s.insert(j, x) =~= s.push(x));
    } else {
        lemma_insert_at(s.drop_last(), x, j);
        assert(s.drop_last().insert(j, x).push(s.last()) =~= s.insert(j, x));
    }
}

/// The views of `v`.
pub open spec fn views(v: Seq<PlayerData>) -> Seq<PlayerDataView> {
    v.map_values(|p: PlayerData| p@)
}

/// Sorts the racers by finish position, as a stable sort by that key does.
pub fn sort_by_finish_position(players: Vec<PlayerData>) -> (r: Vec<PlayerData>)
    ensures
        views(r@) == sort_by_finish(views(players@)),
{
    let ghost orig = views(players@);
    let mut rest = players;
    let mut out: Vec<PlayerData> = Vec::new();
    let n = rest.len();
    let mut i: usize = 0;
    proof {
        assert(orig.take(0) =~= Seq::<PlayerDataView>::empty());
        assert(views(out@) =~= Seq::<PlayerDataView>::empty());
        assert(views(rest@) =~= orig.skip(0));
    }
    while i < n
        invariant
            n == orig.len(),
            i <= n,
            views(rest@) == orig.skip(i as int),
            views(out@) == sort_by_finish(orig.take(i as int)),
            out@.len() == i,
            rest@.len() == n - i,
        decreases n - i,
    {
        let ghost old_rest = rest@;
        let x = rest.remove(0);
        proof {
            assert(views(old_rest)[0] == x@);
            assert(x@ == orig[i as int]);
            assert forall|k: int| 0 <= k < rest@.len() implies views(rest@)[k] == orig.skip(i + 1)[k] by {
                assert(rest@[k] == old_rest[k + 1]);
                assert(views(old_rest)[k + 1] == orig.skip(i as int)[k + 1]);
            }
            assert(views(rest@) =~= orig.skip(i + 1));
        }
        let mut j = out.len();
        while j > 0 && out[j - 1].finish_position > x.finish_position
            invariant
                j <= out@.len(),
                forall|k: int| j <= k < out@.len() ==> #[trigger] out@[k].finish_position > x.finish_position,
            decreases j,
        {
            j = j - 1;
        }
        let ghost before = views(out@);
        proof {
            assert(j > 0 ==> before[j - 1].finish_position <= x.finish_position);
            assert(forall|k: int| j <= k < before.len() ==> #[trigger] before[k].finish_position > x.finish_position);
            lemma_insert_at(before, x@, j as int);
            assert(orig.take(i + 1).drop_last() =~= orig.take(i as int));
            assert(orig.take(i + 1).last() == orig[i as int]);
        }
        out.insert(j, x);
        proof {
            assert(views(out@) =~= before.insert(j as int, x@));
        }
        i = i + 1;
    }
    proof {
        assert(orig.take(n as int) =~= orig);
    }
    out
}

} // verus!
