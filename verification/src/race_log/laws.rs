//! Properties of the racer ordering in a decoded race log.
use crate::race_log::sort::{insert_by_finish, sort_by_finish};
use crate::race_log::spec::{
    general_log_fault, general_log_of, num_racers_of, player_at, player_fault_at, player_offset,
    players_fault, players_in_order, username_units_at,
};
use crate::race_log::types::{PlayerDataView, RaceLogFault};
use crate::error::ParseError;
use crate::layout::{group_stored, stored_i32, stored_u32, stored_u64};
use crate::text::{lowercase_of, trim_nul, utf16_decode};
use vstd::prelude::*;

verus! {

broadcast use {vstd::seq_lib::to_multiset_build, Seq::lemma_filter_push};

/// Finish positions never decrease along `s`.
pub open spec fn sorted_by_finish(s: Seq<PlayerDataView>) -> bool {
    forall|i: int, j: int| 0 <= i < j < s.len() ==> s[i].finish_position <= s[j].finish_position
}

/// Whether a racer finished at position `k`.
pub open spec fn finishing_at(k: u8) -> spec_fn(PlayerDataView) -> bool {
    |p: PlayerDataView| p.finish_position == k
}

/// Inserting under a bound keeps every finish position under it.
proof fn lemma_insert_bounded(s: Seq<PlayerDataView>, x: PlayerDataView, b: u8)
    requires
        forall|i: int| 0 <= i < s.len() ==> s[i].finish_position <= b,
        x.finish_position <= b,
    ensures
        insert_by_finish(s, x).len() == s.len() + 1,
        forall|i: int| 0 <= i < insert_by_finish(s, x).len() ==> insert_by_finish(s, x)[i].finish_position <= b,
    decreases s.len(),
{
    if s.len() > 0 && s.last().finish_position > x.finish_position {
        lemma_insert_bounded(s.drop_last(), x, b);
    }
}

/// Inserting into a sorted sequence keeps it sorted and adds exactly `x`.
proof fn lemma_insert_sorted(s: Seq<PlayerDataView>, x: PlayerDataView)
    requires
        sorted_by_finish(s),
    ensures
        sorted_by_finish(insert_by_finish(s, x)),
        insert_by_finish(s, x).to_multiset() == s.to_multiset().insert(x),
    decreases s.len(),
{
    if s.len() > 0 && s.last().finish_position > x.finish_position {
        let t = s.drop_last();
        lemma_insert_sorted(t, x);
        lemma_insert_bounded(t, x, s.last().finish_position);
        assert(t.push(s.last()) =~= s);
        assert(insert_by_finish(s, x).to_multiset() =~= insert_by_finish(t, x).to_multiset().insert(s.last()));
        assert(s.to_multiset() =~= t.to_multiset().insert(s.last()));
        assert(t.to_multiset().insert(x).insert(s.last()) =~= t.to_multiset().insert(s.last()).insert(x));
        let u = insert_by_finish(t, x);
        assert forall|i: int, j: int| 0 <= i < j < u.push(s.last()).len() implies u.push(s.last())[i].finish_position
            <= u.push(s.last())[j].finish_position by {
            if j < u.len() {
                assert(u[i].finish_position <= u[j].finish_position);
            } else {
                assert(u[i].finish_position <= s.last().finish_position);
            }
        }
    } else if s.len() == 0 {
        assert(seq![x] =~= s.push(x));
    } else {
        assert forall|i: int, j: int| 0 <= i < j < s.push(x).len() implies s.push(x)[i].finish_position
            <= s.push(x)[j].finish_position by {
            if j < s.len() {
                assert(s[i].finish_position <= s[j].finish_position);
            } else if i < s.len() - 1 {
                assert(s[i].finish_position <= s[s.len() - 1].finish_position);
            }
        }
    }
}

/// Inserting `x` puts it after every racer of its finish position, and moves no other.
proof fn lemma_insert_filter(s: Seq<PlayerDataView>, x: PlayerDataView, k: u8)
    ensures
        insert_by_finish(s, x).filter(finishing_at(k)) == if x.finish_position == k {
            s.filter(finishing_at(k)).push(x)
        } else {
            s.filter(finishing_at(k))
        },
    decreases s.len(),
{
    if s.len() > 0 && s.last().finish_position > x.finish_position {
        let t = s.drop_last();
        lemma_insert_filter(t, x, k);
        assert(t.push(s.last()) =~= s);
    }
}

/// Sorting yields a sorted rearrangement that keeps racers of equal finish position in order.
proof fn lemma_sort(s: Seq<PlayerDataView>, k: u8)
    ensures
        sorted_by_finish(sort_by_finish(s)),
        sort_by_finish(s).to_multiset() == s.to_multiset(),
        sort_by_finish(s).filter(finishing_at(k)) == s.filter(finishing_at(k)),
    decreases s.len(),
{
    if s.len() == 0 {
        assert(s.filter(finishing_at(k)) =~= Seq::<PlayerDataView>::empty()) by {
            reveal(Seq::filter);
        }
        assert(sort_by_finish(s).filter(finishing_at(k)) =~= Seq::<PlayerDataView>::empty()) by {
            reveal(Seq::filter);
        }
        assert(s =~= Seq::<PlayerDataView>::empty());
    } else {
        let t = s.drop_last();
        lemma_sort(t, k);
        lemma_insert_sorted(sort_by_finish(t), s.last());
        lemma_insert_filter(sort_by_finish(t), s.last(), k);
        assert(t.push(s.last()) =~= s);
    }
}

/// In a decoded race log the racers come in order of finish position.
pub proof fn law_racers_sorted(d: Seq<u8>, bot_names: Seq<Seq<char>>)
    requires
        general_log_of(d, bot_names) is Ok,
    ensures
        sorted_by_finish(general_log_of(d, bot_names)->Ok_0.players_data),
{
    lemma_sort(players_in_order(d, bot_names), 0);
}

/// A decoded race log holds every racer record exactly once: as many racers as the header
/// announces, the same ones as in record order.
pub proof fn law_racers_rearranged(d: Seq<u8>, bot_names: Seq<Seq<char>>)
    requires
        general_log_of(d, bot_names) is Ok,
    ensures
        general_log_of(d, bot_names)->Ok_0.players_data.to_multiset() == players_in_order(d, bot_names).to_multiset(),
        general_log_of(d, bot_names)->Ok_0.players_data.len() == num_racers_of(d),
{
    lemma_sort(players_in_order(d, bot_names), 0);
    vstd::seq_lib::to_multiset_len(general_log_of(d, bot_names)->Ok_0.players_data);
    vstd::seq_lib::to_multiset_len(players_in_order(d, bot_names));
}

/// Racers that share a finish position keep the order of their records.
pub proof fn law_ties_keep_record_order(d: Seq<u8>, bot_names: Seq<Seq<char>>, k: u8)
    requires
        general_log_of(d, bot_names) is Ok,
    ensures
        general_log_of(d, bot_names)->Ok_0.players_data.filter(finishing_at(k)) == players_in_order(
            d,
            bot_names,
        ).filter(finishing_at(k)),
{
    lemma_sort(players_in_order(d, bot_names), k);
}

/// A racer record that reads from `d` reads the same once bytes are appended.
proof fn lemma_player_extend(d: Seq<u8>, x: Seq<u8>, o: int, bot_names: Seq<Seq<char>>)
    requires
        0 <= o,
        player_fault_at(d, o) is None,
    ensures
        player_fault_at(d + x, o) is None,
        player_at(d + x, o, bot_names) == player_at(d, o, bot_names),
{
    let q = d + x;
    assert(o + 168 <= d.len());
    assert(forall|k: int| 0 <= k < d.len() ==> #[trigger] q[k] == d[k]);
    assert(username_units_at(q, o) =~= username_units_at(d, o));
}

/// Racer records `i..n` that read from `d` read the same once bytes are appended.
proof fn lemma_players_extend(d: Seq<u8>, x: Seq<u8>, i: int, n: int)
    requires
        0 <= i,
        players_fault(d, i, n) is None,
    ensures
        players_fault(d + x, i, n) is None,
        forall|k: int| i <= k < n ==> #[trigger] player_fault_at(d, player_offset(k)) is None,
    decreases n - i,
{
    if i < n {
        lemma_player_extend(d, x, player_offset(i), Seq::empty());
        lemma_players_extend(d, x, i + 1, n);
    }
}

/// Bytes after the last racer record do not change the race log.
pub proof fn law_trailing_bytes_ignored(d: Seq<u8>, x: Seq<u8>, bot_names: Seq<Seq<char>>)
    requires
        general_log_of(d, bot_names) is Ok,
    ensures
        general_log_of(d + x, bot_names) == general_log_of(d, bot_names),
{
    let q = d + x;
    let n = num_racers_of(d) as int;
    assert(forall|k: int| 0 <= k < d.len() ==> #[trigger] q[k] == d[k]);
    assert(num_racers_of(q) == num_racers_of(d));
    lemma_players_extend(d, x, 0, n);
    assert(general_log_fault(q) is None);
    assert forall|k: int| 0 <= k < n implies #[trigger] player_at(q, player_offset(k), bot_names) == player_at(
        d,
        player_offset(k),
        bot_names,
    ) by {
        lemma_player_extend(d, x, player_offset(k), bot_names);
    }
    assert(players_in_order(q, bot_names) =~= players_in_order(d, bot_names));
}

/// A decoded race log's header: playlist id (8 bytes), then version, race mode, city, route,
/// number of racers and laps (4 bytes each) and the time limit (signed, 4 bytes); it reports
/// as many racers as the header announces. A log shorter than its header is refused.
pub proof fn law_race_header(d: Seq<u8>, bot_names: Seq<Seq<char>>)
    ensures
        general_log_of(d, bot_names) matches Ok(g) ==> {
            &&& g.playlist_id == stored_u64(d, 0)
            &&& g.version == stored_u32(d, 8)
            &&& g.race_mode == stored_u32(d, 12)
            &&& g.city_id == stored_u32(d, 16)
            &&& g.route_id == stored_u32(d, 20)
            &&& g.num_racers == stored_u32(d, 24)
            &&& g.laps == stored_u32(d, 28)
            &&& g.time_limit == stored_i32(d, 32)
            &&& g.players_data.len() == g.num_racers
        },
        d.len() < 36 ==> general_log_of(d, bot_names) is Err,
{
    broadcast use group_stored;

    if general_log_of(d, bot_names) is Ok {
        law_racers_rearranged(d, bot_names);
    }
}

/// The `i`-th racer record of a decoded race log, at `36 + 168 * i`: a 64-byte username of
/// little-endian UTF-16 units, decoded with the NULs around it removed; the id (8 bytes);
/// health remaining and distance travelled (4 each); three mods, level and legend (signed,
/// 4 each); vehicle, manufacturer, total fans and powerups (4 each); 48 unused bytes; the
/// starting position counted from zero, reported one higher; the finish position; the finish
/// state. The racer is a bot when its lowercased username is one of `bot_names`.
pub proof fn law_racer_fields(d: Seq<u8>, bot_names: Seq<Seq<char>>, i: int)
    requires
        general_log_of(d, bot_names) is Ok,
        0 <= i < num_racers_of(d),
    ensures
        ({
            let p = players_in_order(d, bot_names)[i];
            let o = 36 + 168 * i;
            let units = Seq::new(32, |k: int| (d[o + 2 * k] + 0x100 * d[o + 2 * k + 1]) as u16);
            &&& utf16_decode(units) is Some
            &&& p.username == trim_nul(utf16_decode(units)->Some_0)
            &&& p.dw_id == stored_u64(d, o + 64)
            &&& p.health_remaining_bits == stored_u32(d, o + 72)
            &&& p.traveled_distance_bits == stored_u32(d, o + 76)
            &&& p.mod1_id == stored_i32(d, o + 80)
            &&& p.mod2_id == stored_i32(d, o + 84)
            &&& p.mod3_id == stored_i32(d, o + 88)
            &&& p.level == stored_i32(d, o + 92)
            &&& p.legend == stored_i32(d, o + 96)
            &&& p.vehicle_id == stored_u32(d, o + 100)
            &&& p.manufacturer_id == stored_u32(d, o + 104)
            &&& p.total_fans == stored_u32(d, o + 108)
            &&& p.num_powerups == stored_u32(d, o + 112)
            &&& p.starting_position == d[o + 164] + 1
            &&& p.finish_position == d[o + 165]
            &&& p.finish_state == d[o + 166]
            &&& p.is_bot == bot_names.contains(lowercase_of(p.username))
        }),
{
    broadcast use group_stored;

    let n = num_racers_of(d) as int;
    lemma_players_extend(d, Seq::empty(), 0, n);
    let o = 36 + 168 * i;
    assert(player_fault_at(d, player_offset(i)) is None);
    let units = Seq::new(32, |k: int| (d[o + 2 * k] + 0x100 * d[o + 2 * k + 1]) as u16);
    assert(units =~= username_units_at(d, o));
}

/// How reading the first racer record stops a race log: a log shorter than the header, or
/// than the first username when a racer is announced, ends unexpectedly; an undecodable first
/// username is reported with the field's 64 bytes; a first racer whose stored starting
/// position is 255 overflows. A log announcing no racers decodes with none.
pub proof fn law_race_errors(d: Seq<u8>, bot_names: Seq<Seq<char>>)
    ensures
        d.len() < 36 ==> general_log_of(d, bot_names) == Err::<
            crate::race_log::types::GeneralRaceLogView,
            RaceLogFault,
        >(RaceLogFault::Parse(ParseError::UnexpectedEnd)),
        ({
            let units = Seq::new(32, |k: int| (d[36 + 2 * k] + 0x100 * d[36 + 2 * k + 1]) as u16);
            &&& (d.len() >= 36 && stored_u32(d, 24) >= 1 && d.len() < 100 ==> general_log_of(
                d,
                bot_names,
            ) == Err::<crate::race_log::types::GeneralRaceLogView, RaceLogFault>(
                RaceLogFault::Parse(ParseError::UnexpectedEnd),
            ))
            &&& (d.len() >= 100 && stored_u32(d, 24) >= 1 && utf16_decode(units) is None
                ==> general_log_of(d, bot_names) == Err::<
                crate::race_log::types::GeneralRaceLogView,
                RaceLogFault,
            >(RaceLogFault::Parse(ParseError::InvalidUsername { size: 64 })))
            &&& (d.len() >= 201 && stored_u32(d, 24) >= 1 && utf16_decode(units) is Some && d[200]
                == 255 ==> general_log_of(d, bot_names) == Err::<
                crate::race_log::types::GeneralRaceLogView,
                RaceLogFault,
            >(RaceLogFault::StartingPositionOverflow))
        }),
        d.len() >= 36 && stored_u32(d, 24) == 0 ==> (general_log_of(d, bot_names) matches Ok(g)
            && g.players_data.len() == 0),
{
    broadcast use group_stored;

    let units = Seq::new(32, |k: int| (d[36 + 2 * k] + 0x100 * d[36 + 2 * k + 1]) as u16);
    assert(units =~= username_units_at(d, 36));
    if d.len() >= 36 && stored_u32(d, 24) == 0 {
        assert(players_in_order(d, bot_names) =~= Seq::<PlayerDataView>::empty());
    }
}

} // verus!
