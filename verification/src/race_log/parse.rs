//! Decoding the general race log, checked against `spec`.
use crate::bytes::{u16_le_at, Cursor};
use crate::error::ParseError;
use crate::race_log::sort::{sort_by_finish_position, views};
use crate::race_log::spec::{
    general_log_fault, general_log_of, general_log_overflows, is_bot_name, player_at,
    player_fault_at, player_offset, players_fault, username_units_at,
};
use crate::race_log::types::{GeneralRaceLog, PlayerData, RaceLogFault};
use crate::text::{decode_utf16, to_lowercase, trim_nul_chars};
use vstd::prelude::*;

verus! {

/// The characters of each name.
pub open spec fn names_of(names: Seq<String>) -> Seq<Seq<char>> {
    names.map_values(|s: String| s@)
}

/// A read's error as a race log fault.
fn lift<T>(r: Result<T, ParseError>) -> (o: Result<T, RaceLogFault>)
    ensures
        match r {
            Ok(v) => o == Ok::<T, RaceLogFault>(v),
            Err(e) => o == Err::<T, RaceLogFault>(RaceLogFault::Parse(e)),
        },
{
    match r {
        Ok(v) => Ok(v),
        Err(e) => Err(RaceLogFault::Parse(e)),
    }
}

/// Whether `name` is one of `bot_names`.
pub fn is_listed(bot_names: &[String], name: &String) -> (b: bool)
    ensures
        b == names_of(bot_names@).contains(name@),
{
    let mut i: usize = 0;
    while i < bot_names.len()
        invariant
            i <= bot_names@.len(),
            forall|k: int| 0 <= k < i ==> bot_names@[k]@ != name@,
        decreases bot_names@.len() - i,
    {
        if bot_names[i] == *name {
            assert(names_of(bot_names@)[i as int] == name@);
            return true;
        }
        i = i + 1;
    }
    proof {
        if names_of(bot_names@).contains(name@) {
            let k = choose|k: int| 0 <= k < names_of(bot_names@).len() && names_of(bot_names@)[k] == name@;
            assert(bot_names@[k]@ == name@);
        }
    }
    false
}

/// Reads the 64-byte username field as 32 little-endian UTF-16 code units.
fn read_username_units(log: &mut Cursor) -> (r: Result<Vec<u16>, ParseError>)
    ensures
        final(log).data() == old(log).data(),
        old(log).pos() + 64 <= old(log).data().len() ==> r is Ok && r->Ok_0@ == username_units_at(
            old(log).data(),
            old(log).pos(),
        ) && final(log).pos() == old(log).pos() + 64,
        old(log).pos() + 64 > old(log).data().len() ==> r == Err::<Vec<u16>, ParseError>(
            ParseError::UnexpectedEnd,
        ),
{
    let ghost d = log.data();
    let ghost o = log.pos();
    let buf = log.read_bytes(64)?;
    let mut units: Vec<u16> = Vec::with_capacity(32);
    let mut k: usize = 0;
    while k < 32
        invariant
            k <= 32,
            buf@.len() == 64,
            forall|j: int| 0 <= j < 64 ==> #[trigger] buf@[j] == d[o + j],
            units@ == Seq::new(k as nat, |j: int| u16_le_at(d, o + 2 * j)),
        decreases 32 - k,
    {
        let unit = buf[2 * k] as u16 + (buf[2 * k + 1] as u16) * 256;
        assert(buf@[2 * k as int] == d[o + 2 * k]);
        assert(buf@[2 * k + 1] == d[o + 2 * k + 1]);
        units.push(unit);
        k = k + 1;
        assert(units@ =~= Seq::new(k as nat, |j: int| u16_le_at(d, o + 2 * j)));
    }
    assert(units@ =~= username_units_at(d, o));
    Ok(units)
}

/// Reads one 168-byte racer record. Its stored starting position counts from zero and is
/// reported one higher; a stored 255 cannot be reported and stops the read.
pub fn parse_player(log: &mut Cursor, bot_names: &[String]) -> (r: Result<PlayerData, RaceLogFault>)
    requires
        old(log).data().len() <= isize::MAX,
    ensures
        final(log).data() == old(log).data(),
        match r {
            Ok(p) => player_fault_at(old(log).data(), old(log).pos()) is None && p@ == player_at(
                old(log).data(),
                old(log).pos(),
                names_of(bot_names@),
            ) && final(log).pos() == old(log).pos() + 168,
            Err(f) => player_fault_at(old(log).data(), old(log).pos()) == Some(f),
        },
{
    let ghost d = log.data();
    let ghost o = log.pos();
    let units = lift(read_username_units(log))?;
    let decoded = match decode_utf16(units.as_slice()) {
        Ok(s) => s,
        Err(_) => {
            return Err(RaceLogFault::Parse(ParseError::InvalidUsername { size: 64 }));
        },
    };
    let username = trim_nul_chars(decoded.as_str());
    let lowered = to_lowercase(username.as_str());
    let is_bot = is_listed(bot_names, &lowered);
    let dw_id = lift(log.read_u64())?;
    let health_remaining_bits = lift(log.read_u32())?;
    let traveled_distance_bits = lift(log.read_u32())?;
    let mod1_id = lift(log.read_i32())?;
    let mod2_id = lift(log.read_i32())?;
    let mod3_id = lift(log.read_i32())?;
    let level = lift(log.read_i32())?;
    let legend = lift(log.read_i32())?;
    let vehicle_id = lift(log.read_u32())?;
    let manufacturer_id = lift(log.read_u32())?;
    let total_fans = lift(log.read_u32())?;
    let num_powerups = lift(log.read_u32())?;
    log.skip(48);
    let stored_start = lift(log.read_u8())?;
    if stored_start == 255 {
        return Err(RaceLogFault::StartingPositionOverflow);
    }
    let starting_position = stored_start + 1;
    let finish_position = lift(log.read_u8())?;
    let finish_state = lift(log.read_u8())?;
    let _ = lift(log.read_u8())?;
    assert(is_bot == is_bot_name(username@, names_of(bot_names@)));
    Ok(PlayerData {
        username,
        dw_id,
        health_remaining_bits,
        traveled_distance_bits,
        mod1_id,
        mod2_id,
        mod3_id,
        level,
        legend,
        vehicle_id,
        manufacturer_id,
        total_fans,
        num_powerups,
        starting_position,
        finish_position,
        finish_state,
        is_bot,
    })
}

/// Decodes a general race log, reporting a starting position that does not fit in a byte
/// as `RaceLogFault::StartingPositionOverflow`. A racer is a bot when its lowercased
/// username is one of `bot_names`.
pub fn parse_general_log_checked(log_data: Vec<u8>, bot_names: &[String]) -> (r: Result<GeneralRaceLog, RaceLogFault>)
    requires
        log_data@.len() <= isize::MAX,
    ensures
        match r {
            Ok(g) => general_log_of(log_data@, names_of(bot_names@)) == Ok::<_, RaceLogFault>(g@),
            Err(f) => general_log_of(log_data@, names_of(bot_names@)) == Err::<
                crate::race_log::types::GeneralRaceLogView,
                RaceLogFault,
            >(f),
        },
{
    let data = log_data.as_slice();
    let ghost d = data@;
    let ghost bots = names_of(bot_names@);
    let mut log = Cursor::new(data);
    let playlist_id = lift(log.read_u64())?;
    let version = lift(log.read_u32())?;
    let race_mode = lift(log.read_u32())?;
    let city_id = lift(log.read_u32())?;
    let route_id = lift(log.read_u32())?;
    let num_racers = lift(log.read_u32())?;
    let laps = lift(log.read_u32())?;
    let time_limit = lift(log.read_i32())?;
    let mut players_data: Vec<PlayerData> = Vec::new();
    let mut i: u32 = 0;
    proof {
        assert(views(players_data@) =~= Seq::new(0, |k: int| player_at(d, player_offset(k), bots)));
    }
    while i < num_racers
        invariant
            d == data@,
            d == log_data@,
            d.len() >= 36,
            d.len() <= isize::MAX,
            bots == names_of(bot_names@),
            num_racers == crate::race_log::spec::num_racers_of(d),
            log.data() == d,
            i <= num_racers,
            log.pos() == player_offset(i as int),
            general_log_fault(d) == players_fault(d, i as int, num_racers as int),
            views(players_data@) == Seq::new(i as nat, |k: int| player_at(d, player_offset(k), bots)),
        decreases num_racers - i,
    {
        let player = parse_player(&mut log, bot_names)?;
        let ghost before = views(players_data@);
        players_data.push(player);
        proof {
            assert(views(players_data@) =~= before.push(player@));
        }
        i = i + 1;
        proof {
            assert(views(players_data@) =~= Seq::new(i as nat, |k: int| player_at(d, player_offset(k), bots)));
        }
    }
    let players_data = sort_by_finish_position(players_data);
    Ok(GeneralRaceLog {
        playlist_id,
        version,
        race_mode,
        city_id,
        route_id,
        num_racers,
        laps,
        time_limit,
        players_data,
    })
}

/// Decodes a general race log: a 36-byte header (playlist id, version, race mode, city id,
/// route id, number of racers, laps, time limit) and one 168-byte record per racer. The
/// racers come out ordered by finish position, ties in record order. A racer is a bot when
/// its lowercased username is one of `bot_names`. A racer whose stored starting position is
/// 255 cannot be reported, since the reported position does not fit in a byte; such logs are
/// excluded (`parse_general_log_checked` reports them).
pub fn parse_general_log(log_data: Vec<u8>, bot_names: &[String]) -> (r: Result<GeneralRaceLog, ParseError>)
    requires
        log_data@.len() <= isize::MAX,
        !general_log_overflows(log_data@),
    ensures
        r matches Ok(g) ==> general_log_of(log_data@, names_of(bot_names@)) == Ok::<_, RaceLogFault>(g@),
        r matches Err(e) ==> general_log_of(log_data@, names_of(bot_names@)) == Err::<
            crate::race_log::types::GeneralRaceLogView,
            RaceLogFault,
        >(RaceLogFault::Parse(e)),
{
    match parse_general_log_checked(log_data, bot_names) {
        Ok(g) => Ok(g),
        Err(RaceLogFault::Parse(e)) => Err(e),
        Err(RaceLogFault::StartingPositionOverflow) => Err(ParseError::UnexpectedEnd),
    }
}

} // verus!
