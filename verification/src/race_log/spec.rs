//! What the general race log decodes to, as a function of its bytes.
//!
//! The log is a 36-byte header followed by one 168-byte record per racer. A racer record
//! holds a 64-byte UTF-16 username padded with NULs, the racer's numbers, 48 unused bytes,
//! and four trailing bytes: the starting position counted from zero, the finish position,
//! the finish state and one unused byte.
use crate::bytes::{i32_at, u16_le_at, u32_at, u64_at, u8_at};
use crate::error::ParseError;
use crate::race_log::sort::sort_by_finish;
use crate::race_log::types::{GeneralRaceLogView, PlayerDataView, RaceLogFault};
use crate::text::{lowercase_of, trim_nul, utf16_decode};
use vstd::prelude::*;

verus! {

/// The header's size.
pub open spec fn header_len() -> int {
    36
}

/// A racer record's size.
pub open spec fn player_len() -> int {
    168
}

/// Where racer `i`'s record starts.
pub open spec fn player_offset(i: int) -> int {
    header_len() + player_len() * i
}

/// The 32 little-endian UTF-16 code units of the username field of the racer record at `o`.
pub open spec fn username_units_at(d: Seq<u8>, o: int) -> Seq<u16> {
    Seq::new(32, |k: int| u16_le_at(d, o + 2 * k))
}

/// What stops the racer record at `o` from being read, if anything, in the order the reads
/// meet it: missing username bytes, an undecodable username, missing bytes up to the starting
/// position, a starting position that overflows, missing bytes after it.
pub open spec fn player_fault_at(d: Seq<u8>, o: int) -> Option<RaceLogFault> {
    if o + 64 > d.len() {
        Some(RaceLogFault::Parse(ParseError::UnexpectedEnd))
    } else if utf16_decode(username_units_at(d, o)) is None {
        Some(RaceLogFault::Parse(ParseError::InvalidUsername { size: 64 }))
    } else if o + 165 > d.len() {
        Some(RaceLogFault::Parse(ParseError::UnexpectedEnd))
    } else if u8_at(d, o + 164) == 255 {
        Some(RaceLogFault::StartingPositionOverflow)
    } else if o + 168 > d.len() {
        Some(RaceLogFault::Parse(ParseError::UnexpectedEnd))
    } else {
        None
    }
}

/// The username of the racer record at `o`: its decoded characters without the NULs around
/// them.
pub open spec fn username_at(d: Seq<u8>, o: int) -> Seq<char> {
    trim_nul(utf16_decode(username_units_at(d, o))->Some_0)
}

/// `name`, lowercased, is one of `bot_names`.
pub open spec fn is_bot_name(name: Seq<char>, bot_names: Seq<Seq<char>>) -> bool {
    bot_names.contains(lowercase_of(name))
}

/// The racer the record at `o` describes, when it can be read.
pub open spec fn player_at(d: Seq<u8>, o: int, bot_names: Seq<Seq<char>>) -> PlayerDataView {
    PlayerDataView {
        username: username_at(d, o),
        dw_id: u64_at(d, o + 64),
        health_remaining_bits: u32_at(d, o + 72),
        traveled_distance_bits: u32_at(d, o + 76),
        mod1_id: i32_at(d, o + 80),
        mod2_id: i32_at(d, o + 84),
        mod3_id: i32_at(d, o + 88),
        level: i32_at(d, o + 92),
        legend: i32_at(d, o + 96),
        vehicle_id: u32_at(d, o + 100),
        manufacturer_id: u32_at(d, o + 104),
        total_fans: u32_at(d, o + 108),
        num_powerups: u32_at(d, o + 112),
        starting_position: (u8_at(d, o + 164) + 1) as u8,
        finish_position: u8_at(d, o + 165),
        finish_state: u8_at(d, o + 166),
        is_bot: is_bot_name(username_at(d, o), bot_names),
    }
}

/// The first fault among racer records `i..n`.
pub open spec fn players_fault(d: Seq<u8>, i: int, n: int) -> Option<RaceLogFault>
    decreases n - i,
{
    if i >= n {
        None
    } else {
        match player_fault_at(d, player_offset(i)) {
            Some(f) => Some(f),
            None => players_fault(d, i + 1, n),
        }
    }
}

/// The number of racers the header announces.
pub open spec fn num_racers_of(d: Seq<u8>) -> u32 {
    u32_at(d, 24)
}

/// What stops the race log from being read, if anything.
pub open spec fn general_log_fault(d: Seq<u8>) -> Option<RaceLogFault> {
    if d.len() < header_len() {
        Some(RaceLogFault::Parse(ParseError::UnexpectedEnd))
    } else {
        players_fault(d, 0, num_racers_of(d) as int)
    }
}

/// Reading the race log meets a starting position that does not fit in a byte.
pub open spec fn general_log_overflows(d: Seq<u8>) -> bool {
    general_log_fault(d) == Some(RaceLogFault::StartingPositionOverflow)
}

/// The racers in record order.
pub open spec fn players_in_order(d: Seq<u8>, bot_names: Seq<Seq<char>>) -> Seq<PlayerDataView> {
    Seq::new(num_racers_of(d) as nat, |i: int| player_at(d, player_offset(i), bot_names))
}

/// The race log: the header's fields and the racers sorted by finish position.
pub open spec fn general_log_of(d: Seq<u8>, bot_names: Seq<Seq<char>>) -> Result<GeneralRaceLogView, RaceLogFault> {
    match general_log_fault(d) {
        Some(f) => Err(f),
        None => Ok(
            GeneralRaceLogView {
                playlist_id: u64_at(d, 0),
                version: u32_at(d, 8),
                race_mode: u32_at(d, 12),
                city_id: u32_at(d, 16),
                route_id: u32_at(d, 20),
                num_racers: u32_at(d, 24),
                laps: u32_at(d, 28),
                time_limit: i32_at(d, 32),
                players_data: sort_by_finish(players_in_order(d, bot_names)),
            },
        ),
    }
}

} // verus!
