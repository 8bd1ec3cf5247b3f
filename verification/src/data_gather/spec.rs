//! What each part of the data gathering log decodes to, as functions of the bytes.
//!
//! A body decoder `*_at(d, a)` describes reading a value from `d` starting at offset `a`:
//! it yields the value and the offset just past it, or the error the first failing read gives.
use crate::bytes::{bytes_at, i32_at, i8_at, u16_at, u32_at, u64_at, u8_at};
use crate::data_gather::types::{
    AwardInformation, ChallengeCompletedView, CareerInformation, CompletedChallenge,
    CustomRaceSettings, DataGatherLogView, DataGatherRecordView, ModSelection, PostRaceStatsView,
    QuitRace, RankUp, SessionboardStats, TrackPickupData, VehicleInformation, VoteResults,
};
use crate::error::ParseError;
use vstd::prelude::*;

verus! {

/// A value of `size` bytes at `a`: the reads fail exactly when the bytes run out, so a
/// value of no bytes is always read.
pub open spec fn fixed_at<T>(d: Seq<u8>, a: int, size: int, v: T) -> Result<(T, int), ParseError> {
    if size > 0 && a + size > d.len() {
        Err(ParseError::UnexpectedEnd)
    } else {
        Ok((v, a + size))
    }
}

pub open spec fn vehicle_information_at(d: Seq<u8>, a: int) -> VehicleInformation {
    VehicleInformation { vehicle_id: u32_at(d, a), respray_id: u32_at(d, a + 4) }
}

pub open spec fn rank_up_at(d: Seq<u8>, a: int) -> RankUp {
    RankUp {
        level: u8_at(d, a),
        total_playtime: u64_at(d, a + 1),
        events_played: u32_at(d, a + 9),
    }
}

pub open spec fn quit_race_at(d: Seq<u8>, a: int) -> QuitRace {
    QuitRace { route_id: u32_at(d, a), race_mode: u8_at(d, a + 4), player_count: u8_at(d, a + 5) }
}

pub open spec fn mod_selection_at(d: Seq<u8>, a: int) -> ModSelection {
    ModSelection {
        loadout_type: u8_at(d, a),
        mod1_id: u8_at(d, a + 1),
        mod2_id: u8_at(d, a + 2),
        mod3_id: u8_at(d, a + 3),
        mod1_activations: u16_at(d, a + 4),
        mod2_activations: u16_at(d, a + 6),
        mod3_activations: u16_at(d, a + 8),
    }
}

pub open spec fn sessionboard_stats_at(d: Seq<u8>, a: int) -> SessionboardStats {
    SessionboardStats {
        position: u8_at(d, a),
        race_points: u16_at(d, a + 1),
        races_played: u8_at(d, a + 3),
    }
}

pub open spec fn vote_results_at(d: Seq<u8>, a: int) -> VoteResults {
    VoteResults {
        winning_votes: u8_at(d, a),
        winning_route: u32_at(d, a + 1),
        losing_route: u32_at(d, a + 5),
        losing_votes: u8_at(d, a + 9),
    }
}

/// The vote results body: nothing when the payload is empty, else ten bytes.
pub open spec fn vote_body_at(d: Seq<u8>, a: int, empty: bool) -> Result<(Option<VoteResults>, int), ParseError> {
    if empty {
        Ok((None, a))
    } else {
        fixed_at(d, a, 10, Some(vote_results_at(d, a)))
    }
}

pub open spec fn custom_race_settings_at(d: Seq<u8>, a: int) -> CustomRaceSettings {
    CustomRaceSettings {
        route_id: u32_at(d, a),
        lap_limit: u8_at(d, a + 4),
        time_limit: u16_at(d, a + 5),
        race_mode: u8_at(d, a + 7),
        car_class: u8_at(d, a + 8),
        damage_mode: u8_at(d, a + 9),
        mods: u8_at(d, a + 10) != 0,
        ai: u8_at(d, a + 11) != 0,
        respawn: u8_at(d, a + 12) != 0,
        upgrades: u8_at(d, a + 13) != 0,
        handicap: u8_at(d, a + 14) != 0,
        timeout: u8_at(d, a + 15) != 0,
        lock_to_host_car: u8_at(d, a + 16) != 0,
        powerups: u8_at(d, a + 17) != 0,
        powerup_respawn_mode: u8_at(d, a + 18),
        random_powerups: u8_at(d, a + 19) != 0,
    }
}

pub open spec fn career_information_at(d: Seq<u8>, a: int) -> CareerInformation {
    CareerInformation {
        level: u8_at(d, a),
        driver_score: u32_at(d, a + 1),
        powerup_hit_ratio_bits: u32_at(d, a + 5),
        total_playtime: u64_at(d, a + 9),
        lifetime_fans: u32_at(d, a + 17),
        average_position_bits: u32_at(d, a + 21),
        cumulative_position: u32_at(d, a + 25),
        events_played: u32_at(d, a + 29),
        events_won: u32_at(d, a + 33),
    }
}

/// `count` `u16`s in the machine's byte order from `a` on.
pub open spec fn u16_list_at(d: Seq<u8>, a: int, count: nat) -> Seq<u16> {
    Seq::new(count, |i: int| u16_at(d, a + 2 * i))
}

/// The `i`-th six-byte completed challenge after the header at `a`.
pub open spec fn completed_challenge_at(d: Seq<u8>, a: int, i: int) -> CompletedChallenge {
    CompletedChallenge {
        challenge_type: u8_at(d, a + 21 + 6 * i),
        tier: u8_at(d, a + 22 + 6 * i),
        completed_pack: i32_at(d, a + 23 + 6 * i),
    }
}

/// A 21-byte header whose last field counts the six-byte challenges that follow; a count
/// larger than what the remaining bytes can hold is refused before any is read.
pub open spec fn challenge_completed_at(d: Seq<u8>, a: int) -> Result<(ChallengeCompletedView, int), ParseError> {
    if a + 21 > d.len() {
        Err(ParseError::UnexpectedEnd)
    } else {
        let count = u32_at(d, a + 17);
        if count > (d.len() - (a + 21)) / 6 {
            Err(ParseError::InvalidChallengeCount { count: count as usize })
        } else {
            Ok((
                ChallengeCompletedView {
                    level: u8_at(d, a),
                    total_playtime: u64_at(d, a + 1),
                    events_played: u32_at(d, a + 9),
                    vehicle_id: u32_at(d, a + 13),
                    challenges: Seq::new(count as nat, |i: int| completed_challenge_at(d, a, i)),
                },
                a + 21 + 6 * count,
            ))
        }
    }
}

/// How many five-byte awards are read from `a` until the position reaches `end`.
pub open spec fn awards_count(a: int, end: int) -> nat {
    if a >= end {
        0
    } else {
        ((end - a + 4) / 5) as nat
    }
}

pub open spec fn award_at(d: Seq<u8>, a: int, i: int) -> AwardInformation {
    AwardInformation { award_id: u8_at(d, a + 5 * i), value_bits: u32_at(d, a + 5 * i + 1) }
}

/// Five-byte awards read from `a` while the position is below `payload_len`, which must be
/// a multiple of five.
pub open spec fn awards_at(d: Seq<u8>, a: int, payload_len: usize) -> Result<(Seq<AwardInformation>, int), ParseError> {
    if payload_len % 5 != 0 {
        Err(ParseError::InvalidAwardsSize { size: payload_len })
    } else {
        let n = awards_count(a, payload_len as int);
        if n > 0 && a + 5 * n > d.len() {
            Err(ParseError::UnexpectedEnd)
        } else {
            Ok((Seq::new(n, |i: int| award_at(d, a, i)), a + 5 * n))
        }
    }
}

/// The post-race statistics once the two counts they hold are known: `c` pickup types
/// and `h` hand-of-god types. They span `53 + 4 * c + h` bytes.
pub open spec fn post_race_stats_at(d: Seq<u8>, a: int, c: int, h: int) -> PostRaceStatsView {
    let b = a + 14 + 4 * c + h;
    PostRaceStatsView {
        route_id: u32_at(d, a),
        rank: u8_at(d, a + 4),
        game_mode: u8_at(d, a + 5),
        vehicles_wrecked: u16_at(d, a + 6),
        pickups_used: u16_list_at(d, a + 9, c as nat),
        pickups_hit: u16_list_at(d, a + 9 + 2 * c, c as nat),
        players_at_start: i8_at(d, a + 9 + 4 * c),
        players_at_end: i8_at(d, a + 10 + 4 * c),
        times_wrecked: u16_at(d, a + 11 + 4 * c),
        hand_of_god_uses: bytes_at(d, a + 14 + 4 * c, h as nat),
        final_position: u8_at(d, b),
        distance_to_finish_bits: u32_at(d, b + 1),
        motor_mash_points: u16_at(d, b + 5),
        timed_out: u8_at(d, b + 7) != 0,
        timeout_length: u8_at(d, b + 8),
        average_lap_time_bits: u32_at(d, b + 9),
        race_fans: u16_at(d, b + 13),
        showy_flourish_fans: u16_at(d, b + 15),
        finish_bonus: u16_at(d, b + 17),
        fan_favourite_fans: u16_at(d, b + 19),
        challenge_fans: u16_at(d, b + 21),
        car_reward_fans: u16_at(d, b + 23),
        total_fans: u16_at(d, b + 25),
        longest_jump_bits: u32_at(d, b + 27),
        longest_drift_bits: u32_at(d, b + 31),
        top_speed_bits: u32_at(d, b + 35),
    }
}

/// The post-race body: the pickup type count sits at `a + 8`, the hand-of-god type count
/// after the two pickup lists and three more fields.
pub open spec fn post_race_at(d: Seq<u8>, a: int) -> Result<(PostRaceStatsView, int), ParseError> {
    if a + 9 > d.len() {
        Err(ParseError::UnexpectedEnd)
    } else {
        let c = u8_at(d, a + 8) as int;
        if a + 14 + 4 * c > d.len() {
            Err(ParseError::UnexpectedEnd)
        } else {
            let h = u8_at(d, a + 13 + 4 * c) as int;
            if a + 53 + 4 * c + h > d.len() {
                Err(ParseError::UnexpectedEnd)
            } else {
                Ok((post_race_stats_at(d, a, c, h), a + 53 + 4 * c + h))
            }
        }
    }
}

pub open spec fn track_pickup_at(d: Seq<u8>, a: int, i: int) -> TrackPickupData {
    TrackPickupData {
        id: u32_at(d, a + 4 + 6 * i),
        times_picked_up: u8_at(d, a + 8 + 6 * i),
        pickup_type: u8_at(d, a + 9 + 6 * i),
    }
}

/// A count followed by that many six-byte pickups; a count larger than what the remaining
/// bytes can hold is refused before any is read.
pub open spec fn track_pickups_at(d: Seq<u8>, a: int) -> Result<(Seq<TrackPickupData>, int), ParseError> {
    if a + 4 > d.len() {
        Err(ParseError::UnexpectedEnd)
    } else {
        let count = u32_at(d, a);
        if count > (d.len() - (a + 4)) / 6 {
            Err(ParseError::InvalidPickupCount { count: count as usize })
        } else {
            Ok((Seq::new(count as nat, |i: int| track_pickup_at(d, a, i)), a + 4 + 6 * count))
        }
    }
}

/// A record whose body was decoded from offset 0 of its payload `p`: it must end exactly
/// where the payload does.
pub open spec fn whole_record<T>(
    p: Seq<u8>,
    body: Result<(T, int), ParseError>,
    wrap: spec_fn(T) -> DataGatherRecordView,
) -> Result<DataGatherRecordView, ParseError> {
    match body {
        Err(e) => Err(e),
        Ok((v, end)) => if end != p.len() {
            Err(ParseError::TrailingBytes { size: p.len() as usize })
        } else {
            Ok(wrap(v))
        },
    }
}

/// The record that a frame of category `category` with payload `p` holds.
#[verifier::opaque]
pub open spec fn record_of(category: u8, p: Seq<u8>) -> Result<DataGatherRecordView, ParseError> {
    if p.len() == 0 && category != 16 && category != 18 {
        Ok(DataGatherRecordView::Empty { category })
    } else if category == 2 {
        whole_record(p, fixed_at(p, 0, 8, vehicle_information_at(p, 0)),
            |v| DataGatherRecordView::VehicleInformation(v))
    } else if category == 8 {
        whole_record(p, fixed_at(p, 0, 13, rank_up_at(p, 0)), |v| DataGatherRecordView::RankUp(v))
    } else if category == 9 {
        whole_record(p, fixed_at(p, 0, 1, u8_at(p, 0) != 0), |v| DataGatherRecordView::LobbyChoice(v))
    } else if category == 12 {
        whole_record(p, fixed_at(p, 0, 6, quit_race_at(p, 0)), |v| DataGatherRecordView::QuitRace(v))
    } else if category == 13 {
        whole_record(p, fixed_at(p, 0, 10, mod_selection_at(p, 0)),
            |v| DataGatherRecordView::ModSelection(v))
    } else if category == 15 {
        whole_record(p, fixed_at(p, 0, 4, sessionboard_stats_at(p, 0)),
            |v| DataGatherRecordView::CheckedSessionBoard(v))
    } else if category == 16 {
        whole_record(p, fixed_at(p, 0, 0, ()), |v: ()| DataGatherRecordView::HostMigrated)
    } else if category == 18 {
        whole_record(p, vote_body_at(p, 0, p.len() == 0), |v| DataGatherRecordView::VoteResults(v))
    } else if category == 19 {
        whole_record(p, fixed_at(p, 0, 20, custom_race_settings_at(p, 0)),
            |v| DataGatherRecordView::CustomRaceSettings(v))
    } else if category == 20 {
        whole_record(p, challenge_completed_at(p, 0), |v| DataGatherRecordView::ChallengeCompleted(v))
    } else if category == 21 {
        whole_record(p, awards_at(p, 0, p.len() as usize), |v| DataGatherRecordView::AwardsGiven(v))
    } else if category == 22 {
        whole_record(p, fixed_at(p, 0, 37, career_information_at(p, 0)),
            |v| DataGatherRecordView::CareerInformation(v))
    } else if category == 23 {
        whole_record(p, post_race_at(p, 0), |v| DataGatherRecordView::PostRace(v))
    } else if category == 24 {
        whole_record(p, track_pickups_at(p, 0), |v| DataGatherRecordView::OnTrackPickups(v))
    } else if category == 26 {
        whole_record(p, fixed_at(p, 0, 1, u8_at(p, 0)), |v| DataGatherRecordView::RegionSetting(v))
    } else {
        Ok(DataGatherRecordView::Unknown { category, data: p })
    }
}

/// The offset of the first `/]` that starts at or after `p`, if any.
pub open spec fn find_terminator(d: Seq<u8>, p: int) -> Option<int>
    decreases d.len() - p,
{
    if p + 1 >= d.len() {
        None
    } else if d[p] == 0x2f && d[p + 1] == 0x5d {
        Some(p)
    } else {
        find_terminator(d, p + 1)
    }
}

/// A `/]` found from `p` on lies at or after `p`, inside `d`.
pub proof fn lemma_find_terminator(d: Seq<u8>, p: int)
    ensures
        find_terminator(d, p) matches Some(e) ==> p <= e && e + 1 < d.len() && d[e] == 0x2f
            && d[e + 1] == 0x5d,
    decreases d.len() - p,
{
    if p + 1 < d.len() && !(d[p] == 0x2f && d[p + 1] == 0x5d) {
        lemma_find_terminator(d, p + 1);
    }
}

/// The records framed as `[`, category, `=`, payload, `/]` from `offset` to the end of `d`.
pub open spec fn records_from(d: Seq<u8>, offset: int) -> Result<Seq<DataGatherRecordView>, ParseError>
    decreases d.len() - offset,
{
    if offset >= d.len() {
        Ok(seq![])
    } else if offset + 2 >= d.len() || d[offset] != 0x5b || d[offset + 2] != 0x3d {
        Err(ParseError::InvalidRecordHeader { offset: offset as usize })
    } else {
        match find_terminator(d, offset + 3) {
            None => Err(ParseError::UnterminatedRecord { offset: offset as usize }),
            Some(end) => {
                proof {
                    lemma_find_terminator(d, offset + 3);
                }
                match record_of(d[offset + 1], d.subrange(offset + 3, end)) {
                    Err(e) => Err(e),
                    Ok(r) => match records_from(d, end + 2) {
                        Err(e) => Err(e),
                        Ok(rest) => Ok(seq![r] + rest),
                    },
                }
            },
        }
    }
}

/// The whole log: a 20-byte header (host id, host start time, user id) and the records.
pub open spec fn data_gather_of(d: Seq<u8>) -> Result<DataGatherLogView, ParseError> {
    if d.len() < 20 {
        Err(ParseError::UnexpectedEnd)
    } else {
        match records_from(d, 20) {
            Err(e) => Err(e),
            Ok(records) => Ok(
                DataGatherLogView {
                    host_id: u64_at(d, 0),
                    host_start_time: u32_at(d, 8),
                    user_id: u64_at(d, 12),
                    records,
                },
            ),
        }
    }
}

} // verus!
