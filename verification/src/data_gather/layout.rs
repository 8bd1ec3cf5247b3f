//! Where each field of each data gathering record is stored, stated byte by byte: every
//! decoded value is the number stored at a fixed place of the payload, so that a field read
//! from the wrong place or with the wrong width contradicts these laws.
use crate::data_gather::spec::{
    awards_at, career_information_at, challenge_completed_at, custom_race_settings_at,
    data_gather_of, find_terminator, post_race_at, record_of, records_from, track_pickups_at,
    u16_list_at, vote_body_at,
};
use crate::error::ParseError;
use crate::data_gather::types::{
    AwardInformation, CareerInformation, ChallengeCompletedView, CustomRaceSettings,
    DataGatherRecordView, ModSelection, PostRaceStatsView, QuitRace, RankUp, SessionboardStats,
    TrackPickupData, VehicleInformation, VoteResults,
};
use crate::bytes::bytes_at;
use crate::layout::{group_stored, stored_i32, stored_i8, stored_u16, stored_u32, stored_u64};
use vstd::prelude::*;

verus! {

broadcast use group_stored;

/// Vote results stored at `a`: winning votes (1 byte), winning route (4), losing route (4),
/// losing votes (1).
pub open spec fn vote_results_stored(d: Seq<u8>, a: int, v: VoteResults) -> bool {
    &&& v.winning_votes == d[a]
    &&& v.winning_route == stored_u32(d, a + 1)
    &&& v.losing_route == stored_u32(d, a + 5)
    &&& v.losing_votes == d[a + 9]
}

/// Custom race settings stored at `a`: route (4), lap limit (1), time limit (2), race mode,
/// car class, damage mode (1 each), eight flags of one byte each, set when non-zero (mods, AI,
/// respawn, upgrades, handicap, timeout, lock to host car, powerups), powerup respawn mode (1)
/// and the random powerups flag (1).
pub open spec fn custom_race_settings_stored(d: Seq<u8>, a: int, s: CustomRaceSettings) -> bool {
    &&& s.route_id == stored_u32(d, a)
    &&& s.lap_limit == d[a + 4]
    &&& s.time_limit == stored_u16(d, a + 5)
    &&& s.race_mode == d[a + 7]
    &&& s.car_class == d[a + 8]
    &&& s.damage_mode == d[a + 9]
    &&& s.mods == (d[a + 10] != 0)
    &&& s.ai == (d[a + 11] != 0)
    &&& s.respawn == (d[a + 12] != 0)
    &&& s.upgrades == (d[a + 13] != 0)
    &&& s.handicap == (d[a + 14] != 0)
    &&& s.timeout == (d[a + 15] != 0)
    &&& s.lock_to_host_car == (d[a + 16] != 0)
    &&& s.powerups == (d[a + 17] != 0)
    &&& s.powerup_respawn_mode == d[a + 18]
    &&& s.random_powerups == (d[a + 19] != 0)
}

/// Career totals stored at `a`: level (1), then eight four-byte fields and one eight-byte
/// field in this order: driver score, powerup hit ratio, total playtime (8), lifetime fans,
/// average position, cumulative position, events played, events won.
pub open spec fn career_information_stored(d: Seq<u8>, a: int, c: CareerInformation) -> bool {
    &&& c.level == d[a]
    &&& c.driver_score == stored_u32(d, a + 1)
    &&& c.powerup_hit_ratio_bits == stored_u32(d, a + 5)
    &&& c.total_playtime == stored_u64(d, a + 9)
    &&& c.lifetime_fans == stored_u32(d, a + 17)
    &&& c.average_position_bits == stored_u32(d, a + 21)
    &&& c.cumulative_position == stored_u32(d, a + 25)
    &&& c.events_played == stored_u32(d, a + 29)
    &&& c.events_won == stored_u32(d, a + 33)
}

/// `n` two-byte numbers stored one after another from `a`.
pub open spec fn u16s_stored(d: Seq<u8>, a: int, n: int, s: Seq<u16>) -> bool {
    &&& s.len() == n
    &&& forall|j: int| 0 <= j < n ==> #[trigger] s[j] == stored_u16(d, a + 2 * j)
}

/// `n` bytes stored from `a`.
pub open spec fn bytes_stored(d: Seq<u8>, a: int, n: int, s: Seq<u8>) -> bool {
    &&& s.len() == n
    &&& forall|j: int| 0 <= j < n ==> #[trigger] s[j] == d[a + j]
}

/// Post-race statistics stored at `a`, with `c` the pickup type count at `a + 8` and `h` the
/// hand-of-god type count after the pickup lists and three more fields: route (4), rank,
/// game mode (1 each), vehicles wrecked (2), the count `c`, `c` pickups used and `c` pickups
/// hit (2 each), players at start and at end (signed, 1 each), times wrecked (2), the count
/// `h`, `h` hand-of-god uses (1 each), final position (1), distance to finish (4), motor mash
/// points (2), timed out (flag), timeout length (1), average lap time (4), seven fan counts
/// (2 each: race, showy flourish, finish bonus, fan favourite, challenge, car reward, total),
/// longest jump, longest drift, top speed (4 each).
pub open spec fn post_race_stored(d: Seq<u8>, a: int, v: PostRaceStatsView) -> bool {
    let c = d[a + 8] as int;
    let h = d[a + 13 + 4 * c] as int;
    let b = a + 14 + 4 * c + h;
    &&& v.route_id == stored_u32(d, a)
    &&& v.rank == d[a + 4]
    &&& v.game_mode == d[a + 5]
    &&& v.vehicles_wrecked == stored_u16(d, a + 6)
    &&& u16s_stored(d, a + 9, c, v.pickups_used)
    &&& u16s_stored(d, a + 9 + 2 * c, c, v.pickups_hit)
    &&& v.players_at_start == stored_i8(d, a + 9 + 4 * c)
    &&& v.players_at_end == stored_i8(d, a + 10 + 4 * c)
    &&& v.times_wrecked == stored_u16(d, a + 11 + 4 * c)
    &&& bytes_stored(d, a + 14 + 4 * c, h, v.hand_of_god_uses)
    &&& v.final_position == d[b]
    &&& v.distance_to_finish_bits == stored_u32(d, b + 1)
    &&& v.motor_mash_points == stored_u16(d, b + 5)
    &&& v.timed_out == (d[b + 7] != 0)
    &&& v.timeout_length == d[b + 8]
    &&& v.average_lap_time_bits == stored_u32(d, b + 9)
    &&& v.race_fans == stored_u16(d, b + 13)
    &&& v.showy_flourish_fans == stored_u16(d, b + 15)
    &&& v.finish_bonus == stored_u16(d, b + 17)
    &&& v.fan_favourite_fans == stored_u16(d, b + 19)
    &&& v.challenge_fans == stored_u16(d, b + 21)
    &&& v.car_reward_fans == stored_u16(d, b + 23)
    &&& v.total_fans == stored_u16(d, b + 25)
    &&& v.longest_jump_bits == stored_u32(d, b + 27)
    &&& v.longest_drift_bits == stored_u32(d, b + 31)
    &&& v.top_speed_bits == stored_u32(d, b + 35)
}

/// Completed challenges stored at `a`: level (1), total playtime (8), events played (4),
/// vehicle (4), the count (4), then per challenge its type (1), tier (1) and pack (signed, 4).
pub open spec fn challenge_completed_stored(d: Seq<u8>, a: int, v: ChallengeCompletedView) -> bool {
    &&& v.level == d[a]
    &&& v.total_playtime == stored_u64(d, a + 1)
    &&& v.events_played == stored_u32(d, a + 9)
    &&& v.vehicle_id == stored_u32(d, a + 13)
    &&& v.challenges.len() == stored_u32(d, a + 17)
    &&& forall|i: int|
        0 <= i < v.challenges.len() ==> {
            &&& (#[trigger] v.challenges[i]).challenge_type == d[a + 21 + 6 * i]
            &&& v.challenges[i].tier == d[a + 22 + 6 * i]
            &&& v.challenges[i].completed_pack == stored_i32(d, a + 23 + 6 * i)
        }
}

/// Awards stored from `a` on: per award its id (1) and value (4).
pub open spec fn awards_stored(d: Seq<u8>, a: int, s: Seq<AwardInformation>) -> bool {
    forall|i: int|
        0 <= i < s.len() ==> {
            &&& (#[trigger] s[i]).award_id == d[a + 5 * i]
            &&& s[i].value_bits == stored_u32(d, a + 5 * i + 1)
        }
}

/// On-track pickups stored at `a`: the count (4), then per pickup its id (4), times picked
/// up (1) and type (1).
pub open spec fn track_pickups_stored(d: Seq<u8>, a: int, s: Seq<TrackPickupData>) -> bool {
    &&& s.len() == stored_u32(d, a)
    &&& forall|i: int|
        0 <= i < s.len() ==> {
            &&& (#[trigger] s[i]).id == stored_u32(d, a + 4 + 6 * i)
            &&& s[i].times_picked_up == d[a + 8 + 6 * i]
            &&& s[i].pickup_type == d[a + 9 + 6 * i]
        }
}

/// Vote results are the ten bytes at the cursor, or nothing for an empty payload.
pub proof fn law_vote_results_layout(d: Seq<u8>, a: int, empty: bool)
    ensures
        empty ==> vote_body_at(d, a, empty) == Ok::<_, crate::error::ParseError>((None::<VoteResults>, a)),
        !empty ==> (vote_body_at(d, a, empty) is Ok <==> a + 10 <= d.len()),
        !empty ==> (vote_body_at(d, a, empty) matches Ok((o, end)) ==> end == a + 10 && (o matches Some(
            v,
        ) && vote_results_stored(d, a, v))),
{
}

/// Custom race settings are the twenty bytes at the cursor.
pub proof fn law_custom_race_settings_layout(d: Seq<u8>, a: int)
    ensures
        custom_race_settings_stored(d, a, custom_race_settings_at(d, a)),
{
}

/// Career totals are the 37 bytes at the cursor.
pub proof fn law_career_information_layout(d: Seq<u8>, a: int)
    ensures
        career_information_stored(d, a, career_information_at(d, a)),
{
}

/// A list of `count` two-byte numbers is stored one number after another.
pub proof fn law_u16_list_layout(d: Seq<u8>, a: int, count: nat)
    ensures
        u16s_stored(d, a, count as int, u16_list_at(d, a, count)),
{
}

/// A list of `count` bytes is the bytes themselves.
pub proof fn law_byte_list_layout(d: Seq<u8>, a: int, count: nat)
    ensures
        bytes_stored(d, a, count as int, bytes_at(d, a, count)),
{
}

/// Post-race statistics decode exactly when all their `53 + 4 * c + h` bytes are there, and
/// then hold the numbers stored at their places.
pub proof fn law_post_race_layout(d: Seq<u8>, a: int)
    ensures
        post_race_at(d, a) is Ok <==> (a + 9 <= d.len() && a + 14 + 4 * d[a + 8] <= d.len() && a
            + 53 + 4 * d[a + 8] + d[a + 13 + 4 * d[a + 8]] <= d.len()),
        post_race_at(d, a) matches Ok((v, end)) ==> post_race_stored(d, a, v) && end == a + 53 + 4
            * d[a + 8] + d[a + 13 + 4 * d[a + 8]],
{
}

/// Completed challenges decode to the numbers stored at their places, as many as the count
/// says, ending after the last one.
pub proof fn law_challenge_completed_layout(d: Seq<u8>, a: int)
    ensures
        challenge_completed_at(d, a) matches Ok((v, end)) ==> challenge_completed_stored(d, a, v)
            && end == a + 21 + 6 * stored_u32(d, a + 17),
        challenge_completed_at(d, a) is Ok <==> (a + 21 <= d.len() && a + 21 + 6 * stored_u32(
            d,
            a + 17,
        ) <= d.len()),
{
    if a + 21 <= d.len() {
        let n = d.len() - (a + 21);
        let c = stored_u32(d, a + 17);
        assert(c > n / 6 <==> a + 21 + 6 * c > d.len()) by (nonlinear_arith)
            requires
                n == d.len() - (a + 21),
                n >= 0,
                c >= 0,
        ;
    }
}

/// Awards decode to the numbers stored at their places.
pub proof fn law_awards_layout(d: Seq<u8>, a: int, payload_len: usize)
    ensures
        awards_at(d, a, payload_len) matches Ok((s, end)) ==> awards_stored(d, a, s) && end == a + 5
            * s.len(),
        payload_len % 5 != 0 ==> awards_at(d, a, payload_len) is Err,
{
}

/// On-track pickups decode to the numbers stored at their places, as many as the count says.
pub proof fn law_track_pickups_layout(d: Seq<u8>, a: int)
    ensures
        track_pickups_at(d, a) matches Ok((s, end)) ==> track_pickups_stored(d, a, s) && end == a
            + 4 + 6 * s.len(),
        track_pickups_at(d, a) is Ok <==> (a + 4 <= d.len() && a + 4 + 6 * stored_u32(d, a)
            <= d.len()),
{
    if a + 4 <= d.len() {
        let n = d.len() - (a + 4);
        let c = stored_u32(d, a);
        assert(c > n / 6 <==> a + 4 + 6 * c > d.len()) by (nonlinear_arith)
            requires
                n == d.len() - (a + 4),
                n >= 0,
                c >= 0,
        ;
    }
}

/// The log's header holds the host id (8 bytes), the host's start time (4) and the user
/// id (8).
pub proof fn law_data_gather_header(d: Seq<u8>)
    ensures
        data_gather_of(d) matches Ok(log) ==> log.host_id == stored_u64(d, 0) && log.host_start_time
            == stored_u32(d, 8) && log.user_id == stored_u64(d, 12),
        d.len() < 20 ==> data_gather_of(d) is Err,
{
}

/// The categories with a decoder.
pub open spec fn known_category(c: u8) -> bool {
    c == 2 || c == 8 || c == 9 || c == 12 || c == 13 || c == 15 || c == 16 || c == 18 || c == 19
        || c == 20 || c == 21 || c == 22 || c == 23 || c == 24 || c == 26
}

/// The payload size of a category whose records all have one size.
pub open spec fn fixed_size(c: u8) -> Option<int> {
    if c == 2 {
        Some(8)
    } else if c == 8 {
        Some(13)
    } else if c == 9 {
        Some(1)
    } else if c == 12 {
        Some(6)
    } else if c == 13 {
        Some(10)
    } else if c == 15 {
        Some(4)
    } else if c == 16 {
        Some(0)
    } else if c == 18 {
        Some(10)
    } else if c == 19 {
        Some(20)
    } else if c == 22 {
        Some(37)
    } else if c == 26 {
        Some(1)
    } else {
        None
    }
}

/// A non-empty payload of a fixed-size category decodes exactly when it has that size.
pub proof fn law_record_sizes(c: u8, p: Seq<u8>)
    requires
        p.len() > 0,
    ensures
        fixed_size(c) matches Some(n) ==> (record_of(c, p) is Ok <==> p.len() == n),
        !known_category(c) ==> record_of(c, p) is Ok,
{
    reveal(record_of);
}

/// An empty payload is an empty record, but for host migrations and for vote results, which
/// then hold none.
pub proof fn law_empty_payload(c: u8)
    ensures
        c != 16 && c != 18 ==> record_of(c, Seq::empty()) == Ok::<_, crate::error::ParseError>(
            DataGatherRecordView::Empty { category: c },
        ),
        record_of(16, Seq::empty()) == Ok::<_, crate::error::ParseError>(DataGatherRecordView::HostMigrated),
        record_of(18, Seq::empty()) == Ok::<_, crate::error::ParseError>(
            DataGatherRecordView::VoteResults(None),
        ),
{
    reveal(record_of);
}

/// What a decoded record holds: its kind is the one of its category, and each field is the
/// number stored at its place of the payload; an unknown category keeps the payload.
pub proof fn law_record_fields(c: u8, p: Seq<u8>)
    requires
        p.len() > 0,
    ensures
        record_of(c, p) matches Ok(r) ==> match r {
            DataGatherRecordView::VehicleInformation(v) => c == 2 && v.vehicle_id == stored_u32(p, 0)
                && v.respray_id == stored_u32(p, 4),
            DataGatherRecordView::RankUp(v) => c == 8 && v.level == p[0] && v.total_playtime
                == stored_u64(p, 1) && v.events_played == stored_u32(p, 9),
            DataGatherRecordView::LobbyChoice(b) => c == 9 && b == (p[0] != 0),
            DataGatherRecordView::QuitRace(v) => c == 12 && v.route_id == stored_u32(p, 0)
                && v.race_mode == p[4] && v.player_count == p[5],
            DataGatherRecordView::ModSelection(v) => c == 13 && v.loadout_type == p[0] && v.mod1_id
                == p[1] && v.mod2_id == p[2] && v.mod3_id == p[3] && v.mod1_activations == stored_u16(p, 4)
                && v.mod2_activations == stored_u16(p, 6) && v.mod3_activations == stored_u16(p, 8),
            DataGatherRecordView::CheckedSessionBoard(v) => c == 15 && v.position == p[0]
                && v.race_points == stored_u16(p, 1) && v.races_played == p[3],
            DataGatherRecordView::HostMigrated => false,
            DataGatherRecordView::VoteResults(o) => c == 18 && (o matches Some(v)
                && vote_results_stored(p, 0, v)),
            DataGatherRecordView::CustomRaceSettings(s) => c == 19 && custom_race_settings_stored(p, 0, s),
            DataGatherRecordView::ChallengeCompleted(v) => c == 20 && challenge_completed_stored(p, 0, v)
                && p.len() == 21 + 6 * v.challenges.len(),
            DataGatherRecordView::AwardsGiven(s) => c == 21 && awards_stored(p, 0, s) && p.len() == 5
                * s.len(),
            DataGatherRecordView::CareerInformation(v) => c == 22 && career_information_stored(p, 0, v),
            DataGatherRecordView::PostRace(v) => c == 23 && post_race_stored(p, 0, v),
            DataGatherRecordView::OnTrackPickups(s) => c == 24 && track_pickups_stored(p, 0, s)
                && p.len() == 4 + 6 * s.len(),
            DataGatherRecordView::RegionSetting(b) => c == 26 && b == p[0],
            DataGatherRecordView::Empty { .. } => false,
            DataGatherRecordView::Unknown { category, data } => category == c && data == p
                && !known_category(c),
        },
{
    reveal(record_of);
    law_challenge_completed_layout(p, 0);
    law_track_pickups_layout(p, 0);
    law_awards_layout(p, 0, p.len() as usize);
    law_post_race_layout(p, 0);
}

/// How a record's payload is refused: a fixed-size payload that is short ends unexpectedly and
/// one that is long has trailing bytes, reported with the payload's length; a challenge or
/// pickup count that the payload cannot hold is reported with the count; an awards payload
/// that is not a whole number of awards is reported with its length. (A payload is a slice,
/// so its length fits in `usize`.)
pub proof fn law_record_errors(c: u8, p: Seq<u8>)
    requires
        0 < p.len() <= usize::MAX,
    ensures
        fixed_size(c) matches Some(n) ==> (p.len() < n ==> record_of(c, p) == Err::<
            DataGatherRecordView,
            ParseError,
        >(ParseError::UnexpectedEnd)),
        fixed_size(c) matches Some(n) ==> (p.len() > n ==> record_of(c, p) == Err::<
            DataGatherRecordView,
            ParseError,
        >(ParseError::TrailingBytes { size: p.len() as usize })),
        c == 20 && p.len() < 21 ==> record_of(c, p) == Err::<DataGatherRecordView, ParseError>(
            ParseError::UnexpectedEnd,
        ),
        c == 20 && p.len() >= 21 && 21 + 6 * stored_u32(p, 17) > p.len() ==> record_of(c, p) == Err::<
            DataGatherRecordView,
            ParseError,
        >(ParseError::InvalidChallengeCount { count: stored_u32(p, 17) as usize }),
        c == 20 && p.len() >= 21 && 21 + 6 * stored_u32(p, 17) < p.len() ==> record_of(c, p) == Err::<
            DataGatherRecordView,
            ParseError,
        >(ParseError::TrailingBytes { size: p.len() as usize }),
        c == 21 && p.len() % 5 != 0 ==> record_of(c, p) == Err::<DataGatherRecordView, ParseError>(
            ParseError::InvalidAwardsSize { size: p.len() as usize },
        ),
        c == 24 && p.len() < 4 ==> record_of(c, p) == Err::<DataGatherRecordView, ParseError>(
            ParseError::UnexpectedEnd,
        ),
        c == 24 && p.len() >= 4 && 4 + 6 * stored_u32(p, 0) > p.len() ==> record_of(c, p) == Err::<
            DataGatherRecordView,
            ParseError,
        >(ParseError::InvalidPickupCount { count: stored_u32(p, 0) as usize }),
        c == 24 && p.len() >= 4 && 4 + 6 * stored_u32(p, 0) < p.len() ==> record_of(c, p) == Err::<
            DataGatherRecordView,
            ParseError,
        >(ParseError::TrailingBytes { size: p.len() as usize }),
{
    reveal(record_of);
    law_challenge_completed_layout(p, 0);
    law_track_pickups_layout(p, 0);
}

/// No `/]` starts anywhere from `s` on.
proof fn lemma_no_terminator(d: Seq<u8>, s: int)
    requires
        forall|k: int| s <= k && k + 1 < d.len() ==> !(#[trigger] d[k] == 0x2f && d[k + 1] == 0x5d),
    ensures
        find_terminator(d, s) is None,
    decreases d.len() - s,
{
    if s + 1 < d.len() {
        lemma_no_terminator(d, s + 1);
    }
}

/// How the first frame after the header is refused: one that does not open with `[`, a
/// category byte and `=` has an invalid header, and one with no `/]` after that is
/// unterminated, both reported at offset 20.
pub proof fn law_frame_errors(d: Seq<u8>)
    requires
        d.len() > 20,
    ensures
        d.len() <= 22 || d[20] != 0x5b || d[22] != 0x3d ==> data_gather_of(d) == Err::<
            crate::data_gather::types::DataGatherLogView,
            ParseError,
        >(ParseError::InvalidRecordHeader { offset: 20 }),
        (d.len() > 22 && d[20] == 0x5b && d[22] == 0x3d && forall|k: int|
            23 <= k && k + 1 < d.len() ==> !(#[trigger] d[k] == 0x2f && d[k + 1] == 0x5d))
            ==> data_gather_of(d) == Err::<crate::data_gather::types::DataGatherLogView, ParseError>(
            ParseError::UnterminatedRecord { offset: 20 },
        ),
{
    if d.len() > 22 && d[20] == 0x5b && d[22] == 0x3d && forall|k: int|
        23 <= k && k + 1 < d.len() ==> !(#[trigger] d[k] == 0x2f && d[k + 1] == 0x5d) {
        lemma_no_terminator(d, 23);
    }
    assert(records_from(d, 20) == records_from(d, 20));
}

} // verus!
