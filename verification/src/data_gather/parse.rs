//! Decoding the data gathering log, checked against `spec`.
use crate::bytes::{bytes_at, Cursor};
use crate::data_gather::spec::{
    award_at, awards_at, awards_count, career_information_at, data_gather_of, find_terminator,
    lemma_find_terminator, record_of, records_from, challenge_completed_at,
    completed_challenge_at, custom_race_settings_at, fixed_at, post_race_at, track_pickup_at,
    track_pickups_at, u16_list_at, vote_body_at,
};
use crate::data_gather::types::{
    AwardInformation, CareerInformation, ChallengeCompleted, CompletedChallenge,
    CustomRaceSettings, DataGatherLog, DataGatherRecord, DataGatherRecordView, ModSelection,
    PostRaceStats, QuitRace, RankUp, SessionboardStats, TrackPickupData, VehicleInformation,
    VoteResults,
};
use crate::error::ParseError;
use vstd::prelude::*;

verus! {

/// `r`, read by a decoder that stopped at `end`, is what `expected` describes.
pub open spec fn reads_as<T>(r: Result<T, ParseError>, end: int, expected: Result<(T, int), ParseError>) -> bool {
    match r {
        Ok(v) => expected == Ok::<(T, int), ParseError>((v, end)),
        Err(e) => expected == Err::<(T, int), ParseError>(e),
    }
}

/// `r` with its value replaced by the value's view.
pub open spec fn view_result<T: View>(r: Result<T, ParseError>) -> Result<T::V, ParseError> {
    match r {
        Ok(v) => Ok(v@),
        Err(e) => Err(e),
    }
}

/// Reads the vote results of a record: none for an empty payload, else ten bytes.
pub fn parse_vote_results(log: &mut Cursor, empty: bool) -> (r: Result<Option<VoteResults>, ParseError>)
    ensures
        final(log).data() == old(log).data(),
        reads_as(r, final(log).pos(), vote_body_at(old(log).data(), old(log).pos(), empty)),
{
    if empty {
        return Ok(None);
    }
    let winning_votes = log.read_u8()?;
    let winning_route = log.read_u32()?;
    let losing_route = log.read_u32()?;
    let losing_votes = log.read_u8()?;
    Ok(Some(VoteResults { winning_votes, winning_route, losing_route, losing_votes }))
}

/// Reads the twenty bytes of custom race settings; every flag is a byte, set when non-zero.
pub fn parse_custom_race_settings(log: &mut Cursor) -> (r: Result<CustomRaceSettings, ParseError>)
    ensures
        final(log).data() == old(log).data(),
        reads_as(
            r,
            final(log).pos(),
            fixed_at(old(log).data(), old(log).pos(), 20, custom_race_settings_at(old(log).data(), old(log).pos())),
        ),
{
    let route_id = log.read_u32()?;
    let lap_limit = log.read_u8()?;
    let time_limit = log.read_u16()?;
    let race_mode = log.read_u8()?;
    let car_class = log.read_u8()?;
    let damage_mode = log.read_u8()?;
    let mods = log.read_u8()? != 0;
    let ai = log.read_u8()? != 0;
    let respawn = log.read_u8()? != 0;
    let upgrades = log.read_u8()? != 0;
    let handicap = log.read_u8()? != 0;
    let timeout = log.read_u8()? != 0;
    let lock_to_host_car = log.read_u8()? != 0;
    let powerups = log.read_u8()? != 0;
    let powerup_respawn_mode = log.read_u8()?;
    let random_powerups = log.read_u8()? != 0;
    Ok(CustomRaceSettings {
        route_id,
        lap_limit,
        time_limit,
        race_mode,
        car_class,
        damage_mode,
        mods,
        ai,
        respawn,
        upgrades,
        handicap,
        timeout,
        lock_to_host_car,
        powerups,
        powerup_respawn_mode,
        random_powerups,
    })
}

/// Reads the 37 bytes of career totals.
pub fn parse_career_information(log: &mut Cursor) -> (r: Result<CareerInformation, ParseError>)
    ensures
        final(log).data() == old(log).data(),
        reads_as(
            r,
            final(log).pos(),
            fixed_at(old(log).data(), old(log).pos(), 37, career_information_at(old(log).data(), old(log).pos())),
        ),
{
    let level = log.read_u8()?;
    let driver_score = log.read_u32()?;
    let powerup_hit_ratio_bits = log.read_u32()?;
    let total_playtime = log.read_u64()?;
    let lifetime_fans = log.read_u32()?;
    let average_position_bits = log.read_u32()?;
    let cumulative_position = log.read_u32()?;
    let events_played = log.read_u32()?;
    let events_won = log.read_u32()?;
    Ok(CareerInformation {
        level,
        driver_score,
        powerup_hit_ratio_bits,
        total_playtime,
        lifetime_fans,
        average_position_bits,
        cumulative_position,
        events_played,
        events_won,
    })
}

/// Reads `count` `u16`s in the machine's byte order.
pub fn read_u16_list(log: &mut Cursor, count: usize) -> (r: Result<Vec<u16>, ParseError>)
    ensures
        final(log).data() == old(log).data(),
        reads_as(
            view_result(r),
            final(log).pos(),
            fixed_at(
                old(log).data(),
                old(log).pos(),
                2 * count,
                u16_list_at(old(log).data(), old(log).pos(), count as nat),
            ),
        ),
{
    let ghost d = log.data();
    let ghost start = log.pos();
    let mut values: Vec<u16> = Vec::with_capacity(count);
    let mut i: usize = 0;
    while i < count
        invariant
            i <= count,
            d == old(log).data(),
            start == old(log).pos(),
            log.data() == d,
            log.pos() == start + 2 * i,
            i > 0 ==> start + 2 * i <= d.len(),
            values@ == u16_list_at(d, start, i as nat),
        decreases count - i,
    {
        let v = log.read_u16()?;
        values.push(v);
        i = i + 1;
        assert(values@ =~= u16_list_at(d, start, i as nat));
    }
    Ok(values)
}

/// Reads the next `count` bytes.
pub fn read_u8_list(log: &mut Cursor, count: usize) -> (r: Result<Vec<u8>, ParseError>)
    requires
        count <= isize::MAX,
    ensures
        final(log).data() == old(log).data(),
        reads_as(
            view_result(r),
            final(log).pos(),
            fixed_at(
                old(log).data(),
                old(log).pos(),
                count as int,
                bytes_at(old(log).data(), old(log).pos(), count as nat),
            ),
        ),
{
    log.read_bytes(count)
}

/// Reads a completed-challenges body: a 21-byte header whose last field counts the six-byte
/// challenges that follow. A count the remaining bytes cannot hold is refused before any
/// challenge is read.
pub fn parse_challenge_completed(log: &mut Cursor) -> (r: Result<ChallengeCompleted, ParseError>)
    ensures
        final(log).data() == old(log).data(),
        reads_as(view_result(r), final(log).pos(), challenge_completed_at(old(log).data(), old(log).pos())),
        r matches Err(ParseError::InvalidChallengeCount { .. }) ==> final(log).pos() == old(log).pos() + 21,
{
    let ghost d = log.data();
    let ghost a = log.pos();
    let level = log.read_u8()?;
    let total_playtime = log.read_u64()?;
    let events_played = log.read_u32()?;
    let vehicle_id = log.read_u32()?;
    let challenge_count = log.read_u32()?;
    let remaining = log.get_ref().len() - log.position();
    if challenge_count as usize > remaining / 6 {
        return Err(ParseError::InvalidChallengeCount { count: challenge_count as usize });
    }
    let mut challenges: Vec<CompletedChallenge> = Vec::with_capacity(challenge_count as usize);
    let mut i: u32 = 0;
    while i < challenge_count
        invariant
            d == old(log).data(),
            a == old(log).pos(),
            log.data() == d,
            challenge_count == crate::bytes::u32_at(d, a + 17),
            a + 21 + 6 * challenge_count <= d.len(),
            i <= challenge_count,
            log.pos() == a + 21 + 6 * i,
            challenges@ == Seq::new(i as nat, |k: int| completed_challenge_at(d, a, k)),
        decreases challenge_count - i,
    {
        let challenge_type = log.read_u8()?;
        let tier = log.read_u8()?;
        let completed_pack = log.read_i32()?;
        challenges.push(CompletedChallenge { challenge_type, tier, completed_pack });
        i = i + 1;
        assert(challenges@ =~= Seq::new(i as nat, |k: int| completed_challenge_at(d, a, k)));
    }
    Ok(ChallengeCompleted { level, total_playtime, events_played, vehicle_id, challenges })
}

/// Reads five-byte awards while the position is below `payload_len`, which must be a
/// multiple of five.
pub fn parse_awards(log: &mut Cursor, payload_len: usize) -> (r: Result<Vec<AwardInformation>, ParseError>)
    ensures
        final(log).data() == old(log).data(),
        reads_as(view_result(r), final(log).pos(), awards_at(old(log).data(), old(log).pos(), payload_len)),
        payload_len % 5 != 0 ==> final(log).pos() == old(log).pos(),
{
    let ghost d = log.data();
    let ghost a = log.pos();
    if payload_len % 5 != 0 {
        return Err(ParseError::InvalidAwardsSize { size: payload_len });
    }
    let mut awards: Vec<AwardInformation> = Vec::with_capacity(payload_len / 5);
    while log.position() < payload_len
        invariant
            d == old(log).data(),
            a == old(log).pos(),
            log.data() == d,
            payload_len % 5 == 0,
            log.pos() == a + 5 * awards@.len(),
            awards@.len() > 0 ==> a + 5 * awards@.len() <= d.len(),
            awards@.len() > 0 ==> a + 5 * (awards@.len() - 1) < payload_len,
            awards@ == Seq::new(awards@.len(), |k: int| award_at(d, a, k)),
        decreases if log.pos() < payload_len { payload_len - log.pos() } else { 0 },
    {
        let ghost k = awards@.len();
        let award_id = match log.read_u8() {
            Ok(v) => v,
            Err(e) => {
                proof {
                    lemma_awards_count_bound(a, payload_len as int, k as int);
                }
                return Err(e);
            },
        };
        let value_bits = match log.read_u32() {
            Ok(v) => v,
            Err(e) => {
                proof {
                    lemma_awards_count_bound(a, payload_len as int, k as int);
                }
                return Err(e);
            },
        };
        awards.push(AwardInformation { award_id, value_bits });
        assert(awards@ =~= Seq::new(awards@.len(), |k: int| award_at(d, a, k)));
    }
    proof {
        lemma_awards_count_exact(a, payload_len as int, awards@.len() as int);
    }
    Ok(awards)
}

/// When `a + 5 * k` is still below `end`, more than `k` awards are read.
proof fn lemma_awards_count_bound(a: int, end: int, k: int)
    requires
        0 <= k,
        a + 5 * k < end,
    ensures
        awards_count(a, end) >= k + 1,
{
    assert((end - a + 4) / 5 >= k + 1) by (nonlinear_arith)
        requires
            end - a > 5 * k,
            k >= 0,
    ;
}

/// The loop stops after exactly `awards_count` awards.
proof fn lemma_awards_count_exact(a: int, end: int, k: int)
    requires
        0 <= k,
        a + 5 * k >= end,
        k > 0 ==> a + 5 * (k - 1) < end,
    ensures
        awards_count(a, end) == k,
{
    if k > 0 {
        assert((end - a + 4) / 5 == k) by (nonlinear_arith)
            requires
                end - a <= 5 * k,
                end - a > 5 * (k - 1),
                k > 0,
        ;
    }
}

/// Reads a post-race body: fixed fields, two lists of pickup counts, three more fields, a
/// list of hand-of-god counts, then the remaining fixed fields.
pub fn parse_post_race(log: &mut Cursor) -> (r: Result<PostRaceStats, ParseError>)
    ensures
        final(log).data() == old(log).data(),
        reads_as(view_result(r), final(log).pos(), post_race_at(old(log).data(), old(log).pos())),
{
    let route_id = log.read_u32()?;
    let rank = log.read_u8()?;
    let game_mode = log.read_u8()?;
    let vehicles_wrecked = log.read_u16()?;
    let pickup_type_count = log.read_u8()? as usize;
    let pickups_used = read_u16_list(log, pickup_type_count)?;
    let pickups_hit = read_u16_list(log, pickup_type_count)?;
    let players_at_start = log.read_i8()?;
    let players_at_end = log.read_i8()?;
    let times_wrecked = log.read_u16()?;
    let hand_of_god_type_count = log.read_u8()? as usize;
    let hand_of_god_uses = read_u8_list(log, hand_of_god_type_count)?;
    let final_position = log.read_u8()?;
    let distance_to_finish_bits = log.read_u32()?;
    let motor_mash_points = log.read_u16()?;
    let timed_out = log.read_u8()? != 0;
    let timeout_length = log.read_u8()?;
    let average_lap_time_bits = log.read_u32()?;
    let race_fans = log.read_u16()?;
    let showy_flourish_fans = log.read_u16()?;
    let finish_bonus = log.read_u16()?;
    let fan_favourite_fans = log.read_u16()?;
    let challenge_fans = log.read_u16()?;
    let car_reward_fans = log.read_u16()?;
    let total_fans = log.read_u16()?;
    let longest_jump_bits = log.read_u32()?;
    let longest_drift_bits = log.read_u32()?;
    let top_speed_bits = log.read_u32()?;
    Ok(PostRaceStats {
        route_id,
        rank,
        game_mode,
        vehicles_wrecked,
        pickups_used,
        pickups_hit,
        players_at_start,
        players_at_end,
        times_wrecked,
        hand_of_god_uses,
        final_position,
        distance_to_finish_bits,
        motor_mash_points,
        timed_out,
        timeout_length,
        average_lap_time_bits,
        race_fans,
        showy_flourish_fans,
        finish_bonus,
        fan_favourite_fans,
        challenge_fans,
        car_reward_fans,
        total_fans,
        longest_jump_bits,
        longest_drift_bits,
        top_speed_bits,
    })
}

/// Reads an on-track pickups body: a count, then that many six-byte pickups. A count the
/// remaining bytes cannot hold is refused before any pickup is read.
pub fn parse_track_pickups(log: &mut Cursor) -> (r: Result<Vec<TrackPickupData>, ParseError>)
    ensures
        final(log).data() == old(log).data(),
        reads_as(view_result(r), final(log).pos(), track_pickups_at(old(log).data(), old(log).pos())),
        r matches Err(ParseError::InvalidPickupCount { .. }) ==> final(log).pos() == old(log).pos() + 4,
{
    let ghost d = log.data();
    let ghost a = log.pos();
    let pickup_count = log.read_u32()?;
    let remaining = log.get_ref().len() - log.position();
    if pickup_count as usize > remaining / 6 {
        return Err(ParseError::InvalidPickupCount { count: pickup_count as usize });
    }
    let mut pickups: Vec<TrackPickupData> = Vec::with_capacity(pickup_count as usize);
    let mut i: u32 = 0;
    while i < pickup_count
        invariant
            d == old(log).data(),
            a == old(log).pos(),
            log.data() == d,
            pickup_count == crate::bytes::u32_at(d, a),
            a + 4 + 6 * pickup_count <= d.len(),
            i <= pickup_count,
            log.pos() == a + 4 + 6 * i,
            pickups@ == Seq::new(i as nat, |k: int| track_pickup_at(d, a, k)),
        decreases pickup_count - i,
    {
        let id = log.read_u32()?;
        let times_picked_up = log.read_u8()?;
        let pickup_type = log.read_u8()?;
        pickups.push(TrackPickupData { id, times_picked_up, pickup_type });
        i = i + 1;
        assert(pickups@ =~= Seq::new(i as nat, |k: int| track_pickup_at(d, a, k)));
    }
    Ok(pickups)
}

/// Decodes one record of category `category` from its whole payload `data`. An empty
/// payload is an `Empty` record, except for host migrations and vote results, which may have
/// none; an unknown category keeps its bytes; every other record must use up its payload.
pub fn parse_record(category: u8, data: &[u8]) -> (r: Result<DataGatherRecord, ParseError>)
    ensures
        view_result(r) == record_of(category, data@),
{
    reveal(record_of);
    let mut log = Cursor::new(data);
    if data.len() == 0 && category != 16 && category != 18 {
        return Ok(DataGatherRecord::Empty { category });
    }
    let record = match category {
        2 => {
            let vehicle_id = log.read_u32()?;
            let respray_id = log.read_u32()?;
            DataGatherRecord::VehicleInformation(VehicleInformation { vehicle_id, respray_id })
        },
        8 => {
            let level = log.read_u8()?;
            let total_playtime = log.read_u64()?;
            let events_played = log.read_u32()?;
            DataGatherRecord::RankUp(RankUp { level, total_playtime, events_played })
        },
        9 => DataGatherRecord::LobbyChoice(log.read_u8()? != 0),
        12 => {
            let route_id = log.read_u32()?;
            let race_mode = log.read_u8()?;
            let player_count = log.read_u8()?;
            DataGatherRecord::QuitRace(QuitRace { route_id, race_mode, player_count })
        },
        13 => {
            let loadout_type = log.read_u8()?;
            let mod1_id = log.read_u8()?;
            let mod2_id = log.read_u8()?;
            let mod3_id = log.read_u8()?;
            let mod1_activations = log.read_u16()?;
            let mod2_activations = log.read_u16()?;
            let mod3_activations = log.read_u16()?;
            DataGatherRecord::ModSelection(
                ModSelection {
                    loadout_type,
                    mod1_id,
                    mod2_id,
                    mod3_id,
                    mod1_activations,
                    mod2_activations,
                    mod3_activations,
                },
            )
        },
        15 => {
            let position = log.read_u8()?;
            let race_points = log.read_u16()?;
            let races_played = log.read_u8()?;
            DataGatherRecord::CheckedSessionBoard(
                SessionboardStats { position, race_points, races_played },
            )
        },
        16 => DataGatherRecord::HostMigrated,
        18 => DataGatherRecord::VoteResults(parse_vote_results(&mut log, data.len() == 0)?),
        19 => DataGatherRecord::CustomRaceSettings(parse_custom_race_settings(&mut log)?),
        20 => DataGatherRecord::ChallengeCompleted(parse_challenge_completed(&mut log)?),
        21 => DataGatherRecord::AwardsGiven(parse_awards(&mut log, data.len())?),
        22 => DataGatherRecord::CareerInformation(parse_career_information(&mut log)?),
        23 => DataGatherRecord::PostRace(parse_post_race(&mut log)?),
        24 => DataGatherRecord::OnTrackPickups(parse_track_pickups(&mut log)?),
        26 => DataGatherRecord::RegionSetting(log.read_u8()?),
        _ => {
            return Ok(
                DataGatherRecord::Unknown { category, data: vstd::slice::slice_to_vec(data) },
            );
        },
    };
    if log.position() != data.len() {
        return Err(ParseError::TrailingBytes { size: data.len() });
    }
    Ok(record)
}

/// The offset of the first `/]` that starts at or after `start`, as `find_terminator` has it.
fn find_record_end(data: &[u8], start: usize) -> (r: Option<usize>)
    ensures
        match r {
            Some(e) => find_terminator(data@, start as int) == Some(e as int),
            None => find_terminator(data@, start as int) is None,
        },
{
    let len = data.len();
    let mut p = start;
    while p < len && len - p > 1
        invariant
            start <= p,
            len == data@.len(),
            find_terminator(data@, start as int) == find_terminator(data@, p as int),
        decreases len - p,
    {
        if data[p] == 0x2f && data[p + 1] == 0x5d {
            return Some(p);
        }
        p = p + 1;
    }
    None
}

/// `prefix` followed by what `rest` holds, or the error `rest` is.
pub open spec fn after_prefix(
    prefix: Seq<DataGatherRecordView>,
    rest: Result<Seq<DataGatherRecordView>, ParseError>,
) -> Result<Seq<DataGatherRecordView>, ParseError> {
    match rest {
        Ok(s) => Ok(prefix + s),
        Err(e) => Err(e),
    }
}

/// Decodes a data gathering log: a 20-byte header (host id, host start time and user id)
/// followed by records, each framed as `[`, a category byte, `=`, the payload and `/]`, where
/// the payload runs to the first `/]`.
pub fn parse_data_gather(log_data: Vec<u8>) -> (r: Result<DataGatherLog, ParseError>)
    ensures
        view_result(r) == data_gather_of(log_data@),
{
    let data = log_data.as_slice();
    let ghost d = data@;
    let mut log = Cursor::new(data);
    let host_id = log.read_u64()?;
    let host_start_time = log.read_u32()?;
    let user_id = log.read_u64()?;
    let len = data.len();
    let mut offset: usize = 20;
    let mut records: Vec<DataGatherRecord> = Vec::new();
    proof {
        assert(records@.map_values(|r: DataGatherRecord| r@) =~= Seq::<DataGatherRecordView>::empty());
        assert(after_prefix(Seq::empty(), records_from(d, 20)) == records_from(d, 20));
    }
    while offset < len
        invariant
            d == data@,
            d == log_data@,
            len == d.len(),
            20 <= offset <= len,
            records_from(d, 20) == after_prefix(
                records@.map_values(|r: DataGatherRecord| r@),
                records_from(d, offset as int),
            ),
        decreases len - offset,
    {
        if data[offset] != 0x5b || len - offset <= 2 || data[offset + 2] != 0x3d {
            return Err(ParseError::InvalidRecordHeader { offset });
        }
        let category = data[offset + 1];
        let payload_start = offset + 3;
        let payload_end = match find_record_end(data, payload_start) {
            Some(e) => e,
            None => {
                return Err(ParseError::UnterminatedRecord { offset });
            },
        };
        proof {
            lemma_find_terminator(d, payload_start as int);
        }
        let payload = vstd::slice::slice_subrange(data, payload_start, payload_end);
        let record = parse_record(category, payload)?;
        let ghost prefix = records@.map_values(|r: DataGatherRecord| r@);
        records.push(record);
        proof {
            assert(records@.map_values(|r: DataGatherRecord| r@) =~= prefix.push(record@));
            let rest = records_from(d, payload_end + 2);
            if let Ok(s) = rest {
                assert(prefix + (seq![record@] + s) =~= prefix.push(record@) + s);
            }
        }
        offset = payload_end + 2;
    }
    proof {
        assert(records@.map_values(|r: DataGatherRecord| r@) + Seq::<DataGatherRecordView>::empty()
            =~= records@.map_values(|r: DataGatherRecord| r@));
    }
    Ok(DataGatherLog { host_id, host_start_time, user_id, records })
}

} // verus!
