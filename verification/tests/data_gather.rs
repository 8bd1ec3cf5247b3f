use race_log_parser::bytes::Cursor;
use race_log_parser::data_gather::{
    parse_awards, parse_challenge_completed, parse_custom_race_settings, parse_data_gather,
    parse_post_race, parse_record, parse_track_pickups, parse_vote_results, read_u16_list,
    read_u8_list, AwardInformation, CareerInformation, ChallengeCompleted, CompletedChallenge,
    CustomRaceSettings, DataGatherRecord, ModSelection, PostRaceStats, QuitRace, RankUp,
    SessionboardStats, TrackPickupData, VehicleInformation, VoteResults,
};
use race_log_parser::ParseError;

fn header() -> Vec<u8> {
    let mut h = Vec::new();
    h.extend_from_slice(&0x0102030405060708u64.to_le_bytes());
    h.extend_from_slice(&0xAABBCCDDu32.to_le_bytes());
    h.extend_from_slice(&42u64.to_le_bytes());
    h
}

fn frame(category: u8, payload: &[u8]) -> Vec<u8> {
    let mut f = vec![b'[', category, b'='];
    f.extend_from_slice(payload);
    f.extend_from_slice(b"/]");
    f
}

#[test]
fn header_only_log_has_no_records() {
    let log = parse_data_gather(header()).unwrap();
    assert_eq!(log.host_id, 0x0102030405060708);
    assert_eq!(log.host_start_time, 0xAABBCCDD);
    assert_eq!(log.user_id, 42);
    assert!(log.records.is_empty());
}

#[test]
fn short_header_is_unexpected_end() {
    assert_eq!(parse_data_gather(vec![0; 19]), Err(ParseError::UnexpectedEnd));
    assert_eq!(parse_data_gather(vec![]), Err(ParseError::UnexpectedEnd));
}

#[test]
fn records_are_decoded_in_order() {
    let mut data = header();
    data.extend(frame(2, &[1, 0, 0, 0, 2, 1, 0, 0]));
    data.extend(frame(9, &[7]));
    data.extend(frame(26, &[3]));
    let log = parse_data_gather(data).unwrap();
    assert_eq!(
        log.records,
        vec![
            DataGatherRecord::VehicleInformation(VehicleInformation { vehicle_id: 1, respray_id: 258 }),
            DataGatherRecord::LobbyChoice(true),
            DataGatherRecord::RegionSetting(3),
        ]
    );
}

#[test]
fn bad_frame_header_reports_its_offset() {
    let mut data = header();
    data.extend(frame(9, &[0]));
    data.extend_from_slice(b"(9=x/]");
    assert_eq!(parse_data_gather(data), Err(ParseError::InvalidRecordHeader { offset: 26 }));
    let mut data = header();
    data.extend_from_slice(b"[9");
    assert_eq!(parse_data_gather(data), Err(ParseError::InvalidRecordHeader { offset: 20 }));
}

#[test]
fn unterminated_frame_reports_its_offset() {
    let mut data = header();
    data.extend_from_slice(b"[9=\x01/");
    assert_eq!(parse_data_gather(data), Err(ParseError::UnterminatedRecord { offset: 20 }));
}

#[test]
fn payload_ends_at_first_terminator() {
    // The payload "ab" ends at the first "/]"; what follows must be another frame.
    let mut data = header();
    data.extend_from_slice(b"[\x63=ab/]/]");
    assert_eq!(parse_data_gather(data), Err(ParseError::InvalidRecordHeader { offset: 27 }));
}

#[test]
fn record_errors_propagate() {
    let mut data = header();
    data.extend(frame(9, &[1, 2]));
    assert_eq!(parse_data_gather(data), Err(ParseError::TrailingBytes { size: 2 }));
}

#[test]
fn appended_frame_adds_its_record() {
    let mut data = header();
    data.extend(frame(12, &[5, 0, 0, 0, 1, 8]));
    let before = parse_data_gather(data.clone()).unwrap();
    data.extend(frame(15, &[1, 0x10, 0x01, 4]));
    let after = parse_data_gather(data).unwrap();
    let mut expected = before.records.clone();
    expected.push(DataGatherRecord::CheckedSessionBoard(SessionboardStats {
        position: 1,
        race_points: 0x0110,
        races_played: 4,
    }));
    assert_eq!(after.records, expected);
    assert_eq!(after.host_id, before.host_id);
}

#[test]
fn empty_payload_is_empty_record() {
    assert_eq!(parse_record(2, &[]), Ok(DataGatherRecord::Empty { category: 2 }));
    assert_eq!(parse_record(99, &[]), Ok(DataGatherRecord::Empty { category: 99 }));
    assert_eq!(parse_record(16, &[]), Ok(DataGatherRecord::HostMigrated));
    assert_eq!(parse_record(18, &[]), Ok(DataGatherRecord::VoteResults(None)));
}

#[test]
fn host_migrated_with_payload_has_trailing_bytes() {
    assert_eq!(parse_record(16, &[0]), Err(ParseError::TrailingBytes { size: 1 }));
}

#[test]
fn unknown_category_keeps_bytes() {
    assert_eq!(
        parse_record(99, &[1, 2, 3]),
        Ok(DataGatherRecord::Unknown { category: 99, data: vec![1, 2, 3] })
    );
}

#[test]
fn fixed_records() {
    let mut rank = vec![5];
    rank.extend_from_slice(&1000u64.to_le_bytes());
    rank.extend_from_slice(&77u32.to_le_bytes());
    assert_eq!(
        parse_record(8, &rank),
        Ok(DataGatherRecord::RankUp(RankUp { level: 5, total_playtime: 1000, events_played: 77 }))
    );
    assert_eq!(parse_record(9, &[0]), Ok(DataGatherRecord::LobbyChoice(false)));
    assert_eq!(
        parse_record(12, &[1, 2, 0, 0, 3, 4]),
        Ok(DataGatherRecord::QuitRace(QuitRace { route_id: 0x0201, race_mode: 3, player_count: 4 }))
    );
    assert_eq!(
        parse_record(13, &[1, 2, 3, 4, 5, 0, 6, 0, 7, 1]),
        Ok(DataGatherRecord::ModSelection(ModSelection {
            loadout_type: 1,
            mod1_id: 2,
            mod2_id: 3,
            mod3_id: 4,
            mod1_activations: 5,
            mod2_activations: 6,
            mod3_activations: 0x0107,
        }))
    );
}

#[test]
fn fixed_record_too_short_or_too_long() {
    assert_eq!(parse_record(2, &[1, 2, 3]), Err(ParseError::UnexpectedEnd));
    assert_eq!(parse_record(2, &[0; 9]), Err(ParseError::TrailingBytes { size: 9 }));
    assert_eq!(parse_record(22, &[0; 36]), Err(ParseError::UnexpectedEnd));
}

#[test]
fn vote_results_record() {
    let p = [3, 1, 0, 0, 0, 2, 0, 0, 0, 1];
    assert_eq!(
        parse_record(18, &p),
        Ok(DataGatherRecord::VoteResults(Some(VoteResults {
            winning_votes: 3,
            winning_route: 1,
            losing_route: 2,
            losing_votes: 1,
        })))
    );
}

#[test]
fn vote_results_reader() {
    let data = [9u8, 3, 1, 0, 0, 0, 2, 0, 0, 0, 1];
    let mut log = Cursor::new(&data);
    assert_eq!(log.read_u8(), Ok(9));
    assert_eq!(parse_vote_results(&mut log, true), Ok(None));
    assert_eq!(log.position(), 1);
    assert_eq!(
        parse_vote_results(&mut log, false),
        Ok(Some(VoteResults { winning_votes: 3, winning_route: 1, losing_route: 2, losing_votes: 1 }))
    );
    assert_eq!(log.position(), 11);
    assert_eq!(parse_vote_results(&mut log, false), Err(ParseError::UnexpectedEnd));
}

#[test]
fn custom_race_settings_reader() {
    let mut p = vec![0x10, 0, 0, 0, 3, 0x2c, 0x01, 1, 2, 0];
    p.extend_from_slice(&[1, 0, 1, 0, 2, 0, 0, 1, 4, 1]);
    let mut log = Cursor::new(&p);
    let expected = CustomRaceSettings {
        route_id: 0x10,
        lap_limit: 3,
        time_limit: 300,
        race_mode: 1,
        car_class: 2,
        damage_mode: 0,
        mods: true,
        ai: false,
        respawn: true,
        upgrades: false,
        handicap: true,
        timeout: false,
        lock_to_host_car: false,
        powerups: true,
        powerup_respawn_mode: 4,
        random_powerups: true,
    };
    assert_eq!(parse_custom_race_settings(&mut log), Ok(expected));
    assert_eq!(log.position(), 20);
    assert_eq!(parse_record(19, &p), Ok(DataGatherRecord::CustomRaceSettings(expected)));
    let mut short = Cursor::new(&p[..19]);
    assert_eq!(parse_custom_race_settings(&mut short), Err(ParseError::UnexpectedEnd));
}

#[test]
fn list_readers() {
    let data = [1u8, 0, 2, 0, 0xff, 0xff, 9];
    let mut log = Cursor::new(&data);
    assert_eq!(read_u16_list(&mut log, 3), Ok(vec![1, 2, 0xffff]));
    assert_eq!(read_u8_list(&mut log, 1), Ok(vec![9]));
    assert_eq!(read_u8_list(&mut log, 0), Ok(vec![]));
    assert_eq!(read_u16_list(&mut log, 0), Ok(vec![]));
    assert_eq!(read_u8_list(&mut log, 1), Err(ParseError::UnexpectedEnd));
    let mut log = Cursor::new(&data);
    assert_eq!(read_u16_list(&mut log, 4), Err(ParseError::UnexpectedEnd));
}

fn challenge_payload(count: u32, entries: usize) -> Vec<u8> {
    let mut p = vec![4];
    p.extend_from_slice(&500u64.to_le_bytes());
    p.extend_from_slice(&12u32.to_le_bytes());
    p.extend_from_slice(&33u32.to_le_bytes());
    p.extend_from_slice(&count.to_le_bytes());
    for i in 0..entries {
        p.push(i as u8);
        p.push(2);
        p.extend_from_slice(&(-1i32 - i as i32).to_le_bytes());
    }
    p
}

#[test]
fn challenge_completed() {
    let p = challenge_payload(2, 2);
    let expected = ChallengeCompleted {
        level: 4,
        total_playtime: 500,
        events_played: 12,
        vehicle_id: 33,
        challenges: vec![
            CompletedChallenge { challenge_type: 0, tier: 2, completed_pack: -1 },
            CompletedChallenge { challenge_type: 1, tier: 2, completed_pack: -2 },
        ],
    };
    let mut log = Cursor::new(&p);
    assert_eq!(parse_challenge_completed(&mut log), Ok(expected.clone()));
    assert_eq!(parse_record(20, &p), Ok(DataGatherRecord::ChallengeCompleted(expected)));
}

#[test]
fn challenge_count_too_large() {
    let p = challenge_payload(3, 2);
    assert_eq!(parse_record(20, &p), Err(ParseError::InvalidChallengeCount { count: 3 }));
    // One extra byte: the count fits, the record has bytes left over.
    let mut q = challenge_payload(2, 2);
    q.push(0);
    assert_eq!(parse_record(20, &q), Err(ParseError::TrailingBytes { size: 34 }));
    assert_eq!(parse_record(20, &q[..20]), Err(ParseError::UnexpectedEnd));
}

#[test]
fn awards() {
    let mut p = vec![1];
    p.extend_from_slice(&1.5f32.to_bits().to_le_bytes());
    p.push(2);
    p.extend_from_slice(&(-2.0f32).to_bits().to_le_bytes());
    let expected = vec![
        AwardInformation { award_id: 1, value_bits: 1.5f32.to_bits() },
        AwardInformation { award_id: 2, value_bits: (-2.0f32).to_bits() },
    ];
    assert_eq!(parse_record(21, &p), Ok(DataGatherRecord::AwardsGiven(expected.clone())));
    let mut log = Cursor::new(&p);
    assert_eq!(parse_awards(&mut log, 10), Ok(expected));
    assert_eq!(parse_record(21, &p[..7]), Err(ParseError::InvalidAwardsSize { size: 7 }));
    let mut log = Cursor::new(&p[..7]);
    assert_eq!(parse_awards(&mut log, 10), Err(ParseError::UnexpectedEnd));
}

#[test]
fn career_information() {
    let mut p = vec![9];
    p.extend_from_slice(&100u32.to_le_bytes());
    p.extend_from_slice(&0.25f32.to_bits().to_le_bytes());
    p.extend_from_slice(&7000u64.to_le_bytes());
    p.extend_from_slice(&55u32.to_le_bytes());
    p.extend_from_slice(&3.5f32.to_bits().to_le_bytes());
    p.extend_from_slice(&8u32.to_le_bytes());
    p.extend_from_slice(&20u32.to_le_bytes());
    p.extend_from_slice(&6u32.to_le_bytes());
    assert_eq!(
        parse_record(22, &p),
        Ok(DataGatherRecord::CareerInformation(CareerInformation {
            level: 9,
            driver_score: 100,
            powerup_hit_ratio_bits: 0.25f32.to_bits(),
            total_playtime: 7000,
            lifetime_fans: 55,
            average_position_bits: 3.5f32.to_bits(),
            cumulative_position: 8,
            events_played: 20,
            events_won: 6,
        }))
    );
}

fn post_race_payload() -> Vec<u8> {
    let mut p = Vec::new();
    p.extend_from_slice(&77u32.to_le_bytes());
    p.extend_from_slice(&[2, 1]);
    p.extend_from_slice(&3u16.to_le_bytes());
    p.push(2); // pickup types
    p.extend_from_slice(&[1, 0, 2, 0]); // used
    p.extend_from_slice(&[3, 0, 4, 0]); // hit
    p.push(10); // players at start
    p.push(0xff); // players at end: -1
    p.extend_from_slice(&5u16.to_le_bytes());
    p.push(3); // hand of god types
    p.extend_from_slice(&[7, 8, 9]);
    p.push(1); // final position
    p.extend_from_slice(&12.5f32.to_bits().to_le_bytes());
    p.extend_from_slice(&40u16.to_le_bytes());
    p.push(1);
    p.push(30);
    p.extend_from_slice(&61.0f32.to_bits().to_le_bytes());
    for v in [100u16, 101, 102, 103, 104, 105, 106] {
        p.extend_from_slice(&v.to_le_bytes());
    }
    p.extend_from_slice(&1.0f32.to_bits().to_le_bytes());
    p.extend_from_slice(&2.0f32.to_bits().to_le_bytes());
    p.extend_from_slice(&3.0f32.to_bits().to_le_bytes());
    p
}

#[test]
fn post_race() {
    let p = post_race_payload();
    assert_eq!(p.len(), 53 + 4 * 2 + 3);
    let expected = PostRaceStats {
        route_id: 77,
        rank: 2,
        game_mode: 1,
        vehicles_wrecked: 3,
        pickups_used: vec![1, 2],
        pickups_hit: vec![3, 4],
        players_at_start: 10,
        players_at_end: -1,
        times_wrecked: 5,
        hand_of_god_uses: vec![7, 8, 9],
        final_position: 1,
        distance_to_finish_bits: 12.5f32.to_bits(),
        motor_mash_points: 40,
        timed_out: true,
        timeout_length: 30,
        average_lap_time_bits: 61.0f32.to_bits(),
        race_fans: 100,
        showy_flourish_fans: 101,
        finish_bonus: 102,
        fan_favourite_fans: 103,
        challenge_fans: 104,
        car_reward_fans: 105,
        total_fans: 106,
        longest_jump_bits: 1.0f32.to_bits(),
        longest_drift_bits: 2.0f32.to_bits(),
        top_speed_bits: 3.0f32.to_bits(),
    };
    let mut log = Cursor::new(&p);
    assert_eq!(parse_post_race(&mut log), Ok(expected.clone()));
    assert_eq!(log.position(), p.len());
    assert_eq!(parse_record(23, &p), Ok(DataGatherRecord::PostRace(expected)));
    assert_eq!(parse_record(23, &p[..p.len() - 1]), Err(ParseError::UnexpectedEnd));
}

#[test]
fn track_pickups() {
    let mut p = 2u32.to_le_bytes().to_vec();
    p.extend_from_slice(&[1, 0, 0, 0, 5, 6]);
    p.extend_from_slice(&[2, 1, 0, 0, 7, 8]);
    let expected = vec![
        TrackPickupData { id: 1, times_picked_up: 5, pickup_type: 6 },
        TrackPickupData { id: 0x0102, times_picked_up: 7, pickup_type: 8 },
    ];
    let mut log = Cursor::new(&p);
    assert_eq!(parse_track_pickups(&mut log), Ok(expected.clone()));
    assert_eq!(parse_record(24, &p), Ok(DataGatherRecord::OnTrackPickups(expected)));
    let mut q = 3u32.to_le_bytes().to_vec();
    q.extend_from_slice(&p[4..]);
    assert_eq!(parse_record(24, &q), Err(ParseError::InvalidPickupCount { count: 3 }));
}

#[test]
fn error_sizes() {
    assert_eq!(ParseError::UnexpectedEnd.size(), 0);
    assert_eq!(ParseError::InvalidRecordHeader { offset: 26 }.size(), 26);
    assert_eq!(ParseError::InvalidPickupCount { count: 3 }.size(), 3);
}

#[test]
fn logs_with_the_same_header_concatenate() {
    let first = [frame(9, &[1]), frame(26, &[2])].concat();
    let second = [frame(99, &[5, 6]), frame(2, &[])].concat();
    let g1 = parse_data_gather([header(), first.clone()].concat()).unwrap();
    let g2 = parse_data_gather([header(), second.clone()].concat()).unwrap();
    let g = parse_data_gather([header(), first, second].concat()).unwrap();
    let mut expected = g1.records.clone();
    expected.extend(g2.records);
    assert_eq!(g.records, expected);
    assert_eq!((g.host_id, g.host_start_time, g.user_id), (g1.host_id, g1.host_start_time, g1.user_id));
}

#[test]
fn refused_counts_leave_the_cursor_where_they_were_read() {
    let p = [1u8, 2, 3, 4, 5, 6, 7];
    let mut log = Cursor::new(&p);
    assert_eq!(parse_awards(&mut log, 7), Err(ParseError::InvalidAwardsSize { size: 7 }));
    assert_eq!(log.position(), 0);
    let q = 9u32.to_le_bytes();
    let mut log = Cursor::new(&q);
    assert_eq!(parse_track_pickups(&mut log), Err(ParseError::InvalidPickupCount { count: 9 }));
    assert_eq!(log.position(), 4);
    let c = challenge_payload(1, 0);
    let mut log = Cursor::new(&c);
    assert_eq!(parse_challenge_completed(&mut log), Err(ParseError::InvalidChallengeCount { count: 1 }));
    assert_eq!(log.position(), 21);
}
