use race_log_parser::bytes::Cursor;
use race_log_parser::race_log::{parse_general_log_checked, parse_player, RaceLogFault};
use race_log_parser::{parse_general_log, ParseError};

fn header(num_racers: u32) -> Vec<u8> {
    let mut h = Vec::new();
    h.extend_from_slice(&9_000_000_001u64.to_le_bytes());
    for v in [3u32, 4, 5, 6, num_racers, 3] {
        h.extend_from_slice(&v.to_le_bytes());
    }
    h.extend_from_slice(&(-1i32).to_le_bytes());
    h
}

fn username_field(name: &str) -> Vec<u8> {
    let mut f: Vec<u8> = name.encode_utf16().flat_map(|u| u.to_le_bytes()).collect();
    f.resize(64, 0);
    f
}

fn player(name: &str, start: u8, finish: u8) -> Vec<u8> {
    let mut p = username_field(name);
    p.extend_from_slice(&77u64.to_le_bytes());
    p.extend_from_slice(&0.5f32.to_bits().to_le_bytes());
    p.extend_from_slice(&1234.0f32.to_bits().to_le_bytes());
    for v in [-1i32, 2, 3, 40, 1] {
        p.extend_from_slice(&v.to_le_bytes());
    }
    for v in [11u32, 12, 300, 4] {
        p.extend_from_slice(&v.to_le_bytes());
    }
    p.extend_from_slice(&[0u8; 48]);
    p.extend_from_slice(&[start, finish, 2, 0]);
    assert_eq!(p.len(), 168);
    p
}

fn bots() -> Vec<String> {
    vec!["ghost rider".to_string(), "bot1".to_string()]
}

#[test]
fn racers_are_sorted_by_finish_position() {
    let mut data = header(3);
    data.extend(player("Alice", 0, 3));
    data.extend(player("Bob", 1, 1));
    data.extend(player("Carol", 2, 2));
    let log = parse_general_log(data, &bots()).unwrap();
    assert_eq!(log.playlist_id, 9_000_000_001);
    assert_eq!(log.version, 3);
    assert_eq!(log.race_mode, 4);
    assert_eq!(log.city_id, 5);
    assert_eq!(log.route_id, 6);
    assert_eq!(log.num_racers, 3);
    assert_eq!(log.laps, 3);
    assert_eq!(log.time_limit, -1);
    let names: Vec<&str> = log.players_data.iter().map(|p| p.username.as_str()).collect();
    assert_eq!(names, vec!["Bob", "Carol", "Alice"]);
    let finishes: Vec<u8> = log.players_data.iter().map(|p| p.finish_position).collect();
    assert_eq!(finishes, vec![1, 2, 3]);
}

#[test]
fn tied_racers_keep_record_order() {
    let mut data = header(4);
    data.extend(player("d", 0, 2));
    data.extend(player("a", 1, 1));
    data.extend(player("c", 2, 2));
    data.extend(player("b", 3, 1));
    let log = parse_general_log(data, &[]).unwrap();
    let names: Vec<&str> = log.players_data.iter().map(|p| p.username.as_str()).collect();
    assert_eq!(names, vec!["a", "b", "d", "c"]);
}

#[test]
fn player_fields() {
    let mut data = header(1);
    data.extend(player("Zoë", 4, 1));
    let log = parse_general_log(data, &bots()).unwrap();
    let p = &log.players_data[0];
    assert_eq!(p.username, "Zoë");
    assert_eq!(p.dw_id, 77);
    assert_eq!(f32::from_bits(p.health_remaining_bits), 0.5);
    assert_eq!(f32::from_bits(p.traveled_distance_bits), 1234.0);
    assert_eq!((p.mod1_id, p.mod2_id, p.mod3_id), (-1, 2, 3));
    assert_eq!((p.level, p.legend), (40, 1));
    assert_eq!((p.vehicle_id, p.manufacturer_id, p.total_fans, p.num_powerups), (11, 12, 300, 4));
    assert_eq!(p.starting_position, 5);
    assert_eq!(p.finish_position, 1);
    assert_eq!(p.finish_state, 2);
    assert!(!p.is_bot);
}

#[test]
fn username_nuls_are_trimmed_and_pairs_decoded() {
    let mut field = vec![0u8, 0];
    field.extend("A😀".encode_utf16().flat_map(|u| u.to_le_bytes()));
    field.resize(64, 0);
    let mut record = field;
    record.extend_from_slice(&player("x", 0, 0)[64..]);
    let mut log = Cursor::new(&record);
    let p = parse_player(&mut log, &[]).unwrap();
    assert_eq!(p.username, "A😀");
    assert_eq!(log.position(), 168);
}

#[test]
fn bot_names_match_lowercased_usernames() {
    let mut data = header(2);
    data.extend(player("BOT1", 0, 1));
    data.extend(player("Ghost Rider", 1, 2));
    let log = parse_general_log(data, &bots()).unwrap();
    assert!(log.players_data[0].is_bot);
    assert!(log.players_data[1].is_bot);
    let mut data = header(1);
    data.extend(player("Bot2", 0, 1));
    assert!(!parse_general_log(data, &bots()).unwrap().players_data[0].is_bot);
}

#[test]
fn invalid_username_is_reported() {
    let mut data = header(1);
    let mut record = player("x", 0, 1);
    record[0] = 0x00;
    record[1] = 0xD8; // an unpaired high surrogate
    data.extend(record);
    assert_eq!(parse_general_log(data, &[]), Err(ParseError::InvalidUsername { size: 64 }));
}

#[test]
fn truncated_logs_end_unexpectedly() {
    assert_eq!(parse_general_log(header(0)[..35].to_vec(), &[]), Err(ParseError::UnexpectedEnd));
    let mut data = header(2);
    data.extend(player("a", 0, 1));
    assert_eq!(parse_general_log(data.clone(), &[]), Err(ParseError::UnexpectedEnd));
    data.extend(&player("b", 1, 2)[..167]);
    assert_eq!(parse_general_log(data, &[]), Err(ParseError::UnexpectedEnd));
}

#[test]
fn no_racers() {
    let log = parse_general_log(header(0), &[]).unwrap();
    assert!(log.players_data.is_empty());
}

#[test]
fn starting_position_overflow_is_reported_by_checked_parse() {
    let mut data = header(1);
    data.extend(player("a", 255, 1));
    assert_eq!(parse_general_log_checked(data, &[]), Err(RaceLogFault::StartingPositionOverflow));
    let mut data = header(1);
    data.extend(player("a", 254, 1));
    assert_eq!(parse_general_log_checked(data, &[]).unwrap().players_data[0].starting_position, 255);
}

#[test]
fn bytes_after_the_last_racer_are_ignored() {
    let mut data = header(1);
    data.extend(player("a", 0, 1));
    let before = parse_general_log(data.clone(), &[]).unwrap();
    data.extend_from_slice(&[0xff; 200]);
    let after = parse_general_log(data, &[]).unwrap();
    assert_eq!(before, after);
}
