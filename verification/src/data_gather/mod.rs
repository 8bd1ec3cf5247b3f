//! The data gathering log: a header followed by framed telemetry records.

pub mod laws;
pub mod layout;
pub mod parse;
pub mod spec;
pub mod types;

pub use parse::{
    parse_awards, parse_career_information, parse_challenge_completed,
    parse_custom_race_settings, parse_data_gather, parse_post_race, parse_record,
    parse_track_pickups, parse_vote_results, read_u16_list, read_u8_list,
};
pub use types::{
    AwardInformation, CareerInformation, ChallengeCompleted, CompletedChallenge,
    CustomRaceSettings, DataGatherLog, DataGatherRecord, ModSelection, PostRaceStats, QuitRace,
    RankUp, SessionboardStats, TrackPickupData, VehicleInformation, VoteResults,
};
