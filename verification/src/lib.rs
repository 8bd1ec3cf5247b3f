//! Parsers for the binary logs a racing game's multiplayer server writes: the per-race
//! summary log and the "data gathering" telemetry log.

pub mod bytes;
pub mod data_gather;
pub mod error;
pub mod layout;
pub mod race_log;
pub mod text;

pub use data_gather::parse_data_gather;
pub use error::ParseError;
pub use race_log::{parse_general_log, GeneralRaceLog, PlayerData};
