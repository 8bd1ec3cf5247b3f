//! The general race log: a race header followed by one fixed-size record per racer.

pub mod laws;
pub mod parse;
pub mod sort;
pub mod spec;
pub mod types;

pub use parse::{parse_general_log, parse_general_log_checked, parse_player};
pub use types::{GeneralRaceLog, PlayerData, RaceLogFault};
