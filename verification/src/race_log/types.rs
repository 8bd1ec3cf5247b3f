use crate::error::ParseError;
use vstd::prelude::*;

verus! {

/// One racer's result. The `_bits` fields hold the bit patterns of `f32` values.
#[derive(Debug, Clone, PartialEq)]
pub struct PlayerData {
    pub username: String,
    pub dw_id: u64,
    pub health_remaining_bits: u32,
    pub traveled_distance_bits: u32,
    pub mod1_id: i32,
    pub mod2_id: i32,
    pub mod3_id: i32,
    pub level: i32,
    pub legend: i32,
    pub vehicle_id: u32,
    pub manufacturer_id: u32,
    pub total_fans: u32,
    pub num_powerups: u32,
    pub starting_position: u8,
    pub finish_position: u8,
    pub finish_state: u8,
    pub is_bot: bool,
}

/// A race: its settings and its racers, ordered by finish position.
#[derive(Debug, Clone, PartialEq)]
pub struct GeneralRaceLog {
    pub playlist_id: u64,
    pub version: u32,
    pub race_mode: u32,
    pub city_id: u32,
    pub route_id: u32,
    pub num_racers: u32,
    pub laps: u32,
    pub time_limit: i32,
    pub players_data: Vec<PlayerData>,
}

/// Why a race log was not decoded.
#[derive(Debug, Clone, Copy, PartialEq, Eq, Structural)]
pub enum RaceLogFault {
    /// The bytes do not form a race log.
    Parse(ParseError),
    /// A racer's stored starting position is 255, one below the value reported, which does
    /// not fit in a byte.
    StartingPositionOverflow,
}

/// `PlayerData` with the username as characters.
pub struct PlayerDataView {
    pub username: Seq<char>,
    pub dw_id: u64,
    pub health_remaining_bits: u32,
    pub traveled_distance_bits: u32,
    pub mod1_id: i32,
    pub mod2_id: i32,
    pub mod3_id: i32,
    pub level: i32,
    pub legend: i32,
    pub vehicle_id: u32,
    pub manufacturer_id: u32,
    pub total_fans: u32,
    pub num_powerups: u32,
    pub starting_position: u8,
    pub finish_position: u8,
    pub finish_state: u8,
    pub is_bot: bool,
}

impl View for PlayerData {
    type V = PlayerDataView;

    open spec fn view(&self) -> PlayerDataView {
        PlayerDataView {
            username: self.username@,
            dw_id: self.dw_id,
            health_remaining_bits: self.health_remaining_bits,
            traveled_distance_bits: self.traveled_distance_bits,
            mod1_id: self.mod1_id,
            mod2_id: self.mod2_id,
            mod3_id: self.mod3_id,
            level: self.level,
            legend: self.legend,
            vehicle_id: self.vehicle_id,
            manufacturer_id: self.manufacturer_id,
            total_fans: self.total_fans,
            num_powerups: self.num_powerups,
            starting_position: self.starting_position,
            finish_position: self.finish_position,
            finish_state: self.finish_state,
            is_bot: self.is_bot,
        }
    }
}

/// `GeneralRaceLog` with its racers as a sequence of views.
pub struct GeneralRaceLogView {
    pub playlist_id: u64,
    pub version: u32,
    pub race_mode: u32,
    pub city_id: u32,
    pub route_id: u32,
    pub num_racers: u32,
    pub laps: u32,
    pub time_limit: i32,
    pub players_data: Seq<PlayerDataView>,
}

impl View for GeneralRaceLog {
    type V = GeneralRaceLogView;

    open spec fn view(&self) -> GeneralRaceLogView {
        GeneralRaceLogView {
            playlist_id: self.playlist_id,
            version: self.version,
            race_mode: self.race_mode,
            city_id: self.city_id,
            route_id: self.route_id,
            num_racers: self.num_racers,
            laps: self.laps,
            time_limit: self.time_limit,
            players_data: self.players_data@.map_values(|p: PlayerData| p@),
        }
    }
}

} // verus!
