use vstd::prelude::*;

verus! {

/// The car a player picked.
#[derive(Debug, Clone, Copy, PartialEq, Eq, Structural)]
pub struct VehicleInformation {
    pub vehicle_id: u32,
    pub respray_id: u32,
}

/// A player reaching a new level.
#[derive(Debug, Clone, Copy, PartialEq, Eq, Structural)]
pub struct RankUp {
    pub level: u8,
    pub total_playtime: u64,
    pub events_played: u32,
}

/// A player leaving a race early.
#[derive(Debug, Clone, Copy, PartialEq, Eq, Structural)]
pub struct QuitRace {
    pub route_id: u32,
    pub race_mode: u8,
    pub player_count: u8,
}

/// The mods a player equipped, and how often each was activated.
#[derive(Debug, Clone, Copy, PartialEq, Eq, Structural)]
pub struct ModSelection {
    pub loadout_type: u8,
    pub mod1_id: u8,
    pub mod2_id: u8,
    pub mod3_id: u8,
    pub mod1_activations: u16,
    pub mod2_activations: u16,
    pub mod3_activations: u16,
}

/// What a player saw on the session board.
#[derive(Debug, Clone, Copy, PartialEq, Eq, Structural)]
pub struct SessionboardStats {
    pub position: u8,
    pub race_points: u16,
    pub races_played: u8,
}

/// The outcome of a route vote.
#[derive(Debug, Clone, Copy, PartialEq, Eq, Structural)]
pub struct VoteResults {
    pub winning_votes: u8,
    pub winning_route: u32,
    pub losing_route: u32,
    pub losing_votes: u8,
}

/// The settings of a custom race.
#[derive(Debug, Clone, Copy, PartialEq, Eq, Structural)]
pub struct CustomRaceSettings {
    pub route_id: u32,
    pub lap_limit: u8,
    pub time_limit: u16,
    pub race_mode: u8,
    pub car_class: u8,
    pub damage_mode: u8,
    pub mods: bool,
    pub ai: bool,
    pub respawn: bool,
    pub upgrades: bool,
    pub handicap: bool,
    pub timeout: bool,
    pub lock_to_host_car: bool,
    pub powerups: bool,
    pub powerup_respawn_mode: u8,
    pub random_powerups: bool,
}

/// One challenge a player completed.
#[derive(Debug, Clone, Copy, PartialEq, Eq, Structural)]
pub struct CompletedChallenge {
    pub challenge_type: u8,
    pub tier: u8,
    pub completed_pack: i32,
}

/// Challenges completed at the end of a race.
#[derive(Debug, Clone, PartialEq)]
pub struct ChallengeCompleted {
    pub level: u8,
    pub total_playtime: u64,
    pub events_played: u32,
    pub vehicle_id: u32,
    pub challenges: Vec<CompletedChallenge>,
}

/// An award handed out after a race. `value_bits` is the bit pattern of the
/// award's `f32` value.
#[derive(Debug, Clone, Copy, PartialEq, Eq, Structural)]
pub struct AwardInformation {
    pub award_id: u8,
    pub value_bits: u32,
}

/// A player's career totals. The `_bits` fields hold the bit patterns of `f32` values.
#[derive(Debug, Clone, Copy, PartialEq, Eq, Structural)]
pub struct CareerInformation {
    pub level: u8,
    pub driver_score: u32,
    pub powerup_hit_ratio_bits: u32,
    pub total_playtime: u64,
    pub lifetime_fans: u32,
    pub average_position_bits: u32,
    pub cumulative_position: u32,
    pub events_played: u32,
    pub events_won: u32,
}

/// A player's statistics for one race. The `_bits` fields hold the bit patterns of `f32` values.
#[derive(Debug, Clone, PartialEq)]
pub struct PostRaceStats {
    pub route_id: u32,
    pub rank: u8,
    pub game_mode: u8,
    pub vehicles_wrecked: u16,
    pub pickups_used: Vec<u16>,
    pub pickups_hit: Vec<u16>,
    pub players_at_start: i8,
    pub players_at_end: i8,
    pub times_wrecked: u16,
    pub hand_of_god_uses: Vec<u8>,
    pub final_position: u8,
    pub distance_to_finish_bits: u32,
    pub motor_mash_points: u16,
    pub timed_out: bool,
    pub timeout_length: u8,
    pub average_lap_time_bits: u32,
    pub race_fans: u16,
    pub showy_flourish_fans: u16,
    pub finish_bonus: u16,
    pub fan_favourite_fans: u16,
    pub challenge_fans: u16,
    pub car_reward_fans: u16,
    pub total_fans: u16,
    pub longest_jump_bits: u32,
    pub longest_drift_bits: u32,
    pub top_speed_bits: u32,
}

/// A pickup lying on the track, and how it was used.
#[derive(Debug, Clone, Copy, PartialEq, Eq, Structural)]
pub struct TrackPickupData {
    pub id: u32,
    pub times_picked_up: u8,
    pub pickup_type: u8,
}

/// One telemetry record, by category.
#[derive(Debug, Clone, PartialEq)]
pub enum DataGatherRecord {
    VehicleInformation(VehicleInformation),
    RankUp(RankUp),
    LobbyChoice(bool),
    QuitRace(QuitRace),
    ModSelection(ModSelection),
    CheckedSessionBoard(SessionboardStats),
    HostMigrated,
    VoteResults(Option<VoteResults>),
    CustomRaceSettings(CustomRaceSettings),
    ChallengeCompleted(ChallengeCompleted),
    AwardsGiven(Vec<AwardInformation>),
    CareerInformation(CareerInformation),
    PostRace(PostRaceStats),
    OnTrackPickups(Vec<TrackPickupData>),
    RegionSetting(u8),
    Empty { category: u8 },
    Unknown { category: u8, data: Vec<u8> },
}

/// A whole data gathering log.
#[derive(Debug, Clone, PartialEq)]
pub struct DataGatherLog {
    pub host_id: u64,
    pub host_start_time: u32,
    pub user_id: u64,
    pub records: Vec<DataGatherRecord>,
}

/// `ChallengeCompleted` with its list as a sequence.
pub struct ChallengeCompletedView {
    pub level: u8,
    pub total_playtime: u64,
    pub events_played: u32,
    pub vehicle_id: u32,
    pub challenges: Seq<CompletedChallenge>,
}

impl View for ChallengeCompleted {
    type V = ChallengeCompletedView;

    open spec fn view(&self) -> ChallengeCompletedView {
        ChallengeCompletedView {
            level: self.level,
            total_playtime: self.total_playtime,
            events_played: self.events_played,
            vehicle_id: self.vehicle_id,
            challenges: self.challenges@,
        }
    }
}

/// `PostRaceStats` with its lists as sequences.
pub struct PostRaceStatsView {
    pub route_id: u32,
    pub rank: u8,
    pub game_mode: u8,
    pub vehicles_wrecked: u16,
    pub pickups_used: Seq<u16>,
    pub pickups_hit: Seq<u16>,
    pub players_at_start: i8,
    pub players_at_end: i8,
    pub times_wrecked: u16,
    pub hand_of_god_uses: Seq<u8>,
    pub final_position: u8,
    pub distance_to_finish_bits: u32,
    pub motor_mash_points: u16,
    pub timed_out: bool,
    pub timeout_length: u8,
    pub average_lap_time_bits: u32,
    pub race_fans: u16,
    pub showy_flourish_fans: u16,
    pub finish_bonus: u16,
    pub fan_favourite_fans: u16,
    pub challenge_fans: u16,
    pub car_reward_fans: u16,
    pub total_fans: u16,
    pub longest_jump_bits: u32,
    pub longest_drift_bits: u32,
    pub top_speed_bits: u32,
}

impl View for PostRaceStats {
    type V = PostRaceStatsView;

    open spec fn view(&self) -> PostRaceStatsView {
        PostRaceStatsView {
            route_id: self.route_id,
            rank: self.rank,
            game_mode: self.game_mode,
            vehicles_wrecked: self.vehicles_wrecked,
            pickups_used: self.pickups_used@,
            pickups_hit: self.pickups_hit@,
            players_at_start: self.players_at_start,
            players_at_end: self.players_at_end,
            times_wrecked: self.times_wrecked,
            hand_of_god_uses: self.hand_of_god_uses@,
            final_position: self.final_position,
            distance_to_finish_bits: self.distance_to_finish_bits,
            motor_mash_points: self.motor_mash_points,
            timed_out: self.timed_out,
            timeout_length: self.timeout_length,
            average_lap_time_bits: self.average_lap_time_bits,
            race_fans: self.race_fans,
            showy_flourish_fans: self.showy_flourish_fans,
            finish_bonus: self.finish_bonus,
            fan_favourite_fans: self.fan_favourite_fans,
            challenge_fans: self.challenge_fans,
            car_reward_fans: self.car_reward_fans,
            total_fans: self.total_fans,
            longest_jump_bits: self.longest_jump_bits,
            longest_drift_bits: self.longest_drift_bits,
            top_speed_bits: self.top_speed_bits,
        }
    }
}

/// `DataGatherRecord` with its lists as sequences.
pub enum DataGatherRecordView {
    VehicleInformation(VehicleInformation),
    RankUp(RankUp),
    LobbyChoice(bool),
    QuitRace(QuitRace),
    ModSelection(ModSelection),
    CheckedSessionBoard(SessionboardStats),
    HostMigrated,
    VoteResults(Option<VoteResults>),
    CustomRaceSettings(CustomRaceSettings),
    ChallengeCompleted(ChallengeCompletedView),
    AwardsGiven(Seq<AwardInformation>),
    CareerInformation(CareerInformation),
    PostRace(PostRaceStatsView),
    OnTrackPickups(Seq<TrackPickupData>),
    RegionSetting(u8),
    Empty { category: u8 },
    Unknown { category: u8, data: Seq<u8> },
}

impl View for DataGatherRecord {
    type V = DataGatherRecordView;

    open spec fn view(&self) -> DataGatherRecordView {
        match self {
            DataGatherRecord::VehicleInformation(v) => DataGatherRecordView::VehicleInformation(*v),
            DataGatherRecord::RankUp(v) => DataGatherRecordView::RankUp(*v),
            DataGatherRecord::LobbyChoice(v) => DataGatherRecordView::LobbyChoice(*v),
            DataGatherRecord::QuitRace(v) => DataGatherRecordView::QuitRace(*v),
            DataGatherRecord::ModSelection(v) => DataGatherRecordView::ModSelection(*v),
            DataGatherRecord::CheckedSessionBoard(v) => DataGatherRecordView::CheckedSessionBoard(*v),
            DataGatherRecord::HostMigrated => DataGatherRecordView::HostMigrated,
            DataGatherRecord::VoteResults(v) => DataGatherRecordView::VoteResults(*v),
            DataGatherRecord::CustomRaceSettings(v) => DataGatherRecordView::CustomRaceSettings(*v),
            DataGatherRecord::ChallengeCompleted(v) => DataGatherRecordView::ChallengeCompleted(v@),
            DataGatherRecord::AwardsGiven(v) => DataGatherRecordView::AwardsGiven(v@),
            DataGatherRecord::CareerInformation(v) => DataGatherRecordView::CareerInformation(*v),
            DataGatherRecord::PostRace(v) => DataGatherRecordView::PostRace(v@),
            DataGatherRecord::OnTrackPickups(v) => DataGatherRecordView::OnTrackPickups(v@),
            DataGatherRecord::RegionSetting(v) => DataGatherRecordView::RegionSetting(*v),
            DataGatherRecord::Empty { category } => DataGatherRecordView::Empty { category: *category },
            DataGatherRecord::Unknown { category, data } => DataGatherRecordView::Unknown {
                category: *category,
                data: data@,
            },
        }
    }
}

/// `DataGatherLog` with its records as a sequence of views.
pub struct DataGatherLogView {
    pub host_id: u64,
    pub host_start_time: u32,
    pub user_id: u64,
    pub records: Seq<DataGatherRecordView>,
}

impl View for DataGatherLog {
    type V = DataGatherLogView;

    open spec fn view(&self) -> DataGatherLogView {
        DataGatherLogView {
            host_id: self.host_id,
            host_start_time: self.host_start_time,
            user_id: self.user_id,
            records: self.records@.map_values(|r: DataGatherRecord| r@),
        }
    }
}

} // verus!
