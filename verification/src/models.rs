//! The typed collections that make up one point-in-time snapshot of league
//! state.
//!
//! Every numeric rating or per-nine-innings figure is held in fixed point
//! with three decimal places ("milli units"): a stored value of `5000`
//! stands for `5.0`. Scores computed from these values use the same scale,
//! which keeps all scoring arithmetic in the integers.

use vstd::prelude::*;

verus! {

/// Fixed-point scale: stored value per whole unit.
pub const MILLI: i64 = 1000;

/// Largest magnitude allowed for a rating or per-nine figure (one thousand
/// whole units in milli fixed point). A bound of this size keeps every
/// scoring formula inside `i64`.
pub const RATING_BOUND: i64 = 1_000_000;

/// Largest count (strikeouts, at-bats, games) a well-formed snapshot holds.
pub const COUNT_BOUND: u64 = 1_000_000_000;

/// Largest collection length a well-formed snapshot holds.
pub const LEN_BOUND: usize = 1_000_000;

/// A pitcher's season pitching line.
#[derive(Debug, Clone)]
pub struct PitchingStats {
    pub player_id: String,
    /// Strikeouts per nine innings, in milli units.
    pub k_per_9: i64,
    /// Games pitched.
    pub games: u64,
}

impl PitchingStats {
    pub open spec fn wf(self) -> bool {
        &&& 0 <= self.k_per_9 <= RATING_BOUND
        &&& self.games <= COUNT_BOUND
    }
}

/// A batter's season strikeout total.
#[derive(Debug, Clone)]
pub struct StrikeoutLeader {
    pub player_id: String,
    pub strikeouts: u64,
}

impl StrikeoutLeader {
    pub open spec fn wf(self) -> bool {
        self.strikeouts <= COUNT_BOUND
    }
}

/// A batter's season at-bat total.
#[derive(Debug, Clone)]
pub struct AtBatLeader {
    pub player_id: String,
    pub at_bats: u64,
}

impl AtBatLeader {
    pub open spec fn wf(self) -> bool {
        self.at_bats <= COUNT_BOUND
    }
}

/// A player's attribute bundle. Latent skill scores and derived ratings are
/// in milli units.
#[derive(Debug, Clone)]
pub struct Player {
    pub id: String,
    pub name: String,
    pub ruthlessness: i64,
    pub patheticism: i64,
    pub pitching_rating: i64,
    pub hitting_rating: i64,
}

impl Player {
    pub open spec fn wf(self) -> bool {
        &&& -RATING_BOUND <= self.ruthlessness <= RATING_BOUND
        &&& -RATING_BOUND <= self.patheticism <= RATING_BOUND
        &&& 0 <= self.pitching_rating <= RATING_BOUND
        &&& 0 <= self.hitting_rating <= RATING_BOUND
        &&& self.name@.len() <= LEN_BOUND
    }
}

/// A player's current team affiliation plus their attributes. `team_id` is
/// blank for free agents.
#[derive(Debug, Clone)]
pub struct Position {
    pub id: String,
    pub team_id: String,
    pub data: Player,
}

impl Position {
    pub open spec fn wf(self) -> bool {
        self.data.wf()
    }
}

/// One scheduled game: two team ids, two optionally-assigned pitcher ids, a
/// progress counter and a season/day stamp. The team and pitcher ids are
/// lookup keys into the snapshot's team and player collections.
#[derive(Debug, Clone)]
pub struct Game {
    pub id: String,
    pub away_pitcher: Option<String>,
    pub away_pitcher_name: Option<String>,
    pub home_pitcher: Option<String>,
    pub home_pitcher_name: Option<String>,
    pub away_team: String,
    pub away_team_name: String,
    pub home_team: String,
    pub home_team_name: String,
    pub inning: i64,
    pub season: i64,
    pub day: u64,
}

/// A team: id, display name, four player-id lists and a set of permanent
/// modifiers. Lineup order is significant for per-batter stat joins.
#[derive(Debug, Clone)]
pub struct Team {
    pub id: String,
    pub full_name: String,
    pub lineup: Vec<String>,
    pub rotation: Vec<String>,
    pub bullpen: Vec<String>,
    pub bench: Vec<String>,
    pub perm_attr: Vec<String>,
}

impl Team {
    pub open spec fn wf(self) -> bool {
        self.lineup@.len() <= LEN_BOUND
    }
}

/// One entry of the league-wide idol board, most idolised first.
#[derive(Debug, Clone)]
pub struct Idol {
    pub player_id: String,
}

/// A recorded game update for a rare league-wide event, tagged with the
/// teams it concerns.
#[derive(Debug, Clone)]
pub struct GameUpdate {
    pub team_tags: Vec<String>,
    pub data: Game,
}

/// The season/day/phase stamp carried by each feed event.
#[derive(Debug, Clone, Copy, PartialEq, Eq, Structural)]
pub struct Simulation {
    pub season: i64,
    pub day: u64,
    pub phase: u64,
}

/// The games portion of a feed event: the stamp, today's schedule and
/// tomorrow's.
#[derive(Debug, Clone)]
pub struct Games {
    pub sim: Simulation,
    pub schedule: Vec<Game>,
    pub tomorrow_schedule: Vec<Game>,
}

/// The payload wrapper of a feed event.
#[derive(Debug, Clone)]
pub struct EventValue {
    pub games: Games,
}

/// One parsed feed event.
#[derive(Debug, Clone)]
pub struct Event {
    pub value: EventValue,
}

} // verus!
