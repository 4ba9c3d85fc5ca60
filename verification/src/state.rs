//! The snapshot of league state and its join accessors.
//!
//! A [`State`] is an immutable aggregate of independently-fetched
//! collections. Joins resolve ids to the first matching element of the
//! relevant collection, and return indices into that collection; an index
//! plus the snapshot it points into stands for the borrowed reference the
//! join conceptually produces.

use vstd::prelude::*;

use crate::lookup::{find_first, lemma_find_first_none, lemma_find_first_props, lemma_find_first_some};
use crate::models::{
    AtBatLeader, Event, Game, GameUpdate, Idol, PitchingStats, Position, StrikeoutLeader, Team,
    LEN_BOUND,
};
use crate::pair::TeamPair;

verus! {

/// One point-in-time aggregate of all externally-fetched collections.
/// Built once per dispatch cycle and never mutated afterwards.
#[derive(Debug)]
pub struct State {
    pub strikeouts: Vec<StrikeoutLeader>,
    pub at_bats: Vec<AtBatLeader>,
    pub pitcher_stats: Vec<PitchingStats>,
    pub teams: Vec<Team>,
    pub players: Vec<Position>,
    pub games: Vec<Game>,
    pub idols: Vec<Idol>,
    pub black_hole_sun_2: Vec<GameUpdate>,
    pub season: i64,
}

impl State {
    /// Every numeric field of the snapshot is inside the fixed-point
    /// bounds, so that all scoring arithmetic stays inside `i64`.
    pub open spec fn wf(self) -> bool {
        &&& forall|i: int| 0 <= i < self.strikeouts@.len() ==> (#[trigger] self.strikeouts@[i]).wf()
        &&& forall|i: int| 0 <= i < self.at_bats@.len() ==> (#[trigger] self.at_bats@[i]).wf()
        &&& forall|i: int|
            0 <= i < self.pitcher_stats@.len() ==> (#[trigger] self.pitcher_stats@[i]).wf()
        &&& forall|i: int| 0 <= i < self.teams@.len() ==> (#[trigger] self.teams@[i]).wf()
        &&& forall|i: int| 0 <= i < self.players@.len() ==> (#[trigger] self.players@[i]).wf()
        &&& self.idols@.len() <= LEN_BOUND
        &&& self.black_hole_sun_2@.len() <= LEN_BOUND
    }

    /// The games a snapshot should be built from, per feed event: tomorrow's
    /// schedule when it is non-empty, today's otherwise; paired with the
    /// season stamp.
    pub fn games_from_event(data: Event) -> (r: (Vec<Game>, i64))
        ensures
            r.0@ == if data.value.games.tomorrow_schedule@.len() == 0 {
                data.value.games.schedule@
            } else {
                data.value.games.tomorrow_schedule@
            },
            r.1 == data.value.games.sim.season,
    {
        let season = data.value.games.sim.season;
        if data.value.games.tomorrow_schedule.is_empty() {
            (data.value.games.schedule, season)
        } else {
            (data.value.games.tomorrow_schedule, season)
        }
    }
}

/// The pitcher ids a stats query asks for: both ids of every game that has
/// both assigned, home before away, in game order, comma-separated.
pub open spec fn spec_comma_pitchers(games: Seq<Game>) -> Seq<char>
    decreases games.len(),
{
    if games.len() == 0 {
        Seq::empty()
    } else {
        let prefix = spec_comma_pitchers(games.drop_last());
        let g = games.last();
        if g.home_pitcher is Some && g.away_pitcher is Some {
            let entry = g.home_pitcher.unwrap()@ + ","@ + g.away_pitcher.unwrap()@;
            if prefix.len() == 0 {
                entry
            } else {
                prefix + ","@ + entry
            }
        } else {
            prefix
        }
    }
}

/// Collect the comma-separated pitcher-id list that the stats fetch sends:
/// games missing either pitcher contribute nothing.
pub fn comma_pitchers(games: &Vec<Game>) -> (r: String)
    ensures
        r@ == spec_comma_pitchers(games@),
{
    let mut r = String::new();
    let n = games.len();
    for i in 0..n
        invariant
            n == games@.len(),
            r@ == spec_comma_pitchers(games@.take(i as int)),
    {
        proof {
            assert(games@.take(i + 1).drop_last() =~= games@.take(i as int));
            assert(games@.take(i + 1).last() == games@[i as int]);
        }
        match (&games[i].home_pitcher, &games[i].away_pitcher) {
            (Some(h), Some(a)) => {
                if !r.as_str().is_empty() {
                    r.append(",");
                }
                r.append(h.as_str());
                r.append(",");
                r.append(a.as_str());
            },
            _ => {},
        }
        proof {
            assert(r@ =~= spec_comma_pitchers(games@.take(i + 1)));
        }
    }
    proof {
        assert(games@.take(n as int) =~= games@);
    }
    r
}

/// An executable find's result agrees with a specification-level
/// `find_first` result.
pub open spec fn opt_idx_matches(found: Option<int>, actual: Option<usize>) -> bool {
    match actual {
        Some(i) => found == Some(i as int),
        None => found is None,
    }
}

/// The predicate "this team has id `id`".
pub open spec fn team_id_is(id: Seq<char>) -> spec_fn(Team) -> bool {
    |t: Team| t.id@ == id
}

/// The predicate "this position (player record) has id `id`".
pub open spec fn position_id_is(id: Seq<char>) -> spec_fn(Position) -> bool {
    |p: Position| p.id@ == id
}

/// The predicate "this pitching line belongs to player `id`".
pub open spec fn stats_player_is(id: Seq<char>) -> spec_fn(PitchingStats) -> bool {
    |p: PitchingStats| p.player_id@ == id
}

/// The predicate "this strikeout entry belongs to player `id`".
pub open spec fn strikeouts_player_is(id: Seq<char>) -> spec_fn(StrikeoutLeader) -> bool {
    |p: StrikeoutLeader| p.player_id@ == id
}

/// The predicate "this at-bat entry belongs to player `id`".
pub open spec fn at_bats_player_is(id: Seq<char>) -> spec_fn(AtBatLeader) -> bool {
    |p: AtBatLeader| p.player_id@ == id
}

/// The predicate "this idol-board entry names player `id`".
pub open spec fn idol_player_is(id: Seq<char>) -> spec_fn(Idol) -> bool {
    |p: Idol| p.player_id@ == id
}

/// The predicate "this game has id `id`".
pub open spec fn game_id_is(id: Seq<char>) -> spec_fn(Game) -> bool {
    |g: Game| g.id@ == id
}

/// The predicate "one of this game's two teams is team `id`".
pub open spec fn game_involves_team(id: Seq<char>) -> spec_fn(Game) -> bool {
    |g: Game| g.home_team@ == id || g.away_team@ == id
}

/// The first team of the snapshot with the given id.
pub open spec fn spec_find_team(s: State, id: Seq<char>) -> Option<int> {
    find_first(s.teams@, team_id_is(id))
}

/// The first player record of the snapshot with the given id.
pub open spec fn spec_find_position(s: State, id: Seq<char>) -> Option<int> {
    find_first(s.players@, position_id_is(id))
}

/// The first pitching line of the snapshot for the given player.
pub open spec fn spec_find_stats(s: State, id: Seq<char>) -> Option<int> {
    find_first(s.pitcher_stats@, stats_player_is(id))
}

/// The first strikeout entry of the snapshot for the given player.
pub open spec fn spec_find_strikeouts(s: State, id: Seq<char>) -> Option<int> {
    find_first(s.strikeouts@, strikeouts_player_is(id))
}

/// The first at-bat entry of the snapshot for the given player.
pub open spec fn spec_find_at_bats(s: State, id: Seq<char>) -> Option<int> {
    find_first(s.at_bats@, at_bats_player_is(id))
}

/// The rank of the given player on the idol board.
pub open spec fn spec_find_idol(s: State, id: Seq<char>) -> Option<int> {
    find_first(s.idols@, idol_player_is(id))
}

/// The first game of the snapshot with the given id.
pub open spec fn spec_find_game_by_id(s: State, id: Seq<char>) -> Option<int> {
    find_first(s.games@, game_id_is(id))
}

/// The first game of the snapshot either of whose teams is the given one.
pub open spec fn spec_find_game_with_team(s: State, id: Seq<char>) -> Option<int> {
    find_first(s.games@, game_involves_team(id))
}

impl State {
    /// Linear search for a team by id.
    pub fn find_team(&self, id: &String) -> (r: Option<usize>)
        ensures
            opt_idx_matches(spec_find_team(*self, id@), r),
            r is Some ==> r.unwrap() < self.teams@.len()
                && self.teams@[r.unwrap() as int].id@ == id@,
    {
        let n = self.teams.len();
        for i in 0..n
            invariant
                n == self.teams@.len(),
                forall|j: int| 0 <= j < i ==> !team_id_is(id@)(#[trigger] self.teams@[j]),
        {
            if self.teams[i].id == *id {
                proof {
                    lemma_find_first_some(self.teams@, team_id_is(id@), i as int);
                }
                return Some(i);
            }
        }
        proof {
            lemma_find_first_none(self.teams@, team_id_is(id@));
        }
        None
    }

    /// Linear search for a player record by id.
    pub fn find_position(&self, id: &String) -> (r: Option<usize>)
        ensures
            opt_idx_matches(spec_find_position(*self, id@), r),
            r is Some ==> r.unwrap() < self.players@.len()
                && self.players@[r.unwrap() as int].id@ == id@,
    {
        let n = self.players.len();
        for i in 0..n
            invariant
                n == self.players@.len(),
                forall|j: int| 0 <= j < i ==> !position_id_is(id@)(#[trigger] self.players@[j]),
        {
            if self.players[i].id == *id {
                proof {
                    lemma_find_first_some(self.players@, position_id_is(id@), i as int);
                }
                return Some(i);
            }
        }
        proof {
            lemma_find_first_none(self.players@, position_id_is(id@));
        }
        None
    }

    /// Linear search for a pitching line by player id.
    pub fn find_stats(&self, id: &String) -> (r: Option<usize>)
        ensures
            opt_idx_matches(spec_find_stats(*self, id@), r),
            r is Some ==> r.unwrap() < self.pitcher_stats@.len()
                && self.pitcher_stats@[r.unwrap() as int].player_id@ == id@,
    {
        let n = self.pitcher_stats.len();
        for i in 0..n
            invariant
                n == self.pitcher_stats@.len(),
                forall|j: int|
                    0 <= j < i ==> !stats_player_is(id@)(#[trigger] self.pitcher_stats@[j]),
        {
            if self.pitcher_stats[i].player_id == *id {
                proof {
                    lemma_find_first_some(self.pitcher_stats@, stats_player_is(id@), i as int);
                }
                return Some(i);
            }
        }
        proof {
            lemma_find_first_none(self.pitcher_stats@, stats_player_is(id@));
        }
        None
    }

    /// Linear search for a strikeout entry by player id.
    pub fn find_strikeouts(&self, id: &String) -> (r: Option<usize>)
        ensures
            opt_idx_matches(spec_find_strikeouts(*self, id@), r),
            r is Some ==> r.unwrap() < self.strikeouts@.len(),
    {
        let n = self.strikeouts.len();
        for i in 0..n
            invariant
                n == self.strikeouts@.len(),
                forall|j: int|
                    0 <= j < i ==> !strikeouts_player_is(id@)(#[trigger] self.strikeouts@[j]),
        {
            if self.strikeouts[i].player_id == *id {
                proof {
                    lemma_find_first_some(self.strikeouts@, strikeouts_player_is(id@), i as int);
                }
                return Some(i);
            }
        }
        proof {
            lemma_find_first_none(self.strikeouts@, strikeouts_player_is(id@));
        }
        None
    }

    /// Linear search for an at-bat entry by player id.
    pub fn find_at_bats(&self, id: &String) -> (r: Option<usize>)
        ensures
            opt_idx_matches(spec_find_at_bats(*self, id@), r),
            r is Some ==> r.unwrap() < self.at_bats@.len(),
    {
        let n = self.at_bats.len();
        for i in 0..n
            invariant
                n == self.at_bats@.len(),
                forall|j: int| 0 <= j < i ==> !at_bats_player_is(id@)(#[trigger] self.at_bats@[j]),
        {
            if self.at_bats[i].player_id == *id {
                proof {
                    lemma_find_first_some(self.at_bats@, at_bats_player_is(id@), i as int);
                }
                return Some(i);
            }
        }
        proof {
            lemma_find_first_none(self.at_bats@, at_bats_player_is(id@));
        }
        None
    }

    /// Linear search of the idol board for a player's rank.
    pub fn find_idol(&self, id: &String) -> (r: Option<usize>)
        ensures
            opt_idx_matches(spec_find_idol(*self, id@), r),
            r is Some ==> r.unwrap() < self.idols@.len(),
    {
        let n = self.idols.len();
        for i in 0..n
            invariant
                n == self.idols@.len(),
                forall|j: int| 0 <= j < i ==> !idol_player_is(id@)(#[trigger] self.idols@[j]),
        {
            if self.idols[i].player_id == *id {
                proof {
                    lemma_find_first_some(self.idols@, idol_player_is(id@), i as int);
                }
                return Some(i);
            }
        }
        proof {
            lemma_find_first_none(self.idols@, idol_player_is(id@));
        }
        None
    }

    /// Linear search for a game by id.
    pub fn find_game_by_id(&self, id: &String) -> (r: Option<usize>)
        ensures
            opt_idx_matches(spec_find_game_by_id(*self, id@), r),
            r is Some ==> r.unwrap() < self.games@.len(),
    {
        let n = self.games.len();
        for i in 0..n
            invariant
                n == self.games@.len(),
                forall|j: int| 0 <= j < i ==> !game_id_is(id@)(#[trigger] self.games@[j]),
        {
            if self.games[i].id == *id {
                proof {
                    lemma_find_first_some(self.games@, game_id_is(id@), i as int);
                }
                return Some(i);
            }
        }
        proof {
            lemma_find_first_none(self.games@, game_id_is(id@));
        }
        None
    }

    /// Linear search for the first game one of whose teams is the given
    /// one.
    pub fn find_game_with_team(&self, id: &String) -> (r: Option<usize>)
        ensures
            opt_idx_matches(spec_find_game_with_team(*self, id@), r),
            r is Some ==> r.unwrap() < self.games@.len(),
    {
        let n = self.games.len();
        for i in 0..n
            invariant
                n == self.games@.len(),
                forall|j: int| 0 <= j < i ==> !game_involves_team(id@)(#[trigger] self.games@[j]),
        {
            if self.games[i].home_team == *id || self.games[i].away_team == *id {
                proof {
                    lemma_find_first_some(self.games@, game_involves_team(id@), i as int);
                }
                return Some(i);
            }
        }
        proof {
            lemma_find_first_none(self.games@, game_involves_team(id@));
        }
        None
    }
}

/// The strict team join succeeds exactly when both of a game's team ids
/// occur in the snapshot, and what it returns are the first teams carrying
/// those ids, side for side; the absence of either id fails the whole
/// join.
pub proof fn lemma_teams_join_iff(s: State, g: Game)
    ensures
        spec_find_team(s, g.home_team@) is Some <==> exists|i: int|
            0 <= i < s.teams@.len() && (#[trigger] s.teams@[i]).id@ == g.home_team@,
        spec_find_team(s, g.away_team@) is Some <==> exists|i: int|
            0 <= i < s.teams@.len() && (#[trigger] s.teams@[i]).id@ == g.away_team@,
        match spec_find_team(s, g.home_team@) {
            Some(i) => 0 <= i < s.teams@.len() && s.teams@[i].id@ == g.home_team@,
            None => true,
        },
        match spec_find_team(s, g.away_team@) {
            Some(i) => 0 <= i < s.teams@.len() && s.teams@[i].id@ == g.away_team@,
            None => true,
        },
{
    lemma_find_first_props(s.teams@, team_id_is(g.home_team@));
    lemma_find_first_props(s.teams@, team_id_is(g.away_team@));
}

/// The lenient per-side stats join: a side with no assigned pitcher has no
/// stats; a side with one resolves independently of the other side.
pub open spec fn spec_side_stats(s: State, pitcher: Option<String>) -> Option<int> {
    match pitcher {
        Some(p) => spec_find_stats(s, p@),
        None => None,
    }
}

impl Game {
    /// Both pitcher ids, when both sides have an assigned pitcher.
    pub fn pitcher_ids(&self) -> (r: Option<TeamPair<String>>)
        ensures
            r is Some <==> self.home_pitcher is Some && self.away_pitcher is Some,
            r is Some ==> r.unwrap().home == self.home_pitcher.unwrap() && r.unwrap().away
                == self.away_pitcher.unwrap(),
    {
        match (&self.home_pitcher, &self.away_pitcher) {
            (Some(h), Some(a)) => Some(TeamPair { home: h.clone(), away: a.clone() }),
            _ => None,
        }
    }

    /// Both pitcher names, when both sides have an assigned pitcher.
    pub fn pitcher_names(&self) -> (r: Option<TeamPair<String>>)
        ensures
            r is Some <==> self.home_pitcher_name is Some && self.away_pitcher_name is Some,
            r is Some ==> r.unwrap().home == self.home_pitcher_name.unwrap() && r.unwrap().away
                == self.away_pitcher_name.unwrap(),
    {
        match (&self.home_pitcher_name, &self.away_pitcher_name) {
            (Some(h), Some(a)) => Some(TeamPair { home: h.clone(), away: a.clone() }),
            _ => None,
        }
    }

    /// Both team ids, always present.
    pub fn team_ids(&self) -> (r: TeamPair<String>)
        ensures
            r.home == self.home_team,
            r.away == self.away_team,
    {
        TeamPair { home: self.home_team.clone(), away: self.away_team.clone() }
    }

    /// The strict team join: indices of both teams of this game, or `None`
    /// when either team id is unmatched. A found pair matches the game's
    /// tags side for side.
    pub fn teams(&self, state: &State) -> (r: Option<TeamPair<usize>>)
        ensures
            match r {
                Some(p) => spec_find_team(*state, self.home_team@) == Some(p.home as int)
                    && spec_find_team(*state, self.away_team@) == Some(p.away as int) && p.home
                    < state.teams@.len() && p.away < state.teams@.len()
                    && state.teams@[p.home as int].id@ == self.home_team@
                    && state.teams@[p.away as int].id@ == self.away_team@,
                None => spec_find_team(*state, self.home_team@) is None || spec_find_team(
                    *state,
                    self.away_team@,
                ) is None,
            },
    {
        let home = state.find_team(&self.home_team);
        let away = state.find_team(&self.away_team);
        match (home, away) {
            (Some(home), Some(away)) => Some(TeamPair { home, away }),
            _ => None,
        }
    }

    /// The strict pitcher join: indices of both pitchers' player records,
    /// or `None` when either side has no assigned pitcher or its id is
    /// unmatched.
    pub fn pitcher_positions(&self, state: &State) -> (r: Option<TeamPair<usize>>)
        ensures
            match r {
                Some(p) => self.home_pitcher is Some && self.away_pitcher is Some
                    && spec_find_position(*state, self.home_pitcher.unwrap()@) == Some(
                    p.home as int,
                ) && spec_find_position(*state, self.away_pitcher.unwrap()@) == Some(p.away as int)
                    && p.home < state.players@.len() && p.away < state.players@.len(),
                None => self.home_pitcher is None || self.away_pitcher is None
                    || spec_find_position(*state, self.home_pitcher.unwrap()@) is None
                    || spec_find_position(*state, self.away_pitcher.unwrap()@) is None,
            },
    {
        match (&self.home_pitcher, &self.away_pitcher) {
            (Some(h), Some(a)) => {
                let home = state.find_position(h);
                let away = state.find_position(a);
                match (home, away) {
                    (Some(home), Some(away)) => Some(TeamPair { home, away }),
                    _ => None,
                }
            },
            _ => None,
        }
    }

    /// The lenient stats join: each side resolves to its pitching line
    /// independently, since a missing stat on one side should not prevent
    /// scoring the other.
    pub fn pitcher_stats(&self, state: &State) -> (r: TeamPair<Option<usize>>)
        ensures
            opt_idx_matches(spec_side_stats(*state, self.home_pitcher), r.home),
            opt_idx_matches(spec_side_stats(*state, self.away_pitcher), r.away),
            r.home is Some ==> r.home.unwrap() < state.pitcher_stats@.len(),
            r.away is Some ==> r.away.unwrap() < state.pitcher_stats@.len(),
    {
        let home = match &self.home_pitcher {
            Some(h) => state.find_stats(h),
            None => None,
        };
        let away = match &self.away_pitcher {
            Some(a) => state.find_stats(a),
            None => None,
        };
        TeamPair { home, away }
    }
}

/// The at-bat totals of a lineup, in lineup order, each side resolved
/// independently.
pub open spec fn spec_lineup_at_bats(s: State, lineup: Seq<String>) -> Seq<Option<u64>> {
    Seq::new(
        lineup.len(),
        |i: int|
            match spec_find_at_bats(s, lineup[i]@) {
                Some(j) => Some(s.at_bats@[j].at_bats),
                None => None,
            },
    )
}

/// The strikeout totals of a lineup, in lineup order, each resolved
/// independently.
pub open spec fn spec_lineup_strikeouts(s: State, lineup: Seq<String>) -> Seq<Option<u64>> {
    Seq::new(
        lineup.len(),
        |i: int|
            match spec_find_strikeouts(s, lineup[i]@) {
                Some(j) => Some(s.strikeouts@[j].strikeouts),
                None => None,
            },
    )
}

impl Team {
    /// The at-bat total of each lineup member, in lineup order; a member
    /// with no leaderboard entry yields `None`.
    pub fn at_bats(&self, state: &State) -> (r: Vec<Option<u64>>)
        ensures
            r@ == spec_lineup_at_bats(*state, self.lineup@),
    {
        let mut r: Vec<Option<u64>> = Vec::new();
        let n = self.lineup.len();
        for i in 0..n
            invariant
                n == self.lineup@.len(),
                r@.len() == i,
                forall|j: int| 0 <= j < i ==> r@[j] == spec_lineup_at_bats(*state, self.lineup@)[j],
        {
            let entry = match state.find_at_bats(&self.lineup[i]) {
                Some(j) => Some(state.at_bats[j].at_bats),
                None => None,
            };
            r.push(entry);
        }
        proof {
            assert(r@ =~= spec_lineup_at_bats(*state, self.lineup@));
        }
        r
    }

    /// The strikeout total of each lineup member, in lineup order; a member
    /// with no leaderboard entry yields `None`.
    pub fn strikeouts(&self, state: &State) -> (r: Vec<Option<u64>>)
        ensures
            r@ == spec_lineup_strikeouts(*state, self.lineup@),
    {
        let mut r: Vec<Option<u64>> = Vec::new();
        let n = self.lineup.len();
        for i in 0..n
            invariant
                n == self.lineup@.len(),
                r@.len() == i,
                forall|j: int|
                    0 <= j < i ==> r@[j] == spec_lineup_strikeouts(*state, self.lineup@)[j],
        {
            let entry = match state.find_strikeouts(&self.lineup[i]) {
                Some(j) => Some(state.strikeouts[j].strikeouts),
                None => None,
            };
            r.push(entry);
        }
        proof {
            assert(r@ =~= spec_lineup_strikeouts(*state, self.lineup@));
        }
        r
    }
}

} // verus!
