//! The pitcher-in-context view, the candidate pool, and the selection of
//! the best-scored candidate.

use vstd::prelude::*;

use crate::algorithms::{
    custom_best, score_pitcher, spec_custom_best, spec_score, CustomFormula, PitcherFormula,
};
use crate::fixed::{milli_to_string, spec_milli};
use crate::models::Game;
use crate::pair::{TeamPair, TeamPosition};
use crate::state::{
    spec_find_position, spec_find_team, spec_side_stats, State,
};

verus! {

/// A fully joined scoring-time view of one pitcher: indices into the
/// snapshot for their player record, their optional pitching line, the game
/// they are in, their own team and the opposing team, plus which side they
/// are on. An index of `None` for `game` or `opponent` stands for the
/// synthesized placeholder used by one named heuristic when a matching game
/// cannot be found.
#[derive(Debug, Clone, Copy, PartialEq, Eq, Structural)]
pub struct PitcherRef {
    pub position: usize,
    pub stats: Option<usize>,
    pub game: Option<usize>,
    pub team: usize,
    pub opponent: Option<usize>,
    pub team_pos: TeamPosition,
}

impl PitcherRef {
    /// All indices point into the snapshot.
    pub open spec fn wf(self, s: State) -> bool {
        &&& self.position < s.players@.len()
        &&& match self.stats {
            Some(i) => i < s.pitcher_stats@.len(),
            None => true,
        }
        &&& match self.game {
            Some(i) => i < s.games@.len(),
            None => true,
        }
        &&& self.team < s.teams@.len()
        &&& match self.opponent {
            Some(i) => i < s.teams@.len(),
            None => true,
        }
    }
}

/// The pitcher views of one game: present exactly when the strict team join
/// and the strict pitcher join both succeed; the stats join is lenient per
/// side.
pub open spec fn spec_pitchers(s: State, gi: int) -> Option<TeamPair<PitcherRef>>
    recommends
        0 <= gi < s.games@.len(),
{
    let g = s.games@[gi];
    if g.home_pitcher is Some && g.away_pitcher is Some && spec_find_position(
        s,
        g.home_pitcher.unwrap()@,
    ) is Some && spec_find_position(s, g.away_pitcher.unwrap()@) is Some && spec_find_team(
        s,
        g.home_team@,
    ) is Some && spec_find_team(s, g.away_team@) is Some {
        let ph = spec_find_position(s, g.home_pitcher.unwrap()@).unwrap();
        let pa = spec_find_position(s, g.away_pitcher.unwrap()@).unwrap();
        let th = spec_find_team(s, g.home_team@).unwrap();
        let ta = spec_find_team(s, g.away_team@).unwrap();
        Some(
            TeamPair {
                home: PitcherRef {
                    position: ph as usize,
                    stats: match spec_side_stats(s, g.home_pitcher) {
                        Some(i) => Some(i as usize),
                        None => None,
                    },
                    game: Some(gi as usize),
                    team: th as usize,
                    opponent: Some(ta as usize),
                    team_pos: TeamPosition::Home,
                },
                away: PitcherRef {
                    position: pa as usize,
                    stats: match spec_side_stats(s, g.away_pitcher) {
                        Some(i) => Some(i as usize),
                        None => None,
                    },
                    game: Some(gi as usize),
                    team: ta as usize,
                    opponent: Some(th as usize),
                    team_pos: TeamPosition::Away,
                },
            },
        )
    } else {
        None
    }
}

impl PitcherRef {
    /// Assemble the two pitcher views of the game at index `gi`, or skip
    /// the game when the team join or the pitcher join fails.
    pub fn pitchers(state: &State, gi: usize) -> (r: Option<TeamPair<PitcherRef>>)
        requires
            gi < state.games@.len(),
        ensures
            r == spec_pitchers(*state, gi as int),
            r is Some ==> r.unwrap().home.wf(*state) && r.unwrap().away.wf(*state),
    {
        let game: &Game = &state.games[gi];
        let positions = match game.pitcher_positions(state) {
            Some(p) => p,
            None => {
                return None;
            },
        };
        let stats = game.pitcher_stats(state);
        let teams = match game.teams(state) {
            Some(t) => t,
            None => {
                return None;
            },
        };
        Some(
            TeamPair {
                home: PitcherRef {
                    position: positions.home,
                    stats: stats.home,
                    game: Some(gi),
                    team: teams.home,
                    opponent: Some(teams.away),
                    team_pos: TeamPosition::Home,
                },
                away: PitcherRef {
                    position: positions.away,
                    stats: stats.away,
                    game: Some(gi),
                    team: teams.away,
                    opponent: Some(teams.home),
                    team_pos: TeamPosition::Away,
                },
            },
        )
    }
}

/// A candidate: a pitcher view plus its score in milli fixed point.
#[derive(Debug, Clone, Copy, PartialEq, Eq, Structural)]
pub struct ScoredPitcher {
    pub pitcher: PitcherRef,
    pub score: i64,
}

/// The selected candidate of a pool scanned left to right: a later
/// candidate replaces the current best only with a strictly greater score,
/// so ties are broken in favour of the first-found.
pub open spec fn spec_best(c: Seq<ScoredPitcher>) -> Option<ScoredPitcher>
    decreases c.len(),
{
    if c.len() == 0 {
        None
    } else {
        match spec_best(c.drop_last()) {
            None => Some(c.last()),
            Some(b) => if c.last().score > b.score {
                Some(c.last())
            } else {
                Some(b)
            },
        }
    }
}

/// Appending one candidate to a pool updates the selection exactly as the
/// scan does: the newcomer wins only with a strictly greater score.
pub proof fn lemma_spec_best_push(c: Seq<ScoredPitcher>, x: ScoredPitcher)
    ensures
        spec_best(c.push(x)) == match spec_best(c) {
            None => Some(x),
            Some(b) => if x.score > b.score {
                Some(x)
            } else {
                Some(b)
            },
        },
{
    assert(c.push(x).drop_last() =~= c);
    assert(c.push(x).last() == x);
}

/// The failure conditions a scoring pass can report.
#[derive(Debug, Clone, PartialEq, Eq)]
pub enum SelectionError {
    /// The candidate pool of a formula scan was empty.
    NoBestPitcher,
    /// No rostered player matched the name heuristic.
    NoBestPlayer,
    /// The matched player's team has no scheduled game.
    NoBestGame,
    /// A game's team join failed during a custom selection.
    CouldntGetTeams,
    /// No game has a pitcher matching the name heuristic.
    NoGamesGame,
    /// The matching game lost its matching pitcher on the strict join.
    LostTheGames,
    /// No player carries a batting multiplier.
    NoBestMultiplier,
    /// The named multiplier carrier has no scheduled game.
    NoMultiplierGame(String),
    /// The crab fallback team is absent from the snapshot.
    MissingCrabs,
}

impl SelectionError {
    /// The condition as one descriptive line.
    pub fn message(&self) -> (r: String)
        ensures
            r@ == spec_selection_error_message(*self),
    {
        match self {
            SelectionError::NoBestPitcher => String::from_str("No best pitcher!"),
            SelectionError::NoBestPlayer => String::from_str("No Best player!"),
            SelectionError::NoBestGame => String::from_str("No Best game!"),
            SelectionError::CouldntGetTeams => String::from_str("Couldn't get teams!"),
            SelectionError::NoGamesGame => String::from_str("No Games game!"),
            SelectionError::LostTheGames => String::from_str("Lost the Games!"),
            SelectionError::NoBestMultiplier => String::from_str("No best multiplier!"),
            SelectionError::NoMultiplierGame(name) => {
                let mut r = String::from_str("No game with ");
                r.append(name.as_str());
                r.append("!");
                proof {
                    assert(r@ =~= spec_selection_error_message(*self));
                }
                r
            },
            SelectionError::MissingCrabs => String::from_str("Missing Crabs!"),
        }
    }
}

/// The descriptive line of each failure condition.
pub open spec fn spec_selection_error_message(e: SelectionError) -> Seq<char> {
    match e {
        SelectionError::NoBestPitcher => "No best pitcher!"@,
        SelectionError::NoBestPlayer => "No Best player!"@,
        SelectionError::NoBestGame => "No Best game!"@,
        SelectionError::CouldntGetTeams => "Couldn't get teams!"@,
        SelectionError::NoGamesGame => "No Games game!"@,
        SelectionError::LostTheGames => "Lost the Games!"@,
        SelectionError::NoBestMultiplier => "No best multiplier!"@,
        SelectionError::NoMultiplierGame(name) => "No game with "@ + name@ + "!"@,
        SelectionError::MissingCrabs => "Missing Crabs!"@,
    }
}

/// The candidates one game contributes to a formula's scan: both assembled
/// sides, home first, each kept only when the formula has an opinion on
/// it; a game whose strict joins fail contributes nothing.
pub open spec fn spec_game_candidates(s: State, f: PitcherFormula, gi: int) -> Seq<ScoredPitcher> {
    match spec_pitchers(s, gi) {
        None => Seq::empty(),
        Some(pair) => {
            let home = match spec_score(s, f, pair.home) {
                Some(v) => seq![ScoredPitcher { pitcher: pair.home, score: v as i64 }],
                None => Seq::empty(),
            };
            let away = match spec_score(s, f, pair.away) {
                Some(v) => seq![ScoredPitcher { pitcher: pair.away, score: v as i64 }],
                None => Seq::empty(),
            };
            home + away
        },
    }
}

/// The candidates of the first `n` games, in scan order.
pub open spec fn spec_candidates_upto(s: State, f: PitcherFormula, n: int) -> Seq<ScoredPitcher>
    decreases n,
{
    if n <= 0 {
        Seq::empty()
    } else {
        spec_candidates_upto(s, f, n - 1) + spec_game_candidates(s, f, n - 1)
    }
}

/// The whole candidate pool of a formula over a snapshot, in scan order.
pub open spec fn spec_candidates(s: State, f: PitcherFormula) -> Seq<ScoredPitcher> {
    spec_candidates_upto(s, f, s.games@.len() as int)
}

/// The selected best candidate of a formula over a snapshot.
pub open spec fn spec_best_pitcher(s: State, f: PitcherFormula) -> Option<ScoredPitcher> {
    spec_best(spec_candidates(s, f))
}

/// What a formula scan reports: the selected candidate, or the no-candidate
/// condition exactly when the pool is empty.
pub open spec fn best_pitcher_post(
    s: State,
    f: PitcherFormula,
    r: Result<ScoredPitcher, SelectionError>,
) -> bool {
    match r {
        Ok(sp) => spec_best_pitcher(s, f) == Some(sp),
        Err(e) => spec_best_pitcher(s, f) is None && e == SelectionError::NoBestPitcher,
    }
}

impl ScoredPitcher {
    /// Scan every game of the snapshot under the given formula and select
    /// the best-scored candidate, reporting the no-candidate condition on
    /// an empty pool.
    pub fn best_pitcher(state: &State, f: PitcherFormula) -> (r: Result<
        ScoredPitcher,
        SelectionError,
    >)
        requires
            state.wf(),
        ensures
            best_pitcher_post(*state, f, r),
            r is Ok ==> r.unwrap().pitcher.wf(*state) && r.unwrap().score > i64::MIN,
    {
        let mut best: Option<ScoredPitcher> = None;
        let n = state.games.len();
        for gi in 0..n
            invariant
                n == state.games@.len(),
                state.wf(),
                best == spec_best(spec_candidates_upto(*state, f, gi as int)),
                match best {
                    Some(b) => b.pitcher.wf(*state) && b.score > i64::MIN,
                    None => true,
                },
        {
            let ghost pre = spec_candidates_upto(*state, f, gi as int);
            let ghost mut cands = pre;
            if let Some(pair) = PitcherRef::pitchers(state, gi) {
                if let Some(score) = score_pitcher(state, f, &pair.home) {
                    let cand = ScoredPitcher { pitcher: pair.home, score };
                    proof {
                        lemma_spec_best_push(cands, cand);
                        cands = cands.push(cand);
                    }
                    best = match best {
                        None => Some(cand),
                        Some(b) => if cand.score > b.score {
                            Some(cand)
                        } else {
                            Some(b)
                        },
                    };
                }
                if let Some(score) = score_pitcher(state, f, &pair.away) {
                    let cand = ScoredPitcher { pitcher: pair.away, score };
                    proof {
                        lemma_spec_best_push(cands, cand);
                        cands = cands.push(cand);
                    }
                    best = match best {
                        None => Some(cand),
                        Some(b) => if cand.score > b.score {
                            Some(cand)
                        } else {
                            Some(b)
                        },
                    };
                }
                proof {
                    assert(cands =~= pre + spec_game_candidates(*state, f, gi as int));
                }
            } else {
                proof {
                    assert(cands =~= pre + spec_game_candidates(*state, f, gi as int));
                }
            }
        }
        match best {
            Some(b) => Ok(b),
            None => Err(SelectionError::NoBestPitcher),
        }
    }
}

/// Selecting the best pitcher is a pure function of the snapshot and the
/// formula: any two results that satisfy the scan's contract over the same
/// immutable snapshot are the same candidate with the same score.
pub proof fn lemma_best_pitcher_deterministic(
    s: State,
    f: PitcherFormula,
    r1: Result<ScoredPitcher, SelectionError>,
    r2: Result<ScoredPitcher, SelectionError>,
)
    requires
        best_pitcher_post(s, f, r1),
        best_pitcher_post(s, f, r2),
    ensures
        r1 == r2,
{
}

/// Whether a result line is spoiler-wrapped at the delivery layer: a
/// forbidden line is still computed and transmitted, only hidden by
/// default at render time.
#[derive(Debug, Clone, Copy, PartialEq, Eq, Structural)]
pub enum Forbidden {
    Forbidden,
    Unforbidden,
}

/// An auxiliary statistic an algorithm asks to have printed beside its
/// result.
#[derive(Debug, Clone, Copy, PartialEq, Eq, Structural)]
pub enum PrintedStat {
    SO9,
}

/// The rendering of one auxiliary statistic for a candidate: a candidate
/// without the backing stat prints nothing for it.
pub open spec fn spec_printed_stat(s: State, sp: ScoredPitcher, st: PrintedStat) -> Seq<char> {
    match st {
        PrintedStat::SO9 => match sp.pitcher.stats {
            Some(i) => ", SO/9: "@ + spec_milli(s.pitcher_stats@[i as int].k_per_9 as int),
            None => Seq::empty(),
        },
    }
}

/// The rendering of a list of auxiliary statistics, in order.
pub open spec fn spec_printed_stats(s: State, sp: ScoredPitcher, stats: Seq<PrintedStat>) -> Seq<
    char,
>
    decreases stats.len(),
{
    if stats.len() == 0 {
        Seq::empty()
    } else {
        spec_printed_stats(s, sp, stats.drop_last()) + spec_printed_stat(s, sp, stats.last())
    }
}

/// The one line of text a scored candidate renders to:
/// `<name>: <player> (<score>, <stats>, **<team>** vs.|@ <opponent>)`,
/// spoiler-wrapped when the algorithm is forbidden. An absent opponent
/// index names the placeholder team.
pub open spec fn spec_display_line(
    s: State,
    sp: ScoredPitcher,
    strategy: Seq<char>,
    forbidden: Forbidden,
    stats: Seq<PrintedStat>,
) -> Seq<char> {
    let player_name = s.players@[sp.pitcher.position as int].data.name@;
    let team_name = s.teams@[sp.pitcher.team as int].full_name@;
    let opp_name = match sp.pitcher.opponent {
        Some(oi) => s.teams@[oi as int].full_name@,
        None => "Black Hole"@,
    };
    let versus = match sp.pitcher.team_pos {
        TeamPosition::Home => "vs."@,
        TeamPosition::Away => "@"@,
    };
    let core = strategy + ": "@ + player_name + " ("@ + spec_milli(sp.score as int)
        + spec_printed_stats(s, sp, stats) + ", **"@ + team_name + "** "@ + versus + " "@
        + opp_name + ")"@;
    match forbidden {
        Forbidden::Forbidden => "||"@ + core + "||"@,
        Forbidden::Unforbidden => core,
    }
}

impl ScoredPitcher {
    /// Render this candidate as one line of text under the given algorithm
    /// name, redaction flag and auxiliary statistics.
    pub fn display(
        &self,
        state: &State,
        strategy: &str,
        forbidden: Forbidden,
        stats: &Vec<PrintedStat>,
    ) -> (r: String)
        requires
            state.wf(),
            self.pitcher.wf(*state),
            self.score > i64::MIN,
        ensures
            r@ == spec_display_line(*state, *self, strategy@, forbidden, stats@),
    {
        let mut core = String::new();
        core.append(strategy);
        core.append(": ");
        core.append(state.players[self.pitcher.position].data.name.as_str());
        core.append(" (");
        let score_text = milli_to_string(self.score);
        core.append(score_text.as_str());
        let ghost prefix = core@;
        let m = stats.len();
        for i in 0..m
            invariant
                m == stats@.len(),
                state.wf(),
                self.pitcher.wf(*state),
                core@ == prefix + spec_printed_stats(*state, *self, stats@.take(i as int)),
        {
            proof {
                assert(stats@.take(i + 1).drop_last() =~= stats@.take(i as int));
                assert(stats@.take(i + 1).last() == stats@[i as int]);
            }
            match stats[i] {
                PrintedStat::SO9 => {
                    match self.pitcher.stats {
                        Some(si) => {
                            core.append(", SO/9: ");
                            proof {
                                assert(state.pitcher_stats@[si as int].wf());
                            }
                            let k_text = milli_to_string(state.pitcher_stats[si].k_per_9);
                            core.append(k_text.as_str());
                        },
                        None => {},
                    }
                },
            }
            proof {
                assert(core@ =~= prefix + spec_printed_stats(
                    *state,
                    *self,
                    stats@.take(i + 1),
                ));
            }
        }
        proof {
            assert(stats@.take(m as int) =~= stats@);
        }
        core.append(", **");
        core.append(state.teams[self.pitcher.team].full_name.as_str());
        core.append("** ");
        match self.pitcher.team_pos {
            TeamPosition::Home => core.append("vs."),
            TeamPosition::Away => core.append("@"),
        }
        core.append(" ");
        match self.pitcher.opponent {
            Some(oi) => core.append(state.teams[oi].full_name.as_str()),
            None => core.append("Black Hole"),
        }
        core.append(")");
        let r = match forbidden {
            Forbidden::Forbidden => {
                let mut wrapped = String::from_str("||");
                wrapped.append(core.as_str());
                wrapped.append("||");
                wrapped
            },
            Forbidden::Unforbidden => core,
        };
        proof {
            assert(r@ =~= spec_display_line(*state, *self, strategy@, forbidden, stats@));
        }
        r
    }
}

/// Which shape of selection an algorithm uses: a uniform per-pitcher
/// formula maximised over every side of every game, or a custom
/// whole-snapshot scan.
#[derive(Debug, Clone, Copy, PartialEq, Eq, Structural)]
pub enum Strategy {
    Maximize(PitcherFormula),
    Custom(CustomFormula),
}

/// What an algorithm's scoring pass selects over a snapshot.
pub open spec fn spec_algorithm_best(s: State, strat: Strategy) -> Result<
    ScoredPitcher,
    SelectionError,
> {
    match strat {
        Strategy::Maximize(f) => match spec_best_pitcher(s, f) {
            Some(sp) => Ok(sp),
            None => Err(SelectionError::NoBestPitcher),
        },
        Strategy::Custom(c) => spec_custom_best(s, c),
    }
}

/// A named, stateless scoring heuristic: a display name, a redaction flag,
/// the auxiliary statistics to print, and the selection strategy.
#[derive(Debug, Clone)]
pub struct Algorithm {
    pub name: &'static str,
    pub forbidden: Forbidden,
    pub printed_stats: Vec<PrintedStat>,
    pub strategy: Strategy,
}

impl Algorithm {
    /// Run this algorithm's selection over the snapshot.
    pub fn best_pitcher(&self, state: &State) -> (r: Result<ScoredPitcher, SelectionError>)
        requires
            state.wf(),
        ensures
            r == spec_algorithm_best(*state, self.strategy),
            r is Ok ==> r.unwrap().pitcher.wf(*state) && r.unwrap().score > i64::MIN,
    {
        match self.strategy {
            Strategy::Maximize(f) => ScoredPitcher::best_pitcher(state, f),
            Strategy::Custom(c) => custom_best(state, c),
        }
    }

    /// Render a candidate under this algorithm's name, flag and statistics.
    pub fn display(&self, state: &State, scored: &ScoredPitcher) -> (r: String)
        requires
            state.wf(),
            scored.pitcher.wf(*state),
            scored.score > i64::MIN,
        ensures
            r@ == spec_display_line(
                *state,
                *scored,
                self.name@,
                self.forbidden,
                self.printed_stats@,
            ),
    {
        scored.display(state, self.name, self.forbidden, &self.printed_stats)
    }

    /// Run this algorithm and append its result line, newline-terminated,
    /// to `output`; on failure `output` is left unchanged and the failure
    /// is reported.
    pub fn write_best_to(&self, state: &State, output: &mut String) -> (r: Result<
        (),
        SelectionError,
    >)
        requires
            state.wf(),
        ensures
            match r {
                Ok(()) => spec_algorithm_best(*state, self.strategy) is Ok && final(output)@ == old(
                    output,
                )@ + spec_display_line(
                    *state,
                    spec_algorithm_best(*state, self.strategy).unwrap(),
                    self.name@,
                    self.forbidden,
                    self.printed_stats@,
                ) + "\n"@,
                Err(e) => spec_algorithm_best(*state, self.strategy) == Err::<
                    ScoredPitcher,
                    SelectionError,
                >(e) && *final(output) == *old(output),
            },
    {
        match self.best_pitcher(state) {
            Ok(scored) => {
                let line = self.display(state, &scored);
                output.append(line.as_str());
                output.append("\n");
                Ok(())
            },
            Err(e) => Err(e),
        }
    }
}

/// Any algorithm's scoring pass is a pure function of the snapshot and
/// the strategy: over the same immutable snapshot, two results that
/// satisfy the pass's contract are identical, candidate, score and
/// failure alike.
pub proof fn lemma_algorithm_idempotent(
    s: State,
    strat: Strategy,
    r1: Result<ScoredPitcher, SelectionError>,
    r2: Result<ScoredPitcher, SelectionError>,
)
    requires
        r1 == spec_algorithm_best(s, strat),
        r2 == spec_algorithm_best(s, strat),
    ensures
        r1 == r2,
{
}

/// A side with a pitching line yields exactly one candidate and a side
/// without yields none, under a formula that requires the stat: stated for
/// the strikeouts-per-nine formula over one assembled game.
pub proof fn lemma_missing_stat_skips_side(s: State, gi: int)
    requires
        0 <= gi < s.games@.len(),
        spec_pitchers(s, gi) is Some,
    ensures
        ({
            let pair = spec_pitchers(s, gi).unwrap();
            let c = spec_game_candidates(s, PitcherFormula::So9, gi);
            &&& (pair.home.stats is Some && pair.away.stats is None ==> c.len() == 1 && c[0].pitcher
                == pair.home)
            &&& (pair.home.stats is None && pair.away.stats is Some ==> c.len() == 1 && c[0].pitcher
                == pair.away)
            &&& (pair.home.stats is None && pair.away.stats is None ==> c.len() == 0)
        }),
{
}

} // verus!
