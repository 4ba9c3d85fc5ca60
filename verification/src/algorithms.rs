//! The scoring strategies: per-pitcher formulas, evaluated in milli fixed
//! point over the snapshot.

use vstd::prelude::*;
use vstd::arithmetic::div_mod::{lemma_div_is_ordered, lemma_div_nonincreasing};

use crate::models::{Game, GameUpdate, Position, COUNT_BOUND, LEN_BOUND, RATING_BOUND};
use crate::lookup::{find_first, lemma_find_first_none, lemma_find_first_props, lemma_find_first_some};
use crate::pair::TeamPosition;
use crate::predictor::{
    Algorithm, Forbidden, PitcherRef, PrintedStat, ScoredPitcher, SelectionError, Strategy,
};
use crate::state::{
    spec_find_at_bats, spec_find_game_by_id, spec_find_game_with_team, spec_find_idol,
    spec_find_position, spec_find_strikeouts, spec_find_team, State,
};
use crate::text::{spec_contains, string_contains, string_eq_str};

verus! {

/// The id of the one team that the "Against Lift" heuristic scores
/// against.
pub const LIFT_ID: &'static str = "c73b705c-40ad-4633-a6ed-d357ee2e2bcf";

/// The per-pitcher scoring formulas: each maps a pitcher view to a score
/// in milli fixed point, or to no opinion.
#[derive(Debug, Clone, Copy, PartialEq, Eq, Structural)]
pub enum PitcherFormula {
    /// Strikeouts per nine innings.
    So9,
    /// The pitcher's ruthlessness rating.
    Ruthlessness,
    /// SO/9 scaled by the opposing lineup's strikeouts-per-at-bat mean.
    StatRatio,
    /// One when the opponent is the Lift, zero otherwise.
    Lift,
    /// Negated SO/9 divided by the opposing lineup's mean, lowest first.
    WorstStatRatio,
    /// Negated rank on the idol board, unranked counting as rank twenty.
    Idols,
    /// Batting star count, in half-star steps.
    BattingStars,
    /// Length of the pitcher's name.
    NameLength,
    /// Games credited (including rare-event extras) per game pitched.
    GamesPerGame,
}

/// The summed strikeout-per-at-bat ratios of a lineup, each in milli fixed
/// point; `None` when any member is missing either leaderboard entry or
/// has zero at-bats.
pub open spec fn spec_ratio_sum(s: State, lineup: Seq<String>) -> Option<int>
    decreases lineup.len(),
{
    if lineup.len() == 0 {
        Some(0)
    } else {
        match spec_ratio_sum(s, lineup.drop_last()) {
            None => None,
            Some(acc) => {
                let pid = lineup.last();
                match spec_find_strikeouts(s, pid@) {
                    None => None,
                    Some(i) => match spec_find_at_bats(s, pid@) {
                        None => None,
                        Some(j) => {
                            let so = s.strikeouts@[i].strikeouts;
                            let ab = s.at_bats@[j].at_bats;
                            if ab == 0 {
                                None
                            } else {
                                Some(acc + (so * 1000) / (ab as int))
                            }
                        },
                    },
                }
            },
        }
    }
}

/// The mean strikeout-per-at-bat ratio of a lineup in milli fixed point;
/// an empty lineup has mean zero.
pub open spec fn spec_so_ab_mean(s: State, lineup: Seq<String>) -> Option<int> {
    match spec_ratio_sum(s, lineup) {
        None => None,
        Some(sum) => if lineup.len() == 0 {
            Some(0)
        } else {
            Some(sum / lineup.len() as int)
        },
    }
}

/// A failed partial ratio sum fails the whole lineup's sum.
proof fn lemma_ratio_sum_none(s: State, lineup: Seq<String>, i: int)
    requires
        0 <= i <= lineup.len(),
        spec_ratio_sum(s, lineup.take(i)) is None,
    ensures
        spec_ratio_sum(s, lineup) is None,
    decreases lineup.len() - i,
{
    if i < lineup.len() {
        assert(lineup.take(i + 1).drop_last() =~= lineup.take(i));
        lemma_ratio_sum_none(s, lineup, i + 1);
    } else {
        assert(lineup.take(i) =~= lineup);
    }
}

/// Every partial ratio sum is bounded by the number of terms times the
/// largest possible ratio.
proof fn lemma_ratio_sum_bound(s: State, lineup: Seq<String>)
    requires
        s.wf(),
    ensures
        match spec_ratio_sum(s, lineup) {
            Some(sum) => 0 <= sum <= lineup.len() * (COUNT_BOUND * 1000),
            None => true,
        },
    decreases lineup.len(),
{
    if lineup.len() > 0 && spec_ratio_sum(s, lineup) is Some {
        lemma_ratio_sum_bound(s, lineup.drop_last());
        let pid = lineup.last();
        let i = spec_find_strikeouts(s, pid@).unwrap();
        let j = spec_find_at_bats(s, pid@).unwrap();
        lemma_find_first_props(s.strikeouts@, crate::state::strikeouts_player_is(pid@));
        lemma_find_first_props(s.at_bats@, crate::state::at_bats_player_is(pid@));
        let so = s.strikeouts@[i].strikeouts;
        let ab = s.at_bats@[j].at_bats;
        assert(s.strikeouts@[i].wf());
        lemma_div_nonincreasing(so * 1000, ab as int);
        assert((so * 1000) / (ab as int) <= COUNT_BOUND * 1000);
    }
}

/// The executable mean: walks the lineup once, failing fast on a missing
/// entry or a zero at-bat count.
pub fn so_ab_mean(state: &State, lineup: &Vec<String>) -> (r: Option<i64>)
    requires
        state.wf(),
        lineup@.len() <= LEN_BOUND,
    ensures
        match r {
            Some(m) => spec_so_ab_mean(*state, lineup@) == Some(m as int) && 0 <= m <= COUNT_BOUND
                * 1000,
            None => spec_so_ab_mean(*state, lineup@) is None,
        },
{
    let n = lineup.len();
    let mut sum: u64 = 0;
    for i in 0..n
        invariant
            n == lineup@.len() <= LEN_BOUND,
            state.wf(),
            spec_ratio_sum(*state, lineup@.take(i as int)) == Some(sum as int),
            sum <= (i as int) * (COUNT_BOUND * 1000),
    {
        proof {
            assert(lineup@.take(i + 1).drop_last() =~= lineup@.take(i as int));
            assert(lineup@.take(i + 1).last() == lineup@[i as int]);
        }
        let so_idx = match state.find_strikeouts(&lineup[i]) {
            Some(idx) => idx,
            None => {
                proof {
                    lemma_ratio_sum_none(*state, lineup@, i + 1);
                }
                return None;
            },
        };
        let ab_idx = match state.find_at_bats(&lineup[i]) {
            Some(idx) => idx,
            None => {
                proof {
                    lemma_ratio_sum_none(*state, lineup@, i + 1);
                }
                return None;
            },
        };
        let so = state.strikeouts[so_idx].strikeouts;
        let ab = state.at_bats[ab_idx].at_bats;
        proof {
            assert(state.strikeouts@[so_idx as int].wf());
        }
        if ab == 0 {
            proof {
                lemma_ratio_sum_none(*state, lineup@, i + 1);
            }
            return None;
        }
        let ratio = (so * 1000) / ab;
        proof {
            lemma_div_nonincreasing(so * 1000, ab as int);
            assert((i + 1) * (COUNT_BOUND * 1000) == i * (COUNT_BOUND * 1000) + COUNT_BOUND * 1000)
                by (nonlinear_arith);
            assert((LEN_BOUND as int) * (COUNT_BOUND * 1000) <= u64::MAX as int)
                by (nonlinear_arith);
            assert((i + 1) * (COUNT_BOUND * 1000) <= (LEN_BOUND as int) * (COUNT_BOUND * 1000))
                by (nonlinear_arith)
                requires
                    0 <= i + 1 <= LEN_BOUND,
            ;
        }
        sum = sum + ratio;
    }
    proof {
        assert(lineup@.take(n as int) =~= lineup@);
    }
    if n == 0 {
        Some(0)
    } else {
        let mean = sum / (n as u64);
        proof {
            lemma_ratio_sum_bound(*state, lineup@);
            assert((n as int) * (COUNT_BOUND * 1000) / (n as int) == COUNT_BOUND * 1000)
                by (nonlinear_arith)
                requires
                    n >= 1,
            ;
            lemma_div_is_ordered(sum as int, (n as int) * (COUNT_BOUND * 1000), n as int);
        }
        Some(mean as i64)
    }
}

/// Whether a rare-event record credits the given pitcher with an extra
/// game: its first team tag picks the side of the recorded game, and that
/// side's pitcher must be the one in question.
pub open spec fn spec_update_counts(s: State, u: GameUpdate, pid: Seq<char>) -> bool {
    &&& u.team_tags@.len() > 0
    &&& match spec_find_game_by_id(s, u.data.id@) {
        None => false,
        Some(gi) => {
            let g = s.games@[gi];
            &&& g.home_pitcher is Some
            &&& g.away_pitcher is Some
            &&& if u.team_tags@[0]@ == g.home_team@ {
                g.home_pitcher.unwrap()@ == pid
            } else {
                g.away_pitcher.unwrap()@ == pid
            }
        },
    }
}

/// The predicate "this record's game is stamped with another season".
pub open spec fn update_season_ne(season: i64) -> spec_fn(GameUpdate) -> bool {
    |u: GameUpdate| u.data.season != season
}

/// How many leading rare-event records carry the snapshot's own season:
/// the scan stops at the first record of another season.
pub open spec fn spec_season_prefix(s: State) -> int {
    match find_first(s.black_hole_sun_2@, update_season_ne(s.season)) {
        Some(i) => i,
        None => s.black_hole_sun_2@.len() as int,
    }
}

/// The extra games credited to a pitcher among the first `n` rare-event
/// records.
pub open spec fn spec_extra_upto(s: State, pid: Seq<char>, n: int) -> int
    decreases n,
{
    if n <= 0 {
        0
    } else {
        spec_extra_upto(s, pid, n - 1) + if spec_update_counts(s, s.black_hole_sun_2@[n - 1], pid) {
            1int
        } else {
            0int
        }
    }
}

/// The extra games credited to a pitcher: counted over the leading records
/// of the snapshot's own season only.
pub open spec fn spec_extra_games(s: State, pid: Seq<char>) -> int {
    spec_extra_upto(s, pid, spec_season_prefix(s))
}

/// Whether one rare-event record credits the pitcher, executably.
fn update_counts(state: &State, u: &GameUpdate, pid: &String) -> (r: bool)
    ensures
        r == spec_update_counts(*state, *u, pid@),
{
    if u.team_tags.len() == 0 {
        return false;
    }
    let gi = match state.find_game_by_id(&u.data.id) {
        Some(gi) => gi,
        None => {
            return false;
        },
    };
    let game = &state.games[gi];
    let home_pitcher = match &game.home_pitcher {
        Some(p) => p,
        None => {
            return false;
        },
    };
    let away_pitcher = match &game.away_pitcher {
        Some(p) => p,
        None => {
            return false;
        },
    };
    if u.team_tags[0] == game.home_team {
        *home_pitcher == *pid
    } else {
        *away_pitcher == *pid
    }
}

/// The extra games credited to the pitcher, executably: scan records while
/// they carry the snapshot's season, counting those that credit the
/// pitcher.
pub fn extra_games(state: &State, pid: &String) -> (r: u64)
    requires
        state.wf(),
    ensures
        r as int == spec_extra_games(*state, pid@),
        r as int <= LEN_BOUND as int,
{
    let n = state.black_hole_sun_2.len();
    let mut plen: usize = 0;
    while plen < n && state.black_hole_sun_2[plen].data.season == state.season
        invariant
            n == state.black_hole_sun_2@.len(),
            plen <= n,
            forall|j: int|
                0 <= j < plen ==> !update_season_ne(state.season)(
                    #[trigger] state.black_hole_sun_2@[j],
                ),
        decreases n - plen,
    {
        plen = plen + 1;
    }
    proof {
        if plen < n {
            lemma_find_first_some(
                state.black_hole_sun_2@,
                update_season_ne(state.season),
                plen as int,
            );
        } else {
            lemma_find_first_none(state.black_hole_sun_2@, update_season_ne(state.season));
        }
        assert(spec_season_prefix(*state) == plen as int);
    }
    let mut extra: u64 = 0;
    for i in 0..plen
        invariant
            plen <= state.black_hole_sun_2@.len(),
            extra as int == spec_extra_upto(*state, pid@, i as int),
            extra <= i,
    {
        if update_counts(state, &state.black_hole_sun_2[i], pid) {
            extra = extra + 1;
        }
    }
    proof {
        assert(state.black_hole_sun_2@.len() <= LEN_BOUND);
    }
    extra
}

/// What each formula scores a pitcher view at, in milli fixed point;
/// `None` is "no opinion", which skips the candidate without aborting the
/// scan.
pub open spec fn spec_score(s: State, f: PitcherFormula, p: PitcherRef) -> Option<int> {
    let player = s.players@[p.position as int].data;
    match f {
        PitcherFormula::So9 => match p.stats {
            Some(i) => Some(s.pitcher_stats@[i as int].k_per_9 as int),
            None => None,
        },
        PitcherFormula::Ruthlessness => Some(player.ruthlessness as int),
        PitcherFormula::StatRatio => match (p.stats, p.opponent) {
            (Some(i), Some(oi)) => match spec_so_ab_mean(s, s.teams@[oi as int].lineup@) {
                None => None,
                Some(m) => Some(s.pitcher_stats@[i as int].k_per_9 * (200 + m) / 1000),
            },
            _ => None,
        },
        PitcherFormula::Lift => match p.opponent {
            Some(oi) => Some(
                if s.teams@[oi as int].id@ == LIFT_ID@ {
                    1000int
                } else {
                    0int
                },
            ),
            None => None,
        },
        PitcherFormula::WorstStatRatio => match (p.stats, p.opponent) {
            (Some(i), Some(oi)) => match spec_so_ab_mean(s, s.teams@[oi as int].lineup@) {
                None => None,
                Some(m) => if m == 0 {
                    None
                } else {
                    Some(-(s.pitcher_stats@[i as int].k_per_9 * 1000 / m))
                },
            },
            _ => None,
        },
        PitcherFormula::Idols => {
            let rank = match spec_find_idol(s, player.id@) {
                Some(i) => i,
                None => 20int,
            };
            Some(-(rank * 1000) - 1000)
        },
        PitcherFormula::BattingStars => Some(player.hitting_rating / 100 * 500),
        PitcherFormula::NameLength => Some(player.name@.len() as int * 1000),
        PitcherFormula::GamesPerGame => match p.stats {
            None => None,
            Some(i) => {
                let normal = s.pitcher_stats@[i as int].games;
                if normal == 0 {
                    None
                } else {
                    let extra = spec_extra_games(s, s.players@[p.position as int].id@);
                    Some((normal + extra) * 1000 / (normal as int))
                }
            },
        },
    }
}

/// An executable optional score agrees with a specification-level one.
pub open spec fn opt_score_matches(found: Option<int>, actual: Option<i64>) -> bool {
    match actual {
        Some(v) => found == Some(v as int),
        None => found is None,
    }
}

/// Evaluate a per-pitcher formula on a pitcher view.
pub fn score_pitcher(state: &State, f: PitcherFormula, p: &PitcherRef) -> (r: Option<i64>)
    requires
        state.wf(),
        p.wf(*state),
    ensures
        opt_score_matches(spec_score(*state, f, *p), r),
        r is Some ==> r.unwrap() > i64::MIN,
{
    match f {
        PitcherFormula::So9 => match p.stats {
            Some(i) => Some(state.pitcher_stats[i].k_per_9),
            None => None,
        },
        PitcherFormula::Ruthlessness => Some(state.players[p.position].data.ruthlessness),
        PitcherFormula::StatRatio => {
            let si = match p.stats {
                Some(i) => i,
                None => {
                    return None;
                },
            };
            let oi = match p.opponent {
                Some(oi) => oi,
                None => {
                    return None;
                },
            };
            proof {
                assert(state.teams@[oi as int].wf());
                assert(state.pitcher_stats@[si as int].wf());
            }
            let m = match so_ab_mean(state, &state.teams[oi].lineup) {
                Some(m) => m,
                None => {
                    return None;
                },
            };
            let k = state.pitcher_stats[si].k_per_9;
            proof {
                assert((k as int) * (200 + m as int) <= (RATING_BOUND as int) * (200 + COUNT_BOUND
                    * 1000)) by (nonlinear_arith)
                    requires
                        0 <= k <= RATING_BOUND,
                        0 <= m <= COUNT_BOUND * 1000,
                ;
            }
            let prod = (k as u64) * ((200 + m) as u64);
            let v = prod / 1000;
            proof {
                lemma_div_nonincreasing(prod as int, 1000);
            }
            Some(v as i64)
        },
        PitcherFormula::Lift => {
            let oi = match p.opponent {
                Some(oi) => oi,
                None => {
                    return None;
                },
            };
            if string_eq_str(&state.teams[oi].id, LIFT_ID) {
                Some(1000)
            } else {
                Some(0)
            }
        },
        PitcherFormula::WorstStatRatio => {
            let si = match p.stats {
                Some(i) => i,
                None => {
                    return None;
                },
            };
            let oi = match p.opponent {
                Some(oi) => oi,
                None => {
                    return None;
                },
            };
            proof {
                assert(state.teams@[oi as int].wf());
                assert(state.pitcher_stats@[si as int].wf());
            }
            let m = match so_ab_mean(state, &state.teams[oi].lineup) {
                Some(m) => m,
                None => {
                    return None;
                },
            };
            if m == 0 {
                return None;
            }
            let k = state.pitcher_stats[si].k_per_9;
            let q = ((k as u64) * 1000) / (m as u64);
            proof {
                lemma_div_nonincreasing((k as int) * 1000, m as int);
            }
            Some(-(q as i64))
        },
        PitcherFormula::Idols => {
            proof {
                assert(state.players@[p.position as int].wf());
            }
            let rank: u64 = match state.find_idol(&state.players[p.position].data.id) {
                Some(i) => i as u64,
                None => 20,
            };
            Some(-((rank * 1000) as i64) - 1000)
        },
        PitcherFormula::BattingStars => {
            proof {
                assert(state.players@[p.position as int].wf());
            }
            let hr = state.players[p.position].data.hitting_rating;
            Some((((hr as u64) / 100) * 500) as i64)
        },
        PitcherFormula::NameLength => {
            proof {
                assert(state.players@[p.position as int].wf());
            }
            let len = state.players[p.position].data.name.as_str().unicode_len();
            Some((len as i64) * 1000)
        },
        PitcherFormula::GamesPerGame => {
            let si = match p.stats {
                Some(i) => i,
                None => {
                    return None;
                },
            };
            proof {
                assert(state.pitcher_stats@[si as int].wf());
            }
            let normal = state.pitcher_stats[si].games;
            if normal == 0 {
                return None;
            }
            let extra = extra_games(state, &state.players[p.position].id);
            let prod = (normal + extra) * 1000;
            let v = prod / normal;
            proof {
                lemma_div_nonincreasing(prod as int, normal as int);
            }
            Some(v as i64)
        },
    }
}

/// The team that the crab fallback of the "Best Best" heuristic assumes to
/// be playing a non-scheduled opponent.
pub const CRABS: &'static str = "8d87c468-699a-47a8-b40d-cfb73a5660ad";

/// The custom whole-snapshot selection heuristics: each owns its entire
/// scan and yields a single candidate or a descriptive failure.
#[derive(Debug, Clone, Copy, PartialEq, Eq, Structural)]
pub enum CustomFormula {
    /// The best player whose name contains "Best", scored by name brevity.
    Bestness,
    /// The best "Best"-named player by pitching stars, with a placeholder
    /// opponent when their game is off the schedule.
    BestBest,
    /// The pitcher named like "Games", one game per game.
    GamesNamePerGame,
    /// The best known batting-multiplier carrier.
    BattingMultiplier,
}

/// The first-maximal `(player index, score)` over the first `n` players
/// under a per-player score: a later player replaces the current best only
/// with a strictly greater score.
pub open spec fn spec_scan_players(
    players: Seq<Position>,
    sc: spec_fn(Position) -> Option<int>,
    n: int,
) -> Option<(int, int)>
    decreases n,
{
    if n <= 0 {
        None
    } else {
        let prev = spec_scan_players(players, sc, n - 1);
        match sc(players[n - 1]) {
            None => prev,
            Some(v) => match prev {
                None => Some((n - 1, v)),
                Some(b) => if v > b.1 {
                    Some((n - 1, v))
                } else {
                    Some(b)
                },
            },
        }
    }
}

/// The "Bestness" score: for a player whose name contains "Best", four
/// whole units divided by the length of their name.
pub open spec fn bestness_score() -> spec_fn(Position) -> Option<int> {
    |p: Position|
        if spec_contains(p.data.name@, "Best"@) {
            Some(4000int / p.data.name@.len() as int)
        } else {
            None
        }
}

/// The "Best Best" score: pitching stars, in half-star steps, for a
/// player whose name contains "Best".
pub open spec fn best_best_score() -> spec_fn(Position) -> Option<int> {
    |p: Position|
        if spec_contains(p.data.name@, "Best"@) {
            Some(p.data.pitching_rating / 100 * 500)
        } else {
            None
        }
}

/// The batting-multiplier score of the two known carriers.
pub open spec fn multiplier_score() -> spec_fn(Position) -> Option<int> {
    |p: Position|
        if p.data.name@ == "York Silk"@ {
            Some(2000int)
        } else if p.data.name@ == "Wyatt Glover"@ {
            Some(5000int)
        } else {
            None
        }
}

/// Scan all players for the first maximum of the "Bestness" score.
fn scan_bestness(state: &State) -> (r: Option<(usize, i64)>)
    requires
        state.wf(),
    ensures
        match r {
            Some((i, v)) => spec_scan_players(state.players@, bestness_score(), state.players@.len() as int)
                == Some((i as int, v as int)) && i < state.players@.len() && v >= 0,
            None => spec_scan_players(state.players@, bestness_score(), state.players@.len() as int)
                is None,
        },
{
    let mut best: Option<(usize, i64)> = None;
    let n = state.players.len();
    for i in 0..n
        invariant
            n == state.players@.len(),
            state.wf(),
            match best {
                Some((bi, bv)) => spec_scan_players(state.players@, bestness_score(), i as int)
                    == Some((bi as int, bv as int)) && bi < n && bv >= 0,
                None => spec_scan_players(state.players@, bestness_score(), i as int) is None,
            },
    {
        let sc: Option<i64> = if string_contains(&state.players[i].data.name, "Best") {
            proof {
                reveal_strlit("Best");
            }
            let len = state.players[i].data.name.as_str().unicode_len();
            Some((4000u64 / (len as u64)) as i64)
        } else {
            None
        };
        if let Some(v) = sc {
            best = match best {
                None => Some((i, v)),
                Some((bi, bv)) => if v > bv {
                    Some((i, v))
                } else {
                    Some((bi, bv))
                },
            };
        }
    }
    best
}

/// Scan all players for the first maximum of the "Best Best" score.
fn scan_best_best(state: &State) -> (r: Option<(usize, i64)>)
    requires
        state.wf(),
    ensures
        match r {
            Some((i, v)) => spec_scan_players(state.players@, best_best_score(), state.players@.len() as int)
                == Some((i as int, v as int)) && i < state.players@.len() && v >= 0,
            None => spec_scan_players(state.players@, best_best_score(), state.players@.len() as int)
                is None,
        },
{
    let mut best: Option<(usize, i64)> = None;
    let n = state.players.len();
    for i in 0..n
        invariant
            n == state.players@.len(),
            state.wf(),
            match best {
                Some((bi, bv)) => spec_scan_players(state.players@, best_best_score(), i as int)
                    == Some((bi as int, bv as int)) && bi < n && bv >= 0,
                None => spec_scan_players(state.players@, best_best_score(), i as int) is None,
            },
    {
        let sc: Option<i64> = if string_contains(&state.players[i].data.name, "Best") {
            proof {
                assert(state.players@[i as int].wf());
            }
            let pr = state.players[i].data.pitching_rating;
            Some((((pr as u64) / 100) * 500) as i64)
        } else {
            None
        };
        if let Some(v) = sc {
            best = match best {
                None => Some((i, v)),
                Some((bi, bv)) => if v > bv {
                    Some((i, v))
                } else {
                    Some((bi, bv))
                },
            };
        }
    }
    best
}

/// Scan all players for the first maximum of the batting-multiplier score.
fn scan_multiplier(state: &State) -> (r: Option<(usize, i64)>)
    requires
        state.wf(),
    ensures
        match r {
            Some((i, v)) => spec_scan_players(state.players@, multiplier_score(), state.players@.len() as int)
                == Some((i as int, v as int)) && i < state.players@.len() && v >= 0,
            None => spec_scan_players(state.players@, multiplier_score(), state.players@.len() as int)
                is None,
        },
{
    let mut best: Option<(usize, i64)> = None;
    let n = state.players.len();
    for i in 0..n
        invariant
            n == state.players@.len(),
            state.wf(),
            match best {
                Some((bi, bv)) => spec_scan_players(state.players@, multiplier_score(), i as int)
                    == Some((bi as int, bv as int)) && bi < n && bv >= 0,
                None => spec_scan_players(state.players@, multiplier_score(), i as int) is None,
            },
    {
        let sc: Option<i64> = if string_eq_str(&state.players[i].data.name, "York Silk") {
            Some(2000)
        } else if string_eq_str(&state.players[i].data.name, "Wyatt Glover") {
            Some(5000)
        } else {
            None
        };
        if let Some(v) = sc {
            best = match best {
                None => Some((i, v)),
                Some((bi, bv)) => if v > bv {
                    Some((i, v))
                } else {
                    Some((bi, bv))
                },
            };
        }
    }
    best
}

/// How a custom heuristic orients a found game around the matched player's
/// team: the away side is checked first, and the opposite side becomes the
/// opponent; fails when the game's strict team join fails.
pub open spec fn spec_orient(s: State, gi: int, pi: int) -> Result<
    (int, int, TeamPosition),
    SelectionError,
> {
    let g = s.games@[gi];
    if spec_find_team(s, g.home_team@) is Some && spec_find_team(s, g.away_team@) is Some {
        let th = spec_find_team(s, g.home_team@).unwrap();
        let ta = spec_find_team(s, g.away_team@).unwrap();
        if s.teams@[ta].id@ == s.players@[pi].team_id@ {
            Ok((ta, th, TeamPosition::Away))
        } else {
            Ok((th, ta, TeamPosition::Home))
        }
    } else {
        Err(SelectionError::CouldntGetTeams)
    }
}

/// Resolve the teams of the game at `gi` around the player at `pi`.
fn orient(state: &State, gi: usize, pi: usize) -> (r: Result<
    (usize, usize, TeamPosition),
    SelectionError,
>)
    requires
        gi < state.games@.len(),
        pi < state.players@.len(),
    ensures
        match r {
            Ok((t, o, pos)) => spec_orient(*state, gi as int, pi as int) == Ok::<
                (int, int, TeamPosition),
                SelectionError,
            >((t as int, o as int, pos)) && t < state.teams@.len() && o < state.teams@.len(),
            Err(e) => spec_orient(*state, gi as int, pi as int) == Err::<
                (int, int, TeamPosition),
                SelectionError,
            >(e),
        },
{
    let game = &state.games[gi];
    let teams = match game.teams(state) {
        Some(t) => t,
        None => {
            return Err(SelectionError::CouldntGetTeams);
        },
    };
    if state.teams[teams.away].id == state.players[pi].team_id {
        Ok((teams.away, teams.home, TeamPosition::Away))
    } else {
        Ok((teams.home, teams.away, TeamPosition::Home))
    }
}

/// The predicate "one of this game's pitcher names contains `Games`".
pub open spec fn games_game_pred() -> spec_fn(Game) -> bool {
    |g: Game|
        g.home_pitcher_name is Some && g.away_pitcher_name is Some && (spec_contains(
            g.home_pitcher_name.unwrap()@,
            "Games"@,
        ) || spec_contains(g.away_pitcher_name.unwrap()@, "Games"@))
}

/// Whether a game has a pitcher named like "Games", executably.
fn game_has_games_pitcher(g: &Game) -> (r: bool)
    ensures
        r == games_game_pred()(*g),
{
    match (&g.home_pitcher_name, &g.away_pitcher_name) {
        (Some(h), Some(a)) => string_contains(h, "Games") || string_contains(a, "Games"),
        _ => false,
    }
}

/// The first game with a pitcher named like "Games".
pub open spec fn spec_find_games_game(s: State) -> Option<int> {
    find_first(s.games@, games_game_pred())
}

/// The strict pitcher join of the game at `gi`, as player indices.
pub open spec fn spec_game_positions(s: State, gi: int) -> Option<(int, int)> {
    let g = s.games@[gi];
    if g.home_pitcher is Some && g.away_pitcher is Some && spec_find_position(
        s,
        g.home_pitcher.unwrap()@,
    ) is Some && spec_find_position(s, g.away_pitcher.unwrap()@) is Some {
        Some(
            (
                spec_find_position(s, g.home_pitcher.unwrap()@).unwrap(),
                spec_find_position(s, g.away_pitcher.unwrap()@).unwrap(),
            ),
        )
    } else {
        None
    }
}

/// What each custom heuristic selects: a single candidate, or the
/// descriptive failure of the step that found nothing.
pub open spec fn spec_custom_best(s: State, c: CustomFormula) -> Result<
    ScoredPitcher,
    SelectionError,
> {
    match c {
        CustomFormula::Bestness => {
            match spec_scan_players(s.players@, bestness_score(), s.players@.len() as int) {
                None => Err(SelectionError::NoBestPlayer),
                Some((pi, v)) => match spec_find_game_with_team(s, s.players@[pi].team_id@) {
                    None => Err(SelectionError::NoBestGame),
                    Some(gi) => match spec_orient(s, gi, pi) {
                        Err(e) => Err(e),
                        Ok((t, o, pos)) => Ok(
                            ScoredPitcher {
                                pitcher: PitcherRef {
                                    position: pi as usize,
                                    stats: None,
                                    game: Some(gi as usize),
                                    team: t as usize,
                                    opponent: Some(o as usize),
                                    team_pos: pos,
                                },
                                score: v as i64,
                            },
                        ),
                    },
                },
            }
        },
        CustomFormula::BestBest => {
            match spec_scan_players(s.players@, best_best_score(), s.players@.len() as int) {
                None => Err(SelectionError::NoBestPlayer),
                Some((pi, v)) => match spec_find_game_with_team(s, s.players@[pi].team_id@) {
                    Some(gi) => match spec_orient(s, gi, pi) {
                        Err(e) => Err(e),
                        Ok((t, o, pos)) => Ok(
                            ScoredPitcher {
                                pitcher: PitcherRef {
                                    position: pi as usize,
                                    stats: None,
                                    game: Some(gi as usize),
                                    team: t as usize,
                                    opponent: Some(o as usize),
                                    team_pos: pos,
                                },
                                score: v as i64,
                            },
                        ),
                    },
                    None => if s.players@[pi].team_id@ == CRABS@ {
                        match spec_find_team(s, CRABS@) {
                            None => Err(SelectionError::MissingCrabs),
                            Some(t) => Ok(
                                ScoredPitcher {
                                    pitcher: PitcherRef {
                                        position: pi as usize,
                                        stats: None,
                                        game: None,
                                        team: t as usize,
                                        opponent: None,
                                        team_pos: TeamPosition::Away,
                                    },
                                    score: v as i64,
                                },
                            ),
                        }
                    } else {
                        Err(SelectionError::NoBestGame)
                    },
                },
            }
        },
        CustomFormula::GamesNamePerGame => {
            match spec_find_games_game(s) {
                None => Err(SelectionError::NoGamesGame),
                Some(gi) => {
                    let chosen = match spec_game_positions(s, gi) {
                        None => None,
                        Some((ph, pa)) => if spec_contains(s.players@[ph].data.name@, "Games"@) {
                            Some(ph)
                        } else if spec_contains(s.players@[pa].data.name@, "Games"@) {
                            Some(pa)
                        } else {
                            None
                        },
                    };
                    match chosen {
                        None => Err(SelectionError::LostTheGames),
                        Some(pi) => match spec_orient(s, gi, pi) {
                            Err(e) => Err(e),
                            Ok((t, o, pos)) => Ok(
                                ScoredPitcher {
                                    pitcher: PitcherRef {
                                        position: pi as usize,
                                        stats: None,
                                        game: Some(gi as usize),
                                        team: t as usize,
                                        opponent: Some(o as usize),
                                        team_pos: pos,
                                    },
                                    score: 1000,
                                },
                            ),
                        },
                    }
                },
            }
        },
        CustomFormula::BattingMultiplier => {
            match spec_scan_players(s.players@, multiplier_score(), s.players@.len() as int) {
                None => Err(SelectionError::NoBestMultiplier),
                Some((pi, v)) => match spec_find_game_with_team(s, s.players@[pi].team_id@) {
                    None => Err(SelectionError::NoMultiplierGame(s.players@[pi].data.name)),
                    Some(gi) => match spec_orient(s, gi, pi) {
                        Err(e) => Err(e),
                        Ok((t, o, pos)) => Ok(
                            ScoredPitcher {
                                pitcher: PitcherRef {
                                    position: pi as usize,
                                    stats: None,
                                    game: Some(gi as usize),
                                    team: t as usize,
                                    opponent: Some(o as usize),
                                    team_pos: pos,
                                },
                                score: v as i64,
                            },
                        ),
                    },
                },
            }
        },
    }
}

/// Run a custom heuristic's whole-snapshot scan.
pub fn custom_best(state: &State, c: CustomFormula) -> (r: Result<ScoredPitcher, SelectionError>)
    requires
        state.wf(),
    ensures
        r == spec_custom_best(*state, c),
        r is Ok ==> r.unwrap().pitcher.wf(*state) && r.unwrap().score > i64::MIN,
{
    match c {
        CustomFormula::Bestness => {
            let (pi, v) = match scan_bestness(state) {
                Some(best) => best,
                None => {
                    return Err(SelectionError::NoBestPlayer);
                },
            };
            let gi = match state.find_game_with_team(&state.players[pi].team_id) {
                Some(gi) => gi,
                None => {
                    return Err(SelectionError::NoBestGame);
                },
            };
            match orient(state, gi, pi) {
                Err(e) => Err(e),
                Ok((t, o, pos)) => Ok(
                    ScoredPitcher {
                        pitcher: PitcherRef {
                            position: pi,
                            stats: None,
                            game: Some(gi),
                            team: t,
                            opponent: Some(o),
                            team_pos: pos,
                        },
                        score: v,
                    },
                ),
            }
        },
        CustomFormula::BestBest => {
            let (pi, v) = match scan_best_best(state) {
                Some(best) => best,
                None => {
                    return Err(SelectionError::NoBestPlayer);
                },
            };
            match state.find_game_with_team(&state.players[pi].team_id) {
                Some(gi) => match orient(state, gi, pi) {
                    Err(e) => Err(e),
                    Ok((t, o, pos)) => Ok(
                        ScoredPitcher {
                            pitcher: PitcherRef {
                                position: pi,
                                stats: None,
                                game: Some(gi),
                                team: t,
                                opponent: Some(o),
                                team_pos: pos,
                            },
                            score: v,
                        },
                    ),
                },
                None => {
                    if string_eq_str(&state.players[pi].team_id, CRABS) {
                        let crabs_id = String::from_str(CRABS);
                        match state.find_team(&crabs_id) {
                            Some(t) => Ok(
                                ScoredPitcher {
                                    pitcher: PitcherRef {
                                        position: pi,
                                        stats: None,
                                        game: None,
                                        team: t,
                                        opponent: None,
                                        team_pos: TeamPosition::Away,
                                    },
                                    score: v,
                                },
                            ),
                            None => Err(SelectionError::MissingCrabs),
                        }
                    } else {
                        Err(SelectionError::NoBestGame)
                    }
                },
            }
        },
        CustomFormula::GamesNamePerGame => {
            let gi = match find_games_game(state) {
                Some(gi) => gi,
                None => {
                    return Err(SelectionError::NoGamesGame);
                },
            };
            let positions = match state.games[gi].pitcher_positions(state) {
                Some(p) => p,
                None => {
                    return Err(SelectionError::LostTheGames);
                },
            };
            let pi = if string_contains(&state.players[positions.home].data.name, "Games") {
                positions.home
            } else if string_contains(&state.players[positions.away].data.name, "Games") {
                positions.away
            } else {
                return Err(SelectionError::LostTheGames);
            };
            match orient(state, gi, pi) {
                Err(e) => Err(e),
                Ok((t, o, pos)) => Ok(
                    ScoredPitcher {
                        pitcher: PitcherRef {
                            position: pi,
                            stats: None,
                            game: Some(gi),
                            team: t,
                            opponent: Some(o),
                            team_pos: pos,
                        },
                        score: 1000,
                    },
                ),
            }
        },
        CustomFormula::BattingMultiplier => {
            let (pi, v) = match scan_multiplier(state) {
                Some(best) => best,
                None => {
                    return Err(SelectionError::NoBestMultiplier);
                },
            };
            let gi = match state.find_game_with_team(&state.players[pi].team_id) {
                Some(gi) => gi,
                None => {
                    return Err(
                        SelectionError::NoMultiplierGame(state.players[pi].data.name.clone()),
                    );
                },
            };
            match orient(state, gi, pi) {
                Err(e) => Err(e),
                Ok((t, o, pos)) => Ok(
                    ScoredPitcher {
                        pitcher: PitcherRef {
                            position: pi,
                            stats: None,
                            game: Some(gi),
                            team: t,
                            opponent: Some(o),
                            team_pos: pos,
                        },
                        score: v,
                    },
                ),
            }
        },
    }
}

/// An algorithm has exactly the given name, flag, printed statistics and
/// strategy.
pub open spec fn algorithm_is(
    a: Algorithm,
    name: Seq<char>,
    forbidden: Forbidden,
    stats: Seq<PrintedStat>,
    strategy: Strategy,
) -> bool {
    &&& a.name@ == name
    &&& a.forbidden == forbidden
    &&& a.printed_stats@ == stats
    &&& a.strategy == strategy
}

impl Algorithm {
    /// Best by strikeouts per nine innings.
    pub fn so9() -> (r: Algorithm)
        ensures
            algorithm_is(
                r,
                "Best by SO/9"@,
                Forbidden::Unforbidden,
                Seq::empty(),
                Strategy::Maximize(PitcherFormula::So9),
            ),
    {
        Algorithm {
            name: "Best by SO/9",
            forbidden: Forbidden::Unforbidden,
            printed_stats: Vec::new(),
            strategy: Strategy::Maximize(PitcherFormula::So9),
        }
    }

    /// Best by the ruthlessness rating; its result is spoiler-wrapped.
    pub fn ruthlessness() -> (r: Algorithm)
        ensures
            algorithm_is(
                r,
                "Best by ruthlessness"@,
                Forbidden::Forbidden,
                seq![PrintedStat::SO9],
                Strategy::Maximize(PitcherFormula::Ruthlessness),
            ),
    {
        let mut printed_stats: Vec<PrintedStat> = Vec::new();
        printed_stats.push(PrintedStat::SO9);
        proof {
            assert(printed_stats@ =~= seq![PrintedStat::SO9]);
        }
        Algorithm {
            name: "Best by ruthlessness",
            forbidden: Forbidden::Forbidden,
            printed_stats,
            strategy: Strategy::Maximize(PitcherFormula::Ruthlessness),
        }
    }

    /// Best by SO/9 scaled by the opposing lineup's strikeout rate.
    pub fn stat_ratio() -> (r: Algorithm)
        ensures
            algorithm_is(
                r,
                "Best by (SO/9)(SO/AB)"@,
                Forbidden::Unforbidden,
                seq![PrintedStat::SO9],
                Strategy::Maximize(PitcherFormula::StatRatio),
            ),
    {
        let mut printed_stats: Vec<PrintedStat> = Vec::new();
        printed_stats.push(PrintedStat::SO9);
        proof {
            assert(printed_stats@ =~= seq![PrintedStat::SO9]);
        }
        Algorithm {
            name: "Best by (SO/9)(SO/AB)",
            forbidden: Forbidden::Unforbidden,
            printed_stats,
            strategy: Strategy::Maximize(PitcherFormula::StatRatio),
        }
    }

    /// Whoever pitches against the Lift.
    pub fn lift() -> (r: Algorithm)
        ensures
            algorithm_is(
                r,
                "Against Lift"@,
                Forbidden::Unforbidden,
                Seq::empty(),
                Strategy::Maximize(PitcherFormula::Lift),
            ),
    {
        Algorithm {
            name: "Against Lift",
            forbidden: Forbidden::Unforbidden,
            printed_stats: Vec::new(),
            strategy: Strategy::Maximize(PitcherFormula::Lift),
        }
    }

    /// The best "Best"-named player, by name brevity.
    pub fn bestness() -> (r: Algorithm)
        ensures
            algorithm_is(
                r,
                "Best by Bestness"@,
                Forbidden::Unforbidden,
                Seq::empty(),
                Strategy::Custom(CustomFormula::Bestness),
            ),
    {
        Algorithm {
            name: "Best by Bestness",
            forbidden: Forbidden::Unforbidden,
            printed_stats: Vec::new(),
            strategy: Strategy::Custom(CustomFormula::Bestness),
        }
    }

    /// The best "Best"-named player, by pitching stars.
    pub fn best_best() -> (r: Algorithm)
        ensures
            algorithm_is(
                r,
                "Best Best by Stars"@,
                Forbidden::Unforbidden,
                Seq::empty(),
                Strategy::Custom(CustomFormula::BestBest),
            ),
    {
        Algorithm {
            name: "Best Best by Stars",
            forbidden: Forbidden::Unforbidden,
            printed_stats: Vec::new(),
            strategy: Strategy::Custom(CustomFormula::BestBest),
        }
    }

    /// The worst pitcher by negated SO/9 over the opposing strikeout rate.
    pub fn worst_stat_ratio() -> (r: Algorithm)
        ensures
            algorithm_is(
                r,
                "Worst by (-SO/9)/(SO/AB)"@,
                Forbidden::Unforbidden,
                seq![PrintedStat::SO9],
                Strategy::Maximize(PitcherFormula::WorstStatRatio),
            ),
    {
        let mut printed_stats: Vec<PrintedStat> = Vec::new();
        printed_stats.push(PrintedStat::SO9);
        proof {
            assert(printed_stats@ =~= seq![PrintedStat::SO9]);
        }
        Algorithm {
            name: "Worst by (-SO/9)/(SO/AB)",
            forbidden: Forbidden::Unforbidden,
            printed_stats,
            strategy: Strategy::Maximize(PitcherFormula::WorstStatRatio),
        }
    }

    /// Best by idol-board rank.
    pub fn idols() -> (r: Algorithm)
        ensures
            algorithm_is(
                r,
                "Best by idolization"@,
                Forbidden::Unforbidden,
                Seq::empty(),
                Strategy::Maximize(PitcherFormula::Idols),
            ),
    {
        Algorithm {
            name: "Best by idolization",
            forbidden: Forbidden::Unforbidden,
            printed_stats: Vec::new(),
            strategy: Strategy::Maximize(PitcherFormula::Idols),
        }
    }

    /// Best by batting stars.
    pub fn batting_stars() -> (r: Algorithm)
        ensures
            algorithm_is(
                r,
                "Best by batting stars"@,
                Forbidden::Unforbidden,
                Seq::empty(),
                Strategy::Maximize(PitcherFormula::BattingStars),
            ),
    {
        Algorithm {
            name: "Best by batting stars",
            forbidden: Forbidden::Unforbidden,
            printed_stats: Vec::new(),
            strategy: Strategy::Maximize(PitcherFormula::BattingStars),
        }
    }

    /// Best by name length.
    pub fn name_length() -> (r: Algorithm)
        ensures
            algorithm_is(
                r,
                "Best by name length"@,
                Forbidden::Unforbidden,
                Seq::empty(),
                Strategy::Maximize(PitcherFormula::NameLength),
            ),
    {
        Algorithm {
            name: "Best by name length",
            forbidden: Forbidden::Unforbidden,
            printed_stats: Vec::new(),
            strategy: Strategy::Maximize(PitcherFormula::NameLength),
        }
    }

    /// Best by games credited per game pitched.
    pub fn games_per_game() -> (r: Algorithm)
        ensures
            algorithm_is(
                r,
                "Best by games per game"@,
                Forbidden::Unforbidden,
                Seq::empty(),
                Strategy::Maximize(PitcherFormula::GamesPerGame),
            ),
    {
        Algorithm {
            name: "Best by games per game",
            forbidden: Forbidden::Unforbidden,
            printed_stats: Vec::new(),
            strategy: Strategy::Maximize(PitcherFormula::GamesPerGame),
        }
    }

    /// The pitcher named like "Games".
    pub fn games_name_per_game() -> (r: Algorithm)
        ensures
            algorithm_is(
                r,
                "Best by Games per game"@,
                Forbidden::Unforbidden,
                Seq::empty(),
                Strategy::Custom(CustomFormula::GamesNamePerGame),
            ),
    {
        Algorithm {
            name: "Best by Games per game",
            forbidden: Forbidden::Unforbidden,
            printed_stats: Vec::new(),
            strategy: Strategy::Custom(CustomFormula::GamesNamePerGame),
        }
    }

    /// The best known batting-multiplier carrier.
    pub fn batting_multiplier() -> (r: Algorithm)
        ensures
            algorithm_is(
                r,
                "Best Batter by Multiplier"@,
                Forbidden::Unforbidden,
                Seq::empty(),
                Strategy::Custom(CustomFormula::BattingMultiplier),
            ),
    {
        Algorithm {
            name: "Best Batter by Multiplier",
            forbidden: Forbidden::Unforbidden,
            printed_stats: Vec::new(),
            strategy: Strategy::Custom(CustomFormula::BattingMultiplier),
        }
    }
}

/// Every declared algorithm, serious ones first, in the order their
/// identifiers number them.
pub fn all_algorithms() -> (r: Vec<Algorithm>)
    ensures
        r@.len() == 13,
        algorithm_is(
            r@[0],
            "Best by SO/9"@,
            Forbidden::Unforbidden,
            Seq::empty(),
            Strategy::Maximize(PitcherFormula::So9),
        ),
        algorithm_is(
            r@[1],
            "Best by ruthlessness"@,
            Forbidden::Forbidden,
            seq![PrintedStat::SO9],
            Strategy::Maximize(PitcherFormula::Ruthlessness),
        ),
        algorithm_is(
            r@[2],
            "Best by (SO/9)(SO/AB)"@,
            Forbidden::Unforbidden,
            seq![PrintedStat::SO9],
            Strategy::Maximize(PitcherFormula::StatRatio),
        ),
        algorithm_is(
            r@[3],
            "Against Lift"@,
            Forbidden::Unforbidden,
            Seq::empty(),
            Strategy::Maximize(PitcherFormula::Lift),
        ),
        algorithm_is(
            r@[4],
            "Best by Bestness"@,
            Forbidden::Unforbidden,
            Seq::empty(),
            Strategy::Custom(CustomFormula::Bestness),
        ),
        algorithm_is(
            r@[5],
            "Best Best by Stars"@,
            Forbidden::Unforbidden,
            Seq::empty(),
            Strategy::Custom(CustomFormula::BestBest),
        ),
        algorithm_is(
            r@[6],
            "Worst by (-SO/9)/(SO/AB)"@,
            Forbidden::Unforbidden,
            seq![PrintedStat::SO9],
            Strategy::Maximize(PitcherFormula::WorstStatRatio),
        ),
        algorithm_is(
            r@[7],
            "Best by idolization"@,
            Forbidden::Unforbidden,
            Seq::empty(),
            Strategy::Maximize(PitcherFormula::Idols),
        ),
        algorithm_is(
            r@[8],
            "Best by batting stars"@,
            Forbidden::Unforbidden,
            Seq::empty(),
            Strategy::Maximize(PitcherFormula::BattingStars),
        ),
        algorithm_is(
            r@[9],
            "Best by name length"@,
            Forbidden::Unforbidden,
            Seq::empty(),
            Strategy::Maximize(PitcherFormula::NameLength),
        ),
        algorithm_is(
            r@[10],
            "Best by games per game"@,
            Forbidden::Unforbidden,
            Seq::empty(),
            Strategy::Maximize(PitcherFormula::GamesPerGame),
        ),
        algorithm_is(
            r@[11],
            "Best by Games per game"@,
            Forbidden::Unforbidden,
            Seq::empty(),
            Strategy::Custom(CustomFormula::GamesNamePerGame),
        ),
        algorithm_is(
            r@[12],
            "Best Batter by Multiplier"@,
            Forbidden::Unforbidden,
            Seq::empty(),
            Strategy::Custom(CustomFormula::BattingMultiplier),
        ),
{
    let mut r: Vec<Algorithm> = Vec::new();
    r.push(Algorithm::so9());
    r.push(Algorithm::ruthlessness());
    r.push(Algorithm::stat_ratio());
    r.push(Algorithm::lift());
    r.push(Algorithm::bestness());
    r.push(Algorithm::best_best());
    r.push(Algorithm::worst_stat_ratio());
    r.push(Algorithm::idols());
    r.push(Algorithm::batting_stars());
    r.push(Algorithm::name_length());
    r.push(Algorithm::games_per_game());
    r.push(Algorithm::games_name_per_game());
    r.push(Algorithm::batting_multiplier());
    r
}

/// The identifiers of the serious algorithms, in order.
pub fn serious_algorithm_ids() -> (r: Vec<i64>)
    ensures
        r@ == seq![0i64, 1i64, 2i64],
{
    let mut r: Vec<i64> = Vec::new();
    r.push(0);
    r.push(1);
    r.push(2);
    proof {
        assert(r@ =~= seq![0i64, 1i64, 2i64]);
    }
    r
}

/// The identifiers of the joke algorithms, in order.
pub fn joke_algorithm_ids() -> (r: Vec<i64>)
    ensures
        r@ == seq![3i64, 4i64, 5i64, 6i64, 7i64, 8i64, 9i64, 10i64, 11i64, 12i64],
{
    let mut r: Vec<i64> = Vec::new();
    r.push(3);
    r.push(4);
    r.push(5);
    r.push(6);
    r.push(7);
    r.push(8);
    r.push(9);
    r.push(10);
    r.push(11);
    r.push(12);
    proof {
        assert(r@ =~= seq![3i64, 4i64, 5i64, 6i64, 7i64, 8i64, 9i64, 10i64, 11i64, 12i64]);
    }
    r
}

/// The first game with a pitcher named like "Games", executably.
fn find_games_game(state: &State) -> (r: Option<usize>)
    ensures
        match r {
            Some(gi) => spec_find_games_game(*state) == Some(gi as int) && gi
                < state.games@.len(),
            None => spec_find_games_game(*state) is None,
        },
{
    let n = state.games.len();
    for i in 0..n
        invariant
            n == state.games@.len(),
            forall|j: int| 0 <= j < i ==> !games_game_pred()(#[trigger] state.games@[j]),
    {
        if game_has_games_pitcher(&state.games[i]) {
            proof {
                lemma_find_first_some(state.games@, games_game_pred(), i as int);
            }
            return Some(i);
        }
    }
    proof {
        lemma_find_first_none(state.games@, games_game_pred());
    }
    None
}

} // verus!
