use idol_bot::algorithms::PitcherFormula;
use idol_bot::models::{Game, PitchingStats, Player, Position, Team};
use idol_bot::pair::TeamPosition;
use idol_bot::predictor::{Algorithm, Forbidden, ScoredPitcher, SelectionError};
use idol_bot::state::State;

fn pd_player(id: &str, name: &str) -> Position {
    Position {
        id: id.to_string(),
        team_id: String::new(),
        data: Player {
            id: id.to_string(),
            name: name.to_string(),
            ruthlessness: 0,
            patheticism: 0,
            pitching_rating: 0,
            hitting_rating: 0,
        },
    }
}

fn pd_team(id: &str, name: &str) -> Team {
    Team {
        id: id.to_string(),
        full_name: name.to_string(),
        lineup: Vec::new(),
        rotation: Vec::new(),
        bullpen: Vec::new(),
        bench: Vec::new(),
        perm_attr: Vec::new(),
    }
}

fn pd_game(id: &str, home_team: &str, away_team: &str, home_p: Option<&str>, away_p: Option<&str>) -> Game {
    Game {
        id: id.to_string(),
        away_pitcher: away_p.map(|s| s.to_string()),
        away_pitcher_name: None,
        home_pitcher: home_p.map(|s| s.to_string()),
        home_pitcher_name: None,
        away_team: away_team.to_string(),
        away_team_name: String::new(),
        home_team: home_team.to_string(),
        home_team_name: String::new(),
        inning: 0,
        season: 0,
        day: 0,
    }
}

fn pd_empty_state() -> State {
    State {
        strikeouts: Vec::new(),
        at_bats: Vec::new(),
        pitcher_stats: Vec::new(),
        teams: Vec::new(),
        players: Vec::new(),
        games: Vec::new(),
        idols: Vec::new(),
        black_hole_sun_2: Vec::new(),
        season: 0,
    }
}

/// Snapshot with two games: GameA (home P1, SO/9 = 5.0, no away pitcher
/// assigned... both sides must resolve, so away pitcher P4 without stats),
/// GameB (home P2 with SO/9 = 8.0, away P3 with SO/9 = 3.0).
fn pd_two_game_state() -> State {
    let mut state = pd_empty_state();
    state.teams.push(pd_team("ta", "Team A"));
    state.teams.push(pd_team("tb", "Team B"));
    state.teams.push(pd_team("tc", "Team C"));
    state.teams.push(pd_team("td", "Team D"));
    state.players.push(pd_player("p1", "Pitcher One"));
    state.players.push(pd_player("p2", "Pitcher Two"));
    state.players.push(pd_player("p3", "Pitcher Three"));
    state.players.push(pd_player("p4", "Pitcher Four"));
    state.pitcher_stats.push(PitchingStats { player_id: "p1".to_string(), k_per_9: 5000, games: 1 });
    state.pitcher_stats.push(PitchingStats { player_id: "p2".to_string(), k_per_9: 8000, games: 1 });
    state.pitcher_stats.push(PitchingStats { player_id: "p3".to_string(), k_per_9: 3000, games: 1 });
    state.games.push(pd_game("ga", "ta", "tc", Some("p1"), Some("p4")));
    state.games.push(pd_game("gb", "tb", "td", Some("p2"), Some("p3")));
    state
}

#[test]
fn so9_selects_highest_scoring_side() {
    let state = pd_two_game_state();
    let best = ScoredPitcher::best_pitcher(&state, PitcherFormula::So9).unwrap();
    assert_eq!(best.score, 8000);
    assert_eq!(state.players[best.pitcher.position].id, "p2");
    assert!(matches!(best.pitcher.team_pos, TeamPosition::Home));
    assert_eq!(state.teams[best.pitcher.team].id, "tb");
}

#[test]
fn so9_end_to_end_display() {
    let state = pd_two_game_state();
    let algorithm = Algorithm::so9();
    let best = algorithm.best_pitcher(&state).unwrap();
    let line = algorithm.display(&state, &best);
    assert_eq!(line, "Best by SO/9: Pitcher Two (8.000, **Team B** vs. Team D)");
}

#[test]
fn missing_stat_skips_only_that_side() {
    // Two identical games; they differ only in which pitcher has a stat.
    let mut state = pd_empty_state();
    state.teams.push(pd_team("th", "Home"));
    state.teams.push(pd_team("tv", "Visitor"));
    state.players.push(pd_player("with", "Has Stats"));
    state.players.push(pd_player("without", "No Stats"));
    state.pitcher_stats.push(PitchingStats { player_id: "with".to_string(), k_per_9: 4000, games: 1 });
    state.games.push(pd_game("g", "th", "tv", Some("with"), Some("without")));
    let best = ScoredPitcher::best_pitcher(&state, PitcherFormula::So9).unwrap();
    assert_eq!(state.players[best.pitcher.position].id, "with");
    assert_eq!(best.score, 4000);

    // Flip which side has the stat: exactly one candidate again, the other side.
    state.games[0].home_pitcher = Some("without".to_string());
    state.games[0].away_pitcher = Some("with".to_string());
    let best = ScoredPitcher::best_pitcher(&state, PitcherFormula::So9).unwrap();
    assert_eq!(state.players[best.pitcher.position].id, "with");
    assert!(matches!(best.pitcher.team_pos, TeamPosition::Away));
}

#[test]
fn engine_is_idempotent_over_a_snapshot() {
    let state = pd_two_game_state();
    let first = ScoredPitcher::best_pitcher(&state, PitcherFormula::So9).unwrap();
    let second = ScoredPitcher::best_pitcher(&state, PitcherFormula::So9).unwrap();
    assert_eq!(first, second);
}

#[test]
fn ties_break_to_first_found() {
    let mut state = pd_two_game_state();
    // Give P1 the same score as P2; P1 is scanned first and must win.
    state.pitcher_stats[0].k_per_9 = 8000;
    let best = ScoredPitcher::best_pitcher(&state, PitcherFormula::So9).unwrap();
    assert_eq!(state.players[best.pitcher.position].id, "p1");
}

#[test]
fn empty_pool_reports_no_best_pitcher() {
    let state = pd_empty_state();
    let err = ScoredPitcher::best_pitcher(&state, PitcherFormula::So9).unwrap_err();
    assert_eq!(err, SelectionError::NoBestPitcher);
}

#[test]
fn unresolvable_games_are_skipped_not_fatal() {
    let mut state = pd_two_game_state();
    // Corrupt GameB's team join; GameA must still produce the candidate.
    state.games[1].home_team = "nowhere".to_string();
    let best = ScoredPitcher::best_pitcher(&state, PitcherFormula::So9).unwrap();
    assert_eq!(state.players[best.pitcher.position].id, "p1");
    assert_eq!(best.score, 5000);
}

#[test]
fn forbidden_wraps_result_line() {
    let state = pd_two_game_state();
    let algorithm = Algorithm::ruthlessness();
    let best = algorithm.best_pitcher(&state).unwrap();
    let line = algorithm.display(&state, &best);
    assert!(line.starts_with("||Best by ruthlessness: "));
    assert!(line.ends_with("||"));
    // The auxiliary SO/9 stat is printed inside the wrapper.
    assert!(line.contains(", SO/9: "));
}

#[test]
fn away_side_displays_with_at_sign() {
    let mut state = pd_two_game_state();
    // Remove home stats so the away pitcher of GameB wins.
    state.pitcher_stats[0].k_per_9 = 0;
    state.pitcher_stats[1].k_per_9 = 0;
    let algorithm = Algorithm::so9();
    let best = algorithm.best_pitcher(&state).unwrap();
    let line = algorithm.display(&state, &best);
    assert_eq!(line, "Best by SO/9: Pitcher Three (3.000, **Team D** @ Team B)");
}

#[test]
fn write_best_to_appends_line_or_leaves_output() {
    let state = pd_two_game_state();
    let mut output = String::from("prefix\n");
    Algorithm::so9().write_best_to(&state, &mut output).unwrap();
    assert_eq!(output, "prefix\nBest by SO/9: Pitcher Two (8.000, **Team B** vs. Team D)\n");

    let empty = pd_empty_state();
    let mut untouched = String::from("prefix\n");
    let err = Algorithm::so9().write_best_to(&empty, &mut untouched).unwrap_err();
    assert_eq!(err, SelectionError::NoBestPitcher);
    assert_eq!(untouched, "prefix\n");
}
