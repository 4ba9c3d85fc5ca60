use idol_bot::algorithms::{self, CustomFormula, PitcherFormula, CRABS, LIFT_ID};
use idol_bot::models::{
    AtBatLeader, Game, GameUpdate, Idol, PitchingStats, Player, Position, StrikeoutLeader, Team,
};
use idol_bot::pair::TeamPosition;
use idol_bot::predictor::{ScoredPitcher, SelectionError};
use idol_bot::state::State;

fn al_player(id: &str, name: &str) -> Position {
    Position {
        id: id.to_string(),
        team_id: String::new(),
        data: Player {
            id: id.to_string(),
            name: name.to_string(),
            ruthlessness: 0,
            patheticism: 0,
            pitching_rating: 0,
            hitting_rating: 0,
        },
    }
}

fn al_team(id: &str, name: &str) -> Team {
    Team {
        id: id.to_string(),
        full_name: name.to_string(),
        lineup: Vec::new(),
        rotation: Vec::new(),
        bullpen: Vec::new(),
        bench: Vec::new(),
        perm_attr: Vec::new(),
    }
}

fn al_game(id: &str, home_team: &str, away_team: &str, home_p: Option<&str>, away_p: Option<&str>) -> Game {
    Game {
        id: id.to_string(),
        away_pitcher: away_p.map(|s| s.to_string()),
        away_pitcher_name: None,
        home_pitcher: home_p.map(|s| s.to_string()),
        home_pitcher_name: None,
        away_team: away_team.to_string(),
        away_team_name: String::new(),
        home_team: home_team.to_string(),
        home_team_name: String::new(),
        inning: 0,
        season: 0,
        day: 0,
    }
}

fn al_empty_state() -> State {
    State {
        strikeouts: Vec::new(),
        at_bats: Vec::new(),
        pitcher_stats: Vec::new(),
        teams: Vec::new(),
        players: Vec::new(),
        games: Vec::new(),
        idols: Vec::new(),
        black_hole_sun_2: Vec::new(),
        season: 0,
    }
}

/// One resolvable game with a single scored pitcher on the home side.
fn al_one_game_state() -> State {
    let mut state = al_empty_state();
    state.teams.push(al_team("th", "Home Team"));
    state.teams.push(al_team("ta", "Away Team"));
    state.players.push(al_player("hp", "Home Pitcher"));
    state.players.push(al_player("ap", "Away Pitcher"));
    state.pitcher_stats.push(PitchingStats { player_id: "hp".to_string(), k_per_9: 5000, games: 10 });
    state.games.push(al_game("g1", "th", "ta", Some("hp"), Some("ap")));
    state
}

#[test]
fn ruthlessness_scores_the_rating() {
    let mut state = al_one_game_state();
    state.players[0].data.ruthlessness = 123;
    state.players[1].data.ruthlessness = 456;
    let best = ScoredPitcher::best_pitcher(&state, PitcherFormula::Ruthlessness).unwrap();
    assert_eq!(best.score, 456);
    assert_eq!(state.players[best.pitcher.position].id, "ap");
}

#[test]
fn stat_ratio_combines_so9_and_opposing_lineup() {
    let mut state = al_one_game_state();
    // The home pitcher's opponent is the away team: give it a two-batter
    // lineup with strikeout ratios 30/100 and 10/50 (milli 300 and 200).
    state.teams[1].lineup = vec!["b1".to_string(), "b2".to_string()];
    state.strikeouts.push(StrikeoutLeader { player_id: "b1".to_string(), strikeouts: 30 });
    state.strikeouts.push(StrikeoutLeader { player_id: "b2".to_string(), strikeouts: 10 });
    state.at_bats.push(AtBatLeader { player_id: "b1".to_string(), at_bats: 100 });
    state.at_bats.push(AtBatLeader { player_id: "b2".to_string(), at_bats: 50 });
    let best = ScoredPitcher::best_pitcher(&state, PitcherFormula::StatRatio).unwrap();
    // 5.0 * (0.2 + mean(0.3, 0.2)) = 5.0 * 0.45 = 2.25
    assert_eq!(best.score, 2250);
    assert_eq!(state.players[best.pitcher.position].id, "hp");
}

#[test]
fn stat_ratio_needs_full_opposing_leaderboards() {
    let mut state = al_one_game_state();
    state.teams[1].lineup = vec!["b1".to_string()];
    state.strikeouts.push(StrikeoutLeader { player_id: "b1".to_string(), strikeouts: 30 });
    // No at-bat entry for b1: the home side has no opinion and the away
    // side has no stats, so the pool is empty.
    let err = ScoredPitcher::best_pitcher(&state, PitcherFormula::StatRatio).unwrap_err();
    assert_eq!(err, SelectionError::NoBestPitcher);
}

#[test]
fn lift_scores_one_against_the_lift_only() {
    let mut state = al_one_game_state();
    state.pitcher_stats.push(PitchingStats { player_id: "ap".to_string(), k_per_9: 1000, games: 1 });
    state.teams[1].id = LIFT_ID.to_string();
    state.games[0].away_team = LIFT_ID.to_string();
    let best = ScoredPitcher::best_pitcher(&state, PitcherFormula::Lift).unwrap();
    // The home pitcher faces the Lift and scores 1.0; the away pitcher scores 0.
    assert_eq!(best.score, 1000);
    assert_eq!(state.players[best.pitcher.position].id, "hp");
}

#[test]
fn worst_stat_ratio_negates_and_divides() {
    let mut state = al_one_game_state();
    state.teams[1].lineup = vec!["b1".to_string()];
    state.strikeouts.push(StrikeoutLeader { player_id: "b1".to_string(), strikeouts: 30 });
    state.at_bats.push(AtBatLeader { player_id: "b1".to_string(), at_bats: 100 });
    let best = ScoredPitcher::best_pitcher(&state, PitcherFormula::WorstStatRatio).unwrap();
    // -(5.0 / 0.3) in milli: -(5000 * 1000 / 300) = -16666
    assert_eq!(best.score, -16666);
}

#[test]
fn idols_ranks_by_board_position() {
    let mut state = al_one_game_state();
    state.idols.push(Idol { player_id: "someone".to_string() });
    state.idols.push(Idol { player_id: "hp".to_string() });
    let best = ScoredPitcher::best_pitcher(&state, PitcherFormula::Idols).unwrap();
    // hp is ranked 1: -(1) - 1 = -2; ap is unranked: -(20) - 1 = -21.
    assert_eq!(best.score, -2000);
    assert_eq!(state.players[best.pitcher.position].id, "hp");
}

#[test]
fn batting_stars_floor_in_half_star_steps() {
    let mut state = al_one_game_state();
    state.players[0].data.hitting_rating = 475;  // 0.475 -> 2.0 stars
    state.players[1].data.hitting_rating = 440;  // 0.440 -> 2.0 stars
    let best = ScoredPitcher::best_pitcher(&state, PitcherFormula::BattingStars).unwrap();
    // Equal stars: the first-scanned (home) pitcher wins the tie.
    assert_eq!(best.score, 2000);
    assert_eq!(state.players[best.pitcher.position].id, "hp");
}

#[test]
fn name_length_counts_characters() {
    let state = al_one_game_state();
    let best = ScoredPitcher::best_pitcher(&state, PitcherFormula::NameLength).unwrap();
    // "Home Pitcher" and "Away Pitcher" both have 12 characters; first wins.
    assert_eq!(best.score, 12000);
    assert_eq!(state.players[best.pitcher.position].id, "hp");
}

#[test]
fn games_per_game_counts_rare_event_extras() {
    let mut state = al_one_game_state();
    // One rare-event record of this season credits the home pitcher.
    state.black_hole_sun_2.push(GameUpdate {
        team_tags: vec!["th".to_string()],
        data: al_game("g1", "th", "ta", Some("hp"), Some("ap")),
    });
    let best = ScoredPitcher::best_pitcher(&state, PitcherFormula::GamesPerGame).unwrap();
    // (10 normal + 1 extra) / 10 = 1.1
    assert_eq!(best.score, 1100);
}

#[test]
fn games_per_game_stops_at_other_seasons() {
    let mut state = al_one_game_state();
    let mut other_season = al_game("g1", "th", "ta", Some("hp"), Some("ap"));
    other_season.season = 99;
    // The scan stops at the first record of another season, so the later
    // matching record is never counted.
    state.black_hole_sun_2.push(GameUpdate { team_tags: vec!["th".to_string()], data: other_season });
    state.black_hole_sun_2.push(GameUpdate {
        team_tags: vec!["th".to_string()],
        data: al_game("g1", "th", "ta", Some("hp"), Some("ap")),
    });
    let best = ScoredPitcher::best_pitcher(&state, PitcherFormula::GamesPerGame).unwrap();
    assert_eq!(best.score, 1000);
}

#[test]
fn bestness_picks_shortest_best_name() {
    let mut state = al_empty_state();
    state.teams.push(al_team("t1", "Team One"));
    state.teams.push(al_team("t2", "Team Two"));
    let mut long = al_player("pl", "Best Player Long");  // 16 chars -> 250
    long.team_id = "t1".to_string();
    let mut short = al_player("ps", "Mr Best");  // 7 chars -> 571
    short.team_id = "t2".to_string();
    state.players.push(long);
    state.players.push(short);
    state.games.push(al_game("g", "t1", "t2", None, None));
    let best = algorithms::custom_best(&state, CustomFormula::Bestness).unwrap();
    assert_eq!(state.players[best.pitcher.position].id, "ps");
    assert_eq!(best.score, 4000 / 7);
    // The matched player's team is the away side of the found game.
    assert!(matches!(best.pitcher.team_pos, TeamPosition::Away));
}

#[test]
fn bestness_reports_missing_player_and_game() {
    let state = al_empty_state();
    let err = algorithms::custom_best(&state, CustomFormula::Bestness).unwrap_err();
    assert_eq!(err, SelectionError::NoBestPlayer);

    let mut state = al_empty_state();
    state.players.push(al_player("p", "Best Nobody"));
    let err = algorithms::custom_best(&state, CustomFormula::Bestness).unwrap_err();
    assert_eq!(err, SelectionError::NoBestGame);
}

#[test]
fn best_best_scores_pitching_stars() {
    let mut state = al_empty_state();
    state.teams.push(al_team("t1", "Team One"));
    state.teams.push(al_team("t2", "Team Two"));
    let mut p = al_player("p", "Best Arm");
    p.team_id = "t1".to_string();
    p.data.pitching_rating = 750;  // 3.5 stars
    state.players.push(p);
    state.games.push(al_game("g", "t1", "t2", None, None));
    let best = algorithms::custom_best(&state, CustomFormula::BestBest).unwrap();
    assert_eq!(best.score, 3500);
    assert!(matches!(best.pitcher.team_pos, TeamPosition::Home));
}

#[test]
fn best_best_crab_fallback_synthesizes_opponent() {
    let mut state = al_empty_state();
    state.teams.push(al_team(CRABS, "Baltimore Crabs"));
    let mut p = al_player("p", "Best Crab");
    p.team_id = CRABS.to_string();
    p.data.pitching_rating = 500;
    state.players.push(p);
    // No game for the crabs: the placeholder opponent takes over.
    let best = algorithms::custom_best(&state, CustomFormula::BestBest).unwrap();
    assert_eq!(best.score, 2500);
    assert_eq!(best.pitcher.game, None);
    assert_eq!(best.pitcher.opponent, None);
    assert!(matches!(best.pitcher.team_pos, TeamPosition::Away));
    assert_eq!(state.teams[best.pitcher.team].id, CRABS);
}

#[test]
fn best_best_without_crabs_team_reports_it() {
    let mut state = al_empty_state();
    let mut p = al_player("p", "Best Crab");
    p.team_id = CRABS.to_string();
    state.players.push(p);
    let err = algorithms::custom_best(&state, CustomFormula::BestBest).unwrap_err();
    assert_eq!(err, SelectionError::MissingCrabs);
}

#[test]
fn games_name_per_game_finds_the_games_pitcher() {
    let mut state = al_empty_state();
    state.teams.push(al_team("t1", "Team One"));
    state.teams.push(al_team("t2", "Team Two"));
    let mut p = al_player("gp", "Hundred Games");
    p.team_id = "t2".to_string();
    state.players.push(p);
    state.players.push(al_player("op", "Ordinary"));
    let mut game = al_game("g", "t1", "t2", Some("op"), Some("gp"));
    game.home_pitcher_name = Some("Ordinary".to_string());
    game.away_pitcher_name = Some("Hundred Games".to_string());
    state.games.push(game);
    let best = algorithms::custom_best(&state, CustomFormula::GamesNamePerGame).unwrap();
    assert_eq!(best.score, 1000);
    assert_eq!(state.players[best.pitcher.position].id, "gp");
    assert!(matches!(best.pitcher.team_pos, TeamPosition::Away));
}

#[test]
fn games_name_per_game_reports_no_games_game() {
    let state = al_empty_state();
    let err = algorithms::custom_best(&state, CustomFormula::GamesNamePerGame).unwrap_err();
    assert_eq!(err, SelectionError::NoGamesGame);
}

#[test]
fn batting_multiplier_prefers_the_larger_multiplier() {
    let mut state = al_empty_state();
    state.teams.push(al_team("t1", "Team One"));
    state.teams.push(al_team("t2", "Team Two"));
    let mut york = al_player("y", "York Silk");
    york.team_id = "t1".to_string();
    let mut wyatt = al_player("w", "Wyatt Glover");
    wyatt.team_id = "t2".to_string();
    state.players.push(york);
    state.players.push(wyatt);
    state.games.push(al_game("g", "t1", "t2", None, None));
    let best = algorithms::custom_best(&state, CustomFormula::BattingMultiplier).unwrap();
    assert_eq!(best.score, 5000);
    assert_eq!(state.players[best.pitcher.position].id, "w");
}

#[test]
fn batting_multiplier_reports_carrier_without_game() {
    let mut state = al_empty_state();
    let mut york = al_player("y", "York Silk");
    york.team_id = "t1".to_string();
    state.players.push(york);
    let err = algorithms::custom_best(&state, CustomFormula::BattingMultiplier).unwrap_err();
    assert_eq!(err, SelectionError::NoMultiplierGame("York Silk".to_string()));
}

#[test]
fn all_algorithms_lists_thirteen_in_id_order() {
    let algorithms = algorithms::all_algorithms();
    assert_eq!(algorithms.len(), 13);
    assert_eq!(algorithms[0].name, "Best by SO/9");
    assert_eq!(algorithms[1].name, "Best by ruthlessness");
    assert_eq!(algorithms[2].name, "Best by (SO/9)(SO/AB)");
    assert_eq!(algorithms[12].name, "Best Batter by Multiplier");
    assert_eq!(algorithms::serious_algorithm_ids(), vec![0, 1, 2]);
    assert_eq!(algorithms::joke_algorithm_ids(), vec![3, 4, 5, 6, 7, 8, 9, 10, 11, 12]);
}

#[test]
fn custom_selection_reports_failed_team_join() {
    let mut state = al_empty_state();
    let mut p = al_player("p", "Best Nobody");
    p.team_id = "t1".to_string();
    state.players.push(p);
    // The game names t1 but the snapshot has no such team record.
    state.games.push(al_game("g", "t1", "t2", None, None));
    let err = algorithms::custom_best(&state, CustomFormula::Bestness).unwrap_err();
    assert_eq!(err, SelectionError::CouldntGetTeams);
}

#[test]
fn games_name_per_game_can_lose_the_pitcher() {
    let mut state = al_empty_state();
    state.teams.push(al_team("t1", "Team One"));
    state.teams.push(al_team("t2", "Team Two"));
    // The game advertises a "Games" pitcher by name, but the strict join
    // cannot resolve the pitcher ids.
    let mut game = al_game("g", "t1", "t2", Some("missing"), Some("also-missing"));
    game.home_pitcher_name = Some("Hundred Games".to_string());
    game.away_pitcher_name = Some("Someone".to_string());
    state.games.push(game);
    let err = algorithms::custom_best(&state, CustomFormula::GamesNamePerGame).unwrap_err();
    assert_eq!(err, SelectionError::LostTheGames);
}

#[test]
fn batting_multiplier_without_carrier_reports_it() {
    let state = al_empty_state();
    let err = algorithms::custom_best(&state, CustomFormula::BattingMultiplier).unwrap_err();
    assert_eq!(err, SelectionError::NoBestMultiplier);
}

#[test]
fn selection_errors_render_descriptive_lines() {
    assert_eq!(SelectionError::NoBestPitcher.message(), "No best pitcher!");
    assert_eq!(SelectionError::CouldntGetTeams.message(), "Couldn't get teams!");
    assert_eq!(
        SelectionError::NoMultiplierGame("York Silk".to_string()).message(),
        "No game with York Silk!"
    );
}
