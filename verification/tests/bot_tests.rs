use idol_bot::algorithms;
use idol_bot::bot::{
    available_jokes, best_lines, compose_message, compose_message_with_random_joke,
    select_algorithms,
};
use idol_bot::fixed::{milli_to_string, u64_to_string};
use idol_bot::models::{Game, PitchingStats, Player, Position, Team};
use idol_bot::state::State;

fn bt_state_with_one_candidate() -> State {
    State {
        strikeouts: Vec::new(),
        at_bats: Vec::new(),
        pitcher_stats: vec![PitchingStats {
            player_id: "hp".to_string(),
            k_per_9: 5500,
            games: 3,
        }],
        teams: vec![
            Team {
                id: "th".to_string(),
                full_name: "Home Team".to_string(),
                lineup: Vec::new(),
                rotation: Vec::new(),
                bullpen: Vec::new(),
                bench: Vec::new(),
                perm_attr: Vec::new(),
            },
            Team {
                id: "ta".to_string(),
                full_name: "Away Team".to_string(),
                lineup: Vec::new(),
                rotation: Vec::new(),
                bullpen: Vec::new(),
                bench: Vec::new(),
                perm_attr: Vec::new(),
            },
        ],
        players: vec![
            Position {
                id: "hp".to_string(),
                team_id: "th".to_string(),
                data: Player {
                    id: "hp".to_string(),
                    name: "Home Pitcher".to_string(),
                    ruthlessness: 100,
                    patheticism: 0,
                    pitching_rating: 0,
                    hitting_rating: 0,
                },
            },
            Position {
                id: "ap".to_string(),
                team_id: "ta".to_string(),
                data: Player {
                    id: "ap".to_string(),
                    name: "Away Pitcher".to_string(),
                    ruthlessness: 50,
                    patheticism: 0,
                    pitching_rating: 0,
                    hitting_rating: 0,
                },
            },
        ],
        games: vec![Game {
            id: "g".to_string(),
            away_pitcher: Some("ap".to_string()),
            away_pitcher_name: None,
            home_pitcher: Some("hp".to_string()),
            home_pitcher_name: None,
            away_team: "ta".to_string(),
            away_team_name: String::new(),
            home_team: "th".to_string(),
            home_team_name: String::new(),
            inning: 0,
            season: 0,
            day: 0,
        }],
        idols: Vec::new(),
        black_hole_sun_2: Vec::new(),
        season: 0,
    }
}

#[test]
fn best_lines_holds_one_slot_per_algorithm() {
    let state = bt_state_with_one_candidate();
    let lines = best_lines(&state, &algorithms::all_algorithms());
    assert_eq!(lines.len(), 13);
    // The SO/9 line succeeds for the one stated pitcher.
    assert_eq!(
        lines[0].as_deref(),
        Some("Best by SO/9: Home Pitcher (5.500, **Home Team** vs. Away Team)\n")
    );
    // The custom name heuristics find nobody, and that failure leaves the
    // other slots intact.
    assert!(lines[4].is_none());
    assert!(lines[12].is_none());
    assert!(lines[1].is_some());
}

#[test]
fn select_algorithms_prefers_configured_selection() {
    let configured = vec![2, 0];
    let r = select_algorithms(&configured, &vec![0], &vec![0, 1, 2]);
    assert_eq!(r, vec![2, 0]);
}

#[test]
fn select_algorithms_defaults_when_unconfigured() {
    let r = select_algorithms(&Vec::new(), &Vec::new(), &vec![0, 1, 2]);
    assert_eq!(r, vec![0, 1, 2]);
}

#[test]
fn select_algorithms_excludes_other_track_claims() {
    let r = select_algorithms(&Vec::new(), &vec![1, 9], &vec![0, 1, 2]);
    assert_eq!(r, vec![0, 2]);
}

#[test]
fn available_jokes_keeps_only_produced_lines() {
    let best = vec![Some("a\n".to_string()), None, Some("c\n".to_string())];
    assert_eq!(available_jokes(&best, &vec![0, 1, 2, 7, -3]), vec![0, 2]);
}

#[test]
fn compose_message_concatenates_selected_lines() {
    let best = vec![
        Some("line zero\n".to_string()),
        None,
        Some("line two\n".to_string()),
        Some("joke three\n".to_string()),
    ];
    let text = compose_message(8, &best, &vec![0, 1, 2], &vec![3], 0);
    assert_eq!(text, "**Day 10**\nline zero\nline two\njoke three\n");
}

#[test]
fn compose_message_without_jokes_has_no_joke_line() {
    let best = vec![Some("line zero\n".to_string()), None];
    let text = compose_message(0, &best, &vec![0], &vec![1], 5);
    assert_eq!(text, "**Day 2**\nline zero\n");
}

#[test]
fn compose_message_pick_reduces_modulo_available() {
    let best = vec![Some("a\n".to_string()), Some("b\n".to_string())];
    let with_first = compose_message(0, &best, &Vec::new(), &vec![0, 1], 2);
    assert_eq!(with_first, "**Day 2**\na\n");
    let with_second = compose_message(0, &best, &Vec::new(), &vec![0, 1], 3);
    assert_eq!(with_second, "**Day 2**\nb\n");
}

#[test]
fn random_joke_is_one_of_the_available() {
    let best = vec![Some("a\n".to_string()), Some("b\n".to_string())];
    for _ in 0..20 {
        let text = compose_message_with_random_joke(0, &best, &Vec::new(), &vec![0, 1]);
        assert!(text == "**Day 2**\na\n" || text == "**Day 2**\nb\n");
    }
}

#[test]
fn decimal_rendering_matches_reference_formatting() {
    assert_eq!(u64_to_string(0), "0");
    assert_eq!(u64_to_string(907), "907");
    assert_eq!(u64_to_string(1000000), "1000000");
    assert_eq!(milli_to_string(8000), format!("{:.3}", 8.0));
    assert_eq!(milli_to_string(-1000), format!("{:.3}", -1.0));
    assert_eq!(milli_to_string(50), format!("{:.3}", 0.05));
    assert_eq!(milli_to_string(-16666), "-16.666");
    assert_eq!(milli_to_string(123456), "123.456");
}
