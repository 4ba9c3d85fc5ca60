use idol_bot::history::{
    player_record_at, players_at, summary_stats, team_record_at, teams_at, PlayerStatsheet,
    PlayerUpdate, StatState, TeamUpdate,
};
use idol_bot::models::{Game, Player, Team};

fn hi_player(id: &str, name: &str) -> Player {
    Player {
        id: id.to_string(),
        name: name.to_string(),
        ruthlessness: 0,
        patheticism: 0,
        pitching_rating: 0,
        hitting_rating: 0,
    }
}

fn hi_team(id: &str, name: &str) -> Team {
    Team {
        id: id.to_string(),
        full_name: name.to_string(),
        lineup: Vec::new(),
        rotation: Vec::new(),
        bullpen: Vec::new(),
        bench: Vec::new(),
        perm_attr: Vec::new(),
    }
}

fn hi_sheet(id: &str, strikeouts: u64, at_bats: u64, struckouts: u64) -> PlayerStatsheet {
    PlayerStatsheet {
        player_id: id.to_string(),
        team_id: "t".to_string(),
        strikeouts,
        at_bats,
        struckouts,
    }
}

#[test]
fn players_at_picks_newest_record_not_after_time() {
    // Newest first: a record from t=30, one from t=20, one from t=10.
    let updates = vec![
        PlayerUpdate { data: hi_player("p", "Newest"), first_seen: 30 },
        PlayerUpdate { data: hi_player("p", "Middle"), first_seen: 20 },
        PlayerUpdate { data: hi_player("p", "Oldest"), first_seen: 10 },
    ];
    let picks = players_at(&updates, 25);
    assert_eq!(picks, vec![1]);
    let record = player_record_at(&updates, picks[0]);
    assert_eq!(record.data.name, "Middle");
    assert_eq!(record.id, "p");
    assert_eq!(record.team_id, "");
}

#[test]
fn players_at_drops_players_with_only_newer_records() {
    let updates = vec![
        PlayerUpdate { data: hi_player("new", "Too New"), first_seen: 50 },
        PlayerUpdate { data: hi_player("old", "Fine"), first_seen: 10 },
    ];
    // "new" only has a record from after the requested time, so it finds
    // nothing at or past the cutoff and is dropped; "old" is kept.
    let picks = players_at(&updates, 20);
    assert_eq!(picks.len(), 1);
    assert_eq!(updates[picks[0]].data.id, "old");
}

#[test]
fn teams_at_keeps_one_record_per_team() {
    let updates = vec![
        TeamUpdate { data: hi_team("a", "A Newest"), first_seen: 30 },
        TeamUpdate { data: hi_team("b", "B Newest"), first_seen: 25 },
        TeamUpdate { data: hi_team("a", "A Older"), first_seen: 15 },
        TeamUpdate { data: hi_team("b", "B Older"), first_seen: 5 },
    ];
    let picks = teams_at(&updates, 40);
    assert_eq!(picks, vec![0, 1]);
    let team = team_record_at(&updates, picks[0]);
    assert_eq!(team.full_name, "A Newest");
}

#[test]
fn batter_sheets_accumulate_totals() {
    let mut stats = StatState::new();
    stats.update_batter(&hi_sheet("b", 0, 4, 2));
    stats.update_batter(&hi_sheet("b", 0, 3, 1));
    stats.update_batter(&hi_sheet("c", 0, 5, 0));
    assert_eq!(stats.strikeouts.len(), 2);
    assert_eq!(stats.strikeouts[0].player_id, "b");
    assert_eq!(stats.strikeouts[0].strikeouts, 3);
    assert_eq!(stats.at_bats[0].at_bats, 7);
    assert_eq!(stats.at_bats[1].player_id, "c");
    assert_eq!(stats.at_bats[1].at_bats, 5);
}

#[test]
fn pitcher_sheets_accumulate_and_rate_per_nine() {
    let mut stats = StatState::new();
    let mut game = Game {
        id: "g".to_string(),
        away_pitcher: None,
        away_pitcher_name: None,
        home_pitcher: None,
        home_pitcher_name: None,
        away_team: "a".to_string(),
        away_team_name: String::new(),
        home_team: "h".to_string(),
        home_team_name: String::new(),
        inning: 8,
        season: 0,
        day: 0,
    };
    stats.update_pitcher(&hi_sheet("p", 6, 0, 0), &game);
    game.inning = 8;
    stats.update_pitcher(&hi_sheet("p", 3, 0, 0), &game);
    assert_eq!(stats.pitchers.len(), 1);
    assert_eq!(stats.pitchers[0].data.strikeouts, 9);
    assert_eq!(stats.pitchers[0].data.innings_pitched, 18);
    let lines = stats.pitcher_lines();
    assert_eq!(lines.len(), 1);
    // 9 strikeouts over 18 innings: 4.5 per nine.
    assert_eq!(lines[0].k_per_9, 4500);
    assert_eq!(lines[0].player_id, "p");
}

#[test]
fn pitcher_without_innings_rates_zero() {
    let stats = StatState {
        pitchers: vec![idol_bot::history::PitcherEntry {
            player_id: "p".to_string(),
            data: idol_bot::history::PitchingData { strikeouts: 5, innings_pitched: 0 },
        }],
        strikeouts: Vec::new(),
        at_bats: Vec::new(),
    };
    assert_eq!(stats.pitcher_lines()[0].k_per_9, 0);
}

#[test]
fn summary_stats_give_sum_and_extremes() {
    assert_eq!(summary_stats(&Vec::new()), None);
    let (sum, lo, hi) = summary_stats(&vec![4, 9, 2, 7]).unwrap();
    assert_eq!((sum, lo, hi), (22, 2, 9));
}
