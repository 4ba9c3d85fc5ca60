use idol_bot::pair::{TeamPair, TeamPosition};

#[test]
fn transpose_both_present() {
    let pair = TeamPair { home: Some(1), away: Some(2) };
    assert_eq!(pair.transpose().map(|p| (p.home, p.away)), Some((1, 2)));
}

#[test]
fn transpose_home_missing() {
    let pair: TeamPair<Option<i32>> = TeamPair { home: None, away: Some(2) };
    assert!(pair.transpose().is_none());
}

#[test]
fn transpose_away_missing() {
    let pair: TeamPair<Option<i32>> = TeamPair { home: Some(1), away: None };
    assert!(pair.transpose().is_none());
}

#[test]
fn transpose_both_missing() {
    let pair: TeamPair<Option<i32>> = TeamPair { home: None, away: None };
    assert!(pair.transpose().is_none());
}

#[test]
fn transpose_result_both_ok() {
    let pair: TeamPair<Result<i32, &str>> = TeamPair { home: Ok(1), away: Ok(2) };
    let r = pair.transpose().unwrap();
    assert_eq!((r.home, r.away), (1, 2));
}

#[test]
fn transpose_result_first_error_wins() {
    let pair: TeamPair<Result<i32, &str>> = TeamPair { home: Err("home bad"), away: Err("away bad") };
    assert_eq!(pair.transpose().unwrap_err(), "home bad");
}

#[test]
fn map_applies_to_both_sides() {
    let pair = TeamPair { home: 3u8, away: 4u8 };
    let doubled = pair.map(|x: u8| (x as u32) * 2);
    assert_eq!((doubled.home, doubled.away), (6, 8));
}

#[test]
fn zip_pairs_slotwise() {
    let a = TeamPair { home: 1, away: 2 };
    let b = TeamPair { home: "h", away: "a" };
    let z = a.zip(b);
    assert_eq!(z.home, (1, "h"));
    assert_eq!(z.away, (2, "a"));
}

#[test]
fn and_then_short_circuits() {
    let pair = TeamPair { home: 1i32, away: -1i32 };
    let r = pair.and_then(|x: i32| if x > 0 { Some(x) } else { None });
    assert!(r.is_none());
    let pair = TeamPair { home: 1i32, away: 2i32 };
    let r = pair.and_then(|x: i32| if x > 0 { Some(x * 10) } else { None }).unwrap();
    assert_eq!((r.home, r.away), (10, 20));
}

#[test]
fn map_both_pos_sees_opponent_and_tag() {
    let pair = TeamPair { home: 10, away: 20 };
    let r = pair.map_both_pos(|own: &i32, other: &i32, pos: TeamPosition| {
        (*own, *other, matches!(pos, TeamPosition::Home))
    });
    assert_eq!(r.home, (10, 20, true));
    assert_eq!(r.away, (20, 10, false));
}

#[test]
fn into_vec_home_first() {
    let pair = TeamPair { home: "h", away: "a" };
    assert_eq!(pair.into_vec(), vec!["h", "a"]);
}
