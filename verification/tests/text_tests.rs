use idol_bot::text::{str_contains, str_eq, string_contains, string_eq_str};

#[test]
fn str_eq_compares_characters() {
    assert!(str_eq("abc", "abc"));
    assert!(!str_eq("abc", "abd"));
    assert!(!str_eq("abc", "ab"));
    assert!(str_eq("", ""));
}

#[test]
fn str_contains_finds_substrings() {
    assert!(str_contains("Best Player", "Best"));
    assert!(str_contains("The Best", "Best"));
    assert!(str_contains("Best", "Best"));
    assert!(!str_contains("best", "Best"));
    assert!(!str_contains("Bes", "Best"));
}

#[test]
fn str_contains_empty_pattern_always_matches() {
    assert!(str_contains("anything", ""));
    assert!(str_contains("", ""));
}

#[test]
fn string_helpers_match_slice_helpers() {
    let s = String::from("Wyatt Glover");
    assert!(string_eq_str(&s, "Wyatt Glover"));
    assert!(!string_eq_str(&s, "York Silk"));
    assert!(string_contains(&s, "Glover"));
    assert!(!string_contains(&s, "glover"));
}

#[test]
fn str_contains_handles_multibyte_characters() {
    assert!(str_contains("añejo", "ñe"));
    assert!(!str_contains("añejo", "ne"));
}
