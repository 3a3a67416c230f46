use disk_telemetry::text::{or_empty, str_contains};

#[test]
fn finds_a_pattern_at_the_start_in_the_middle_and_at_the_end() {
    assert!(str_contains("1p6abc", "1p6"));
    assert!(str_contains("ab1p6c", "1p6"));
    assert!(str_contains("abc1p6", "1p6"));
    assert!(str_contains("1p6", "1p6"));
}

#[test]
fn does_not_find_what_is_not_there() {
    assert!(!str_contains("", "1p6"));
    assert!(!str_contains("1p", "1p6"));
    assert!(!str_contains("p6", "1p6"));
    assert!(!str_contains("1p 6", "1p6"));
    assert!(!str_contains("6p1", "1p6"));
    assert!(!str_contains("11pp66", "1p6"));
}

#[test]
fn finds_a_pattern_behind_a_partial_match() {
    assert!(str_contains("1p1p6", "1p6"));
    assert!(str_contains("11p6", "1p6"));
    assert!(str_contains("/hom/home", "/home"));
    assert!(str_contains("aab", "ab"));
}

#[test]
fn the_empty_pattern_is_everywhere() {
    assert!(str_contains("", ""));
    assert!(str_contains("abc", ""));
}

#[test]
fn a_longer_pattern_is_never_found() {
    assert!(!str_contains("ab", "abc"));
    assert!(!str_contains("", "a"));
}

#[test]
fn search_agrees_with_the_standard_library() {
    let texts = [
        "", "a", "ab", "aba", "abab", "/home", "/home/data", "nvme1p6", "1p6", "héllo", "日本語",
        "日本", "本語", "é", "e",
    ];
    for hay in texts {
        for needle in texts {
            assert_eq!(
                str_contains(hay, needle),
                hay.contains(needle),
                "{:?} in {:?}",
                needle,
                hay
            );
        }
    }
}

#[test]
fn characters_of_several_bytes_count_once() {
    assert!(str_contains("κόσμος1p6", "1p6"));
    assert!(str_contains("κόσμος", "σμ"));
    assert!(!str_contains("κόσμος", "μσ"));
}

#[test]
fn a_missing_text_is_the_empty_text() {
    assert_eq!(or_empty(None), "");
    assert_eq!(or_empty(Some(String::new())), "");
    assert_eq!(or_empty(Some("linux".to_string())), "linux");
}
