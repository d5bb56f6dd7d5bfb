use cargo_uwp::text::replace_all;

#[test]
fn replace_all_replaces_every_occurrence() {
    assert_eq!(
        replace_all("windows = \"$windows-rs-version$\" # $windows-rs-version$", "$windows-rs-version$", "0.18.0"),
        "windows = \"0.18.0\" # 0.18.0"
    );
}

#[test]
fn replace_all_without_occurrence_is_identity() {
    assert_eq!(replace_all("[package]\nname = \"bindings\"\n", "$x$", "y"), "[package]\nname = \"bindings\"\n");
}

#[test]
fn replace_all_takes_occurrences_left_to_right_without_overlap() {
    assert_eq!(replace_all("aaa", "aa", "b"), "ba");
    assert_eq!(replace_all("aaaa", "aa", "b"), "bb");
}

#[test]
fn replace_all_with_empty_pattern_matches_between_characters() {
    assert_eq!(replace_all("abc", "", "x"), "xaxbxcx");
    assert_eq!(replace_all("", "", "x"), "x");
}

#[test]
fn replace_all_handles_non_ascii_and_agrees_with_std() {
    let cases = [
        ("größe $v$ größe", "$v$", "0.18.0"),
        ("ünï$v$cödé$v", "$v$", "ß"),
        ("short", "longer pattern", "x"),
        ("abab", "ab", ""),
        ("🦀🦀", "🦀", "crab"),
    ];
    for (s, from, to) in cases {
        assert_eq!(replace_all(s, from, to), s.replace(from, to));
    }
}

#[test]
fn replace_all_leaves_no_placeholder_when_replacement_shares_no_character() {
    let out = replace_all("$windows-rs-version$$windows-rs-version$", "$windows-rs-version$", "0.18.0");
    assert_eq!(out, "0.18.00.18.0");
    assert!(!out.contains("$windows-rs-version$"));
}
