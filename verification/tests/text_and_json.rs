use volsync_webui::json::{parse_json, Json};
use volsync_webui::text::{
    blank, contains, debug_option_text, decimal_text, eq_ignore_ascii_case, hex_text, lines,
    parse_u64, sort_texts, strip_suffix, text_le_exec,
};

#[test]
fn strip_suffix_removes_only_a_trailing_suffix() {
    assert_eq!(strip_suffix("gitea-backup", "-backup"), Some("gitea".to_string()));
    assert_eq!(strip_suffix("gitea", "-backup"), None);
    assert_eq!(strip_suffix("-backup", "-backup"), Some(String::new()));
    assert_eq!(strip_suffix("a-backup-x", "-backup"), None);
    assert_eq!(strip_suffix("abc", ""), Some("abc".to_string()));
}

#[test]
fn contains_finds_infixes() {
    assert!(contains("Client error 403 Forbidden", "403"));
    assert!(!contains("Client error 404", "403"));
    assert!(contains("abc", ""));
    assert!(!contains("", "a"));
    assert!(contains("BackupFailed", "Failed"));
}

#[test]
fn ascii_case_is_ignored_only_for_letters() {
    assert!(eq_ignore_ascii_case("Successful", "successful"));
    assert!(eq_ignore_ascii_case("SUCCESSFUL", "successful"));
    assert!(!eq_ignore_ascii_case("Successful!", "successful"));
    assert!(!eq_ignore_ascii_case("Failed", "successful"));
}

#[test]
fn numbers_are_written_like_format() {
    assert_eq!(decimal_text(0), "0");
    assert_eq!(decimal_text(404), "404");
    assert_eq!(decimal_text(u64::MAX), u64::MAX.to_string());
    assert_eq!(hex_text(0), "0");
    assert_eq!(hex_text(255), "ff");
    assert_eq!(hex_text(0x1a2b3c4d5e6f), "1a2b3c4d5e6f");
    assert_eq!(hex_text(u128::MAX), format!("{:x}", u128::MAX));
}

#[test]
fn u64_parsing_matches_std() {
    for s in ["", "+", "-1", "12", "+12", "0012", " 1", "1 ", "18446744073709551615", "18446744073709551616", "1e3", "٣"] {
        assert_eq!(parse_u64(s), s.parse::<u64>().ok(), "input {:?}", s);
    }
}

#[test]
fn lines_match_std() {
    for s in ["", "a", "a\n", "a\nb", "a\r\nb\r\n", "\n\n", "a\rb", "x\r", "\r\n", "one\n\ntwo"] {
        let expected: Vec<String> = s.lines().map(String::from).collect();
        assert_eq!(lines(s), expected, "input {:?}", s);
    }
}

#[test]
fn blank_lines_are_white_space_only() {
    assert!(blank(""));
    assert!(blank(" \t\u{a0}\u{3000}"));
    assert!(!blank(" x "));
}

#[test]
fn debug_text_of_options() {
    assert_eq!(debug_option_text(&None), "None");
    assert_eq!(debug_option_text(&Some("Failed".to_string())), "Some(\"Failed\")");
    assert_eq!(debug_option_text(&Some("a\"b".to_string())), format!("{:?}", Some("a\"b")));
}

#[test]
fn sorting_matches_std() {
    let v: Vec<String> = ["kube-system", "default", "apps", "Zeta", "apps-2", "", "ä"].iter().map(|s| s.to_string()).collect();
    let mut expected = v.clone();
    expected.sort();
    assert_eq!(sort_texts(v), expected);
    assert!(text_le_exec("app", "apps"));
    assert!(!text_le_exec("apps", "app"));
    assert!(text_le_exec("", ""));
}

#[test]
fn json_lookups() {
    let j = parse_json(r#"{"a": {"b": "x", "n": 5, "f": 1.5, "t": true}, "arr": [1, "s"]}"#).unwrap();
    let a = j.get("a").unwrap();
    assert_eq!(a.get("b").unwrap().as_str().map(|s| s.as_str()), Some("x"));
    assert_eq!(a.get("n").unwrap().as_i64(), Some(5));
    assert_eq!(a.get("f").unwrap().as_i64(), None);
    assert_eq!(a.get("t").unwrap().as_bool(), Some(true));
    assert!(a.get("missing").is_none());
    assert_eq!(j.get("arr").unwrap().as_array().unwrap().len(), 2);
    assert!(parse_json("not json").is_none());
    assert!(matches!(parse_json("[]"), Some(Json::Array(v)) if v.is_empty()));
}
