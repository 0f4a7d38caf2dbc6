use kratos_flow::text::{
    chars_of, copy_opt, copy_texts, find_from, join, matches_at, replace_all, same_text,
    strip_prefix, text_after_first, text_before_first, trim,
};

#[test]
fn chars_of_keeps_every_character_in_order() {
    assert_eq!(chars_of("añb"), vec!['a', 'ñ', 'b']);
    assert_eq!(chars_of(""), Vec::<char>::new());
}

#[test]
fn matches_at_checks_bounds_and_content() {
    let s = chars_of("hello");
    assert!(matches_at(&s, &chars_of("ell"), 1));
    assert!(!matches_at(&s, &chars_of("ell"), 0));
    assert!(!matches_at(&s, &chars_of("lo"), 4));
    assert!(matches_at(&s, &chars_of(""), 5));
    assert!(!matches_at(&s, &chars_of(""), 6));
}

#[test]
fn find_from_returns_the_first_occurrence_at_or_after_the_start() {
    let s = chars_of("abcabc");
    let p = chars_of("bc");
    assert_eq!(find_from(&s, &p, 0), Some(1));
    assert_eq!(find_from(&s, &p, 1), Some(1));
    assert_eq!(find_from(&s, &p, 2), Some(4));
    assert_eq!(find_from(&s, &p, 5), None);
    assert_eq!(find_from(&s, &chars_of("x"), 0), None);
    assert_eq!(find_from(&s, &chars_of("abcabcd"), 0), None);
}

#[test]
fn copies_keep_every_text() {
    let items = vec!["a".to_string(), String::new(), "c".to_string()];
    assert_eq!(copy_texts(&items), items);
    assert_eq!(copy_opt(&Some("x".to_string())), Some("x".to_string()));
    assert_eq!(copy_opt(&None), None);
}

#[test]
fn same_text_compares_every_character() {
    assert!(same_text("csrf_token", "csrf_token"));
    assert!(!same_text("csrf_token", "csrf_tokens"));
    assert!(!same_text("csrf_tokens", "csrf_token"));
}

#[test]
fn text_before_and_after_the_first_occurrence() {
    assert_eq!(text_after_first("a=b=c", "="), Some("b=c".to_string()));
    assert_eq!(text_after_first("abc", "="), None);
    assert_eq!(text_before_first("a=b=c", "="), "a".to_string());
    assert_eq!(text_before_first("abc", "="), "abc".to_string());
    assert_eq!(text_after_first("abc=", "="), Some(String::new()));
}

#[test]
fn replace_all_rewrites_every_occurrence_left_to_right() {
    assert_eq!(
        replace_all("http://localhost:4433/localhost", "localhost", "127.0.0.1"),
        "http://127.0.0.1:4433/127.0.0.1"
    );
    assert_eq!(replace_all("aaa", "aa", "b"), "ba");
    assert_eq!(replace_all("abc", "x", "y"), "abc");
    assert_eq!(replace_all("abc", "", "y"), "abc");
    assert_eq!(replace_all("", "a", "b"), "");
}

#[test]
fn replace_all_agrees_with_std_on_patterns_that_are_not_empty() {
    let cases = [
        ("http://localhost:4433", "localhost", "127.0.0.1"),
        ("ababab", "ab", "x"),
        ("aaaa", "aa", "aaa"),
        ("héllo wörld", "ö", "oe"),
        ("xyz", "xyz", ""),
    ];
    for (s, from, to) in cases {
        assert_eq!(replace_all(s, from, to), s.replace(from, to));
    }
}

#[test]
fn join_puts_the_separator_between_neighbours_only() {
    let none: Vec<String> = vec![];
    assert_eq!(join(&none, "; "), "");
    assert_eq!(join(&vec!["a".to_string()], "; "), "a");
    assert_eq!(
        join(&vec!["a".to_string(), "b".to_string(), "c".to_string()], "; "),
        "a; b; c"
    );
    assert_eq!(join(&vec![String::new(), String::new()], ","), ",");
}

#[test]
fn trim_removes_white_space_on_both_sides_only() {
    assert_eq!(trim("  a b \t\n"), "a b");
    assert_eq!(trim("   "), "");
    assert_eq!(trim(""), "");
    assert_eq!(trim("x"), "x");
    assert_eq!(trim("\u{a0}x\u{3000}"), "x");
}

#[test]
fn strip_prefix_cuts_the_prefix_or_fails() {
    assert_eq!(strip_prefix("session_token=abc", "session_token="), Some("abc".to_string()));
    assert_eq!(strip_prefix("session_token=", "session_token="), Some(String::new()));
    assert_eq!(strip_prefix("xsession_token=abc", "session_token="), None);
    assert_eq!(strip_prefix("se", "session_token="), None);
}

#[test]
fn cutting_and_trimming_agree_with_std() {
    let samples = [
        "",
        " ",
        "a",
        " a ",
        "\t\r\n x y \u{2003}",
        "session_token=abc",
        "a=1; b=2; session_token=x",
        ";;",
        "flow=1&flow=2",
        "héllo=wörld",
        "==",
        "日本語=テキスト;",
    ];
    for s in samples {
        assert_eq!(trim(s), s.trim());
        for p in ["=", ";", "flow=", "session_token=", "ö", "x y"] {
            assert_eq!(text_after_first(s, p), s.split_once(p).map(|(_, rest)| rest.to_string()));
            assert_eq!(
                text_before_first(s, p),
                s.split_once(p).map(|(head, _)| head.to_string()).unwrap_or(s.to_string())
            );
            assert_eq!(strip_prefix(s, p), s.strip_prefix(p).map(|rest| rest.to_string()));
            assert_eq!(replace_all(s, p, "<>"), s.replace(p, "<>"));
            let cs = chars_of(s);
            let cp = chars_of(p);
            let found = find_from(&cs, &cp, 0);
            assert_eq!(found.is_some(), s.contains(p));
            if let Some(i) = found {
                assert!(matches_at(&cs, &cp, i));
                assert_eq!(s.chars().take(i).collect::<String>(), text_before_first(s, p));
            }
        }
    }
}

fn listed_as_white_space(code: u32) -> bool {
    (0x0009..=0x000D).contains(&code)
        || code == 0x0020
        || code == 0x0085
        || code == 0x00A0
        || code == 0x1680
        || (0x2000..=0x200A).contains(&code)
        || code == 0x2028
        || code == 0x2029
        || code == 0x202F
        || code == 0x205F
        || code == 0x3000
}

#[test]
fn trim_takes_the_listed_characters_for_white_space_and_no_others() {
    let mut code: u32 = 0;
    while code <= 0x10FFFF {
        if let Some(c) = char::from_u32(code) {
            let alone = c.to_string();
            assert_eq!(trim(&alone).is_empty(), listed_as_white_space(code), "U+{:04X}", code);
            assert_eq!(c.is_whitespace(), listed_as_white_space(code), "U+{:04X}", code);
        }
        code += if code < 0x4000 { 1 } else { 7 };
    }
}
