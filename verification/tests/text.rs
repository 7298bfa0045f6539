use rustdesk_api::text::{chars, collect, contains, join, pad, to_decimal, to_lower};

#[test]
fn lower_case_is_for_ascii_only() {
    let lowered: String = to_lower("WinDOWS \u{00C4}\u{0130}z").into_iter().collect();
    assert_eq!(lowered, "WinDOWS \u{00C4}\u{0130}z".to_ascii_lowercase());
}

#[test]
fn parts_are_found() {
    let text = chars("debian / Linux 13");
    assert!(contains(&text, "Linux"));
    assert!(contains(&text, ""));
    assert!(contains(&text, "debian"));
    assert!(contains(&text, "13"));
    assert!(!contains(&text, "linux"));
    assert!(!contains(&text, "debian / Linux 13 "));
    assert!(contains(&chars("aab"), "ab"));
    assert!(!contains(&chars(""), "a"));
    assert!(contains(&chars(""), ""));
}

#[test]
fn ranges_are_cut_out() {
    let text = chars("h\u{00E9}llo");
    assert_eq!(collect(&text, 0, 2), "h\u{00E9}");
    assert_eq!(collect(&text, 1, 5), "\u{00E9}llo");
    assert_eq!(collect(&text, 3, 3), "");
}

#[test]
fn columns_are_filled_with_spaces() {
    for s in ["", "a", "abc", "\u{00E9}\u{4E2D}"] {
        for width in 0..6 {
            assert_eq!(pad(s, width), format!("{s:<width$}"));
        }
    }
}

#[test]
fn decimals() {
    for n in [0u64, 1, 9, 10, 59, 100, 1_234_567_890, u64::MAX] {
        assert_eq!(to_decimal(n), n.to_string());
    }
}

#[test]
fn texts_are_joined() {
    assert_eq!(join("a", "b"), "ab");
    assert_eq!(join("", ""), "");
}
