use oliver_explorer::networking::check_status;
use oliver_explorer::networking::is_success;
use oliver_explorer::networking::status_error;
use oliver_explorer::text::trim;

#[test]
fn trim_removes_white_space_at_both_ends() {
    assert_eq!(trim("  http://example.com  "), "http://example.com");
    assert_eq!(trim("\t\nabc\r\n"), "abc");
    assert_eq!(trim("a b"), "a b");
    assert_eq!(trim(" a  b "), "a  b");
}

#[test]
fn trim_of_blank_input_is_empty() {
    assert_eq!(trim(""), "");
    assert_eq!(trim(" "), "");
    assert_eq!(trim(" \t \n "), "");
}

#[test]
fn trim_knows_white_space_beyond_ascii() {
    assert_eq!(trim("\u{00A0}x\u{3000}"), "x");
    assert_eq!(trim("\u{2003}\u{2028}"), "");
    assert_eq!(trim("\u{200B}x"), "\u{200B}x");
}

#[test]
fn trim_counts_characters_not_bytes() {
    assert_eq!(trim(" héllo wörld "), "héllo wörld");
    assert_eq!(trim("\u{3000}日本語\u{3000}"), "日本語");
}

#[test]
fn trim_agrees_with_std() {
    for s in ["", " ", "x", " x", "x ", "  x y  ", "\u{0085}z\u{1680}", "é ", " \u{FEFF}"] {
        assert_eq!(trim(s), s.trim());
    }
}

#[test]
fn success_is_the_2xx_class() {
    assert!(is_success(200));
    assert!(is_success(204));
    assert!(is_success(299));
    assert!(!is_success(199));
    assert!(!is_success(300));
    assert!(!is_success(404));
    assert!(!is_success(500));
    assert!(!is_success(0));
    assert!(!is_success(u16::MAX));
}

#[test]
fn status_error_names_the_status() {
    assert_eq!(status_error("404 Not Found"), "HTTP error: 404 Not Found");
    assert_eq!(status_error(""), "HTTP error: ");
}

#[test]
fn check_status_passes_the_2xx_class_alone() {
    assert_eq!(check_status(200, "200 OK"), Ok(()));
    assert_eq!(check_status(299, "299"), Ok(()));
    assert_eq!(
        check_status(404, "404 Not Found"),
        Err("HTTP error: 404 Not Found".to_string())
    );
    assert_eq!(check_status(199, "199"), Err("HTTP error: 199".to_string()));
    assert_eq!(
        check_status(300, "300 Multiple Choices"),
        Err("HTTP error: 300 Multiple Choices".to_string())
    );
}

/// The characters with the Unicode property White_Space.
fn listed_as_white_space(c: char) -> bool {
    matches!(
        c,
        '\u{0009}'..='\u{000D}'
            | '\u{0020}'
            | '\u{0085}'
            | '\u{00A0}'
            | '\u{1680}'
            | '\u{2000}'..='\u{200A}'
            | '\u{2028}'
            | '\u{2029}'
            | '\u{202F}'
            | '\u{205F}'
            | '\u{3000}'
    )
}

#[test]
fn white_space_is_the_listed_set_for_every_character() {
    let mut white = 0;
    for code in 0..=0x10FFFFu32 {
        if let Some(c) = char::from_u32(code) {
            let one = c.to_string();
            let trimmed_away = trim(&one).is_empty();
            assert_eq!(trimmed_away, listed_as_white_space(c), "U+{:04X}", code);
            if trimmed_away {
                white += 1;
            }
        }
    }
    assert_eq!(white, 25);
}
