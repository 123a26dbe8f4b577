use prqldoc::text::{same_text, starts_with, strip_prefix, trim, whitespace};

#[test]
fn whitespace_is_what_std_calls_whitespace() {
    let mut code: u32 = 0;
    while code <= 0x10FFFF {
        if let Some(c) = char::from_u32(code) {
            assert_eq!(whitespace(c), c.is_whitespace(), "U+{:04X}", code);
        }
        code += 1;
    }
}

#[test]
fn whitespace_named_characters() {
    assert!(whitespace(' '));
    assert!(whitespace('\n'));
    assert!(whitespace('\t'));
    assert!(whitespace('\r'));
    assert!(whitespace('\u{000B}'));
    assert!(whitespace('\u{000C}'));
    assert!(whitespace('\u{0085}'));
    assert!(whitespace('\u{00A0}'));
    assert!(whitespace('\u{1680}'));
    assert!(whitespace('\u{2000}'));
    assert!(whitespace('\u{200A}'));
    assert!(whitespace('\u{2028}'));
    assert!(whitespace('\u{2029}'));
    assert!(whitespace('\u{202F}'));
    assert!(whitespace('\u{205F}'));
    assert!(whitespace('\u{3000}'));
    assert!(!whitespace('a'));
    assert!(!whitespace('\u{0008}'));
    assert!(!whitespace('\u{000E}'));
    assert!(!whitespace('\u{200B}'));
    assert!(!whitespace('\u{180E}'));
    assert!(!whitespace('\u{FEFF}'));
}

#[test]
fn trim_removes_both_ends_only() {
    assert_eq!(trim("  from a \n"), "from a");
    assert_eq!(trim("from a"), "from a");
    assert_eq!(trim("\n\nfrom  a\n| take 1\n\n"), "from  a\n| take 1");
    assert_eq!(trim("a"), "a");
    assert_eq!(trim(" a"), "a");
    assert_eq!(trim("a "), "a");
}

#[test]
fn trim_of_blank_is_empty() {
    assert_eq!(trim(""), "");
    assert_eq!(trim(" "), "");
    assert_eq!(trim(" \n\t\r "), "");
    assert_eq!(trim("\u{3000}\u{00A0}"), "");
}

#[test]
fn trim_counts_characters_not_bytes() {
    assert_eq!(trim("\u{00A0}é ü\u{2003}"), "é ü");
    assert_eq!(trim(" ╭─╯ "), "╭─╯");
    assert_eq!(trim("\u{200B} x"), "\u{200B} x");
}

#[test]
fn trim_agrees_with_std() {
    let samples = [
        "",
        " ",
        "x",
        " x",
        "x ",
        "  x  y  ",
        "\n\nSELECT\n  *\nFROM\n  a\n",
        "\u{2028}α\u{2029}",
        "\t\u{1680}mid dle\u{205F}\r\n",
        "no blanks",
        "│ 1 │\n",
    ];
    for s in samples {
        assert_eq!(trim(s), s.trim(), "{:?}", s);
    }
}

#[test]
fn trim_twice_is_trim_once() {
    let samples = ["  a b  ", "\n", "x", " é "];
    for s in samples {
        assert_eq!(trim(trim(s)), trim(s));
    }
}

#[test]
fn starts_with_tells_prefixes() {
    assert!(starts_with("prql", "prql"));
    assert!(starts_with("prql table", "prql"));
    assert!(starts_with("prql table", "prql "));
    assert!(starts_with("prqlx", "prql"));
    assert!(starts_with("anything", ""));
    assert!(starts_with("", ""));
    assert!(!starts_with("prq", "prql"));
    assert!(!starts_with("", "prql"));
    assert!(!starts_with("sql", "prql"));
    assert!(!starts_with(" prql", "prql"));
    assert!(!starts_with("PRQL", "prql"));
    assert!(!starts_with("prql", "prql "));
    assert!(starts_with("één", "é"));
    assert!(!starts_with("één", "e"));
}

#[test]
fn same_text_compares_characters() {
    assert!(same_text("", ""));
    assert!(same_text("table", "table"));
    assert!(!same_text("table", "tables"));
    assert!(!same_text("tables", "table"));
    assert!(!same_text("table", "tablE"));
    assert!(!same_text("", "x"));
    assert!(same_text("é", "é"));
    assert!(!same_text("é", "e"));
}

#[test]
fn strip_prefix_keeps_the_rest() {
    assert_eq!(strip_prefix("prql table", "prql "), Some("table"));
    assert_eq!(strip_prefix("prql ", "prql "), Some(""));
    assert_eq!(strip_prefix("prql", "prql "), None);
    assert_eq!(strip_prefix("sql", "prql "), None);
    assert_eq!(strip_prefix("abc", ""), Some("abc"));
    assert_eq!(strip_prefix("éa", "é"), Some("a"));
}
