//! The text operations, held against those of the standard library.

use defender_panel::text::{
    char_is_whitespace, chars_of, decimal_text, includes, read_or_zero, read_unsigned, replaced,
    same_text, split_in_two, trimmed,
};

fn sample_texts() -> Vec<&'static str> {
    vec![
        "",
        " ",
        "RUNNING",
        "RUNNING\r\n",
        "  \t IDLE \n",
        "\u{a0}x\u{3000}",
        "\u{2028}a b\u{2029}",
        "\u{200b}zero width\u{200b}",
        "\u{180e}mongolian\u{180e}",
        "\u{85}next line\u{85}",
        "\u{1680}ogham\u{202f}\u{205f}",
        "\u{2000}\u{2001}\u{2002}\u{2003}\u{2004}\u{2005}\u{2006}\u{2007}\u{2008}\u{2009}\u{200a}",
        "ERROR: Acesso negado\r\n",
        "SUCCESS: Definições atualizadas com sucesso\r\n",
        "ação 🗑️ fim ",
        "\n\n\n",
        "a",
        " a",
        "a ",
    ]
}

#[test]
fn whitespace_is_what_the_standard_library_says() {
    let mut n: u32 = 0;
    while n <= 0x10ffff {
        if let Some(c) = char::from_u32(n) {
            assert_eq!(char_is_whitespace(c), c.is_whitespace(), "U+{:04X}", n);
        }
        n += 1;
    }
}

#[test]
fn chars_of_gives_every_character() {
    for s in sample_texts() {
        assert_eq!(chars_of(s), s.chars().collect::<Vec<char>>());
    }
}

#[test]
fn trimmed_is_trim() {
    for s in sample_texts() {
        assert_eq!(trimmed(s), s.trim(), "{:?}", s);
    }
}

#[test]
fn trimmed_takes_whitespace_from_both_ends_only() {
    assert_eq!(trimmed("  a  b  "), "a  b");
    assert_eq!(trimmed("\r\n12|34\r\n"), "12|34");
    assert_eq!(trimmed(" \t\n"), "");
}

#[test]
fn same_text_tells_equal_from_different() {
    assert!(same_text("", ""));
    assert!(same_text("RUNNING", "RUNNING"));
    assert!(!same_text("RUNNING", "RUNNING "));
    assert!(!same_text("RUNNING", "RUNNINg"));
    assert!(!same_text("a", ""));
    assert!(same_text("ação", "ação"));
}

#[test]
fn includes_is_contains() {
    let patterns = vec!["", "ERROR:", "ERROR: ", "R", "NG", "RUNNING", "x", "ã", "\n", "  "];
    for s in sample_texts() {
        for p in &patterns {
            assert_eq!(includes(s, p), s.contains(p), "{:?} in {:?}", p, s);
        }
    }
}

#[test]
fn includes_finds_a_pattern_at_either_end() {
    assert!(includes("ERROR: x", "ERROR:"));
    assert!(includes("x ERROR:", "ERROR:"));
    assert!(!includes("ERROR", "ERROR:"));
    assert!(!includes("", "ERROR:"));
    assert!(includes("", ""));
}

#[test]
fn replaced_is_replace() {
    let pairs = vec![
        ("ERROR: ", ""),
        ("SUCCESS: ", ""),
        ("'", "''"),
        ("->", "\\"),
        ("/", "\\"),
        ("aa", "b"),
        ("a", "aa"),
        ("", "-"),
        ("", ""),
        ("ç", "c"),
        (" ", ""),
    ];
    let mut texts = sample_texts();
    texts.push("aaa");
    texts.push("aaaa");
    texts.push("file:_C:/Users/ana->x");
    texts.push("it's o'clock ''");
    texts.push("ERROR: ERROR: ERROR:");
    for s in texts {
        for (from, to) in &pairs {
            assert_eq!(replaced(s, from, to), s.replace(from, to), "{:?} {:?} {:?}", s, from, to);
        }
    }
}

#[test]
fn replaced_takes_occurrences_from_the_left_without_overlap() {
    assert_eq!(replaced("aaa", "aa", "b"), "ba");
    assert_eq!(replaced("abab", "ab", "ba"), "baba");
    assert_eq!(replaced("abc", "", "-"), "-a-b-c-");
    assert_eq!(replaced("", "", "-"), "-");
    assert_eq!(replaced("abc", "abcd", "x"), "abc");
}

#[test]
fn read_unsigned_is_parse() {
    let texts = vec![
        "", "+", "-", "0", "+0", "-0", "5", "+5", "-5", "++5", "007", " 5", "5 ", "5\n", "1_000",
        "1,000", "1.0", "0x10", "１２", "٣", "4294967295", "4294967296", "+4294967295",
        "00000000004294967295", "18446744073709551615", "18446744073709551616",
        "99999999999999999999999999", "12a", "a12", "1 2",
    ];
    for s in texts {
        assert_eq!(
            read_unsigned(s, u32::MAX as u64),
            s.parse::<u32>().ok().map(|n| n as u64),
            "{:?} as u32",
            s
        );
        assert_eq!(read_unsigned(s, u64::MAX), s.parse::<u64>().ok(), "{:?} as u64", s);
        assert_eq!(read_or_zero(s, u64::MAX), s.parse::<u64>().unwrap_or(0), "{:?} or zero", s);
    }
}

#[test]
fn read_unsigned_keeps_within_any_bound() {
    assert_eq!(read_unsigned("10", 10), Some(10));
    assert_eq!(read_unsigned("11", 10), None);
    assert_eq!(read_unsigned("0", 0), Some(0));
    assert_eq!(read_unsigned("1", 0), None);
    assert_eq!(read_or_zero("11", 10), 0);
}

#[test]
fn decimal_text_is_to_string() {
    let numbers: Vec<u64> = vec![
        0, 1, 9, 10, 11, 99, 100, 101, 12345, 2147734096, 2147797489, 4294967295, 4294967296,
        9999999999999999999, 10000000000000000000, 18446744073709551615,
    ];
    for n in numbers {
        assert_eq!(decimal_text(n), n.to_string());
    }
}

#[test]
fn decimal_text_is_read_back() {
    let numbers: Vec<u64> = vec![0, 7, 10, 4294967295, 18446744073709551615];
    for n in numbers {
        assert_eq!(read_unsigned(&decimal_text(n), u64::MAX), Some(n));
    }
}

#[test]
fn decimal_text_writes_each_digit() {
    assert_eq!(decimal_text(1234567890), "1234567890");
    assert_eq!(decimal_text(9876543210), "9876543210");
}

#[test]
fn split_in_two_wants_exactly_one_separator() {
    assert_eq!(split_in_two("12|34", '|'), Some(("12", "34")));
    assert_eq!(split_in_two("|", '|'), Some(("", "")));
    assert_eq!(split_in_two("12|", '|'), Some(("12", "")));
    assert_eq!(split_in_two("|34", '|'), Some(("", "34")));
    assert_eq!(split_in_two("ação|é", '|'), Some(("ação", "é")));
    assert_eq!(split_in_two("", '|'), None);
    assert_eq!(split_in_two("1234", '|'), None);
    assert_eq!(split_in_two("1|2|3", '|'), None);
    assert_eq!(split_in_two("||", '|'), None);
}

#[test]
fn split_in_two_is_split_with_two_parts() {
    for s in vec!["", "a", "a|b", "a|b|c", "|", "||", "12|34\n", " | "] {
        let parts: Vec<&str> = s.split('|').collect();
        let expected = if parts.len() == 2 { Some((parts[0], parts[1])) } else { None };
        assert_eq!(split_in_two(s, '|'), expected, "{:?}", s);
    }
}
