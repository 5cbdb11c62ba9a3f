//! Text utilities, held against what the standard library does on the same inputs.

use rustwhy::utils::split::{join, lines, split, split_whitespace};
use rustwhy::utils::text::{
    cat2, cat3, cat4, cat5, char_is_ascii_letter, char_is_digit, char_is_space, chars_of, erase,
    str_contains, str_ends_with, str_eq, str_starts_with, text_of, trim, trim_end,
    trim_end_matches,
};

const SAMPLES: [&str; 14] = [
    "",
    " ",
    "a",
    "  hello world  ",
    "\t\ttabs\t",
    "line one\nline two\r\nline three",
    "trailing newline\n",
    "\n",
    "bare cr\r",
    "MemTotal:       16314356 kB",
    "\u{a0}no-break\u{3000}",
    "héllo wörld – ünïcode",
    "a,b,,c,",
    "x\u{2028}y\u{85}z",
];

#[test]
fn whitespace_matches_the_standard_library_on_every_char() {
    for code in 0u32..=0x10ffff {
        if let Some(c) = char::from_u32(code) {
            assert_eq!(char_is_space(c), c.is_whitespace(), "char {:#x}", code);
            assert_eq!(char_is_digit(c), c.is_ascii_digit(), "char {:#x}", code);
            assert_eq!(char_is_ascii_letter(c), c.is_ascii_alphabetic(), "char {:#x}", code);
        }
    }
}

#[test]
fn chars_round_trip() {
    for s in SAMPLES {
        let chars = chars_of(s);
        assert_eq!(chars, s.chars().collect::<Vec<char>>());
        assert_eq!(text_of(&chars, 0, chars.len()), s);
    }
    let chars = chars_of("hello");
    assert_eq!(text_of(&chars, 1, 3), "el");
    assert_eq!(text_of(&chars, 2, 2), "");
}

#[test]
fn trim_matches_the_standard_library() {
    for s in SAMPLES {
        assert_eq!(trim(s), s.trim(), "trim of {:?}", s);
        assert_eq!(trim_end(s), s.trim_end(), "trim_end of {:?}", s);
        assert_eq!(trim_end_matches(s, '\n'), s.trim_end_matches('\n'));
        assert_eq!(trim_end_matches(s, ':'), s.trim_end_matches(':'));
    }
    assert_eq!(trim_end_matches("eth0:::", ':'), "eth0");
    assert_eq!(trim("  \t "), "");
}

#[test]
fn lines_match_the_standard_library() {
    for s in SAMPLES {
        let expected: Vec<String> = s.lines().map(String::from).collect();
        assert_eq!(lines(s), expected, "lines of {:?}", s);
    }
    assert_eq!(lines("a\r\nb\n\nc\r"), vec!["a", "b", "", "c\r"]);
}

#[test]
fn words_match_the_standard_library() {
    for s in SAMPLES {
        let expected: Vec<String> = s.split_whitespace().map(String::from).collect();
        assert_eq!(split_whitespace(s), expected, "words of {:?}", s);
    }
}

#[test]
fn fields_match_the_standard_library() {
    for s in SAMPLES {
        for c in [',', ':', '=', ' '] {
            let expected: Vec<String> = s.split(c).map(String::from).collect();
            assert_eq!(split(s, c), expected, "fields of {:?} by {:?}", s, c);
        }
    }
    assert_eq!(split("", ','), vec![""]);
    assert_eq!(split("a,", ','), vec!["a", ""]);
}

#[test]
fn searching_matches_the_standard_library() {
    let needles = ["", "a", "lo", "world", "kB", "line", "\n", "zz", "héllo", " "];
    for s in SAMPLES {
        for n in needles {
            assert_eq!(str_contains(s, n), s.contains(n), "{:?} contains {:?}", s, n);
            assert_eq!(str_starts_with(s, n), s.starts_with(n), "{:?} starts {:?}", s, n);
            assert_eq!(str_ends_with(s, n), s.ends_with(n), "{:?} ends {:?}", s, n);
            assert_eq!(str_eq(s, n), s == n);
            assert_eq!(erase(s, n), s.replace(n, ""), "{:?} without {:?}", s, n);
        }
        assert!(str_eq(s, s));
    }
    assert_eq!(erase("temp1_input", "_input"), "temp1");
    assert_eq!(erase("aaa", "aa"), "a");
}

#[test]
fn joining_and_gluing() {
    let parts = vec!["ls".to_string(), "-l".to_string(), "/tmp".to_string()];
    assert_eq!(join(&parts, " "), "ls -l /tmp");
    assert_eq!(join(&parts, ", "), "ls, -l, /tmp");
    assert_eq!(join(&Vec::new(), ", "), "");
    assert_eq!(join(&vec!["one".to_string()], ", "), "one");
    assert_eq!(cat2("a", "b"), "ab");
    assert_eq!(cat3("a", "b", "c"), "abc");
    assert_eq!(cat4("a", "b", "c", "d"), "abcd");
    assert_eq!(cat5("a", "b", "c", "d", "e"), "abcde");
}
