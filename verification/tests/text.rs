//! The parts of text that the rest is made of, against those of std.

use gnosis_vpn_update::text::{
    decimal_text, join, lines, one_line, parse_number, same_text, split, strip_prefix, trim, CharClass,
};

const SAMPLES: [&str; 16] = [
    "",
    " ",
    "a",
    " a b ",
    "\ta\u{a0}\n",
    "a\nb",
    "a\r\nb\r\n",
    "\n\n",
    "\r",
    "a\r",
    "\u{2003}x\u{3000}",
    "1.2-3+4",
    "...",
    "\"'x'\"",
    "über—",
    "\u{85}\u{1680}",
];

#[test]
fn white_space_is_that_of_unicode() {
    for c in '\0'..=char::MAX {
        assert_eq!(CharClass::WhiteSpace.contains(c), c.is_whitespace(), "{c:?}");
    }
}

#[test]
fn trimming_is_that_of_std() {
    for s in SAMPLES {
        assert_eq!(trim(s, CharClass::WhiteSpace), s.trim(), "{s:?}");
        assert_eq!(trim(s, CharClass::Only('"')), s.trim_matches('"'), "{s:?}");
        assert_eq!(trim(s, CharClass::Only('.')), s.trim_matches('.'), "{s:?}");
    }
}

#[test]
fn splitting_is_that_of_std() {
    for s in SAMPLES {
        let std: Vec<&str> = s.split(['.', '-', '+']).collect();
        assert_eq!(split(s, CharClass::VersionSeparator), std, "{s:?}");
        let std: Vec<&str> = s.split('\n').collect();
        assert_eq!(split(s, CharClass::Only('\n')), std, "{s:?}");
        let std: Vec<&str> = s.lines().collect();
        assert_eq!(lines(s), std, "{s:?}");
    }
}

#[test]
fn prefixes_are_those_of_std() {
    for s in SAMPLES {
        for prefix in ["", "a", " ", "\"", "ü", "a\n"] {
            assert_eq!(strip_prefix(s, prefix), s.strip_prefix(prefix), "{s:?} {prefix:?}");
        }
        for other in SAMPLES {
            assert_eq!(same_text(s, other), s == other);
        }
    }
}

#[test]
fn numbers_are_read_and_written() {
    for n in [0u64, 1, 9, 10, 1234567890, u64::MAX] {
        assert_eq!(decimal_text(n), n.to_string());
        assert_eq!(parse_number(&n.to_string()), Some(n));
    }
    assert_eq!(parse_number(""), None);
    assert_eq!(parse_number("1a"), None);
    assert_eq!(parse_number("007"), Some(7));
    assert_eq!(parse_number("18446744073709551616"), None);
    assert_eq!(parse_number("000000000000000000000000000001"), Some(1));
}

#[test]
fn one_line_has_spaces_for_line_ends() {
    for s in SAMPLES {
        assert_eq!(one_line(s), s.replace('\n', " "), "{s:?}");
    }
}

#[test]
fn joining_is_that_of_std() {
    for parts in [vec![], vec!["a"], vec!["a", "b"], vec!["", "", "x"]] {
        let owned: Vec<String> = parts.iter().map(|p| p.to_string()).collect();
        assert_eq!(join(&owned, "\n"), parts.join("\n"));
    }
}
