use rustedbot::text::chars::{
    str_eq, text, text_of, to_ascii_lower, to_chars, whitespace, word_char,
};
use rustedbot::text::edit::{join, lines, nth_line, replace, to_ascii_lowercase};
use rustedbot::text::number::{decimal, parse_u64};
use rustedbot::text::scan::{contains, find, starts_with};
use rustedbot::text::split::{
    cut, first_piece, split, split_tokens, split_whitespace, trim, Delimiter,
};

fn owned(parts: &[&str]) -> Vec<String> {
    parts.iter().map(|p| p.to_string()).collect()
}

const SAMPLES: [&str; 14] = [
    "",
    " ",
    "a",
    "a b c",
    "  a   b  ",
    "\ta\u{a0}b\u{2003}c\r\n",
    "l1\nl2\nl3\nl4\nForbiddenModuleError: require('fs')\n",
    "a\r\nb\n\nc",
    "a\nb\r",
    "\n",
    "\r\n\r\n",
    "twitch.user = bot # the account",
    "ol\u{e1} caml_bot, tudo bem?",
    "x\n\ny\n",
];

#[test]
fn whitespace_is_the_unicode_property() {
    for code in 0u32..=0x10FFFF {
        if let Some(c) = char::from_u32(code) {
            assert_eq!(whitespace(c), c.is_whitespace(), "U+{:04X}", code);
        }
    }
}

#[test]
fn ascii_lower_case_agrees_with_std() {
    for code in 0u32..=0x2FF {
        let c = char::from_u32(code).unwrap();
        assert_eq!(to_ascii_lower(c), c.to_ascii_lowercase());
    }
}

#[test]
fn word_chars_are_alphanumerics_and_underscore() {
    assert!(word_char('a'));
    assert!(word_char('Z'));
    assert!(word_char('7'));
    assert!(word_char('_'));
    assert!(word_char('\u{e1}'));
    assert!(!word_char(' '));
    assert!(!word_char('-'));
    assert!(!word_char('!'));
}

#[test]
fn chars_and_back() {
    assert_eq!(to_chars("h\u{e9}llo"), vec!['h', '\u{e9}', 'l', 'l', 'o']);
    assert_eq!(to_chars(""), Vec::<char>::new());
    let cs = to_chars("h\u{e9}llo");
    assert_eq!(text(&cs), "h\u{e9}llo");
    assert_eq!(text_of(&cs, 1, 3), "\u{e9}l");
    assert_eq!(text_of(&cs, 2, 2), "");
    assert_eq!(text_of(&cs, 0, 5), "h\u{e9}llo");
}

#[test]
fn equal_texts() {
    assert!(str_eq("", ""));
    assert!(str_eq("abc", "abc"));
    assert!(!str_eq("abc", "abd"));
    assert!(!str_eq("abc", "ab"));
}

#[test]
fn find_counts_characters() {
    assert_eq!(find("hello", "l"), Some(2));
    assert_eq!(find("h\u{e9}llo", "l"), Some(2));
    assert_eq!(find("hello", "lo"), Some(3));
    assert_eq!(find("hello", "x"), None);
    assert_eq!(find("hello", ""), Some(0));
    assert_eq!(find("", ""), Some(0));
    assert_eq!(find("", "a"), None);
    assert_eq!(find("ab", "abc"), None);
    assert_eq!(find("aab", "ab"), Some(1));
}

#[test]
fn contains_agrees_with_std() {
    for s in SAMPLES {
        for p in ["", " ", "a", "b\n", "l4\nF", "\r\n", "bot", "zzz"] {
            assert_eq!(contains(s, p), s.contains(p), "{:?} in {:?}", p, s);
            assert_eq!(starts_with(s, p), s.starts_with(p), "{:?} starts {:?}", p, s);
        }
    }
}

#[test]
fn split_keeps_empty_parts() {
    assert_eq!(split("a,b,,c", ','), owned(&["a", "b", "", "c"]));
    assert_eq!(split("", ','), owned(&[""]));
    assert_eq!(split(",", ','), owned(&["", ""]));
    assert_eq!(split("abc", ','), owned(&["abc"]));
    assert_eq!(split("a=b", '='), owned(&["a", "b"]));
}

#[test]
fn split_agrees_with_std() {
    for s in SAMPLES {
        for c in [' ', '\n', '=', '#', 'a'] {
            let expected: Vec<String> = s.split(c).map(|p| p.to_string()).collect();
            assert_eq!(split(s, c), expected, "{:?} at {:?}", s, c);
        }
    }
}

#[test]
fn split_whitespace_agrees_with_std() {
    for s in SAMPLES {
        let expected: Vec<String> = s.split_whitespace().map(|p| p.to_string()).collect();
        assert_eq!(split_whitespace(s), expected, "{:?}", s);
    }
    assert_eq!(split_whitespace("  a   b  "), owned(&["a", "b"]));
    assert_eq!(split_whitespace(" \t "), Vec::<String>::new());
}

#[test]
fn tokens_between_characters_that_are_no_word_characters() {
    assert_eq!(
        split_tokens("oi, caml_bot! tudo-bem?", Delimiter::NonWord),
        owned(&["oi", "caml_bot", "tudo", "bem"])
    );
    assert_eq!(split_tokens("...", Delimiter::NonWord), Vec::<String>::new());
    assert_eq!(split_tokens("ol\u{e1}", Delimiter::NonWord), owned(&["ol\u{e1}"]));
    assert_eq!(split_tokens("a b", Delimiter::Whitespace), owned(&["a", "b"]));
    for s in SAMPLES {
        let expected: Vec<String> = s
            .split(|c: char| !c.is_alphanumeric() && c != '_')
            .filter(|w| !w.is_empty())
            .map(|w| w.to_string())
            .collect();
        assert_eq!(split_tokens(s, Delimiter::NonWord), expected, "{:?}", s);
    }
}

#[test]
fn trim_agrees_with_std() {
    for s in SAMPLES {
        assert_eq!(trim(s), s.trim(), "{:?}", s);
    }
    assert_eq!(trim("  a b \n"), "a b");
    assert_eq!(trim(" \t "), "");
    assert_eq!(trim(""), "");
}

#[test]
fn cut_at_the_first_separator() {
    assert_eq!(cut("greet hi there", ' '), ("greet".to_string(), "hi there".to_string()));
    assert_eq!(cut("greet", ' '), ("greet".to_string(), "".to_string()));
    assert_eq!(cut(" greet", ' '), ("".to_string(), "greet".to_string()));
    assert_eq!(cut("", ' '), ("".to_string(), "".to_string()));
    assert_eq!(first_piece("alice bob", ' '), "alice");
    assert_eq!(first_piece("alice", ' '), "alice");
    assert_eq!(first_piece(" alice", ' '), "");
    for s in SAMPLES {
        let mut parts = s.splitn(2, ' ');
        let head = parts.next().unwrap_or("");
        let tail = parts.next().unwrap_or("");
        assert_eq!(cut(s, ' '), (head.to_string(), tail.to_string()), "{:?}", s);
    }
}

#[test]
fn lines_agree_with_std() {
    for s in SAMPLES {
        let expected: Vec<String> = s.lines().map(|l| l.to_string()).collect();
        assert_eq!(lines(s), expected, "{:?}", s);
        for n in 0..7 {
            assert_eq!(nth_line(s, n), s.lines().nth(n).map(|l| l.to_string()), "{:?} {}", s, n);
        }
    }
    assert_eq!(lines("a\r\nb\n"), owned(&["a", "b"]));
    assert_eq!(lines("a\nb\r"), owned(&["a", "b\r"]));
    assert_eq!(lines(""), Vec::<String>::new());
    assert_eq!(lines("\n"), owned(&[""]));
}

#[test]
fn join_puts_the_separator_between() {
    assert_eq!(join(&owned(&[]), ", "), "");
    assert_eq!(join(&owned(&["a"]), ", "), "a");
    assert_eq!(join(&owned(&["a", "b", "c"]), ", "), "a, b, c");
    assert_eq!(join(&owned(&["", ""]), "-"), "-");
}

#[test]
fn replace_agrees_with_std() {
    for s in SAMPLES {
        for (p, w) in [(" ", "+"), ("\n", ". "), ("a", ""), ("l4\nF", "X"), ("\r\n", "\n")] {
            assert_eq!(replace(s, p, w), s.replace(p, w), "{:?} {:?} {:?}", s, p, w);
        }
    }
    assert_eq!(replace("a b c", " ", "+"), "a+b+c");
    assert_eq!(replace("aaa", "aa", "b"), "ba");
    assert_eq!(replace("oi @{{sender}}", "{{sender}}", "bob"), "oi @bob");
    assert_eq!(replace("https://x.y/card?", "?", ""), "https://x.y/card");
}

#[test]
fn an_empty_pattern_occurs_nowhere_in_replace() {
    assert_eq!(replace("abc", "", "-"), "abc");
}

#[test]
fn lower_case_agrees_with_std() {
    for s in SAMPLES {
        assert_eq!(to_ascii_lowercase(s), s.to_ascii_lowercase());
    }
    assert_eq!(to_ascii_lowercase("OCaml \u{c9}"), "ocaml \u{c9}");
}

#[test]
fn decimal_notation() {
    assert_eq!(decimal(0), "0");
    assert_eq!(decimal(7), "7");
    assert_eq!(decimal(10), "10");
    assert_eq!(decimal(1234567890), "1234567890");
    assert_eq!(decimal(u64::MAX), "18446744073709551615");
}

#[test]
fn parse_agrees_with_std() {
    for s in [
        "", "0", "7", "007", "+5", "+", "-1", "-0", "1 ", " 1", "12a", "60",
        "18446744073709551615", "18446744073709551616", "99999999999999999999999", "++1", "1+",
        "\u{663}",
    ] {
        assert_eq!(parse_u64(s), s.parse::<u64>().ok(), "{:?}", s);
    }
    assert_eq!(parse_u64("60"), Some(60));
    assert_eq!(parse_u64("+5"), Some(5));
    assert_eq!(parse_u64("18446744073709551615"), Some(u64::MAX));
    assert_eq!(parse_u64("18446744073709551616"), None);
}

#[test]
fn decimal_and_parse_are_inverse() {
    for n in [0u64, 1, 9, 10, 99, 100, 12345, u64::MAX - 1, u64::MAX] {
        assert_eq!(parse_u64(&decimal(n)), Some(n));
    }
}
