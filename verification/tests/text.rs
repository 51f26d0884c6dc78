use taskmenu::text::{
    chars_of, fits_in, leading_fit, piece, push_decimal, push_spaces, split_dashes, split_lines,
    split_words, starts_with, text_precedes, trim, white_space,
};

const SAMPLES: [&str; 24] = [
    "",
    " ",
    "a",
    "buy milk",
    "  buy   milk  ",
    "\tbuy\nmilk\r\n",
    "task -- note",
    "task--",
    "--",
    "----",
    "a---b",
    "a -- b -- c",
    "-a-",
    "Created task 12.\n",
    "Created task 12.",
    "line one\nline two",
    "line one\r\nline two\r\n",
    "\n",
    "\r\n\r\n",
    "trailing return\r",
    "caf\u{e9} \u{a0}cr\u{e8}me\u{2003}br\u{fb}l\u{e9}e",
    "\u{3000}wide\u{3000}blank\u{3000}",
    "日本語 の タスク",
    "emoji 😀 task",
];

#[test]
fn white_space_is_what_std_calls_white_space() {
    let mut code: u32 = 0;
    while code <= 0x10ffff {
        if let Some(c) = char::from_u32(code) {
            assert_eq!(white_space(c), c.is_whitespace(), "U+{:04X}", code);
        }
        code += 1;
    }
}

#[test]
fn chars_of_gives_the_characters() {
    for s in SAMPLES {
        assert_eq!(chars_of(s), s.chars().collect::<Vec<char>>());
    }
}

#[test]
fn piece_counts_characters_not_bytes() {
    assert_eq!(piece("日本語 の", 1, 3), "本語");
    assert_eq!(piece("abc", 0, 0), "");
    assert_eq!(piece("abc", 3, 3), "");
    assert_eq!(piece("abc", 0, 3), "abc");
}

#[test]
fn split_words_agrees_with_split_whitespace() {
    for s in SAMPLES {
        let expected: Vec<String> = s.split_whitespace().map(|w| w.to_string()).collect();
        assert_eq!(split_words(s), expected, "{:?}", s);
    }
}

#[test]
fn split_words_of_blanks_is_empty() {
    assert!(split_words("").is_empty());
    assert!(split_words(" \t\n").is_empty());
}

#[test]
fn trim_agrees_with_std_trim() {
    for s in SAMPLES {
        assert_eq!(trim(s), s.trim(), "{:?}", s);
    }
}

#[test]
fn trim_of_blanks_is_empty() {
    assert_eq!(trim("   "), "");
    assert_eq!(trim(""), "");
    assert_eq!(trim(" x "), "x");
}

#[test]
fn split_dashes_agrees_with_split() {
    for s in SAMPLES {
        let expected: Vec<String> = s.split("--").map(|w| w.to_string()).collect();
        assert_eq!(split_dashes(s), expected, "{:?}", s);
    }
}

#[test]
fn split_dashes_takes_hyphens_from_the_left() {
    assert_eq!(split_dashes("a---b"), vec!["a", "-b"]);
    assert_eq!(split_dashes("----"), vec!["", "", ""]);
    assert_eq!(split_dashes(""), vec![""]);
    assert_eq!(split_dashes("a-b"), vec!["a-b"]);
}

#[test]
fn split_lines_agrees_with_lines() {
    for s in SAMPLES {
        let expected: Vec<String> = s.lines().map(|w| w.to_string()).collect();
        assert_eq!(split_lines(s), expected, "{:?}", s);
    }
}

#[test]
fn split_lines_keeps_a_bare_carriage_return() {
    assert_eq!(split_lines("foo\nbar\n\r\nbaz\r"), vec!["foo", "bar", "", "baz\r"]);
    assert_eq!(split_lines("a\n\nb"), vec!["a", "", "b"]);
    assert!(split_lines("").is_empty());
    assert_eq!(split_lines("\n"), vec![""]);
}

#[test]
fn starts_with_agrees_with_std() {
    for s in SAMPLES {
        for p in SAMPLES {
            assert_eq!(starts_with(s, p), s.starts_with(p), "{:?} {:?}", s, p);
        }
    }
}

#[test]
fn push_decimal_writes_the_number() {
    for n in [0u64, 1, 9, 10, 11, 99, 100, 101, 12345, 9_999_999_999, u64::MAX] {
        let mut out = String::from("n=");
        push_decimal(&mut out, n);
        assert_eq!(out, format!("n={}", n));
    }
}

#[test]
fn push_spaces_appends_blanks() {
    let mut out = String::from("x");
    push_spaces(&mut out, 0);
    assert_eq!(out, "x");
    push_spaces(&mut out, 3);
    assert_eq!(out, "x   ");
}

#[test]
fn fits_in_counts_bytes() {
    for s in SAMPLES {
        let cs: Vec<char> = s.chars().collect();
        for limit in [0usize, 1, 2, 3, 5, 8, 13, 21, 60] {
            assert_eq!(fits_in(&cs, limit), s.len() <= limit, "{:?} {}", s, limit);
        }
    }
}

#[test]
fn leading_fit_stops_at_a_character_boundary() {
    for s in SAMPLES {
        let cs: Vec<char> = s.chars().collect();
        for limit in [0usize, 1, 2, 3, 4, 5, 8, 13, 21, 57] {
            let k = leading_fit(&cs, limit);
            let head: String = cs[..k].iter().collect();
            assert!(head.len() <= limit);
            if k < cs.len() {
                assert!(head.len() + cs[k].len_utf8() > limit);
            }
            if s.len() >= limit && s.is_char_boundary(limit) {
                assert_eq!(head, &s[..limit]);
            }
        }
    }
}

#[test]
fn text_precedes_agrees_with_the_order_of_strings() {
    for a in SAMPLES {
        for b in SAMPLES {
            let ca: Vec<char> = a.chars().collect();
            let cb: Vec<char> = b.chars().collect();
            assert_eq!(text_precedes(&ca, &cb), a < b, "{:?} {:?}", a, b);
        }
    }
}

#[test]
fn pieces_joined_by_hyphens_are_the_text() {
    for s in SAMPLES {
        assert_eq!(split_dashes(s).join("--"), s);
        assert!(!split_dashes(s).is_empty());
    }
}

#[test]
fn words_are_never_empty_and_hold_no_white_space() {
    for s in SAMPLES {
        for word in split_words(s) {
            assert!(!word.is_empty());
            assert!(!word.chars().any(white_space));
        }
    }
}

#[test]
fn a_trimmed_text_has_no_white_space_at_its_ends() {
    for s in SAMPLES {
        let t = trim(s);
        if let (Some(first), Some(last)) = (t.chars().next(), t.chars().last()) {
            assert!(!white_space(first) && !white_space(last));
        }
        assert_eq!(trim(&t), t);
    }
}
