use irclap::text::{split_whitespace, strip_prefix, trim_matches, trim_start_matches, CharClass};

const SAMPLES: [&str; 24] = [
    "",
    " ",
    "a",
    " a",
    "a ",
    "  a  b  ",
    "echo hello world",
    "\techo\thello\nworld\r\n",
    "one",
    "   ",
    "a\u{a0}b",
    "\u{3000}wide\u{3000}space\u{3000}",
    "\u{2003}em\u{2003}",
    "zero\u{200b}width",
    "gr\u{fc}\u{df}e dich",
    "::x::",
    ",,x,,",
    ":",
    "::::",
    ":,:",
    "x:y",
    " : ",
    "\u{1f600} smile \u{1f600}",
    "a  b\u{85}c\u{1680}d\u{2028}e\u{2029}f\u{202f}g\u{205f}h",
];

#[test]
fn split_whitespace_agrees_with_the_standard_library() {
    for s in SAMPLES {
        let expected: Vec<&str> = s.split_whitespace().collect();
        assert_eq!(split_whitespace(s), expected, "text {:?}", s);
    }
}

#[test]
fn split_whitespace_yields_words_in_order() {
    assert_eq!(split_whitespace("echo hello world"), vec!["echo", "hello", "world"]);
    assert_eq!(split_whitespace("  a \t b\n"), vec!["a", "b"]);
    assert_eq!(split_whitespace("one"), vec!["one"]);
    assert_eq!(split_whitespace(""), Vec::<&str>::new());
    assert_eq!(split_whitespace(" \t\n"), Vec::<&str>::new());
    assert_eq!(split_whitespace("a\u{a0}b"), vec!["a", "b"]);
    assert_eq!(split_whitespace("zero\u{200b}width"), vec!["zero\u{200b}width"]);
}

#[test]
fn trim_whitespace_agrees_with_the_standard_library() {
    for s in SAMPLES {
        assert_eq!(trim_matches(s, CharClass::Whitespace), s.trim(), "text {:?}", s);
    }
}

#[test]
fn trim_char_agrees_with_the_standard_library() {
    for s in SAMPLES {
        for c in [':', ',', ' ', 'a', '\u{3000}', '\u{1f600}'] {
            assert_eq!(
                trim_matches(s, CharClass::Exactly(c)),
                s.trim_matches(c),
                "text {:?} char {:?}",
                s,
                c
            );
        }
    }
}

#[test]
fn trim_removes_from_both_ends_only() {
    assert_eq!(trim_matches("::a:b::", CharClass::Exactly(':')), "a:b");
    assert_eq!(trim_matches("::::", CharClass::Exactly(':')), "");
    assert_eq!(trim_matches("", CharClass::Exactly(':')), "");
    assert_eq!(trim_matches("abc", CharClass::Exactly(':')), "abc");
    assert_eq!(trim_matches("  a b  ", CharClass::Whitespace), "a b");
    assert_eq!(trim_matches(" \t ", CharClass::Whitespace), "");
}

#[test]
fn trim_start_agrees_with_the_standard_library() {
    for s in SAMPLES {
        for c in [':', ',', ' ', 'a', '\u{3000}', '\u{1f600}'] {
            assert_eq!(
                trim_start_matches(s, CharClass::Exactly(c)),
                s.trim_start_matches(c),
                "text {:?} char {:?}",
                s,
                c
            );
        }
        assert_eq!(trim_start_matches(s, CharClass::Whitespace), s.trim_start(), "text {:?}", s);
    }
}

#[test]
fn trim_start_leaves_the_end() {
    assert_eq!(trim_start_matches("::a:b::", CharClass::Exactly(':')), "a:b::");
    assert_eq!(trim_start_matches("::::", CharClass::Exactly(':')), "");
    assert_eq!(trim_start_matches("", CharClass::Exactly(':')), "");
    assert_eq!(trim_start_matches("abc:", CharClass::Exactly(':')), "abc:");
    assert_eq!(trim_start_matches(" ,x", CharClass::Exactly(',')), " ,x");
    assert_eq!(trim_start_matches("  a b  ", CharClass::Whitespace), "a b  ");
}

#[test]
fn char_class_membership() {
    assert!(CharClass::Exactly(':').has(':'));
    assert!(!CharClass::Exactly(':').has(','));
    assert!(!CharClass::Exactly(':').has(' '));
    for c in [' ', '\t', '\n', '\r', '\u{b}', '\u{c}', '\u{85}', '\u{a0}', '\u{3000}'] {
        assert!(CharClass::Whitespace.has(c), "char {:?}", c);
    }
    for c in ['a', ':', ',', '0', '\u{200b}', '\u{0}', '_'] {
        assert!(!CharClass::Whitespace.has(c), "char {:?}", c);
    }
}

#[test]
fn whitespace_is_the_white_space_property() {
    let mut count = 0;
    for u in 0..=0x10FFFFu32 {
        let c = match char::from_u32(u) {
            Some(c) => c,
            None => continue,
        };
        let expected = matches!(
            u,
            0x09..=0x0D
                | 0x20
                | 0x85
                | 0xA0
                | 0x1680
                | 0x2000..=0x200A
                | 0x2028
                | 0x2029
                | 0x202F
                | 0x205F
                | 0x3000
        );
        assert_eq!(CharClass::Whitespace.has(c), expected, "U+{:04X}", u);
        if expected {
            count += 1;
        }
    }
    assert_eq!(count, 25);
}

#[test]
fn strip_prefix_agrees_with_the_standard_library() {
    let prefixes = ["", "a", " ", "echo", "::", ":", "gr\u{fc}", "\u{1f600}", "\u{3000}wide", "zz"];
    for s in SAMPLES {
        for p in prefixes {
            assert_eq!(strip_prefix(s, p), s.strip_prefix(p), "text {:?} prefix {:?}", s, p);
        }
    }
}

#[test]
fn strip_prefix_is_exact() {
    assert_eq!(strip_prefix("bot: hi", "bot"), Some(": hi"));
    assert_eq!(strip_prefix("bot", "bot"), Some(""));
    assert_eq!(strip_prefix("bo", "bot"), None);
    assert_eq!(strip_prefix("Bot: hi", "bot"), None);
    assert_eq!(strip_prefix("anything", ""), Some("anything"));
    assert_eq!(strip_prefix("", ""), Some(""));
    assert_eq!(strip_prefix("", "bot"), None);
}
