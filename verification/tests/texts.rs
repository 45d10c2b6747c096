//! Text against what the standard library does.

use rustyhip::text::{
    chars_of, contains, is_white, parse_i64, parse_natural, push_decimal, push_signed, same,
    text_of, to_lower, trim,
};

const SAMPLES: [&str; 14] = [
    "",
    " ",
    "abc",
    "ABC xyz",
    "\t\n mixed \r\n",
    "ÄÖÜ Straße",
    "\u{a0}\u{2003}wide\u{3000}",
    "ABCÀÉ[\\]^_`@Z{",
    "😀 emoji 😀",
    "password",
    "user_password_1",
    "\u{85}x\u{1680}",
    "aaab",
    "aab",
];

#[test]
fn lower_case_is_ascii_only() {
    for s in SAMPLES {
        assert_eq!(to_lower(s), s.to_ascii_lowercase());
    }
}

#[test]
fn trimming_takes_all_white_space() {
    for s in SAMPLES {
        assert_eq!(trim(s), s.trim());
    }
    for c in (0..=0x0010_ffff_u32).filter_map(char::from_u32) {
        assert_eq!(is_white(c), c.is_whitespace(), "{c:?}");
    }
}

#[test]
fn searching_finds_every_place() {
    for hay in SAMPLES {
        for needle in SAMPLES {
            assert_eq!(contains(hay, needle), hay.contains(needle), "{hay:?} {needle:?}");
            assert_eq!(same(hay, needle), hay == needle);
        }
    }
}

#[test]
fn characters_go_back_and_forth() {
    for s in SAMPLES {
        let chars = chars_of(s);
        assert_eq!(chars, s.chars().collect::<Vec<char>>());
        assert_eq!(text_of(&chars, 0, chars.len()), s);
    }
    assert_eq!(text_of(&chars_of("abcdef"), 1, 4), "bcd");
}

#[test]
fn integers_are_written_in_decimal() {
    for n in [0, 9, 10, 1_234_567_890, u128::from(u64::MAX), u128::MAX] {
        let mut out = "n=".to_owned();
        push_decimal(&mut out, n);
        assert_eq!(out, format!("n={n}"));
    }
    for n in [0, -1, 42, i128::from(i64::MIN), i128::MAX, i128::MIN] {
        let mut out = String::new();
        push_signed(&mut out, n);
        assert_eq!(out, n.to_string());
    }
}

#[test]
fn integers_are_read_as_the_standard_library_does() {
    let texts = [
        "", "+", "-", "0", "-0", "+0", "7", "+7", "-7", "007", "1 ", " 1", "1_000", "0x1", "1.0",
        "9223372036854775807", "9223372036854775808", "-9223372036854775808",
        "-9223372036854775809", "18446744073709551615", "18446744073709551616", "٣", "--1", "+-1",
        "00000000000000000000000000000000000000001", "99999999999999999999999999999999999999999",
    ];
    for t in texts {
        assert_eq!(parse_i64(t), t.parse::<i64>().ok(), "{t:?}");
        assert_eq!(parse_natural(t, u64::MAX), t.parse::<u64>().ok(), "{t:?}");
        assert_eq!(
            parse_natural(t, u64::from(u32::MAX)),
            t.parse::<u32>().ok().map(u64::from),
            "{t:?}"
        );
    }
}
