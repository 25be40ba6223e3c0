use livetiming::text::{
    chars_of, contains, lowered_chars, matches_lowered, parse_i32, push_decimal, push_digits,
    push_text,
};

fn chars(s: &str) -> Vec<char> {
    s.chars().collect()
}

#[test]
fn characters_of_a_text() {
    assert_eq!(chars_of(""), Vec::<char>::new());
    assert_eq!(chars_of("Race"), vec!['R', 'a', 'c', 'e']);
    assert_eq!(chars_of("São"), vec!['S', 'ã', 'o']);
}

#[test]
fn lower_cased_characters() {
    assert_eq!(lowered_chars("MONACO Grand prix 1"), chars("monaco grand prix 1"));
    assert_eq!(lowered_chars("ÉMILIE"), chars("émilie"));
    assert_eq!(lowered_chars(""), chars(""));
    assert_eq!(lowered_chars("İ"), chars("i\u{307}"));
}

#[test]
fn containment_agrees_with_std() {
    let texts = ["", "a", "ab", "aab", "abab", "monaco grand prix", "aaa", "ba", "b", "prix", "x"];
    for hay in texts {
        for needle in texts {
            assert_eq!(
                contains(&chars(hay), &chars(needle)),
                hay.contains(needle),
                "{:?} in {:?}",
                needle,
                hay
            );
        }
    }
}

#[test]
fn containment_at_the_edges() {
    assert!(contains(&chars("practice 1"), &chars("practice")));
    assert!(contains(&chars("practice 1"), &chars("1")));
    assert!(contains(&chars("practice 1"), &chars("practice 1")));
    assert!(!contains(&chars("practice 1"), &chars("practice 12")));
    assert!(!contains(&chars("practice 1"), &chars("2")));
    assert!(contains(&chars("aab"), &chars("ab")));
}

#[test]
fn matches_a_lowered_query() {
    assert!(matches_lowered("Monaco Grand Prix", &chars("monaco")));
    assert!(!matches_lowered("Monaco Grand Prix", &chars("Monaco")));
}

#[test]
fn reads_integers() {
    assert_eq!(parse_i32("0"), Some(0));
    assert_eq!(parse_i32("-0"), Some(0));
    assert_eq!(parse_i32("+0"), Some(0));
    assert_eq!(parse_i32("2023"), Some(2023));
    assert_eq!(parse_i32("-17"), Some(-17));
    assert_eq!(parse_i32("0000000000000042"), Some(42));
    assert_eq!(parse_i32("2147483647"), Some(i32::MAX));
    assert_eq!(parse_i32("-2147483648"), Some(i32::MIN));
    assert_eq!(parse_i32("+2147483647"), Some(i32::MAX));
}

#[test]
fn reading_integers_agrees_with_std() {
    for text in [
        "", "+", "-", "1", "-1", "+1", "--1", "1-", "12a", "a12", " 1", "1 ", "1.5", "1e3",
        "2147483647", "2147483648", "-2147483648", "-2147483649", "4294967296",
        "99999999999999999999999", "-99999999999999999999999", "00", "-00012", "٣", "１２",
    ] {
        assert_eq!(parse_i32(text), text.parse::<i32>().ok(), "{:?}", text);
    }
}

#[test]
fn appends_numerals() {
    let mut out = String::from("n=");
    push_digits(&mut out, 0);
    push_text(&mut out, ",");
    push_digits(&mut out, 9);
    push_text(&mut out, ",");
    push_digits(&mut out, 10);
    push_text(&mut out, ",");
    push_digits(&mut out, 1234567890);
    push_text(&mut out, ",");
    push_digits(&mut out, u64::MAX);
    assert_eq!(out, "n=0,9,10,1234567890,18446744073709551615");
}

#[test]
fn appends_signed_numerals() {
    let mut out = String::new();
    push_decimal(&mut out, -1);
    push_text(&mut out, " ");
    push_decimal(&mut out, 0);
    push_text(&mut out, " ");
    push_decimal(&mut out, i64::MAX);
    push_text(&mut out, " ");
    push_decimal(&mut out, i64::MIN);
    assert_eq!(out, "-1 0 9223372036854775807 -9223372036854775808");
    for n in [-100i64, -99, -11, -10, -9, 5, 99, 100, 101, 2018, 2147483647] {
        let mut text = String::new();
        push_decimal(&mut text, n);
        assert_eq!(text, n.to_string());
    }
}
