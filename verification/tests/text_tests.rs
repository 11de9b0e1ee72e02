//! The text toolbox: decimal rendering and parsing, search, splitting and
//! trimming.

use nc_data_export::text::{
    chars_of, contains_seq, find_first, i64_to_string, join_chars, lines_of, parse_i64, parse_u64,
    split_chars, str_eq, string_of, sub_chars, trim_char, trim_chars, trim_end_char,
    u64_to_string,
};

fn cv(s: &str) -> Vec<char> {
    chars_of(s)
}

#[test]
fn decimal_rendering_covers_the_edges() {
    assert_eq!(u64_to_string(0), "0");
    assert_eq!(u64_to_string(90210), "90210");
    assert_eq!(u64_to_string(u64::MAX), "18446744073709551615");
    assert_eq!(i64_to_string(0), "0");
    assert_eq!(i64_to_string(-1), "-1");
    assert_eq!(i64_to_string(i64::MAX), "9223372036854775807");
    assert_eq!(i64_to_string(i64::MIN), "-9223372036854775808");
}

#[test]
fn decimal_parsing_matches_the_standard_parser() {
    for text in [
        "0", "42", "-42", "+42", "007", "", "-", "+", "abc", "4 2", "9223372036854775807",
        "-9223372036854775808", "9223372036854775808", "-9223372036854775809",
        "00000000000000000000000000009",
    ] {
        let expected: Option<i64> = text.parse().ok();
        assert_eq!(parse_i64(&cv(text)), expected, "on {:?}", text);
    }
    for text in ["0", "+7", "18446744073709551615", "18446744073709551616", "-1", ""] {
        let expected: Option<u64> = text.parse().ok();
        assert_eq!(parse_u64(&cv(text)), expected, "on {:?}", text);
    }
}

#[test]
fn search_finds_first_occurrences() {
    assert_eq!(find_first(&cv("abcabc"), &cv("ca")), Some(2));
    assert_eq!(find_first(&cv("abcabc"), &cv("zz")), None);
    assert_eq!(find_first(&cv("abc"), &cv("")), Some(0));
    assert!(contains_seq(&cv("hello"), &cv("ell")));
    assert!(!contains_seq(&cv("hello"), &cv("elk")));
}

#[test]
fn splitting_and_joining_round_trip() {
    let parts = split_chars(&cv("a/bb//c"), '/');
    let texts: Vec<String> = parts.iter().map(|p| string_of(p)).collect();
    assert_eq!(texts, vec!["a", "bb", "", "c"]);
    assert_eq!(string_of(&join_chars(&parts, '/')), "a/bb//c");
    let single = split_chars(&cv(""), '/');
    assert_eq!(single.len(), 1);
    assert!(single[0].is_empty());
}

#[test]
fn lines_match_the_standard_iterator() {
    for text in ["a\nb", "a\r\nb\n", "", "\n", "one", "x\n\ny\r\n"] {
        let mine: Vec<String> = lines_of(&cv(text)).iter().map(|l| string_of(l)).collect();
        let std_lines: Vec<String> = text.lines().map(|l| l.to_string()).collect();
        assert_eq!(mine, std_lines, "on {:?}", text);
    }
}

#[test]
fn trimming_matches_the_standard_functions() {
    for text in ["  hi  ", "\t x\u{00A0}", "none", "", "   "] {
        assert_eq!(string_of(&trim_chars(&cv(text))), text.trim(), "on {:?}", text);
    }
    for text in ["\"quoted\"", "\"\"", "plain", "\"open"] {
        assert_eq!(
            string_of(&trim_char(&cv(text), '"')),
            text.trim_matches('"'),
            "on {:?}",
            text
        );
    }
    assert_eq!(trim_end_char("https://host///", '/'), "https://host");
    assert_eq!(trim_end_char("///", '/'), "");
}

#[test]
fn slices_and_equality_behave() {
    assert_eq!(string_of(&sub_chars(&cv("abcdef"), 2, 5)), "cde");
    assert!(str_eq("same", "same"));
    assert!(!str_eq("same", "sam"));
    assert!(!str_eq("same", "samq"));
}
