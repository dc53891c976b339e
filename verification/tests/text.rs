use ani_l::text::{
    chars_of, contains, eq_ignore_ascii_case, join, parse_i32, push_decimal,
    push_signed_decimal, push_range, replace,
};

#[test]
fn chars_round_trip() {
    for text in ["", "a", "hello", "ünïcödé 進撃 🎬"] {
        let chars = chars_of(text);
        assert_eq!(chars, text.chars().collect::<Vec<char>>());
        let mut copy = String::from(">");
        push_range(&mut copy, &chars, 0, chars.len());
        assert_eq!(copy, format!(">{}", text));
    }
}

#[test]
fn decimal_is_what_display_writes() {
    for n in [0u128, 1, 9, 10, 11, 99, 100, 101, 4294967295, 18446744073709551615, u128::MAX] {
        let mut out = String::from("n=");
        push_decimal(&mut out, n);
        assert_eq!(out, format!("n={}", n));
    }
    for n in [0i64, 1, -1, 10, -10, 2147483647, -2147483648, i64::MAX, i64::MIN] {
        let mut out = String::new();
        push_signed_decimal(&mut out, n);
        assert_eq!(out, format!("{}", n));
    }
}

#[test]
fn join_puts_the_separator_between() {
    let parts = |items: &[&str]| items.iter().map(|s| s.to_string()).collect::<Vec<String>>();
    assert_eq!(join(&parts(&[]), ","), "");
    assert_eq!(join(&parts(&["a"]), ","), "a");
    assert_eq!(join(&parts(&["a", "b", "c"]), ","), "a,b,c");
    assert_eq!(join(&parts(&["", "", ""]), ", "), ", , ");
    assert_eq!(join(&parts(&["a", "b"]), ""), "ab");
}

#[test]
fn parse_i32_agrees_with_the_standard_library() {
    let samples = [
        "", "0", "1", "-1", "+1", "-", "+", "--1", "+-1", "-+1", "12", "012", "0000000000012",
        "2147483647", "2147483648", "-2147483648", "-2147483649", "+2147483647", "+2147483648",
        "99999999999999999999999", "-99999999999999999999999", "1 ", " 1", "1_000", "1.0",
        "1e3", "0x10", "a", "١٢", "１２", "1\n", "-0", "+0", "00", "4294967296", "٣",
    ];
    for text in samples {
        assert_eq!(parse_i32(text), text.parse::<i32>().ok(), "{:?}", text);
    }
}

#[test]
fn parse_i32_reads_what_decimal_writes() {
    for n in [i32::MIN, -1000, -1, 0, 1, 7, 42, 1000, i32::MAX] {
        assert_eq!(parse_i32(&n.to_string()), Some(n));
    }
}

#[test]
fn contains_agrees_with_the_standard_library() {
    let texts = ["", "a", "abc", "aaa", "abcabc", "{\"errors\":[{\"message\":\"Not Found\"}]}"];
    let patterns = ["", "a", "b", "c", "ab", "bc", "abc", "abcd", "aa", "\"errors\"", "Not Found"];
    for text in texts {
        for pattern in patterns {
            assert_eq!(contains(text, pattern), text.contains(pattern), "{:?} in {:?}", pattern, text);
        }
    }
}

#[test]
fn replace_agrees_with_the_standard_library() {
    let texts = ["", "a", "clock", "/apivtwo/clock?id=1", "clockclock", "cloclock", "aaaa", "abab"];
    let patterns = ["clock", "a", "aa", "ab", "ba", "x", "clo", ""];
    let withs = ["clock.json", "", "a", "aa", "b"];
    for text in texts {
        for pattern in patterns {
            for with in withs {
                assert_eq!(
                    replace(text, pattern, with),
                    text.replace(pattern, with),
                    "{:?} {:?} {:?}",
                    text,
                    pattern,
                    with
                );
            }
        }
    }
}

#[test]
fn case_is_ignored_for_basic_letters_only() {
    let samples = [
        "", "youtube", "YouTube", "YOUTUBE", "youtubé", "YOUTUBÉ", "you", "y0utube", "Kelvin",
        "\u{212a}elvin",
    ];
    for a in samples {
        for b in samples {
            assert_eq!(eq_ignore_ascii_case(a, b), a.eq_ignore_ascii_case(b), "{:?} {:?}", a, b);
        }
    }
}
