use gear_connector::text::{
    append_chars, chars_of, copy_range, find, matches_at, parse_capped, parse_u32, push_decimal,
    same_text, split, starts_with, string_of, to_string,
};

fn chars(s: &str) -> Vec<char> {
    s.chars().collect()
}

#[test]
fn characters_go_in_and_out_of_strings() {
    assert_eq!(chars_of("aé:"), vec!['a', 'é', ':']);
    assert_eq!(chars_of(""), Vec::<char>::new());
    assert_eq!(to_string(&chars("grüß")), "grüß");
    assert_eq!(string_of(&chars("hello"), 1, 3), "el");
    assert_eq!(string_of(&chars("hello"), 2, 2), "");
    assert_eq!(copy_range(&chars("hello"), 3, 5), chars("lo"));
    let mut out = String::from("ab");
    append_chars(&mut out, &chars("cd"));
    assert_eq!(out, "abcd");
}

#[test]
fn a_pattern_is_found_where_it_first_stands() {
    let text = chars("a:>>b:>>c");
    let mark = chars(":>>");
    assert!(matches_at(&text, &mark, 1));
    assert!(!matches_at(&text, &mark, 0));
    assert!(!matches_at(&text, &mark, 7));
    assert!(!matches_at(&text, &mark, 100));
    assert_eq!(find(&text, &mark, 0), Some(1));
    assert_eq!(find(&text, &mark, 2), Some(5));
    assert_eq!(find(&text, &mark, 6), None);
    assert_eq!(find(&text, &chars(""), 9), Some(9));
    assert!(starts_with(&text, &chars("a:")));
    assert!(starts_with(&text, &chars("")));
    assert!(!starts_with(&text, &chars("b")));
    assert!(!starts_with(&chars("a"), &chars("ab")));
    assert!(same_text(&chars("ab"), &chars("ab")));
    assert!(!same_text(&chars("ab"), &chars("abc")));
    assert!(!same_text(&chars("ab"), &chars("ac")));
}

#[test]
fn text_is_split_at_every_delimiter() {
    let pieces = |text: &str, mark: &str| -> Vec<String> {
        split(&chars(text), &chars(mark)).iter().map(|p| p.iter().collect()).collect()
    };
    assert_eq!(pieces("a:b::c", ":"), vec!["a", "b", "", "c"]);
    assert_eq!(pieces(":", ":"), vec!["", ""]);
    assert_eq!(pieces("", ":"), vec![""]);
    assert_eq!(pieces("abc", ":"), vec!["abc"]);
    assert_eq!(pieces("aaa", "aa"), vec!["", "a"]);
    assert_eq!(pieces("x:>>y:>", ":>>"), vec!["x", "y:>"]);
    assert_eq!(pieces("abc", ""), vec!["abc"]);
}

#[test]
fn numbers_are_read_in_decimal() {
    assert_eq!(parse_u32(&chars("0")), Some(0));
    assert_eq!(parse_u32(&chars("42")), Some(42));
    assert_eq!(parse_u32(&chars("+42")), Some(42));
    assert_eq!(parse_u32(&chars("00042")), Some(42));
    assert_eq!(parse_u32(&chars("4294967295")), Some(4294967295));
    assert_eq!(parse_u32(&chars("4294967296")), None);
    assert_eq!(parse_u32(&chars("99999999999999999999999999")), None);
    assert_eq!(parse_u32(&chars("")), None);
    assert_eq!(parse_u32(&chars("+")), None);
    assert_eq!(parse_u32(&chars("-1")), None);
    assert_eq!(parse_u32(&chars("1 ")), None);
    assert_eq!(parse_u32(&chars("४२")), None);
    assert_eq!(parse_u32(&chars("++1")), None);
}

#[test]
fn large_numbers_are_capped() {
    assert_eq!(parse_capped(&chars("17"), 100), Some(17));
    assert_eq!(parse_capped(&chars("100"), 100), Some(100));
    assert_eq!(parse_capped(&chars("101"), 100), Some(100));
    assert_eq!(parse_capped(&chars("99999999999999999999999999"), 5), Some(5));
    assert_eq!(parse_capped(&chars("7"), 0), Some(0));
    assert_eq!(parse_capped(&chars("0"), 0), Some(0));
    assert_eq!(parse_capped(&chars("18446744073709551615"), u64::MAX), Some(u64::MAX));
    assert_eq!(parse_capped(&chars("18446744073709551616"), u64::MAX), Some(u64::MAX));
    assert_eq!(parse_capped(&chars("1000x"), 5), None);
    assert_eq!(parse_capped(&chars(""), 5), None);
}

#[test]
fn numbers_are_written_without_leading_zeros() {
    let written = |n: u64| -> String {
        let mut out = String::new();
        push_decimal(&mut out, n);
        out
    };
    assert_eq!(written(0), "0");
    assert_eq!(written(7), "7");
    assert_eq!(written(10), "10");
    assert_eq!(written(1234567890), "1234567890");
    assert_eq!(written(u64::MAX), "18446744073709551615");
    let mut out = String::from("n=");
    push_decimal(&mut out, 305);
    assert_eq!(out, "n=305");
}
