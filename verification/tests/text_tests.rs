use optistor::text::{chars_of, concat_text, join_series, push_decimal, series_tokens, trim};

#[test]
fn trim_removes_unicode_white_space() {
    assert_eq!(trim("  abc \t\n"), "abc");
    assert_eq!(trim("\u{a0}x y\u{3000}"), "x y");
    assert_eq!(trim("   "), "");
    assert_eq!(trim(""), "");
}

#[test]
fn series_tokens_split_at_commas_and_white_space() {
    assert_eq!(series_tokens("1, 2,3\n4  5"), vec!["1", "2", "3", "4", "5"]);
    assert_eq!(series_tokens(",,, ,"), Vec::<String>::new());
    assert_eq!(series_tokens("a,b"), vec!["a", "b"]);
    assert_eq!(series_tokens(" x "), vec!["x"]);
}

#[test]
fn join_series_uses_comma_space() {
    assert_eq!(join_series(&vec![]), "");
    assert_eq!(join_series(&vec!["7".to_string()]), "7");
    assert_eq!(join_series(&vec!["1".to_string(), "2".to_string()]), "1, 2");
}

#[test]
fn decimal_text_of_numbers() {
    let mut s = String::from("n=");
    push_decimal(&mut s, 0);
    assert_eq!(s, "n=0");
    let mut s = String::new();
    push_decimal(&mut s, 502);
    assert_eq!(s, "502");
    let mut s = String::new();
    push_decimal(&mut s, u64::MAX);
    assert_eq!(s, u64::MAX.to_string());
}

#[test]
fn chars_and_concat() {
    assert_eq!(chars_of("añb"), vec!['a', 'ñ', 'b']);
    assert_eq!(concat_text("ab", "cd"), "abcd");
}
