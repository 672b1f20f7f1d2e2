use hira_typist::matcher::longest_correct_prefix;

fn chars(s: &str) -> Vec<char> {
    s.chars().collect()
}

#[test]
fn prefix_stops_at_first_mismatch() {
    assert_eq!(longest_correct_prefix(&chars("abx"), &chars("abc")), 2);
    assert_eq!(longest_correct_prefix(&chars("xbc"), &chars("abc")), 0);
}

#[test]
fn prefix_of_empty_input_is_zero() {
    assert_eq!(longest_correct_prefix(&chars(""), &chars("abc")), 0);
}

#[test]
fn prefix_of_empty_phrase_is_zero() {
    assert_eq!(longest_correct_prefix(&chars("abc"), &chars("")), 0);
}

#[test]
fn prefix_of_equal_sequences_is_full_length() {
    assert_eq!(longest_correct_prefix(&chars("hello"), &chars("hello")), 5);
}

#[test]
fn prefix_caps_at_phrase_length_when_input_is_longer() {
    assert_eq!(longest_correct_prefix(&chars("abcd"), &chars("ab")), 2);
}

#[test]
fn prefix_counts_characters_not_bytes() {
    // Multi-byte script: each character counts once.
    assert_eq!(
        longest_correct_prefix(&chars("こんx"), &chars("こんにちは")),
        2
    );
    assert_eq!(
        longest_correct_prefix(&chars("こんにちは"), &chars("こんにちは")),
        5
    );
}

#[test]
fn prefix_never_exceeds_either_length() {
    let cases = [("", ""), ("a", "ab"), ("abc", "ab"), ("xyz", "abc"), ("abc", "abc")];
    for (i, p) in cases {
        let k = longest_correct_prefix(&chars(i), &chars(p));
        assert!(k <= i.chars().count());
        assert!(k <= p.chars().count());
    }
}

#[test]
fn prefix_is_monotone_under_appends_until_mismatch() {
    let phrase = chars("abcd");
    let mut input: Vec<char> = Vec::new();
    let mut last: usize = 0;
    for c in ['a', 'b', 'x', 'y'] {
        input.push(c);
        let k = longest_correct_prefix(&input, &phrase);
        assert!(k >= last);
        last = k;
    }
    // The mismatch at 'x' froze the prefix at 2.
    assert_eq!(last, 2);
}
