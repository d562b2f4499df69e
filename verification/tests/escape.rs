use std::collections::VecDeque;

use cucumber_expressions::expand::escape::EscapeForRegex;
use cucumber_expressions::expand::skip_last::SkipLast;

fn escaped(text: &str) -> String {
    let mut stream = EscapeForRegex::new(text.chars().collect());
    let mut out = String::new();
    while let Some(c) = stream.next() {
        out.push(c);
    }
    assert_eq!(stream.next(), None);
    out
}

fn without_last<T>(items: Vec<T>) -> Vec<T> {
    let mut stream = SkipLast::new(VecDeque::from(items));
    let mut out = Vec::new();
    while let Some(item) = stream.next() {
        out.push(item);
    }
    assert!(stream.next().is_none());
    out
}

#[test]
fn escapes_and_removes_backslashes() {
    assert_eq!(escaped("\\\\text\\ (\\)\\"), "\\\\text \\(\\)");
}

#[test]
fn escaped_text_is_not_escaped_again() {
    assert_eq!(escaped(r"a\(\)"), r"a\(\)");
    assert_eq!(escaped(&escaped(r"a\(\)")), r"a\(\)");
    assert_eq!(escaped(&escaped("1+1=2?")), escaped("1+1=2?"));
}

#[test]
fn every_metacharacter_gets_a_backslash() {
    for c in "^$[](){}.|?*+".chars() {
        assert_eq!(escaped(&c.to_string()), format!("\\{}", c));
        assert_eq!(escaped(&format!("a{}b", c)), format!("a\\{}b", c));
    }
    assert_eq!(escaped("^$[](){}.|?*+"), r"\^\$\[\]\(\)\{\}\.\|\?\*\+");
}

#[test]
fn escaped_metacharacter_is_kept_once() {
    for c in "^$[]()\\{}.|?*+".chars() {
        assert_eq!(escaped(&format!("\\{}", c)), format!("\\{}", c));
    }
}

#[test]
fn backslash_before_other_characters_is_dropped() {
    assert_eq!(escaped(r"\a"), "a");
    assert_eq!(escaped(r"\ "), " ");
    assert_eq!(escaped(r"a\b\c"), "abc");
    assert_eq!(escaped(r"\\\a"), r"\\a");
}

#[test]
fn backslash_at_the_end_is_dropped() {
    assert_eq!(escaped("\\"), "");
    assert_eq!(escaped("a\\"), "a");
    assert_eq!(escaped("\\\\\\"), "\\\\");
}

#[test]
fn other_text_is_kept() {
    assert_eq!(escaped(""), "");
    assert_eq!(escaped("I have 42 cucumbers"), "I have 42 cucumbers");
    assert_eq!(escaped("Привет, Мир!"), "Привет, Мир!");
}

#[test]
fn last_item_is_skipped() {
    assert_eq!(without_last(vec![1, 2, 3]), vec![1, 2]);
    assert_eq!(without_last(vec!['a', '|']), vec!['a']);
    assert_eq!(without_last(vec!["only"]), Vec::<&str>::new());
    assert_eq!(without_last(Vec::<u8>::new()), Vec::<u8>::new());
}

#[test]
fn text_is_escaped_in_parts() {
    for first in ["", "a(", r"\(", r"\\", r"x\y"] {
        for second in ["", "(b", r"\b", r"\", r"\."] {
            assert_eq!(
                escaped(&format!("{}{}", first, second)),
                format!("{}{}", escaped(first), escaped(second)),
            );
        }
    }

    // A `\` at the end of the first part escapes what the second begins with.
    assert_eq!(escaped(r"\\"), r"\\");
    assert_eq!(format!("{}{}", escaped(r"\"), escaped(r"\")), "");
}

#[test]
fn copy_of_a_stream_goes_on_where_the_stream_is() {
    let mut stream = EscapeForRegex::new("(a)".chars().collect());
    assert_eq!(stream.next(), Some('\\'));

    let mut copy = stream.clone();
    for expected in [Some('('), Some('a'), Some('\\'), Some(')'), None] {
        assert_eq!(stream.next(), expected);
        assert_eq!(copy.next(), expected);
    }
}

#[test]
fn copy_of_a_stream_without_last() {
    let mut stream = SkipLast::new(VecDeque::from(vec![1, 2, 3]));
    assert_eq!(stream.next(), Some(1));

    let mut copy = stream.clone();
    assert_eq!(stream.next(), Some(2));
    assert_eq!(stream.next(), None);
    assert_eq!(copy.next(), Some(2));
    assert_eq!(copy.next(), None);
}
