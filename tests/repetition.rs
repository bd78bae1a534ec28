use parser_combinators::filter::FilterError;
use parser_combinators::func::AsParser;
use parser_combinators::prelude::util;
use parser_combinators::repeat::collections::{Collection, Counter};
use parser_combinators::repeat::{FoundZero, RangeError};
use parser_combinators::{Parser, ParserMut, ParserOnce};

#[derive(Debug, Clone, Copy, PartialEq, Eq)]
struct EmptyInput;

fn any_char(s: &str) -> (&str, Result<char, EmptyInput>) {
    match s.chars().next() {
        Some(c) => (&s[c.len_utf8()..], Ok(c)),
        None => (s, Err(EmptyInput)),
    }
}

fn letter_a() -> impl for<'a> Parser<&'a str, Output = char, Error = FilterError<EmptyInput>> {
    any_char.as_parser().filter(|c: &char| *c == 'a')
}

#[test]
fn zero_or_more_counts_consecutive_matches() {
    let p = letter_a().zero_or_more(util::count);
    assert_eq!(p.parse("aaab"), ("b", Ok(Counter(3))));
    assert_eq!(p.parse("baaa"), ("baaa", Ok(Counter(0))));
    assert_eq!(p.parse(""), ("", Ok(Counter(0))));
}

#[test]
fn zero_or_more_collects_in_order() {
    let p = any_char.as_parser().filter(|c: &char| c.is_ascii_digit()).zero_or_more(String::new);
    assert_eq!(p.parse("123x"), ("x", Ok(String::from("123"))));
    let q = any_char.as_parser().zero_or_more(Vec::new);
    assert_eq!(q.parse("xyz"), ("", Ok(vec!['x', 'y', 'z'])));
    let mut r = letter_a().zero_or_more(util::ignore);
    assert_eq!(r.parse_mut("aab"), ("b", Ok(())));
    assert_eq!(letter_a().zero_or_more(Vec::new).parse_once("ab"), ("b", Ok(vec!['a'])));
}

#[test]
fn zero_or_more_stops_after_last_success_even_if_failure_consumed() {
    // This rule consumes a character before failing on anything but 'a'.
    fn eager_a(s: &str) -> (&str, Result<char, ()>) {
        match any_char(s) {
            (rest, Ok('a')) => (rest, Ok('a')),
            (rest, _) => (rest, Err(())),
        }
    }
    let p = eager_a.as_parser().zero_or_more(util::count);
    assert_eq!(p.parse("aab"), ("b", Ok(Counter(2))));
}

#[test]
fn one_or_more_fails_on_zero_matches_without_consuming() {
    let p = letter_a().one_or_more(Vec::new);
    assert_eq!(p.parse("bbb"), ("bbb", Err(FoundZero)));
    assert_eq!(p.parse(""), ("", Err(FoundZero)));
}

#[test]
fn one_or_more_behaves_like_zero_or_more_otherwise() {
    let p = letter_a().one_or_more(Vec::new);
    assert_eq!(p.parse("aab"), ("b", Ok(vec!['a', 'a'])));
    let mut q = letter_a().one_or_more(util::count);
    assert_eq!(q.parse_mut("ax"), ("x", Ok(Counter(1))));
    assert_eq!(letter_a().one_or_more(util::count).parse_once("aaa"), ("", Ok(Counter(3))));
}

#[test]
fn repeat_below_minimum_restores_start() {
    let p = letter_a().repeat(2, 3, Vec::new);
    assert_eq!(p.parse("ab"), ("ab", Err(RangeError)));
    assert_eq!(p.parse(""), ("", Err(RangeError)));
}

#[test]
fn repeat_stops_at_maximum() {
    let p = letter_a().repeat(2, 3, Vec::new);
    assert_eq!(p.parse("aaaaa"), ("aa", Ok(vec!['a', 'a', 'a'])));
}

#[test]
fn repeat_stops_at_next_failure() {
    let p = letter_a().repeat(2, 3, util::count);
    assert_eq!(p.parse("aab"), ("b", Ok(Counter(2))));
    let mut q = letter_a().repeat(0, 1, util::count);
    assert_eq!(q.parse_mut("b"), ("b", Ok(Counter(0))));
    assert_eq!(letter_a().repeat(1, 1, util::count).parse_once("aa"), ("a", Ok(Counter(1))));
}

#[test]
fn sinks_report_their_length() {
    let mut c = Counter(0);
    c.put('x');
    c.put('y');
    assert_eq!(Collection::<char>::len(&c), 2);
    let mut full = Counter(usize::MAX);
    full.put(1u8);
    assert_eq!(full, Counter(usize::MAX));
    let mut s = String::new();
    assert!(Collection::<char>::is_empty(&s));
    s.put('é');
    assert_eq!(Collection::<char>::len(&s), 2);
    let mut v: Vec<u8> = Vec::new();
    v.put(7);
    assert_eq!(Collection::<u8>::len(&v), 1);
    assert!(!Collection::<u8>::is_empty(&v));
    let mut u = ();
    Collection::<u8>::put(&mut u, 3);
    assert_eq!(Collection::<u8>::len(&u), 0);
    let mut b: Box<Vec<u8>> = Box::new(Vec::new());
    b.put(1);
    assert_eq!(Collection::<u8>::len(&b), 1);
}

#[test]
fn util_pairs_and_counter() {
    assert_eq!(util::fst((1, 'x')), 1);
    assert_eq!(util::snd((1, 'x')), 'x');
    assert_eq!(util::count(), Counter(0));
    util::ignore();
}

#[test]
fn repeat_with_largest_maximum_runs_until_failure() {
    let p = letter_a().repeat(0, usize::MAX, util::count);
    assert_eq!(p.parse("aaab"), ("b", Ok(Counter(3))));
}

#[test]
fn repeat_with_minimum_above_maximum_takes_the_minimum() {
    let p = letter_a().repeat(3, 1, Vec::new);
    assert_eq!(p.parse("aaaa"), ("a", Ok(vec!['a', 'a', 'a'])));
    assert_eq!(p.parse("aa"), ("aa", Err(RangeError)));
}

#[test]
fn optional_inside_repetition_counts_each_match() {
    let p = letter_a().then(letter_a().optional()).zero_or_more(Vec::new);
    let (rest, res) = p.parse("aaab");
    assert_eq!(rest, "b");
    assert_eq!(res.unwrap().len(), 2);
}

#[test]
fn borrowed_sink_keeps_matches_for_the_caller() {
    let mut buf: Vec<char> = Vec::new();
    {
        let sink = &mut buf;
        let p = letter_a().zero_or_more(move || sink);
        let (rest, res) = p.parse_once("aab");
        assert_eq!(rest, "b");
        assert!(res.is_ok());
    }
    assert_eq!(buf, vec!['a', 'a']);
    let mut r = &mut buf;
    Collection::<char>::put(&mut r, 'z');
    assert_eq!(Collection::<char>::len(&r), 3);
}

#[test]
fn one_or_more_decides_by_the_first_attempt_not_the_sink() {
    let unit = letter_a().one_or_more(util::ignore);
    assert_eq!(unit.parse("aab"), ("b", Ok(())));
    assert_eq!(unit.parse("b"), ("b", Err(FoundZero)));
    let prefilled = letter_a().one_or_more(|| vec!['x']);
    assert_eq!(prefilled.parse("b"), ("b", Err(FoundZero)));
    assert_eq!(prefilled.parse("ab"), ("b", Ok(vec!['x', 'a'])));
}
