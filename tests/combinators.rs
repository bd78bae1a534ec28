use std::cell::Cell;
use std::rc::Rc;
use std::sync::Arc;

use either::Either;
use parser_combinators::filter::FilterError;
use parser_combinators::func::{AsParser, Func};
use parser_combinators::infallible::{unwrap_left, unwrap_right, Infallible};
use parser_combinators::prelude::{defer, defer_mut, defer_once};
use parser_combinators::{Accept, Parser, ParserMut, ParserOnce, Reject, Restore};

#[derive(Debug, Clone, Copy, PartialEq, Eq)]
struct EmptyInput;

fn any_char(s: &str) -> (&str, Result<char, EmptyInput>) {
    match s.chars().next() {
        Some(c) => (&s[c.len_utf8()..], Ok(c)),
        None => (s, Err(EmptyInput)),
    }
}

fn digit() -> impl for<'a> Parser<&'a str, Output = char, Error = FilterError<EmptyInput>> {
    any_char.as_parser().filter(|c: &char| c.is_ascii_digit())
}

fn letter() -> impl for<'a> Parser<&'a str, Output = char, Error = FilterError<EmptyInput>> {
    any_char.as_parser().filter(|c: &char| c.is_ascii_alphabetic())
}

#[test]
fn accept_and_reject_consume_nothing() {
    assert_eq!(Accept.parse("abc"), ("abc", Ok(())));
    let (rest, res) = Reject.parse("abc");
    assert_eq!(rest, "abc");
    assert!(res.is_err());
}

#[test]
fn save_then_restore_returns_to_the_checkpoint() {
    let input: &str = "hello";
    let save = input.save();
    let (moved, _) = any_char("hello");
    assert_eq!(moved, "ello");
    assert_eq!(moved.restore(save), "hello");
    let slice: &[u8] = &[1, 2, 3];
    let sp = slice.save();
    assert_eq!((&slice[2..]).restore(sp), &[1u8, 2, 3][..]);
}

#[test]
fn then_success_pairs_outputs() {
    let p = digit().then(letter());
    assert_eq!(p.parse("1a!"), ("!", Ok(('1', 'a'))));
}

#[test]
fn then_first_failure_consumes_nothing() {
    let p = digit().then(letter());
    let (rest, res) = p.parse("a1");
    assert_eq!(rest, "a1");
    assert!(matches!(res, Err(Either::Left(FilterError::FilterError))));
    let (rest, res) = p.parse("");
    assert_eq!(rest, "");
    assert!(matches!(res, Err(Either::Left(FilterError::ParseError(EmptyInput)))));
}

#[test]
fn then_second_failure_restores_before_first() {
    let p = digit().then(letter());
    let (rest, res) = p.parse("12");
    assert_eq!(rest, "12");
    assert!(matches!(res, Err(Either::Right(FilterError::FilterError))));
}

#[test]
fn or_prefers_left_and_never_attempts_right_after_success() {
    let calls = Cell::new(0u32);
    let right = letter().inspect(|_: &Result<char, FilterError<EmptyInput>>| calls.set(calls.get() + 1));
    let p = digit().or(right);
    assert_eq!(p.parse("1x"), ("x", Ok(Either::Left('1'))));
    assert_eq!(calls.get(), 0);
    assert_eq!(p.parse("x1"), ("1", Ok(Either::Right('x'))));
    assert_eq!(calls.get(), 1);
}

#[test]
fn or_both_failing_keeps_both_errors() {
    let p = digit().or(letter());
    let (rest, res) = p.parse("!x");
    assert_eq!(rest, "!x");
    assert_eq!(res, Err((FilterError::FilterError, FilterError::FilterError)));
}

#[test]
fn or_right_branch_starts_from_original_position() {
    // The left branch consumes a digit before failing; the right one must see it again.
    let left = digit().then(letter());
    let right = digit().then(digit());
    let p = left.or(right);
    assert_eq!(p.parse("12z"), ("z", Ok(Either::Right(('1', '2')))));
}

#[test]
fn par_or_keeps_left_bias() {
    let p = any_char.as_parser().par_or(digit());
    assert_eq!(p.parse("7"), ("", Ok(Either::Left('7'))));
    let q = letter().par_or(digit());
    assert_eq!(q.parse("7"), ("", Ok(Either::Right('7'))));
    let (rest, res) = q.parse("!");
    assert_eq!(rest, "!");
    assert_eq!(res, Err((FilterError::FilterError, FilterError::FilterError)));
    let (rest, res) = q.parse_once("a");
    assert_eq!((rest, res), ("", Ok(Either::Left('a'))));
}

#[test]
fn map_and_map_err_rewrite_one_channel() {
    let p = digit().map(|c: char| c.to_digit(10).unwrap());
    assert_eq!(p.parse("7z"), ("z", Ok(7)));
    let q = digit().map_err(|_: FilterError<EmptyInput>| "no digit");
    assert_eq!(q.parse("z"), ("z", Err("no digit")));
    assert_eq!(q.parse("5"), ("", Ok('5')));
}

#[test]
fn map_both_rewrites_each_channel() {
    let p = digit().map_both(|c: char| c as u32 - '0' as u32, |_: FilterError<EmptyInput>| 99u32);
    assert_eq!(p.parse("4"), ("", Ok(4)));
    assert_eq!(p.parse("x").1, Err(99));
}

#[test]
fn flat_map_turns_output_into_failure() {
    let p = digit().flat_map(|c: char| if c == '0' { Err(FilterError::FilterError) } else { Ok(c) });
    assert_eq!(p.parse("5"), ("", Ok('5')));
    assert_eq!(p.parse("0"), ("", Err(FilterError::FilterError)));
    assert_eq!(p.parse("x").1, Err(FilterError::FilterError));
}

#[test]
fn flat_map_err_can_recover() {
    let p = digit().flat_map_err(|_: FilterError<EmptyInput>| Ok::<char, ()>('?'));
    assert_eq!(p.parse("x"), ("x", Ok('?')));
    let q = digit().flat_map_err(|_: FilterError<EmptyInput>| Err::<char, &str>("bad"));
    assert_eq!(q.parse("x"), ("x", Err("bad")));
}

#[test]
fn flat_map_both_decides_on_both_channels() {
    let p = digit().flat_map_both(
        |c: char| if c == '9' { Err("nine") } else { Ok(1) },
        |_: FilterError<EmptyInput>| Ok(0),
    );
    assert_eq!(p.parse("1"), ("", Ok(1)));
    assert_eq!(p.parse("9"), ("", Err("nine")));
    assert_eq!(p.parse("a"), ("a", Ok(0)));
}

#[test]
fn filter_rejection_restores_input() {
    let p = any_char.as_parser().filter(|c: &char| *c == 'a');
    assert_eq!(p.parse("ab"), ("b", Ok('a')));
    assert_eq!(p.parse("ba"), ("ba", Err(FilterError::FilterError)));
    assert_eq!(p.parse(""), ("", Err(FilterError::ParseError(EmptyInput))));
}

#[test]
fn filter_input_never_attempts_inner_when_rejected() {
    let calls = Cell::new(0u32);
    let inner = any_char.as_parser().inspect_input(|_: &&str| calls.set(calls.get() + 1));
    let p = inner.filter_input(|s: &&str| s.starts_with('a'));
    assert_eq!(p.parse("xyz"), ("xyz", Err(FilterError::FilterError)));
    assert_eq!(calls.get(), 0);
    assert_eq!(p.parse("abc"), ("bc", Ok('a')));
    assert_eq!(calls.get(), 1);
}

#[test]
fn filter_input_passes_inner_error() {
    let p = digit().filter_input(|_: &&str| true);
    assert_eq!(p.parse("x"), ("x", Err(FilterError::ParseError(FilterError::FilterError))));
}

#[test]
fn inspect_sees_result_without_changing_it() {
    let seen = Cell::new(false);
    let p = digit().inspect(|r: &Result<char, FilterError<EmptyInput>>| seen.set(r.is_ok()));
    assert_eq!(p.parse("3a"), ("a", Ok('3')));
    assert!(seen.get());
    assert_eq!(p.parse("a3"), ("a3", Err(FilterError::FilterError)));
    assert!(!seen.get());
}

#[test]
fn and_then_builds_second_rule_from_first_output() {
    // A digit followed by the same digit.
    let p = digit().and_then(|c: char| any_char.as_parser().filter(move |d: &char| *d == c));
    assert_eq!(p.parse("33x"), ("x", Ok('3')));
    let (rest, res) = p.parse("34x");
    assert_eq!(rest, "34x");
    assert!(matches!(res, Err(Either::Right(FilterError::FilterError))));
    let (rest, res) = p.parse("x");
    assert_eq!(rest, "x");
    assert!(matches!(res, Err(Either::Left(FilterError::FilterError))));
}

#[test]
fn or_else_falls_back_from_error() {
    let p = digit().or_else(|_: FilterError<EmptyInput>| letter());
    assert_eq!(p.parse("5"), ("", Ok(Either::Left('5'))));
    assert_eq!(p.parse("q"), ("", Ok(Either::Right('q'))));
    assert_eq!(p.parse("!?"), ("!?", Err(FilterError::FilterError)));
}

#[test]
fn optional_never_fails() {
    let p = digit().optional();
    assert_eq!(p.parse("1"), ("", Ok(Ok('1'))));
    assert_eq!(p.parse("x"), ("x", Ok(Err(FilterError::FilterError))));
}

#[test]
fn handles_share_the_rule() {
    let rule = digit();
    assert_eq!((&rule).parse("1"), ("", Ok('1')));
    let boxed = Box::new(digit());
    assert_eq!(boxed.parse("2"), ("", Ok('2')));
    assert_eq!(boxed.parse_once("3"), ("", Ok('3')));
    let rc = Rc::new(digit());
    assert_eq!(rc.parse("4"), ("", Ok('4')));
    let arc = Arc::new(digit());
    assert_eq!(arc.parse("5"), ("", Ok('5')));
    let mut m = digit();
    assert_eq!(m.parse_mut("6"), ("", Ok('6')));
}

#[test]
fn function_adapters_call_the_function() {
    assert_eq!(any_char.as_parser_once().parse_once("ab"), ("b", Ok('a')));
    let mut m = any_char.as_parser_mut();
    assert_eq!(m.parse_mut("ab"), ("b", Ok('a')));
    assert_eq!(m.parse_once("cd"), ("d", Ok('c')));
    assert_eq!(Func(any_char).parse_once("x"), ("", Ok('x')));
}

#[test]
fn every_capability_gives_the_same_outcome() {
    let make = || digit().then(letter()).or(letter().then(digit()));
    for input in ["1a!", "a1!", "!!", ""] {
        let shared = make().parse(input);
        let mut m = make();
        assert_eq!(m.parse_mut(input), shared);
        assert_eq!(make().parse_once(input), shared);
    }
    let chained = || digit().and_then(|c: char| any_char.as_parser().filter(move |d: &char| *d != c));
    for input in ["12", "11", "x"] {
        let shared = chained().parse(input);
        let mut m = chained();
        assert_eq!(m.parse_mut(input), shared);
        assert_eq!(chained().parse_once(input), shared);
    }
    let fallback = || digit().or_else(|_: FilterError<EmptyInput>| letter()).map_both(|e: Either<char, char>| e.into_inner(), |_| 0u8);
    for input in ["1", "b", "?"] {
        let shared = fallback().parse(input);
        let mut m = fallback();
        assert_eq!(m.parse_mut(input), shared);
        assert_eq!(fallback().parse_once(input), shared);
    }
}

#[test]
fn deferred_rules_are_built_when_attempted() {
    let built = Cell::new(0u32);
    let d = defer(|| {
        built.set(built.get() + 1);
        digit()
    });
    assert_eq!(built.get(), 0);
    assert_eq!(d.parse("1"), ("", Ok('1')));
    assert_eq!(d.parse("2"), ("", Ok('2')));
    assert_eq!(built.get(), 2);
    assert_eq!(defer_once(digit).parse_once("3"), ("", Ok('3')));
    let mut m = defer_mut(digit);
    assert_eq!(m.parse_mut("4"), ("", Ok('4')));
    assert_eq!(m.parse_once("x"), ("x", Err(FilterError::FilterError)));
}

#[test]
fn unwrapping_either_with_an_impossible_side() {
    let l: Either<u8, Infallible> = Either::Left(3);
    assert_eq!(unwrap_left(l), 3);
    let r: Either<Either<Infallible, Infallible>, &str> = Either::Right("x");
    assert_eq!(unwrap_right(r), "x");
}
