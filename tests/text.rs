use parser_combinators::filter::FilterError;
use parser_combinators::prelude::util;
use parser_combinators::text::{
    any_char, identifier, match_literal, read_char, read_identifier, read_literal, EmptyInput, InvalidIdent,
    LiteralError,
};
use parser_combinators::{Parser, ParserMut, ParserOnce};

#[test]
fn read_char_takes_one_char() {
    assert_eq!(read_char("abc"), ("bc", Ok('a')));
    assert_eq!(read_char("éa"), ("a", Ok('é')));
    assert_eq!(read_char("€"), ("", Ok('€')));
    assert_eq!(read_char(""), ("", Err(EmptyInput)));
}

#[test]
fn read_literal_matches_prefix_only() {
    assert_eq!(read_literal("</a>", "</"), ("a>", Ok(())));
    assert_eq!(read_literal("<a>", "</"), ("<a>", Err(LiteralError)));
    assert_eq!(read_literal("<", "</"), ("<", Err(LiteralError)));
    assert_eq!(read_literal("abc", ""), ("abc", Ok(())));
    assert_eq!(read_literal("ééx", "éé"), ("x", Ok(())));
}

#[test]
fn read_identifier_takes_longest_name() {
    assert_eq!(read_identifier("data-x1 rest"), (" rest", Ok(String::from("data-x1"))));
    assert_eq!(read_identifier("a"), ("", Ok(String::from("a"))));
    assert_eq!(read_identifier("1abc"), ("1abc", Err(InvalidIdent)));
    assert_eq!(read_identifier("-a"), ("-a", Err(InvalidIdent)));
    assert_eq!(read_identifier(""), ("", Err(InvalidIdent)));
    assert_eq!(read_identifier("naïve>"), (">", Ok(String::from("naïve"))));
}

#[test]
fn leaf_rules_under_each_capability() {
    assert_eq!(any_char().parse("xy"), ("y", Ok('x')));
    let mut m = any_char();
    assert_eq!(m.parse_mut("q"), ("", Ok('q')));
    assert_eq!(any_char().parse_once(""), ("", Err(EmptyInput)));
    assert_eq!(match_literal("ab").parse("abc"), ("c", Ok(())));
    let mut l = match_literal("ab");
    assert_eq!(l.parse_mut("ba"), ("ba", Err(LiteralError)));
    assert_eq!(match_literal("ab").parse_once("ab"), ("", Ok(())));
    assert_eq!(identifier().parse("x=1"), ("=1", Ok(String::from("x"))));
    let mut i = identifier();
    assert_eq!(i.parse_mut("=1"), ("=1", Err(InvalidIdent)));
    assert_eq!(identifier().parse_once("y"), ("", Ok(String::from("y"))));
}

#[test]
fn leaf_rules_compose() {
    let word = any_char().filter(|c: &char| c.is_alphabetic()).one_or_more(String::new);
    assert_eq!(word.parse("héllo wörld"), (" wörld", Ok(String::from("héllo"))));
    let counted = any_char().zero_or_more(util::count);
    assert_eq!(counted.parse("日本語").1.map(|c| c.0), Ok(3));
    let tag = match_literal("<").then(identifier()).then(match_literal(">"));
    let (rest, res) = tag.parse("<b>x");
    assert_eq!(rest, "x");
    assert_eq!(res.map(|((_, n), _)| n), Ok(String::from("b")));
    let digit = any_char().filter(|c: &char| c.is_ascii_digit());
    assert_eq!(digit.parse("z"), ("z", Err(FilterError::FilterError)));
}
