use either::Either;
use parser_combinators::filter::FilterError;
use parser_combinators::func::AsParser;
use parser_combinators::text::{any_char, identifier, match_literal, EmptyInput, InvalidIdent, LiteralError};
use parser_combinators::prelude::util::unwrap_right;
use parser_combinators::prelude::{defer, util};
use parser_combinators::{Accept, Parser, ParserOnce};

#[derive(Debug, Clone, Copy, PartialEq, Eq)]
struct Mismatch;

fn ch(c: char) -> impl for<'a> Parser<&'a str, Output = (), Error = FilterError<EmptyInput>> + Copy {
    any_char().filter(move |x: &char| *x == c).map(|_: char| ())
}

fn ws() -> impl for<'a> Parser<&'a str, Output = (), Error = std::convert::Infallible> + Copy {
    any_char().filter(|x: &char| x.is_whitespace()).zero_or_more(util::ignore)
}

fn digits() -> impl for<'a> Parser<&'a str, Output = String, Error = parser_combinators::repeat::FoundZero> + Copy {
    any_char().filter(|x: &char| x.is_ascii_digit()).one_or_more(String::new)
}

// ---------------------------------------------------------------- numbers and JSON

#[derive(Debug, Clone, PartialEq)]
enum Json {
    Number(f64),
    Text(String),
    List(Vec<Json>),
    Object(Vec<(String, Json)>),
}

#[derive(Debug, Clone, Copy, PartialEq, Eq)]
struct JsonError;

fn number() -> impl for<'a> Parser<&'a str, Output = f64, Error = JsonError> + Copy {
    let fraction = ch('.').then(digits()).map(|(_, d): ((), String)| d);
    let no_fraction = <Accept as ParserOnce<&str>>::filter_input(Accept, |s: &&str| !s.starts_with('.')).map(|_: ()| String::new());
    digits()
        .then(fraction.or(no_fraction))
        .map_err(|_: Either<_, _>| JsonError)
        .flat_map(|(whole, frac): (String, Either<String, String>)| {
            let frac = frac.into_inner();
            let text = if frac.is_empty() { whole } else { format!("{}.{}", whole, frac) };
            text.parse::<f64>().map_err(|_| JsonError)
        })
}

fn text() -> impl for<'a> Parser<&'a str, Output = String, Error = JsonError> + Copy {
    ch('"')
        .then(any_char().filter(|x: &char| *x != '"').zero_or_more(String::new))
        .map(util::snd)
        .then(ch('"'))
        .map(util::fst)
        .map_err(|_: Either<_, _>| JsonError)
}

fn json_value(s: &str) -> (&str, Result<Json, JsonError>) {
    number()
        .map(Json::Number)
        .or(text().map(Json::Text))
        .map(Either::into_inner)
        .or(defer(json_list))
        .map(Either::into_inner)
        .or(defer(json_object))
        .map(Either::into_inner)
        .map_err(|_: (_, _)| JsonError)
        .parse(s)
}

fn json_list() -> impl for<'a> Parser<&'a str, Output = Json, Error = JsonError> {
    let item = json_value.as_parser().then(ws()).map(util::fst);
    let more = ch(',').then(ws()).then(item).map(util::snd).zero_or_more(Vec::new);
    ch('[')
        .then(ws())
        .then(item.then(more).optional())
        .map(util::snd)
        .then(ch(']'))
        .map(util::fst)
        .map_both(
            |items: Result<(Json, Vec<Json>), _>| match items {
                Ok((first, mut rest)) => {
                    rest.insert(0, first);
                    Json::List(rest)
                },
                Err(_) => Json::List(Vec::new()),
            },
            |_: Either<_, _>| JsonError,
        )
}

fn json_member(s: &str) -> (&str, Result<(String, Json), JsonError>) {
    text()
        .then(ws())
        .map(util::fst)
        .then(ch(':'))
        .map(util::fst)
        .then(ws())
        .map(util::fst)
        .then(json_value.as_parser())
        .then(ws())
        .map(util::fst)
        .map_err(|_: Either<_, _>| JsonError)
        .parse(s)
}

fn json_object() -> impl for<'a> Parser<&'a str, Output = Json, Error = JsonError> {
    let member = json_member.as_parser();
    let more = ch(',').then(ws()).then(member).map(util::snd).zero_or_more(Vec::new);
    ch('{')
        .then(ws())
        .then(member.then(more).optional())
        .map(util::snd)
        .then(ch('}'))
        .map(util::fst)
        .map_both(
            |members: Result<((String, Json), Vec<(String, Json)>), _>| match members {
                Ok((first, mut rest)) => {
                    rest.insert(0, first);
                    Json::Object(rest)
                },
                Err(_) => Json::Object(Vec::new()),
            },
            |_: Either<_, _>| JsonError,
        )
}

#[test]
fn number_with_fraction() {
    assert_eq!(number().parse("3.14"), ("", Ok(3.14)));
}

#[test]
fn number_without_fraction() {
    assert_eq!(number().parse("3"), ("", Ok(3.0)));
}

#[test]
fn number_needs_digit_after_point() {
    let (rest, res) = number().parse("3.");
    assert_eq!(rest, "3.");
    assert_eq!(res, Err(JsonError));
}

#[test]
fn json_object_with_nested_list() {
    let (rest, res) = json_value("{\"a\": 1, \"b\": [2, 3]}");
    assert_eq!(rest, "");
    assert_eq!(
        res,
        Ok(Json::Object(vec![
            (String::from("a"), Json::Number(1.0)),
            (String::from("b"), Json::List(vec![Json::Number(2.0), Json::Number(3.0)])),
        ]))
    );
}

#[test]
fn json_empty_containers_and_text() {
    assert_eq!(json_value("[]"), ("", Ok(Json::List(Vec::new()))));
    assert_eq!(json_value("{}"), ("", Ok(Json::Object(Vec::new()))));
    assert_eq!(json_value("\"hi\""), ("", Ok(Json::Text(String::from("hi")))));
}

#[test]
fn json_structural_error_reports_remainder() {
    let (rest, res) = json_value("[1, }");
    assert_eq!(rest, "[1, }");
    assert_eq!(res, Err(JsonError));
}

// ---------------------------------------------------------------- XML

#[derive(Debug, Clone, PartialEq, Eq)]
struct Element {
    name: String,
    attributes: Vec<(String, String)>,
    children: Vec<Element>,
}

#[derive(Debug, Clone, Copy, PartialEq, Eq)]
enum XmlError {
    Structure,
    WrongCloseTag,
}

fn quoted() -> impl for<'a> Parser<&'a str, Output = String, Error = Mismatch> + Copy {
    match_literal("\"")
        .then(any_char().filter(|c: &char| *c != '"').zero_or_more(String::new))
        .map(util::snd)
        .then(match_literal("\""))
        .map(util::fst)
        .map_err(|_: Either<_, _>| Mismatch)
}

fn attribute() -> impl for<'a> Parser<&'a str, Output = (String, String), Error = Mismatch> + Copy {
    any_char()
        .filter(|c: &char| c.is_whitespace())
        .one_or_more(util::count)
        .then(identifier())
        .map(util::snd)
        .then(ws())
        .map(util::fst)
        .then(match_literal("="))
        .map(util::fst)
        .then(ws())
        .map(util::fst)
        .then(quoted())
        .map_err(|_: Either<_, _>| Mismatch)
}

fn open_tag() -> impl for<'a> Parser<&'a str, Output = (String, Vec<(String, String)>), Error = Mismatch> + Copy {
    match_literal("<")
        .then(identifier())
        .map(util::snd)
        .then(attribute().zero_or_more(Vec::new))
        .map_err(|_: Either<_, _>| Mismatch)
}

fn single_element() -> impl for<'a> Parser<&'a str, Output = Element, Error = XmlError> + Copy {
    open_tag().then(ws()).map(util::fst).then(match_literal("/>")).map_both(
        |((name, attributes), _): ((String, Vec<(String, String)>), ())| Element { name, attributes, children: Vec::new() },
        |_: Either<_, _>| XmlError::Structure,
    )
}

fn parent_element() -> impl for<'a> Parser<&'a str, Output = Element, Error = XmlError> {
    open_tag()
        .then(match_literal(">"))
        .map(util::fst)
        .map_err(|_: Either<_, _>| XmlError::Structure)
        .and_then(|(name, attributes): (String, Vec<(String, String)>)| {
            let expected = name.clone();
            element
                .as_parser()
                .then(ws())
                .map(util::fst)
                .zero_or_more(Vec::new)
                .then(ws())
                .map(util::fst)
                .then(match_literal("</").or_else(|_: LiteralError| {
                    // Whatever stands where the closing tag should be is an element that
                    // failed: its own error says why.
                    element.as_parser().flat_map_both(
                        |_: Element| Err::<(), XmlError>(XmlError::Structure),
                        |e: XmlError| Err::<(), XmlError>(e),
                    )
                }))
                .map_both(util::fst, unwrap_right)
                .then(
                    identifier()
                        .filter(move |i: &String| *i == expected)
                        .map_err(|e: FilterError<InvalidIdent>| match e {
                            FilterError::FilterError => XmlError::WrongCloseTag,
                            FilterError::ParseError(_) => XmlError::Structure,
                        }),
                )
                .map(util::fst)
                .then(match_literal(">").map_err(|_: LiteralError| XmlError::Structure))
                .map(util::fst)
                .map_both(
                    move |children: Vec<Element>| Element { name, attributes, children },
                    |e: Either<Either<XmlError, XmlError>, XmlError>| match e {
                        Either::Left(Either::Left(x)) | Either::Left(Either::Right(x)) | Either::Right(x) => x,
                    },
                )
        })
        .map_err(|e: Either<XmlError, XmlError>| e.into_inner())
}

fn element(s: &str) -> (&str, Result<Element, XmlError>) {
    single_element()
        .or(parent_element())
        .map(Either::into_inner)
        .map_err(|(_, parent): (XmlError, XmlError)| parent)
        .parse(s)
}

#[test]
fn xml_element_with_attribute_and_child() {
    let (rest, res) = element("<a x=\"1\"><b/></a>");
    assert_eq!(rest, "");
    assert_eq!(
        res,
        Ok(Element {
            name: String::from("a"),
            attributes: vec![(String::from("x"), String::from("1"))],
            children: vec![Element { name: String::from("b"), attributes: Vec::new(), children: Vec::new() }],
        })
    );
}

#[test]
fn xml_mismatched_close_tag_fails_at_name_check() {
    let (rest, res) = element("<a><b></a>");
    assert_eq!(rest, "<a><b></a>");
    assert_eq!(res, Err(XmlError::WrongCloseTag));
    let (rest, res) = element("<b></a>");
    assert_eq!(rest, "<b></a>");
    assert_eq!(res, Err(XmlError::WrongCloseTag));
    let (rest, res) = element("<a><b>");
    assert_eq!(rest, "<a><b>");
    assert_eq!(res, Err(XmlError::Structure));
}

#[test]
fn xml_no_space_before_closing_bracket_of_parent() {
    let (rest, res) = element("<a ></a>");
    assert_eq!(rest, "<a ></a>");
    assert_eq!(res, Err(XmlError::Structure));
    assert!(element("<a />").1.is_ok());
}
