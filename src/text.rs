//! Leaf rules over string slices.
use vstd::prelude::*;

use vstd::string::StringSliceAdditionalSpecFns;
use vstd::utf8::*;

use crate::repeat::collections::push_char;
use crate::{Parser, ParserMut, ParserOnce};

verus! {

broadcast use vstd::string::axiom_spec_iter, vstd::string::next_postcondition, encode_utf8_decode_utf8;

/// The error of [`any_char`]: there was nothing left to read.
#[derive(Debug, Clone, Copy, PartialEq, Eq)]
pub struct EmptyInput;

proof fn lemma_first_boundary(chars: Seq<char>)
    requires
        chars.len() > 0,
    ensures
        valid_utf8(encode_utf8(chars)),
        length_of_first_scalar(encode_utf8(chars)) == encode_scalar(chars[0] as u32).len(),
        0 < encode_scalar(chars[0] as u32).len() <= encode_utf8(chars).len(),
        encode_scalar(chars[0] as u32).len() <= 4,
        is_char_boundary(encode_utf8(chars), encode_scalar(chars[0] as u32).len() as int),
        forall|k: int| 0 < k < encode_scalar(chars[0] as u32).len() ==> !is_char_boundary(encode_utf8(chars), k),
        encode_utf8(chars).subrange(encode_scalar(chars[0] as u32).len() as int, encode_utf8(chars).len() as int)
            == encode_utf8(chars.drop_first()),
{
    let bytes = encode_utf8(chars);
    let first = encode_scalar(chars[0] as u32);
    encode_utf8_valid_utf8(chars);
    encode_utf8_valid_utf8(chars.drop_first());
    encode_utf8_first_scalar(chars);
    assert(bytes == first + encode_utf8(chars.drop_first()));
    assert(pop_first_scalar(bytes) =~= encode_utf8(chars.drop_first()));
    assert(first.len() > 0) by {
        vstd::utf8::char_is_scalar(chars[0]);
    }
    assert(is_char_boundary(pop_first_scalar(bytes), 0));
    reveal_with_fuel(is_char_boundary, 2);
    assert(is_char_boundary(bytes, first.len() as int));
    assert forall|k: int| 0 < k < first.len() implies !is_char_boundary(bytes, k) by {
        assert(k - length_of_first_scalar(bytes) < 0);
        assert(!is_char_boundary(pop_first_scalar(bytes), k - length_of_first_scalar(bytes)));
    }
}

/// Reads one char: the first of `s`, and the rest after it; fails, consuming nothing, on
/// an empty string.
pub fn read_char(s: &str) -> (out: (&str, Result<char, EmptyInput>))
    ensures
        s@.len() == 0 ==> out.0 == s && out.1 == Err::<char, EmptyInput>(EmptyInput),
        s@.len() > 0 ==> out.0@ == s@.drop_first() && out.1 == Ok::<char, EmptyInput>(s@[0]),
{
    let mut chars = s.chars();
    let ghost before = chars;
    assert(vstd::std_specs::iter::IteratorSpec::remaining(&before) == s@);
    let first = chars.next();
    match first {
        None => (s, Err(EmptyInput)),
        Some(c) => {
            proof {
                lemma_first_boundary(s@);
            }
            let ghost width = encode_scalar(s@[0] as u32).len() as int;
            let mut k: usize = 1;
            while !s.is_char_boundary(k)
                invariant
                    1 <= k <= width,
                    width <= 4,
                    width <= encode_utf8(s@).len(),
                    forall|j: int| 0 < j < width ==> !is_char_boundary(encode_utf8(s@), j),
                    is_char_boundary(encode_utf8(s@), width),
                decreases width - k,
            {
                k = k + 1;
            }
            assert(c == s@[0]);
            assert(k == width);
            let (_, rest) = s.split_at(k);
            proof {
                let tail = encode_utf8(s@).subrange(width, encode_utf8(s@).len() as int);
                assert(rest.spec_bytes() =~= tail);
                assert(encode_utf8(rest@) == encode_utf8(s@.drop_first()));
                assert(decode_utf8(encode_utf8(rest@)) == rest@);
                assert(decode_utf8(encode_utf8(s@.drop_first())) == s@.drop_first());
            }
            (rest, Ok(c))
        },
    }
}


/// The error of [`match_literal`]: the input does not start with the expected text.
#[derive(Debug, Clone, Copy, PartialEq, Eq)]
pub struct LiteralError;

/// The error of [`identifier`]: the input does not start with a letter.
#[derive(Debug, Clone, Copy, PartialEq, Eq)]
pub struct InvalidIdent;

/// Reads `lit` off the front of `s`; fails, consuming nothing, where `s` does not start with it.
pub fn read_literal<'a>(s: &'a str, lit: &str) -> (out: (&'a str, Result<(), LiteralError>))
    ensures
        lit@.len() <= s@.len() && s@.take(lit@.len() as int) == lit@
            ==> out.0@ == s@.skip(lit@.len() as int) && out.1 is Ok,
        !(lit@.len() <= s@.len() && s@.take(lit@.len() as int) == lit@)
            ==> out.0 == s && out.1 is Err,
{
    let mut cur = s;
    let mut want = lit;
    let ghost mut i: int = 0;
    while !want.is_empty()
        invariant
            0 <= i <= lit@.len(),
            i <= s@.len(),
            want@ == lit@.skip(i),
            cur@ == s@.skip(i),
            s@.take(i) == lit@.take(i),
        decreases want@.len(),
    {
        let (want_rest, w) = read_char(want);
        let (cur_rest, c) = read_char(cur);
        match (w, c) {
            (Ok(w), Ok(c)) => {
                if w != c {
                    proof {
                        if lit@.len() <= s@.len() && s@.take(lit@.len() as int) == lit@ {
                            assert(s@.take(lit@.len() as int)[i] == s@[i]);
                        }
                    }
                    return (s, Err(LiteralError));
                }
                proof {
                    assert(s@.take(i + 1) =~= s@.take(i).push(s@[i]));
                    assert(lit@.take(i + 1) =~= lit@.take(i).push(lit@[i]));
                    assert(want_rest@ =~= lit@.skip(i + 1));
                    assert(cur_rest@ =~= s@.skip(i + 1));
                    i = i + 1;
                }
                want = want_rest;
                cur = cur_rest;
            },
            _ => {
                return (s, Err(LiteralError));
            },
        }
    }
    proof {
        assert(i == lit@.len());
        assert(lit@.take(i) =~= lit@);
    }
    (cur, Ok(()))
}

/// What `char::is_alphabetic` says of `c`.
pub uninterp spec fn alphabetic(c: char) -> bool;

/// What `char::is_alphanumeric` says of `c`.
pub uninterp spec fn alphanumeric(c: char) -> bool;

/// Relies on char::is_alphabetic: the answer depends on the char alone.
#[verifier::external_body]
fn is_alphabetic(c: char) -> (r: bool)
    ensures
        r == alphabetic(c),
{
    c.is_alphabetic()
}

/// Relies on char::is_alphanumeric: the answer depends on the char alone.
#[verifier::external_body]
fn is_alphanumeric(c: char) -> (r: bool)
    ensures
        r == alphanumeric(c),
{
    c.is_alphanumeric()
}

/// A char that may continue an identifier.
pub open spec fn ident_char(c: char) -> bool {
    alphanumeric(c) || c == '-'
}

/// `id` is an identifier: a letter, then letters, digits or dashes.
pub open spec fn is_ident(id: Seq<char>) -> bool {
    &&& id.len() >= 1
    &&& alphabetic(id[0])
    &&& forall|k: int| 1 <= k < id.len() ==> ident_char(#[trigger] id[k])
}

/// Reads the longest identifier at the front of `s`; fails, consuming nothing, where `s`
/// does not start with a letter.
pub fn read_identifier(s: &str) -> (out: (&str, Result<String, InvalidIdent>))
    ensures
        match out.1 {
            Ok(id) => is_ident(id@) && s@ == id@ + out.0@ && (out.0@.len() == 0 || !ident_char(out.0@[0])),
            Err(_) => out.0 == s && (s@.len() == 0 || !alphabetic(s@[0])),
        },
{
    let (rest, first) = read_char(s);
    let c = match first {
        Ok(c) => c,
        Err(_) => {
            return (s, Err(InvalidIdent));
        },
    };
    if !is_alphabetic(c) {
        return (s, Err(InvalidIdent));
    }
    let mut matched = String::new();
    push_char(&mut matched, c);
    let mut cur = rest;
    proof {
        assert(s@ =~= matched@ + cur@);
    }
    loop
        invariant
            is_ident(matched@),
            s@ == matched@ + cur@,
        decreases cur@.len(),
    {
        let (next, r) = read_char(cur);
        match r {
            Ok(c) => {
                if is_alphanumeric(c) || c == '-' {
                    let ghost before = matched@;
                    push_char(&mut matched, c);
                    proof {
                        assert(matched@ == before.push(c));
                        assert forall|k: int| 1 <= k < matched@.len() implies ident_char(#[trigger] matched@[k]) by {
                            if k < before.len() {
                                assert(matched@[k] == before[k]);
                            }
                        }
                        assert(s@ =~= matched@ + next@);
                    }
                    cur = next;
                } else {
                    return (cur, Ok(matched));
                }
            },
            Err(_) => {
                return (cur, Ok(matched));
            },
        }
    }
}

/// The outcome of reading one char from `s`.
pub open spec fn char_read(s: &str, rest: &str, res: Result<char, EmptyInput>) -> bool {
    if s@.len() == 0 {
        rest == s && res == Err::<char, EmptyInput>(EmptyInput)
    } else {
        rest@ == s@.drop_first() && res == Ok::<char, EmptyInput>(s@[0])
    }
}

/// The outcome of reading `lit` off the front of `s`.
pub open spec fn literal_read(s: &str, lit: &str, rest: &str, res: Result<(), LiteralError>) -> bool {
    if lit@.len() <= s@.len() && s@.take(lit@.len() as int) == lit@ {
        rest@ == s@.skip(lit@.len() as int) && res is Ok
    } else {
        rest == s && res is Err
    }
}

/// The outcome of reading the longest identifier at the front of `s`.
pub open spec fn identifier_read(s: &str, rest: &str, res: Result<String, InvalidIdent>) -> bool {
    match res {
        Ok(id) => is_ident(id@) && s@ == id@ + rest@ && (rest@.len() == 0 || !ident_char(rest@[0])),
        Err(_) => rest == s && (s@.len() == 0 || !alphabetic(s@[0])),
    }
}

/// The rule that reads any one char.
#[derive(Debug, Clone, Copy, PartialEq, Eq)]
pub struct AnyChar;

/// The rule that reads the given text.
#[derive(Debug, Clone, Copy, PartialEq, Eq)]
pub struct Literal<'l>(pub &'l str);

/// The rule that reads the longest identifier: a letter, then letters, digits or dashes.
#[derive(Debug, Clone, Copy, PartialEq, Eq)]
pub struct Identifier;

/// The rule that reads any one char.
pub fn any_char() -> (r: AnyChar)
    ensures
        r == AnyChar,
{
    AnyChar
}

/// The rule that reads `expected`.
pub fn match_literal<'l>(expected: &'l str) -> (r: Literal<'l>)
    ensures
        r == Literal(expected),
{
    Literal(expected)
}

/// The rule that reads an identifier.
pub fn identifier() -> (r: Identifier)
    ensures
        r == Identifier,
{
    Identifier
}

impl<'a> ParserOnce<&'a str> for AnyChar {
    type Output = char;
    type Error = EmptyInput;

    open spec fn ready(&self, input: &'a str) -> bool {
        true
    }

    open spec fn yields(&self, input: &'a str, rest: &'a str, res: Result<char, EmptyInput>) -> bool {
        char_read(input, rest, res)
    }

    fn parse_once(self, input: &'a str) -> (out: (&'a str, Result<char, EmptyInput>)) {
        read_char(input)
    }
}

impl<'a> ParserMut<&'a str> for AnyChar {
    fn parse_mut(&mut self, input: &'a str) -> (out: (&'a str, Result<char, EmptyInput>)) {
        read_char(input)
    }
}

impl<'a> Parser<&'a str> for AnyChar {
    fn parse(&self, input: &'a str) -> (out: (&'a str, Result<char, EmptyInput>)) {
        read_char(input)
    }
}

impl<'a, 'l> ParserOnce<&'a str> for Literal<'l> {
    type Output = ();
    type Error = LiteralError;

    open spec fn ready(&self, input: &'a str) -> bool {
        true
    }

    open spec fn yields(&self, input: &'a str, rest: &'a str, res: Result<(), LiteralError>) -> bool {
        literal_read(input, self.0, rest, res)
    }

    fn parse_once(self, input: &'a str) -> (out: (&'a str, Result<(), LiteralError>)) {
        read_literal(input, self.0)
    }
}

impl<'a, 'l> ParserMut<&'a str> for Literal<'l> {
    fn parse_mut(&mut self, input: &'a str) -> (out: (&'a str, Result<(), LiteralError>)) {
        read_literal(input, self.0)
    }
}

impl<'a, 'l> Parser<&'a str> for Literal<'l> {
    fn parse(&self, input: &'a str) -> (out: (&'a str, Result<(), LiteralError>)) {
        read_literal(input, self.0)
    }
}

impl<'a> ParserOnce<&'a str> for Identifier {
    type Output = String;
    type Error = InvalidIdent;

    open spec fn ready(&self, input: &'a str) -> bool {
        true
    }

    open spec fn yields(&self, input: &'a str, rest: &'a str, res: Result<String, InvalidIdent>) -> bool {
        identifier_read(input, rest, res)
    }

    fn parse_once(self, input: &'a str) -> (out: (&'a str, Result<String, InvalidIdent>)) {
        read_identifier(input)
    }
}

impl<'a> ParserMut<&'a str> for Identifier {
    fn parse_mut(&mut self, input: &'a str) -> (out: (&'a str, Result<String, InvalidIdent>)) {
        read_identifier(input)
    }
}

impl<'a> Parser<&'a str> for Identifier {
    fn parse(&self, input: &'a str) -> (out: (&'a str, Result<String, InvalidIdent>)) {
        read_identifier(input)
    }
}

/// Every successful read of a char consumes it, so that repeating the rule ends.
pub proof fn any_char_consumes<'a>()
    ensures
        crate::repeat::consumes::<&'a str, AnyChar>(AnyChar),
        forall|input: &'a str| #[trigger] crate::repeat::ready_along::<&'a str, AnyChar>(AnyChar, input),
{
}

} // verus!
