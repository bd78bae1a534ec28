//! Rewriting the output or the error of a rule.
use vstd::prelude::*;

use crate::{Parser, ParserMut, ParserOnce};

verus! {

/// Rewrites a successful output; failures pass unchanged.
#[derive(Debug, Clone, Copy, PartialEq, Eq)]
pub struct MapOutput<P, F>(pub P, pub F);

/// Rewrites an error; successes pass unchanged.
#[derive(Debug, Clone, Copy, PartialEq, Eq)]
pub struct MapErr<P, F>(pub P, pub F);

/// Rewrites an output with the first function and an error with the second.
#[derive(Debug, Clone, Copy, PartialEq, Eq)]
pub struct MapBoth<P, F, G>(pub P, pub F, pub G);


impl<Input, P, F, O> ParserOnce<Input> for MapOutput<P, F>
    where
        P: ParserOnce<Input>,
        F: FnOnce(P::Output) -> O,
{
    type Output = O;
    type Error = P::Error;

    open spec fn ready(&self, input: Input) -> bool {
        &&& self.0.ready(input)
        &&& forall|rest: Input, a: P::Output| #[trigger] self.0.yields(input, rest, Ok(a)) ==> self.1.requires((a,))
    }

    open spec fn yields(&self, input: Input, rest: Input, res: Result<O, P::Error>) -> bool {
        match res {
            Ok(b) => exists|a: P::Output| #[trigger] self.0.yields(input, rest, Ok(a)) && self.1.ensures((a,), b),
            Err(e) => self.0.yields(input, rest, Err(e)),
        }
    }

    fn parse_once(self, input: Input) -> (out: (Input, Result<O, P::Error>)) {
        let ghost start = input;
        let (input, res) = self.0.parse_once(input);
        match res {
            Ok(a) => {
                assert(self.0.yields(start, input, Ok(a)));
                (input, Ok((self.1)(a)))
            },
            Err(e) => (input, Err(e)),
        }
    }
}

impl<Input, P, F, O> ParserMut<Input> for MapOutput<P, F>
    where
        P: ParserMut<Input>,
        F: FnMut(P::Output) -> O,
{
    fn parse_mut(&mut self, input: Input) -> (out: (Input, Result<O, P::Error>)) {
        let ghost start = input;
        let (input, res) = self.0.parse_mut(input);
        match res {
            Ok(a) => {
                assert(self.0.yields(start, input, Ok(a)));
                (input, Ok((self.1)(a)))
            },
            Err(e) => (input, Err(e)),
        }
    }
}

impl<Input, P, F, O> Parser<Input> for MapOutput<P, F>
    where
        P: Parser<Input>,
        F: Fn(P::Output) -> O,
{
    fn parse(&self, input: Input) -> (out: (Input, Result<O, P::Error>)) {
        let ghost start = input;
        let (input, res) = self.0.parse(input);
        match res {
            Ok(a) => {
                assert(self.0.yields(start, input, Ok(a)));
                (input, Ok((self.1)(a)))
            },
            Err(e) => (input, Err(e)),
        }
    }
}

impl<Input, P, F, E> ParserOnce<Input> for MapErr<P, F>
    where
        P: ParserOnce<Input>,
        F: FnOnce(P::Error) -> E,
{
    type Output = P::Output;
    type Error = E;

    open spec fn ready(&self, input: Input) -> bool {
        &&& self.0.ready(input)
        &&& forall|rest: Input, e: P::Error| #[trigger] self.0.yields(input, rest, Err(e)) ==> self.1.requires((e,))
    }

    open spec fn yields(&self, input: Input, rest: Input, res: Result<P::Output, E>) -> bool {
        match res {
            Ok(a) => self.0.yields(input, rest, Ok(a)),
            Err(d) => exists|e: P::Error| #[trigger] self.0.yields(input, rest, Err(e)) && self.1.ensures((e,), d),
        }
    }

    fn parse_once(self, input: Input) -> (out: (Input, Result<P::Output, E>)) {
        let ghost start = input;
        let (input, res) = self.0.parse_once(input);
        match res {
            Ok(a) => (input, Ok(a)),
            Err(e) => {
                assert(self.0.yields(start, input, Err(e)));
                (input, Err((self.1)(e)))
            },
        }
    }
}

impl<Input, P, F, E> ParserMut<Input> for MapErr<P, F>
    where
        P: ParserMut<Input>,
        F: FnMut(P::Error) -> E,
{
    fn parse_mut(&mut self, input: Input) -> (out: (Input, Result<P::Output, E>)) {
        let ghost start = input;
        let (input, res) = self.0.parse_mut(input);
        match res {
            Ok(a) => (input, Ok(a)),
            Err(e) => {
                assert(self.0.yields(start, input, Err(e)));
                (input, Err((self.1)(e)))
            },
        }
    }
}

impl<Input, P, F, E> Parser<Input> for MapErr<P, F>
    where
        P: Parser<Input>,
        F: Fn(P::Error) -> E,
{
    fn parse(&self, input: Input) -> (out: (Input, Result<P::Output, E>)) {
        let ghost start = input;
        let (input, res) = self.0.parse(input);
        match res {
            Ok(a) => (input, Ok(a)),
            Err(e) => {
                assert(self.0.yields(start, input, Err(e)));
                (input, Err((self.1)(e)))
            },
        }
    }
}

impl<Input, P, F, G, O, E> ParserOnce<Input> for MapBoth<P, F, G>
    where
        P: ParserOnce<Input>,
        F: FnOnce(P::Output) -> O,
        G: FnOnce(P::Error) -> E,
{
    type Output = O;
    type Error = E;

    open spec fn ready(&self, input: Input) -> bool {
        &&& self.0.ready(input)
        &&& forall|rest: Input, a: P::Output| #[trigger] self.0.yields(input, rest, Ok(a)) ==> self.1.requires((a,))
        &&& forall|rest: Input, e: P::Error| #[trigger] self.0.yields(input, rest, Err(e)) ==> self.2.requires((e,))
    }

    open spec fn yields(&self, input: Input, rest: Input, res: Result<O, E>) -> bool {
        match res {
            Ok(b) => exists|a: P::Output| #[trigger] self.0.yields(input, rest, Ok(a)) && self.1.ensures((a,), b),
            Err(d) => exists|e: P::Error| #[trigger] self.0.yields(input, rest, Err(e)) && self.2.ensures((e,), d),
        }
    }

    fn parse_once(self, input: Input) -> (out: (Input, Result<O, E>)) {
        let ghost start = input;
        let (input, res) = self.0.parse_once(input);
        match res {
            Ok(a) => {
                assert(self.0.yields(start, input, Ok(a)));
                (input, Ok((self.1)(a)))
            },
            Err(e) => {
                assert(self.0.yields(start, input, Err(e)));
                (input, Err((self.2)(e)))
            },
        }
    }
}

impl<Input, P, F, G, O, E> ParserMut<Input> for MapBoth<P, F, G>
    where
        P: ParserMut<Input>,
        F: FnMut(P::Output) -> O,
        G: FnMut(P::Error) -> E,
{
    fn parse_mut(&mut self, input: Input) -> (out: (Input, Result<O, E>)) {
        let ghost start = input;
        let (input, res) = self.0.parse_mut(input);
        match res {
            Ok(a) => {
                assert(self.0.yields(start, input, Ok(a)));
                (input, Ok((self.1)(a)))
            },
            Err(e) => {
                assert(self.0.yields(start, input, Err(e)));
                (input, Err((self.2)(e)))
            },
        }
    }
}

impl<Input, P, F, G, O, E> Parser<Input> for MapBoth<P, F, G>
    where
        P: Parser<Input>,
        F: Fn(P::Output) -> O,
        G: Fn(P::Error) -> E,
{
    fn parse(&self, input: Input) -> (out: (Input, Result<O, E>)) {
        let ghost start = input;
        let (input, res) = self.0.parse(input);
        match res {
            Ok(a) => {
                assert(self.0.yields(start, input, Ok(a)));
                (input, Ok((self.1)(a)))
            },
            Err(e) => {
                assert(self.0.yields(start, input, Err(e)));
                (input, Err((self.2)(e)))
            },
        }
    }
}

} // verus!
