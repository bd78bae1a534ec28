//! Rewriting the result of a rule with functions that may themselves fail.
use vstd::prelude::*;

use crate::{Parser, ParserMut, ParserOnce};

verus! {

/// Turns a successful output into a result: a failure of the function is a failure of the rule.
#[derive(Debug, Clone, Copy, PartialEq, Eq)]
pub struct FlatMap<P, F>(pub P, pub F);

/// Turns an error into a result: the function may recover from the failure.
#[derive(Debug, Clone, Copy, PartialEq, Eq)]
pub struct FlatMapErr<P, F>(pub P, pub F);

/// Turns an output with the first function, or an error with the second, into a result.
#[derive(Debug, Clone, Copy, PartialEq, Eq)]
pub struct FlatMapBoth<P, F, G>(pub P, pub F, pub G);


impl<Input, P, F, O> ParserOnce<Input> for FlatMap<P, F>
    where
        P: ParserOnce<Input>,
        F: FnOnce(P::Output) -> Result<O, P::Error>,
{
    type Output = O;
    type Error = P::Error;

    open spec fn ready(&self, input: Input) -> bool {
        &&& self.0.ready(input)
        &&& forall|rest: Input, a: P::Output| #[trigger] self.0.yields(input, rest, Ok(a)) ==> self.1.requires((a,))
    }

    open spec fn yields(&self, input: Input, rest: Input, res: Result<O, P::Error>) -> bool {
        ||| exists|a: P::Output| #[trigger] self.0.yields(input, rest, Ok(a)) && self.1.ensures((a,), res)
        ||| res is Err && self.0.yields(input, rest, Err(res->Err_0))
    }

    fn parse_once(self, input: Input) -> (out: (Input, Result<O, P::Error>)) {
        let ghost start = input;
        let (input, res) = self.0.parse_once(input);
        match res {
            Ok(a) => {
                assert(self.0.yields(start, input, Ok(a)));
                (input, (self.1)(a))
            },
            Err(e) => (input, Err(e)),
        }
    }
}

impl<Input, P, F, O> ParserMut<Input> for FlatMap<P, F>
    where
        P: ParserMut<Input>,
        F: FnMut(P::Output) -> Result<O, P::Error>,
{
    fn parse_mut(&mut self, input: Input) -> (out: (Input, Result<O, P::Error>)) {
        let ghost start = input;
        let (input, res) = self.0.parse_mut(input);
        match res {
            Ok(a) => {
                assert(self.0.yields(start, input, Ok(a)));
                (input, (self.1)(a))
            },
            Err(e) => (input, Err(e)),
        }
    }
}

impl<Input, P, F, O> Parser<Input> for FlatMap<P, F>
    where
        P: Parser<Input>,
        F: Fn(P::Output) -> Result<O, P::Error>,
{
    fn parse(&self, input: Input) -> (out: (Input, Result<O, P::Error>)) {
        let ghost start = input;
        let (input, res) = self.0.parse(input);
        match res {
            Ok(a) => {
                assert(self.0.yields(start, input, Ok(a)));
                (input, (self.1)(a))
            },
            Err(e) => (input, Err(e)),
        }
    }
}

impl<Input, P, F, E> ParserOnce<Input> for FlatMapErr<P, F>
    where
        P: ParserOnce<Input>,
        F: FnOnce(P::Error) -> Result<P::Output, E>,
{
    type Output = P::Output;
    type Error = E;

    open spec fn ready(&self, input: Input) -> bool {
        &&& self.0.ready(input)
        &&& forall|rest: Input, e: P::Error| #[trigger] self.0.yields(input, rest, Err(e)) ==> self.1.requires((e,))
    }

    open spec fn yields(&self, input: Input, rest: Input, res: Result<P::Output, E>) -> bool {
        ||| exists|e: P::Error| #[trigger] self.0.yields(input, rest, Err(e)) && self.1.ensures((e,), res)
        ||| res is Ok && self.0.yields(input, rest, Ok(res->Ok_0))
    }

    fn parse_once(self, input: Input) -> (out: (Input, Result<P::Output, E>)) {
        let ghost start = input;
        let (input, res) = self.0.parse_once(input);
        match res {
            Ok(a) => (input, Ok(a)),
            Err(e) => {
                assert(self.0.yields(start, input, Err(e)));
                (input, (self.1)(e))
            },
        }
    }
}

impl<Input, P, F, E> ParserMut<Input> for FlatMapErr<P, F>
    where
        P: ParserMut<Input>,
        F: FnMut(P::Error) -> Result<P::Output, E>,
{
    fn parse_mut(&mut self, input: Input) -> (out: (Input, Result<P::Output, E>)) {
        let ghost start = input;
        let (input, res) = self.0.parse_mut(input);
        match res {
            Ok(a) => (input, Ok(a)),
            Err(e) => {
                assert(self.0.yields(start, input, Err(e)));
                (input, (self.1)(e))
            },
        }
    }
}

impl<Input, P, F, E> Parser<Input> for FlatMapErr<P, F>
    where
        P: Parser<Input>,
        F: Fn(P::Error) -> Result<P::Output, E>,
{
    fn parse(&self, input: Input) -> (out: (Input, Result<P::Output, E>)) {
        let ghost start = input;
        let (input, res) = self.0.parse(input);
        match res {
            Ok(a) => (input, Ok(a)),
            Err(e) => {
                assert(self.0.yields(start, input, Err(e)));
                (input, (self.1)(e))
            },
        }
    }
}

impl<Input, P, F, G, O, E> ParserOnce<Input> for FlatMapBoth<P, F, G>
    where
        P: ParserOnce<Input>,
        F: FnOnce(P::Output) -> Result<O, E>,
        G: FnOnce(P::Error) -> Result<O, E>,
{
    type Output = O;
    type Error = E;

    open spec fn ready(&self, input: Input) -> bool {
        &&& self.0.ready(input)
        &&& forall|rest: Input, a: P::Output| #[trigger] self.0.yields(input, rest, Ok(a)) ==> self.1.requires((a,))
        &&& forall|rest: Input, e: P::Error| #[trigger] self.0.yields(input, rest, Err(e)) ==> self.2.requires((e,))
    }

    open spec fn yields(&self, input: Input, rest: Input, res: Result<O, E>) -> bool {
        ||| exists|a: P::Output| #[trigger] self.0.yields(input, rest, Ok(a)) && self.1.ensures((a,), res)
        ||| exists|e: P::Error| #[trigger] self.0.yields(input, rest, Err(e)) && self.2.ensures((e,), res)
    }

    fn parse_once(self, input: Input) -> (out: (Input, Result<O, E>)) {
        let ghost start = input;
        let (input, res) = self.0.parse_once(input);
        match res {
            Ok(a) => {
                assert(self.0.yields(start, input, Ok(a)));
                (input, (self.1)(a))
            },
            Err(e) => {
                assert(self.0.yields(start, input, Err(e)));
                (input, (self.2)(e))
            },
        }
    }
}

impl<Input, P, F, G, O, E> ParserMut<Input> for FlatMapBoth<P, F, G>
    where
        P: ParserMut<Input>,
        F: FnMut(P::Output) -> Result<O, E>,
        G: FnMut(P::Error) -> Result<O, E>,
{
    fn parse_mut(&mut self, input: Input) -> (out: (Input, Result<O, E>)) {
        let ghost start = input;
        let (input, res) = self.0.parse_mut(input);
        match res {
            Ok(a) => {
                assert(self.0.yields(start, input, Ok(a)));
                (input, (self.1)(a))
            },
            Err(e) => {
                assert(self.0.yields(start, input, Err(e)));
                (input, (self.2)(e))
            },
        }
    }
}

impl<Input, P, F, G, O, E> Parser<Input> for FlatMapBoth<P, F, G>
    where
        P: Parser<Input>,
        F: Fn(P::Output) -> Result<O, E>,
        G: Fn(P::Error) -> Result<O, E>,
{
    fn parse(&self, input: Input) -> (out: (Input, Result<O, E>)) {
        let ghost start = input;
        let (input, res) = self.0.parse(input);
        match res {
            Ok(a) => {
                assert(self.0.yields(start, input, Ok(a)));
                (input, (self.1)(a))
            },
            Err(e) => {
                assert(self.0.yields(start, input, Err(e)));
                (input, (self.2)(e))
            },
        }
    }
}

} // verus!
