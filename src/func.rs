//! Rules made from plain functions, and rules built lazily.
use vstd::prelude::*;

use crate::{Parser, ParserMut, ParserOnce};

verus! {

/// Turns a value into a rule: a function from input to outcome, or a factory of rules.
pub trait AsParser: Sized {
    /// A factory called once, on the one attempt, for the rule to run.
    fn defer_once(self) -> (r: DeferOnce<Self>)
        ensures
            r == DeferOnce(self),
    {
        DeferOnce(self)
    }

    /// A function from input to outcome, called once.
    fn as_parser_once(self) -> (r: FuncOnce<Self>)
        ensures
            r == FuncOnce(self),
    {
        FuncOnce(self)
    }

    /// A factory called on each attempt, through a mutable handle.
    fn defer_mut(self) -> (r: DeferMut<Self>)
        ensures
            r == DeferMut(self),
    {
        DeferMut(self)
    }

    /// A function from input to outcome, called through a mutable handle.
    fn as_parser_mut(self) -> (r: FuncMut<Self>)
        ensures
            r == FuncMut(self),
    {
        FuncMut(self)
    }

    /// A factory called on each attempt, through a shared handle.
    fn defer(self) -> (r: Defer<Self>)
        ensures
            r == Defer(self),
    {
        Defer(self)
    }

    /// A function from input to outcome, called through a shared handle.
    fn as_parser(self) -> (r: Func<Self>)
        ensures
            r == Func(self),
    {
        Func(self)
    }
}

impl<T> AsParser for T {
}

/// A rule that is a function from input to outcome, called at most once.
#[derive(Debug, Clone, Copy, PartialEq, Eq)]
pub struct FuncOnce<F>(pub F);

/// A rule that is a function from input to outcome, called through a mutable handle.
#[derive(Debug, Clone, Copy, PartialEq, Eq)]
pub struct FuncMut<F>(pub F);

/// A rule that is a function from input to outcome, called through a shared handle.
#[derive(Debug, Clone, Copy, PartialEq, Eq)]
pub struct Func<F>(pub F);

/// A rule built by calling a factory, once, on the one attempt.
#[derive(Debug, Clone, Copy, PartialEq, Eq)]
pub struct DeferOnce<F>(pub F);

/// A rule built afresh by calling a factory on each attempt, through a mutable handle.
#[derive(Debug, Clone, Copy, PartialEq, Eq)]
pub struct DeferMut<F>(pub F);

/// A rule built afresh by calling a factory on each attempt; recursive grammars refer to
/// themselves through it.
#[derive(Debug, Clone, Copy, PartialEq, Eq)]
pub struct Defer<F>(pub F);


impl<Input, F, O, E> ParserOnce<Input> for FuncOnce<F>
    where
        F: FnOnce(Input) -> (Input, Result<O, E>),
{
    type Output = O;
    type Error = E;

    open spec fn ready(&self, input: Input) -> bool {
        self.0.requires((input,))
    }

    open spec fn yields(&self, input: Input, rest: Input, res: Result<O, E>) -> bool {
        self.0.ensures((input,), (rest, res))
    }

    fn parse_once(self, input: Input) -> (out: (Input, Result<O, E>)) {
        (self.0)(input)
    }
}

impl<Input, F, O, E> ParserOnce<Input> for FuncMut<F>
    where
        F: FnMut(Input) -> (Input, Result<O, E>),
{
    type Output = O;
    type Error = E;

    open spec fn ready(&self, input: Input) -> bool {
        self.0.requires((input,))
    }

    open spec fn yields(&self, input: Input, rest: Input, res: Result<O, E>) -> bool {
        self.0.ensures((input,), (rest, res))
    }

    fn parse_once(self, input: Input) -> (out: (Input, Result<O, E>)) {
        let mut p = self;
        p.parse_mut(input)
    }
}

impl<Input, F, O, E> ParserMut<Input> for FuncMut<F>
    where
        F: FnMut(Input) -> (Input, Result<O, E>),
{
    fn parse_mut(&mut self, input: Input) -> (out: (Input, Result<O, E>)) {
        (self.0)(input)
    }
}

impl<Input, F, O, E> ParserOnce<Input> for Func<F>
    where
        F: Fn(Input) -> (Input, Result<O, E>),
{
    type Output = O;
    type Error = E;

    open spec fn ready(&self, input: Input) -> bool {
        self.0.requires((input,))
    }

    open spec fn yields(&self, input: Input, rest: Input, res: Result<O, E>) -> bool {
        self.0.ensures((input,), (rest, res))
    }

    fn parse_once(self, input: Input) -> (out: (Input, Result<O, E>)) {
        self.parse(input)
    }
}

impl<Input, F, O, E> ParserMut<Input> for Func<F>
    where
        F: Fn(Input) -> (Input, Result<O, E>),
{
    fn parse_mut(&mut self, input: Input) -> (out: (Input, Result<O, E>)) {
        (self.0)(input)
    }
}

impl<Input, F, O, E> Parser<Input> for Func<F>
    where
        F: Fn(Input) -> (Input, Result<O, E>),
{
    fn parse(&self, input: Input) -> (out: (Input, Result<O, E>)) {
        (self.0)(input)
    }
}

impl<Input, F, P> ParserOnce<Input> for DeferOnce<F>
    where
        F: FnOnce() -> P,
        P: ParserOnce<Input>,
{
    type Output = P::Output;
    type Error = P::Error;

    open spec fn ready(&self, input: Input) -> bool {
        &&& self.0.requires(())
        &&& forall|p: P| #[trigger] self.0.ensures((), p) ==> p.ready(input)
    }

    open spec fn yields(&self, input: Input, rest: Input, res: Result<P::Output, P::Error>) -> bool {
        exists|p: P| #[trigger] self.0.ensures((), p) && p.yields(input, rest, res)
    }

    fn parse_once(self, input: Input) -> (out: (Input, Result<P::Output, P::Error>)) {
        let p = (self.0)();
        let ghost q = p;
        let ghost start = input;
        let out = p.parse_once(input);
        assert(q.yields(start, out.0, out.1));
        out
    }
}

impl<Input, F, P> ParserOnce<Input> for DeferMut<F>
    where
        F: FnMut() -> P,
        P: ParserOnce<Input>,
{
    type Output = P::Output;
    type Error = P::Error;

    open spec fn ready(&self, input: Input) -> bool {
        &&& self.0.requires(())
        &&& forall|p: P| #[trigger] self.0.ensures((), p) ==> p.ready(input)
    }

    open spec fn yields(&self, input: Input, rest: Input, res: Result<P::Output, P::Error>) -> bool {
        exists|p: P| #[trigger] self.0.ensures((), p) && p.yields(input, rest, res)
    }

    fn parse_once(self, input: Input) -> (out: (Input, Result<P::Output, P::Error>)) {
        let mut p = self;
        p.parse_mut(input)
    }
}

impl<Input, F, P> ParserMut<Input> for DeferMut<F>
    where
        F: FnMut() -> P,
        P: ParserOnce<Input>,
{
    fn parse_mut(&mut self, input: Input) -> (out: (Input, Result<P::Output, P::Error>)) {
        let p = (self.0)();
        let ghost q = p;
        let ghost start = input;
        let out = p.parse_once(input);
        assert(q.yields(start, out.0, out.1));
        out
    }
}

impl<Input, F, P> ParserOnce<Input> for Defer<F>
    where
        F: Fn() -> P,
        P: ParserOnce<Input>,
{
    type Output = P::Output;
    type Error = P::Error;

    open spec fn ready(&self, input: Input) -> bool {
        &&& self.0.requires(())
        &&& forall|p: P| #[trigger] self.0.ensures((), p) ==> p.ready(input)
    }

    open spec fn yields(&self, input: Input, rest: Input, res: Result<P::Output, P::Error>) -> bool {
        exists|p: P| #[trigger] self.0.ensures((), p) && p.yields(input, rest, res)
    }

    fn parse_once(self, input: Input) -> (out: (Input, Result<P::Output, P::Error>)) {
        self.parse(input)
    }
}

impl<Input, F, P> ParserMut<Input> for Defer<F>
    where
        F: Fn() -> P,
        P: ParserOnce<Input>,
{
    fn parse_mut(&mut self, input: Input) -> (out: (Input, Result<P::Output, P::Error>)) {
        self.parse(input)
    }
}

impl<Input, F, P> Parser<Input> for Defer<F>
    where
        F: Fn() -> P,
        P: ParserOnce<Input>,
{
    fn parse(&self, input: Input) -> (out: (Input, Result<P::Output, P::Error>)) {
        let p = (self.0)();
        let ghost q = p;
        let ghost start = input;
        let out = p.parse_once(input);
        assert(q.yields(start, out.0, out.1));
        out
    }
}

} // verus!
