//! A parser-combinator engine with automatic backtracking.
//!
//! A rule is attempted on an input and hands back the input where it stopped
//! together with either its output or a structured error. Every rule states,
//! through [`ParserOnce::ready`] and [`ParserOnce::yields`], on which inputs it may
//! be attempted and which outcomes it may produce; every combinator states its
//! outcomes in terms of the outcomes of the rules it is built from.
use vstd::prelude::*;

pub mod and_then;
pub mod filter;
pub mod flat_map;
pub mod func;
pub mod infallible;
pub mod inspect;
pub mod laws;
pub mod map;
pub mod prelude;
pub mod repeat;
pub mod restore;
pub mod text;
pub mod then;


use crate::and_then::{AndThen, OrElse};
use crate::filter::{Filter, FilterInput};
use crate::flat_map::{FlatMap, FlatMapBoth, FlatMapErr};
use crate::inspect::{Inspect, InspectInput};
use crate::map::{MapBoth, MapErr, MapOutput};
use crate::repeat::{OneOrMore, Optional, Repeat, ZeroOrMore};
use crate::then::{Or, ParOr, Then};

pub use crate::restore::Restore;

verus! {

/// A rule that always succeeds with `()` and consumes nothing.
#[derive(Debug, Clone, Copy, PartialEq, Eq)]
pub struct Accept;

/// A rule that always fails with `()` and consumes nothing.
#[derive(Debug, Clone, Copy, PartialEq, Eq)]
pub struct Reject;

/// A rule that can be attempted at least once, by value.
///
/// `ready(input)` says that the rule may be attempted from `input`;
/// `yields(input, rest, res)` says that attempting it from `input` may stop at
/// `rest` with the result `res`. A failing rule need not restore its input: that
/// is the business of the combinator that composed it.
pub trait ParserOnce<Input>: Sized {
    type Output;
    type Error;

    spec fn ready(&self, input: Input) -> bool;

    spec fn yields(&self, input: Input, rest: Input, res: Result<Self::Output, Self::Error>) -> bool;

    fn parse_once(self, input: Input) -> (out: (Input, Result<Self::Output, Self::Error>))
        requires
            self.ready(input),
        ensures
            self.yields(input, out.0, out.1),
    ;

    /// Rewrites a successful output with `f`.
    fn map<F>(self, f: F) -> (r: MapOutput<Self, F>)
        ensures
            r == MapOutput(self, f),
    {
        MapOutput(self, f)
    }

    /// Rewrites an error with `f`.
    fn map_err<F>(self, f: F) -> (r: MapErr<Self, F>)
        ensures
            r == MapErr(self, f),
    {
        MapErr(self, f)
    }

    /// Rewrites an output with `f` and an error with `g`.
    fn map_both<F, G>(self, f: F, g: G) -> (r: MapBoth<Self, F, G>)
        ensures
            r == MapBoth(self, f, g),
    {
        MapBoth(self, f, g)
    }

    /// Rewrites an output with `f`, which may itself fail.
    fn flat_map<F>(self, f: F) -> (r: FlatMap<Self, F>)
        ensures
            r == FlatMap(self, f),
    {
        FlatMap(self, f)
    }

    /// Rewrites an error with `f`, which may turn it into a success.
    fn flat_map_err<F>(self, f: F) -> (r: FlatMapErr<Self, F>)
        ensures
            r == FlatMapErr(self, f),
    {
        FlatMapErr(self, f)
    }

    /// Rewrites both channels with `f` and `g`, each of which may succeed or fail.
    fn flat_map_both<F, G>(self, f: F, g: G) -> (r: FlatMapBoth<Self, F, G>)
        ensures
            r == FlatMapBoth(self, f, g),
    {
        FlatMapBoth(self, f, g)
    }

    /// This rule, then `p` from where it stopped.
    fn then<P>(self, p: P) -> (r: Then<Self, P>)
        ensures
            r == Then(self, p),
    {
        Then(self, p)
    }

    /// This rule, or else `p` from the same place.
    fn or<P>(self, p: P) -> (r: Or<Self, P>)
        ensures
            r == Or(self, p),
    {
        Or(self, p)
    }

    /// This rule and `p` attempted at the same time; the result is chosen as `or` would.
    fn par_or<P>(self, p: P) -> (r: ParOr<Self, P>)
        ensures
            r == ParOr(self, p),
    {
        ParOr(self, p)
    }

    /// This rule, then the rule that `f` builds from its output.
    fn and_then<F>(self, f: F) -> (r: AndThen<Self, F>)
        ensures
            r == AndThen(self, f),
    {
        AndThen(self, f)
    }

    /// This rule, or else the rule that `f` builds from its error.
    fn or_else<F>(self, f: F) -> (r: OrElse<Self, F>)
        ensures
            r == OrElse(self, f),
    {
        OrElse(self, f)
    }

    /// Shows the result to `f`.
    fn inspect<F>(self, f: F) -> (r: Inspect<Self, F>)
        ensures
            r == Inspect(self, f),
    {
        Inspect(self, f)
    }

    /// Shows the input where the rule stopped to `f`.
    fn inspect_input<F>(self, f: F) -> (r: InspectInput<Self, F>)
        ensures
            r == InspectInput(self, f),
    {
        InspectInput(self, f)
    }

    /// Refuses an output on which `f` says `false`.
    fn filter<F>(self, f: F) -> (r: Filter<Self, F>)
        ensures
            r == Filter(self, f),
    {
        Filter(self, f)
    }

    /// Attempts the rule only where `f` accepts the input.
    fn filter_input<F>(self, f: F) -> (r: FilterInput<Self, F>)
        ensures
            r == FilterInput(self, f),
    {
        FilterInput(self, f)
    }

    /// Never fails: the result of the rule becomes the output.
    fn optional(self) -> (r: Optional<Self>)
        ensures
            r == Optional(self),
    {
        Optional(self)
    }

    /// Matches as often as possible, collecting into a sink made by `f`.
    fn zero_or_more<F>(self, f: F) -> (r: ZeroOrMore<Self, F>)
        ensures
            r == ZeroOrMore(self, f),
    {
        ZeroOrMore(self, f)
    }

    /// Like `zero_or_more`, but fails when nothing matched.
    fn one_or_more<F>(self, f: F) -> (r: OneOrMore<Self, F>)
        ensures
            r == OneOrMore(ZeroOrMore(self, f)),
    {
        OneOrMore(ZeroOrMore(self, f))
    }

    /// Matches at least `min` and at most `max` times, collecting into a sink made by `f`.
    fn repeat<F>(self, min: usize, max: usize, f: F) -> (r: Repeat<Self, F>)
        ensures
            r == Repeat(self, f, min, max),
    {
        Repeat(self, f, min, max)
    }
}

/// A rule that can be attempted again and again through a mutable handle.
pub trait ParserMut<Input>: ParserOnce<Input> {
    fn parse_mut(&mut self, input: Input) -> (out: (Input, Result<Self::Output, Self::Error>))
        requires
            old(self).ready(input),
        ensures
            old(self).yields(input, out.0, out.1),
            *final(self) == *old(self),
    ;
}

/// A rule that can be attempted through a shared handle.
pub trait Parser<Input>: ParserMut<Input> {
    fn parse(&self, input: Input) -> (out: (Input, Result<Self::Output, Self::Error>))
        requires
            self.ready(input),
        ensures
            self.yields(input, out.0, out.1),
    ;
}

impl<Input> ParserOnce<Input> for Accept {
    type Output = ();
    type Error = std::convert::Infallible;

    open spec fn ready(&self, input: Input) -> bool {
        true
    }

    open spec fn yields(&self, input: Input, rest: Input, res: Result<(), std::convert::Infallible>) -> bool {
        rest == input && res is Ok
    }

    fn parse_once(self, input: Input) -> (out: (Input, Result<(), std::convert::Infallible>)) {
        (input, Ok(()))
    }
}

impl<Input> ParserMut<Input> for Accept {
    fn parse_mut(&mut self, input: Input) -> (out: (Input, Result<(), std::convert::Infallible>)) {
        (input, Ok(()))
    }
}

impl<Input> Parser<Input> for Accept {
    fn parse(&self, input: Input) -> (out: (Input, Result<(), std::convert::Infallible>)) {
        (input, Ok(()))
    }
}

impl<Input> ParserOnce<Input> for Reject {
    type Output = std::convert::Infallible;
    type Error = ();

    open spec fn ready(&self, input: Input) -> bool {
        true
    }

    open spec fn yields(&self, input: Input, rest: Input, res: Result<std::convert::Infallible, ()>) -> bool {
        rest == input && res is Err
    }

    fn parse_once(self, input: Input) -> (out: (Input, Result<std::convert::Infallible, ()>)) {
        (input, Err(()))
    }
}

impl<Input> ParserMut<Input> for Reject {
    fn parse_mut(&mut self, input: Input) -> (out: (Input, Result<std::convert::Infallible, ()>)) {
        (input, Err(()))
    }
}

impl<Input> Parser<Input> for Reject {
    fn parse(&self, input: Input) -> (out: (Input, Result<std::convert::Infallible, ()>)) {
        (input, Err(()))
    }
}

impl<Input, P: ParserOnce<Input>> ParserOnce<Input> for Box<P> {
    type Output = P::Output;
    type Error = P::Error;

    open spec fn ready(&self, input: Input) -> bool {
        (**self).ready(input)
    }

    open spec fn yields(&self, input: Input, rest: Input, res: Result<P::Output, P::Error>) -> bool {
        (**self).yields(input, rest, res)
    }

    fn parse_once(self, input: Input) -> (out: (Input, Result<P::Output, P::Error>)) {
        (*self).parse_once(input)
    }
}

impl<Input, P: ParserMut<Input>> ParserMut<Input> for Box<P> {
    fn parse_mut(&mut self, input: Input) -> (out: (Input, Result<P::Output, P::Error>)) {
        (**self).parse_mut(input)
    }
}

impl<Input, P: Parser<Input>> Parser<Input> for Box<P> {
    fn parse(&self, input: Input) -> (out: (Input, Result<P::Output, P::Error>)) {
        (**self).parse(input)
    }
}

impl<'a, Input, P: Parser<Input>> ParserOnce<Input> for &'a P {
    type Output = P::Output;
    type Error = P::Error;

    open spec fn ready(&self, input: Input) -> bool {
        (**self).ready(input)
    }

    open spec fn yields(&self, input: Input, rest: Input, res: Result<P::Output, P::Error>) -> bool {
        (**self).yields(input, rest, res)
    }

    fn parse_once(self, input: Input) -> (out: (Input, Result<P::Output, P::Error>)) {
        (*self).parse(input)
    }
}

impl<'a, Input, P: Parser<Input>> ParserMut<Input> for &'a P {
    fn parse_mut(&mut self, input: Input) -> (out: (Input, Result<P::Output, P::Error>)) {
        (**self).parse(input)
    }
}

impl<'a, Input, P: Parser<Input>> Parser<Input> for &'a P {
    fn parse(&self, input: Input) -> (out: (Input, Result<P::Output, P::Error>)) {
        (**self).parse(input)
    }
}

impl<Input, P: Parser<Input>> ParserOnce<Input> for std::rc::Rc<P> {
    type Output = P::Output;
    type Error = P::Error;

    open spec fn ready(&self, input: Input) -> bool {
        (**self).ready(input)
    }

    open spec fn yields(&self, input: Input, rest: Input, res: Result<P::Output, P::Error>) -> bool {
        (**self).yields(input, rest, res)
    }

    fn parse_once(self, input: Input) -> (out: (Input, Result<P::Output, P::Error>)) {
        (*self).parse(input)
    }
}

impl<Input, P: Parser<Input>> ParserMut<Input> for std::rc::Rc<P> {
    fn parse_mut(&mut self, input: Input) -> (out: (Input, Result<P::Output, P::Error>)) {
        (**self).parse(input)
    }
}

impl<Input, P: Parser<Input>> Parser<Input> for std::rc::Rc<P> {
    fn parse(&self, input: Input) -> (out: (Input, Result<P::Output, P::Error>)) {
        (**self).parse(input)
    }
}

impl<Input, P: Parser<Input>> ParserOnce<Input> for std::sync::Arc<P> {
    type Output = P::Output;
    type Error = P::Error;

    open spec fn ready(&self, input: Input) -> bool {
        (**self).ready(input)
    }

    open spec fn yields(&self, input: Input, rest: Input, res: Result<P::Output, P::Error>) -> bool {
        (**self).yields(input, rest, res)
    }

    fn parse_once(self, input: Input) -> (out: (Input, Result<P::Output, P::Error>)) {
        (*self).parse(input)
    }
}

impl<Input, P: Parser<Input>> ParserMut<Input> for std::sync::Arc<P> {
    fn parse_mut(&mut self, input: Input) -> (out: (Input, Result<P::Output, P::Error>)) {
        (**self).parse(input)
    }
}

impl<Input, P: Parser<Input>> Parser<Input> for std::sync::Arc<P> {
    fn parse(&self, input: Input) -> (out: (Input, Result<P::Output, P::Error>)) {
        (**self).parse(input)
    }
}

} // verus!
