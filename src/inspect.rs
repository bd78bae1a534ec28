//! Observing a rule without changing what it does.
use vstd::prelude::*;

use crate::{Parser, ParserMut, ParserOnce};

verus! {

/// Shows the result of each attempt to a callback; the outcome is the inner rule's.
#[derive(Debug, Clone, Copy, PartialEq, Eq)]
pub struct Inspect<P, F>(pub P, pub F);

/// Shows the input where each attempt stopped to a callback; the outcome is the inner rule's.
#[derive(Debug, Clone, Copy, PartialEq, Eq)]
pub struct InspectInput<P, F>(pub P, pub F);


impl<Input, P, F> ParserOnce<Input> for Inspect<P, F>
    where
        P: ParserOnce<Input>,
        F: FnOnce(&Result<P::Output, P::Error>),
{
    type Output = P::Output;
    type Error = P::Error;

    open spec fn ready(&self, input: Input) -> bool {
        &&& self.0.ready(input)
        &&& forall|rest: Input, res: Result<P::Output, P::Error>| #[trigger] self.0.yields(input, rest, res) ==> self.1.requires((&res,))
    }

    open spec fn yields(&self, input: Input, rest: Input, res: Result<P::Output, P::Error>) -> bool {
        self.0.yields(input, rest, res)
    }

    fn parse_once(self, input: Input) -> (out: (Input, Result<P::Output, P::Error>)) {
        let (input, res) = self.0.parse_once(input);
        (self.1)(&res);
        (input, res)
    }
}

impl<Input, P, F> ParserMut<Input> for Inspect<P, F>
    where
        P: ParserMut<Input>,
        F: FnMut(&Result<P::Output, P::Error>),
{
    fn parse_mut(&mut self, input: Input) -> (out: (Input, Result<P::Output, P::Error>)) {
        let (input, res) = self.0.parse_mut(input);
        (self.1)(&res);
        (input, res)
    }
}

impl<Input, P, F> Parser<Input> for Inspect<P, F>
    where
        P: Parser<Input>,
        F: Fn(&Result<P::Output, P::Error>),
{
    fn parse(&self, input: Input) -> (out: (Input, Result<P::Output, P::Error>)) {
        let (input, res) = self.0.parse(input);
        (self.1)(&res);
        (input, res)
    }
}

impl<Input, P, F> ParserOnce<Input> for InspectInput<P, F>
    where
        P: ParserOnce<Input>,
        F: FnOnce(&Input),
{
    type Output = P::Output;
    type Error = P::Error;

    open spec fn ready(&self, input: Input) -> bool {
        &&& self.0.ready(input)
        &&& forall|rest: Input, res: Result<P::Output, P::Error>| #[trigger] self.0.yields(input, rest, res) ==> self.1.requires((&rest,))
    }

    open spec fn yields(&self, input: Input, rest: Input, res: Result<P::Output, P::Error>) -> bool {
        self.0.yields(input, rest, res)
    }

    fn parse_once(self, input: Input) -> (out: (Input, Result<P::Output, P::Error>)) {
        let (input, res) = self.0.parse_once(input);
        (self.1)(&input);
        (input, res)
    }
}

impl<Input, P, F> ParserMut<Input> for InspectInput<P, F>
    where
        P: ParserMut<Input>,
        F: FnMut(&Input),
{
    fn parse_mut(&mut self, input: Input) -> (out: (Input, Result<P::Output, P::Error>)) {
        let (input, res) = self.0.parse_mut(input);
        (self.1)(&input);
        (input, res)
    }
}

impl<Input, P, F> Parser<Input> for InspectInput<P, F>
    where
        P: Parser<Input>,
        F: Fn(&Input),
{
    fn parse(&self, input: Input) -> (out: (Input, Result<P::Output, P::Error>)) {
        let (input, res) = self.0.parse(input);
        (self.1)(&input);
        (input, res)
    }
}

} // verus!
