//! Refusing matches by a predicate.
use vstd::prelude::*;

use crate::restore::Restore;
use crate::{Parser, ParserMut, ParserOnce};

verus! {

/// Why a filtered rule failed: the inner rule failed, or the predicate said no.
#[derive(Debug, Clone, Copy, PartialEq, Eq)]
pub enum FilterError<E> {
    ParseError(E),
    FilterError,
}

/// Refuses a successful output on which the predicate says `false`, and then
/// returns to where the attempt started.
#[derive(Debug, Clone, Copy, PartialEq, Eq)]
pub struct Filter<P, F>(pub P, pub F);

/// Asks the predicate about the input first, and attempts the inner rule only where it says `true`.
#[derive(Debug, Clone, Copy, PartialEq, Eq)]
pub struct FilterInput<P, F>(pub P, pub F);


impl<Input: Restore, P, F> ParserOnce<Input> for Filter<P, F>
    where
        P: ParserOnce<Input>,
        F: FnOnce(&P::Output) -> bool,
{
    type Output = P::Output;
    type Error = FilterError<P::Error>;

    open spec fn ready(&self, input: Input) -> bool {
        &&& self.0.ready(input)
        &&& forall|rest: Input, a: P::Output| #[trigger] self.0.yields(input, rest, Ok(a)) ==> self.1.requires((&a,))
    }

    open spec fn yields(&self, input: Input, rest: Input, res: Result<P::Output, FilterError<P::Error>>) -> bool {
        match res {
            Ok(a) => self.0.yields(input, rest, Ok(a)) && self.1.ensures((&a,), true),
            Err(FilterError::FilterError) => rest == input && exists|end: Input, a: P::Output|
                #[trigger] self.0.yields(input, end, Ok(a)) && self.1.ensures((&a,), false),
            Err(FilterError::ParseError(e)) => rest == input && exists|end: Input, e0: P::Error|
                #[trigger] self.0.yields(input, end, Err(e0)) && e0 == e,
        }
    }

    fn parse_once(self, input: Input) -> (out: (Input, Result<P::Output, FilterError<P::Error>>)) {
        let save = input.save();
        let ghost start = input;
        let (input, res) = self.0.parse_once(input);
        match res {
            Ok(a) => {
                assert(self.0.yields(start, input, Ok(a)));
                if (self.1)(&a) {
                    (input, Ok(a))
                } else {
                    (input.restore(save), Err(FilterError::FilterError))
                }
            },
            Err(e) => {
                assert(self.0.yields(start, input, Err(e)));
                (input.restore(save), Err(FilterError::ParseError(e)))
            },
        }
    }
}

impl<Input: Restore, P, F> ParserMut<Input> for Filter<P, F>
    where
        P: ParserMut<Input>,
        F: FnMut(&P::Output) -> bool,
{
    fn parse_mut(&mut self, input: Input) -> (out: (Input, Result<P::Output, FilterError<P::Error>>)) {
        let save = input.save();
        let ghost start = input;
        let (input, res) = self.0.parse_mut(input);
        match res {
            Ok(a) => {
                assert(self.0.yields(start, input, Ok(a)));
                if (self.1)(&a) {
                    (input, Ok(a))
                } else {
                    (input.restore(save), Err(FilterError::FilterError))
                }
            },
            Err(e) => {
                assert(self.0.yields(start, input, Err(e)));
                (input.restore(save), Err(FilterError::ParseError(e)))
            },
        }
    }
}

impl<Input: Restore, P, F> Parser<Input> for Filter<P, F>
    where
        P: Parser<Input>,
        F: Fn(&P::Output) -> bool,
{
    fn parse(&self, input: Input) -> (out: (Input, Result<P::Output, FilterError<P::Error>>)) {
        let save = input.save();
        let ghost start = input;
        let (input, res) = self.0.parse(input);
        match res {
            Ok(a) => {
                assert(self.0.yields(start, input, Ok(a)));
                if (self.1)(&a) {
                    (input, Ok(a))
                } else {
                    (input.restore(save), Err(FilterError::FilterError))
                }
            },
            Err(e) => {
                assert(self.0.yields(start, input, Err(e)));
                (input.restore(save), Err(FilterError::ParseError(e)))
            },
        }
    }
}

impl<Input, P, F> ParserOnce<Input> for FilterInput<P, F>
    where
        P: ParserOnce<Input>,
        F: FnOnce(&Input) -> bool,
{
    type Output = P::Output;
    type Error = FilterError<P::Error>;

    open spec fn ready(&self, input: Input) -> bool {
        &&& self.1.requires((&input,))
        &&& self.1.ensures((&input,), true) ==> self.0.ready(input)
    }

    open spec fn yields(&self, input: Input, rest: Input, res: Result<P::Output, FilterError<P::Error>>) -> bool {
        match res {
            Ok(a) => self.1.ensures((&input,), true) && self.0.yields(input, rest, Ok(a)),
            Err(FilterError::FilterError) => rest == input && self.1.ensures((&input,), false),
            Err(FilterError::ParseError(e)) => self.1.ensures((&input,), true) && self.0.yields(input, rest, Err(e)),
        }
    }

    fn parse_once(self, input: Input) -> (out: (Input, Result<P::Output, FilterError<P::Error>>)) {
        if (self.1)(&input) {
            let (input, res) = self.0.parse_once(input);
            match res {
                Ok(a) => (input, Ok(a)),
                Err(e) => (input, Err(FilterError::ParseError(e))),
            }
        } else {
            (input, Err(FilterError::FilterError))
        }
    }
}

impl<Input, P, F> ParserMut<Input> for FilterInput<P, F>
    where
        P: ParserMut<Input>,
        F: FnMut(&Input) -> bool,
{
    fn parse_mut(&mut self, input: Input) -> (out: (Input, Result<P::Output, FilterError<P::Error>>)) {
        if (self.1)(&input) {
            let (input, res) = self.0.parse_mut(input);
            match res {
                Ok(a) => (input, Ok(a)),
                Err(e) => (input, Err(FilterError::ParseError(e))),
            }
        } else {
            (input, Err(FilterError::FilterError))
        }
    }
}

impl<Input, P, F> Parser<Input> for FilterInput<P, F>
    where
        P: Parser<Input>,
        F: Fn(&Input) -> bool,
{
    fn parse(&self, input: Input) -> (out: (Input, Result<P::Output, FilterError<P::Error>>)) {
        if (self.1)(&input) {
            let (input, res) = self.0.parse(input);
            match res {
                Ok(a) => (input, Ok(a)),
                Err(e) => (input, Err(FilterError::ParseError(e))),
            }
        } else {
            (input, Err(FilterError::FilterError))
        }
    }
}

} // verus!
