//! Chaining a rule to one built from its output, or from its error.
use vstd::prelude::*;

use either::Either;

use crate::restore::Restore;
use crate::{Parser, ParserMut, ParserOnce};

verus! {

/// Attempts a rule, then the rule that the function builds from its output, from where the
/// first stopped; on any failure the input is back where the first started.
#[derive(Debug, Clone, Copy, PartialEq, Eq)]
pub struct AndThen<P, F>(pub P, pub F);

/// Attempts a rule, or else the rule that the function builds from its error, from the
/// same place; when the fallback fails too, its error alone is reported.
#[derive(Debug, Clone, Copy, PartialEq, Eq)]
pub struct OrElse<P, F>(pub P, pub F);


impl<Input: Restore, P, F, Q> ParserOnce<Input> for AndThen<P, F>
    where
        P: ParserOnce<Input>,
        F: FnOnce(P::Output) -> Q,
        Q: ParserOnce<Input>,
{
    type Output = Q::Output;
    type Error = Either<P::Error, Q::Error>;

    open spec fn ready(&self, input: Input) -> bool {
        &&& self.0.ready(input)
        &&& forall|mid: Input, a: P::Output| #[trigger] self.0.yields(input, mid, Ok(a)) ==> self.1.requires((a,))
        &&& forall|mid: Input, a: P::Output, q: Q|
            #[trigger] self.0.yields(input, mid, Ok(a)) && #[trigger] self.1.ensures((a,), q) ==> q.ready(mid)
    }

    open spec fn yields(&self, input: Input, rest: Input, res: Result<Q::Output, Either<P::Error, Q::Error>>) -> bool {
        match res {
            Ok(b) => exists|mid: Input, a: P::Output, q: Q|
                #[trigger] self.0.yields(input, mid, Ok(a)) && #[trigger] self.1.ensures((a,), q)
                    && q.yields(mid, rest, Ok(b)),
            Err(Either::Left(e)) => rest == input && exists|end: Input, e0: P::Error|
                #[trigger] self.0.yields(input, end, Err(e0)) && e0 == e,
            Err(Either::Right(e)) => rest == input && exists|mid: Input, a: P::Output, q: Q, end: Input, e0: Q::Error|
                #[trigger] self.0.yields(input, mid, Ok(a)) && #[trigger] self.1.ensures((a,), q)
                    && #[trigger] q.yields(mid, end, Err(e0)) && e0 == e,
        }
    }

    fn parse_once(self, input: Input) -> (out: (Input, Result<Q::Output, Either<P::Error, Q::Error>>)) {
        let save = input.save();
        let ghost start = input;
        let (input, res) = self.0.parse_once(input);
        match res {
            Err(e) => {
                assert(self.0.yields(start, input, Err(e)));
                (input.restore(save), Err(Either::Left(e)))
            },
            Ok(a) => {
                let ghost mid = input;
                let ghost a0 = a;
                assert(self.0.yields(start, mid, Ok(a)));
                let q = (self.1)(a);
                assert(self.1.ensures((a0,), q));
                let ghost q0 = q;
                let (input, res) = q.parse_once(input);
                match res {
                    Ok(b) => {
                        assert(q0.yields(mid, input, Ok(b)));
                        (input, Ok(b))
                    },
                    Err(e) => {
                        assert(q0.yields(mid, input, Err(e)));
                        (input.restore(save), Err(Either::Right(e)))
                    },
                }
            },
        }
    }
}

impl<Input: Restore, P, F, Q> ParserMut<Input> for AndThen<P, F>
    where
        P: ParserMut<Input>,
        F: FnMut(P::Output) -> Q,
        Q: ParserOnce<Input>,
{
    fn parse_mut(&mut self, input: Input) -> (out: (Input, Result<Q::Output, Either<P::Error, Q::Error>>)) {
        let save = input.save();
        let ghost start = input;
        let (input, res) = self.0.parse_mut(input);
        match res {
            Err(e) => {
                assert(self.0.yields(start, input, Err(e)));
                (input.restore(save), Err(Either::Left(e)))
            },
            Ok(a) => {
                let ghost mid = input;
                let ghost a0 = a;
                assert(self.0.yields(start, mid, Ok(a)));
                let q = (self.1)(a);
                assert(self.1.ensures((a0,), q));
                let ghost q0 = q;
                let (input, res) = q.parse_once(input);
                match res {
                    Ok(b) => {
                        assert(q0.yields(mid, input, Ok(b)));
                        (input, Ok(b))
                    },
                    Err(e) => {
                        assert(q0.yields(mid, input, Err(e)));
                        (input.restore(save), Err(Either::Right(e)))
                    },
                }
            },
        }
    }
}

impl<Input: Restore, P, F, Q> Parser<Input> for AndThen<P, F>
    where
        P: Parser<Input>,
        F: Fn(P::Output) -> Q,
        Q: ParserOnce<Input>,
{
    fn parse(&self, input: Input) -> (out: (Input, Result<Q::Output, Either<P::Error, Q::Error>>)) {
        let save = input.save();
        let ghost start = input;
        let (input, res) = self.0.parse(input);
        match res {
            Err(e) => {
                assert(self.0.yields(start, input, Err(e)));
                (input.restore(save), Err(Either::Left(e)))
            },
            Ok(a) => {
                let ghost mid = input;
                let ghost a0 = a;
                assert(self.0.yields(start, mid, Ok(a)));
                let q = (self.1)(a);
                assert(self.1.ensures((a0,), q));
                let ghost q0 = q;
                let (input, res) = q.parse_once(input);
                match res {
                    Ok(b) => {
                        assert(q0.yields(mid, input, Ok(b)));
                        (input, Ok(b))
                    },
                    Err(e) => {
                        assert(q0.yields(mid, input, Err(e)));
                        (input.restore(save), Err(Either::Right(e)))
                    },
                }
            },
        }
    }
}

impl<Input: Restore, P, F, Q> ParserOnce<Input> for OrElse<P, F>
    where
        P: ParserOnce<Input>,
        F: FnOnce(P::Error) -> Q,
        Q: ParserOnce<Input>,
{
    type Output = Either<P::Output, Q::Output>;
    type Error = Q::Error;

    open spec fn ready(&self, input: Input) -> bool {
        &&& self.0.ready(input)
        &&& forall|end: Input, e: P::Error| #[trigger] self.0.yields(input, end, Err(e)) ==> self.1.requires((e,))
        &&& forall|end: Input, e: P::Error, q: Q|
            #[trigger] self.0.yields(input, end, Err(e)) && #[trigger] self.1.ensures((e,), q) ==> q.ready(input)
    }

    open spec fn yields(&self, input: Input, rest: Input, res: Result<Either<P::Output, Q::Output>, Q::Error>) -> bool {
        match res {
            Ok(Either::Left(a)) => self.0.yields(input, rest, Ok(a)),
            Ok(Either::Right(b)) => exists|end: Input, e: P::Error, q: Q|
                #[trigger] self.0.yields(input, end, Err(e)) && #[trigger] self.1.ensures((e,), q)
                    && q.yields(input, rest, Ok(b)),
            Err(d) => rest == input && exists|end: Input, e: P::Error, q: Q, end2: Input, d0: Q::Error|
                #[trigger] self.0.yields(input, end, Err(e)) && #[trigger] self.1.ensures((e,), q)
                    && #[trigger] q.yields(input, end2, Err(d0)) && d0 == d,
        }
    }

    fn parse_once(self, input: Input) -> (out: (Input, Result<Either<P::Output, Q::Output>, Q::Error>)) {
        let save = input.save();
        let ghost start = input;
        let (input, res) = self.0.parse_once(input);
        match res {
            Ok(a) => (input, Ok(Either::Left(a))),
            Err(e) => {
                let ghost end = input;
                let ghost e0 = e;
                assert(self.0.yields(start, end, Err(e)));
                let q = (self.1)(e);
                assert(self.1.ensures((e0,), q));
                let ghost q0 = q;
                let (input, res) = q.parse_once(input.restore(save));
                match res {
                    Ok(b) => {
                        assert(q0.yields(start, input, Ok(b)));
                        (input, Ok(Either::Right(b)))
                    },
                    Err(d) => {
                        assert(q0.yields(start, input, Err(d)));
                        (input.restore(save), Err(d))
                    },
                }
            },
        }
    }
}

impl<Input: Restore, P, F, Q> ParserMut<Input> for OrElse<P, F>
    where
        P: ParserMut<Input>,
        F: FnMut(P::Error) -> Q,
        Q: ParserOnce<Input>,
{
    fn parse_mut(&mut self, input: Input) -> (out: (Input, Result<Either<P::Output, Q::Output>, Q::Error>)) {
        let save = input.save();
        let ghost start = input;
        let (input, res) = self.0.parse_mut(input);
        match res {
            Ok(a) => (input, Ok(Either::Left(a))),
            Err(e) => {
                let ghost end = input;
                let ghost e0 = e;
                assert(self.0.yields(start, end, Err(e)));
                let q = (self.1)(e);
                assert(self.1.ensures((e0,), q));
                let ghost q0 = q;
                let (input, res) = q.parse_once(input.restore(save));
                match res {
                    Ok(b) => {
                        assert(q0.yields(start, input, Ok(b)));
                        (input, Ok(Either::Right(b)))
                    },
                    Err(d) => {
                        assert(q0.yields(start, input, Err(d)));
                        (input.restore(save), Err(d))
                    },
                }
            },
        }
    }
}

impl<Input: Restore, P, F, Q> Parser<Input> for OrElse<P, F>
    where
        P: Parser<Input>,
        F: Fn(P::Error) -> Q,
        Q: ParserOnce<Input>,
{
    fn parse(&self, input: Input) -> (out: (Input, Result<Either<P::Output, Q::Output>, Q::Error>)) {
        let save = input.save();
        let ghost start = input;
        let (input, res) = self.0.parse(input);
        match res {
            Ok(a) => (input, Ok(Either::Left(a))),
            Err(e) => {
                let ghost end = input;
                let ghost e0 = e;
                assert(self.0.yields(start, end, Err(e)));
                let q = (self.1)(e);
                assert(self.1.ensures((e0,), q));
                let ghost q0 = q;
                let (input, res) = q.parse_once(input.restore(save));
                match res {
                    Ok(b) => {
                        assert(q0.yields(start, input, Ok(b)));
                        (input, Ok(Either::Right(b)))
                    },
                    Err(d) => {
                        assert(q0.yields(start, input, Err(d)));
                        (input.restore(save), Err(d))
                    },
                }
            },
        }
    }
}

} // verus!
