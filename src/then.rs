//! Sequencing and alternation.
use vstd::prelude::*;

use either::Either;

use crate::restore::Restore;
use crate::{Parser, ParserMut, ParserOnce};

verus! {

#[verifier::external_type_specification]
#[verifier::reject_recursive_types(L)]
#[verifier::reject_recursive_types(R)]
pub struct ExEither<L, R>(Either<L, R>);

/// `A` then `B`: both outputs on success; on failure the input is back where `A` started.
#[derive(Debug, Clone, Copy, PartialEq, Eq)]
pub struct Then<P, Q>(pub P, pub Q);

/// `A` or else `B` from the same place; both errors when both fail.
#[derive(Debug, Clone, Copy, PartialEq, Eq)]
pub struct Or<P, Q>(pub P, pub Q);

/// `A` and `B` attempted at the same time from the same place; the result is the one `Or` gives.
#[derive(Debug, Clone, Copy, PartialEq, Eq)]
pub struct ParOr<P, Q>(pub P, pub Q);

/// Which inputs both halves of a sequence may be attempted on.
pub open spec fn then_ready<Input, P: ParserOnce<Input>, Q: ParserOnce<Input>>(p: P, q: Q, input: Input) -> bool {
    &&& p.ready(input)
    &&& forall|mid: Input, a: P::Output| #[trigger] p.yields(input, mid, Ok(a)) ==> q.ready(mid)
}

/// The outcomes of `p` then `q` from `input`.
pub open spec fn then_yields<Input, P: ParserOnce<Input>, Q: ParserOnce<Input>>(
    p: P,
    q: Q,
    input: Input,
    rest: Input,
    res: Result<(P::Output, Q::Output), Either<P::Error, Q::Error>>,
) -> bool {
    match res {
        Ok((a, b)) => exists|mid: Input, a0: P::Output|
            #[trigger] p.yields(input, mid, Ok(a0)) && a0 == a && q.yields(mid, rest, Ok(b)),
        Err(Either::Left(e)) => rest == input && exists|end: Input, e0: P::Error|
            #[trigger] p.yields(input, end, Err(e0)) && e0 == e,
        Err(Either::Right(e)) => rest == input && exists|mid: Input, a: P::Output, end: Input, e0: Q::Error|
            #[trigger] p.yields(input, mid, Ok(a)) && #[trigger] q.yields(mid, end, Err(e0)) && e0 == e,
    }
}

/// Which inputs both branches of an alternative may be attempted on.
pub open spec fn or_ready<Input, P: ParserOnce<Input>, Q: ParserOnce<Input>>(p: P, q: Q, input: Input) -> bool {
    p.ready(input) && q.ready(input)
}

/// The outcomes of `p` or else `q` from `input`.
pub open spec fn or_yields<Input, P: ParserOnce<Input>, Q: ParserOnce<Input>>(
    p: P,
    q: Q,
    input: Input,
    rest: Input,
    res: Result<Either<P::Output, Q::Output>, (P::Error, Q::Error)>,
) -> bool {
    match res {
        Ok(Either::Left(a)) => p.yields(input, rest, Ok(a)),
        Ok(Either::Right(b)) => q.yields(input, rest, Ok(b)) && exists|end: Input, e: P::Error|
            #[trigger] p.yields(input, end, Err(e)),
        Err((e1, e2)) => rest == input && exists|end1: Input, d1: P::Error, end2: Input, d2: Q::Error|
            #[trigger] p.yields(input, end1, Err(d1)) && #[trigger] q.yields(input, end2, Err(d2))
                && d1 == e1 && d2 == e2,
    }
}

impl<Input: Restore, P: ParserOnce<Input>, Q: ParserOnce<Input>> ParserOnce<Input> for Then<P, Q> {
    type Output = (P::Output, Q::Output);
    type Error = Either<P::Error, Q::Error>;

    open spec fn ready(&self, input: Input) -> bool {
        then_ready(self.0, self.1, input)
    }

    open spec fn yields(&self, input: Input, rest: Input, res: Result<Self::Output, Self::Error>) -> bool {
        then_yields(self.0, self.1, input, rest, res)
    }

    fn parse_once(self, input: Input) -> (out: (Input, Result<Self::Output, Self::Error>)) {
        let save = input.save();
        let ghost start = input;
        let Then(p, q) = self;
        assert(self.0 == p && self.1 == q);
        let (input, first) = p.parse_once(input);
        match first {
            Err(e) => {
                assert(p.yields(start, input, Err(e)));
                (input.restore(save), Err(Either::Left(e)))
            },
            Ok(a) => {
                let ghost mid = input;
                assert(p.yields(start, mid, Ok(a)));
                let (input, second) = q.parse_once(input);
                match second {
                    Err(e) => {
                        assert(q.yields(mid, input, Err(e)));
                        (input.restore(save), Err(Either::Right(e)))
                    },
                    Ok(b) => {
                        assert(q.yields(mid, input, Ok(b)));
                        (input, Ok((a, b)))
                    },
                }
            },
        }
    }
}

impl<Input: Restore, P: ParserMut<Input>, Q: ParserMut<Input>> ParserMut<Input> for Then<P, Q> {
    fn parse_mut(&mut self, input: Input) -> (out: (Input, Result<Self::Output, Self::Error>)) {
        let save = input.save();
        let ghost start = input;
        let (input, first) = self.0.parse_mut(input);
        match first {
            Err(e) => {
                assert(self.0.yields(start, input, Err(e)));
                (input.restore(save), Err(Either::Left(e)))
            },
            Ok(a) => {
                let ghost mid = input;
                assert(self.0.yields(start, mid, Ok(a)));
                let (input, second) = self.1.parse_mut(input);
                match second {
                    Err(e) => {
                        assert(self.1.yields(mid, input, Err(e)));
                        (input.restore(save), Err(Either::Right(e)))
                    },
                    Ok(b) => {
                        assert(self.1.yields(mid, input, Ok(b)));
                        (input, Ok((a, b)))
                    },
                }
            },
        }
    }
}

impl<Input: Restore, P: Parser<Input>, Q: Parser<Input>> Parser<Input> for Then<P, Q> {
    fn parse(&self, input: Input) -> (out: (Input, Result<Self::Output, Self::Error>)) {
        let save = input.save();
        let ghost start = input;
        let (input, first) = self.0.parse(input);
        match first {
            Err(e) => {
                assert(self.0.yields(start, input, Err(e)));
                (input.restore(save), Err(Either::Left(e)))
            },
            Ok(a) => {
                let ghost mid = input;
                assert(self.0.yields(start, mid, Ok(a)));
                let (input, second) = self.1.parse(input);
                match second {
                    Err(e) => {
                        assert(self.1.yields(mid, input, Err(e)));
                        (input.restore(save), Err(Either::Right(e)))
                    },
                    Ok(b) => {
                        assert(self.1.yields(mid, input, Ok(b)));
                        (input, Ok((a, b)))
                    },
                }
            },
        }
    }
}

impl<Input: Restore, P: ParserOnce<Input>, Q: ParserOnce<Input>> ParserOnce<Input> for Or<P, Q> {
    type Output = Either<P::Output, Q::Output>;
    type Error = (P::Error, Q::Error);

    open spec fn ready(&self, input: Input) -> bool {
        or_ready(self.0, self.1, input)
    }

    open spec fn yields(&self, input: Input, rest: Input, res: Result<Self::Output, Self::Error>) -> bool {
        or_yields(self.0, self.1, input, rest, res)
    }

    fn parse_once(self, input: Input) -> (out: (Input, Result<Self::Output, Self::Error>)) {
        let save = input.save();
        let ghost start = input;
        let Or(p, q) = self;
        assert(self.0 == p && self.1 == q);
        let (input, first) = p.parse_once(input);
        match first {
            Ok(a) => (input, Ok(Either::Left(a))),
            Err(e1) => {
                assert(p.yields(start, input, Err(e1)));
                let (input, second) = q.parse_once(input.restore(save));
                match second {
                    Ok(b) => (input, Ok(Either::Right(b))),
                    Err(e2) => {
                        assert(q.yields(start, input, Err(e2)));
                        (input.restore(save), Err((e1, e2)))
                    },
                }
            },
        }
    }
}

impl<Input: Restore, P: ParserMut<Input>, Q: ParserMut<Input>> ParserMut<Input> for Or<P, Q> {
    fn parse_mut(&mut self, input: Input) -> (out: (Input, Result<Self::Output, Self::Error>)) {
        let save = input.save();
        let ghost start = input;
        let (input, first) = self.0.parse_mut(input);
        match first {
            Ok(a) => (input, Ok(Either::Left(a))),
            Err(e1) => {
                assert(self.0.yields(start, input, Err(e1)));
                let (input, second) = self.1.parse_mut(input.restore(save));
                match second {
                    Ok(b) => (input, Ok(Either::Right(b))),
                    Err(e2) => {
                        assert(self.1.yields(start, input, Err(e2)));
                        (input.restore(save), Err((e1, e2)))
                    },
                }
            },
        }
    }
}

impl<Input: Restore, P: Parser<Input>, Q: Parser<Input>> Parser<Input> for Or<P, Q> {
    fn parse(&self, input: Input) -> (out: (Input, Result<Self::Output, Self::Error>)) {
        let save = input.save();
        let ghost start = input;
        let (input, first) = self.0.parse(input);
        match first {
            Ok(a) => (input, Ok(Either::Left(a))),
            Err(e1) => {
                assert(self.0.yields(start, input, Err(e1)));
                let (input, second) = self.1.parse(input.restore(save));
                match second {
                    Ok(b) => (input, Ok(Either::Right(b))),
                    Err(e2) => {
                        assert(self.1.yields(start, input, Err(e2)));
                        (input.restore(save), Err((e1, e2)))
                    },
                }
            },
        }
    }
}

/// Relies on rayon::join: both closures run to completion, on the pool or on the
/// calling thread, and their results come back as a pair in argument order.
#[verifier::external_body]
fn join_both<A, B, RA, RB>(a: A, b: B) -> (r: (RA, RB))
    where
        A: FnOnce() -> RA + Send,
        B: FnOnce() -> RB + Send,
        RA: Send,
        RB: Send,
    requires
        a.requires(()),
        b.requires(()),
    ensures
        a.ensures((), r.0),
        b.ensures((), r.1),
{
    rayon::join(a, b)
}

/// Picks the result of an alternative whose branches were both attempted from `start`.
fn pick<Input: Restore, A, B, E1, E2>(
    save: Input::SavePoint,
    first: (Input, Result<A, E1>),
    second: (Input, Result<B, E2>),
) -> (out: (Input, Result<Either<A, B>, (E1, E2)>))
    ensures
        match first.1 {
            Ok(a) => out.0 == first.0 && out.1 == Ok::<Either<A, B>, (E1, E2)>(Either::Left(a)),
            Err(e1) => match second.1 {
                Ok(b) => out.0 == second.0 && out.1 == Ok::<Either<A, B>, (E1, E2)>(Either::Right(b)),
                Err(e2) => out.0 == Input::at(save) && out.1 == Err::<Either<A, B>, (E1, E2)>((e1, e2)),
            },
        },
{
    let (input_0, out_0) = first;
    let (input_1, out_1) = second;
    match out_0 {
        Ok(a) => (input_0, Ok(Either::Left(a))),
        Err(e1) => match out_1 {
            Ok(b) => (input_1, Ok(Either::Right(b))),
            Err(e2) => (input_1.restore(save), Err((e1, e2))),
        },
    }
}

impl<Input, P, Q> ParserOnce<Input> for ParOr<P, Q>
    where
        Input: Restore + Copy + Send,
        P: ParserOnce<Input> + Send,
        Q: ParserOnce<Input> + Send,
        P::Output: Send,
        P::Error: Send,
        Q::Output: Send,
        Q::Error: Send,
{
    type Output = Either<P::Output, Q::Output>;
    type Error = (P::Error, Q::Error);

    open spec fn ready(&self, input: Input) -> bool {
        or_ready(self.0, self.1, input)
    }

    open spec fn yields(&self, input: Input, rest: Input, res: Result<Self::Output, Self::Error>) -> bool {
        or_yields(self.0, self.1, input, rest, res)
    }

    fn parse_once(self, input: Input) -> (out: (Input, Result<Self::Output, Self::Error>)) {
        let save = input.save();
        let ghost start = input;
        let input_0 = input;
        let ParOr(p, q) = self;
        assert(self.0 == p && self.1 == q);
        let left = move || -> (r: (Input, Result<P::Output, P::Error>))
            requires
                p.ready(start),
            ensures
                p.yields(start, r.0, r.1),
        {
            p.parse_once(input_0)
        };
        let right = move || -> (r: (Input, Result<Q::Output, Q::Error>))
            requires
                q.ready(start),
            ensures
                q.yields(start, r.0, r.1),
        {
            q.parse_once(input)
        };
        let (first, second) = join_both(left, right);
        proof {
            if first.1 is Err {
                assert(p.yields(start, first.0, Err(first.1->Err_0)));
                if second.1 is Err {
                    assert(q.yields(start, second.0, Err(second.1->Err_0)));
                }
            }
        }
        pick(save, first, second)
    }
}

impl<Input, P, Q> ParserMut<Input> for ParOr<P, Q>
    where
        Input: Restore + Copy + Send,
        P: Parser<Input> + Send + Sync,
        Q: Parser<Input> + Send + Sync,
        P::Output: Send,
        P::Error: Send,
        Q::Output: Send,
        Q::Error: Send,
{
    fn parse_mut(&mut self, input: Input) -> (out: (Input, Result<Self::Output, Self::Error>)) {
        (&*self).parse(input)
    }
}

impl<Input, P, Q> Parser<Input> for ParOr<P, Q>
    where
        Input: Restore + Copy + Send,
        P: Parser<Input> + Send + Sync,
        Q: Parser<Input> + Send + Sync,
        P::Output: Send,
        P::Error: Send,
        Q::Output: Send,
        Q::Error: Send,
{
    fn parse(&self, input: Input) -> (out: (Input, Result<Self::Output, Self::Error>)) {
        let save = input.save();
        let ghost start = input;
        let input_0 = input;
        let p = &self.0;
        let q = &self.1;
        let left = move || -> (r: (Input, Result<P::Output, P::Error>))
            requires
                p.ready(start),
            ensures
                p.yields(start, r.0, r.1),
        {
            p.parse(input_0)
        };
        let right = move || -> (r: (Input, Result<Q::Output, Q::Error>))
            requires
                q.ready(start),
            ensures
                q.yields(start, r.0, r.1),
        {
            q.parse(input)
        };
        let (first, second) = join_both(left, right);
        proof {
            if first.1 is Err {
                assert(p.yields(start, first.0, Err(first.1->Err_0)));
                if second.1 is Err {
                    assert(q.yields(start, second.0, Err(second.1->Err_0)));
                }
            }
        }
        pick(save, first, second)
    }
}

} // verus!
