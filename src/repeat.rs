//! Optional and repeated matching.
use vstd::prelude::*;

use crate::restore::Restore;
use crate::{Parser, ParserMut, ParserOnce};

pub mod collections;

use crate::repeat::collections::Collection;

verus! {

/// Never fails: the inner rule's result, success or error, becomes the output.
#[derive(Debug, Clone, Copy, PartialEq, Eq)]
pub struct Optional<P>(pub P);

/// Matches as often as it can, putting each output into a fresh sink, and stops right
/// after the last match. The repeated rule must consume input whenever it succeeds, so
/// that the repetition comes to an end.
#[derive(Debug, Clone, Copy, PartialEq, Eq)]
pub struct ZeroOrMore<P, F>(pub P, pub F);

/// Like [`ZeroOrMore`], but fails, consuming nothing, when the first attempt fails.
#[derive(Debug, Clone, Copy, PartialEq, Eq)]
pub struct OneOrMore<P, F>(pub ZeroOrMore<P, F>);

/// The error of [`OneOrMore`]: the first attempt failed, so nothing matched.
#[derive(Debug, Clone, Copy, PartialEq, Eq)]
pub struct FoundZero;

/// Matches at least `min` times (else fails, consuming nothing) and then on, up to `max`
/// times in all, stopping early right after the last match when the next attempt fails.
#[derive(Debug, Clone, Copy, PartialEq, Eq)]
pub struct Repeat<P, F>(pub P, pub F, pub usize, pub usize);

/// The error of [`Repeat`]: fewer than the minimum number of matches.
#[derive(Debug, Clone, Copy, PartialEq, Eq)]
pub struct RangeError;

/// Where the `k`-th attempt of a run of successes starts.
pub open spec fn pos_before<Input, O>(input: Input, steps: Seq<(Input, O)>, k: int) -> Input {
    if k <= 0 {
        input
    } else {
        steps[k - 1].0
    }
}

/// Where a run of successes ends.
pub open spec fn run_end<Input, O>(input: Input, steps: Seq<(Input, O)>) -> Input {
    pos_before(input, steps, steps.len() as int)
}

/// `steps` lists, in order, where each of a run of successes of `p` from `input`
/// stopped and what it produced.
pub open spec fn run_from<Input, P: ParserOnce<Input>>(p: P, input: Input, steps: Seq<(Input, P::Output)>) -> bool {
    forall|k: int| 0 <= k < steps.len() ==>
        #[trigger] p.yields(pos_before(input, steps, k), steps[k].0, Ok(steps[k].1))
}

/// The outputs of a run of successes.
pub open spec fn outputs<Input, O>(steps: Seq<(Input, O)>) -> Seq<O> {
    steps.map_values(|s: (Input, O)| s.1)
}

/// What a sink holding `m` holds after `items` are put into it in order.
pub open spec fn collected<Item, C: Collection<Item>>(m: C::Contents, items: Seq<Item>) -> C::Contents
    decreases items.len(),
{
    if items.len() == 0 {
        m
    } else {
        C::with_item(collected::<Item, C>(m, items.drop_last()), items.last())
    }
}

/// `p` may be attempted wherever a run of its successes from `input` ends.
pub open spec fn ready_along<Input, P: ParserOnce<Input>>(p: P, input: Input) -> bool {
    forall|steps: Seq<(Input, P::Output)>| #[trigger] run_from(p, input, steps) ==> p.ready(run_end(input, steps))
}

/// Every success of `p` consumes something.
pub open spec fn consumes<Input: Restore, P: ParserOnce<Input>>(p: P) -> bool {
    forall|i: Input, j: Input, a: P::Output| #[trigger] p.yields(i, j, Ok(a)) ==> j.remaining() < i.remaining()
}

/// The outcomes of repeating `p` from `input` as long as it succeeds, into a sink made by `f`.
pub open spec fn many_yields<Input, P: ParserOnce<Input>, F: FnOnce() -> C, C: Collection<P::Output>>(
    p: P,
    f: F,
    input: Input,
    rest: Input,
    c: C,
) -> bool {
    exists|steps: Seq<(Input, P::Output)>, c0: C, end: Input, e: P::Error|
        #[trigger] f.ensures((), c0) && #[trigger] p.yields(run_end(input, steps), end, Err(e))
            && run_from(p, input, steps) && rest == run_end(input, steps)
            && c.contents() == collected::<P::Output, C>(c0.contents(), outputs(steps))
}

/// The outcomes of repeating `p` from `input` as long as it succeeds, into a sink made by
/// `f`, where the first attempt succeeded.
pub open spec fn some_yields<Input, P: ParserOnce<Input>, F: FnOnce() -> C, C: Collection<P::Output>>(
    p: P,
    f: F,
    input: Input,
    rest: Input,
    c: C,
) -> bool {
    exists|steps: Seq<(Input, P::Output)>, c0: C, end: Input, e: P::Error|
        #[trigger] f.ensures((), c0) && #[trigger] p.yields(run_end(input, steps), end, Err(e))
            && run_from(p, input, steps) && rest == run_end(input, steps) && steps.len() > 0
            && c.contents() == collected::<P::Output, C>(c0.contents(), outputs(steps))
}

/// The successful outcomes of repeating `p` between `min` and `max` times from `input`.
pub open spec fn repeat_yields<Input, P: ParserOnce<Input>, F: FnOnce() -> C, C: Collection<P::Output>>(
    p: P,
    f: F,
    min: usize,
    max: usize,
    input: Input,
    rest: Input,
    c: C,
) -> bool {
    exists|steps: Seq<(Input, P::Output)>, c0: C|
        #[trigger] f.ensures((), c0) && #[trigger] run_from(p, input, steps)
            && min <= steps.len() && (steps.len() <= max || steps.len() == min)
            && (steps.len() < max ==> exists|end: Input, e: P::Error| #[trigger] p.yields(run_end(input, steps), end, Err(e)))
            && rest == run_end(input, steps)
            && c.contents() == collected::<P::Output, C>(c0.contents(), outputs(steps))
}

/// The failing outcomes of repeating `p` at least `min` times from `input`.
pub open spec fn repeat_fails<Input, P: ParserOnce<Input>>(p: P, min: usize, input: Input) -> bool {
    exists|steps: Seq<(Input, P::Output)>, end: Input, e: P::Error|
        #[trigger] p.yields(run_end(input, steps), end, Err(e)) && run_from(p, input, steps) && steps.len() < min
}

proof fn lemma_run_push<Input, P: ParserOnce<Input>, C: Collection<P::Output>>(
    p: P,
    input: Input,
    steps: Seq<(Input, P::Output)>,
    next: Input,
    x: P::Output,
    m: C::Contents,
)
    requires
        run_from(p, input, steps),
        p.yields(run_end(input, steps), next, Ok(x)),
    ensures
        run_from(p, input, steps.push((next, x))),
        run_end(input, steps.push((next, x))) == next,
        collected::<P::Output, C>(m, outputs(steps.push((next, x))))
            == C::with_item(collected::<P::Output, C>(m, outputs(steps)), x),
{
    let s2 = steps.push((next, x));
    assert forall|k: int| 0 <= k < s2.len() implies #[trigger] p.yields(pos_before(input, s2, k), s2[k].0, Ok(s2[k].1)) by {
        if k < steps.len() {
            assert(pos_before(input, s2, k) == pos_before(input, steps, k));
            assert(p.yields(pos_before(input, steps, k), steps[k].0, Ok(steps[k].1)));
        }
    }
    assert(outputs(s2).drop_last() =~= outputs(steps));
    assert(outputs(s2).last() == x);
}


impl<Input, P: ParserOnce<Input>> ParserOnce<Input> for Optional<P> {
    type Output = Result<P::Output, P::Error>;
    type Error = std::convert::Infallible;

    open spec fn ready(&self, input: Input) -> bool {
        self.0.ready(input)
    }

    open spec fn yields(&self, input: Input, rest: Input, res: Result<Result<P::Output, P::Error>, std::convert::Infallible>) -> bool {
        res is Ok && self.0.yields(input, rest, res->Ok_0)
    }

    fn parse_once(self, input: Input) -> (out: (Input, Result<Result<P::Output, P::Error>, std::convert::Infallible>)) {
        let (input, res) = self.0.parse_once(input);
        (input, Ok(res))
    }
}

impl<Input, P: ParserMut<Input>> ParserMut<Input> for Optional<P> {
    fn parse_mut(&mut self, input: Input) -> (out: (Input, Result<Result<P::Output, P::Error>, std::convert::Infallible>)) {
        let (input, res) = self.0.parse_mut(input);
        (input, Ok(res))
    }
}

impl<Input, P: Parser<Input>> Parser<Input> for Optional<P> {
    fn parse(&self, input: Input) -> (out: (Input, Result<Result<P::Output, P::Error>, std::convert::Infallible>)) {
        let (input, res) = self.0.parse(input);
        (input, Ok(res))
    }
}

impl<Input: Restore, P, F, C> ParserOnce<Input> for ZeroOrMore<P, F>
    where
        P: ParserMut<Input>,
        F: FnOnce() -> C,
        C: Collection<P::Output>,
{
    type Output = C;
    type Error = std::convert::Infallible;

    open spec fn ready(&self, input: Input) -> bool {
        &&& self.1.requires(())
        &&& ready_along(self.0, input)
        &&& consumes(self.0)
    }

    open spec fn yields(&self, input: Input, rest: Input, res: Result<C, std::convert::Infallible>) -> bool {
        res is Ok && many_yields(self.0, self.1, input, rest, res->Ok_0)
    }

    fn parse_once(self, input: Input) -> (out: (Input, Result<C, std::convert::Infallible>)) {
        let ZeroOrMore(mut p, f) = self;
        let ghost p0 = p;
        assert(self.0 == p && self.1 == f);
        let mut c = f();
        let ghost start = input;
        let ghost c0 = c;
        let ghost mut steps: Seq<(Input, P::Output)> = Seq::empty();
        let mut cur = input;
        assert(outputs(steps) =~= Seq::<P::Output>::empty());
        loop
            invariant
                p == p0,
                self.0 == p0,
                self.1 == f,
                ready_along(p, start),
                consumes(p),
                f.ensures((), c0),
                start == input,
                run_from(p, start, steps),
                cur == run_end(start, steps),
                c.contents() == collected::<P::Output, C>(c0.contents(), outputs(steps)),
            decreases cur.remaining(),
        {
            let save = cur.save();
            let (next, res) = p.parse_mut(cur);
            match res {
                Ok(x) => {
                    proof {
                        lemma_run_push::<Input, P, C>(p, start, steps, next, x, c0.contents());
                        steps = steps.push((next, x));
                    }
                    c.put(x);
                    cur = next;
                },
                Err(e) => {
                    assert(p.yields(run_end(start, steps), next, Err(e)));
                    let rest = next.restore(save);
                    assert(many_yields(p, f, start, rest, c));
                    return (rest, Ok(c));
                },
            }
        }
    }
}

impl<Input: Restore, P, F, C> ParserMut<Input> for ZeroOrMore<P, F>
    where
        P: ParserMut<Input>,
        F: FnMut() -> C,
        C: Collection<P::Output>,
{
    fn parse_mut(&mut self, input: Input) -> (out: (Input, Result<C, std::convert::Infallible>)) {
        let mut c = (self.1)();
        let ghost start = input;
        let ghost c0 = c;
        let ghost mut steps: Seq<(Input, P::Output)> = Seq::empty();
        let mut cur = input;
        assert(outputs(steps) =~= Seq::<P::Output>::empty());
        loop
            invariant
                *self == *old(self),
                ready_along(self.0, start),
                consumes(self.0),
                self.1.ensures((), c0),
                start == input,
                run_from(self.0, start, steps),
                cur == run_end(start, steps),
                c.contents() == collected::<P::Output, C>(c0.contents(), outputs(steps)),
            decreases cur.remaining(),
        {
            let save = cur.save();
            let (next, res) = self.0.parse_mut(cur);
            match res {
                Ok(x) => {
                    proof {
                        lemma_run_push::<Input, P, C>(self.0, start, steps, next, x, c0.contents());
                        steps = steps.push((next, x));
                    }
                    c.put(x);
                    cur = next;
                },
                Err(e) => {
                    assert(self.0.yields(run_end(start, steps), next, Err(e)));
                    let rest = next.restore(save);
                    assert(many_yields(self.0, self.1, start, rest, c));
                    return (rest, Ok(c));
                },
            }
        }
    }
}

impl<Input: Restore, P, F, C> Parser<Input> for ZeroOrMore<P, F>
    where
        P: Parser<Input>,
        F: Fn() -> C,
        C: Collection<P::Output>,
{
    fn parse(&self, input: Input) -> (out: (Input, Result<C, std::convert::Infallible>)) {
        let mut c = (self.1)();
        let ghost start = input;
        let ghost c0 = c;
        let ghost mut steps: Seq<(Input, P::Output)> = Seq::empty();
        let mut cur = input;
        assert(outputs(steps) =~= Seq::<P::Output>::empty());
        loop
            invariant
                ready_along(self.0, start),
                consumes(self.0),
                self.1.ensures((), c0),
                start == input,
                run_from(self.0, start, steps),
                cur == run_end(start, steps),
                c.contents() == collected::<P::Output, C>(c0.contents(), outputs(steps)),
            decreases cur.remaining(),
        {
            let save = cur.save();
            let (next, res) = self.0.parse(cur);
            match res {
                Ok(x) => {
                    proof {
                        lemma_run_push::<Input, P, C>(self.0, start, steps, next, x, c0.contents());
                        steps = steps.push((next, x));
                    }
                    c.put(x);
                    cur = next;
                },
                Err(e) => {
                    assert(self.0.yields(run_end(start, steps), next, Err(e)));
                    let rest = next.restore(save);
                    assert(many_yields(self.0, self.1, start, rest, c));
                    return (rest, Ok(c));
                },
            }
        }
    }
}

impl<Input: Restore, P, F, C> ParserOnce<Input> for OneOrMore<P, F>
    where
        P: ParserMut<Input>,
        F: FnOnce() -> C,
        C: Collection<P::Output>,
{
    type Output = C;
    type Error = FoundZero;

    open spec fn ready(&self, input: Input) -> bool {
        self.0.ready(input)
    }

    open spec fn yields(&self, input: Input, rest: Input, res: Result<C, FoundZero>) -> bool {
        match res {
            Ok(c) => some_yields(self.0.0, self.0.1, input, rest, c),
            Err(_) => rest == input && exists|end: Input, e: P::Error| #[trigger] self.0.0.yields(input, end, Err(e)),
        }
    }

    fn parse_once(self, input: Input) -> (out: (Input, Result<C, FoundZero>)) {
        let OneOrMore(ZeroOrMore(mut p, f)) = self;
        let ghost p0 = p;
        assert(self.0.0 == p && self.0.1 == f);
        let save = input.save();
        let ghost start = input;
        proof {
            assert(run_from(p, start, Seq::<(Input, P::Output)>::empty()));
        }
        let (next, first) = p.parse_mut(input);
        let x = match first {
            Ok(x) => x,
            Err(e) => {
                assert(p.yields(start, next, Err(e)));
                return (next.restore(save), Err(FoundZero));
            },
        };
        let mut c = f();
        let ghost c0 = c;
        let ghost mut steps: Seq<(Input, P::Output)> = Seq::empty();
        proof {
            assert(outputs(steps) =~= Seq::<P::Output>::empty());
            lemma_run_push::<Input, P, C>(p, start, steps, next, x, c0.contents());
            steps = steps.push((next, x));
        }
        c.put(x);
        let mut cur = next;
        loop
            invariant
                p == p0,
                self.0.0 == p0,
                self.0.1 == f,
                steps.len() > 0,
                ready_along(p, start),
                consumes(p),
                f.ensures((), c0),
                start == input,
                run_from(p, start, steps),
                cur == run_end(start, steps),
                c.contents() == collected::<P::Output, C>(c0.contents(), outputs(steps)),
            decreases cur.remaining(),
        {
            let save = cur.save();
            let (next, res) = p.parse_mut(cur);
            match res {
                Ok(x) => {
                    proof {
                        lemma_run_push::<Input, P, C>(p, start, steps, next, x, c0.contents());
                        steps = steps.push((next, x));
                    }
                    c.put(x);
                    cur = next;
                },
                Err(e) => {
                    assert(p.yields(run_end(start, steps), next, Err(e)));
                    let rest = next.restore(save);
                    assert(some_yields(p, f, start, rest, c));
                    return (rest, Ok(c));
                },
            }
        }
    }
}

impl<Input: Restore, P, F, C> ParserMut<Input> for OneOrMore<P, F>
    where
        P: ParserMut<Input>,
        F: FnMut() -> C,
        C: Collection<P::Output>,
{
    fn parse_mut(&mut self, input: Input) -> (out: (Input, Result<C, FoundZero>)) {
        let save = input.save();
        let ghost start = input;
        proof {
            assert(run_from(self.0.0, start, Seq::<(Input, P::Output)>::empty()));
        }
        let (next, first) = self.0.0.parse_mut(input);
        let x = match first {
            Ok(x) => x,
            Err(e) => {
                assert(self.0.0.yields(start, next, Err(e)));
                return (next.restore(save), Err(FoundZero));
            },
        };
        let mut c = (self.0.1)();
        let ghost c0 = c;
        let ghost mut steps: Seq<(Input, P::Output)> = Seq::empty();
        proof {
            assert(outputs(steps) =~= Seq::<P::Output>::empty());
            lemma_run_push::<Input, P, C>(self.0.0, start, steps, next, x, c0.contents());
            steps = steps.push((next, x));
        }
        c.put(x);
        let mut cur = next;
        loop
            invariant
                *self == *old(self),
                steps.len() > 0,
                ready_along(self.0.0, start),
                consumes(self.0.0),
                self.0.1.ensures((), c0),
                start == input,
                run_from(self.0.0, start, steps),
                cur == run_end(start, steps),
                c.contents() == collected::<P::Output, C>(c0.contents(), outputs(steps)),
            decreases cur.remaining(),
        {
            let save = cur.save();
            let (next, res) = self.0.0.parse_mut(cur);
            match res {
                Ok(x) => {
                    proof {
                        lemma_run_push::<Input, P, C>(self.0.0, start, steps, next, x, c0.contents());
                        steps = steps.push((next, x));
                    }
                    c.put(x);
                    cur = next;
                },
                Err(e) => {
                    assert(self.0.0.yields(run_end(start, steps), next, Err(e)));
                    let rest = next.restore(save);
                    assert(some_yields(self.0.0, self.0.1, start, rest, c));
                    return (rest, Ok(c));
                },
            }
        }
    }
}

impl<Input: Restore, P, F, C> Parser<Input> for OneOrMore<P, F>
    where
        P: Parser<Input>,
        F: Fn() -> C,
        C: Collection<P::Output>,
{
    fn parse(&self, input: Input) -> (out: (Input, Result<C, FoundZero>)) {
        let save = input.save();
        let ghost start = input;
        proof {
            assert(run_from(self.0.0, start, Seq::<(Input, P::Output)>::empty()));
        }
        let (next, first) = self.0.0.parse(input);
        let x = match first {
            Ok(x) => x,
            Err(e) => {
                assert(self.0.0.yields(start, next, Err(e)));
                return (next.restore(save), Err(FoundZero));
            },
        };
        let mut c = (self.0.1)();
        let ghost c0 = c;
        let ghost mut steps: Seq<(Input, P::Output)> = Seq::empty();
        proof {
            assert(outputs(steps) =~= Seq::<P::Output>::empty());
            lemma_run_push::<Input, P, C>(self.0.0, start, steps, next, x, c0.contents());
            steps = steps.push((next, x));
        }
        c.put(x);
        let mut cur = next;
        loop
            invariant
                steps.len() > 0,
                ready_along(self.0.0, start),
                consumes(self.0.0),
                self.0.1.ensures((), c0),
                start == input,
                run_from(self.0.0, start, steps),
                cur == run_end(start, steps),
                c.contents() == collected::<P::Output, C>(c0.contents(), outputs(steps)),
            decreases cur.remaining(),
        {
            let save = cur.save();
            let (next, res) = self.0.0.parse(cur);
            match res {
                Ok(x) => {
                    proof {
                        lemma_run_push::<Input, P, C>(self.0.0, start, steps, next, x, c0.contents());
                        steps = steps.push((next, x));
                    }
                    c.put(x);
                    cur = next;
                },
                Err(e) => {
                    assert(self.0.0.yields(run_end(start, steps), next, Err(e)));
                    let rest = next.restore(save);
                    assert(some_yields(self.0.0, self.0.1, start, rest, c));
                    return (rest, Ok(c));
                },
            }
        }
    }
}

impl<Input: Restore, P, F, C> ParserOnce<Input> for Repeat<P, F>
    where
        P: ParserMut<Input>,
        F: FnOnce() -> C,
        C: Collection<P::Output>,
{
    type Output = C;
    type Error = RangeError;

    open spec fn ready(&self, input: Input) -> bool {
        &&& self.1.requires(())
        &&& ready_along(self.0, input)
    }

    open spec fn yields(&self, input: Input, rest: Input, res: Result<C, RangeError>) -> bool {
        match res {
            Ok(c) => repeat_yields(self.0, self.1, self.2, self.3, input, rest, c),
            Err(_) => rest == input && repeat_fails(self.0, self.2, input),
        }
    }

    fn parse_once(self, input: Input) -> (out: (Input, Result<C, RangeError>)) {
        let Repeat(mut p, f, lo, hi) = self;
        let ghost p0 = p;
        assert(self.0 == p && self.1 == f && self.2 == lo && self.3 == hi);
        let mut c = f();
        let min = lo;
        let max = hi;
        let save = input.save();
        let ghost start = input;
        let ghost c0 = c;
        let ghost mut steps: Seq<(Input, P::Output)> = Seq::empty();
        let mut cur = input;
        let mut count: usize = 0;
        assert(outputs(steps) =~= Seq::<P::Output>::empty());
        while count < min
            invariant
                p == p0,
                self.0 == p0,
                self.1 == f,
                self.2 == lo,
                self.3 == hi,
                ready_along(p, start),
                f.ensures((), c0),
                min == lo,
                count <= min,
                steps.len() == count,
                Input::at(save) == start,
                start == input,
                run_from(p, start, steps),
                cur == run_end(start, steps),
                c.contents() == collected::<P::Output, C>(c0.contents(), outputs(steps)),
            decreases min - count,
        {
            let (next, res) = p.parse_mut(cur);
            match res {
                Ok(x) => {
                    proof {
                        lemma_run_push::<Input, P, C>(p, start, steps, next, x, c0.contents());
                        steps = steps.push((next, x));
                    }
                    c.put(x);
                    cur = next;
                    count = count + 1;
                },
                Err(e) => {
                    assert(p.yields(run_end(start, steps), next, Err(e)));
                    return (next.restore(save), Err(RangeError));
                },
            }
        }
        while count < max
            invariant
                p == p0,
                self.0 == p0,
                self.1 == f,
                self.2 == lo,
                self.3 == hi,
                ready_along(p, start),
                f.ensures((), c0),
                min == lo,
                max == hi,
                min <= count,
                count <= max || count == min,
                steps.len() == count,
                start == input,
                run_from(p, start, steps),
                cur == run_end(start, steps),
                c.contents() == collected::<P::Output, C>(c0.contents(), outputs(steps)),
            decreases max - count,
        {
            let here = cur.save();
            let (next, res) = p.parse_mut(cur);
            match res {
                Ok(x) => {
                    proof {
                        lemma_run_push::<Input, P, C>(p, start, steps, next, x, c0.contents());
                        steps = steps.push((next, x));
                    }
                    c.put(x);
                    cur = next;
                    count = count + 1;
                },
                Err(e) => {
                    assert(p.yields(run_end(start, steps), next, Err(e)));
                    let rest = next.restore(here);
                    assert(repeat_yields(p, f, min, max, start, rest, c));
                    return (rest, Ok(c));
                },
            }
        }
        (cur, Ok(c))
    }
}

impl<Input: Restore, P, F, C> ParserMut<Input> for Repeat<P, F>
    where
        P: ParserMut<Input>,
        F: FnMut() -> C,
        C: Collection<P::Output>,
{
    fn parse_mut(&mut self, input: Input) -> (out: (Input, Result<C, RangeError>)) {
        let mut c = (self.1)();
        let min = self.2;
        let max = self.3;
        let save = input.save();
        let ghost start = input;
        let ghost c0 = c;
        let ghost mut steps: Seq<(Input, P::Output)> = Seq::empty();
        let mut cur = input;
        let mut count: usize = 0;
        assert(outputs(steps) =~= Seq::<P::Output>::empty());
        while count < min
            invariant
                *self == *old(self),
                ready_along(self.0, start),
                self.1.ensures((), c0),
                min == self.2,
                count <= min,
                steps.len() == count,
                Input::at(save) == start,
                start == input,
                run_from(self.0, start, steps),
                cur == run_end(start, steps),
                c.contents() == collected::<P::Output, C>(c0.contents(), outputs(steps)),
            decreases min - count,
        {
            let (next, res) = self.0.parse_mut(cur);
            match res {
                Ok(x) => {
                    proof {
                        lemma_run_push::<Input, P, C>(self.0, start, steps, next, x, c0.contents());
                        steps = steps.push((next, x));
                    }
                    c.put(x);
                    cur = next;
                    count = count + 1;
                },
                Err(e) => {
                    assert(self.0.yields(run_end(start, steps), next, Err(e)));
                    return (next.restore(save), Err(RangeError));
                },
            }
        }
        while count < max
            invariant
                *self == *old(self),
                ready_along(self.0, start),
                self.1.ensures((), c0),
                min == self.2,
                max == self.3,
                min <= count,
                count <= max || count == min,
                steps.len() == count,
                start == input,
                run_from(self.0, start, steps),
                cur == run_end(start, steps),
                c.contents() == collected::<P::Output, C>(c0.contents(), outputs(steps)),
            decreases max - count,
        {
            let here = cur.save();
            let (next, res) = self.0.parse_mut(cur);
            match res {
                Ok(x) => {
                    proof {
                        lemma_run_push::<Input, P, C>(self.0, start, steps, next, x, c0.contents());
                        steps = steps.push((next, x));
                    }
                    c.put(x);
                    cur = next;
                    count = count + 1;
                },
                Err(e) => {
                    assert(self.0.yields(run_end(start, steps), next, Err(e)));
                    let rest = next.restore(here);
                    assert(repeat_yields(self.0, self.1, min, max, start, rest, c));
                    return (rest, Ok(c));
                },
            }
        }
        (cur, Ok(c))
    }
}

impl<Input: Restore, P, F, C> Parser<Input> for Repeat<P, F>
    where
        P: Parser<Input>,
        F: Fn() -> C,
        C: Collection<P::Output>,
{
    fn parse(&self, input: Input) -> (out: (Input, Result<C, RangeError>)) {
        let mut c = (self.1)();
        let min = self.2;
        let max = self.3;
        let save = input.save();
        let ghost start = input;
        let ghost c0 = c;
        let ghost mut steps: Seq<(Input, P::Output)> = Seq::empty();
        let mut cur = input;
        let mut count: usize = 0;
        assert(outputs(steps) =~= Seq::<P::Output>::empty());
        while count < min
            invariant
                ready_along(self.0, start),
                self.1.ensures((), c0),
                min == self.2,
                count <= min,
                steps.len() == count,
                Input::at(save) == start,
                start == input,
                run_from(self.0, start, steps),
                cur == run_end(start, steps),
                c.contents() == collected::<P::Output, C>(c0.contents(), outputs(steps)),
            decreases min - count,
        {
            let (next, res) = self.0.parse(cur);
            match res {
                Ok(x) => {
                    proof {
                        lemma_run_push::<Input, P, C>(self.0, start, steps, next, x, c0.contents());
                        steps = steps.push((next, x));
                    }
                    c.put(x);
                    cur = next;
                    count = count + 1;
                },
                Err(e) => {
                    assert(self.0.yields(run_end(start, steps), next, Err(e)));
                    return (next.restore(save), Err(RangeError));
                },
            }
        }
        while count < max
            invariant
                ready_along(self.0, start),
                self.1.ensures((), c0),
                min == self.2,
                max == self.3,
                min <= count,
                count <= max || count == min,
                steps.len() == count,
                start == input,
                run_from(self.0, start, steps),
                cur == run_end(start, steps),
                c.contents() == collected::<P::Output, C>(c0.contents(), outputs(steps)),
            decreases max - count,
        {
            let here = cur.save();
            let (next, res) = self.0.parse(cur);
            match res {
                Ok(x) => {
                    proof {
                        lemma_run_push::<Input, P, C>(self.0, start, steps, next, x, c0.contents());
                        steps = steps.push((next, x));
                    }
                    c.put(x);
                    cur = next;
                    count = count + 1;
                },
                Err(e) => {
                    assert(self.0.yields(run_end(start, steps), next, Err(e)));
                    let rest = next.restore(here);
                    assert(repeat_yields(self.0, self.1, min, max, start, rest, c));
                    return (rest, Ok(c));
                },
            }
        }
        (cur, Ok(c))
    }
}

} // verus!
