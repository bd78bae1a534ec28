//! Properties that relate several rules and combinators.
use vstd::prelude::*;

use either::Either;

use crate::filter::{FilterError, FilterInput};
use crate::repeat::collections::Collection;
use crate::repeat::{collected, many_yields, outputs, run_end, run_from, OneOrMore, Repeat, ZeroOrMore};
use crate::restore::Restore;
use crate::then::{Or, ParOr, Then};
use crate::ParserOnce;

verus! {

/// Where the first rule of a sequence fails on every attempt from `input`, every
/// outcome of the sequence is a failure tagged "left" that leaves the input where it was.
pub proof fn then_first_fails_consumes_nothing<Input: Restore, P: ParserOnce<Input>, Q: ParserOnce<Input>>(
    p: P,
    q: Q,
    input: Input,
    rest: Input,
    res: Result<(P::Output, Q::Output), Either<P::Error, Q::Error>>,
)
    requires
        forall|j: Input, r: Result<P::Output, P::Error>| #[trigger] p.yields(input, j, r) ==> r is Err,
        Then(p, q).yields(input, rest, res),
    ensures
        rest == input,
        res is Err && res->Err_0 is Left,
{
    match res {
        Ok((a, b)) => {
            let (mid, a0) = choose|mid: Input, a0: P::Output| #[trigger] p.yields(input, mid, Ok(a0)) && a0 == a && q.yields(mid, rest, Ok(b));
            assert(p.yields(input, mid, Ok(a0)));
        },
        Err(Either::Left(e)) => {},
        Err(Either::Right(e)) => {
            let (mid, a, end, e0) = choose|mid: Input, a: P::Output, end: Input, e0: Q::Error|
                #[trigger] p.yields(input, mid, Ok(a)) && #[trigger] q.yields(mid, end, Err(e0)) && e0 == e;
            assert(p.yields(input, mid, Ok(a)));
        },
    }
}

/// When the first rule of a sequence succeeded and the second failed, the sequence
/// returns to where the first rule started, not merely to where the second did.
pub proof fn then_second_fails_restores_start<Input: Restore, P: ParserOnce<Input>, Q: ParserOnce<Input>>(
    p: P,
    q: Q,
    input: Input,
    rest: Input,
    e: Q::Error,
)
    requires
        Then(p, q).yields(input, rest, Err(Either::Right(e))),
    ensures
        rest == input,
        exists|mid: Input, a: P::Output, end: Input|
            #[trigger] p.yields(input, mid, Ok(a)) && #[trigger] q.yields(mid, end, Err(e)),
{
}

/// A successful outcome of the first branch of an alternative is an outcome of the
/// alternative, tagged "left", whatever the second branch would do; and where the first
/// branch succeeds on every attempt, every outcome of the alternative is such a one.
pub proof fn or_left_wins<Input: Restore, P: ParserOnce<Input>, Q: ParserOnce<Input>>(
    p: P,
    q: Q,
    input: Input,
    rest: Input,
    res: Result<Either<P::Output, Q::Output>, (P::Error, Q::Error)>,
)
    ensures
        forall|a: P::Output| #[trigger] p.yields(input, rest, Ok(a))
            ==> Or(p, q).yields(input, rest, Ok(Either::Left(a))),
        (forall|j: Input, r: Result<P::Output, P::Error>| #[trigger] p.yields(input, j, r) ==> r is Ok)
            && Or(p, q).yields(input, rest, res)
            ==> match res {
                Ok(Either::Left(a)) => p.yields(input, rest, Ok(a)),
                _ => false,
            },
{
    if (forall|j: Input, r: Result<P::Output, P::Error>| #[trigger] p.yields(input, j, r) ==> r is Ok)
        && Or(p, q).yields(input, rest, res) {
        match res {
            Ok(Either::Left(a)) => {},
            Ok(Either::Right(b)) => {
                let (end, e) = choose|end: Input, e: P::Error| #[trigger] p.yields(input, end, Err(e));
                assert(p.yields(input, end, Err(e)));
            },
            Err((e1, e2)) => {
                let (end1, d1, end2, d2) = choose|end1: Input, d1: P::Error, end2: Input, d2: Q::Error|
                    #[trigger] p.yields(input, end1, Err(d1)) && #[trigger] q.yields(input, end2, Err(d2))
                        && d1 == e1 && d2 == e2;
                assert(p.yields(input, end1, Err(d1)));
            },
        }
    }
}

/// Attempting the two branches at the same time yields exactly the outcomes that
/// attempting them in turn does: the left branch wins whenever it succeeds.
pub proof fn par_or_agrees_with_or<Input, P, Q>(
    p: P,
    q: Q,
    input: Input,
    rest: Input,
    res: Result<Either<P::Output, Q::Output>, (P::Error, Q::Error)>,
)
    where
        Input: Restore + Copy + Send,
        P: ParserOnce<Input> + Send,
        Q: ParserOnce<Input> + Send,
        P::Output: Send,
        P::Error: Send,
        Q::Output: Send,
        Q::Error: Send,
    ensures
        ParOr(p, q).ready(input) == Or(p, q).ready(input),
        ParOr(p, q).yields(input, rest, res) == Or(p, q).yields(input, rest, res),
{
}

proof fn lemma_collected_vec<Item>(items: Seq<Item>)
    ensures
        collected::<Item, Vec<Item>>(Seq::empty(), items) == items,
    decreases items.len(),
{
    if items.len() > 0 {
        lemma_collected_vec(items.drop_last());
        assert(items.drop_last().push(items.last()) =~= items);
    }
}

/// Repeating as long as a rule succeeds never fails. Into a sink that starts empty and
/// keeps each item, it collects the outputs of a run of consecutive successes from the
/// start, in order, and stops right after the last of them, where the next attempt failed.
pub proof fn zero_or_more_collects_the_run<Input: Restore, P, F>(
    p: P,
    f: F,
    input: Input,
    rest: Input,
    res: Result<Vec<P::Output>, std::convert::Infallible>,
)
    where
        P: crate::ParserMut<Input>,
        F: FnOnce() -> Vec<P::Output>,
    requires
        forall|v: Vec<P::Output>| #[trigger] f.ensures((), v) ==> v@.len() == 0,
        ZeroOrMore(p, f).yields(input, rest, res),
    ensures
        res is Ok,
        exists|steps: Seq<(Input, P::Output)>|
            #[trigger] run_from(p, input, steps) && rest == run_end(input, steps)
                && res->Ok_0@ == outputs(steps) && res->Ok_0@.len() == steps.len()
                && exists|end: Input, e: P::Error| #[trigger] p.yields(rest, end, Err(e)),
{
    let c = res->Ok_0;
    let (steps, c0, end, e) = choose|steps: Seq<(Input, P::Output)>, c0: Vec<P::Output>, end: Input, e: P::Error|
        #[trigger] f.ensures((), c0) && #[trigger] p.yields(run_end(input, steps), end, Err(e))
            && run_from(p, input, steps) && rest == run_end(input, steps)
            && c.contents() == collected::<P::Output, Vec<P::Output>>(c0.contents(), outputs(steps));
    assert(c0@ =~= Seq::<P::Output>::empty());
    lemma_collected_vec(outputs(steps));
    assert(run_from(p, input, steps));
}

/// Repeating at least once fails exactly where the first attempt failed, and then
/// consumes nothing; where the first attempt succeeded it does not fail, and it behaves
/// as repeating as long as the rule succeeds, whatever sink it fills.
pub proof fn one_or_more_fails_iff_first_fails<Input: Restore, P, F, C>(
    p: P,
    f: F,
    input: Input,
    rest: Input,
    res: Result<C, crate::repeat::FoundZero>,
)
    where
        P: crate::ParserMut<Input>,
        F: FnMut() -> C,
        C: Collection<P::Output>,
    requires
        OneOrMore(ZeroOrMore(p, f)).yields(input, rest, res),
    ensures
        res is Err ==> rest == input && exists|end: Input, e: P::Error| #[trigger] p.yields(input, end, Err(e)),
        res is Ok ==> many_yields(p, f, input, rest, res->Ok_0)
            && exists|mid: Input, a: P::Output| #[trigger] p.yields(input, mid, Ok(a)),
        (forall|j: Input, r: Result<P::Output, P::Error>| #[trigger] p.yields(input, j, r) ==> r is Ok) ==> res is Ok,
        (forall|j: Input, r: Result<P::Output, P::Error>| #[trigger] p.yields(input, j, r) ==> r is Err) ==> res is Err,
{
    match res {
        Ok(c) => {
            let (steps, c0, end, e) = choose|steps: Seq<(Input, P::Output)>, c0: C, end: Input, e: P::Error|
                #[trigger] f.ensures((), c0) && #[trigger] p.yields(run_end(input, steps), end, Err(e))
                    && run_from(p, input, steps) && rest == run_end(input, steps) && steps.len() > 0
                    && c.contents() == collected::<P::Output, C>(c0.contents(), outputs(steps));
            assert(run_from(p, input, steps));
            assert(p.yields(crate::repeat::pos_before(input, steps, 0), steps[0].0, Ok(steps[0].1)));
            assert(p.yields(input, steps[0].0, Ok(steps[0].1)));
            assert(many_yields(p, f, input, rest, c));
        },
        Err(_) => {
            let (end, e) = choose|end: Input, e: P::Error| #[trigger] p.yields(input, end, Err(e));
            assert(p.yields(input, end, Err(e)));
        },
    }
}

/// Repeating between `min` and `max` times fails, consuming nothing, only after fewer
/// than `min` matches; otherwise it collects between `min` and `max` outputs and stops
/// right after the last match, because it reached `max` or because the next attempt failed.
pub proof fn repeat_counts_within_range<Input: Restore, P, F>(
    p: P,
    f: F,
    min: usize,
    max: usize,
    input: Input,
    rest: Input,
    res: Result<Vec<P::Output>, crate::repeat::RangeError>,
)
    where
        P: crate::ParserMut<Input>,
        F: FnOnce() -> Vec<P::Output>,
    requires
        min <= max,
        forall|v: Vec<P::Output>| #[trigger] f.ensures((), v) ==> v@.len() == 0,
        Repeat(p, f, min, max).yields(input, rest, res),
    ensures
        res is Err ==> rest == input && exists|steps: Seq<(Input, P::Output)>, end: Input, e: P::Error|
            #[trigger] p.yields(run_end(input, steps), end, Err(e)) && run_from(p, input, steps) && steps.len() < min,
        res is Ok ==> exists|steps: Seq<(Input, P::Output)>|
            #[trigger] run_from(p, input, steps) && rest == run_end(input, steps)
                && min <= steps.len() <= max && res->Ok_0@ == outputs(steps)
                && (steps.len() < max ==> exists|end: Input, e: P::Error| #[trigger] p.yields(rest, end, Err(e))),
{
    if res is Ok {
        let c = res->Ok_0;
        let (steps, c0) = choose|steps: Seq<(Input, P::Output)>, c0: Vec<P::Output>|
            #[trigger] f.ensures((), c0) && #[trigger] run_from(p, input, steps)
                && min <= steps.len() && (steps.len() <= max || steps.len() == min)
                && (steps.len() < max ==> exists|end: Input, e: P::Error| #[trigger] p.yields(run_end(input, steps), end, Err(e)))
                && rest == run_end(input, steps)
                && c.contents() == collected::<P::Output, Vec<P::Output>>(c0.contents(), outputs(steps));
        assert(c0@ =~= Seq::<P::Output>::empty());
        lemma_collected_vec(outputs(steps));
        assert(run_from(p, input, steps));
    }
}

/// Where the predicate rejects the input, asking first means the inner rule is never
/// attempted: the outcome is a rejection at the same place, whatever the inner rule is.
pub proof fn filter_input_rejects_without_attempt<Input, P: ParserOnce<Input>, P2, F>(
    p: P,
    p2: P2,
    f: F,
    input: Input,
    rest: Input,
    res: Result<P::Output, FilterError<P::Error>>,
)
    where
        P2: ParserOnce<Input, Output = P::Output, Error = P::Error>,
        F: FnOnce(&Input) -> bool,
    requires
        forall|b: bool| #[trigger] f.ensures((&input,), b) ==> !b,
    ensures
        FilterInput(p, f).yields(input, rest, res) ==> rest == input && res == Err::<P::Output, FilterError<P::Error>>(FilterError::FilterError),
        FilterInput(p, f).yields(input, rest, res) == FilterInput(p2, f).yields(input, rest, res),
{
    assert(!f.ensures((&input,), true));
}

} // verus!
