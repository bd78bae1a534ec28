//! Small functions that grammars hand to the transform combinators.
use vstd::prelude::*;

use crate::repeat::collections::Counter;

pub use crate::infallible::{from_infallible, unwrap_left, unwrap_right, Infallible, IntoInfallible};

verus! {

/// A sink factory for repetitions whose matches are not kept.
pub fn ignore() {
}

/// A sink factory for repetitions that only count their matches.
pub fn count() -> (c: Counter)
    ensures
        c == Counter(0),
{
    Counter(0)
}

/// The first of a pair.
pub fn fst<T, U>(p: (T, U)) -> (t: T)
    ensures
        t == p.0,
{
    p.0
}

/// The second of a pair.
pub fn snd<T, U>(p: (T, U)) -> (u: U)
    ensures
        u == p.1,
{
    p.1
}

} // verus!
