//! Errors and outputs that cannot happen.
use vstd::prelude::*;

use either::Either;

pub use std::convert::Infallible;

verus! {

/// Any type can be had from a value that cannot exist.
///
/// Relies on std::convert::Infallible having no values: the function can never be
/// called, so it claims nothing of its result.
#[verifier::external_body]
pub fn from_infallible<T>(i: Infallible) -> T {
    match i {}
}

/// A type with no values, or made only of such types.
pub trait IntoInfallible: Sized {
    fn into_infallible(self) -> Infallible;
}

impl IntoInfallible for Infallible {
    fn into_infallible(self) -> Infallible {
        self
    }
}

impl<T: IntoInfallible, U: IntoInfallible> IntoInfallible for Either<T, U> {
    fn into_infallible(self) -> Infallible {
        match self {
            Either::Left(x) => x.into_infallible(),
            Either::Right(x) => x.into_infallible(),
        }
    }
}

/// The left value of an `Either` whose right side cannot exist.
pub fn unwrap_left<L, N: IntoInfallible>(e: Either<L, N>) -> (l: L)
    ensures
        match e {
            Either::Left(x) => l == x,
            Either::Right(_) => true,
        },
{
    match e {
        Either::Left(l) => l,
        Either::Right(r) => from_infallible(r.into_infallible()),
    }
}

/// The right value of an `Either` whose left side cannot exist.
pub fn unwrap_right<R, N: IntoInfallible>(e: Either<N, R>) -> (r: R)
    ensures
        match e {
            Either::Left(_) => true,
            Either::Right(x) => r == x,
        },
{
    match e {
        Either::Left(l) => from_infallible(l.into_infallible()),
        Either::Right(r) => r,
    }
}

} // verus!
