//! What a grammar usually needs in scope.
use vstd::prelude::*;

pub mod util;


pub use crate::func::AsParser;
pub use crate::{Parser, ParserMut, ParserOnce};

use crate::func::{Defer, DeferMut, DeferOnce};

verus! {

/// A rule built by `f`, once, when it is attempted.
pub fn defer_once<F>(f: F) -> (r: DeferOnce<F>)
    ensures
        r == DeferOnce(f),
{
    f.defer_once()
}

/// A rule built afresh by `f` on each attempt, through a mutable handle.
pub fn defer_mut<F>(f: F) -> (r: DeferMut<F>)
    ensures
        r == DeferMut(f),
{
    f.defer_mut()
}

/// A rule built afresh by `f` on each attempt; the way a grammar refers to itself.
pub fn defer<F>(f: F) -> (r: Defer<F>)
    ensures
        r == Defer(f),
{
    f.defer()
}

} // verus!
