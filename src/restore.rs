//! The checkpoint protocol that backtracking rests on.
use vstd::prelude::*;

verus! {

/// An input whose position can be captured and later returned to.
///
/// `at(sp)` is the input that the checkpoint `sp` stands for; `remaining` measures
/// what is left to read, and a rule that consumes something makes it smaller.
pub trait Restore: Sized {
    type SavePoint: Copy;

    spec fn at(sp: Self::SavePoint) -> Self;

    spec fn remaining(&self) -> nat;

    /// Captures the current position.
    fn save(&self) -> (sp: Self::SavePoint)
        ensures
            Self::at(sp) == *self,
    ;

    /// Returns to the position captured in `sp`, whatever was read since.
    fn restore(self, sp: Self::SavePoint) -> (r: Self)
        ensures
            r == Self::at(sp),
    ;
}

impl<'a> Restore for &'a str {
    type SavePoint = &'a str;

    open spec fn at(sp: &'a str) -> &'a str {
        sp
    }

    open spec fn remaining(&self) -> nat {
        self@.len()
    }

    fn save(&self) -> (sp: &'a str) {
        *self
    }

    fn restore(self, sp: &'a str) -> (r: &'a str) {
        sp
    }
}

impl<'a, T> Restore for &'a [T] {
    type SavePoint = &'a [T];

    open spec fn at(sp: &'a [T]) -> &'a [T] {
        sp
    }

    open spec fn remaining(&self) -> nat {
        self@.len()
    }

    fn save(&self) -> (sp: &'a [T]) {
        *self
    }

    fn restore(self, sp: &'a [T]) -> (r: &'a [T]) {
        sp
    }
}

} // verus!
