//! The floating-point unit, as the engine sees it.
//!
//! Sums, products and transcendental functions of [`Single`]s are not computed here: every
//! function that needs them takes a closure that does, one operation per call. What such a
//! function computes is stated for every meaning the closure may have: [`meant`] says that a
//! closure computes a given mathematical function, and a contract then speaks of that function.
use vstd::prelude::*;

use crate::single::Single;

verus! {

/// One operation on singles. Operations with one operand take it as their first and ignore the
/// second.
#[derive(Clone, Copy, Debug, PartialEq, Eq, Structural)]
pub enum Prim {
    Add,
    Sub,
    Mul,
    Div,
    /// The remainder that is never negative.
    Rem,
    Pow,
    Sqrt,
    Exp,
    Exp2,
    Ln,
    Log2,
    Sin,
    Cos,
    Tan,
    Floor,
    /// What is left of a number without its integer part.
    Fract,
    /// The nearest integer, halves away from zero.
    Round,
}

/// What a closure may mean.
pub type Sums = spec_fn(Prim, Single, Single) -> Single;

/// The closure may be called on everything.
pub open spec fn total<A: Fn(Prim, Single, Single) -> Single>(a: A) -> bool {
    forall|p: Prim, x: Single, y: Single| #[trigger] call_requires(a, (p, x, y))
}

/// The closure computes `f`.
pub open spec fn meant<A: Fn(Prim, Single, Single) -> Single>(a: A, f: Sums) -> bool {
    forall|p: Prim, x: Single, y: Single, r: Single| #[trigger] call_ensures(a, (p, x, y), r) ==> r == f(p, x, y)
}

/// What a reader of numerals may mean.
pub type Numerals = spec_fn(Seq<char>) -> Single;

/// The reader of numerals may be called on every text.
pub open spec fn reads_all<N: Fn(&String) -> Single>(n: N) -> bool {
    forall|s: &String| #[trigger] call_requires(n, (s,))
}

/// The reader of numerals gives a text the value `g` of its characters.
pub open spec fn reads<N: Fn(&String) -> Single>(n: N, g: Numerals) -> bool {
    forall|s: &String, r: Single| #[trigger] call_ensures(n, (s,), r) ==> r == g(s@)
}

} // verus!
