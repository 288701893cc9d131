//! What a model is built and run with: floating-point arithmetic, and the reading and showing of
//! numbers.
use vstd::prelude::*;

use crate::arith::{meant, reads, reads_all, total, Numerals, Prim, Sums};
use crate::single::Single;

verus! {

/// The closures of a host.
pub struct Host<'a, F: Fn(Prim, Single, Single) -> Single, N: Fn(&String) -> Single, S: Fn(&String) -> String> {
    /// Floating-point arithmetic.
    pub fpu: &'a F,
    /// Value of a number as written.
    pub number: &'a N,
    /// How the value of a number as written is shown in a message.
    pub show: &'a S,
}

/// What the closures of a host may mean.
pub struct Sense {
    pub f: Sums,
    pub g: Numerals,
    pub show: spec_fn(Seq<char>) -> Seq<char>,
}

impl<'a, F: Fn(Prim, Single, Single) -> Single, N: Fn(&String) -> Single, S: Fn(&String) -> String> Host<'a, F, N, S> {
    pub open spec fn means(&self, w: Sense) -> bool {
        meant(*self.fpu, w.f) && reads(*self.number, w.g) && crate::graph::parse::shows(
            *self.show,
            w.show,
        )
    }

    /// The closures can be called on everything, and give equal arguments equal results.
    pub open spec fn ok(&self) -> bool {
        &&& total(*self.fpu)
        &&& reads_all(*self.number)
        &&& forall|text: &String| #[trigger] call_requires(*self.show, (text,))
        &&& exists|w: Sense| self.means(w)
    }
}

} // verus!
