//! State variable filter.
use vstd::prelude::*;

use crate::arith::{meant, total, Prim, Sums};
use crate::single::{Single, ONE, PI, TWO, ZERO};

verus! {

/// Response of the state variable filter.
#[derive(Clone, Copy, Debug, PartialEq, Eq, Structural, Hash)]
pub enum FilterMode {
    Off,
    LowPass,
    HighPass,
    BandPass,
    Notch,
}

impl FilterMode {
    /// Every variant, in index order.
    pub open spec fn all() -> Seq<FilterMode> {
        seq![
            FilterMode::Off,
            FilterMode::LowPass,
            FilterMode::HighPass,
            FilterMode::BandPass,
            FilterMode::Notch,
        ]
    }

    /// Position in [`FilterMode::all`].
    pub open spec fn position(self) -> int {
        match self {
            FilterMode::Off => 0,
            FilterMode::LowPass => 1,
            FilterMode::HighPass => 2,
            FilterMode::BandPass => 3,
            FilterMode::Notch => 4,
        }
    }

    /// The published name.
    pub open spec fn label(self) -> Seq<char> {
        match self {
            FilterMode::Off => "Off"@,
            FilterMode::LowPass => "LowPass"@,
            FilterMode::HighPass => "HighPass"@,
            FilterMode::BandPass => "BandPass"@,
            FilterMode::Notch => "Notch"@,
        }
    }

    /// The variant at an index; every index past the end means the last one.
    pub fn from_index(i: usize) -> (r: FilterMode)
        ensures
            r == FilterMode::all()[if i < 5 { i as int } else { 4 }],
    {
        match i {
            0 => FilterMode::Off,
            1 => FilterMode::LowPass,
            2 => FilterMode::HighPass,
            3 => FilterMode::BandPass,
            _ => FilterMode::Notch,
        }
    }

    /// Index of the variant, the inverse of [`FilterMode::from_index`].
    pub fn index(self) -> (r: usize)
        ensures
            r == self.position(),
            r < 5,
            FilterMode::all()[r as int] == self,
    {
        match self {
            FilterMode::Off => 0,
            FilterMode::LowPass => 1,
            FilterMode::HighPass => 2,
            FilterMode::BandPass => 3,
            FilterMode::Notch => 4,
        }
    }

    pub fn name(self) -> (r: &'static str)
        ensures
            r@ == self.label(),
    {
        match self {
            FilterMode::Off => "Off",
            FilterMode::LowPass => "LowPass",
            FilterMode::HighPass => "HighPass",
            FilterMode::BandPass => "BandPass",
            FilterMode::Notch => "Notch",
        }
    }
}

impl Default for FilterMode {
    fn default() -> (r: FilterMode)
        ensures
            r == FilterMode::LowPass,
    {
        FilterMode::LowPass
    }
}

/// Pattern of 1e-15.
pub const P1E_15: u32 = 0x2690_1d7d;

/// Pattern of 0.45.
pub const P0_45: u32 = 0x3ee6_6666;

/// Pattern of 1.98.
pub const P1_98: u32 = 0x3ffd_70a4;

/// Pattern of 10.
pub const P10: u32 = 0x4120_0000;

/// State variable filter with two integrators.
#[derive(Clone, Copy, Debug, PartialEq, Eq, Structural)]
pub struct Svf {
    pub ic1eq: Single,
    pub ic2eq: Single,
    pub a1: Single,
    pub a2: Single,
    pub a3: Single,
    pub k: Single,
    pub mode: FilterMode,
}

impl Default for Svf {
    fn default() -> (r: Svf)
        ensures
            r == Svf::silent(),
    {
        let z = Single::of(ZERO);
        Svf { ic1eq: z, ic2eq: z, a1: z, a2: z, a3: z, k: z, mode: FilterMode::LowPass }
    }
}

/// An integrator that has faded away becomes zero.
pub open spec fn flushed(x: Single) -> Single {
    if x.absolute().below(Single::of(P1E_15)) {
        Single::of(ZERO)
    } else {
        x
    }
}

impl Svf {
    pub open spec fn silent() -> Svf {
        let z = Single::of(ZERO);
        Svf { ic1eq: z, ic2eq: z, a1: z, a2: z, a3: z, k: z, mode: FilterMode::LowPass }
    }

    pub open spec fn cleared(self) -> Svf {
        Svf { ic1eq: Single::of(ZERO), ic2eq: Single::of(ZERO), ..self }
    }

    /// The filter tuned to a cutoff between 10 Hz and 0.45 of the sample rate.
    pub open spec fn tuned(self, f: Sums, mode: FilterMode, cutoff_hz: Single, resonance: Single, sample_rate: Single) -> Svf {
        let fc = cutoff_hz.within(Single::of(P10), f(Prim::Mul, sample_rate, Single::of(P0_45)));
        let angle = f(Prim::Div, f(Prim::Mul, Single::of(PI), fc), sample_rate);
        let g = f(Prim::Tan, angle, Single::of(ZERO));
        let k = f(Prim::Sub, Single::of(TWO), f(Prim::Mul, Single::of(P1_98), resonance.within(Single::of(ZERO), Single::of(ONE))));
        let a1 = f(Prim::Div, Single::of(ONE), f(Prim::Add, Single::of(ONE), f(Prim::Mul, g, f(Prim::Add, g, k))));
        let a2 = f(Prim::Mul, g, a1);
        Svf { ic1eq: flushed(self.ic1eq), ic2eq: flushed(self.ic2eq), a1, a2, a3: f(Prim::Mul, g, a2), k, mode }
    }

    /// Band-pass output for a sample.
    pub open spec fn band(self, f: Sums, v0: Single) -> Single {
        let v3 = f(Prim::Sub, v0, self.ic2eq);
        f(Prim::Add, f(Prim::Mul, self.a1, self.ic1eq), f(Prim::Mul, self.a2, v3))
    }

    /// Low-pass output for a sample.
    pub open spec fn low(self, f: Sums, v0: Single) -> Single {
        let v3 = f(Prim::Sub, v0, self.ic2eq);
        f(Prim::Add, f(Prim::Add, self.ic2eq, f(Prim::Mul, self.a2, self.ic1eq)), f(Prim::Mul, self.a3, v3))
    }

    /// The filter after a sample; switched off, it stays as it is.
    pub open spec fn fed(self, f: Sums, v0: Single) -> Svf {
        if self.mode == FilterMode::Off {
            self
        } else {
            let (v1, v2) = (self.band(f, v0), self.low(f, v0));
            Svf { ic1eq: f(Prim::Sub, f(Prim::Mul, Single::of(TWO), v1), self.ic1eq), ic2eq: f(Prim::Sub, f(Prim::Mul, Single::of(TWO), v2), self.ic2eq), ..self }
        }
    }

    /// What the mode makes of the sample.
    pub open spec fn output(self, f: Sums, v0: Single) -> Single {
        let (v1, v2) = (self.band(f, v0), self.low(f, v0));
        match self.mode {
            FilterMode::Off => v0,
            FilterMode::LowPass => v2,
            FilterMode::BandPass => v1,
            FilterMode::HighPass => f(Prim::Sub, f(Prim::Sub, v0, f(Prim::Mul, self.k, v1)), v2),
            FilterMode::Notch => f(Prim::Sub, v0, f(Prim::Mul, self.k, v1)),
        }
    }

    pub fn reset(&mut self)
        ensures
            *final(self) == old(self).cleared(),
    {
        self.ic1eq = Single::of(ZERO);
        self.ic2eq = Single::of(ZERO);
    }

    /// Update coefficients. Intended to be called at control rate (once per block).
    /// `resonance` is 0..1 where 1 is at the edge of self-oscillation.
    pub fn set<F: Fn(Prim, Single, Single) -> Single>(&mut self, fpu: &F, mode: FilterMode, cutoff_hz: Single, resonance: Single, sample_rate: Single)
        requires
            total(*fpu),
        ensures
            forall|f: Sums| #[trigger] meant(*fpu, f) ==> *final(self) == old(self).tuned(f, mode, cutoff_hz, resonance, sample_rate),
    {
        self.mode = mode;
        let fc = cutoff_hz.clamp(Single::of(P10), fpu(Prim::Mul, sample_rate, Single::of(P0_45)));
        let angle = fpu(Prim::Div, fpu(Prim::Mul, Single::of(PI), fc), sample_rate);
        let g = fpu(Prim::Tan, angle, Single::of(ZERO));
        let k = fpu(Prim::Sub, Single::of(TWO), fpu(Prim::Mul, Single::of(P1_98), resonance.clamp(Single::of(ZERO), Single::of(ONE))));
        let a1 = fpu(Prim::Div, Single::of(ONE), fpu(Prim::Add, Single::of(ONE), fpu(Prim::Mul, g, fpu(Prim::Add, g, k))));
        self.a1 = a1;
        self.a2 = fpu(Prim::Mul, g, a1);
        self.a3 = fpu(Prim::Mul, g, self.a2);
        self.k = k;
        // Flush denormals that would otherwise linger in the integrators.
        if self.ic1eq.abs().lt(Single::of(P1E_15)) {
            self.ic1eq = Single::of(ZERO);
        }
        if self.ic2eq.abs().lt(Single::of(P1E_15)) {
            self.ic2eq = Single::of(ZERO);
        }
    }

    pub fn tick<F: Fn(Prim, Single, Single) -> Single>(&mut self, fpu: &F, v0: Single) -> (r: Single)
        requires
            total(*fpu),
        ensures
            forall|f: Sums| #[trigger] meant(*fpu, f) ==> r == old(self).output(f, v0) && *final(self) == old(self).fed(f, v0),
            old(self).mode == FilterMode::Off ==> r == v0 && *final(self) == *old(self),
    {
        if self.mode == FilterMode::Off {
            return v0;
        }
        let v3 = fpu(Prim::Sub, v0, self.ic2eq);
        let v1 = fpu(Prim::Add, fpu(Prim::Mul, self.a1, self.ic1eq), fpu(Prim::Mul, self.a2, v3));
        let v2 = fpu(Prim::Add, fpu(Prim::Add, self.ic2eq, fpu(Prim::Mul, self.a2, self.ic1eq)), fpu(Prim::Mul, self.a3, v3));
        self.ic1eq = fpu(Prim::Sub, fpu(Prim::Mul, Single::of(TWO), v1), self.ic1eq);
        self.ic2eq = fpu(Prim::Sub, fpu(Prim::Mul, Single::of(TWO), v2), self.ic2eq);
        match self.mode {
            FilterMode::Off => v0,
            FilterMode::LowPass => v2,
            FilterMode::BandPass => v1,
            FilterMode::HighPass => fpu(Prim::Sub, fpu(Prim::Sub, v0, fpu(Prim::Mul, self.k, v1)), v2),
            FilterMode::Notch => fpu(Prim::Sub, v0, fpu(Prim::Mul, self.k, v1)),
        }
    }
}

} // verus!
