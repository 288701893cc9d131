//! Band-limited oscillator.
use vstd::prelude::*;

use crate::arith::{meant, total, Prim, Sums};
use crate::math::cycle;
use crate::noise::Noise;
use crate::single::{Single, HALF, ONE, TAU, TWO, ZERO};

verus! {

/// What an oscillator produces.
#[derive(Clone, Copy, Debug, PartialEq, Eq, Structural, Hash)]
pub enum Waveform {
    Sine,
    Triangle,
    Saw,
    Square,
    /// Square with variable duty cycle.
    Pulse,
    WhiteNoise,
    PinkNoise,
}

impl Waveform {
    /// Every variant, in index order.
    pub open spec fn all() -> Seq<Waveform> {
        seq![
            Waveform::Sine,
            Waveform::Triangle,
            Waveform::Saw,
            Waveform::Square,
            Waveform::Pulse,
            Waveform::WhiteNoise,
            Waveform::PinkNoise,
        ]
    }

    /// Position in [`Waveform::all`].
    pub open spec fn position(self) -> int {
        match self {
            Waveform::Sine => 0,
            Waveform::Triangle => 1,
            Waveform::Saw => 2,
            Waveform::Square => 3,
            Waveform::Pulse => 4,
            Waveform::WhiteNoise => 5,
            Waveform::PinkNoise => 6,
        }
    }

    /// The published name.
    pub open spec fn label(self) -> Seq<char> {
        match self {
            Waveform::Sine => "Sine"@,
            Waveform::Triangle => "Triangle"@,
            Waveform::Saw => "Saw"@,
            Waveform::Square => "Square"@,
            Waveform::Pulse => "Pulse"@,
            Waveform::WhiteNoise => "WhiteNoise"@,
            Waveform::PinkNoise => "PinkNoise"@,
        }
    }

    /// The variant at an index; every index past the end means the last one.
    pub fn from_index(i: usize) -> (r: Waveform)
        ensures
            r == Waveform::all()[if i < 7 { i as int } else { 6 }],
    {
        match i {
            0 => Waveform::Sine,
            1 => Waveform::Triangle,
            2 => Waveform::Saw,
            3 => Waveform::Square,
            4 => Waveform::Pulse,
            5 => Waveform::WhiteNoise,
            _ => Waveform::PinkNoise,
        }
    }

    /// Index of the variant, the inverse of [`Waveform::from_index`].
    pub fn index(self) -> (r: usize)
        ensures
            r == self.position(),
            r < 7,
            Waveform::all()[r as int] == self,
    {
        match self {
            Waveform::Sine => 0,
            Waveform::Triangle => 1,
            Waveform::Saw => 2,
            Waveform::Square => 3,
            Waveform::Pulse => 4,
            Waveform::WhiteNoise => 5,
            Waveform::PinkNoise => 6,
        }
    }

    pub fn name(self) -> (r: &'static str)
        ensures
            r@ == self.label(),
    {
        match self {
            Waveform::Sine => "Sine",
            Waveform::Triangle => "Triangle",
            Waveform::Saw => "Saw",
            Waveform::Square => "Square",
            Waveform::Pulse => "Pulse",
            Waveform::WhiteNoise => "WhiteNoise",
            Waveform::PinkNoise => "PinkNoise",
        }
    }

    /// Whether the waveform has no pitch.
    pub fn is_noise(self) -> (r: bool)
        ensures
            r == (self == Waveform::WhiteNoise || self == Waveform::PinkNoise),
    {
        matches!(self, Waveform::WhiteNoise | Waveform::PinkNoise)
    }
}

impl Default for Waveform {
    fn default() -> (r: Waveform)
        ensures
            r == Waveform::Saw,
    {
        Waveform::Saw
    }
}

/// Pattern of -1.
pub const N1: u32 = 0xbf80_0000;

/// Pattern of 0.02.
pub const P0_02: u32 = 0x3ca3_d70a;

/// Pattern of 0.98.
pub const P0_98: u32 = 0x3f7a_e148;

/// Pattern of 4.
pub const P4: u32 = 0x4080_0000;

/// Residual that smooths a step at phase 0 (phase `t` in [0, 1), phase increment `dt`).
pub open spec fn residual(f: Sums, t: Single, dt: Single) -> Single {
    if t.below(dt) {
        let u = f(Prim::Div, t, dt);
        f(Prim::Sub, f(Prim::Sub, f(Prim::Add, u, u), f(Prim::Mul, u, u)), Single::of(ONE))
    } else if f(Prim::Sub, Single::of(ONE), dt).below(t) {
        let u = f(Prim::Div, f(Prim::Sub, t, Single::of(ONE)), dt);
        f(Prim::Add, f(Prim::Add, f(Prim::Add, f(Prim::Mul, u, u), u), u), Single::of(ONE))
    } else {
        Single::of(ZERO)
    }
}

fn poly_blep<F: Fn(Prim, Single, Single) -> Single>(fpu: &F, t: Single, dt: Single) -> (r: Single)
    requires
        total(*fpu),
    ensures
        forall|f: Sums| #[trigger] meant(*fpu, f) ==> r == residual(f, t, dt),
{
    if t.lt(dt) {
        let u = fpu(Prim::Div, t, dt);
        fpu(Prim::Sub, fpu(Prim::Sub, fpu(Prim::Add, u, u), fpu(Prim::Mul, u, u)), Single::of(ONE))
    } else if fpu(Prim::Sub, Single::of(ONE), dt).lt(t) {
        let u = fpu(Prim::Div, fpu(Prim::Sub, t, Single::of(ONE)), dt);
        fpu(Prim::Add, fpu(Prim::Add, fpu(Prim::Add, fpu(Prim::Mul, u, u), u), u), Single::of(ONE))
    } else {
        Single::of(ZERO)
    }
}

/// Single oscillator. Phase is kept in [0, 1).
#[derive(Clone, Copy, Debug, PartialEq, Eq, Structural)]
pub struct Oscillator {
    pub phase: Single,
    pub noise: Noise,
}

/// Seed of an oscillator that was given none.
pub const OSC_SEED: u32 = 0xc0ff_ee01;

/// Plus one in the first part of the cycle, minus one after it.
pub open spec fn half_wave(t: Single, width: Single) -> Single {
    if t.below(width) {
        Single::of(ONE)
    } else {
        Single::of(N1)
    }
}

impl Oscillator {
    pub open spec fn seeded_with(seed: u32) -> Oscillator {
        Oscillator { phase: Single::of(ZERO), noise: Noise::seeded_with(seed) }
    }

    /// The sample of a waveform at the current phase. `dt` is frequency / sample_rate; `pw` is the
    /// pulse width in (0, 1).
    pub open spec fn sample(self, f: Sums, wave: Waveform, dt: Single, pw: Single) -> Single {
        let t = self.phase;
        let d = dt.smaller(Single::of(HALF));
        match wave {
            Waveform::Sine => {
                let x = f(Prim::Mul, t, Single::of(TAU));
                f(Prim::Sin, x, Single::of(ZERO))
            },
            Waveform::Triangle => f(Prim::Sub, f(Prim::Mul, Single::of(P4), f(Prim::Sub, t, Single::of(HALF)).absolute()), Single::of(ONE)),
            Waveform::Saw => f(Prim::Sub, f(Prim::Sub, f(Prim::Mul, Single::of(TWO), t), Single::of(ONE)), residual(f, t, d)),
            Waveform::Square => {
                let v = half_wave(t, Single::of(HALF));
                f(Prim::Sub, f(Prim::Add, v, residual(f, t, d)), residual(f, f(Prim::Rem, f(Prim::Add, t, Single::of(HALF)), Single::of(ONE)), d))
            },
            Waveform::Pulse => {
                let w = pw.within(Single::of(P0_02), Single::of(P0_98));
                let v = half_wave(t, w);
                f(Prim::Sub, f(Prim::Sub, f(Prim::Add, v, residual(f, t, d)), residual(f, f(Prim::Rem, f(Prim::Sub, f(Prim::Add, t, Single::of(ONE)), w), Single::of(ONE)), d)), f(Prim::Sub, f(Prim::Mul, Single::of(TWO), w), Single::of(ONE)))
            },
            Waveform::WhiteNoise => self.noise.draw(),
            Waveform::PinkNoise => self.noise.pink.output(f, self.noise.draw()),
        }
    }

    /// The oscillator one sample on. Noise draws from its stream; every waveform moves the phase.
    pub open spec fn moved(self, f: Sums, wave: Waveform, dt: Single) -> Oscillator {
        let phase = f(Prim::Add, self.phase, dt.smaller(Single::of(HALF)));
        Oscillator {
            phase: crate::math::cycled(
                if Single::of(ONE).at_most(phase) {
                    f(Prim::Sub, phase, Single::of(ONE))
                } else if phase.below(Single::of(ZERO)) {
                    f(Prim::Rem, phase, Single::of(ONE))
                } else {
                    phase
                },
            ),
            noise: match wave {
                Waveform::WhiteNoise => Noise { rng: self.noise.rng.advanced(), ..self.noise },
                Waveform::PinkNoise => Noise {
                    rng: self.noise.rng.advanced(),
                    pink: self.noise.pink.fed(f, self.noise.draw()),
                },
                _ => self.noise,
            },
        }
    }

    pub fn new(seed: u32) -> (r: Oscillator)
        ensures
            r == Oscillator::seeded_with(seed),
    {
        Oscillator { phase: Single::of(ZERO), noise: Noise::new(seed) }
    }

    /// Go to a phase: its distance above the whole number below it, kept in [0, 1).
    pub fn reset<F: Fn(Prim, Single, Single) -> Single>(&mut self, fpu: &F, phase: Single)
        requires
            total(*fpu),
        ensures
            final(self).noise == old(self).noise,
            forall|f: Sums| #[trigger] meant(*fpu, f) ==> final(self).phase == crate::math::cycled(f(Prim::Rem, phase, Single::of(ONE))),
            crate::math::in_cycle(final(self).phase),
    {
        self.phase = cycle(fpu(Prim::Rem, phase, Single::of(ONE)));
    }

    /// Produce one sample. `dt` is frequency / sample_rate; `pw` is the pulse width in (0, 1).
    pub fn next<F: Fn(Prim, Single, Single) -> Single>(&mut self, fpu: &F, wave: Waveform, dt: Single, pw: Single) -> (r: Single)
        requires
            total(*fpu),
        ensures
            forall|f: Sums| #[trigger] meant(*fpu, f) ==> r == old(self).sample(f, wave, dt, pw) && *final(self) == old(self).moved(f, wave, dt),
            crate::math::in_cycle(final(self).phase),
    {
        let t = self.phase;
        let d = dt.min(Single::of(HALF));
        let out = match wave {
            Waveform::Sine => {
                let x = fpu(Prim::Mul, t, Single::of(TAU));
                fpu(Prim::Sin, x, Single::of(ZERO))
            },
            // Naive triangle: harmonics fall off at 1/n^2 so aliasing is negligible for
            // game audio, and it keeps the waveform exact at very low frequencies.
            Waveform::Triangle => fpu(Prim::Sub, fpu(Prim::Mul, Single::of(P4), fpu(Prim::Sub, t, Single::of(HALF)).abs()), Single::of(ONE)),
            Waveform::Saw => fpu(Prim::Sub, fpu(Prim::Sub, fpu(Prim::Mul, Single::of(TWO), t), Single::of(ONE)), poly_blep(fpu, t, d)),
            Waveform::Square => {
                let v = if t.lt(Single::of(HALF)) {
                    Single::of(ONE)
                } else {
                    Single::of(N1)
                };
                fpu(Prim::Sub, fpu(Prim::Add, v, poly_blep(fpu, t, d)), poly_blep(fpu, fpu(Prim::Rem, fpu(Prim::Add, t, Single::of(HALF)), Single::of(ONE)), d))
            },
            Waveform::Pulse => {
                let w = pw.clamp(Single::of(P0_02), Single::of(P0_98));
                let v = if t.lt(w) {
                    Single::of(ONE)
                } else {
                    Single::of(N1)
                };
                // The last term removes the offset of an asymmetric duty cycle.
                fpu(Prim::Sub, fpu(Prim::Sub, fpu(Prim::Add, v, poly_blep(fpu, t, d)), poly_blep(fpu, fpu(Prim::Rem, fpu(Prim::Sub, fpu(Prim::Add, t, Single::of(ONE)), w), Single::of(ONE)), d)), fpu(Prim::Sub, fpu(Prim::Mul, Single::of(TWO), w), Single::of(ONE)))
            },
            Waveform::WhiteNoise => self.noise.white(),
            Waveform::PinkNoise => self.noise.pink(fpu),
        };
        let phase = fpu(Prim::Add, self.phase, d);
        if Single::of(ONE).le(phase) {
            self.phase = cycle(fpu(Prim::Sub, phase, Single::of(ONE)));
        } else if phase.lt(Single::of(ZERO)) {
            self.phase = cycle(fpu(Prim::Rem, phase, Single::of(ONE)));
        } else {
            self.phase = cycle(phase);
        }
        out
    }
}

impl Default for Oscillator {
    fn default() -> (r: Oscillator)
        ensures
            r == Oscillator::seeded_with(OSC_SEED),
    {
        Oscillator::new(OSC_SEED)
    }
}

} // verus!
