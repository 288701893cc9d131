//! Low frequency oscillator.
use vstd::prelude::*;

use crate::arith::{meant, total, Prim, Sums};
use crate::math::{swing, Rng};
use crate::single::{Single, HALF, ONE, TAU, TWO, ZERO};

verus! {

/// Shape of the low frequency oscillator.
#[derive(Clone, Copy, Debug, PartialEq, Eq, Structural, Hash)]
pub enum LfoWave {
    Sine,
    Triangle,
    Saw,
    Square,
    SampleHold,
}

impl LfoWave {
    /// Every variant, in index order.
    pub open spec fn all() -> Seq<LfoWave> {
        seq![
            LfoWave::Sine,
            LfoWave::Triangle,
            LfoWave::Saw,
            LfoWave::Square,
            LfoWave::SampleHold,
        ]
    }

    /// Position in [`LfoWave::all`].
    pub open spec fn position(self) -> int {
        match self {
            LfoWave::Sine => 0,
            LfoWave::Triangle => 1,
            LfoWave::Saw => 2,
            LfoWave::Square => 3,
            LfoWave::SampleHold => 4,
        }
    }

    /// The published name.
    pub open spec fn label(self) -> Seq<char> {
        match self {
            LfoWave::Sine => "Sine"@,
            LfoWave::Triangle => "Triangle"@,
            LfoWave::Saw => "Saw"@,
            LfoWave::Square => "Square"@,
            LfoWave::SampleHold => "SampleHold"@,
        }
    }

    /// The variant at an index; every index past the end means the last one.
    pub fn from_index(i: usize) -> (r: LfoWave)
        ensures
            r == LfoWave::all()[if i < 5 { i as int } else { 4 }],
    {
        match i {
            0 => LfoWave::Sine,
            1 => LfoWave::Triangle,
            2 => LfoWave::Saw,
            3 => LfoWave::Square,
            _ => LfoWave::SampleHold,
        }
    }

    /// Index of the variant, the inverse of [`LfoWave::from_index`].
    pub fn index(self) -> (r: usize)
        ensures
            r == self.position(),
            r < 5,
            LfoWave::all()[r as int] == self,
    {
        match self {
            LfoWave::Sine => 0,
            LfoWave::Triangle => 1,
            LfoWave::Saw => 2,
            LfoWave::Square => 3,
            LfoWave::SampleHold => 4,
        }
    }

    pub fn name(self) -> (r: &'static str)
        ensures
            r@ == self.label(),
    {
        match self {
            LfoWave::Sine => "Sine",
            LfoWave::Triangle => "Triangle",
            LfoWave::Saw => "Saw",
            LfoWave::Square => "Square",
            LfoWave::SampleHold => "SampleHold",
        }
    }
}

impl Default for LfoWave {
    fn default() -> (r: LfoWave)
        ensures
            r == LfoWave::Sine,
    {
        LfoWave::Sine
    }
}

/// Pattern of -1.
pub const N1: u32 = 0xbf80_0000;

/// Pattern of 4.
pub const P4: u32 = 0x4080_0000;

/// Pattern of 5.
pub const P5: u32 = 0x40a0_0000;

/// How the low frequency oscillator moves a sound.
#[derive(Clone, Copy, Debug, PartialEq, Eq, Structural)]
pub struct LfoParams {
    pub wave: LfoWave,
    /// Rate in Hz.
    pub rate_hz: Single,
    /// Pitch modulation depth in semitones.
    pub pitch: Single,
    /// Filter cutoff modulation depth in octaves.
    pub cutoff: Single,
    /// Tremolo depth 0..1.
    pub amp: Single,
    /// Pulse width modulation depth 0..0.5.
    pub pulse_width: Single,
    /// Seconds for the LFO depth to fade in after note on.
    pub fade_in: Single,
}

impl Default for LfoParams {
    fn default() -> (r: LfoParams)
        ensures
            r == LfoParams::still(),
    {
        let z = Single::of(ZERO);
        LfoParams { wave: LfoWave::Sine, rate_hz: Single::of(P5), pitch: z, cutoff: z, amp: z, pulse_width: z, fade_in: z }
    }
}

impl LfoParams {
    /// Five cycles per second that move nothing.
    pub open spec fn still() -> LfoParams {
        let z = Single::of(ZERO);
        LfoParams { wave: LfoWave::Sine, rate_hz: Single::of(P5), pitch: z, cutoff: z, amp: z, pulse_width: z, fade_in: z }
    }

    /// Any depth other than zero, of either sign; what is no number is other than zero too.
    pub open spec fn active(self) -> bool {
        !(self.pitch.zero() && self.cutoff.zero() && self.amp.zero() && self.pulse_width.zero())
    }

    pub fn is_active(&self) -> (r: bool)
        ensures
            r == self.active(),
    {
        !self.pitch.is_zero() || !self.cutoff.is_zero() || !self.amp.is_zero() || !self.pulse_width.is_zero()
    }
}

#[derive(Clone, Copy, Debug, PartialEq, Eq, Structural)]
pub struct Lfo {
    pub phase: Single,
    pub held: Single,
    pub rng: Rng,
    pub value: Single,
}

/// Seed of the held values.
pub const LFO_SEED: u32 = 0x10f0_0001;

impl Default for Lfo {
    fn default() -> (r: Lfo)
        ensures
            r == Lfo::fresh(),
    {
        Lfo { phase: Single::of(ZERO), held: Single::of(ZERO), rng: Rng::new(LFO_SEED), value: Single::of(ZERO) }
    }
}

impl Lfo {
    pub open spec fn fresh() -> Lfo {
        Lfo { phase: Single::of(ZERO), held: Single::of(ZERO), rng: Rng::seeded_with(LFO_SEED), value: Single::of(ZERO) }
    }

    pub open spec fn restarted(self) -> Lfo {
        Lfo {
            phase: Single::of(ZERO),
            held: crate::math::bipolar(self.rng.fraction()),
            rng: self.rng.advanced(),
            value: Single::of(ZERO),
        }
    }

    /// Value of a waveform at a phase.
    pub open spec fn shape(f: Sums, wave: LfoWave, t: Single, held: Single) -> Single {
        match wave {
            LfoWave::Sine => {
                let x = f(Prim::Mul, t, Single::of(TAU));
                f(Prim::Sin, x, Single::of(ZERO))
            },
            LfoWave::Triangle => f(Prim::Sub, Single::of(ONE), f(Prim::Mul, Single::of(P4), f(Prim::Sub, t, Single::of(HALF)).absolute())),
            LfoWave::Saw => f(Prim::Sub, f(Prim::Mul, Single::of(TWO), t), Single::of(ONE)),
            LfoWave::Square => if t.below(Single::of(HALF)) {
                Single::of(ONE)
            } else {
                Single::of(N1)
            },
            LfoWave::SampleHold => held,
        }
    }

    /// The oscillator `dt` seconds on. Only sample and hold draws a new value, once per cycle.
    pub open spec fn advanced(self, f: Sums, wave: LfoWave, rate_hz: Single, dt: Single) -> Lfo {
        let moved = f(Prim::Add, self.phase, f(Prim::Mul, rate_hz, dt));
        let wraps = Single::of(ONE).at_most(moved);
        let draws = wraps && wave == LfoWave::SampleHold;
        let phase = if wraps {
            f(Prim::Sub, moved, f(Prim::Floor, moved, Single::of(ZERO)))
        } else {
            moved
        };
        let held = if draws {
            crate::math::bipolar(self.rng.fraction())
        } else {
            self.held
        };
        Lfo {
            phase,
            held,
            rng: if draws {
                self.rng.advanced()
            } else {
                self.rng
            },
            value: crate::math::swung(Lfo::shape(f, wave, phase, held)),
        }
    }

    pub fn reset(&mut self)
        ensures
            *final(self) == old(self).restarted(),
    {
        self.phase = Single::of(ZERO);
        self.held = self.rng.next_bipolar();
        self.value = Single::of(ZERO);
    }

    /// Advance by `dt_secs` and return the new bipolar value in [-1, 1].
    pub fn advance<F: Fn(Prim, Single, Single) -> Single>(&mut self, fpu: &F, wave: LfoWave, rate_hz: Single, dt_secs: Single) -> (r: Single)
        requires
            total(*fpu),
        ensures
            r == final(self).value,
            crate::math::in_swing(r),
            forall|f: Sums| #[trigger] meant(*fpu, f) ==> *final(self) == old(self).advanced(f, wave, rate_hz, dt_secs),
    {
        self.phase = fpu(Prim::Add, self.phase, fpu(Prim::Mul, rate_hz, dt_secs));
        if Single::of(ONE).le(self.phase) {
            self.phase = fpu(Prim::Sub, self.phase, fpu(Prim::Floor, self.phase, Single::of(ZERO)));
            if wave == LfoWave::SampleHold {
                self.held = self.rng.next_bipolar();
            }
        }
        let t = self.phase;
        let value = match wave {
            LfoWave::Sine => {
                let x = fpu(Prim::Mul, t, Single::of(TAU));
                fpu(Prim::Sin, x, Single::of(ZERO))
            },
            LfoWave::Triangle => fpu(Prim::Sub, Single::of(ONE), fpu(Prim::Mul, Single::of(P4), fpu(Prim::Sub, t, Single::of(HALF)).abs())),
            LfoWave::Saw => fpu(Prim::Sub, fpu(Prim::Mul, Single::of(TWO), t), Single::of(ONE)),
            LfoWave::Square => if t.lt(Single::of(HALF)) {
                Single::of(ONE)
            } else {
                Single::of(N1)
            },
            LfoWave::SampleHold => self.held,
        };
        self.value = swing(value);
        self.value
    }

    pub fn value(&self) -> (r: Single)
        ensures
            r == self.value,
    {
        self.value
    }
}

} // verus!
