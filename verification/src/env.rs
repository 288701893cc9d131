//! Envelope generator with attack, decay, sustain and release.
use vstd::prelude::*;

use crate::arith::{meant, total, Prim, Sums};
use crate::math::onepole_coef;
use crate::single::{Single, ONE, ZERO};

verus! {

/// Pattern of 0.0001.
pub const P0_0001: u32 = 0x38d1_b717;

/// Pattern of 0.005.
pub const P0_005: u32 = 0x3ba3_d70a;

/// Pattern of 0.1.
pub const P0_1: u32 = 0x3dcc_cccd;

/// Pattern of 0.2.
pub const P0_2: u32 = 0x3e4c_cccd;

/// Pattern of 0.8.
pub const P0_8: u32 = 0x3f4c_cccd;

#[derive(Clone, Copy, Debug, PartialEq, Eq, Structural)]
pub struct AdsrParams {
    /// Seconds from trigger to peak (linear ramp).
    pub attack: Single,
    /// Seconds from peak to sustain level (exponential).
    pub decay: Single,
    /// Sustain level 0..1.
    pub sustain: Single,
    /// Seconds from release to silence (exponential).
    pub release: Single,
}

impl Default for AdsrParams {
    fn default() -> (r: AdsrParams)
        ensures
            r == AdsrParams::plain(),
    {
        AdsrParams { attack: Single::of(P0_005), decay: Single::of(P0_1), sustain: Single::of(P0_8), release: Single::of(P0_2) }
    }
}

impl AdsrParams {
    pub open spec fn plain() -> AdsrParams {
        AdsrParams { attack: Single::of(P0_005), decay: Single::of(P0_1), sustain: Single::of(P0_8), release: Single::of(P0_2) }
    }

    pub fn new(attack: Single, decay: Single, sustain: Single, release: Single) -> (r: AdsrParams)
        ensures
            r == (AdsrParams { attack, decay, sustain, release }),
    {
        AdsrParams { attack, decay, sustain, release }
    }
}

/// Where an envelope is.
#[derive(Clone, Copy, Debug, PartialEq, Eq, Structural)]
pub enum Stage {
    Idle,
    Attack,
    Decay,
    Sustain,
    Release,
}

impl Default for Stage {
    fn default() -> (r: Stage)
        ensures
            r == Stage::Idle,
    {
        Stage::Idle
    }
}

/// A level brought into [0, 1]; what is no number is silence.
pub open spec fn held(x: Single) -> Single {
    if x.nan() {
        Single::of(ZERO)
    } else {
        x.within(Single::of(ZERO), Single::of(ONE))
    }
}

fn hold(x: Single) -> (r: Single)
    ensures
        r == held(x),
{
    if x.is_nan() {
        Single::of(ZERO)
    } else {
        x.clamp(Single::of(ZERO), Single::of(ONE))
    }
}

/// Linear attack, exponential decay/release. Envelope value is always in [0, 1].
#[derive(Clone, Copy, Debug, PartialEq, Eq, Structural)]
pub struct Adsr {
    pub stage: Stage,
    pub level: Single,
    pub attack_inc: Single,
    pub decay_coef: Single,
    pub release_coef: Single,
    pub sustain: Single,
}

impl Default for Adsr {
    fn default() -> (r: Adsr)
        ensures
            r == Adsr::silent(),
    {
        let z = Single::of(ZERO);
        Adsr { stage: Stage::Idle, level: z, attack_inc: z, decay_coef: z, release_coef: z, sustain: z }
    }
}

impl Adsr {
    pub open spec fn silent() -> Adsr {
        let z = Single::of(ZERO);
        Adsr { stage: Stage::Idle, level: z, attack_inc: z, decay_coef: z, release_coef: z, sustain: z }
    }

    /// The level and the sustain lie in [0, 1], and an envelope that has ended is silent.
    pub open spec fn proper(self) -> bool {
        &&& Single::of(ZERO).at_most(self.level) && self.level.at_most(Single::of(ONE))
        &&& Single::of(ZERO).at_most(self.sustain) && self.sustain.at_most(Single::of(ONE))
        &&& self.stage == Stage::Idle ==> self.level.zero()
    }

    /// The envelope at the start of its attack, which begins at the level it is at.
    pub open spec fn triggered(self, f: Sums, p: AdsrParams, sample_rate: Single) -> Adsr {
        Adsr {
            stage: Stage::Attack,
            level: self.level,
            attack_inc: if p.attack.at_most(Single::of(ZERO)) {
                Single::of(ONE)
            } else {
                f(Prim::Div, Single::of(ONE), f(Prim::Mul, p.attack, sample_rate))
            },
            decay_coef: crate::math::smoothing(f, p.decay, sample_rate),
            release_coef: crate::math::smoothing(f, p.release, sample_rate),
            sustain: held(p.sustain),
        }
    }

    pub open spec fn released(self) -> Adsr {
        if self.stage == Stage::Idle {
            self
        } else {
            Adsr { stage: Stage::Release, ..self }
        }
    }

    pub open spec fn killed(self) -> Adsr {
        Adsr { stage: Stage::Idle, level: Single::of(ZERO), ..self }
    }

    /// The envelope one sample on.
    pub open spec fn ticked(self, f: Sums) -> Adsr {
        match self.stage {
            Stage::Idle | Stage::Sustain => self,
            Stage::Attack => {
                let level = held(f(Prim::Add, self.level, self.attack_inc));
                if Single::of(ONE).at_most(level) {
                    Adsr { level: Single::of(ONE), stage: Stage::Decay, ..self }
                } else {
                    Adsr { level, ..self }
                }
            },
            Stage::Decay => {
                let level = held(f(Prim::Add, self.level, f(Prim::Mul, f(Prim::Sub, self.sustain, self.level), self.decay_coef)));
                if f(Prim::Sub, level, self.sustain).below(Single::of(P0_0001)) {
                    Adsr {
                        level: self.sustain,
                        stage: if self.sustain.at_most(Single::of(ZERO)) {
                            Stage::Idle
                        } else {
                            Stage::Sustain
                        },
                        ..self
                    }
                } else {
                    Adsr { level, ..self }
                }
            },
            Stage::Release => {
                let level = held(f(Prim::Sub, self.level, f(Prim::Mul, self.level, self.release_coef)));
                if level.below(Single::of(P0_0001)) {
                    Adsr { level: Single::of(ZERO), stage: Stage::Idle, ..self }
                } else {
                    Adsr { level, ..self }
                }
            },
        }
    }

    pub fn trigger<F: Fn(Prim, Single, Single) -> Single>(&mut self, fpu: &F, p: &AdsrParams, sample_rate: Single)
        requires
            total(*fpu),
        ensures
            final(self).stage == Stage::Attack,
            final(self).level == old(self).level,
            old(self).proper() ==> final(self).proper(),
            forall|f: Sums| #[trigger] meant(*fpu, f) ==> *final(self) == old(self).triggered(f, *p, sample_rate),
    {
        self.attack_inc = if p.attack.le(Single::of(ZERO)) {
            Single::of(ONE)
        } else {
            fpu(Prim::Div, Single::of(ONE), fpu(Prim::Mul, p.attack, sample_rate))
        };
        self.decay_coef = onepole_coef(fpu, p.decay, sample_rate);
        self.release_coef = onepole_coef(fpu, p.release, sample_rate);
        self.sustain = hold(p.sustain);
        // Retriggering from a non-zero level starts the attack from there (no click).
        self.stage = Stage::Attack;
    }

    pub fn release(&mut self)
        ensures
            *final(self) == old(self).released(),
    {
        if self.stage != Stage::Idle {
            self.stage = Stage::Release;
        }
    }

    /// Immediately silence the envelope.
    pub fn kill(&mut self)
        ensures
            *final(self) == old(self).killed(),
    {
        self.stage = Stage::Idle;
        self.level = Single::of(ZERO);
    }

    pub fn stage(&self) -> (r: Stage)
        ensures
            r == self.stage,
    {
        self.stage
    }

    pub fn is_idle(&self) -> (r: bool)
        ensures
            r == (self.stage == Stage::Idle),
    {
        self.stage == Stage::Idle
    }

    pub fn is_released(&self) -> (r: bool)
        ensures
            r == (self.stage == Stage::Release || self.stage == Stage::Idle),
    {
        self.stage == Stage::Release || self.stage == Stage::Idle
    }

    pub fn level(&self) -> (r: Single)
        ensures
            r == self.level,
    {
        self.level
    }

    pub fn tick<F: Fn(Prim, Single, Single) -> Single>(&mut self, fpu: &F) -> (r: Single)
        requires
            total(*fpu),
        ensures
            r == final(self).level,
            forall|f: Sums| #[trigger] meant(*fpu, f) ==> *final(self) == old(self).ticked(f),
            old(self).stage == Stage::Idle || old(self).stage == Stage::Sustain ==> *final(self) == *old(self),
            old(self).proper() ==> final(self).proper(),
            old(self).stage == Stage::Release ==> final(self).stage == Stage::Release || *final(self) == old(self).killed(),
    {
        match self.stage {
            Stage::Idle => {},
            Stage::Attack => {
                self.level = hold(fpu(Prim::Add, self.level, self.attack_inc));
                if Single::of(ONE).le(self.level) {
                    self.level = Single::of(ONE);
                    self.stage = Stage::Decay;
                }
            },
            Stage::Decay => {
                self.level = hold(fpu(Prim::Add, self.level, fpu(Prim::Mul, fpu(Prim::Sub, self.sustain, self.level), self.decay_coef)));
                if fpu(Prim::Sub, self.level, self.sustain).lt(Single::of(P0_0001)) {
                    self.level = self.sustain;
                    self.stage = Stage::Sustain;
                    if self.sustain.le(Single::of(ZERO)) {
                        self.stage = Stage::Idle;
                    }
                }
            },
            Stage::Sustain => {},
            Stage::Release => {
                self.level = hold(fpu(Prim::Sub, self.level, fpu(Prim::Mul, self.level, self.release_coef)));
                if self.level.lt(Single::of(P0_0001)) {
                    self.level = Single::of(ZERO);
                    self.stage = Stage::Idle;
                }
            },
        }
        self.level
    }
}

/// How far an envelope has come.
pub open spec fn progress(stage: Stage) -> int {
    match stage {
        Stage::Attack => 0,
        Stage::Decay => 1,
        Stage::Sustain => 2,
        Stage::Release => 3,
        Stage::Idle => 4,
    }
}

/// By itself an envelope only ever goes on, one stage at a time or to its end; it never restarts
/// and never leaves its sustain.
pub proof fn lemma_envelope_goes_on(e: Adsr, f: Sums)
    ensures
        progress(e.ticked(f).stage) >= progress(e.stage),
        e.ticked(f).stage == Stage::Release ==> e.stage == Stage::Release,
        e.stage == Stage::Attack ==> e.ticked(f).stage == Stage::Attack || e.ticked(f).stage == Stage::Decay,
{
}

/// Triggering an envelope again starts the attack from the level it has, so that nothing clicks.
pub proof fn lemma_retrigger_keeps_level(e: Adsr, f: Sums, p: AdsrParams, sample_rate: Single)
    ensures
        e.triggered(f, p, sample_rate).level == e.level,
        e.triggered(f, p, sample_rate).stage == Stage::Attack,
{
}

/// A released envelope stays released until it is triggered again, and one that has ended stays
/// at the level it ended at.
pub proof fn lemma_release_lasts(e: Adsr, f: Sums)
    ensures
        e.released().stage == Stage::Release || e.released().stage == Stage::Idle,
        e.stage == Stage::Release || e.stage == Stage::Idle ==> e.ticked(f).stage == Stage::Release || e.ticked(f).stage
            == Stage::Idle,
        e.stage == Stage::Idle ==> e.ticked(f) == e && e.released() == e,
        e.released().released() == e.released(),
{
}

/// Whatever the arithmetic gives, the level of an envelope stays in [0, 1] and is zero once the
/// envelope has ended.
pub proof fn lemma_envelope_is_proper(e: Adsr, f: Sums, p: AdsrParams, sample_rate: Single)
    ensures
        Adsr::silent().proper(),
        e.proper() ==> {
            &&& e.triggered(f, p, sample_rate).proper()
            &&& e.ticked(f).proper()
            &&& e.killed().proper()
            &&& e.stage != Stage::Idle ==> e.released().proper()
            &&& e.stage == Stage::Idle ==> e.released() == e
        },
{
}

} // verus!
