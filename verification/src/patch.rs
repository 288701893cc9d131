//! The `Patch`: a plain-data, `Copy` description of a sound, plus a flat, string-addressable
//! parameter table (`ParamId`) used by engine bindings for inspectors and live tweaking.
use vstd::prelude::*;

use crate::arith::{meant, total, Prim, Sums};
use crate::env::AdsrParams;
use crate::filter::FilterMode;
use crate::lfo::{LfoParams, LfoWave};
use crate::osc::Waveform;
use crate::params::{bound, Choices, ParamKind, Params};
use crate::single::{from_i32, Single, HALF, ONE, TWO, ZERO};
use crate::text::equal;

verus! {

/// Pattern of -2000.
pub const N2000: u32 = 0xc4fa_0000;

/// Pattern of -400.
pub const N400: u32 = 0xc3c8_0000;

/// Pattern of -100.
pub const N100: u32 = 0xc2c8_0000;

/// Pattern of -48.
pub const N48: u32 = 0xc240_0000;

/// Pattern of -36.
pub const N36: u32 = 0xc210_0000;

/// Pattern of -16.
pub const N16: u32 = 0xc180_0000;

/// Pattern of -8.
pub const N8: u32 = 0xc100_0000;

/// Pattern of -4.
pub const N4: u32 = 0xc080_0000;

/// Pattern of 0.001.
pub const P0_001: u32 = 0x3a83_126f;

/// Pattern of 0.01.
pub const P0_01: u32 = 0x3c23_d70a;

/// Pattern of 0.02.
pub const P0_02: u32 = 0x3ca3_d70a;

/// Pattern of 0.1.
pub const P0_1: u32 = 0x3dcc_cccd;

/// Pattern of 0.2.
pub const P0_2: u32 = 0x3e4c_cccd;

/// Pattern of 0.3.
pub const P0_3: u32 = 0x3e99_999a;

/// Pattern of 0.95.
pub const P0_95: u32 = 0x3f73_3333;

/// Pattern of 0.98.
pub const P0_98: u32 = 0x3f7a_e148;

/// Pattern of 4.
pub const P4: u32 = 0x4080_0000;

/// Pattern of 5.
pub const P5: u32 = 0x40a0_0000;

/// Pattern of 8.
pub const P8: u32 = 0x4100_0000;

/// Pattern of 10.
pub const P10: u32 = 0x4120_0000;

/// Pattern of 12.
pub const P12: u32 = 0x4140_0000;

/// Pattern of 16.
pub const P16: u32 = 0x4180_0000;

/// Pattern of 20.
pub const P20: u32 = 0x41a0_0000;

/// Pattern of 24.
pub const P24: u32 = 0x41c0_0000;

/// Pattern of 36.
pub const P36: u32 = 0x4210_0000;

/// Pattern of 40.
pub const P40: u32 = 0x4220_0000;

/// Pattern of 48.
pub const P48: u32 = 0x4240_0000;

/// Pattern of 50.
pub const P50: u32 = 0x4248_0000;

/// Pattern of 60.
pub const P60: u32 = 0x4270_0000;

/// Pattern of 64.
pub const P64: u32 = 0x4280_0000;

/// Pattern of 100.
pub const P100: u32 = 0x42c8_0000;

/// Pattern of 127.
pub const P127: u32 = 0x42fe_0000;

/// Pattern of 400.
pub const P400: u32 = 0x43c8_0000;

/// Pattern of 2000.
pub const P2000: u32 = 0x44fa_0000;

/// Pattern of 8000.
pub const P8000: u32 = 0x45fa_0000;

/// Pattern of 20000.
pub const P20000: u32 = 0x469c_4000;

/// One oscillator of a voice.
#[derive(Clone, Copy, Debug, PartialEq, Eq, Structural)]
pub struct OscParams {
    pub wave: Waveform,
    /// Mix level 0..1. Zero disables the oscillator entirely (no CPU cost).
    pub level: Single,
    /// Coarse tune in semitones.
    pub semitones: Single,
    /// Fine tune in cents.
    pub detune_cents: Single,
    /// Duty cycle for `Waveform::Pulse`.
    pub pulse_width: Single,
    /// Pulse width change per second.
    pub pulse_width_sweep: Single,
}

impl OscParams {
    pub open spec fn muted() -> OscParams {
        OscParams { wave: Waveform::Saw, level: Single::of(ZERO), semitones: Single::of(ZERO), detune_cents: Single::of(ZERO), pulse_width: Single::of(HALF), pulse_width_sweep: Single::of(ZERO) }
    }
}

impl Default for OscParams {
    fn default() -> (r: OscParams)
        ensures
            r == OscParams::muted(),
    {
        OscParams { wave: Waveform::Saw, level: Single::of(ZERO), semitones: Single::of(ZERO), detune_cents: Single::of(ZERO), pulse_width: Single::of(HALF), pulse_width_sweep: Single::of(ZERO) }
    }
}

/// How the pitch of a voice moves.
#[derive(Clone, Copy, Debug, PartialEq, Eq, Structural)]
pub struct PitchParams {
    /// Portamento time in seconds between successive notes.
    pub glide: Single,
    /// Constant pitch slide in semitones per second.
    pub slide: Single,
    /// Change of the slide rate in semitones per second squared.
    pub slide_accel: Single,
    /// Pitch jump applied once after `arp_time` seconds.
    pub arp_semitones: Single,
    /// Seconds after note-on when the jump happens. 0 disables it.
    pub arp_time: Single,
    pub vibrato_rate: Single,
    /// Vibrato depth in semitones.
    pub vibrato_depth: Single,
    /// Semitones of pitch bend for a full-scale bend.
    pub bend_range: Single,
}

impl PitchParams {
    pub open spec fn steady() -> PitchParams {
        PitchParams { glide: Single::of(ZERO), slide: Single::of(ZERO), slide_accel: Single::of(ZERO), arp_semitones: Single::of(ZERO), arp_time: Single::of(ZERO), vibrato_rate: Single::of(ZERO), vibrato_depth: Single::of(ZERO), bend_range: Single::of(TWO) }
    }
}

impl Default for PitchParams {
    fn default() -> (r: PitchParams)
        ensures
            r == PitchParams::steady(),
    {
        PitchParams { glide: Single::of(ZERO), slide: Single::of(ZERO), slide_accel: Single::of(ZERO), arp_semitones: Single::of(ZERO), arp_time: Single::of(ZERO), vibrato_rate: Single::of(ZERO), vibrato_depth: Single::of(ZERO), bend_range: Single::of(TWO) }
    }
}

/// The filter of a voice.
#[derive(Clone, Copy, Debug, PartialEq, Eq, Structural)]
pub struct FilterParams {
    pub mode: FilterMode,
    pub cutoff_hz: Single,
    /// 0..1, 1 is at the edge of self oscillation.
    pub resonance: Single,
    /// Filter envelope depth in octaves.
    pub env_amount: Single,
    /// 0..1: how much the cutoff follows the played note (1 = one octave per octave).
    pub key_track: Single,
    /// Cutoff sweep in octaves per second after note-on.
    pub sweep: Single,
    /// Octaves the cutoff closes at velocity 0 (no effect at velocity 1).
    pub velocity: Single,
}

impl FilterParams {
    pub open spec fn mild() -> FilterParams {
        FilterParams { mode: FilterMode::LowPass, cutoff_hz: Single::of(P8000), resonance: Single::of(P0_2), env_amount: Single::of(ZERO), key_track: Single::of(ZERO), sweep: Single::of(ZERO), velocity: Single::of(ZERO) }
    }
}

impl Default for FilterParams {
    fn default() -> (r: FilterParams)
        ensures
            r == FilterParams::mild(),
    {
        FilterParams { mode: FilterMode::LowPass, cutoff_hz: Single::of(P8000), resonance: Single::of(P0_2), env_amount: Single::of(ZERO), key_track: Single::of(ZERO), sweep: Single::of(ZERO), velocity: Single::of(ZERO) }
    }
}

/// The master effects.
#[derive(Clone, Copy, Debug, PartialEq, Eq, Structural)]
pub struct FxParams {
    /// Soft-clip drive 0..1.
    pub drive: Single,
    /// Bit depth for the bit crusher, 0 = off, otherwise 1..16.
    pub bit_depth: Single,
    /// Sample-and-hold factor. 1 = off, N holds each sample N times.
    pub downsample: Single,
    /// Delay time in seconds. 0 disables the delay.
    pub delay_time: Single,
    pub delay_feedback: Single,
    pub delay_mix: Single,
}

impl FxParams {
    pub open spec fn dry() -> FxParams {
        FxParams { drive: Single::of(ZERO), bit_depth: Single::of(ZERO), downsample: Single::of(ONE), delay_time: Single::of(ZERO), delay_feedback: Single::of(P0_3), delay_mix: Single::of(P0_3) }
    }
}

impl Default for FxParams {
    fn default() -> (r: FxParams)
        ensures
            r == FxParams::dry(),
    {
        FxParams { drive: Single::of(ZERO), bit_depth: Single::of(ZERO), downsample: Single::of(ONE), delay_time: Single::of(ZERO), delay_feedback: Single::of(P0_3), delay_mix: Single::of(P0_3) }
    }
}

/// Complete description of an instrument or sound effect.
///
/// It is `Copy` and contains no heap data so it can be sent to the audio thread by value
/// through a lock-free queue.
#[derive(Clone, Copy, Debug, PartialEq, Eq, Structural)]
pub struct Patch {
    pub osc1: OscParams,
    pub osc2: OscParams,
    pub osc3: OscParams,
    pub amp_env: AdsrParams,
    pub filter: FilterParams,
    pub filter_env: AdsrParams,
    pub lfo: LfoParams,
    pub pitch: PitchParams,
    pub fx: FxParams,
    /// Output gain (linear).
    pub gain: Single,
    /// Maximum simultaneous voices, 1..=MAX_VOICES. 1 gives a legato mono synth.
    pub polyphony: u8,
    /// MIDI note used by one-shot sound effects.
    pub base_note: Single,
    /// Seconds after which a triggered note auto-releases. 0 = hold until note-off.
    pub duration: Single,
    /// 0..1: how strongly velocity scales the amplitude.
    pub velocity_sens: Single,
}

impl Default for Patch {
    fn default() -> (r: Patch)
        ensures
            r == Patch::plain(),
    {
        let mut osc1 = OscParams::default();
        osc1.level = Single::of(ONE);
        Patch {
            osc1,
            osc2: OscParams::default(),
            osc3: OscParams::default(),
            amp_env: AdsrParams::default(),
            filter: FilterParams::default(),
            filter_env: AdsrParams::new(Single::of(ZERO), Single::of(P0_2), Single::of(ZERO), Single::of(P0_2)),
            lfo: LfoParams::default(),
            pitch: PitchParams::default(),
            fx: FxParams::default(),
            gain: Single::of(HALF),
            polyphony: 8,
            base_note: Single::of(P60),
            duration: Single::of(ZERO),
            velocity_sens: Single::of(ONE),
        }
    }
}

impl Patch {
    /// One sawtooth, eight voices, held until released.
    pub open spec fn plain() -> Patch {
        Patch {
            osc1: OscParams { level: Single::of(ONE), ..OscParams::muted() },
            osc2: OscParams::muted(),
            osc3: OscParams::muted(),
            amp_env: AdsrParams::plain(),
            filter: FilterParams::mild(),
            filter_env: AdsrParams { attack: Single::of(ZERO), decay: Single::of(P0_2), sustain: Single::of(ZERO), release: Single::of(P0_2) },
            lfo: LfoParams::still(),
            pitch: PitchParams::steady(),
            fx: FxParams::dry(),
            gain: Single::of(HALF),
            polyphony: 8,
            base_note: Single::of(P60),
            duration: Single::of(ZERO),
            velocity_sens: Single::of(ONE),
        }
    }

    /// With the envelope of a one-shot: full level for `sustain` seconds after the attack, then a fade.
    pub open spec fn with_sfx_envelope(self, f: Sums, attack: Single, sustain: Single, decay: Single) -> Patch {
        Patch {
            amp_env: AdsrParams { attack, decay: Single::of(ZERO), sustain: Single::of(ONE), release: decay },
            duration: f(Prim::Add, attack, sustain),
            ..self
        }
    }

    /// Length of a triggered one-shot.
    pub open spec fn length(self, f: Sums) -> Option<Single> {
        if Single::of(ZERO).below(self.duration) {
            Some(f(Prim::Add, f(Prim::Add, self.duration, self.amp_env.release), f(Prim::Mul, self.fx.delay_time, Single::of(P4))))
        } else if self.amp_env.sustain.at_most(Single::of(ZERO)) {
            Some(f(Prim::Add, f(Prim::Add, self.amp_env.attack, f(Prim::Mul, self.amp_env.decay, Single::of(TWO))), f(Prim::Mul, self.fx.delay_time, Single::of(P4))))
        } else {
            None
        }
    }

    pub fn new() -> (r: Patch)
        ensures
            r == Patch::plain(),
    {
        Patch::default()
    }

    /// Envelope shape used by one-shots: instant full level, `sustain` seconds
    /// of hold (via `duration`), then a `decay` second fade.
    pub fn set_sfx_envelope<F: Fn(Prim, Single, Single) -> Single>(&mut self, fpu: &F, attack: Single, sustain: Single, decay: Single)
        requires
            total(*fpu),
        ensures
            forall|f: Sums| #[trigger] meant(*fpu, f) ==> *final(self) == old(self).with_sfx_envelope(f, attack, sustain, decay),
    {
        self.amp_env = AdsrParams::new(attack, Single::of(ZERO), Single::of(ONE), decay);
        self.duration = fpu(Prim::Add, attack, sustain);
    }

    /// Total length of a triggered one-shot including release tail, or `None` when the
    /// patch holds until note-off.
    pub fn one_shot_length<F: Fn(Prim, Single, Single) -> Single>(&self, fpu: &F) -> (r: Option<Single>)
        requires
            total(*fpu),
        ensures
            forall|f: Sums| #[trigger] meant(*fpu, f) ==> r == self.length(f),
            r is None <==> !Single::of(ZERO).below(self.duration) && !self.amp_env.sustain.at_most(Single::of(ZERO)),
    {
        if Single::of(ZERO).lt(self.duration) {
            Some(fpu(Prim::Add, fpu(Prim::Add, self.duration, self.amp_env.release), fpu(Prim::Mul, self.fx.delay_time, Single::of(P4))))
        } else if self.amp_env.sustain.le(Single::of(ZERO)) {
            Some(fpu(Prim::Add, fpu(Prim::Add, self.amp_env.attack, fpu(Prim::Mul, self.amp_env.decay, Single::of(TWO))), fpu(Prim::Mul, self.fx.delay_time, Single::of(P4))))
        } else {
            None
        }
    }
}

/// Identifier of every tweakable value in a [`Patch`].
#[derive(Clone, Copy, Debug, PartialEq, Eq, Structural)]
pub enum ParamId {
    Osc1Wave,
    Osc1Level,
    Osc1Semitones,
    Osc1Detune,
    Osc1PulseWidth,
    Osc1PulseWidthSweep,
    Osc2Wave,
    Osc2Level,
    Osc2Semitones,
    Osc2Detune,
    Osc2PulseWidth,
    Osc2PulseWidthSweep,
    Osc3Wave,
    Osc3Level,
    Osc3Semitones,
    Osc3Detune,
    Osc3PulseWidth,
    Osc3PulseWidthSweep,
    AmpAttack,
    AmpDecay,
    AmpSustain,
    AmpRelease,
    FilterMode,
    FilterCutoff,
    FilterResonance,
    FilterEnvAmount,
    FilterKeyTrack,
    FilterSweep,
    FilterVelocity,
    FilterAttack,
    FilterDecay,
    FilterSustain,
    FilterRelease,
    LfoWave,
    LfoRate,
    LfoPitch,
    LfoCutoff,
    LfoAmp,
    LfoPulseWidth,
    LfoFadeIn,
    PitchGlide,
    PitchSlide,
    PitchSlideAccel,
    PitchArpSemitones,
    PitchArpTime,
    PitchVibratoRate,
    PitchVibratoDepth,
    PitchBendRange,
    FxDrive,
    FxBitDepth,
    FxDownsample,
    FxDelayTime,
    FxDelayFeedback,
    FxDelayMix,
    Gain,
    Polyphony,
    BaseNote,
    Duration,
    VelocitySens,
}

impl ParamId {
    /// Number of parameters.
    pub const COUNT: usize = 59;

    /// Every parameter, in table order.
    pub open spec fn all() -> Seq<ParamId> {
        seq![
            ParamId::Osc1Wave,
            ParamId::Osc1Level,
            ParamId::Osc1Semitones,
            ParamId::Osc1Detune,
            ParamId::Osc1PulseWidth,
            ParamId::Osc1PulseWidthSweep,
            ParamId::Osc2Wave,
            ParamId::Osc2Level,
            ParamId::Osc2Semitones,
            ParamId::Osc2Detune,
            ParamId::Osc2PulseWidth,
            ParamId::Osc2PulseWidthSweep,
            ParamId::Osc3Wave,
            ParamId::Osc3Level,
            ParamId::Osc3Semitones,
            ParamId::Osc3Detune,
            ParamId::Osc3PulseWidth,
            ParamId::Osc3PulseWidthSweep,
            ParamId::AmpAttack,
            ParamId::AmpDecay,
            ParamId::AmpSustain,
            ParamId::AmpRelease,
            ParamId::FilterMode,
            ParamId::FilterCutoff,
            ParamId::FilterResonance,
            ParamId::FilterEnvAmount,
            ParamId::FilterKeyTrack,
            ParamId::FilterSweep,
            ParamId::FilterVelocity,
            ParamId::FilterAttack,
            ParamId::FilterDecay,
            ParamId::FilterSustain,
            ParamId::FilterRelease,
            ParamId::LfoWave,
            ParamId::LfoRate,
            ParamId::LfoPitch,
            ParamId::LfoCutoff,
            ParamId::LfoAmp,
            ParamId::LfoPulseWidth,
            ParamId::LfoFadeIn,
            ParamId::PitchGlide,
            ParamId::PitchSlide,
            ParamId::PitchSlideAccel,
            ParamId::PitchArpSemitones,
            ParamId::PitchArpTime,
            ParamId::PitchVibratoRate,
            ParamId::PitchVibratoDepth,
            ParamId::PitchBendRange,
            ParamId::FxDrive,
            ParamId::FxBitDepth,
            ParamId::FxDownsample,
            ParamId::FxDelayTime,
            ParamId::FxDelayFeedback,
            ParamId::FxDelayMix,
            ParamId::Gain,
            ParamId::Polyphony,
            ParamId::BaseNote,
            ParamId::Duration,
            ParamId::VelocitySens,
        ]
    }

    /// Place in the table.
    pub open spec fn place(self) -> int {
        match self {
            ParamId::Osc1Wave => 0,
            ParamId::Osc1Level => 1,
            ParamId::Osc1Semitones => 2,
            ParamId::Osc1Detune => 3,
            ParamId::Osc1PulseWidth => 4,
            ParamId::Osc1PulseWidthSweep => 5,
            ParamId::Osc2Wave => 6,
            ParamId::Osc2Level => 7,
            ParamId::Osc2Semitones => 8,
            ParamId::Osc2Detune => 9,
            ParamId::Osc2PulseWidth => 10,
            ParamId::Osc2PulseWidthSweep => 11,
            ParamId::Osc3Wave => 12,
            ParamId::Osc3Level => 13,
            ParamId::Osc3Semitones => 14,
            ParamId::Osc3Detune => 15,
            ParamId::Osc3PulseWidth => 16,
            ParamId::Osc3PulseWidthSweep => 17,
            ParamId::AmpAttack => 18,
            ParamId::AmpDecay => 19,
            ParamId::AmpSustain => 20,
            ParamId::AmpRelease => 21,
            ParamId::FilterMode => 22,
            ParamId::FilterCutoff => 23,
            ParamId::FilterResonance => 24,
            ParamId::FilterEnvAmount => 25,
            ParamId::FilterKeyTrack => 26,
            ParamId::FilterSweep => 27,
            ParamId::FilterVelocity => 28,
            ParamId::FilterAttack => 29,
            ParamId::FilterDecay => 30,
            ParamId::FilterSustain => 31,
            ParamId::FilterRelease => 32,
            ParamId::LfoWave => 33,
            ParamId::LfoRate => 34,
            ParamId::LfoPitch => 35,
            ParamId::LfoCutoff => 36,
            ParamId::LfoAmp => 37,
            ParamId::LfoPulseWidth => 38,
            ParamId::LfoFadeIn => 39,
            ParamId::PitchGlide => 40,
            ParamId::PitchSlide => 41,
            ParamId::PitchSlideAccel => 42,
            ParamId::PitchArpSemitones => 43,
            ParamId::PitchArpTime => 44,
            ParamId::PitchVibratoRate => 45,
            ParamId::PitchVibratoDepth => 46,
            ParamId::PitchBendRange => 47,
            ParamId::FxDrive => 48,
            ParamId::FxBitDepth => 49,
            ParamId::FxDownsample => 50,
            ParamId::FxDelayTime => 51,
            ParamId::FxDelayFeedback => 52,
            ParamId::FxDelayMix => 53,
            ParamId::Gain => 54,
            ParamId::Polyphony => 55,
            ParamId::BaseNote => 56,
            ParamId::Duration => 57,
            ParamId::VelocitySens => 58,
        }
    }

    pub open spec fn label(self) -> Seq<char> {
        match self {
            ParamId::Osc1Wave => "osc1/wave"@,
            ParamId::Osc1Level => "osc1/level"@,
            ParamId::Osc1Semitones => "osc1/semitones"@,
            ParamId::Osc1Detune => "osc1/detune_cents"@,
            ParamId::Osc1PulseWidth => "osc1/pulse_width"@,
            ParamId::Osc1PulseWidthSweep => "osc1/pulse_width_sweep"@,
            ParamId::Osc2Wave => "osc2/wave"@,
            ParamId::Osc2Level => "osc2/level"@,
            ParamId::Osc2Semitones => "osc2/semitones"@,
            ParamId::Osc2Detune => "osc2/detune_cents"@,
            ParamId::Osc2PulseWidth => "osc2/pulse_width"@,
            ParamId::Osc2PulseWidthSweep => "osc2/pulse_width_sweep"@,
            ParamId::Osc3Wave => "osc3/wave"@,
            ParamId::Osc3Level => "osc3/level"@,
            ParamId::Osc3Semitones => "osc3/semitones"@,
            ParamId::Osc3Detune => "osc3/detune_cents"@,
            ParamId::Osc3PulseWidth => "osc3/pulse_width"@,
            ParamId::Osc3PulseWidthSweep => "osc3/pulse_width_sweep"@,
            ParamId::AmpAttack => "amp_env/attack"@,
            ParamId::AmpDecay => "amp_env/decay"@,
            ParamId::AmpSustain => "amp_env/sustain"@,
            ParamId::AmpRelease => "amp_env/release"@,
            ParamId::FilterMode => "filter/mode"@,
            ParamId::FilterCutoff => "filter/cutoff_hz"@,
            ParamId::FilterResonance => "filter/resonance"@,
            ParamId::FilterEnvAmount => "filter/env_amount"@,
            ParamId::FilterKeyTrack => "filter/key_track"@,
            ParamId::FilterSweep => "filter/sweep"@,
            ParamId::FilterVelocity => "filter/velocity"@,
            ParamId::FilterAttack => "filter_env/attack"@,
            ParamId::FilterDecay => "filter_env/decay"@,
            ParamId::FilterSustain => "filter_env/sustain"@,
            ParamId::FilterRelease => "filter_env/release"@,
            ParamId::LfoWave => "lfo/wave"@,
            ParamId::LfoRate => "lfo/rate_hz"@,
            ParamId::LfoPitch => "lfo/pitch"@,
            ParamId::LfoCutoff => "lfo/cutoff"@,
            ParamId::LfoAmp => "lfo/amp"@,
            ParamId::LfoPulseWidth => "lfo/pulse_width"@,
            ParamId::LfoFadeIn => "lfo/fade_in"@,
            ParamId::PitchGlide => "pitch/glide"@,
            ParamId::PitchSlide => "pitch/slide"@,
            ParamId::PitchSlideAccel => "pitch/slide_accel"@,
            ParamId::PitchArpSemitones => "pitch/arp_semitones"@,
            ParamId::PitchArpTime => "pitch/arp_time"@,
            ParamId::PitchVibratoRate => "pitch/vibrato_rate"@,
            ParamId::PitchVibratoDepth => "pitch/vibrato_depth"@,
            ParamId::PitchBendRange => "pitch/bend_range"@,
            ParamId::FxDrive => "fx/drive"@,
            ParamId::FxBitDepth => "fx/bit_depth"@,
            ParamId::FxDownsample => "fx/downsample"@,
            ParamId::FxDelayTime => "fx/delay_time"@,
            ParamId::FxDelayFeedback => "fx/delay_feedback"@,
            ParamId::FxDelayMix => "fx/delay_mix"@,
            ParamId::Gain => "master/gain"@,
            ParamId::Polyphony => "master/polyphony"@,
            ParamId::BaseNote => "master/base_note"@,
            ParamId::Duration => "master/duration"@,
            ParamId::VelocitySens => "master/velocity_sens"@,
        }
    }

    pub open spec fn range(self) -> ParamKind {
        match self {
            ParamId::Osc1Wave => ParamKind::Enum(Choices::Waveform),
            ParamId::Osc1Level => ParamKind::Float { min: Single::of(ZERO), max: Single::of(ONE), step: Single::of(P0_001) },
            ParamId::Osc1Semitones => ParamKind::Float { min: Single::of(N48), max: Single::of(P48), step: Single::of(ONE) },
            ParamId::Osc1Detune => ParamKind::Float { min: Single::of(N100), max: Single::of(P100), step: Single::of(P0_1) },
            ParamId::Osc1PulseWidth => ParamKind::Float { min: Single::of(P0_02), max: Single::of(P0_98), step: Single::of(P0_001) },
            ParamId::Osc1PulseWidthSweep => ParamKind::Float { min: Single::of(N4), max: Single::of(P4), step: Single::of(P0_001) },
            ParamId::Osc2Wave => ParamKind::Enum(Choices::Waveform),
            ParamId::Osc2Level => ParamKind::Float { min: Single::of(ZERO), max: Single::of(ONE), step: Single::of(P0_001) },
            ParamId::Osc2Semitones => ParamKind::Float { min: Single::of(N48), max: Single::of(P48), step: Single::of(ONE) },
            ParamId::Osc2Detune => ParamKind::Float { min: Single::of(N100), max: Single::of(P100), step: Single::of(P0_1) },
            ParamId::Osc2PulseWidth => ParamKind::Float { min: Single::of(P0_02), max: Single::of(P0_98), step: Single::of(P0_001) },
            ParamId::Osc2PulseWidthSweep => ParamKind::Float { min: Single::of(N4), max: Single::of(P4), step: Single::of(P0_001) },
            ParamId::Osc3Wave => ParamKind::Enum(Choices::Waveform),
            ParamId::Osc3Level => ParamKind::Float { min: Single::of(ZERO), max: Single::of(ONE), step: Single::of(P0_001) },
            ParamId::Osc3Semitones => ParamKind::Float { min: Single::of(N48), max: Single::of(P48), step: Single::of(ONE) },
            ParamId::Osc3Detune => ParamKind::Float { min: Single::of(N100), max: Single::of(P100), step: Single::of(P0_1) },
            ParamId::Osc3PulseWidth => ParamKind::Float { min: Single::of(P0_02), max: Single::of(P0_98), step: Single::of(P0_001) },
            ParamId::Osc3PulseWidthSweep => ParamKind::Float { min: Single::of(N4), max: Single::of(P4), step: Single::of(P0_001) },
            ParamId::AmpAttack => ParamKind::Float { min: Single::of(ZERO), max: Single::of(P5), step: Single::of(P0_001) },
            ParamId::AmpDecay => ParamKind::Float { min: Single::of(ZERO), max: Single::of(P5), step: Single::of(P0_001) },
            ParamId::AmpSustain => ParamKind::Float { min: Single::of(ZERO), max: Single::of(ONE), step: Single::of(P0_001) },
            ParamId::AmpRelease => ParamKind::Float { min: Single::of(ZERO), max: Single::of(P5), step: Single::of(P0_001) },
            ParamId::FilterMode => ParamKind::Enum(Choices::FilterMode),
            ParamId::FilterCutoff => ParamKind::Exp { min: Single::of(P20), max: Single::of(P20000) },
            ParamId::FilterResonance => ParamKind::Float { min: Single::of(ZERO), max: Single::of(ONE), step: Single::of(P0_001) },
            ParamId::FilterEnvAmount => ParamKind::Float { min: Single::of(N8), max: Single::of(P8), step: Single::of(P0_01) },
            ParamId::FilterKeyTrack => ParamKind::Float { min: Single::of(ZERO), max: Single::of(ONE), step: Single::of(P0_001) },
            ParamId::FilterSweep => ParamKind::Float { min: Single::of(N16), max: Single::of(P16), step: Single::of(P0_01) },
            ParamId::FilterVelocity => ParamKind::Float { min: Single::of(ZERO), max: Single::of(P8), step: Single::of(P0_01) },
            ParamId::FilterAttack => ParamKind::Float { min: Single::of(ZERO), max: Single::of(P5), step: Single::of(P0_001) },
            ParamId::FilterDecay => ParamKind::Float { min: Single::of(ZERO), max: Single::of(P5), step: Single::of(P0_001) },
            ParamId::FilterSustain => ParamKind::Float { min: Single::of(ZERO), max: Single::of(ONE), step: Single::of(P0_001) },
            ParamId::FilterRelease => ParamKind::Float { min: Single::of(ZERO), max: Single::of(P5), step: Single::of(P0_001) },
            ParamId::LfoWave => ParamKind::Enum(Choices::LfoWave),
            ParamId::LfoRate => ParamKind::Exp { min: Single::of(P0_01), max: Single::of(P50) },
            ParamId::LfoPitch => ParamKind::Float { min: Single::of(ZERO), max: Single::of(P24), step: Single::of(P0_01) },
            ParamId::LfoCutoff => ParamKind::Float { min: Single::of(ZERO), max: Single::of(P8), step: Single::of(P0_01) },
            ParamId::LfoAmp => ParamKind::Float { min: Single::of(ZERO), max: Single::of(ONE), step: Single::of(P0_001) },
            ParamId::LfoPulseWidth => ParamKind::Float { min: Single::of(ZERO), max: Single::of(HALF), step: Single::of(P0_001) },
            ParamId::LfoFadeIn => ParamKind::Float { min: Single::of(ZERO), max: Single::of(P5), step: Single::of(P0_001) },
            ParamId::PitchGlide => ParamKind::Float { min: Single::of(ZERO), max: Single::of(TWO), step: Single::of(P0_001) },
            ParamId::PitchSlide => ParamKind::Float { min: Single::of(N400), max: Single::of(P400), step: Single::of(P0_1) },
            ParamId::PitchSlideAccel => ParamKind::Float { min: Single::of(N2000), max: Single::of(P2000), step: Single::of(P0_1) },
            ParamId::PitchArpSemitones => ParamKind::Float { min: Single::of(N36), max: Single::of(P36), step: Single::of(P0_1) },
            ParamId::PitchArpTime => ParamKind::Float { min: Single::of(ZERO), max: Single::of(TWO), step: Single::of(P0_001) },
            ParamId::PitchVibratoRate => ParamKind::Float { min: Single::of(ZERO), max: Single::of(P40), step: Single::of(P0_01) },
            ParamId::PitchVibratoDepth => ParamKind::Float { min: Single::of(ZERO), max: Single::of(P12), step: Single::of(P0_01) },
            ParamId::PitchBendRange => ParamKind::Float { min: Single::of(ZERO), max: Single::of(P24), step: Single::of(ONE) },
            ParamId::FxDrive => ParamKind::Float { min: Single::of(ZERO), max: Single::of(ONE), step: Single::of(P0_001) },
            ParamId::FxBitDepth => ParamKind::Float { min: Single::of(ZERO), max: Single::of(P16), step: Single::of(ONE) },
            ParamId::FxDownsample => ParamKind::Float { min: Single::of(ONE), max: Single::of(P64), step: Single::of(P0_1) },
            ParamId::FxDelayTime => ParamKind::Float { min: Single::of(ZERO), max: Single::of(ONE), step: Single::of(P0_001) },
            ParamId::FxDelayFeedback => ParamKind::Float { min: Single::of(ZERO), max: Single::of(P0_95), step: Single::of(P0_001) },
            ParamId::FxDelayMix => ParamKind::Float { min: Single::of(ZERO), max: Single::of(ONE), step: Single::of(P0_001) },
            ParamId::Gain => ParamKind::Float { min: Single::of(ZERO), max: Single::of(TWO), step: Single::of(P0_001) },
            ParamId::Polyphony => ParamKind::Int { min: 1, max: 32 },
            ParamId::BaseNote => ParamKind::Float { min: Single::of(ZERO), max: Single::of(P127), step: Single::of(P0_01) },
            ParamId::Duration => ParamKind::Float { min: Single::of(ZERO), max: Single::of(P10), step: Single::of(P0_001) },
            ParamId::VelocitySens => ParamKind::Float { min: Single::of(ZERO), max: Single::of(ONE), step: Single::of(P0_001) },
        }
    }

    /// The parameter at a place of the table, if there is one.
    pub fn from_index(i: usize) -> (r: Option<ParamId>)
        ensures
            r == if i < 59 {
                Some(ParamId::all()[i as int])
            } else {
                None
            },
    {
        if i < 59 {
            Some(ParamId::nth(i))
        } else {
            None
        }
    }

    /// The parameter at a place of the table.
    pub fn nth(i: usize) -> (r: ParamId)
        requires
            i < 59,
        ensures
            r == ParamId::all()[i as int],
            r.place() == i,
    {
        match i {
            0 => ParamId::Osc1Wave,
            1 => ParamId::Osc1Level,
            2 => ParamId::Osc1Semitones,
            3 => ParamId::Osc1Detune,
            4 => ParamId::Osc1PulseWidth,
            5 => ParamId::Osc1PulseWidthSweep,
            6 => ParamId::Osc2Wave,
            7 => ParamId::Osc2Level,
            8 => ParamId::Osc2Semitones,
            9 => ParamId::Osc2Detune,
            10 => ParamId::Osc2PulseWidth,
            11 => ParamId::Osc2PulseWidthSweep,
            12 => ParamId::Osc3Wave,
            13 => ParamId::Osc3Level,
            14 => ParamId::Osc3Semitones,
            15 => ParamId::Osc3Detune,
            16 => ParamId::Osc3PulseWidth,
            17 => ParamId::Osc3PulseWidthSweep,
            18 => ParamId::AmpAttack,
            19 => ParamId::AmpDecay,
            20 => ParamId::AmpSustain,
            21 => ParamId::AmpRelease,
            22 => ParamId::FilterMode,
            23 => ParamId::FilterCutoff,
            24 => ParamId::FilterResonance,
            25 => ParamId::FilterEnvAmount,
            26 => ParamId::FilterKeyTrack,
            27 => ParamId::FilterSweep,
            28 => ParamId::FilterVelocity,
            29 => ParamId::FilterAttack,
            30 => ParamId::FilterDecay,
            31 => ParamId::FilterSustain,
            32 => ParamId::FilterRelease,
            33 => ParamId::LfoWave,
            34 => ParamId::LfoRate,
            35 => ParamId::LfoPitch,
            36 => ParamId::LfoCutoff,
            37 => ParamId::LfoAmp,
            38 => ParamId::LfoPulseWidth,
            39 => ParamId::LfoFadeIn,
            40 => ParamId::PitchGlide,
            41 => ParamId::PitchSlide,
            42 => ParamId::PitchSlideAccel,
            43 => ParamId::PitchArpSemitones,
            44 => ParamId::PitchArpTime,
            45 => ParamId::PitchVibratoRate,
            46 => ParamId::PitchVibratoDepth,
            47 => ParamId::PitchBendRange,
            48 => ParamId::FxDrive,
            49 => ParamId::FxBitDepth,
            50 => ParamId::FxDownsample,
            51 => ParamId::FxDelayTime,
            52 => ParamId::FxDelayFeedback,
            53 => ParamId::FxDelayMix,
            54 => ParamId::Gain,
            55 => ParamId::Polyphony,
            56 => ParamId::BaseNote,
            57 => ParamId::Duration,
            _ => ParamId::VelocitySens,
        }
    }

    pub fn index(self) -> (r: usize)
        ensures
            r == self.place(),
            r < 59,
    {
        match self {
            ParamId::Osc1Wave => 0,
            ParamId::Osc1Level => 1,
            ParamId::Osc1Semitones => 2,
            ParamId::Osc1Detune => 3,
            ParamId::Osc1PulseWidth => 4,
            ParamId::Osc1PulseWidthSweep => 5,
            ParamId::Osc2Wave => 6,
            ParamId::Osc2Level => 7,
            ParamId::Osc2Semitones => 8,
            ParamId::Osc2Detune => 9,
            ParamId::Osc2PulseWidth => 10,
            ParamId::Osc2PulseWidthSweep => 11,
            ParamId::Osc3Wave => 12,
            ParamId::Osc3Level => 13,
            ParamId::Osc3Semitones => 14,
            ParamId::Osc3Detune => 15,
            ParamId::Osc3PulseWidth => 16,
            ParamId::Osc3PulseWidthSweep => 17,
            ParamId::AmpAttack => 18,
            ParamId::AmpDecay => 19,
            ParamId::AmpSustain => 20,
            ParamId::AmpRelease => 21,
            ParamId::FilterMode => 22,
            ParamId::FilterCutoff => 23,
            ParamId::FilterResonance => 24,
            ParamId::FilterEnvAmount => 25,
            ParamId::FilterKeyTrack => 26,
            ParamId::FilterSweep => 27,
            ParamId::FilterVelocity => 28,
            ParamId::FilterAttack => 29,
            ParamId::FilterDecay => 30,
            ParamId::FilterSustain => 31,
            ParamId::FilterRelease => 32,
            ParamId::LfoWave => 33,
            ParamId::LfoRate => 34,
            ParamId::LfoPitch => 35,
            ParamId::LfoCutoff => 36,
            ParamId::LfoAmp => 37,
            ParamId::LfoPulseWidth => 38,
            ParamId::LfoFadeIn => 39,
            ParamId::PitchGlide => 40,
            ParamId::PitchSlide => 41,
            ParamId::PitchSlideAccel => 42,
            ParamId::PitchArpSemitones => 43,
            ParamId::PitchArpTime => 44,
            ParamId::PitchVibratoRate => 45,
            ParamId::PitchVibratoDepth => 46,
            ParamId::PitchBendRange => 47,
            ParamId::FxDrive => 48,
            ParamId::FxBitDepth => 49,
            ParamId::FxDownsample => 50,
            ParamId::FxDelayTime => 51,
            ParamId::FxDelayFeedback => 52,
            ParamId::FxDelayMix => 53,
            ParamId::Gain => 54,
            ParamId::Polyphony => 55,
            ParamId::BaseNote => 56,
            ParamId::Duration => 57,
            ParamId::VelocitySens => 58,
        }
    }

    pub fn name(self) -> (r: &'static str)
        ensures
            r@ == self.label(),
    {
        match self {
            ParamId::Osc1Wave => "osc1/wave",
            ParamId::Osc1Level => "osc1/level",
            ParamId::Osc1Semitones => "osc1/semitones",
            ParamId::Osc1Detune => "osc1/detune_cents",
            ParamId::Osc1PulseWidth => "osc1/pulse_width",
            ParamId::Osc1PulseWidthSweep => "osc1/pulse_width_sweep",
            ParamId::Osc2Wave => "osc2/wave",
            ParamId::Osc2Level => "osc2/level",
            ParamId::Osc2Semitones => "osc2/semitones",
            ParamId::Osc2Detune => "osc2/detune_cents",
            ParamId::Osc2PulseWidth => "osc2/pulse_width",
            ParamId::Osc2PulseWidthSweep => "osc2/pulse_width_sweep",
            ParamId::Osc3Wave => "osc3/wave",
            ParamId::Osc3Level => "osc3/level",
            ParamId::Osc3Semitones => "osc3/semitones",
            ParamId::Osc3Detune => "osc3/detune_cents",
            ParamId::Osc3PulseWidth => "osc3/pulse_width",
            ParamId::Osc3PulseWidthSweep => "osc3/pulse_width_sweep",
            ParamId::AmpAttack => "amp_env/attack",
            ParamId::AmpDecay => "amp_env/decay",
            ParamId::AmpSustain => "amp_env/sustain",
            ParamId::AmpRelease => "amp_env/release",
            ParamId::FilterMode => "filter/mode",
            ParamId::FilterCutoff => "filter/cutoff_hz",
            ParamId::FilterResonance => "filter/resonance",
            ParamId::FilterEnvAmount => "filter/env_amount",
            ParamId::FilterKeyTrack => "filter/key_track",
            ParamId::FilterSweep => "filter/sweep",
            ParamId::FilterVelocity => "filter/velocity",
            ParamId::FilterAttack => "filter_env/attack",
            ParamId::FilterDecay => "filter_env/decay",
            ParamId::FilterSustain => "filter_env/sustain",
            ParamId::FilterRelease => "filter_env/release",
            ParamId::LfoWave => "lfo/wave",
            ParamId::LfoRate => "lfo/rate_hz",
            ParamId::LfoPitch => "lfo/pitch",
            ParamId::LfoCutoff => "lfo/cutoff",
            ParamId::LfoAmp => "lfo/amp",
            ParamId::LfoPulseWidth => "lfo/pulse_width",
            ParamId::LfoFadeIn => "lfo/fade_in",
            ParamId::PitchGlide => "pitch/glide",
            ParamId::PitchSlide => "pitch/slide",
            ParamId::PitchSlideAccel => "pitch/slide_accel",
            ParamId::PitchArpSemitones => "pitch/arp_semitones",
            ParamId::PitchArpTime => "pitch/arp_time",
            ParamId::PitchVibratoRate => "pitch/vibrato_rate",
            ParamId::PitchVibratoDepth => "pitch/vibrato_depth",
            ParamId::PitchBendRange => "pitch/bend_range",
            ParamId::FxDrive => "fx/drive",
            ParamId::FxBitDepth => "fx/bit_depth",
            ParamId::FxDownsample => "fx/downsample",
            ParamId::FxDelayTime => "fx/delay_time",
            ParamId::FxDelayFeedback => "fx/delay_feedback",
            ParamId::FxDelayMix => "fx/delay_mix",
            ParamId::Gain => "master/gain",
            ParamId::Polyphony => "master/polyphony",
            ParamId::BaseNote => "master/base_note",
            ParamId::Duration => "master/duration",
            ParamId::VelocitySens => "master/velocity_sens",
        }
    }

    pub fn kind(self) -> (r: ParamKind)
        ensures
            r == self.range(),
            r.wf(),
    {
        match self {
            ParamId::Osc1Wave => ParamKind::Enum(Choices::Waveform),
            ParamId::Osc1Level => ParamKind::Float { min: Single::of(ZERO), max: Single::of(ONE), step: Single::of(P0_001) },
            ParamId::Osc1Semitones => ParamKind::Float { min: Single::of(N48), max: Single::of(P48), step: Single::of(ONE) },
            ParamId::Osc1Detune => ParamKind::Float { min: Single::of(N100), max: Single::of(P100), step: Single::of(P0_1) },
            ParamId::Osc1PulseWidth => ParamKind::Float { min: Single::of(P0_02), max: Single::of(P0_98), step: Single::of(P0_001) },
            ParamId::Osc1PulseWidthSweep => ParamKind::Float { min: Single::of(N4), max: Single::of(P4), step: Single::of(P0_001) },
            ParamId::Osc2Wave => ParamKind::Enum(Choices::Waveform),
            ParamId::Osc2Level => ParamKind::Float { min: Single::of(ZERO), max: Single::of(ONE), step: Single::of(P0_001) },
            ParamId::Osc2Semitones => ParamKind::Float { min: Single::of(N48), max: Single::of(P48), step: Single::of(ONE) },
            ParamId::Osc2Detune => ParamKind::Float { min: Single::of(N100), max: Single::of(P100), step: Single::of(P0_1) },
            ParamId::Osc2PulseWidth => ParamKind::Float { min: Single::of(P0_02), max: Single::of(P0_98), step: Single::of(P0_001) },
            ParamId::Osc2PulseWidthSweep => ParamKind::Float { min: Single::of(N4), max: Single::of(P4), step: Single::of(P0_001) },
            ParamId::Osc3Wave => ParamKind::Enum(Choices::Waveform),
            ParamId::Osc3Level => ParamKind::Float { min: Single::of(ZERO), max: Single::of(ONE), step: Single::of(P0_001) },
            ParamId::Osc3Semitones => ParamKind::Float { min: Single::of(N48), max: Single::of(P48), step: Single::of(ONE) },
            ParamId::Osc3Detune => ParamKind::Float { min: Single::of(N100), max: Single::of(P100), step: Single::of(P0_1) },
            ParamId::Osc3PulseWidth => ParamKind::Float { min: Single::of(P0_02), max: Single::of(P0_98), step: Single::of(P0_001) },
            ParamId::Osc3PulseWidthSweep => ParamKind::Float { min: Single::of(N4), max: Single::of(P4), step: Single::of(P0_001) },
            ParamId::AmpAttack => ParamKind::Float { min: Single::of(ZERO), max: Single::of(P5), step: Single::of(P0_001) },
            ParamId::AmpDecay => ParamKind::Float { min: Single::of(ZERO), max: Single::of(P5), step: Single::of(P0_001) },
            ParamId::AmpSustain => ParamKind::Float { min: Single::of(ZERO), max: Single::of(ONE), step: Single::of(P0_001) },
            ParamId::AmpRelease => ParamKind::Float { min: Single::of(ZERO), max: Single::of(P5), step: Single::of(P0_001) },
            ParamId::FilterMode => ParamKind::Enum(Choices::FilterMode),
            ParamId::FilterCutoff => ParamKind::Exp { min: Single::of(P20), max: Single::of(P20000) },
            ParamId::FilterResonance => ParamKind::Float { min: Single::of(ZERO), max: Single::of(ONE), step: Single::of(P0_001) },
            ParamId::FilterEnvAmount => ParamKind::Float { min: Single::of(N8), max: Single::of(P8), step: Single::of(P0_01) },
            ParamId::FilterKeyTrack => ParamKind::Float { min: Single::of(ZERO), max: Single::of(ONE), step: Single::of(P0_001) },
            ParamId::FilterSweep => ParamKind::Float { min: Single::of(N16), max: Single::of(P16), step: Single::of(P0_01) },
            ParamId::FilterVelocity => ParamKind::Float { min: Single::of(ZERO), max: Single::of(P8), step: Single::of(P0_01) },
            ParamId::FilterAttack => ParamKind::Float { min: Single::of(ZERO), max: Single::of(P5), step: Single::of(P0_001) },
            ParamId::FilterDecay => ParamKind::Float { min: Single::of(ZERO), max: Single::of(P5), step: Single::of(P0_001) },
            ParamId::FilterSustain => ParamKind::Float { min: Single::of(ZERO), max: Single::of(ONE), step: Single::of(P0_001) },
            ParamId::FilterRelease => ParamKind::Float { min: Single::of(ZERO), max: Single::of(P5), step: Single::of(P0_001) },
            ParamId::LfoWave => ParamKind::Enum(Choices::LfoWave),
            ParamId::LfoRate => ParamKind::Exp { min: Single::of(P0_01), max: Single::of(P50) },
            ParamId::LfoPitch => ParamKind::Float { min: Single::of(ZERO), max: Single::of(P24), step: Single::of(P0_01) },
            ParamId::LfoCutoff => ParamKind::Float { min: Single::of(ZERO), max: Single::of(P8), step: Single::of(P0_01) },
            ParamId::LfoAmp => ParamKind::Float { min: Single::of(ZERO), max: Single::of(ONE), step: Single::of(P0_001) },
            ParamId::LfoPulseWidth => ParamKind::Float { min: Single::of(ZERO), max: Single::of(HALF), step: Single::of(P0_001) },
            ParamId::LfoFadeIn => ParamKind::Float { min: Single::of(ZERO), max: Single::of(P5), step: Single::of(P0_001) },
            ParamId::PitchGlide => ParamKind::Float { min: Single::of(ZERO), max: Single::of(TWO), step: Single::of(P0_001) },
            ParamId::PitchSlide => ParamKind::Float { min: Single::of(N400), max: Single::of(P400), step: Single::of(P0_1) },
            ParamId::PitchSlideAccel => ParamKind::Float { min: Single::of(N2000), max: Single::of(P2000), step: Single::of(P0_1) },
            ParamId::PitchArpSemitones => ParamKind::Float { min: Single::of(N36), max: Single::of(P36), step: Single::of(P0_1) },
            ParamId::PitchArpTime => ParamKind::Float { min: Single::of(ZERO), max: Single::of(TWO), step: Single::of(P0_001) },
            ParamId::PitchVibratoRate => ParamKind::Float { min: Single::of(ZERO), max: Single::of(P40), step: Single::of(P0_01) },
            ParamId::PitchVibratoDepth => ParamKind::Float { min: Single::of(ZERO), max: Single::of(P12), step: Single::of(P0_01) },
            ParamId::PitchBendRange => ParamKind::Float { min: Single::of(ZERO), max: Single::of(P24), step: Single::of(ONE) },
            ParamId::FxDrive => ParamKind::Float { min: Single::of(ZERO), max: Single::of(ONE), step: Single::of(P0_001) },
            ParamId::FxBitDepth => ParamKind::Float { min: Single::of(ZERO), max: Single::of(P16), step: Single::of(ONE) },
            ParamId::FxDownsample => ParamKind::Float { min: Single::of(ONE), max: Single::of(P64), step: Single::of(P0_1) },
            ParamId::FxDelayTime => ParamKind::Float { min: Single::of(ZERO), max: Single::of(ONE), step: Single::of(P0_001) },
            ParamId::FxDelayFeedback => ParamKind::Float { min: Single::of(ZERO), max: Single::of(P0_95), step: Single::of(P0_001) },
            ParamId::FxDelayMix => ParamKind::Float { min: Single::of(ZERO), max: Single::of(ONE), step: Single::of(P0_001) },
            ParamId::Gain => ParamKind::Float { min: Single::of(ZERO), max: Single::of(TWO), step: Single::of(P0_001) },
            ParamId::Polyphony => ParamKind::Int { min: 1, max: 32 },
            ParamId::BaseNote => ParamKind::Float { min: Single::of(ZERO), max: Single::of(P127), step: Single::of(P0_01) },
            ParamId::Duration => ParamKind::Float { min: Single::of(ZERO), max: Single::of(P10), step: Single::of(P0_001) },
            ParamId::VelocitySens => ParamKind::Float { min: Single::of(ZERO), max: Single::of(ONE), step: Single::of(P0_001) },
        }
    }

    /// The parameter with a name.
    pub fn from_name(name: &str) -> (r: Option<ParamId>)
        ensures
            match r {
                Some(id) => id.label() == name@,
                None => forall|id: ParamId| (#[trigger] id.label()) != name@,
            },
    {
        let mut i: usize = 0;
        while i < 59
            invariant
                i <= 59,
                forall|id: ParamId| id.place() < i ==> (#[trigger] id.label()) != name@,
            decreases 59 - i,
        {
            let id = ParamId::nth(i);
            if equal(id.name(), name) {
                return Some(id);
            }
            proof {
                assert forall|other: ParamId| other.place() < i + 1 implies (#[trigger] other.label()) != name@ by {
                    if other.place() == i {
                        assert(ParamId::all()[other.place()] == other);
                    }
                }
            }
            i = i + 1;
        }
        None
    }
}

impl Patch {
    /// Value of a parameter; names count by their index.
    pub open spec fn value(self, id: ParamId) -> Single {
        match id {
            ParamId::Osc1Wave => crate::single::signed_integer(self.osc1.wave.position()),
            ParamId::Osc1Level => self.osc1.level,
            ParamId::Osc1Semitones => self.osc1.semitones,
            ParamId::Osc1Detune => self.osc1.detune_cents,
            ParamId::Osc1PulseWidth => self.osc1.pulse_width,
            ParamId::Osc1PulseWidthSweep => self.osc1.pulse_width_sweep,
            ParamId::Osc2Wave => crate::single::signed_integer(self.osc2.wave.position()),
            ParamId::Osc2Level => self.osc2.level,
            ParamId::Osc2Semitones => self.osc2.semitones,
            ParamId::Osc2Detune => self.osc2.detune_cents,
            ParamId::Osc2PulseWidth => self.osc2.pulse_width,
            ParamId::Osc2PulseWidthSweep => self.osc2.pulse_width_sweep,
            ParamId::Osc3Wave => crate::single::signed_integer(self.osc3.wave.position()),
            ParamId::Osc3Level => self.osc3.level,
            ParamId::Osc3Semitones => self.osc3.semitones,
            ParamId::Osc3Detune => self.osc3.detune_cents,
            ParamId::Osc3PulseWidth => self.osc3.pulse_width,
            ParamId::Osc3PulseWidthSweep => self.osc3.pulse_width_sweep,
            ParamId::AmpAttack => self.amp_env.attack,
            ParamId::AmpDecay => self.amp_env.decay,
            ParamId::AmpSustain => self.amp_env.sustain,
            ParamId::AmpRelease => self.amp_env.release,
            ParamId::FilterMode => crate::single::signed_integer(self.filter.mode.position()),
            ParamId::FilterCutoff => self.filter.cutoff_hz,
            ParamId::FilterResonance => self.filter.resonance,
            ParamId::FilterEnvAmount => self.filter.env_amount,
            ParamId::FilterKeyTrack => self.filter.key_track,
            ParamId::FilterSweep => self.filter.sweep,
            ParamId::FilterVelocity => self.filter.velocity,
            ParamId::FilterAttack => self.filter_env.attack,
            ParamId::FilterDecay => self.filter_env.decay,
            ParamId::FilterSustain => self.filter_env.sustain,
            ParamId::FilterRelease => self.filter_env.release,
            ParamId::LfoWave => crate::single::signed_integer(self.lfo.wave.position()),
            ParamId::LfoRate => self.lfo.rate_hz,
            ParamId::LfoPitch => self.lfo.pitch,
            ParamId::LfoCutoff => self.lfo.cutoff,
            ParamId::LfoAmp => self.lfo.amp,
            ParamId::LfoPulseWidth => self.lfo.pulse_width,
            ParamId::LfoFadeIn => self.lfo.fade_in,
            ParamId::PitchGlide => self.pitch.glide,
            ParamId::PitchSlide => self.pitch.slide,
            ParamId::PitchSlideAccel => self.pitch.slide_accel,
            ParamId::PitchArpSemitones => self.pitch.arp_semitones,
            ParamId::PitchArpTime => self.pitch.arp_time,
            ParamId::PitchVibratoRate => self.pitch.vibrato_rate,
            ParamId::PitchVibratoDepth => self.pitch.vibrato_depth,
            ParamId::PitchBendRange => self.pitch.bend_range,
            ParamId::FxDrive => self.fx.drive,
            ParamId::FxBitDepth => self.fx.bit_depth,
            ParamId::FxDownsample => self.fx.downsample,
            ParamId::FxDelayTime => self.fx.delay_time,
            ParamId::FxDelayFeedback => self.fx.delay_feedback,
            ParamId::FxDelayMix => self.fx.delay_mix,
            ParamId::Gain => self.gain,
            ParamId::Polyphony => crate::single::signed_integer(self.polyphony as int),
            ParamId::BaseNote => self.base_note,
            ParamId::Duration => self.duration,
            ParamId::VelocitySens => self.velocity_sens,
        }
    }

    /// With a parameter set to the nearest value it can take.
    pub open spec fn with(self, id: ParamId, v: Single) -> Patch {
        match id {
            ParamId::Osc1Wave => Patch { osc1: OscParams { wave: Waveform::all()[crate::params::bounded(v.nearest_int(), 0, 6)], ..self.osc1 }, ..self },
            ParamId::Osc1Level => Patch { osc1: OscParams { level: id.range().clamped(v), ..self.osc1 }, ..self },
            ParamId::Osc1Semitones => Patch { osc1: OscParams { semitones: id.range().clamped(v), ..self.osc1 }, ..self },
            ParamId::Osc1Detune => Patch { osc1: OscParams { detune_cents: id.range().clamped(v), ..self.osc1 }, ..self },
            ParamId::Osc1PulseWidth => Patch { osc1: OscParams { pulse_width: id.range().clamped(v), ..self.osc1 }, ..self },
            ParamId::Osc1PulseWidthSweep => Patch { osc1: OscParams { pulse_width_sweep: id.range().clamped(v), ..self.osc1 }, ..self },
            ParamId::Osc2Wave => Patch { osc2: OscParams { wave: Waveform::all()[crate::params::bounded(v.nearest_int(), 0, 6)], ..self.osc2 }, ..self },
            ParamId::Osc2Level => Patch { osc2: OscParams { level: id.range().clamped(v), ..self.osc2 }, ..self },
            ParamId::Osc2Semitones => Patch { osc2: OscParams { semitones: id.range().clamped(v), ..self.osc2 }, ..self },
            ParamId::Osc2Detune => Patch { osc2: OscParams { detune_cents: id.range().clamped(v), ..self.osc2 }, ..self },
            ParamId::Osc2PulseWidth => Patch { osc2: OscParams { pulse_width: id.range().clamped(v), ..self.osc2 }, ..self },
            ParamId::Osc2PulseWidthSweep => Patch { osc2: OscParams { pulse_width_sweep: id.range().clamped(v), ..self.osc2 }, ..self },
            ParamId::Osc3Wave => Patch { osc3: OscParams { wave: Waveform::all()[crate::params::bounded(v.nearest_int(), 0, 6)], ..self.osc3 }, ..self },
            ParamId::Osc3Level => Patch { osc3: OscParams { level: id.range().clamped(v), ..self.osc3 }, ..self },
            ParamId::Osc3Semitones => Patch { osc3: OscParams { semitones: id.range().clamped(v), ..self.osc3 }, ..self },
            ParamId::Osc3Detune => Patch { osc3: OscParams { detune_cents: id.range().clamped(v), ..self.osc3 }, ..self },
            ParamId::Osc3PulseWidth => Patch { osc3: OscParams { pulse_width: id.range().clamped(v), ..self.osc3 }, ..self },
            ParamId::Osc3PulseWidthSweep => Patch { osc3: OscParams { pulse_width_sweep: id.range().clamped(v), ..self.osc3 }, ..self },
            ParamId::AmpAttack => Patch { amp_env: AdsrParams { attack: id.range().clamped(v), ..self.amp_env }, ..self },
            ParamId::AmpDecay => Patch { amp_env: AdsrParams { decay: id.range().clamped(v), ..self.amp_env }, ..self },
            ParamId::AmpSustain => Patch { amp_env: AdsrParams { sustain: id.range().clamped(v), ..self.amp_env }, ..self },
            ParamId::AmpRelease => Patch { amp_env: AdsrParams { release: id.range().clamped(v), ..self.amp_env }, ..self },
            ParamId::FilterMode => Patch { filter: FilterParams { mode: FilterMode::all()[crate::params::bounded(v.nearest_int(), 0, 4)], ..self.filter }, ..self },
            ParamId::FilterCutoff => Patch { filter: FilterParams { cutoff_hz: id.range().clamped(v), ..self.filter }, ..self },
            ParamId::FilterResonance => Patch { filter: FilterParams { resonance: id.range().clamped(v), ..self.filter }, ..self },
            ParamId::FilterEnvAmount => Patch { filter: FilterParams { env_amount: id.range().clamped(v), ..self.filter }, ..self },
            ParamId::FilterKeyTrack => Patch { filter: FilterParams { key_track: id.range().clamped(v), ..self.filter }, ..self },
            ParamId::FilterSweep => Patch { filter: FilterParams { sweep: id.range().clamped(v), ..self.filter }, ..self },
            ParamId::FilterVelocity => Patch { filter: FilterParams { velocity: id.range().clamped(v), ..self.filter }, ..self },
            ParamId::FilterAttack => Patch { filter_env: AdsrParams { attack: id.range().clamped(v), ..self.filter_env }, ..self },
            ParamId::FilterDecay => Patch { filter_env: AdsrParams { decay: id.range().clamped(v), ..self.filter_env }, ..self },
            ParamId::FilterSustain => Patch { filter_env: AdsrParams { sustain: id.range().clamped(v), ..self.filter_env }, ..self },
            ParamId::FilterRelease => Patch { filter_env: AdsrParams { release: id.range().clamped(v), ..self.filter_env }, ..self },
            ParamId::LfoWave => Patch { lfo: LfoParams { wave: LfoWave::all()[crate::params::bounded(v.nearest_int(), 0, 4)], ..self.lfo }, ..self },
            ParamId::LfoRate => Patch { lfo: LfoParams { rate_hz: id.range().clamped(v), ..self.lfo }, ..self },
            ParamId::LfoPitch => Patch { lfo: LfoParams { pitch: id.range().clamped(v), ..self.lfo }, ..self },
            ParamId::LfoCutoff => Patch { lfo: LfoParams { cutoff: id.range().clamped(v), ..self.lfo }, ..self },
            ParamId::LfoAmp => Patch { lfo: LfoParams { amp: id.range().clamped(v), ..self.lfo }, ..self },
            ParamId::LfoPulseWidth => Patch { lfo: LfoParams { pulse_width: id.range().clamped(v), ..self.lfo }, ..self },
            ParamId::LfoFadeIn => Patch { lfo: LfoParams { fade_in: id.range().clamped(v), ..self.lfo }, ..self },
            ParamId::PitchGlide => Patch { pitch: PitchParams { glide: id.range().clamped(v), ..self.pitch }, ..self },
            ParamId::PitchSlide => Patch { pitch: PitchParams { slide: id.range().clamped(v), ..self.pitch }, ..self },
            ParamId::PitchSlideAccel => Patch { pitch: PitchParams { slide_accel: id.range().clamped(v), ..self.pitch }, ..self },
            ParamId::PitchArpSemitones => Patch { pitch: PitchParams { arp_semitones: id.range().clamped(v), ..self.pitch }, ..self },
            ParamId::PitchArpTime => Patch { pitch: PitchParams { arp_time: id.range().clamped(v), ..self.pitch }, ..self },
            ParamId::PitchVibratoRate => Patch { pitch: PitchParams { vibrato_rate: id.range().clamped(v), ..self.pitch }, ..self },
            ParamId::PitchVibratoDepth => Patch { pitch: PitchParams { vibrato_depth: id.range().clamped(v), ..self.pitch }, ..self },
            ParamId::PitchBendRange => Patch { pitch: PitchParams { bend_range: id.range().clamped(v), ..self.pitch }, ..self },
            ParamId::FxDrive => Patch { fx: FxParams { drive: id.range().clamped(v), ..self.fx }, ..self },
            ParamId::FxBitDepth => Patch { fx: FxParams { bit_depth: id.range().clamped(v), ..self.fx }, ..self },
            ParamId::FxDownsample => Patch { fx: FxParams { downsample: id.range().clamped(v), ..self.fx }, ..self },
            ParamId::FxDelayTime => Patch { fx: FxParams { delay_time: id.range().clamped(v), ..self.fx }, ..self },
            ParamId::FxDelayFeedback => Patch { fx: FxParams { delay_feedback: id.range().clamped(v), ..self.fx }, ..self },
            ParamId::FxDelayMix => Patch { fx: FxParams { delay_mix: id.range().clamped(v), ..self.fx }, ..self },
            ParamId::Gain => Patch { gain: id.range().clamped(v), ..self },
            ParamId::Polyphony => Patch { polyphony: crate::params::bounded(v.nearest_int(), 1, 32) as u8, ..self },
            ParamId::BaseNote => Patch { base_note: id.range().clamped(v), ..self },
            ParamId::Duration => Patch { duration: id.range().clamped(v), ..self },
            ParamId::VelocitySens => Patch { velocity_sens: id.range().clamped(v), ..self },
        }
    }

    pub fn get(&self, id: ParamId) -> (r: Single)
        ensures
            r == self.value(id),
    {
        match id {
            ParamId::Osc1Wave => from_i32(self.osc1.wave.index() as i32),
            ParamId::Osc1Level => self.osc1.level,
            ParamId::Osc1Semitones => self.osc1.semitones,
            ParamId::Osc1Detune => self.osc1.detune_cents,
            ParamId::Osc1PulseWidth => self.osc1.pulse_width,
            ParamId::Osc1PulseWidthSweep => self.osc1.pulse_width_sweep,
            ParamId::Osc2Wave => from_i32(self.osc2.wave.index() as i32),
            ParamId::Osc2Level => self.osc2.level,
            ParamId::Osc2Semitones => self.osc2.semitones,
            ParamId::Osc2Detune => self.osc2.detune_cents,
            ParamId::Osc2PulseWidth => self.osc2.pulse_width,
            ParamId::Osc2PulseWidthSweep => self.osc2.pulse_width_sweep,
            ParamId::Osc3Wave => from_i32(self.osc3.wave.index() as i32),
            ParamId::Osc3Level => self.osc3.level,
            ParamId::Osc3Semitones => self.osc3.semitones,
            ParamId::Osc3Detune => self.osc3.detune_cents,
            ParamId::Osc3PulseWidth => self.osc3.pulse_width,
            ParamId::Osc3PulseWidthSweep => self.osc3.pulse_width_sweep,
            ParamId::AmpAttack => self.amp_env.attack,
            ParamId::AmpDecay => self.amp_env.decay,
            ParamId::AmpSustain => self.amp_env.sustain,
            ParamId::AmpRelease => self.amp_env.release,
            ParamId::FilterMode => from_i32(self.filter.mode.index() as i32),
            ParamId::FilterCutoff => self.filter.cutoff_hz,
            ParamId::FilterResonance => self.filter.resonance,
            ParamId::FilterEnvAmount => self.filter.env_amount,
            ParamId::FilterKeyTrack => self.filter.key_track,
            ParamId::FilterSweep => self.filter.sweep,
            ParamId::FilterVelocity => self.filter.velocity,
            ParamId::FilterAttack => self.filter_env.attack,
            ParamId::FilterDecay => self.filter_env.decay,
            ParamId::FilterSustain => self.filter_env.sustain,
            ParamId::FilterRelease => self.filter_env.release,
            ParamId::LfoWave => from_i32(self.lfo.wave.index() as i32),
            ParamId::LfoRate => self.lfo.rate_hz,
            ParamId::LfoPitch => self.lfo.pitch,
            ParamId::LfoCutoff => self.lfo.cutoff,
            ParamId::LfoAmp => self.lfo.amp,
            ParamId::LfoPulseWidth => self.lfo.pulse_width,
            ParamId::LfoFadeIn => self.lfo.fade_in,
            ParamId::PitchGlide => self.pitch.glide,
            ParamId::PitchSlide => self.pitch.slide,
            ParamId::PitchSlideAccel => self.pitch.slide_accel,
            ParamId::PitchArpSemitones => self.pitch.arp_semitones,
            ParamId::PitchArpTime => self.pitch.arp_time,
            ParamId::PitchVibratoRate => self.pitch.vibrato_rate,
            ParamId::PitchVibratoDepth => self.pitch.vibrato_depth,
            ParamId::PitchBendRange => self.pitch.bend_range,
            ParamId::FxDrive => self.fx.drive,
            ParamId::FxBitDepth => self.fx.bit_depth,
            ParamId::FxDownsample => self.fx.downsample,
            ParamId::FxDelayTime => self.fx.delay_time,
            ParamId::FxDelayFeedback => self.fx.delay_feedback,
            ParamId::FxDelayMix => self.fx.delay_mix,
            ParamId::Gain => self.gain,
            ParamId::Polyphony => from_i32(self.polyphony as i32),
            ParamId::BaseNote => self.base_note,
            ParamId::Duration => self.duration,
            ParamId::VelocitySens => self.velocity_sens,
        }
    }

    /// Set a parameter to the nearest value it can take; what is no number is ignored.
    pub fn set(&mut self, id: ParamId, v: Single)
        ensures
            *final(self) == if v.finite() {
                old(self).with(id, v)
            } else {
                *old(self)
            },
    {
        if !v.is_finite() {
            return;
        }
        match id {
            ParamId::Osc1Wave => {
                self.osc1.wave = Waveform::from_index(bound(v.round(), 0, 6) as usize);
            },
            ParamId::Osc1Level => {
                self.osc1.level = id.kind().clamp(v);
            },
            ParamId::Osc1Semitones => {
                self.osc1.semitones = id.kind().clamp(v);
            },
            ParamId::Osc1Detune => {
                self.osc1.detune_cents = id.kind().clamp(v);
            },
            ParamId::Osc1PulseWidth => {
                self.osc1.pulse_width = id.kind().clamp(v);
            },
            ParamId::Osc1PulseWidthSweep => {
                self.osc1.pulse_width_sweep = id.kind().clamp(v);
            },
            ParamId::Osc2Wave => {
                self.osc2.wave = Waveform::from_index(bound(v.round(), 0, 6) as usize);
            },
            ParamId::Osc2Level => {
                self.osc2.level = id.kind().clamp(v);
            },
            ParamId::Osc2Semitones => {
                self.osc2.semitones = id.kind().clamp(v);
            },
            ParamId::Osc2Detune => {
                self.osc2.detune_cents = id.kind().clamp(v);
            },
            ParamId::Osc2PulseWidth => {
                self.osc2.pulse_width = id.kind().clamp(v);
            },
            ParamId::Osc2PulseWidthSweep => {
                self.osc2.pulse_width_sweep = id.kind().clamp(v);
            },
            ParamId::Osc3Wave => {
                self.osc3.wave = Waveform::from_index(bound(v.round(), 0, 6) as usize);
            },
            ParamId::Osc3Level => {
                self.osc3.level = id.kind().clamp(v);
            },
            ParamId::Osc3Semitones => {
                self.osc3.semitones = id.kind().clamp(v);
            },
            ParamId::Osc3Detune => {
                self.osc3.detune_cents = id.kind().clamp(v);
            },
            ParamId::Osc3PulseWidth => {
                self.osc3.pulse_width = id.kind().clamp(v);
            },
            ParamId::Osc3PulseWidthSweep => {
                self.osc3.pulse_width_sweep = id.kind().clamp(v);
            },
            ParamId::AmpAttack => {
                self.amp_env.attack = id.kind().clamp(v);
            },
            ParamId::AmpDecay => {
                self.amp_env.decay = id.kind().clamp(v);
            },
            ParamId::AmpSustain => {
                self.amp_env.sustain = id.kind().clamp(v);
            },
            ParamId::AmpRelease => {
                self.amp_env.release = id.kind().clamp(v);
            },
            ParamId::FilterMode => {
                self.filter.mode = FilterMode::from_index(bound(v.round(), 0, 4) as usize);
            },
            ParamId::FilterCutoff => {
                self.filter.cutoff_hz = id.kind().clamp(v);
            },
            ParamId::FilterResonance => {
                self.filter.resonance = id.kind().clamp(v);
            },
            ParamId::FilterEnvAmount => {
                self.filter.env_amount = id.kind().clamp(v);
            },
            ParamId::FilterKeyTrack => {
                self.filter.key_track = id.kind().clamp(v);
            },
            ParamId::FilterSweep => {
                self.filter.sweep = id.kind().clamp(v);
            },
            ParamId::FilterVelocity => {
                self.filter.velocity = id.kind().clamp(v);
            },
            ParamId::FilterAttack => {
                self.filter_env.attack = id.kind().clamp(v);
            },
            ParamId::FilterDecay => {
                self.filter_env.decay = id.kind().clamp(v);
            },
            ParamId::FilterSustain => {
                self.filter_env.sustain = id.kind().clamp(v);
            },
            ParamId::FilterRelease => {
                self.filter_env.release = id.kind().clamp(v);
            },
            ParamId::LfoWave => {
                self.lfo.wave = LfoWave::from_index(bound(v.round(), 0, 4) as usize);
            },
            ParamId::LfoRate => {
                self.lfo.rate_hz = id.kind().clamp(v);
            },
            ParamId::LfoPitch => {
                self.lfo.pitch = id.kind().clamp(v);
            },
            ParamId::LfoCutoff => {
                self.lfo.cutoff = id.kind().clamp(v);
            },
            ParamId::LfoAmp => {
                self.lfo.amp = id.kind().clamp(v);
            },
            ParamId::LfoPulseWidth => {
                self.lfo.pulse_width = id.kind().clamp(v);
            },
            ParamId::LfoFadeIn => {
                self.lfo.fade_in = id.kind().clamp(v);
            },
            ParamId::PitchGlide => {
                self.pitch.glide = id.kind().clamp(v);
            },
            ParamId::PitchSlide => {
                self.pitch.slide = id.kind().clamp(v);
            },
            ParamId::PitchSlideAccel => {
                self.pitch.slide_accel = id.kind().clamp(v);
            },
            ParamId::PitchArpSemitones => {
                self.pitch.arp_semitones = id.kind().clamp(v);
            },
            ParamId::PitchArpTime => {
                self.pitch.arp_time = id.kind().clamp(v);
            },
            ParamId::PitchVibratoRate => {
                self.pitch.vibrato_rate = id.kind().clamp(v);
            },
            ParamId::PitchVibratoDepth => {
                self.pitch.vibrato_depth = id.kind().clamp(v);
            },
            ParamId::PitchBendRange => {
                self.pitch.bend_range = id.kind().clamp(v);
            },
            ParamId::FxDrive => {
                self.fx.drive = id.kind().clamp(v);
            },
            ParamId::FxBitDepth => {
                self.fx.bit_depth = id.kind().clamp(v);
            },
            ParamId::FxDownsample => {
                self.fx.downsample = id.kind().clamp(v);
            },
            ParamId::FxDelayTime => {
                self.fx.delay_time = id.kind().clamp(v);
            },
            ParamId::FxDelayFeedback => {
                self.fx.delay_feedback = id.kind().clamp(v);
            },
            ParamId::FxDelayMix => {
                self.fx.delay_mix = id.kind().clamp(v);
            },
            ParamId::Gain => {
                self.gain = id.kind().clamp(v);
            },
            ParamId::Polyphony => {
                self.polyphony = bound(v.round(), 1, 32) as u8;
            },
            ParamId::BaseNote => {
                self.base_note = id.kind().clamp(v);
            },
            ParamId::Duration => {
                self.duration = id.kind().clamp(v);
            },
            ParamId::VelocitySens => {
                self.velocity_sens = id.kind().clamp(v);
            },
        }
    }
}

/// The list holds every parameter at its own place.
pub proof fn lemma_param_places(i: int)
    requires
        0 <= i < ParamId::COUNT,
    ensures
        ParamId::all()[i].place() == i,
{
}

/// A parameter that was set has the nearest value it can take.
pub proof fn lemma_patch_set_get(p: Patch, id: ParamId, v: Single)
    requires
        v.finite(),
    ensures
        p.with(id, v).value(id) == id.range().clamped(v),
{
}


/// Part of the patch that holds a parameter.
spec fn paramid_part(id: ParamId) -> int {
    match id {
        ParamId::Osc1Wave => 0,
        ParamId::Osc1Level => 0,
        ParamId::Osc1Semitones => 0,
        ParamId::Osc1Detune => 0,
        ParamId::Osc1PulseWidth => 0,
        ParamId::Osc1PulseWidthSweep => 0,
        ParamId::Osc2Wave => 1,
        ParamId::Osc2Level => 1,
        ParamId::Osc2Semitones => 1,
        ParamId::Osc2Detune => 1,
        ParamId::Osc2PulseWidth => 1,
        ParamId::Osc2PulseWidthSweep => 1,
        ParamId::Osc3Wave => 2,
        ParamId::Osc3Level => 2,
        ParamId::Osc3Semitones => 2,
        ParamId::Osc3Detune => 2,
        ParamId::Osc3PulseWidth => 2,
        ParamId::Osc3PulseWidthSweep => 2,
        ParamId::AmpAttack => 3,
        ParamId::AmpDecay => 3,
        ParamId::AmpSustain => 3,
        ParamId::AmpRelease => 3,
        ParamId::FilterMode => 4,
        ParamId::FilterCutoff => 4,
        ParamId::FilterResonance => 4,
        ParamId::FilterEnvAmount => 4,
        ParamId::FilterKeyTrack => 4,
        ParamId::FilterSweep => 4,
        ParamId::FilterVelocity => 4,
        ParamId::FilterAttack => 5,
        ParamId::FilterDecay => 5,
        ParamId::FilterSustain => 5,
        ParamId::FilterRelease => 5,
        ParamId::LfoWave => 6,
        ParamId::LfoRate => 6,
        ParamId::LfoPitch => 6,
        ParamId::LfoCutoff => 6,
        ParamId::LfoAmp => 6,
        ParamId::LfoPulseWidth => 6,
        ParamId::LfoFadeIn => 6,
        ParamId::PitchGlide => 7,
        ParamId::PitchSlide => 7,
        ParamId::PitchSlideAccel => 7,
        ParamId::PitchArpSemitones => 7,
        ParamId::PitchArpTime => 7,
        ParamId::PitchVibratoRate => 7,
        ParamId::PitchVibratoDepth => 7,
        ParamId::PitchBendRange => 7,
        ParamId::FxDrive => 8,
        ParamId::FxBitDepth => 8,
        ParamId::FxDownsample => 8,
        ParamId::FxDelayTime => 8,
        ParamId::FxDelayFeedback => 8,
        ParamId::FxDelayMix => 8,
        ParamId::Gain => 9,
        ParamId::Polyphony => 10,
        ParamId::BaseNote => 11,
        ParamId::Duration => 12,
        ParamId::VelocitySens => 13,
    }
}

proof fn lemma_paramid_part(p: Patch, id: ParamId, v: Single)
    ensures
        paramid_part(id) != 0 ==> p.with(id, v).osc1 == p.osc1,
        paramid_part(id) != 1 ==> p.with(id, v).osc2 == p.osc2,
        paramid_part(id) != 2 ==> p.with(id, v).osc3 == p.osc3,
        paramid_part(id) != 3 ==> p.with(id, v).amp_env == p.amp_env,
        paramid_part(id) != 4 ==> p.with(id, v).filter == p.filter,
        paramid_part(id) != 5 ==> p.with(id, v).filter_env == p.filter_env,
        paramid_part(id) != 6 ==> p.with(id, v).lfo == p.lfo,
        paramid_part(id) != 7 ==> p.with(id, v).pitch == p.pitch,
        paramid_part(id) != 8 ==> p.with(id, v).fx == p.fx,
        paramid_part(id) != 9 ==> p.with(id, v).gain == p.gain,
        paramid_part(id) != 10 ==> p.with(id, v).polyphony == p.polyphony,
        paramid_part(id) != 11 ==> p.with(id, v).base_note == p.base_note,
        paramid_part(id) != 12 ==> p.with(id, v).duration == p.duration,
        paramid_part(id) != 13 ==> p.with(id, v).velocity_sens == p.velocity_sens,
{
}

proof fn lemma_paramid_reads_part(p: Patch, q: Patch, id: ParamId)
    requires
        paramid_part(id) == 0 ==> p.osc1 == q.osc1,
        paramid_part(id) == 1 ==> p.osc2 == q.osc2,
        paramid_part(id) == 2 ==> p.osc3 == q.osc3,
        paramid_part(id) == 3 ==> p.amp_env == q.amp_env,
        paramid_part(id) == 4 ==> p.filter == q.filter,
        paramid_part(id) == 5 ==> p.filter_env == q.filter_env,
        paramid_part(id) == 6 ==> p.lfo == q.lfo,
        paramid_part(id) == 7 ==> p.pitch == q.pitch,
        paramid_part(id) == 8 ==> p.fx == q.fx,
        paramid_part(id) == 9 ==> p.gain == q.gain,
        paramid_part(id) == 10 ==> p.polyphony == q.polyphony,
        paramid_part(id) == 11 ==> p.base_note == q.base_note,
        paramid_part(id) == 12 ==> p.duration == q.duration,
        paramid_part(id) == 13 ==> p.velocity_sens == q.velocity_sens,
    ensures
        p.value(id) == q.value(id),
{
}

/// Setting a parameter leaves every other one what it was.
pub proof fn lemma_patch_set_keeps_others(p: Patch, id: ParamId, other: ParamId, v: Single)
    requires
        other != id,
    ensures
        p.with(id, v).value(other) == p.value(other),
{
    if paramid_part(id) != paramid_part(other) {
        lemma_paramid_part(p, id, v);
        lemma_paramid_reads_part(p.with(id, v), p, other);
    } else {
        lemma_osc1_keeps_others(p, id, other, v);
        lemma_osc2_keeps_others(p, id, other, v);
        lemma_osc3_keeps_others(p, id, other, v);
        lemma_amp_env_keeps_others(p, id, other, v);
        lemma_filter_keeps_others(p, id, other, v);
        lemma_filter_env_keeps_others(p, id, other, v);
        lemma_lfo_keeps_others(p, id, other, v);
        lemma_pitch_keeps_others(p, id, other, v);
        lemma_fx_keeps_others(p, id, other, v);
    }
}

proof fn lemma_osc1_keeps_others(p: Patch, id: ParamId, other: ParamId, v: Single)
    requires
        other != id,
    ensures
        paramid_part(id) == 0 && paramid_part(other) == 0 ==> p.with(id, v).value(other) == p.value(other),
{
}

proof fn lemma_osc2_keeps_others(p: Patch, id: ParamId, other: ParamId, v: Single)
    requires
        other != id,
    ensures
        paramid_part(id) == 1 && paramid_part(other) == 1 ==> p.with(id, v).value(other) == p.value(other),
{
}

proof fn lemma_osc3_keeps_others(p: Patch, id: ParamId, other: ParamId, v: Single)
    requires
        other != id,
    ensures
        paramid_part(id) == 2 && paramid_part(other) == 2 ==> p.with(id, v).value(other) == p.value(other),
{
}

proof fn lemma_amp_env_keeps_others(p: Patch, id: ParamId, other: ParamId, v: Single)
    requires
        other != id,
    ensures
        paramid_part(id) == 3 && paramid_part(other) == 3 ==> p.with(id, v).value(other) == p.value(other),
{
}

proof fn lemma_filter_keeps_others(p: Patch, id: ParamId, other: ParamId, v: Single)
    requires
        other != id,
    ensures
        paramid_part(id) == 4 && paramid_part(other) == 4 ==> p.with(id, v).value(other) == p.value(other),
{
}

proof fn lemma_filter_env_keeps_others(p: Patch, id: ParamId, other: ParamId, v: Single)
    requires
        other != id,
    ensures
        paramid_part(id) == 5 && paramid_part(other) == 5 ==> p.with(id, v).value(other) == p.value(other),
{
}

proof fn lemma_lfo_keeps_others(p: Patch, id: ParamId, other: ParamId, v: Single)
    requires
        other != id,
    ensures
        paramid_part(id) == 6 && paramid_part(other) == 6 ==> p.with(id, v).value(other) == p.value(other),
{
}

proof fn lemma_pitch_keeps_others(p: Patch, id: ParamId, other: ParamId, v: Single)
    requires
        other != id,
    ensures
        paramid_part(id) == 7 && paramid_part(other) == 7 ==> p.with(id, v).value(other) == p.value(other),
{
}

proof fn lemma_fx_keeps_others(p: Patch, id: ParamId, other: ParamId, v: Single)
    requires
        other != id,
    ensures
        paramid_part(id) == 8 && paramid_part(other) == 8 ==> p.with(id, v).value(other) == p.value(other),
{
}

/// Length and some letters of a name.
spec fn paramid_sign(id: ParamId) -> (int, char, char, char, char) {
    match id {
        ParamId::Osc1Wave => (9, '1', ' ', ' ', 'a'),
        ParamId::Osc1Level => (10, '1', ' ', ' ', 'e'),
        ParamId::Osc1Semitones => (14, '1', 'o', 'n', 'e'),
        ParamId::Osc1Detune => (17, '1', 'e', '_', 'e'),
        ParamId::Osc1PulseWidth => (16, '1', '_', 'w', 'u'),
        ParamId::Osc1PulseWidthSweep => (22, '1', '_', 'w', 'u'),
        ParamId::Osc2Wave => (9, '2', ' ', ' ', 'a'),
        ParamId::Osc2Level => (10, '2', ' ', ' ', 'e'),
        ParamId::Osc2Semitones => (14, '2', 'o', 'n', 'e'),
        ParamId::Osc2Detune => (17, '2', 'e', '_', 'e'),
        ParamId::Osc2PulseWidth => (16, '2', '_', 'w', 'u'),
        ParamId::Osc2PulseWidthSweep => (22, '2', '_', 'w', 'u'),
        ParamId::Osc3Wave => (9, '3', ' ', ' ', 'a'),
        ParamId::Osc3Level => (10, '3', ' ', ' ', 'e'),
        ParamId::Osc3Semitones => (14, '3', 'o', 'n', 'e'),
        ParamId::Osc3Detune => (17, '3', 'e', '_', 'e'),
        ParamId::Osc3PulseWidth => (16, '3', '_', 'w', 'u'),
        ParamId::Osc3PulseWidthSweep => (22, '3', '_', 'w', 'u'),
        ParamId::AmpAttack => (14, '_', 't', 'a', 'v'),
        ParamId::AmpDecay => (13, '_', 'c', 'a', 'v'),
        ParamId::AmpSustain => (15, '_', 's', 't', 'v'),
        ParamId::AmpRelease => (15, '_', 'l', 'e', 'v'),
        ParamId::FilterMode => (11, 't', 'e', ' ', '/'),
        ParamId::FilterCutoff => (16, 't', 'o', 'f', '/'),
        ParamId::FilterResonance => (16, 't', 'o', 'n', '/'),
        ParamId::FilterEnvAmount => (17, 't', '_', 'a', '/'),
        ParamId::FilterKeyTrack => (16, 't', '_', 't', '/'),
        ParamId::FilterSweep => (12, 't', 'e', 'p', '/'),
        ParamId::FilterVelocity => (15, 't', 'o', 'c', '/'),
        ParamId::FilterAttack => (17, 't', '/', 'a', '_'),
        ParamId::FilterDecay => (16, 't', '/', 'd', '_'),
        ParamId::FilterSustain => (18, 't', '/', 's', '_'),
        ParamId::FilterRelease => (18, 't', '/', 'r', '_'),
        ParamId::LfoWave => (8, '/', ' ', ' ', 'v'),
        ParamId::LfoRate => (11, '/', 'z', ' ', 't'),
        ParamId::LfoPitch => (9, '/', ' ', ' ', 't'),
        ParamId::LfoCutoff => (10, '/', ' ', ' ', 't'),
        ParamId::LfoAmp => (7, '/', ' ', ' ', 'p'),
        ParamId::LfoPulseWidth => (15, '/', 'w', 'i', 'l'),
        ParamId::LfoFadeIn => (11, '/', 'n', ' ', 'd'),
        ParamId::PitchGlide => (11, 'c', 'e', ' ', 'g'),
        ParamId::PitchSlide => (11, 'c', 'e', ' ', 's'),
        ParamId::PitchSlideAccel => (17, 'c', 'e', '_', 's'),
        ParamId::PitchArpSemitones => (19, 'c', 's', 'e', 'a'),
        ParamId::PitchArpTime => (14, 'c', 't', 'i', 'a'),
        ParamId::PitchVibratoRate => (18, 'c', 'a', 't', 'v'),
        ParamId::PitchVibratoDepth => (19, 'c', 'a', 't', 'v'),
        ParamId::PitchBendRange => (16, 'c', '_', 'r', 'b'),
        ParamId::FxDrive => (8, 'd', ' ', ' ', 'v'),
        ParamId::FxBitDepth => (12, 'b', 't', 'h', '_'),
        ParamId::FxDownsample => (13, 'd', 'p', 'l', 'n'),
        ParamId::FxDelayTime => (13, 'd', 'i', 'm', 'a'),
        ParamId::FxDelayFeedback => (17, 'd', 'e', 'e', 'a'),
        ParamId::FxDelayMix => (12, 'd', 'i', 'x', 'a'),
        ParamId::Gain => (11, 't', 'n', ' ', '/'),
        ParamId::Polyphony => (16, 't', 'y', 'p', '/'),
        ParamId::BaseNote => (16, 't', 'e', '_', '/'),
        ParamId::Duration => (15, 't', 'a', 't', '/'),
        ParamId::VelocitySens => (20, 't', 'o', 'c', '/'),
    }
}

#[verifier::rlimit(60)]
proof fn lemma_paramid_sign(id: ParamId)
    ensures
        id.label().len() == paramid_sign(id).0,
        paramid_sign(id).0 > 3 ==> id.label()[3] == paramid_sign(id).1,
        paramid_sign(id).0 > 10 ==> id.label()[10] == paramid_sign(id).2,
        paramid_sign(id).0 > 11 ==> id.label()[11] == paramid_sign(id).3,
        paramid_sign(id).0 > 6 ==> id.label()[6] == paramid_sign(id).4,
{
    reveal_strlit("osc1/wave");
    reveal_strlit("osc1/level");
    reveal_strlit("osc1/semitones");
    reveal_strlit("osc1/detune_cents");
    reveal_strlit("osc1/pulse_width");
    reveal_strlit("osc1/pulse_width_sweep");
    reveal_strlit("osc2/wave");
    reveal_strlit("osc2/level");
    reveal_strlit("osc2/semitones");
    reveal_strlit("osc2/detune_cents");
    reveal_strlit("osc2/pulse_width");
    reveal_strlit("osc2/pulse_width_sweep");
    reveal_strlit("osc3/wave");
    reveal_strlit("osc3/level");
    reveal_strlit("osc3/semitones");
    reveal_strlit("osc3/detune_cents");
    reveal_strlit("osc3/pulse_width");
    reveal_strlit("osc3/pulse_width_sweep");
    reveal_strlit("amp_env/attack");
    reveal_strlit("amp_env/decay");
    reveal_strlit("amp_env/sustain");
    reveal_strlit("amp_env/release");
    reveal_strlit("filter/mode");
    reveal_strlit("filter/cutoff_hz");
    reveal_strlit("filter/resonance");
    reveal_strlit("filter/env_amount");
    reveal_strlit("filter/key_track");
    reveal_strlit("filter/sweep");
    reveal_strlit("filter/velocity");
    reveal_strlit("filter_env/attack");
    reveal_strlit("filter_env/decay");
    reveal_strlit("filter_env/sustain");
    reveal_strlit("filter_env/release");
    reveal_strlit("lfo/wave");
    reveal_strlit("lfo/rate_hz");
    reveal_strlit("lfo/pitch");
    reveal_strlit("lfo/cutoff");
    reveal_strlit("lfo/amp");
    reveal_strlit("lfo/pulse_width");
    reveal_strlit("lfo/fade_in");
    reveal_strlit("pitch/glide");
    reveal_strlit("pitch/slide");
    reveal_strlit("pitch/slide_accel");
    reveal_strlit("pitch/arp_semitones");
    reveal_strlit("pitch/arp_time");
    reveal_strlit("pitch/vibrato_rate");
    reveal_strlit("pitch/vibrato_depth");
    reveal_strlit("pitch/bend_range");
    reveal_strlit("fx/drive");
    reveal_strlit("fx/bit_depth");
    reveal_strlit("fx/downsample");
    reveal_strlit("fx/delay_time");
    reveal_strlit("fx/delay_feedback");
    reveal_strlit("fx/delay_mix");
    reveal_strlit("master/gain");
    reveal_strlit("master/polyphony");
    reveal_strlit("master/base_note");
    reveal_strlit("master/duration");
    reveal_strlit("master/velocity_sens");
}

/// Names tell the parameters apart, so looking up a parameter's name gives the parameter.
pub proof fn lemma_paramid_names_differ(a: ParamId, b: ParamId)
    requires
        a.label() == b.label(),
    ensures
        a == b,
{
    lemma_paramid_sign(a);
    lemma_paramid_sign(b);
}

impl Params for Patch {
    open spec fn plain_params() -> Patch {
        Patch::plain()
    }

    open spec fn param_count() -> nat {
        ParamId::COUNT as nat
    }

    open spec fn label_at(i: int) -> Seq<char> {
        ParamId::all()[i].label()
    }

    open spec fn range_at(i: int) -> ParamKind {
        ParamId::all()[i].range()
    }

    open spec fn value_at(self, i: int) -> Single {
        self.value(ParamId::all()[i])
    }

    open spec fn with_at(self, i: int, v: Single) -> Patch {
        self.with(ParamId::all()[i], v)
    }

    proof fn lemma_set_at_reads_back(self, i: int, v: Single) {
        lemma_patch_set_get(self, ParamId::all()[i], v);
    }

    proof fn lemma_set_at_keeps_others(self, i: int, j: int, v: Single) {
        assert(ParamId::all()[i].place() == i);
        assert(ParamId::all()[j].place() == j);
        lemma_patch_set_keeps_others(self, ParamId::all()[i], ParamId::all()[j], v);
    }

    fn default_params() -> (r: Patch) {
        Patch::default()
    }

    fn count() -> (r: usize) {
        ParamId::COUNT
    }

    fn name_at(i: usize) -> (r: &'static str) {
        ParamId::nth(i).name()
    }

    fn kind_at(i: usize) -> (r: ParamKind) {
        ParamId::nth(i).kind()
    }

    fn get_at(&self, i: usize) -> (r: Single) {
        self.get(ParamId::nth(i))
    }

    fn set_at(&mut self, i: usize, v: Single) {
        self.set(ParamId::nth(i), v);
    }
}

} // verus!
