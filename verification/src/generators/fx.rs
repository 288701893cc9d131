//! Layered one-shot effects: explosions, weapons, impacts, pickups, boosts.
//!
//! An effect is a recipe: up to eight [`Layer`]s (noise bursts with swept filters, tones
//! with pitch glides and FM, debris showers) that start together or staggered, summed into a
//! small reverb. One engine renders every recipe, so a new effect is a table, not new DSP.
//!
//! Every trigger re-rolls per-layer pitch, timing and level (`shape/variation`), because the
//! tenth identical explosion is what makes procedural audio sound cheap. The game supplies
//! `power` (small hit to full blast) and `distance` at the moment of the trigger.
use vstd::prelude::*;

use crate::arith::{meant, total, Prim, Sums};
use crate::blocks::{hz_coef, OnePole, BLOCK};
use crate::effects::same_outside;
use crate::filter::{FilterMode, Svf};
use crate::graph::node::{new_room, reverb_sample, ReverbNode, ReverbView, RoomView};
use crate::math::{soft_clip, Rng};
use crate::native::{Generator, InputSpec, InputView, Profile, ProfileView};
use crate::noise::Noise;
use crate::osc::{Oscillator, Waveform};
use crate::params::{ParamKind, Params};
use crate::single::{from_i32, Single, HALF, ONE, TAU, THREE, TWO, ZERO};
use crate::text::equal;

verus! {

/// Pattern of -24.
pub const N24: u32 = 0xc1c0_0000;

/// Pattern of -12.
pub const N12: u32 = 0xc140_0000;

/// Pattern of -9.
pub const N9: u32 = 0xc110_0000;

/// Pattern of -7.
pub const N7: u32 = 0xc0e0_0000;

/// Pattern of -6.9.
pub const N6_9: u32 = 0xc0dc_cccd;

/// Pattern of -5.
pub const N5: u32 = 0xc0a0_0000;

/// Pattern of -3.
pub const N3: u32 = 0xc040_0000;

/// Pattern of -1.
pub const N1: u32 = 0xbf80_0000;

/// Pattern of -0.26.
pub const N0_26: u32 = 0xbe85_1eb8;

/// Pattern of 0.001.
pub const P0_001: u32 = 0x3a83_126f;

/// Pattern of 0.002.
pub const P0_002: u32 = 0x3b03_126f;

/// Pattern of 0.003.
pub const P0_003: u32 = 0x3b44_9ba6;

/// Pattern of 0.004.
pub const P0_004: u32 = 0x3b83_126f;

/// Pattern of 0.005.
pub const P0_005: u32 = 0x3ba3_d70a;

/// Pattern of 0.008.
pub const P0_008: u32 = 0x3c03_126f;

/// Pattern of 0.01.
pub const P0_01: u32 = 0x3c23_d70a;

/// Pattern of 0.015.
pub const P0_015: u32 = 0x3c75_c28f;

/// Pattern of 0.02.
pub const P0_02: u32 = 0x3ca3_d70a;

/// Pattern of 0.025.
pub const P0_025: u32 = 0x3ccc_cccd;

/// Pattern of 0.03.
pub const P0_03: u32 = 0x3cf5_c28f;

/// Pattern of 0.035.
pub const P0_035: u32 = 0x3d0f_5c29;

/// Pattern of 0.04.
pub const P0_04: u32 = 0x3d23_d70a;

/// Pattern of 0.05.
pub const P0_05: u32 = 0x3d4c_cccd;

/// Pattern of 0.06.
pub const P0_06: u32 = 0x3d75_c28f;

/// Pattern of 0.07.
pub const P0_07: u32 = 0x3d8f_5c29;

/// Pattern of 0.08.
pub const P0_08: u32 = 0x3da3_d70a;

/// Pattern of 0.09.
pub const P0_09: u32 = 0x3db8_51ec;

/// Pattern of 0.1.
pub const P0_1: u32 = 0x3dcc_cccd;

/// Pattern of 0.12.
pub const P0_12: u32 = 0x3df5_c28f;

/// Pattern of 0.14.
pub const P0_14: u32 = 0x3e0f_5c29;

/// Pattern of 0.15.
pub const P0_15: u32 = 0x3e19_999a;

/// Pattern of 0.16.
pub const P0_16: u32 = 0x3e23_d70a;

/// Pattern of 0.18.
pub const P0_18: u32 = 0x3e38_51ec;

/// Pattern of 0.2.
pub const P0_2: u32 = 0x3e4c_cccd;

/// Pattern of 0.22.
pub const P0_22: u32 = 0x3e61_47ae;

/// Pattern of 0.25.
pub const P0_25: u32 = 0x3e80_0000;

/// Pattern of 0.28.
pub const P0_28: u32 = 0x3e8f_5c29;

/// Pattern of 0.3.
pub const P0_3: u32 = 0x3e99_999a;

/// Pattern of 0.35.
pub const P0_35: u32 = 0x3eb3_3333;

/// Pattern of 0.38.
pub const P0_38: u32 = 0x3ec2_8f5c;

/// Pattern of 0.4.
pub const P0_4: u32 = 0x3ecc_cccd;

/// Pattern of 0.45.
pub const P0_45: u32 = 0x3ee6_6666;

/// Pattern of 0.52.
pub const P0_52: u32 = 0x3f05_1eb8;

/// Pattern of 0.55.
pub const P0_55: u32 = 0x3f0c_cccd;

/// Pattern of 0.6.
pub const P0_6: u32 = 0x3f19_999a;

/// Pattern of 0.65.
pub const P0_65: u32 = 0x3f26_6666;

/// Pattern of 0.66.
pub const P0_66: u32 = 0x3f28_f5c3;

/// Pattern of 0.7.
pub const P0_7: u32 = 0x3f33_3333;

/// Pattern of 0.75.
pub const P0_75: u32 = 0x3f40_0000;

/// Pattern of 0.8.
pub const P0_8: u32 = 0x3f4c_cccd;

/// Pattern of 0.85.
pub const P0_85: u32 = 0x3f59_999a;

/// Pattern of 0.9.
pub const P0_9: u32 = 0x3f66_6666;

/// Pattern of 1.1.
pub const P1_1: u32 = 0x3f8c_cccd;

/// Pattern of 1.2.
pub const P1_2: u32 = 0x3f99_999a;

/// Pattern of 1.3.
pub const P1_3: u32 = 0x3fa6_6666;

/// Pattern of 1.4.
pub const P1_4: u32 = 0x3fb3_3333;

/// Pattern of 1.41.
pub const P1_41: u32 = 0x3fb4_7ae1;

/// Pattern of 1.5.
pub const P1_5: u32 = 0x3fc0_0000;

/// Pattern of 1.6.
pub const P1_6: u32 = 0x3fcc_cccd;

/// Pattern of 1.7.
pub const P1_7: u32 = 0x3fd9_999a;

/// Pattern of 1.8.
pub const P1_8: u32 = 0x3fe6_6666;

/// Pattern of 2.2.
pub const P2_2: u32 = 0x400c_cccd;

/// Pattern of 2.41.
pub const P2_41: u32 = 0x401a_3d71;

/// Pattern of 2.5.
pub const P2_5: u32 = 0x4020_0000;

/// Pattern of 2.8.
pub const P2_8: u32 = 0x4033_3333;

/// Pattern of 4.
pub const P4: u32 = 0x4080_0000;

/// Pattern of 5.
pub const P5: u32 = 0x40a0_0000;

/// Pattern of 7.
pub const P7: u32 = 0x40e0_0000;

/// Pattern of 8.
pub const P8: u32 = 0x4100_0000;

/// Pattern of 10.
pub const P10: u32 = 0x4120_0000;

/// Pattern of 12.
pub const P12: u32 = 0x4140_0000;

/// Pattern of 18.
pub const P18: u32 = 0x4190_0000;

/// Pattern of 24.
pub const P24: u32 = 0x41c0_0000;

/// Pattern of 29.7.
pub const P29_7: u32 = 0x41ed_999a;

/// Pattern of 32.
pub const P32: u32 = 0x4200_0000;

/// Pattern of 37.1.
pub const P37_1: u32 = 0x4214_6666;

/// Pattern of 40.
pub const P40: u32 = 0x4220_0000;

/// Pattern of 41.1.
pub const P41_1: u32 = 0x4224_6666;

/// Pattern of 43.7.
pub const P43_7: u32 = 0x422e_cccd;

/// Pattern of 45.
pub const P45: u32 = 0x4234_0000;

/// Pattern of 50.
pub const P50: u32 = 0x4248_0000;

/// Pattern of 60.
pub const P60: u32 = 0x4270_0000;

/// Pattern of 70.
pub const P70: u32 = 0x428c_0000;

/// Pattern of 80.
pub const P80: u32 = 0x42a0_0000;

/// Pattern of 90.
pub const P90: u32 = 0x42b4_0000;

/// Pattern of 95.
pub const P95: u32 = 0x42be_0000;

/// Pattern of 110.
pub const P110: u32 = 0x42dc_0000;

/// Pattern of 120.
pub const P120: u32 = 0x42f0_0000;

/// Pattern of 130.
pub const P130: u32 = 0x4302_0000;

/// Pattern of 140.
pub const P140: u32 = 0x430c_0000;

/// Pattern of 150.
pub const P150: u32 = 0x4316_0000;

/// Pattern of 160.
pub const P160: u32 = 0x4320_0000;

/// Pattern of 180.
pub const P180: u32 = 0x4334_0000;

/// Pattern of 190.
pub const P190: u32 = 0x433e_0000;

/// Pattern of 220.
pub const P220: u32 = 0x435c_0000;

/// Pattern of 250.
pub const P250: u32 = 0x437a_0000;

/// Pattern of 260.
pub const P260: u32 = 0x4382_0000;

/// Pattern of 300.
pub const P300: u32 = 0x4396_0000;

/// Pattern of 320.
pub const P320: u32 = 0x43a0_0000;

/// Pattern of 350.
pub const P350: u32 = 0x43af_0000;

/// Pattern of 400.
pub const P400: u32 = 0x43c8_0000;

/// Pattern of 410.
pub const P410: u32 = 0x43cd_0000;

/// Pattern of 500.
pub const P500: u32 = 0x43fa_0000;

/// Pattern of 520.
pub const P520: u32 = 0x4402_0000;

/// Pattern of 660.
pub const P660: u32 = 0x4425_0000;

/// Pattern of 760.
pub const P760: u32 = 0x443e_0000;

/// Pattern of 880.
pub const P880: u32 = 0x445c_0000;

/// Pattern of 900.
pub const P900: u32 = 0x4461_0000;

/// Pattern of 990.
pub const P990: u32 = 0x4477_8000;

/// Pattern of 1000.
pub const P1000: u32 = 0x447a_0000;

/// Pattern of 1100.
pub const P1100: u32 = 0x4489_8000;

/// Pattern of 1130.
pub const P1130: u32 = 0x448d_4000;

/// Pattern of 1200.
pub const P1200: u32 = 0x4496_0000;

/// Pattern of 1320.
pub const P1320: u32 = 0x44a5_0000;

/// Pattern of 1400.
pub const P1400: u32 = 0x44af_0000;

/// Pattern of 1500.
pub const P1500: u32 = 0x44bb_8000;

/// Pattern of 1600.
pub const P1600: u32 = 0x44c8_0000;

/// Pattern of 1800.
pub const P1800: u32 = 0x44e1_0000;

/// Pattern of 1900.
pub const P1900: u32 = 0x44ed_8000;

/// Pattern of 2000.
pub const P2000: u32 = 0x44fa_0000;

/// Pattern of 2100.
pub const P2100: u32 = 0x4503_4000;

/// Pattern of 2200.
pub const P2200: u32 = 0x4509_8000;

/// Pattern of 2210.
pub const P2210: u32 = 0x450a_2000;

/// Pattern of 2500.
pub const P2500: u32 = 0x451c_4000;

/// Pattern of 2800.
pub const P2800: u32 = 0x452f_0000;

/// Pattern of 3000.
pub const P3000: u32 = 0x453b_8000;

/// Pattern of 3660.
pub const P3660: u32 = 0x4564_c000;

/// Pattern of 3800.
pub const P3800: u32 = 0x456d_8000;

/// Pattern of 4000.
pub const P4000: u32 = 0x457a_0000;

/// Pattern of 4200.
pub const P4200: u32 = 0x4583_4000;

/// Pattern of 4500.
pub const P4500: u32 = 0x458c_a000;

/// Pattern of 5000.
pub const P5000: u32 = 0x459c_4000;

/// Pattern of 6000.
pub const P6000: u32 = 0x45bb_8000;

/// Pattern of 6500.
pub const P6500: u32 = 0x45cb_2000;

/// Pattern of 7000.
pub const P7000: u32 = 0x45da_c000;

/// Pattern of 18000.
pub const P18000: u32 = 0x468c_a000;

pub const MAX_LAYERS: usize = 8;

/// What a layer is made of.
#[derive(Clone, Copy, Debug, PartialEq, Eq, Structural)]
pub enum Src {
    White,
    Pink,
    Tone(Waveform),
    /// A shower of short filtered clicks at random pitches: sparks, shrapnel, rubble.
    Debris,
}

impl Src {
    /// Waveform of a tone.
    pub open spec fn voice(self) -> Waveform {
        match self {
            Src::Tone(w) => w,
            _ => Waveform::Sine,
        }
    }

    fn is_tone(self) -> (r: bool)
        ensures
            r == (self is Tone),
    {
        match self {
            Src::Tone(_) => true,
            _ => false,
        }
    }

    fn wave(self) -> (r: Waveform)
        ensures
            r == self.voice(),
    {
        match self {
            Src::Tone(w) => w,
            _ => Waveform::Sine,
        }
    }
}

/// One component of an effect. Times in seconds, frequencies in Hz.
#[derive(Clone, Copy, Debug, PartialEq, Eq, Structural)]
pub struct Layer {
    pub src: Src,
    pub delay: Single,
    pub attack: Single,
    pub hold: Single,
    /// Time for the layer to fall 60 dB after the hold.
    pub decay: Single,
    pub level: Single,
    /// Frequency glides from `f0` to `f1` with time constant `glide` (0 = stay at `f0`). It is
    /// the oscillator pitch for tones, the filter cutoff for noise, the centre pitch for debris.
    pub f0: Single,
    pub f1: Single,
    pub glide: Single,
    pub mode: FilterMode,
    pub q: Single,
    /// Sine tones only: FM modulator ratio and index (the index follows the envelope).
    pub fm_ratio: Single,
    pub fm: Single,
    /// Debris only: clicks per second at full level, and their pitch spread in octaves.
    pub rate: Single,
    pub spread: Single,
    pub drive: Single,
    /// How strongly `shape/variation` re-rolls this layer on each trigger.
    pub vary: Single,
}

impl Layer {
    /// Neutral layer that recipes start from.
    pub open spec fn neutral() -> Layer {
        Layer {
            src: Src::White,
            mode: FilterMode::LowPass,
            delay: Single::of(ZERO),
            attack: Single::of(ZERO),
            hold: Single::of(P0_01),
            decay: Single::of(P0_2),
            level: Single::of(ONE),
            f0: Single::of(P1000),
            f1: Single::of(P1000),
            glide: Single::of(ZERO),
            q: Single::of(P0_2),
            fm_ratio: Single::of(ONE),
            fm: Single::of(ZERO),
            rate: Single::of(ZERO),
            spread: Single::of(ZERO),
            drive: Single::of(ZERO),
            vary: Single::of(ONE),
        }
    }
}

impl Default for Layer {
    fn default() -> (r: Layer)
        ensures
            r == Layer::neutral(),
    {
        Layer {
            src: Src::White,
            mode: FilterMode::LowPass,
            delay: Single::of(ZERO),
            attack: Single::of(ZERO),
            hold: Single::of(P0_01),
            decay: Single::of(P0_2),
            level: Single::of(ONE),
            f0: Single::of(P1000),
            f1: Single::of(P1000),
            glide: Single::of(ZERO),
            q: Single::of(P0_2),
            fm_ratio: Single::of(ONE),
            fm: Single::of(ZERO),
            rate: Single::of(ZERO),
            spread: Single::of(ZERO),
            drive: Single::of(ZERO),
            vary: Single::of(ONE),
        }
    }
}

/// Macro controls shared by every one-shot effect. They bend the recipe rather than
/// replace it: 0.5 (or 1.0 for size, 0 for pitch) is the effect as designed.
#[derive(Clone, Copy, Debug, PartialEq, Eq, Structural)]
pub struct FxParams {
    pub size: Single,
    pub pitch: Single,
    pub brightness: Single,
    pub punch: Single,
    pub variation: Single,
    pub space: Single,
    pub tail: Single,
    pub gain: Single,
}

impl FxParams {
    pub open spec fn plain() -> FxParams {
        FxParams {
            size: Single::of(ONE),
            pitch: Single::of(ZERO),
            brightness: Single::of(HALF),
            punch: Single::of(HALF),
            variation: Single::of(HALF),
            space: Single::of(HALF),
            tail: Single::of(HALF),
            gain: Single::of(P0_9),
        }
    }
}

impl Default for FxParams {
    fn default() -> (r: FxParams)
        ensures
            r == FxParams::plain(),
    {
        FxParams {
            size: Single::of(ONE),
            pitch: Single::of(ZERO),
            brightness: Single::of(HALF),
            punch: Single::of(HALF),
            variation: Single::of(HALF),
            space: Single::of(HALF),
            tail: Single::of(HALF),
            gain: Single::of(P0_9),
        }
    }
}

/// Identifier of every tweakable value in [`FxParams`].
#[derive(Clone, Copy, Debug, PartialEq, Eq, Structural)]
pub enum FxParamId {
    Size,
    Pitch,
    Brightness,
    Punch,
    Variation,
    Space,
    Tail,
    Gain,
}

impl FxParamId {
    /// Number of parameters.
    pub const COUNT: usize = 8;

    /// Every parameter, in table order.
    pub open spec fn all() -> Seq<FxParamId> {
        seq![
            FxParamId::Size,
            FxParamId::Pitch,
            FxParamId::Brightness,
            FxParamId::Punch,
            FxParamId::Variation,
            FxParamId::Space,
            FxParamId::Tail,
            FxParamId::Gain,
        ]
    }

    /// Place in the table.
    pub open spec fn place(self) -> int {
        match self {
            FxParamId::Size => 0,
            FxParamId::Pitch => 1,
            FxParamId::Brightness => 2,
            FxParamId::Punch => 3,
            FxParamId::Variation => 4,
            FxParamId::Space => 5,
            FxParamId::Tail => 6,
            FxParamId::Gain => 7,
        }
    }

    pub open spec fn label(self) -> Seq<char> {
        match self {
            FxParamId::Size => "shape/size"@,
            FxParamId::Pitch => "shape/pitch_semitones"@,
            FxParamId::Brightness => "shape/brightness"@,
            FxParamId::Punch => "shape/punch"@,
            FxParamId::Variation => "shape/variation"@,
            FxParamId::Space => "space/amount"@,
            FxParamId::Tail => "space/tail"@,
            FxParamId::Gain => "master/gain"@,
        }
    }

    pub open spec fn range(self) -> ParamKind {
        match self {
            FxParamId::Size => ParamKind::Exp { min: Single::of(P0_25), max: Single::of(P4) },
            FxParamId::Pitch => ParamKind::Float { min: Single::of(N24), max: Single::of(P24), step: Single::of(P0_001) },
            FxParamId::Brightness => ParamKind::Float { min: Single::of(ZERO), max: Single::of(ONE), step: Single::of(P0_001) },
            FxParamId::Punch => ParamKind::Float { min: Single::of(ZERO), max: Single::of(ONE), step: Single::of(P0_001) },
            FxParamId::Variation => ParamKind::Float { min: Single::of(ZERO), max: Single::of(ONE), step: Single::of(P0_001) },
            FxParamId::Space => ParamKind::Float { min: Single::of(ZERO), max: Single::of(ONE), step: Single::of(P0_001) },
            FxParamId::Tail => ParamKind::Float { min: Single::of(ZERO), max: Single::of(ONE), step: Single::of(P0_001) },
            FxParamId::Gain => ParamKind::Float { min: Single::of(ZERO), max: Single::of(TWO), step: Single::of(P0_001) },
        }
    }

    /// The parameter at a place of the table, if there is one.
    pub fn from_index(i: usize) -> (r: Option<FxParamId>)
        ensures
            r == if i < 8 {
                Some(FxParamId::all()[i as int])
            } else {
                None
            },
    {
        if i < 8 {
            Some(FxParamId::nth(i))
        } else {
            None
        }
    }

    /// The parameter at a place of the table.
    pub fn nth(i: usize) -> (r: FxParamId)
        requires
            i < 8,
        ensures
            r == FxParamId::all()[i as int],
            r.place() == i,
    {
        match i {
            0 => FxParamId::Size,
            1 => FxParamId::Pitch,
            2 => FxParamId::Brightness,
            3 => FxParamId::Punch,
            4 => FxParamId::Variation,
            5 => FxParamId::Space,
            6 => FxParamId::Tail,
            _ => FxParamId::Gain,
        }
    }

    pub fn index(self) -> (r: usize)
        ensures
            r == self.place(),
            r < 8,
    {
        match self {
            FxParamId::Size => 0,
            FxParamId::Pitch => 1,
            FxParamId::Brightness => 2,
            FxParamId::Punch => 3,
            FxParamId::Variation => 4,
            FxParamId::Space => 5,
            FxParamId::Tail => 6,
            FxParamId::Gain => 7,
        }
    }

    pub fn name(self) -> (r: &'static str)
        ensures
            r@ == self.label(),
    {
        match self {
            FxParamId::Size => "shape/size",
            FxParamId::Pitch => "shape/pitch_semitones",
            FxParamId::Brightness => "shape/brightness",
            FxParamId::Punch => "shape/punch",
            FxParamId::Variation => "shape/variation",
            FxParamId::Space => "space/amount",
            FxParamId::Tail => "space/tail",
            FxParamId::Gain => "master/gain",
        }
    }

    pub fn kind(self) -> (r: ParamKind)
        ensures
            r == self.range(),
            r.wf(),
    {
        match self {
            FxParamId::Size => ParamKind::Exp { min: Single::of(P0_25), max: Single::of(P4) },
            FxParamId::Pitch => ParamKind::Float { min: Single::of(N24), max: Single::of(P24), step: Single::of(P0_001) },
            FxParamId::Brightness => ParamKind::Float { min: Single::of(ZERO), max: Single::of(ONE), step: Single::of(P0_001) },
            FxParamId::Punch => ParamKind::Float { min: Single::of(ZERO), max: Single::of(ONE), step: Single::of(P0_001) },
            FxParamId::Variation => ParamKind::Float { min: Single::of(ZERO), max: Single::of(ONE), step: Single::of(P0_001) },
            FxParamId::Space => ParamKind::Float { min: Single::of(ZERO), max: Single::of(ONE), step: Single::of(P0_001) },
            FxParamId::Tail => ParamKind::Float { min: Single::of(ZERO), max: Single::of(ONE), step: Single::of(P0_001) },
            FxParamId::Gain => ParamKind::Float { min: Single::of(ZERO), max: Single::of(TWO), step: Single::of(P0_001) },
        }
    }

    /// The parameter with a name.
    pub fn from_name(name: &str) -> (r: Option<FxParamId>)
        ensures
            match r {
                Some(id) => id.label() == name@,
                None => forall|id: FxParamId| (#[trigger] id.label()) != name@,
            },
    {
        let mut i: usize = 0;
        while i < 8
            invariant
                i <= 8,
                forall|id: FxParamId| id.place() < i ==> (#[trigger] id.label()) != name@,
            decreases 8 - i,
        {
            let id = FxParamId::nth(i);
            if equal(id.name(), name) {
                return Some(id);
            }
            proof {
                assert forall|other: FxParamId| other.place() < i + 1 implies (#[trigger] other.label()) != name@ by {
                    if other.place() == i {
                        assert(FxParamId::all()[other.place()] == other);
                    }
                }
            }
            i = i + 1;
        }
        None
    }
}

impl FxParams {
    /// Value of a parameter; names count by their index.
    pub open spec fn value(self, id: FxParamId) -> Single {
        match id {
            FxParamId::Size => self.size,
            FxParamId::Pitch => self.pitch,
            FxParamId::Brightness => self.brightness,
            FxParamId::Punch => self.punch,
            FxParamId::Variation => self.variation,
            FxParamId::Space => self.space,
            FxParamId::Tail => self.tail,
            FxParamId::Gain => self.gain,
        }
    }

    /// With a parameter set to the nearest value it can take.
    pub open spec fn with(self, id: FxParamId, v: Single) -> FxParams {
        match id {
            FxParamId::Size => FxParams { size: id.range().clamped(v), ..self },
            FxParamId::Pitch => FxParams { pitch: id.range().clamped(v), ..self },
            FxParamId::Brightness => FxParams { brightness: id.range().clamped(v), ..self },
            FxParamId::Punch => FxParams { punch: id.range().clamped(v), ..self },
            FxParamId::Variation => FxParams { variation: id.range().clamped(v), ..self },
            FxParamId::Space => FxParams { space: id.range().clamped(v), ..self },
            FxParamId::Tail => FxParams { tail: id.range().clamped(v), ..self },
            FxParamId::Gain => FxParams { gain: id.range().clamped(v), ..self },
        }
    }

    pub fn get(&self, id: FxParamId) -> (r: Single)
        ensures
            r == self.value(id),
    {
        match id {
            FxParamId::Size => self.size,
            FxParamId::Pitch => self.pitch,
            FxParamId::Brightness => self.brightness,
            FxParamId::Punch => self.punch,
            FxParamId::Variation => self.variation,
            FxParamId::Space => self.space,
            FxParamId::Tail => self.tail,
            FxParamId::Gain => self.gain,
        }
    }

    /// Set a parameter to the nearest value it can take; what is no number is ignored.
    pub fn set(&mut self, id: FxParamId, v: Single)
        ensures
            *final(self) == if v.finite() {
                old(self).with(id, v)
            } else {
                *old(self)
            },
    {
        if !v.is_finite() {
            return;
        }
        match id {
            FxParamId::Size => {
                self.size = id.kind().clamp(v);
            },
            FxParamId::Pitch => {
                self.pitch = id.kind().clamp(v);
            },
            FxParamId::Brightness => {
                self.brightness = id.kind().clamp(v);
            },
            FxParamId::Punch => {
                self.punch = id.kind().clamp(v);
            },
            FxParamId::Variation => {
                self.variation = id.kind().clamp(v);
            },
            FxParamId::Space => {
                self.space = id.kind().clamp(v);
            },
            FxParamId::Tail => {
                self.tail = id.kind().clamp(v);
            },
            FxParamId::Gain => {
                self.gain = id.kind().clamp(v);
            },
        }
    }
}

/// A parameter that was set has the nearest value it can take.
pub proof fn lemma_fxparams_set_get(p: FxParams, id: FxParamId, v: Single)
    requires
        v.finite(),
    ensures
        p.with(id, v).value(id) == id.range().clamped(v),
{
}


/// Setting a parameter leaves every other one what it was.
#[verifier::rlimit(30)]
pub proof fn lemma_fxparams_set_keeps_others(p: FxParams, id: FxParamId, other: FxParamId, v: Single)
    requires
        other != id,
    ensures
        p.with(id, v).value(other) == p.value(other),
{
}

/// Length and some letters of a name.
spec fn fxparamid_sign(id: FxParamId) -> (int, char) {
    match id {
        FxParamId::Size => (10, 'h'),
        FxParamId::Pitch => (21, 'h'),
        FxParamId::Brightness => (16, 'h'),
        FxParamId::Punch => (11, 'h'),
        FxParamId::Variation => (15, 'h'),
        FxParamId::Space => (12, 'p'),
        FxParamId::Tail => (10, 'p'),
        FxParamId::Gain => (11, 'a'),
    }
}

#[verifier::rlimit(60)]
proof fn lemma_fxparamid_sign(id: FxParamId)
    ensures
        id.label().len() == fxparamid_sign(id).0,
        fxparamid_sign(id).0 > 1 ==> id.label()[1] == fxparamid_sign(id).1,
{
    reveal_strlit("shape/size");
    reveal_strlit("shape/pitch_semitones");
    reveal_strlit("shape/brightness");
    reveal_strlit("shape/punch");
    reveal_strlit("shape/variation");
    reveal_strlit("space/amount");
    reveal_strlit("space/tail");
    reveal_strlit("master/gain");
}

/// Names tell the parameters apart, so looking up a parameter's name gives the parameter.
pub proof fn lemma_fxparamid_names_differ(a: FxParamId, b: FxParamId)
    requires
        a.label() == b.label(),
    ensures
        a == b,
{
    lemma_fxparamid_sign(a);
    lemma_fxparamid_sign(b);
}

impl Params for FxParams {
    open spec fn plain_params() -> FxParams {
        FxParams::plain()
    }

    open spec fn param_count() -> nat {
        FxParamId::COUNT as nat
    }

    open spec fn label_at(i: int) -> Seq<char> {
        FxParamId::all()[i].label()
    }

    open spec fn range_at(i: int) -> ParamKind {
        FxParamId::all()[i].range()
    }

    open spec fn value_at(self, i: int) -> Single {
        self.value(FxParamId::all()[i])
    }

    open spec fn with_at(self, i: int, v: Single) -> FxParams {
        self.with(FxParamId::all()[i], v)
    }

    proof fn lemma_set_at_reads_back(self, i: int, v: Single) {
        lemma_fxparams_set_get(self, FxParamId::all()[i], v);
    }

    proof fn lemma_set_at_keeps_others(self, i: int, j: int, v: Single) {
        assert(FxParamId::all()[i].place() == i);
        assert(FxParamId::all()[j].place() == j);
        lemma_fxparams_set_keeps_others(self, FxParamId::all()[i], FxParamId::all()[j], v);
    }

    fn default_params() -> (r: FxParams) {
        FxParams::default()
    }

    fn count() -> (r: usize) {
        FxParamId::COUNT
    }

    fn name_at(i: usize) -> (r: &'static str) {
        FxParamId::nth(i).name()
    }

    fn kind_at(i: usize) -> (r: ParamKind) {
        FxParamId::nth(i).kind()
    }

    fn get_at(&self, i: usize) -> (r: Single) {
        self.get(FxParamId::nth(i))
    }

    fn set_at(&mut self, i: usize, v: Single) {
        self.set(FxParamId::nth(i), v);
    }
}

/// The bits of a seed spread over a word, so that neighbouring seeds give unrelated streams.
pub open spec fn mixed_seed(seed: u32) -> u32 {
    let a = (seed ^ (seed >> 16u32)).wrapping_mul(0x7feb_352d);
    let b = (a ^ (a >> 15u32)).wrapping_mul(0x846c_a68b);
    b ^ (b >> 16u32)
}

pub fn mix_seed(seed: u32) -> (r: u32)
    ensures
        r == mixed_seed(seed),
{
    let a = (seed ^ (seed >> 16u32)).wrapping_mul(0x7feb_352d);
    let b = (a ^ (a >> 15u32)).wrapping_mul(0x846c_a68b);
    b ^ (b >> 16u32)
}

/// A layer as it plays.
#[derive(Clone, Copy, Debug, PartialEq, Eq, Structural)]
pub struct Lane {
    pub on: bool,
    /// Seconds since this layer's start (negative while delayed).
    pub t: Single,
    pub pitch: Single,
    pub time: Single,
    pub level: Single,
    pub phase: Single,
    pub fm_phase: Single,
    pub burst: Single,
    /// Grain that the last click rang.
    pub next: u8,
    pub filter: Svf,
    pub grain0: Svf,
    pub grain1: Svf,
    pub grain2: Svf,
    pub osc: Oscillator,
}

impl Lane {
    pub open spec fn idle(seed: u32) -> Lane {
        let (z, one) = (Single::of(ZERO), Single::of(ONE));
        Lane {
            on: false,
            t: z,
            pitch: one,
            time: one,
            level: one,
            phase: z,
            fm_phase: z,
            burst: z,
            next: 0,
            filter: Svf::silent(),
            grain0: Svf::silent(),
            grain1: Svf::silent(),
            grain2: Svf::silent(),
            osc: Oscillator::seeded_with(seed),
        }
    }

    fn new(seed: u32) -> (r: Lane)
        ensures
            r == Lane::idle(seed),
    {
        let (z, one) = (Single::of(ZERO), Single::of(ONE));
        Lane {
            on: false,
            t: z,
            pitch: one,
            time: one,
            level: one,
            phase: z,
            fm_phase: z,
            burst: z,
            next: 0,
            filter: Svf::default(),
            grain0: Svf::default(),
            grain1: Svf::default(),
            grain2: Svf::default(),
            osc: Oscillator::new(seed),
        }
    }
}

/// A layer with the noise and the dice it shares with the others.
#[derive(Clone, Copy, Debug, PartialEq, Eq, Structural)]
pub struct Strand {
    pub lane: Lane,
    pub noise: Noise,
    pub rng: Rng,
}

impl Strand {
    pub open spec fn wf(self) -> bool {
        self.lane.next < 3
    }
}

/// Settings of a layer within a block.
#[derive(Clone, Copy, Debug, PartialEq, Eq, Structural)]
pub struct LayerMix {
    pub dt: Single,
    pub attack: Single,
    pub hold: Single,
    pub decay: Single,
    pub hz: Single,
    pub level: Single,
    pub drive: Single,
    pub sr: Single,
    pub size: Single,
    pub bright: Single,
    pub burst_decay: Single,
}

/// One sample of a layer added to `v`.
#[verifier::opaque]
pub open spec fn strand_tick(f: Sums, l: Layer, m: LayerMix, s: Strand, v: Single) -> (Strand, Single) {
    let s = Strand { lane: Lane { t: f(Prim::Add, s.lane.t, m.dt), ..s.lane }, ..s };
    let y = v;
    let (s, y) = if !s.lane.t.below(Single::of(ZERO)) {
        let env = (if s.lane.t.below(m.attack) { f(Prim::Div, s.lane.t, m.attack) } else { (if s.lane.t.below(f(Prim::Add, m.attack, m.hold)) { Single::of(ONE) } else { f(Prim::Exp, f(Prim::Div, f(Prim::Mul, Single::of(N6_9), f(Prim::Sub, f(Prim::Sub, s.lane.t, m.attack), m.hold)), m.decay), Single::of(ZERO)) }) });
        let heard = Single::of(ZERO);
        let (s, heard) = if l.src == Src::White {
            let w = s.noise.draw();
            let s = Strand { noise: Noise { rng: s.noise.rng.advanced(), ..s.noise }, ..s };
            let heard = s.lane.filter.output(f, w);
            let s = Strand { lane: Lane { filter: s.lane.filter.fed(f, w), ..s.lane }, ..s };
            (s, heard)
        } else {
            let (s, heard) = if l.src == Src::Pink {
                let pk = s.noise.pink.output(f, s.noise.draw());
                let s = Strand { noise: Noise { rng: s.noise.rng.advanced(), pink: s.noise.pink.fed(f, s.noise.draw()) }, ..s };
                let heard = s.lane.filter.output(f, f(Prim::Mul, pk, Single::of(THREE)));
                let s = Strand { lane: Lane { filter: s.lane.filter.fed(f, f(Prim::Mul, pk, Single::of(THREE))), ..s.lane }, ..s };
                (s, heard)
            } else {
                let (s, heard) = if l.src == Src::Tone(Waveform::Sine) {
                    let s = Strand { lane: Lane { phase: f(Prim::Fract, f(Prim::Add, s.lane.phase, f(Prim::Div, m.hz, m.sr)), Single::of(ZERO)), ..s.lane }, ..s };
                    let s = Strand { lane: Lane { fm_phase: f(Prim::Fract, f(Prim::Add, s.lane.fm_phase, f(Prim::Div, f(Prim::Mul, m.hz, l.fm_ratio), m.sr)), Single::of(ZERO)), ..s.lane }, ..s };
                    let heard = f(Prim::Sin, f(Prim::Mul, Single::of(TAU), f(Prim::Add, s.lane.phase, f(Prim::Div, f(Prim::Mul, f(Prim::Mul, l.fm, env), f(Prim::Sin, f(Prim::Mul, s.lane.fm_phase, Single::of(TAU)), Single::of(ZERO))), Single::of(TAU)))), Single::of(ZERO));
                    (s, heard)
                } else {
                    let (s, heard) = if l.src is Tone {
                        let heard = s.lane.osc.sample(f, l.src.voice(), f(Prim::Div, m.hz, m.sr), Single::of(HALF));
                        let s = Strand { lane: Lane { osc: s.lane.osc.moved(f, l.src.voice(), f(Prim::Div, m.hz, m.sr)), ..s.lane }, ..s };
                        (s, heard)
                    } else {
                        let chance = crate::math::unipolar(s.rng.fraction());
                        let s = Strand { rng: s.rng.advanced(), ..s };
                        let s = if chance.below(f(Prim::Div, f(Prim::Mul, l.rate, env), f(Prim::Mul, m.sr, m.size.larger(Single::of(P0_3))))) {
                            let kick = crate::math::drawn_from(f, Single::of(P0_4), Single::of(ONE), crate::math::unipolar(s.rng.fraction()));
                            let s = Strand { rng: s.rng.advanced(), ..s };
                            let s = Strand { lane: Lane { burst: kick, ..s.lane }, ..s };
                            let s = Strand { lane: Lane { next: ((s.lane.next + 1) % 3) as u8, ..s.lane }, ..s };
                            let bend = crate::math::bipolar(s.rng.fraction());
                            let s = Strand { rng: s.rng.advanced(), ..s };
                            let spot = f(Prim::Mul, f(Prim::Mul, m.hz, f(Prim::Exp2, f(Prim::Mul, bend, l.spread), Single::of(ZERO))), f(Prim::Sqrt, m.bright, Single::of(ZERO)));
                            let s = if s.lane.next == 0 {
                                let s = Strand { lane: Lane { grain0: s.lane.grain0.tuned(f, FilterMode::BandPass, spot.within(Single::of(P40), f(Prim::Mul, m.sr, Single::of(P0_45))), l.q, m.sr), ..s.lane }, ..s };
                                s
                            } else {
                                let s = if s.lane.next == 1 {
                                    let s = Strand { lane: Lane { grain1: s.lane.grain1.tuned(f, FilterMode::BandPass, spot.within(Single::of(P40), f(Prim::Mul, m.sr, Single::of(P0_45))), l.q, m.sr), ..s.lane }, ..s };
                                    s
                                } else {
                                    let s = Strand { lane: Lane { grain2: s.lane.grain2.tuned(f, FilterMode::BandPass, spot.within(Single::of(P40), f(Prim::Mul, m.sr, Single::of(P0_45))), l.q, m.sr), ..s.lane }, ..s };
                                    s
                                };
                                s
                            };
                            s
                        } else {
                            s
                        };
                        let s = Strand { lane: Lane { burst: f(Prim::Mul, s.lane.burst, m.burst_decay), ..s.lane }, ..s };
                        let w = s.noise.draw();
                        let s = Strand { noise: Noise { rng: s.noise.rng.advanced(), ..s.noise }, ..s };
                        let click = f(Prim::Mul, w, s.lane.burst);
                        let a = s.lane.grain0.output(f, (if s.lane.next == 0 { click } else { Single::of(ZERO) }));
                        let s = Strand { lane: Lane { grain0: s.lane.grain0.fed(f, (if s.lane.next == 0 { click } else { Single::of(ZERO) })), ..s.lane }, ..s };
                        let b = s.lane.grain1.output(f, (if s.lane.next == 1 { click } else { Single::of(ZERO) }));
                        let s = Strand { lane: Lane { grain1: s.lane.grain1.fed(f, (if s.lane.next == 1 { click } else { Single::of(ZERO) })), ..s.lane }, ..s };
                        let c = s.lane.grain2.output(f, (if s.lane.next == 2 { click } else { Single::of(ZERO) }));
                        let s = Strand { lane: Lane { grain2: s.lane.grain2.fed(f, (if s.lane.next == 2 { click } else { Single::of(ZERO) })), ..s.lane }, ..s };
                        let heard = f(Prim::Mul, f(Prim::Add, f(Prim::Add, f(Prim::Add, Single::of(ZERO), a), b), c), Single::of(THREE));
                        (s, heard)
                    };
                    (s, heard)
                };
                (s, heard)
            };
            (s, heard)
        };
        let driven = (if Single::of(ZERO).below(l.drive) { f(Prim::Div, crate::math::saturated(f, f(Prim::Mul, heard, m.drive)), f(Prim::Add, Single::of(ONE), f(Prim::Mul, Single::of(P0_12), m.drive))) } else { heard });
        let y = f(Prim::Add, v, f(Prim::Mul, f(Prim::Mul, driven, env), m.level));
        (s, y)
    } else {
        (s, y)
    };
    (s, y)
}

/// The same for a run of samples.
pub open spec fn strand_run(f: Sums, l: Layer, m: LayerMix, s: Strand, x: Seq<Single>) -> (Strand, Seq<Single>)
    decreases x.len(),
{
    if x.len() == 0 {
        (s, seq![])
    } else {
        let (t, out) = strand_run(f, l, m, s, x.drop_last());
        let (u, y) = strand_tick(f, l, m, t, x.last());
        (u, out.push(y))
    }
}

fn strand_sample<F: Fn(Prim, Single, Single) -> Single>(fpu: &F, l: Layer, m: LayerMix, s: &mut Strand, v: Single) -> (y: Single)
    requires
        total(*fpu),
        old(s).wf(),
    ensures
        final(s).wf(),
        forall|f: Sums| #[trigger] meant(*fpu, f) ==> (*final(s), y) == strand_tick(f, l, m, *old(s), v),
{
    proof {
        reveal(strand_tick);
    }
    s.lane.t = fpu(Prim::Add, s.lane.t, m.dt);
    let mut y = v;
    if !s.lane.t.lt(Single::of(ZERO)) {
        let env = (if s.lane.t.lt(m.attack) { fpu(Prim::Div, s.lane.t, m.attack) } else { (if s.lane.t.lt(fpu(Prim::Add, m.attack, m.hold)) { Single::of(ONE) } else { fpu(Prim::Exp, fpu(Prim::Div, fpu(Prim::Mul, Single::of(N6_9), fpu(Prim::Sub, fpu(Prim::Sub, s.lane.t, m.attack), m.hold)), m.decay), Single::of(ZERO)) }) });
        let mut heard = Single::of(ZERO);
        if l.src == Src::White {
            let mut w = s.noise.white();
            heard = s.lane.filter.tick(fpu, w);
        } else {
            if l.src == Src::Pink {
                let pk = s.noise.pink(fpu);
                heard = s.lane.filter.tick(fpu, fpu(Prim::Mul, pk, Single::of(THREE)));
            } else {
                if l.src == Src::Tone(Waveform::Sine) {
                    s.lane.phase = fpu(Prim::Fract, fpu(Prim::Add, s.lane.phase, fpu(Prim::Div, m.hz, m.sr)), Single::of(ZERO));
                    s.lane.fm_phase = fpu(Prim::Fract, fpu(Prim::Add, s.lane.fm_phase, fpu(Prim::Div, fpu(Prim::Mul, m.hz, l.fm_ratio), m.sr)), Single::of(ZERO));
                    heard = fpu(Prim::Sin, fpu(Prim::Mul, Single::of(TAU), fpu(Prim::Add, s.lane.phase, fpu(Prim::Div, fpu(Prim::Mul, fpu(Prim::Mul, l.fm, env), fpu(Prim::Sin, fpu(Prim::Mul, s.lane.fm_phase, Single::of(TAU)), Single::of(ZERO))), Single::of(TAU)))), Single::of(ZERO));
                } else {
                    if l.src.is_tone() {
                        heard = s.lane.osc.next(fpu, l.src.wave(), fpu(Prim::Div, m.hz, m.sr), Single::of(HALF));
                    } else {
                        let chance = s.rng.next_f32();
                        if chance.lt(fpu(Prim::Div, fpu(Prim::Mul, l.rate, env), fpu(Prim::Mul, m.sr, m.size.max(Single::of(P0_3))))) {
                            let kick = s.rng.range(fpu, Single::of(P0_4), Single::of(ONE));
                            s.lane.burst = kick;
                            s.lane.next = (s.lane.next + 1) % 3;
                            let bend = s.rng.next_bipolar();
                            let spot = fpu(Prim::Mul, fpu(Prim::Mul, m.hz, fpu(Prim::Exp2, fpu(Prim::Mul, bend, l.spread), Single::of(ZERO))), fpu(Prim::Sqrt, m.bright, Single::of(ZERO)));
                            if s.lane.next == 0 {
                                s.lane.grain0.set(fpu, FilterMode::BandPass, spot.clamp(Single::of(P40), fpu(Prim::Mul, m.sr, Single::of(P0_45))), l.q, m.sr);
                            } else {
                                if s.lane.next == 1 {
                                    s.lane.grain1.set(fpu, FilterMode::BandPass, spot.clamp(Single::of(P40), fpu(Prim::Mul, m.sr, Single::of(P0_45))), l.q, m.sr);
                                } else {
                                    s.lane.grain2.set(fpu, FilterMode::BandPass, spot.clamp(Single::of(P40), fpu(Prim::Mul, m.sr, Single::of(P0_45))), l.q, m.sr);
                                }
                            }
                        }
                        s.lane.burst = fpu(Prim::Mul, s.lane.burst, m.burst_decay);
                        let mut w = s.noise.white();
                        let click = fpu(Prim::Mul, w, s.lane.burst);
                        let a = s.lane.grain0.tick(fpu, (if s.lane.next == 0 { click } else { Single::of(ZERO) }));
                        let b = s.lane.grain1.tick(fpu, (if s.lane.next == 1 { click } else { Single::of(ZERO) }));
                        let c = s.lane.grain2.tick(fpu, (if s.lane.next == 2 { click } else { Single::of(ZERO) }));
                        heard = fpu(Prim::Mul, fpu(Prim::Add, fpu(Prim::Add, fpu(Prim::Add, Single::of(ZERO), a), b), c), Single::of(THREE));
                    }
                }
            }
        }
        let driven = (if Single::of(ZERO).lt(l.drive) { fpu(Prim::Div, soft_clip(fpu, fpu(Prim::Mul, heard, m.drive)), fpu(Prim::Add, Single::of(ONE), fpu(Prim::Mul, Single::of(P0_12), m.drive))) } else { heard });
        y = fpu(Prim::Add, v, fpu(Prim::Mul, fpu(Prim::Mul, driven, env), m.level));
    }
    y
}

fn strand_span<F: Fn(Prim, Single, Single) -> Single>(fpu: &F, l: Layer, m: LayerMix, s: &mut Strand, buf: &mut Vec<Single>, start: usize, end: usize)
    requires
        total(*fpu),
        start <= end <= old(buf)@.len(),
        old(s).wf(),
    ensures
        final(buf)@.len() == old(buf)@.len(),
        same_outside(old(buf)@, final(buf)@, start as int, end as int),
        final(s).wf(),
        forall|f: Sums| #[trigger] meant(*fpu, f) ==> (*final(s), final(buf)@.subrange(start as int, end as int)) == strand_run(
            f, l, m,
            *old(s),
            old(buf)@.subrange(start as int, end as int),
        ),
{
    let mut i: usize = start;
    let ghost before = buf@;
    assert(before.subrange(start as int, start as int) =~= seq![]);
    while i < end
        invariant
            start <= i <= end <= buf@.len(),
            buf@.len() == before.len(),
            before == old(buf)@,
            same_outside(before, buf@, start as int, i as int),
            total(*fpu),
            s.wf(),
            forall|f: Sums| #[trigger] meant(*fpu, f) ==> (*s, buf@.subrange(start as int, i as int)) == strand_run(
                f, l, m,
                *old(s),
                before.subrange(start as int, i as int),
            ),
        decreases end - i,
    {
        let ghost last = buf@;
        let y = strand_sample(fpu, l, m, s, buf[i]);
        buf.set(i, y);
        i = i + 1;
        assert(before.subrange(start as int, i as int).drop_last() =~= before.subrange(start as int, i - 1));
        assert(buf@.subrange(start as int, i as int) =~= last.subrange(start as int, i - 1).push(y));
    }
}

/// Settings of the whole effect within a block.
#[derive(Clone, Copy, Debug, PartialEq, Eq, Structural)]
pub struct Scene {
    pub sr: Single,
    pub size: Single,
    pub tune: Single,
    pub bright: Single,
}

/// Settings of a layer within a block.
pub open spec fn layer_mix(f: Sums, l: Layer, p: FxParams, c: Scene, lane: Lane) -> LayerMix {
    let (sr, size) = (c.sr, c.size);
    let scale = f(Prim::Mul, size, lane.time);
    let t_mid = lane.t.larger(Single::of(ZERO));
    let glide = if Single::of(ZERO).below(l.glide) {
        f(Prim::Exp, f(Prim::Div, t_mid.negated(), f(Prim::Mul, l.glide, scale)), Single::of(ZERO))
    } else {
        Single::of(ONE)
    };
    LayerMix {
        dt: f(Prim::Div, Single::of(ONE), sr),
        attack: f(Prim::Mul, l.attack, scale),
        hold: f(Prim::Mul, l.hold, scale),
        decay: f(Prim::Mul, l.decay, scale).larger(Single::of(P0_001)),
        hz: f(Prim::Mul, f(Prim::Mul, f(Prim::Add, l.f1, f(Prim::Mul, f(Prim::Sub, l.f0, l.f1), glide)), lane.pitch), c.tune).within(Single::of(P18), f(Prim::Mul, sr, Single::of(P0_45))),
        level: f(Prim::Mul, l.level, lane.level),
        drive: f(Prim::Add, Single::of(ONE), f(Prim::Mul, f(Prim::Mul, l.drive, f(Prim::Add, Single::of(HALF), p.punch)), Single::of(P8))),
        sr,
        size,
        bright: c.bright,
        burst_decay: f(Prim::Exp, f(Prim::Div, Single::of(N1), f(Prim::Mul, Single::of(P0_003), sr)), Single::of(ZERO)),
    }
}

fn mix_layer<F: Fn(Prim, Single, Single) -> Single>(fpu: &F, l: &Layer, p: &FxParams, c: Scene, lane: &Lane) -> (r: LayerMix)
    requires
        total(*fpu),
    ensures
        forall|f: Sums| #[trigger] meant(*fpu, f) ==> r == layer_mix(f, *l, *p, c, *lane),
{
    let (sr, size) = (c.sr, c.size);
    let scale = fpu(Prim::Mul, size, lane.time);
    let t_mid = lane.t.max(Single::of(ZERO));
    let glide = if Single::of(ZERO).lt(l.glide) { fpu(Prim::Exp, fpu(Prim::Div, t_mid.neg(), fpu(Prim::Mul, l.glide, scale)), Single::of(ZERO)) } else { Single::of(ONE) };
    LayerMix {
        dt: fpu(Prim::Div, Single::of(ONE), sr),
        attack: fpu(Prim::Mul, l.attack, scale),
        hold: fpu(Prim::Mul, l.hold, scale),
        decay: fpu(Prim::Mul, l.decay, scale).max(Single::of(P0_001)),
        hz: fpu(Prim::Mul, fpu(Prim::Mul, fpu(Prim::Add, l.f1, fpu(Prim::Mul, fpu(Prim::Sub, l.f0, l.f1), glide)), lane.pitch), c.tune).clamp(Single::of(P18), fpu(Prim::Mul, sr, Single::of(P0_45))),
        level: fpu(Prim::Mul, l.level, lane.level),
        drive: fpu(Prim::Add, Single::of(ONE), fpu(Prim::Mul, fpu(Prim::Mul, l.drive, fpu(Prim::Add, Single::of(HALF), p.punch)), Single::of(P8))),
        sr,
        size,
        bright: c.bright,
        burst_decay: fpu(Prim::Exp, fpu(Prim::Div, Single::of(N1), fpu(Prim::Mul, Single::of(P0_003), sr)), Single::of(ZERO)),
    }
}

/// A layer after a block added to `x`, and the block.
#[verifier::opaque]
pub open spec fn layer_played(f: Sums, l: Layer, p: FxParams, c: Scene, s: Strand, x: Seq<Single>) -> (Strand, Seq<Single>) {
    let m = layer_mix(f, l, p, c, s.lane);
    let tuned = if l.src == Src::White || l.src == Src::Pink {
        s.lane.filter.tuned(f, l.mode, f(Prim::Mul, m.hz, m.bright).smaller(f(Prim::Mul, m.sr, Single::of(P0_45))), l.q, m.sr)
    } else {
        s.lane.filter
    };
    let (t, out) = strand_run(f, l, m, Strand { lane: Lane { filter: tuned, ..s.lane }, ..s }, x);
    let over = f(Prim::Add, f(Prim::Add, m.attack, m.hold), m.decay).below(t.lane.t);
    (Strand { lane: Lane { on: if over { false } else { t.lane.on }, ..t.lane }, ..t }, out)
}

fn play_layer<F: Fn(Prim, Single, Single) -> Single>(fpu: &F, l: &Layer, p: &FxParams, c: Scene, s: &mut Strand, out: &mut Vec<Single>, start: usize, end: usize)
    requires
        total(*fpu),
        old(s).wf(),
        start <= end <= old(out)@.len(),
    ensures
        final(s).wf(),
        same_outside(old(out)@, final(out)@, start as int, end as int),
        forall|f: Sums| #[trigger] meant(*fpu, f) ==> (*final(s), final(out)@.subrange(start as int, end as int)) == layer_played(
            f,
            *l,
            *p,
            c,
            *old(s),
            old(out)@.subrange(start as int, end as int),
        ),
{
    proof {
        reveal(layer_played);
    }
    let m = mix_layer(fpu, l, p, c, &s.lane);
    if l.src == Src::White || l.src == Src::Pink {
        s.lane.filter.set(fpu, l.mode, fpu(Prim::Mul, m.hz, m.bright).min(fpu(Prim::Mul, m.sr, Single::of(P0_45))), l.q, m.sr);
    }
    strand_span(fpu, *l, m, s, out, start, end);
    if fpu(Prim::Add, fpu(Prim::Add, m.attack, m.hold), m.decay).lt(s.lane.t) {
        s.lane.on = false;
    }
}

/// Distance and room after the layers.
#[derive(Debug)]
pub struct Space {
    pub reverb: ReverbNode,
    pub far0: OnePole,
    pub far1: OnePole,
}

/// A [`Space`] as a value.
#[verifier::ext_equal]
pub struct SpaceView {
    pub reverb: ReverbView,
    pub far0: OnePole,
    pub far1: OnePole,
}

impl View for Space {
    type V = SpaceView;

    open spec fn view(&self) -> SpaceView {
        SpaceView { reverb: self.reverb@, far0: self.far0, far1: self.far1 }
    }
}

impl Space {
    pub open spec fn wf(self) -> bool {
        self.reverb.wf()
    }
}

/// Settings of the room within a block.
#[derive(Clone, Copy, Debug, PartialEq, Eq, Structural)]
pub struct SpaceMix {
    pub far: Single,
    pub send: Single,
    pub dry: Single,
    pub master: Single,
    /// Coefficient that keeps the lows out of the room.
    pub low: Single,
    /// Share of an echo that comes back.
    pub keep: Single,
    pub damp: Single,
}

/// One sample heard from afar, in a room.
pub open spec fn space_tick(f: Sums, m: SpaceMix, s: SpaceView, v: Single) -> (SpaceView, Single) {
    let near = f(Prim::Div, crate::math::saturated(f, f(Prim::Mul, v, m.master)), f(Prim::Add, Single::of(ONE), f(Prim::Mul, Single::of(P0_2), m.master)));
    let a = s.far0.smoothed(f, near, m.far);
    let x = s.far1.smoothed(f, a, m.far);
    let (reverb, wet) = crate::graph::node::reverb_tick(f, m.low, m.keep, m.damp, Single::of(ONE), s.reverb, x);
    (SpaceView { reverb, far0: OnePole { y: a }, far1: OnePole { y: x } }, f(Prim::Mul, f(Prim::Add, x, f(Prim::Mul, wet, m.send)), m.dry))
}

/// The same for a run of samples.
pub open spec fn space_run(f: Sums, m: SpaceMix, s: SpaceView, x: Seq<Single>) -> (SpaceView, Seq<Single>)
    decreases x.len(),
{
    if x.len() == 0 {
        (s, seq![])
    } else {
        let (t, out) = space_run(f, m, s, x.drop_last());
        let (u, y) = space_tick(f, m, t, x.last());
        (u, out.push(y))
    }
}

fn space_sample<F: Fn(Prim, Single, Single) -> Single>(fpu: &F, m: SpaceMix, s: &mut Space, v: Single) -> (y: Single)
    requires
        total(*fpu),
        old(s).wf(),
    ensures
        final(s).wf(),
        forall|f: Sums| #[trigger] meant(*fpu, f) ==> (final(s)@, y) == space_tick(f, m, old(s)@, v),
{
    let near = fpu(Prim::Div, soft_clip(fpu, fpu(Prim::Mul, v, m.master)), fpu(Prim::Add, Single::of(ONE), fpu(Prim::Mul, Single::of(P0_2), m.master)));
    let a = s.far0.lp(fpu, near, m.far);
    let x = s.far1.lp(fpu, a, m.far);
    let wet = reverb_sample(fpu, m.low, m.keep, m.damp, Single::of(ONE), &mut s.reverb, x);
    fpu(Prim::Mul, fpu(Prim::Add, x, fpu(Prim::Mul, wet, m.send)), m.dry)
}

fn space_span<F: Fn(Prim, Single, Single) -> Single>(fpu: &F, m: SpaceMix, s: &mut Space, buf: &mut Vec<Single>, start: usize, end: usize)
    requires
        total(*fpu),
        start <= end <= old(buf)@.len(),
        old(s).wf(),
    ensures
        final(buf)@.len() == old(buf)@.len(),
        same_outside(old(buf)@, final(buf)@, start as int, end as int),
        final(s).wf(),
        forall|f: Sums| #[trigger] meant(*fpu, f) ==> (final(s)@, final(buf)@.subrange(start as int, end as int)) == space_run(
            f, m,
            old(s)@,
            old(buf)@.subrange(start as int, end as int),
        ),
{
    let mut i: usize = start;
    let ghost before = buf@;
    assert(before.subrange(start as int, start as int) =~= seq![]);
    while i < end
        invariant
            start <= i <= end <= buf@.len(),
            buf@.len() == before.len(),
            before == old(buf)@,
            same_outside(before, buf@, start as int, i as int),
            total(*fpu),
            s.wf(),
            forall|f: Sums| #[trigger] meant(*fpu, f) ==> (s@, buf@.subrange(start as int, i as int)) == space_run(
                f, m,
                old(s)@,
                before.subrange(start as int, i as int),
            ),
        decreases end - i,
    {
        let ghost last = buf@;
        let y = space_sample(fpu, m, s, buf[i]);
        buf.set(i, y);
        i = i + 1;
        assert(before.subrange(start as int, i as int).drop_last() =~= before.subrange(start as int, i - 1));
        assert(buf@.subrange(start as int, i as int) =~= last.subrange(start as int, i - 1).push(y));
    }
}

/// A room without an echo in it.
pub open spec fn still_room(r: RoomView) -> RoomView {
    RoomView { history: crate::blocks::silence(r.history.len()), damp: OnePole { y: Single::of(ZERO) } }
}

/// An engine as a value.
#[verifier::ext_equal]
pub struct FxView {
    pub sr: Single,
    pub seed: u32,
    pub lanes: Seq<Lane>,
    pub noise: Noise,
    pub rng: Rng,
    pub space: SpaceView,
    pub tail_left: Single,
    pub power: Single,
    pub distance: Single,
}

/// The layers an event plays: those beyond the last lane are silent.
pub open spec fn lanes_used(layers: Seq<Layer>) -> nat {
    if layers.len() < MAX_LAYERS {
        layers.len()
    } else {
        MAX_LAYERS as nat
    }
}

/// The first `k` layers of a block added to `x`, and whether one was on.
pub open spec fn layers_played(f: Sums, layers: Seq<Layer>, p: FxParams, c: Scene, s: FxView, x: Seq<Single>, k: nat) -> (
    FxView,
    Seq<Single>,
    bool,
)
    decreases k,
{
    if k == 0 {
        (s, x, false)
    } else {
        let (t, y, any) = layers_played(f, layers, p, c, s, x, (k - 1) as nat);
        if t.lanes[k - 1].on {
            let (u, z) = layer_played(
                f,
                layers[k - 1],
                p,
                c,
                Strand { lane: t.lanes[k - 1], noise: t.noise, rng: t.rng },
                y,
            );
            (FxView { lanes: t.lanes.update(k - 1, u.lane), noise: u.noise, rng: u.rng, ..t }, z, true)
        } else {
            (t, y, any)
        }
    }
}

/// A layer as it starts, its pitch, timing and level re-rolled.
pub open spec fn lane_fired(f: Sums, l: Layer, p: FxParams, lane: Lane, r: Rng) -> Lane {
    let v = f(Prim::Mul, f(Prim::Mul, p.variation, Single::of(TWO)), l.vary);
    let (a, b, c) = (
        crate::math::bipolar(r.fraction()),
        crate::math::bipolar(r.advanced().fraction()),
        crate::math::bipolar(r.advanced().advanced().fraction()),
    );
    Lane {
        on: true,
        t: f(Prim::Mul, l.delay.negated(), p.size),
        pitch: f(Prim::Exp2, f(Prim::Mul, f(Prim::Mul, v, Single::of(P0_16)), a), Single::of(ZERO)),
        time: f(Prim::Add, Single::of(ONE), f(Prim::Mul, f(Prim::Mul, v, Single::of(P0_22)), b)),
        level: f(Prim::Add, Single::of(ONE), f(Prim::Mul, f(Prim::Mul, v, Single::of(P0_2)), c)),
        phase: Single::of(ZERO),
        fm_phase: Single::of(ZERO),
        burst: Single::of(ZERO),
        next: 0,
        filter: lane.filter.cleared(),
        ..lane
    }
}

/// The first `k` lanes as an event starts: those of the recipe fired, the rest off.
pub open spec fn lanes_fired(f: Sums, layers: Seq<Layer>, p: FxParams, lanes: Seq<Lane>, r: Rng, k: nat) -> (Seq<Lane>, Rng)
    decreases k,
{
    if k == 0 {
        (lanes, r)
    } else {
        let (ls, s) = lanes_fired(f, layers, p, lanes, r, (k - 1) as nat);
        if k - 1 < layers.len() {
            (ls.update(k - 1, lane_fired(f, layers[k - 1], p, ls[k - 1], s)), s.advanced().advanced().advanced())
        } else {
            (ls.update(k - 1, Lane { on: false, ..ls[k - 1] }), s)
        }
    }
}

impl FxView {
    pub open spec fn started(f: Sums, sr: Single, seed: u32) -> FxView {
        FxView {
            sr,
            seed,
            lanes: Seq::new(MAX_LAYERS as nat, |k: int| Lane::idle(mixed_seed(seed.wrapping_add(k as u32)))),
            noise: Noise::seeded_with(mixed_seed(seed ^ 0x5F5F)),
            rng: Rng::seeded_with(mixed_seed(seed ^ 0xA1A1)),
            space: SpaceView {
                reverb: ReverbView {
                    send: OnePole { y: Single::of(ZERO) },
                    a: crate::graph::node::empty_room(f, Single::of(P29_7), sr),
                    b: crate::graph::node::empty_room(f, Single::of(P37_1), sr),
                    c: crate::graph::node::empty_room(f, Single::of(P41_1), sr),
                    d: crate::graph::node::empty_room(f, Single::of(P43_7), sr),
                },
                far0: OnePole { y: Single::of(ZERO) },
                far1: OnePole { y: Single::of(ZERO) },
            },
            tail_left: Single::of(ZERO),
            power: Single::of(ONE),
            distance: Single::of(ZERO),
        }
    }

    /// There is still something to hear.
    pub open spec fn active(self) -> bool {
        Single::of(ZERO).below(self.tail_left) || exists|k: int| 0 <= k < self.lanes.len() && (#[trigger] self.lanes[k]).on
    }

    /// Noise, dice and room as at the beginning, so that tones repeat exactly.
    pub open spec fn rewound(self) -> FxView {
        FxView {
            noise: Noise::seeded_with(mixed_seed(self.seed ^ 0x5F5F)),
            rng: Rng::seeded_with(mixed_seed(self.seed ^ 0xA1A1)),
            space: SpaceView {
                reverb: ReverbView {
                    send: OnePole { y: Single::of(ZERO) },
                    a: still_room(self.space.reverb.a),
                    b: still_room(self.space.reverb.b),
                    c: still_room(self.space.reverb.c),
                    d: still_room(self.space.reverb.d),
                },
                ..self.space
            },
            ..self
        }
    }

    /// Fired with a recipe.
    pub open spec fn fired(self, f: Sums, layers: Seq<Layer>, p: FxParams, power: Single, distance: Single) -> FxView {
        let s = if p.variation.at_most(Single::of(ZERO)) {
            self.rewound()
        } else {
            self
        };
        let (lanes, rng) = lanes_fired(f, layers, p, s.lanes, s.rng, MAX_LAYERS as nat);
        FxView { lanes, rng, power, distance, tail_left: Single::of(ZERO), ..s }
    }

    /// Settings of a block.
    pub open spec fn scene(self, f: Sums, p: FxParams) -> Scene {
        let size = f(Prim::Mul, p.size, f(Prim::Add, Single::of(P0_7), f(Prim::Mul, Single::of(P0_3), self.power)));
        Scene {
            sr: self.sr,
            size,
            tune: f(Prim::Div, f(Prim::Exp2, f(Prim::Div, p.pitch, Single::of(P12)), Single::of(ZERO)), f(Prim::Sqrt, size, Single::of(ZERO))),
            bright: f(Prim::Exp2, f(Prim::Add, f(Prim::Mul, Single::of(TWO), f(Prim::Sub, p.brightness, Single::of(HALF))), f(Prim::Mul, Single::of(P0_8), f(Prim::Sub, self.power, Single::of(ONE)))), Single::of(ZERO)),
        }
    }

    /// Seconds the room rings.
    pub open spec fn ring(self, f: Sums, p: FxParams, size: Single, reverb_time: Single) -> Single {
        f(Prim::Mul, f(Prim::Mul, reverb_time, f(Prim::Add, Single::of(P0_4), f(Prim::Mul, Single::of(P1_2), p.tail))), f(Prim::Add, Single::of(P0_7), f(Prim::Mul, Single::of(P0_6), size.smaller(Single::of(TWO)))))
    }

    /// Settings of the room within a block.
    pub open spec fn space_mix(self, f: Sums, p: FxParams, reverb: Single, rt: Single) -> SpaceMix {
        let d = self.distance;
        let secs = rt.within(Single::of(P0_1), Single::of(P10));
        SpaceMix {
            far: crate::blocks::cutoff_coef(f, f(Prim::Mul, Single::of(P18000), f(Prim::Pow, f(Prim::Div, Single::of(P400), Single::of(P18000)), d)), self.sr),
            send: f(Prim::Mul, f(Prim::Mul, f(Prim::Mul, reverb, Single::of(TWO)), p.space), f(Prim::Add, Single::of(ONE), f(Prim::Mul, Single::of(TWO), d))).smaller(Single::of(P1_2)),
            dry: f(Prim::Mul, f(Prim::Mul, f(Prim::Add, Single::of(P0_25), f(Prim::Mul, Single::of(P0_75), self.power)), f(Prim::Sub, Single::of(ONE), f(Prim::Mul, Single::of(P0_75), d))), p.gain),
            master: f(Prim::Add, Single::of(ONE), f(Prim::Mul, p.punch, Single::of(TWO))),
            low: crate::blocks::cutoff_coef(f, Single::of(P180), self.sr),
            keep: f(Prim::Exp, f(Prim::Div, Single::of(N0_26), secs), Single::of(ZERO)),
            damp: f(Prim::Sub, Single::of(ONE), f(Prim::Mul, Single::of(P0_9), f(Prim::Add, Single::of(P0_35), f(Prim::Mul, Single::of(P0_4), d)).within(Single::of(ZERO), Single::of(ONE)))),
        }
    }

    /// The engine after a block in place of `x`, and the block.
    #[verifier::opaque]
    pub open spec fn block(self, f: Sums, layers: Seq<Layer>, p: FxParams, reverb: Single, reverb_time: Single, x: Seq<Single>) -> (
        FxView,
        Seq<Single>,
    ) {
        let c = self.scene(f, p);
        let zeros = Seq::new(x.len(), |j: int| Single::of(ZERO));
        let (s, y, any) = layers_played(f, layers, p, c, self, zeros, lanes_used(layers));
        let rt = s.ring(f, p, c.size, reverb_time);
        let n = crate::single::signed_integer(x.len() as int);
        let tail_left = if any {
            rt
        } else {
            f(Prim::Sub, s.tail_left, f(Prim::Mul, n, f(Prim::Div, Single::of(ONE), s.sr))).larger(Single::of(ZERO))
        };
        let (space, z) = space_run(f, s.space_mix(f, p, reverb, rt), s.space, y);
        (FxView { tail_left, space, ..s }, z)
    }
}

/// Renders any recipe.
pub struct FxEngine {
    pub sr: Single,
    pub seed: u32,
    pub lanes: Vec<Lane>,
    pub noise: Noise,
    pub rng: Rng,
    pub space: Space,
    /// Seconds of reverb tail left after the last layer ends.
    pub tail_left: Single,
    pub power: Single,
    pub distance: Single,
}

impl View for FxEngine {
    type V = FxView;

    open spec fn view(&self) -> FxView {
        FxView {
            sr: self.sr,
            seed: self.seed,
            lanes: self.lanes@,
            noise: self.noise,
            rng: self.rng,
            space: self.space@,
            tail_left: self.tail_left,
            power: self.power,
            distance: self.distance,
        }
    }
}

impl FxEngine {
    pub open spec fn wf(self) -> bool {
        &&& self.lanes@.len() == MAX_LAYERS
        &&& self.space.wf()
        &&& forall|k: int| 0 <= k < self.lanes@.len() ==> (#[trigger] self.lanes@[k]).next < 3
    }

    pub fn new<F: Fn(Prim, Single, Single) -> Single>(fpu: &F, sr: Single, seed: u32) -> (r: FxEngine)
        requires
            total(*fpu),
        ensures
            r.wf(),
            forall|f: Sums| #[trigger] meant(*fpu, f) ==> r@ == FxView::started(f, sr, seed),
    {
        let mut lanes: Vec<Lane> = Vec::new();
        while lanes.len() < MAX_LAYERS
            invariant
                lanes@.len() <= MAX_LAYERS,
                forall|k: int| 0 <= k < lanes@.len() ==> #[trigger] lanes@[k] == Lane::idle(mixed_seed(seed.wrapping_add(k as u32))),
            decreases MAX_LAYERS - lanes@.len(),
        {
            let k = lanes.len() as u32;
            lanes.push(Lane::new(mix_seed(seed.wrapping_add(k))));
        }
        let a = new_room(fpu, Single::of(P29_7), sr);
        let b = new_room(fpu, Single::of(P37_1), sr);
        let c = new_room(fpu, Single::of(P41_1), sr);
        let d = new_room(fpu, Single::of(P43_7), sr);
        let r = FxEngine {
            sr,
            seed,
            lanes,
            noise: Noise::new(mix_seed(seed ^ 0x5F5F)),
            rng: Rng::new(mix_seed(seed ^ 0xA1A1)),
            space: Space {
                reverb: ReverbNode { send: OnePole::default(), a, b, c, d },
                far0: OnePole::default(),
                far1: OnePole::default(),
            },
            tail_left: Single::of(ZERO),
            power: Single::of(ONE),
            distance: Single::of(ZERO),
        };
        assert(r@.lanes =~= Seq::new(MAX_LAYERS as nat, |k: int| Lane::idle(mixed_seed(seed.wrapping_add(k as u32)))));
        r
    }

    pub fn is_active(&self) -> (r: bool)
        ensures
            r == self@.active(),
    {
        if Single::of(ZERO).lt(self.tail_left) {
            return true;
        }
        let mut k: usize = 0;
        while k < self.lanes.len()
            invariant
                k <= self.lanes@.len(),
                forall|j: int| 0 <= j < k ==> !(#[trigger] self.lanes@[j]).on,
            decreases self.lanes@.len() - k,
        {
            if self.lanes[k].on {
                assert(self@.lanes[k as int].on);
                return true;
            }
            k = k + 1;
        }
        false
    }

    fn rewind(&mut self)
        requires
            old(self).wf(),
        ensures
            final(self).wf(),
            final(self)@ == old(self)@.rewound(),
    {
        self.noise = Noise::new(mix_seed(self.seed ^ 0x5F5F));
        self.rng = Rng::new(mix_seed(self.seed ^ 0xA1A1));
        self.space.reverb.send = OnePole::default();
        self.space.reverb.a.line.clear();
        self.space.reverb.a.damp = OnePole::default();
        self.space.reverb.b.line.clear();
        self.space.reverb.b.damp = OnePole::default();
        self.space.reverb.c.line.clear();
        self.space.reverb.c.damp = OnePole::default();
        self.space.reverb.d.line.clear();
        self.space.reverb.d.damp = OnePole::default();
    }

    fn fire_lane<F: Fn(Prim, Single, Single) -> Single>(&mut self, fpu: &F, l: &Layer, p: &FxParams, k: usize)
        requires
            total(*fpu),
            old(self).wf(),
            k < MAX_LAYERS,
        ensures
            final(self).wf(),
            forall|f: Sums| #[trigger] meant(*fpu, f) ==> final(self)@ == (FxView {
                lanes: old(self)@.lanes.update(k as int, lane_fired(f, *l, *p, old(self)@.lanes[k as int], old(self)@.rng)),
                rng: old(self)@.rng.advanced().advanced().advanced(),
                ..old(self)@
            }),
    {
        let v = fpu(Prim::Mul, fpu(Prim::Mul, p.variation, Single::of(TWO)), l.vary);
        let a = self.rng.next_bipolar();
        let b = self.rng.next_bipolar();
        let c = self.rng.next_bipolar();
        let mut lane = self.lanes[k];
        lane.on = true;
        lane.t = fpu(Prim::Mul, l.delay.neg(), p.size);
        lane.pitch = fpu(Prim::Exp2, fpu(Prim::Mul, fpu(Prim::Mul, v, Single::of(P0_16)), a), Single::of(ZERO));
        lane.time = fpu(Prim::Add, Single::of(ONE), fpu(Prim::Mul, fpu(Prim::Mul, v, Single::of(P0_22)), b));
        lane.level = fpu(Prim::Add, Single::of(ONE), fpu(Prim::Mul, fpu(Prim::Mul, v, Single::of(P0_2)), c));
        lane.phase = Single::of(ZERO);
        lane.fm_phase = Single::of(ZERO);
        lane.burst = Single::of(ZERO);
        lane.next = 0;
        lane.filter.reset();
        self.lanes.set(k, lane);
    }

    pub fn trigger<F: Fn(Prim, Single, Single) -> Single>(&mut self, fpu: &F, layers: &Vec<Layer>, p: &FxParams, power: Single, distance: Single)
        requires
            total(*fpu),
            old(self).wf(),
        ensures
            final(self).wf(),
            forall|f: Sums| #[trigger] meant(*fpu, f) ==> final(self)@ == old(self)@.fired(f, layers@, *p, power, distance),
    {
        self.power = power;
        self.distance = distance;
        if p.variation.le(Single::of(ZERO)) {
            // No variation means none at all: restart the noise so UI tones repeat exactly.
            self.rewind();
        }
        let ghost s = self@;
        let mut k: usize = 0;
        while k < MAX_LAYERS
            invariant
                total(*fpu),
                k <= MAX_LAYERS,
                self.wf(),
                forall|f: Sums| #[trigger] meant(*fpu, f) ==> (self@.lanes, self@.rng) == lanes_fired(f, layers@, *p, s.lanes, s.rng, k as nat),
                forall|f: Sums| #[trigger] meant(*fpu, f) ==> self@ == (FxView { lanes: self@.lanes, rng: self@.rng, ..s }),
            decreases MAX_LAYERS - k,
        {
            if k < layers.len() {
                let l = layers[k];
                self.fire_lane(fpu, &l, p, k);
            } else {
                let mut lane = self.lanes[k];
                lane.on = false;
                self.lanes.set(k, lane);
            }
            k = k + 1;
        }
        self.tail_left = Single::of(ZERO);
    }

    fn play_layers<F: Fn(Prim, Single, Single) -> Single>(&mut self, fpu: &F, layers: &Vec<Layer>, p: &FxParams, c: Scene, out: &mut Vec<Single>, start: usize, end: usize) -> (r: bool)
        requires
            total(*fpu),
            old(self).wf(),
            start <= end <= old(out)@.len(),
        ensures
            final(self).wf(),
            same_outside(old(out)@, final(out)@, start as int, end as int),
            forall|f: Sums| #[trigger] meant(*fpu, f) ==> (final(self)@, final(out)@.subrange(start as int, end as int), r) == layers_played(
                f,
                layers@,
                *p,
                c,
                old(self)@,
                old(out)@.subrange(start as int, end as int),
                lanes_used(layers@),
            ),
    {
        let mut any = false;
        let mut k: usize = 0;
        while k < layers.len() && k < MAX_LAYERS
            invariant
                total(*fpu),
                k <= lanes_used(layers@),
                start <= end <= out@.len(),
                self.wf(),
                same_outside(old(out)@, out@, start as int, end as int),
                forall|f: Sums| #[trigger] meant(*fpu, f) ==> (self@, out@.subrange(start as int, end as int), any) == layers_played(
                    f,
                    layers@,
                    *p,
                    c,
                    old(self)@,
                    old(out)@.subrange(start as int, end as int),
                    k as nat,
                ),
            decreases layers@.len() - k,
        {
            if self.lanes[k].on {
                let mut strand = Strand { lane: self.lanes[k], noise: self.noise, rng: self.rng };
                play_layer(fpu, &layers[k], p, c, &mut strand, out, start, end);
                self.lanes.set(k, strand.lane);
                self.noise = strand.noise;
                self.rng = strand.rng;
                any = true;
            }
            k = k + 1;
        }
        any
    }

    fn mix_space<F: Fn(Prim, Single, Single) -> Single>(&self, fpu: &F, p: &FxParams, reverb: Single, rt: Single) -> (r: SpaceMix)
        requires
            total(*fpu),
        ensures
            forall|f: Sums| #[trigger] meant(*fpu, f) ==> r == self@.space_mix(f, *p, reverb, rt),
    {
        // Distance: duller, quieter, more room than source. Air absorbs treble: the cutoff falls
        // exponentially from 18 kHz to 400 Hz, 12 dB/oct.
        let d = self.distance;
        let secs = rt.clamp(Single::of(P0_1), Single::of(P10));
        SpaceMix {
            far: hz_coef(fpu, fpu(Prim::Mul, Single::of(P18000), fpu(Prim::Pow, fpu(Prim::Div, Single::of(P400), Single::of(P18000)), d)), self.sr),
            send: fpu(Prim::Mul, fpu(Prim::Mul, fpu(Prim::Mul, reverb, Single::of(TWO)), p.space), fpu(Prim::Add, Single::of(ONE), fpu(Prim::Mul, Single::of(TWO), d))).min(Single::of(P1_2)),
            dry: fpu(Prim::Mul, fpu(Prim::Mul, fpu(Prim::Add, Single::of(P0_25), fpu(Prim::Mul, Single::of(P0_75), self.power)), fpu(Prim::Sub, Single::of(ONE), fpu(Prim::Mul, Single::of(P0_75), d))), p.gain),
            master: fpu(Prim::Add, Single::of(ONE), fpu(Prim::Mul, p.punch, Single::of(TWO))),
            low: hz_coef(fpu, Single::of(P180), self.sr),
            keep: fpu(Prim::Exp, fpu(Prim::Div, Single::of(N0_26), secs), Single::of(ZERO)),
            damp: fpu(Prim::Sub, Single::of(ONE), fpu(Prim::Mul, Single::of(P0_9), fpu(Prim::Add, Single::of(P0_35), fpu(Prim::Mul, Single::of(P0_4), d)).clamp(Single::of(ZERO), Single::of(ONE)))),
        }
    }

    /// Render one block of the first [`MAX_LAYERS`] layers into samples `start..end`, overwriting
    /// them.
    pub fn block<F: Fn(Prim, Single, Single) -> Single>(
        &mut self,
        fpu: &F,
        layers: &Vec<Layer>,
        p: &FxParams,
        reverb: Single,
        reverb_time: Single,
        out: &mut Vec<Single>,
        start: usize,
        end: usize,
    )
        requires
            total(*fpu),
            old(self).wf(),
            start <= end <= old(out)@.len(),
            end - start <= BLOCK,
        ensures
            final(self).wf(),
            same_outside(old(out)@, final(out)@, start as int, end as int),
            forall|f: Sums| #[trigger] meant(*fpu, f) ==> (final(self)@, final(out)@.subrange(start as int, end as int)) == old(self)@.block(
                f,
                layers@,
                *p,
                reverb,
                reverb_time,
                old(out)@.subrange(start as int, end as int),
            ),
    {
        proof {
            reveal(FxView::block);
        }
        let mut i: usize = start;
        let ghost before = out@;
        while i < end
            invariant
                start <= i <= end <= out@.len(),
                same_outside(before, out@, start as int, i as int),
                forall|j: int| start <= j < i ==> out@[j] == Single::of(ZERO),
            decreases end - i,
        {
            out.set(i, Single::of(ZERO));
            i = i + 1;
        }
        assert(out@.subrange(start as int, end as int) =~= Seq::new((end - start) as nat, |j: int| Single::of(ZERO)));
        // A bigger event is longer and lower; a weak hit is smaller, duller and quieter.
        let size = fpu(Prim::Mul, p.size, fpu(Prim::Add, Single::of(P0_7), fpu(Prim::Mul, Single::of(P0_3), self.power)));
        let c = Scene {
            sr: self.sr,
            size,
            tune: fpu(Prim::Div, fpu(Prim::Exp2, fpu(Prim::Div, p.pitch, Single::of(P12)), Single::of(ZERO)), fpu(Prim::Sqrt, size, Single::of(ZERO))),
            bright: fpu(Prim::Exp2, fpu(Prim::Add, fpu(Prim::Mul, Single::of(TWO), fpu(Prim::Sub, p.brightness, Single::of(HALF))), fpu(Prim::Mul, Single::of(P0_8), fpu(Prim::Sub, self.power, Single::of(ONE)))), Single::of(ZERO)),
        };
        let any = self.play_layers(fpu, layers, p, c, out, start, end);
        let rt = fpu(Prim::Mul, fpu(Prim::Mul, reverb_time, fpu(Prim::Add, Single::of(P0_4), fpu(Prim::Mul, Single::of(P1_2), p.tail))), fpu(Prim::Add, Single::of(P0_7), fpu(Prim::Mul, Single::of(P0_6), size.min(Single::of(TWO)))));
        let n = from_i32((end - start) as i32);
        self.tail_left = if any { rt } else { fpu(Prim::Sub, self.tail_left, fpu(Prim::Mul, n, fpu(Prim::Div, Single::of(ONE), self.sr))).max(Single::of(ZERO)) };
        let m = self.mix_space(fpu, p, reverb, rt);
        space_span(fpu, m, &mut self.space, out, start, end);
    }
}

/// Every event.
#[derive(Clone, Copy, Debug, PartialEq, Eq, Structural)]
pub enum Effect {
    Explosion,
    Rocket,
    Plasma,
    Cannon,
    Impact,
    ShieldHit,
    Pickup,
    Boost,
    Quake,
    Emp,
    Airbrake,
    Beep,
    Laser,
    MineDrop,
    MineBlast,
    LockOn,
    ShieldUp,
}

impl Effect {
    pub open spec fn number(self) -> int {
        match self {
            Effect::Explosion => 0,
            Effect::Rocket => 1,
            Effect::Plasma => 2,
            Effect::Cannon => 3,
            Effect::Impact => 4,
            Effect::ShieldHit => 5,
            Effect::Pickup => 6,
            Effect::Boost => 7,
            Effect::Quake => 8,
            Effect::Emp => 9,
            Effect::Airbrake => 10,
            Effect::Beep => 11,
            Effect::Laser => 12,
            Effect::MineDrop => 13,
            Effect::MineBlast => 14,
            Effect::LockOn => 15,
            Effect::ShieldUp => 16,
        }
    }

    /// The event with a number; every number past the end means the last one.
    pub open spec fn numbered(i: int) -> Effect {
        if i == 0 {
            Effect::Explosion
        } else if i == 1 {
            Effect::Rocket
        } else if i == 2 {
            Effect::Plasma
        } else if i == 3 {
            Effect::Cannon
        } else if i == 4 {
            Effect::Impact
        } else if i == 5 {
            Effect::ShieldHit
        } else if i == 6 {
            Effect::Pickup
        } else if i == 7 {
            Effect::Boost
        } else if i == 8 {
            Effect::Quake
        } else if i == 9 {
            Effect::Emp
        } else if i == 10 {
            Effect::Airbrake
        } else if i == 11 {
            Effect::Beep
        } else if i == 12 {
            Effect::Laser
        } else if i == 13 {
            Effect::MineDrop
        } else if i == 14 {
            Effect::MineBlast
        } else if i == 15 {
            Effect::LockOn
        } else {
            Effect::ShieldUp
        }
    }

    pub fn from_number(i: usize) -> (r: Effect)
        ensures
            r == Effect::numbered(i as int),
    {
        match i {
            0 => Effect::Explosion,
            1 => Effect::Rocket,
            2 => Effect::Plasma,
            3 => Effect::Cannon,
            4 => Effect::Impact,
            5 => Effect::ShieldHit,
            6 => Effect::Pickup,
            7 => Effect::Boost,
            8 => Effect::Quake,
            9 => Effect::Emp,
            10 => Effect::Airbrake,
            11 => Effect::Beep,
            12 => Effect::Laser,
            13 => Effect::MineDrop,
            14 => Effect::MineBlast,
            15 => Effect::LockOn,
            _ => Effect::ShieldUp,
        }
    }

    pub open spec fn label(self) -> Seq<char> {
        match self {
            Effect::Explosion => "explosion"@,
            Effect::Rocket => "rocket"@,
            Effect::Plasma => "plasma"@,
            Effect::Cannon => "cannon"@,
            Effect::Impact => "impact"@,
            Effect::ShieldHit => "shield_hit"@,
            Effect::Pickup => "pickup"@,
            Effect::Boost => "boost"@,
            Effect::Quake => "quake"@,
            Effect::Emp => "emp"@,
            Effect::Airbrake => "airbrake"@,
            Effect::Beep => "beep"@,
            Effect::Laser => "laser"@,
            Effect::MineDrop => "mine_drop"@,
            Effect::MineBlast => "mine_blast"@,
            Effect::LockOn => "lock_on"@,
            Effect::ShieldUp => "shield_up"@,
        }
    }

    pub open spec fn story(self) -> Seq<char> {
        match self {
            Effect::Explosion => "Layered blast: crack, swept body, sub drop, rumble and a debris tail."@,
            Effect::Rocket => "Missile launch: ignition snap, a whoosh that falls away, thrust and hiss."@,
            Effect::Plasma => "Energy bolt: an FM zap that dives in pitch, sizzle and a thump."@,
            Effect::Cannon => "One round of an auto-cannon; retrigger it for bursts."@,
            Effect::Impact => "Hull collision: thud, crunch and the ring of struck metal (a different object every time)."@,
            Effect::ShieldHit => "Shield absorbing a hit: a blooming FM tone, glassy shimmer and a soft thump."@,
            Effect::Pickup => "Weapon pad: three rising FM chimes with a sparkle on top."@,
            Effect::Boost => "Speed pad: a rising whoosh and tone, with a kick as it hits."@,
            Effect::Quake => "Ground-shaking shockwave: a sinking sub, heavy rumble and falling rubble."@,
            Effect::Emp => "Electro bolt: crackling discharge over a diving FM tone and a mains buzz."@,
            Effect::Airbrake => "Air brake deploying: a burst of hiss, a servo whine and the flap thunking out."@,
            Effect::Beep => "Race UI tone: countdown, lock-on, warning. Presets change its pitch and length."@,
            Effect::Laser => "Laser shot: a bright tone diving several octaves in a few hundredths of a second, with a zing on top."@,
            Effect::MineDrop => "Mine released behind the ship: latch clunk, a short falling whoosh, then three arming beeps."@,
            Effect::MineBlast => "Mine going off: a hard crack, a short fat body and a spray of ringing metal shrapnel."@,
            Effect::LockOn => "Missile lock acquired: three quick pips, then a held tone."@,
            Effect::ShieldUp => "Shield powering up: a rising swell with glassy shimmer and sparkle."@,
        }
    }

    pub fn name(self) -> (r: &'static str)
        ensures
            r@ == self.label(),
    {
        match self {
            Effect::Explosion => "explosion",
            Effect::Rocket => "rocket",
            Effect::Plasma => "plasma",
            Effect::Cannon => "cannon",
            Effect::Impact => "impact",
            Effect::ShieldHit => "shield_hit",
            Effect::Pickup => "pickup",
            Effect::Boost => "boost",
            Effect::Quake => "quake",
            Effect::Emp => "emp",
            Effect::Airbrake => "airbrake",
            Effect::Beep => "beep",
            Effect::Laser => "laser",
            Effect::MineDrop => "mine_drop",
            Effect::MineBlast => "mine_blast",
            Effect::LockOn => "lock_on",
            Effect::ShieldUp => "shield_up",
        }
    }

    pub fn doc(self) -> (r: &'static str)
        ensures
            r@ == self.story(),
    {
        match self {
            Effect::Explosion => "Layered blast: crack, swept body, sub drop, rumble and a debris tail.",
            Effect::Rocket => "Missile launch: ignition snap, a whoosh that falls away, thrust and hiss.",
            Effect::Plasma => "Energy bolt: an FM zap that dives in pitch, sizzle and a thump.",
            Effect::Cannon => "One round of an auto-cannon; retrigger it for bursts.",
            Effect::Impact => "Hull collision: thud, crunch and the ring of struck metal (a different object every time).",
            Effect::ShieldHit => "Shield absorbing a hit: a blooming FM tone, glassy shimmer and a soft thump.",
            Effect::Pickup => "Weapon pad: three rising FM chimes with a sparkle on top.",
            Effect::Boost => "Speed pad: a rising whoosh and tone, with a kick as it hits.",
            Effect::Quake => "Ground-shaking shockwave: a sinking sub, heavy rumble and falling rubble.",
            Effect::Emp => "Electro bolt: crackling discharge over a diving FM tone and a mains buzz.",
            Effect::Airbrake => "Air brake deploying: a burst of hiss, a servo whine and the flap thunking out.",
            Effect::Beep => "Race UI tone: countdown, lock-on, warning. Presets change its pitch and length.",
            Effect::Laser => "Laser shot: a bright tone diving several octaves in a few hundredths of a second, with a zing on top.",
            Effect::MineDrop => "Mine released behind the ship: latch clunk, a short falling whoosh, then three arming beeps.",
            Effect::MineBlast => "Mine going off: a hard crack, a short fat body and a spray of ringing metal shrapnel.",
            Effect::LockOn => "Missile lock acquired: three quick pips, then a held tone.",
            Effect::ShieldUp => "Shield powering up: a rising swell with glassy shimmer and sparkle.",
        }
    }

    /// Reverb send and decay time at the neutral `space/*` settings.
    pub open spec fn room(self) -> (Single, Single) {
        match self {
            Effect::Explosion => (Single::of(P0_35), Single::of(P1_6)),
            Effect::Rocket => (Single::of(P0_25), Single::of(P1_2)),
            Effect::Plasma => (Single::of(P0_2), Single::of(P0_9)),
            Effect::Cannon => (Single::of(P0_12), Single::of(HALF)),
            Effect::Impact => (Single::of(P0_3), Single::of(ONE)),
            Effect::ShieldHit => (Single::of(P0_4), Single::of(P1_4)),
            Effect::Pickup => (Single::of(P0_25), Single::of(P0_8)),
            Effect::Boost => (Single::of(P0_3), Single::of(P1_2)),
            Effect::Quake => (Single::of(P0_3), Single::of(P1_5)),
            Effect::Emp => (Single::of(P0_35), Single::of(P1_3)),
            Effect::Airbrake => (Single::of(P0_15), Single::of(P0_6)),
            Effect::Beep => (Single::of(P0_08), Single::of(P0_4)),
            Effect::Laser => (Single::of(P0_25), Single::of(P0_8)),
            Effect::MineDrop => (Single::of(P0_2), Single::of(P0_7)),
            Effect::MineBlast => (Single::of(P0_3), Single::of(P1_1)),
            Effect::LockOn => (Single::of(P0_05), Single::of(P0_3)),
            Effect::ShieldUp => (Single::of(P0_4), Single::of(P1_4)),
        }
    }

    pub fn reverb(self) -> (r: (Single, Single))
        ensures
            r == self.room(),
    {
        match self {
            Effect::Explosion => (Single::of(P0_35), Single::of(P1_6)),
            Effect::Rocket => (Single::of(P0_25), Single::of(P1_2)),
            Effect::Plasma => (Single::of(P0_2), Single::of(P0_9)),
            Effect::Cannon => (Single::of(P0_12), Single::of(HALF)),
            Effect::Impact => (Single::of(P0_3), Single::of(ONE)),
            Effect::ShieldHit => (Single::of(P0_4), Single::of(P1_4)),
            Effect::Pickup => (Single::of(P0_25), Single::of(P0_8)),
            Effect::Boost => (Single::of(P0_3), Single::of(P1_2)),
            Effect::Quake => (Single::of(P0_3), Single::of(P1_5)),
            Effect::Emp => (Single::of(P0_35), Single::of(P1_3)),
            Effect::Airbrake => (Single::of(P0_15), Single::of(P0_6)),
            Effect::Beep => (Single::of(P0_08), Single::of(P0_4)),
            Effect::Laser => (Single::of(P0_25), Single::of(P0_8)),
            Effect::MineDrop => (Single::of(P0_2), Single::of(P0_7)),
            Effect::MineBlast => (Single::of(P0_3), Single::of(P1_1)),
            Effect::LockOn => (Single::of(P0_05), Single::of(P0_3)),
            Effect::ShieldUp => (Single::of(P0_4), Single::of(P1_4)),
        }
    }

    /// The recipe.
    pub open spec fn recipe(self) -> Seq<Layer> {
        match self {
            Effect::Explosion => seq![
                Layer { src: Src::White, mode: FilterMode::HighPass, f0: Single::of(P1800), f1: Single::of(P900), glide: Single::of(P0_03), hold: Single::of(P0_004), decay: Single::of(P0_07), level: Single::of(ONE), drive: Single::of(HALF), ..Layer::neutral() },
                Layer { src: Src::Pink, mode: FilterMode::LowPass, f0: Single::of(P3800), f1: Single::of(P140), glide: Single::of(P0_22), q: Single::of(P0_25), attack: Single::of(P0_002), hold: Single::of(P0_03), decay: Single::of(P1_1), level: Single::of(P1_6), drive: Single::of(P0_7), ..Layer::neutral() },
                Layer { src: Src::Tone(Waveform::Sine), f0: Single::of(P95), f1: Single::of(P32), glide: Single::of(P0_25), attack: Single::of(P0_003), hold: Single::of(P0_05), decay: Single::of(P0_8), level: Single::of(P0_9), ..Layer::neutral() },
                Layer { src: Src::Pink, mode: FilterMode::LowPass, f0: Single::of(P300), f1: Single::of(P80), glide: Single::of(HALF), delay: Single::of(P0_03), attack: Single::of(P0_05), hold: Single::of(P0_2), decay: Single::of(P1_4), level: Single::of(ONE), drive: Single::of(P0_4), ..Layer::neutral() },
                Layer { src: Src::Debris, f0: Single::of(P3000), f1: Single::of(P1200), glide: Single::of(P0_6), rate: Single::of(P90), spread: Single::of(P1_2), q: Single::of(P0_6), delay: Single::of(P0_06), attack: Single::of(P0_02), hold: Single::of(P0_1), decay: Single::of(P1_3), level: Single::of(HALF), ..Layer::neutral() },
            ],
            Effect::Rocket => seq![
                Layer { src: Src::White, mode: FilterMode::BandPass, f0: Single::of(P500), f1: Single::of(P3000), glide: Single::of(P0_05), q: Single::of(P0_4), hold: Single::of(P0_01), decay: Single::of(P0_12), level: Single::of(P0_8), ..Layer::neutral() },
                Layer { src: Src::Pink, mode: FilterMode::BandPass, f0: Single::of(P1600), f1: Single::of(P350), glide: Single::of(HALF), q: Single::of(P0_35), attack: Single::of(P0_03), hold: Single::of(P0_15), decay: Single::of(ONE), level: Single::of(P1_8), drive: Single::of(P0_4), ..Layer::neutral() },
                Layer { src: Src::Tone(Waveform::Saw), f0: Single::of(P140), f1: Single::of(P60), glide: Single::of(P0_6), attack: Single::of(P0_02), hold: Single::of(P0_1), decay: Single::of(P0_7), level: Single::of(P0_35), ..Layer::neutral() },
                Layer { src: Src::White, mode: FilterMode::HighPass, f0: Single::of(P3000), attack: Single::of(P0_01), hold: Single::of(P0_05), decay: Single::of(HALF), level: Single::of(P0_25), ..Layer::neutral() },
            ],
            Effect::Plasma => seq![
                Layer { src: Src::Tone(Waveform::Sine), f0: Single::of(P2200), f1: Single::of(P180), glide: Single::of(P0_06), fm_ratio: Single::of(P2_41), fm: Single::of(THREE), hold: Single::of(P0_02), decay: Single::of(P0_28), level: Single::of(P0_8), ..Layer::neutral() },
                Layer { src: Src::White, mode: FilterMode::BandPass, f0: Single::of(P5000), f1: Single::of(P2500), glide: Single::of(P0_1), q: Single::of(HALF), hold: Single::of(P0_01), decay: Single::of(P0_18), level: Single::of(P0_4), ..Layer::neutral() },
                Layer { src: Src::Tone(Waveform::Sine), f0: Single::of(P160), f1: Single::of(P50), glide: Single::of(P0_05), hold: Single::of(P0_01), decay: Single::of(P0_15), level: Single::of(P0_8), vary: Single::of(P0_4), ..Layer::neutral() },
            ],
            Effect::Cannon => seq![
                Layer { src: Src::White, mode: FilterMode::HighPass, f0: Single::of(P2500), hold: Single::of(P0_002), decay: Single::of(P0_02), level: Single::of(P0_8), ..Layer::neutral() },
                Layer { src: Src::Pink, mode: FilterMode::LowPass, f0: Single::of(P2800), f1: Single::of(P300), glide: Single::of(P0_04), hold: Single::of(P0_008), decay: Single::of(P0_16), level: Single::of(P2_8), drive: Single::of(P0_8), ..Layer::neutral() },
                Layer { src: Src::Tone(Waveform::Triangle), f0: Single::of(P190), f1: Single::of(P60), glide: Single::of(P0_04), hold: Single::of(P0_008), decay: Single::of(P0_14), level: Single::of(ONE), vary: Single::of(HALF), ..Layer::neutral() },
            ],
            Effect::Impact => seq![
                Layer { src: Src::Tone(Waveform::Sine), f0: Single::of(P130), f1: Single::of(P45), glide: Single::of(P0_04), hold: Single::of(P0_01), decay: Single::of(P0_25), level: Single::of(ONE), vary: Single::of(P0_4), ..Layer::neutral() },
                Layer { src: Src::Pink, mode: FilterMode::BandPass, f0: Single::of(P1400), f1: Single::of(P500), glide: Single::of(P0_05), q: Single::of(P0_3), hold: Single::of(P0_01), decay: Single::of(P0_12), level: Single::of(P1_6), drive: Single::of(P0_8), ..Layer::neutral() },
                Layer { src: Src::Tone(Waveform::Sine), f0: Single::of(P410), fm_ratio: Single::of(P1_41), fm: Single::of(HALF), hold: Single::of(ZERO), decay: Single::of(HALF), level: Single::of(P0_35), vary: Single::of(P1_6), ..Layer::neutral() },
                Layer { src: Src::Tone(Waveform::Sine), f0: Single::of(P1130), fm_ratio: Single::of(P1_41), fm: Single::of(P0_4), hold: Single::of(ZERO), decay: Single::of(P0_4), level: Single::of(P0_25), vary: Single::of(P1_6), ..Layer::neutral() },
                Layer { src: Src::Tone(Waveform::Sine), f0: Single::of(P2210), hold: Single::of(ZERO), decay: Single::of(P0_3), level: Single::of(P0_18), vary: Single::of(P1_6), ..Layer::neutral() },
                Layer { src: Src::Tone(Waveform::Sine), f0: Single::of(P3660), hold: Single::of(ZERO), decay: Single::of(P0_2), level: Single::of(P0_12), vary: Single::of(P1_6), ..Layer::neutral() },
            ],
            Effect::ShieldHit => seq![
                Layer { src: Src::Tone(Waveform::Sine), f0: Single::of(P320), f1: Single::of(P760), glide: Single::of(P0_12), fm_ratio: Single::of(P1_5), fm: Single::of(P1_2), attack: Single::of(P0_005), hold: Single::of(P0_05), decay: Single::of(P0_6), level: Single::of(P0_6), ..Layer::neutral() },
                Layer { src: Src::White, mode: FilterMode::BandPass, f0: Single::of(P4200), f1: Single::of(P6500), glide: Single::of(P0_3), q: Single::of(P0_8), attack: Single::of(P0_01), hold: Single::of(P0_05), decay: Single::of(HALF), level: Single::of(HALF), ..Layer::neutral() },
                Layer { src: Src::Tone(Waveform::Sine), f0: Single::of(P110), f1: Single::of(P60), glide: Single::of(P0_08), hold: Single::of(P0_01), decay: Single::of(P0_25), level: Single::of(P0_6), vary: Single::of(P0_4), ..Layer::neutral() },
            ],
            Effect::Pickup => seq![
                Layer { src: Src::Tone(Waveform::Sine), f0: Single::of(P660), fm_ratio: Single::of(THREE), fm: Single::of(P0_6), hold: Single::of(P0_03), decay: Single::of(P0_12), level: Single::of(HALF), vary: Single::of(P0_15), ..Layer::neutral() },
                Layer { src: Src::Tone(Waveform::Sine), f0: Single::of(P990), fm_ratio: Single::of(THREE), fm: Single::of(P0_6), delay: Single::of(P0_07), hold: Single::of(P0_03), decay: Single::of(P0_12), level: Single::of(HALF), vary: Single::of(P0_15), ..Layer::neutral() },
                Layer { src: Src::Tone(Waveform::Sine), f0: Single::of(P1320), fm_ratio: Single::of(THREE), fm: Single::of(P0_6), delay: Single::of(P0_14), hold: Single::of(P0_03), decay: Single::of(P0_3), level: Single::of(HALF), vary: Single::of(P0_15), ..Layer::neutral() },
                Layer { src: Src::White, mode: FilterMode::HighPass, f0: Single::of(P6000), delay: Single::of(P0_14), hold: Single::of(P0_01), decay: Single::of(P0_2), level: Single::of(P0_12), ..Layer::neutral() },
            ],
            Effect::Boost => seq![
                Layer { src: Src::Pink, mode: FilterMode::BandPass, f0: Single::of(P250), f1: Single::of(P4500), glide: Single::of(P0_35), q: Single::of(P0_6), attack: Single::of(P0_25), hold: Single::of(P0_05), decay: Single::of(HALF), level: Single::of(P1_8), ..Layer::neutral() },
                Layer { src: Src::Tone(Waveform::Saw), f0: Single::of(P70), f1: Single::of(P520), glide: Single::of(P0_4), attack: Single::of(P0_2), hold: Single::of(P0_05), decay: Single::of(P0_35), level: Single::of(P0_3), vary: Single::of(P0_4), ..Layer::neutral() },
                Layer { src: Src::Tone(Waveform::Sine), f0: Single::of(P120), f1: Single::of(P40), glide: Single::of(P0_06), hold: Single::of(P0_01), decay: Single::of(P0_3), level: Single::of(P0_8), vary: Single::of(P0_4), ..Layer::neutral() },
                Layer { src: Src::White, mode: FilterMode::HighPass, f0: Single::of(P5000), attack: Single::of(P0_3), hold: Single::of(P0_05), decay: Single::of(P0_6), level: Single::of(P0_2), ..Layer::neutral() },
            ],
            Effect::Quake => seq![
                Layer { src: Src::Tone(Waveform::Sine), f0: Single::of(P70), f1: Single::of(P24), glide: Single::of(P0_8), attack: Single::of(P0_05), hold: Single::of(P0_4), decay: Single::of(P1_2), level: Single::of(P0_6), vary: Single::of(P0_4), ..Layer::neutral() },
                Layer { src: Src::Pink, mode: FilterMode::LowPass, f0: Single::of(P220), f1: Single::of(P90), glide: Single::of(P0_8), attack: Single::of(P0_1), hold: Single::of(HALF), decay: Single::of(P1_2), level: Single::of(P0_9), drive: Single::of(P0_6), ..Layer::neutral() },
                Layer { src: Src::Debris, f0: Single::of(P900), f1: Single::of(P300), glide: Single::of(ONE), rate: Single::of(P60), spread: Single::of(P1_5), q: Single::of(P0_7), attack: Single::of(P0_1), hold: Single::of(HALF), decay: Single::of(ONE), level: Single::of(P0_6), ..Layer::neutral() },
            ],
            Effect::Emp => seq![
                Layer { src: Src::Debris, f0: Single::of(P5000), f1: Single::of(P2000), glide: Single::of(P0_4), rate: Single::of(P320), spread: Single::of(ONE), q: Single::of(HALF), hold: Single::of(P0_2), decay: Single::of(P0_8), level: Single::of(P1_1), ..Layer::neutral() },
                Layer { src: Src::Tone(Waveform::Saw), f0: Single::of(P110), hold: Single::of(P0_06), decay: Single::of(P0_3), level: Single::of(P0_16), vary: Single::of(P0_3), ..Layer::neutral() },
                Layer { src: Src::Tone(Waveform::Sine), f0: Single::of(P900), f1: Single::of(P90), glide: Single::of(P0_15), fm_ratio: Single::of(HALF), fm: Single::of(TWO), hold: Single::of(P0_02), decay: Single::of(P0_45), level: Single::of(HALF), ..Layer::neutral() },
            ],
            Effect::Airbrake => seq![
                Layer { src: Src::White, mode: FilterMode::HighPass, f0: Single::of(P2200), f1: Single::of(P3800), glide: Single::of(P0_2), attack: Single::of(P0_015), hold: Single::of(P0_08), decay: Single::of(P0_35), level: Single::of(P0_6), ..Layer::neutral() },
                Layer { src: Src::Tone(Waveform::Sine), f0: Single::of(P95), f1: Single::of(P60), glide: Single::of(P0_04), hold: Single::of(P0_005), decay: Single::of(P0_08), level: Single::of(P0_6), vary: Single::of(P0_4), ..Layer::neutral() },
                Layer { src: Src::Tone(Waveform::Saw), f0: Single::of(P300), f1: Single::of(P180), glide: Single::of(P0_15), attack: Single::of(P0_01), hold: Single::of(P0_05), decay: Single::of(P0_2), level: Single::of(P0_1), ..Layer::neutral() },
            ],
            Effect::Beep => seq![
                Layer { src: Src::Tone(Waveform::Sine), f0: Single::of(P880), fm_ratio: Single::of(TWO), fm: Single::of(P0_25), attack: Single::of(P0_002), hold: Single::of(P0_09), decay: Single::of(P0_06), level: Single::of(P0_6), vary: Single::of(P0_05), ..Layer::neutral() },
                Layer { src: Src::White, mode: FilterMode::HighPass, f0: Single::of(P4000), hold: Single::of(P0_001), decay: Single::of(P0_01), level: Single::of(P0_15), ..Layer::neutral() },
            ],
            Effect::Laser => seq![
                Layer { src: Src::Tone(Waveform::Sine), f0: Single::of(P4200), f1: Single::of(P350), glide: Single::of(P0_035), fm_ratio: Single::of(HALF), fm: Single::of(TWO), hold: Single::of(P0_01), decay: Single::of(P0_16), level: Single::of(P0_8), ..Layer::neutral() },
                Layer { src: Src::Tone(Waveform::Saw), f0: Single::of(P2100), f1: Single::of(P180), glide: Single::of(P0_04), hold: Single::of(P0_008), decay: Single::of(P0_12), level: Single::of(P0_25), ..Layer::neutral() },
                Layer { src: Src::White, mode: FilterMode::BandPass, f0: Single::of(P6500), f1: Single::of(P3000), glide: Single::of(P0_05), q: Single::of(P0_7), hold: Single::of(P0_005), decay: Single::of(P0_08), level: Single::of(P0_35), ..Layer::neutral() },
                Layer { src: Src::Tone(Waveform::Sine), f0: Single::of(P180), f1: Single::of(P70), glide: Single::of(P0_03), hold: Single::of(P0_004), decay: Single::of(P0_06), level: Single::of(P0_35), vary: Single::of(P0_4), ..Layer::neutral() },
            ],
            Effect::MineDrop => seq![
                Layer { src: Src::Tone(Waveform::Sine), f0: Single::of(P150), f1: Single::of(P70), glide: Single::of(P0_04), hold: Single::of(P0_008), decay: Single::of(P0_12), level: Single::of(P0_9), vary: Single::of(P0_4), ..Layer::neutral() },
                Layer { src: Src::White, mode: FilterMode::HighPass, f0: Single::of(P2800), hold: Single::of(P0_002), decay: Single::of(P0_025), level: Single::of(HALF), ..Layer::neutral() },
                Layer { src: Src::Pink, mode: FilterMode::BandPass, f0: Single::of(P1100), f1: Single::of(P260), glide: Single::of(P0_12), q: Single::of(HALF), attack: Single::of(P0_02), hold: Single::of(P0_05), decay: Single::of(P0_3), level: Single::of(P1_4), ..Layer::neutral() },
                Layer { src: Src::Tone(Waveform::Sine), f0: Single::of(P1500), fm_ratio: Single::of(TWO), fm: Single::of(P0_3), delay: Single::of(P0_38), attack: Single::of(P0_002), hold: Single::of(P0_04), decay: Single::of(P0_03), level: Single::of(P0_4), vary: Single::of(P0_05), ..Layer::neutral() },
                Layer { src: Src::Tone(Waveform::Sine), f0: Single::of(P1500), fm_ratio: Single::of(TWO), fm: Single::of(P0_3), delay: Single::of(P0_52), attack: Single::of(P0_002), hold: Single::of(P0_04), decay: Single::of(P0_03), level: Single::of(P0_4), vary: Single::of(P0_05), ..Layer::neutral() },
                Layer { src: Src::Tone(Waveform::Sine), f0: Single::of(P2000), fm_ratio: Single::of(TWO), fm: Single::of(P0_3), delay: Single::of(P0_66), attack: Single::of(P0_002), hold: Single::of(P0_09), decay: Single::of(P0_08), level: Single::of(P0_45), vary: Single::of(P0_05), ..Layer::neutral() },
            ],
            Effect::MineBlast => seq![
                Layer { src: Src::White, mode: FilterMode::HighPass, f0: Single::of(P2500), hold: Single::of(P0_003), decay: Single::of(P0_05), level: Single::of(P1_1), drive: Single::of(P0_6), ..Layer::neutral() },
                Layer { src: Src::Pink, mode: FilterMode::LowPass, f0: Single::of(P5000), f1: Single::of(P250), glide: Single::of(P0_09), q: Single::of(P0_25), hold: Single::of(P0_015), decay: Single::of(P0_45), level: Single::of(P1_6), drive: Single::of(P0_8), ..Layer::neutral() },
                Layer { src: Src::Tone(Waveform::Sine), f0: Single::of(P140), f1: Single::of(P45), glide: Single::of(P0_1), hold: Single::of(P0_02), decay: Single::of(P0_35), level: Single::of(P0_9), vary: Single::of(P0_4), ..Layer::neutral() },
                Layer { src: Src::Debris, f0: Single::of(P6000), f1: Single::of(P2500), glide: Single::of(P0_4), rate: Single::of(P220), spread: Single::of(P1_2), q: Single::of(P0_85), delay: Single::of(P0_02), hold: Single::of(P0_05), decay: Single::of(P0_7), level: Single::of(P0_7), ..Layer::neutral() },
                Layer { src: Src::Tone(Waveform::Sine), f0: Single::of(P1900), fm_ratio: Single::of(P1_41), fm: Single::of(P0_8), hold: Single::of(ZERO), decay: Single::of(P0_4), level: Single::of(P0_12), vary: Single::of(P1_5), ..Layer::neutral() },
            ],
            Effect::LockOn => seq![
                Layer { src: Src::Tone(Waveform::Sine), f0: Single::of(P1200), fm_ratio: Single::of(TWO), fm: Single::of(P0_3), attack: Single::of(P0_002), hold: Single::of(P0_04), decay: Single::of(P0_02), level: Single::of(P0_45), vary: Single::of(P0_02), ..Layer::neutral() },
                Layer { src: Src::Tone(Waveform::Sine), f0: Single::of(P1200), fm_ratio: Single::of(TWO), fm: Single::of(P0_3), delay: Single::of(P0_09), attack: Single::of(P0_002), hold: Single::of(P0_04), decay: Single::of(P0_02), level: Single::of(P0_45), vary: Single::of(P0_02), ..Layer::neutral() },
                Layer { src: Src::Tone(Waveform::Sine), f0: Single::of(P1200), fm_ratio: Single::of(TWO), fm: Single::of(P0_3), delay: Single::of(P0_18), attack: Single::of(P0_002), hold: Single::of(P0_04), decay: Single::of(P0_02), level: Single::of(P0_45), vary: Single::of(P0_02), ..Layer::neutral() },
                Layer { src: Src::Tone(Waveform::Sine), f0: Single::of(P1800), fm_ratio: Single::of(TWO), fm: Single::of(P0_3), delay: Single::of(P0_3), attack: Single::of(P0_002), hold: Single::of(P0_28), decay: Single::of(P0_08), level: Single::of(P0_45), vary: Single::of(P0_02), ..Layer::neutral() },
            ],
            Effect::ShieldUp => seq![
                Layer { src: Src::Tone(Waveform::Sine), f0: Single::of(P180), f1: Single::of(P520), glide: Single::of(P0_35), fm_ratio: Single::of(TWO), fm: Single::of(ONE), attack: Single::of(P0_25), hold: Single::of(P0_1), decay: Single::of(HALF), level: Single::of(HALF), vary: Single::of(P0_3), ..Layer::neutral() },
                Layer { src: Src::White, mode: FilterMode::BandPass, f0: Single::of(P3000), f1: Single::of(P7000), glide: Single::of(P0_4), q: Single::of(P0_85), attack: Single::of(P0_3), hold: Single::of(P0_1), decay: Single::of(P0_6), level: Single::of(HALF), ..Layer::neutral() },
                Layer { src: Src::Tone(Waveform::Sine), f0: Single::of(P60), f1: Single::of(P90), glide: Single::of(P0_3), attack: Single::of(P0_2), hold: Single::of(P0_1), decay: Single::of(P0_4), level: Single::of(HALF), vary: Single::of(P0_3), ..Layer::neutral() },
                Layer { src: Src::Debris, f0: Single::of(P7000), rate: Single::of(P120), spread: Single::of(P0_8), q: Single::of(P0_8), attack: Single::of(P0_3), hold: Single::of(P0_1), decay: Single::of(HALF), level: Single::of(P0_3), ..Layer::neutral() },
            ],
        }
    }

    pub fn layers(self) -> (r: Vec<Layer>)
        ensures
            r@ == self.recipe(),
            r@.len() <= MAX_LAYERS,
    {
        let mut r: Vec<Layer> = Vec::new();
        match self {
            Effect::Explosion => {
                r.push(Layer { src: Src::White, mode: FilterMode::HighPass, f0: Single::of(P1800), f1: Single::of(P900), glide: Single::of(P0_03), hold: Single::of(P0_004), decay: Single::of(P0_07), level: Single::of(ONE), drive: Single::of(HALF), ..Layer::default() });
                r.push(Layer { src: Src::Pink, mode: FilterMode::LowPass, f0: Single::of(P3800), f1: Single::of(P140), glide: Single::of(P0_22), q: Single::of(P0_25), attack: Single::of(P0_002), hold: Single::of(P0_03), decay: Single::of(P1_1), level: Single::of(P1_6), drive: Single::of(P0_7), ..Layer::default() });
                r.push(Layer { src: Src::Tone(Waveform::Sine), f0: Single::of(P95), f1: Single::of(P32), glide: Single::of(P0_25), attack: Single::of(P0_003), hold: Single::of(P0_05), decay: Single::of(P0_8), level: Single::of(P0_9), ..Layer::default() });
                r.push(Layer { src: Src::Pink, mode: FilterMode::LowPass, f0: Single::of(P300), f1: Single::of(P80), glide: Single::of(HALF), delay: Single::of(P0_03), attack: Single::of(P0_05), hold: Single::of(P0_2), decay: Single::of(P1_4), level: Single::of(ONE), drive: Single::of(P0_4), ..Layer::default() });
                r.push(Layer { src: Src::Debris, f0: Single::of(P3000), f1: Single::of(P1200), glide: Single::of(P0_6), rate: Single::of(P90), spread: Single::of(P1_2), q: Single::of(P0_6), delay: Single::of(P0_06), attack: Single::of(P0_02), hold: Single::of(P0_1), decay: Single::of(P1_3), level: Single::of(HALF), ..Layer::default() });
            },
            Effect::Rocket => {
                r.push(Layer { src: Src::White, mode: FilterMode::BandPass, f0: Single::of(P500), f1: Single::of(P3000), glide: Single::of(P0_05), q: Single::of(P0_4), hold: Single::of(P0_01), decay: Single::of(P0_12), level: Single::of(P0_8), ..Layer::default() });
                r.push(Layer { src: Src::Pink, mode: FilterMode::BandPass, f0: Single::of(P1600), f1: Single::of(P350), glide: Single::of(HALF), q: Single::of(P0_35), attack: Single::of(P0_03), hold: Single::of(P0_15), decay: Single::of(ONE), level: Single::of(P1_8), drive: Single::of(P0_4), ..Layer::default() });
                r.push(Layer { src: Src::Tone(Waveform::Saw), f0: Single::of(P140), f1: Single::of(P60), glide: Single::of(P0_6), attack: Single::of(P0_02), hold: Single::of(P0_1), decay: Single::of(P0_7), level: Single::of(P0_35), ..Layer::default() });
                r.push(Layer { src: Src::White, mode: FilterMode::HighPass, f0: Single::of(P3000), attack: Single::of(P0_01), hold: Single::of(P0_05), decay: Single::of(HALF), level: Single::of(P0_25), ..Layer::default() });
            },
            Effect::Plasma => {
                r.push(Layer { src: Src::Tone(Waveform::Sine), f0: Single::of(P2200), f1: Single::of(P180), glide: Single::of(P0_06), fm_ratio: Single::of(P2_41), fm: Single::of(THREE), hold: Single::of(P0_02), decay: Single::of(P0_28), level: Single::of(P0_8), ..Layer::default() });
                r.push(Layer { src: Src::White, mode: FilterMode::BandPass, f0: Single::of(P5000), f1: Single::of(P2500), glide: Single::of(P0_1), q: Single::of(HALF), hold: Single::of(P0_01), decay: Single::of(P0_18), level: Single::of(P0_4), ..Layer::default() });
                r.push(Layer { src: Src::Tone(Waveform::Sine), f0: Single::of(P160), f1: Single::of(P50), glide: Single::of(P0_05), hold: Single::of(P0_01), decay: Single::of(P0_15), level: Single::of(P0_8), vary: Single::of(P0_4), ..Layer::default() });
            },
            Effect::Cannon => {
                r.push(Layer { src: Src::White, mode: FilterMode::HighPass, f0: Single::of(P2500), hold: Single::of(P0_002), decay: Single::of(P0_02), level: Single::of(P0_8), ..Layer::default() });
                r.push(Layer { src: Src::Pink, mode: FilterMode::LowPass, f0: Single::of(P2800), f1: Single::of(P300), glide: Single::of(P0_04), hold: Single::of(P0_008), decay: Single::of(P0_16), level: Single::of(P2_8), drive: Single::of(P0_8), ..Layer::default() });
                r.push(Layer { src: Src::Tone(Waveform::Triangle), f0: Single::of(P190), f1: Single::of(P60), glide: Single::of(P0_04), hold: Single::of(P0_008), decay: Single::of(P0_14), level: Single::of(ONE), vary: Single::of(HALF), ..Layer::default() });
            },
            Effect::Impact => {
                r.push(Layer { src: Src::Tone(Waveform::Sine), f0: Single::of(P130), f1: Single::of(P45), glide: Single::of(P0_04), hold: Single::of(P0_01), decay: Single::of(P0_25), level: Single::of(ONE), vary: Single::of(P0_4), ..Layer::default() });
                r.push(Layer { src: Src::Pink, mode: FilterMode::BandPass, f0: Single::of(P1400), f1: Single::of(P500), glide: Single::of(P0_05), q: Single::of(P0_3), hold: Single::of(P0_01), decay: Single::of(P0_12), level: Single::of(P1_6), drive: Single::of(P0_8), ..Layer::default() });
                r.push(Layer { src: Src::Tone(Waveform::Sine), f0: Single::of(P410), fm_ratio: Single::of(P1_41), fm: Single::of(HALF), hold: Single::of(ZERO), decay: Single::of(HALF), level: Single::of(P0_35), vary: Single::of(P1_6), ..Layer::default() });
                r.push(Layer { src: Src::Tone(Waveform::Sine), f0: Single::of(P1130), fm_ratio: Single::of(P1_41), fm: Single::of(P0_4), hold: Single::of(ZERO), decay: Single::of(P0_4), level: Single::of(P0_25), vary: Single::of(P1_6), ..Layer::default() });
                r.push(Layer { src: Src::Tone(Waveform::Sine), f0: Single::of(P2210), hold: Single::of(ZERO), decay: Single::of(P0_3), level: Single::of(P0_18), vary: Single::of(P1_6), ..Layer::default() });
                r.push(Layer { src: Src::Tone(Waveform::Sine), f0: Single::of(P3660), hold: Single::of(ZERO), decay: Single::of(P0_2), level: Single::of(P0_12), vary: Single::of(P1_6), ..Layer::default() });
            },
            Effect::ShieldHit => {
                r.push(Layer { src: Src::Tone(Waveform::Sine), f0: Single::of(P320), f1: Single::of(P760), glide: Single::of(P0_12), fm_ratio: Single::of(P1_5), fm: Single::of(P1_2), attack: Single::of(P0_005), hold: Single::of(P0_05), decay: Single::of(P0_6), level: Single::of(P0_6), ..Layer::default() });
                r.push(Layer { src: Src::White, mode: FilterMode::BandPass, f0: Single::of(P4200), f1: Single::of(P6500), glide: Single::of(P0_3), q: Single::of(P0_8), attack: Single::of(P0_01), hold: Single::of(P0_05), decay: Single::of(HALF), level: Single::of(HALF), ..Layer::default() });
                r.push(Layer { src: Src::Tone(Waveform::Sine), f0: Single::of(P110), f1: Single::of(P60), glide: Single::of(P0_08), hold: Single::of(P0_01), decay: Single::of(P0_25), level: Single::of(P0_6), vary: Single::of(P0_4), ..Layer::default() });
            },
            Effect::Pickup => {
                r.push(Layer { src: Src::Tone(Waveform::Sine), f0: Single::of(P660), fm_ratio: Single::of(THREE), fm: Single::of(P0_6), hold: Single::of(P0_03), decay: Single::of(P0_12), level: Single::of(HALF), vary: Single::of(P0_15), ..Layer::default() });
                r.push(Layer { src: Src::Tone(Waveform::Sine), f0: Single::of(P990), fm_ratio: Single::of(THREE), fm: Single::of(P0_6), delay: Single::of(P0_07), hold: Single::of(P0_03), decay: Single::of(P0_12), level: Single::of(HALF), vary: Single::of(P0_15), ..Layer::default() });
                r.push(Layer { src: Src::Tone(Waveform::Sine), f0: Single::of(P1320), fm_ratio: Single::of(THREE), fm: Single::of(P0_6), delay: Single::of(P0_14), hold: Single::of(P0_03), decay: Single::of(P0_3), level: Single::of(HALF), vary: Single::of(P0_15), ..Layer::default() });
                r.push(Layer { src: Src::White, mode: FilterMode::HighPass, f0: Single::of(P6000), delay: Single::of(P0_14), hold: Single::of(P0_01), decay: Single::of(P0_2), level: Single::of(P0_12), ..Layer::default() });
            },
            Effect::Boost => {
                r.push(Layer { src: Src::Pink, mode: FilterMode::BandPass, f0: Single::of(P250), f1: Single::of(P4500), glide: Single::of(P0_35), q: Single::of(P0_6), attack: Single::of(P0_25), hold: Single::of(P0_05), decay: Single::of(HALF), level: Single::of(P1_8), ..Layer::default() });
                r.push(Layer { src: Src::Tone(Waveform::Saw), f0: Single::of(P70), f1: Single::of(P520), glide: Single::of(P0_4), attack: Single::of(P0_2), hold: Single::of(P0_05), decay: Single::of(P0_35), level: Single::of(P0_3), vary: Single::of(P0_4), ..Layer::default() });
                r.push(Layer { src: Src::Tone(Waveform::Sine), f0: Single::of(P120), f1: Single::of(P40), glide: Single::of(P0_06), hold: Single::of(P0_01), decay: Single::of(P0_3), level: Single::of(P0_8), vary: Single::of(P0_4), ..Layer::default() });
                r.push(Layer { src: Src::White, mode: FilterMode::HighPass, f0: Single::of(P5000), attack: Single::of(P0_3), hold: Single::of(P0_05), decay: Single::of(P0_6), level: Single::of(P0_2), ..Layer::default() });
            },
            Effect::Quake => {
                r.push(Layer { src: Src::Tone(Waveform::Sine), f0: Single::of(P70), f1: Single::of(P24), glide: Single::of(P0_8), attack: Single::of(P0_05), hold: Single::of(P0_4), decay: Single::of(P1_2), level: Single::of(P0_6), vary: Single::of(P0_4), ..Layer::default() });
                r.push(Layer { src: Src::Pink, mode: FilterMode::LowPass, f0: Single::of(P220), f1: Single::of(P90), glide: Single::of(P0_8), attack: Single::of(P0_1), hold: Single::of(HALF), decay: Single::of(P1_2), level: Single::of(P0_9), drive: Single::of(P0_6), ..Layer::default() });
                r.push(Layer { src: Src::Debris, f0: Single::of(P900), f1: Single::of(P300), glide: Single::of(ONE), rate: Single::of(P60), spread: Single::of(P1_5), q: Single::of(P0_7), attack: Single::of(P0_1), hold: Single::of(HALF), decay: Single::of(ONE), level: Single::of(P0_6), ..Layer::default() });
            },
            Effect::Emp => {
                r.push(Layer { src: Src::Debris, f0: Single::of(P5000), f1: Single::of(P2000), glide: Single::of(P0_4), rate: Single::of(P320), spread: Single::of(ONE), q: Single::of(HALF), hold: Single::of(P0_2), decay: Single::of(P0_8), level: Single::of(P1_1), ..Layer::default() });
                r.push(Layer { src: Src::Tone(Waveform::Saw), f0: Single::of(P110), hold: Single::of(P0_06), decay: Single::of(P0_3), level: Single::of(P0_16), vary: Single::of(P0_3), ..Layer::default() });
                r.push(Layer { src: Src::Tone(Waveform::Sine), f0: Single::of(P900), f1: Single::of(P90), glide: Single::of(P0_15), fm_ratio: Single::of(HALF), fm: Single::of(TWO), hold: Single::of(P0_02), decay: Single::of(P0_45), level: Single::of(HALF), ..Layer::default() });
            },
            Effect::Airbrake => {
                r.push(Layer { src: Src::White, mode: FilterMode::HighPass, f0: Single::of(P2200), f1: Single::of(P3800), glide: Single::of(P0_2), attack: Single::of(P0_015), hold: Single::of(P0_08), decay: Single::of(P0_35), level: Single::of(P0_6), ..Layer::default() });
                r.push(Layer { src: Src::Tone(Waveform::Sine), f0: Single::of(P95), f1: Single::of(P60), glide: Single::of(P0_04), hold: Single::of(P0_005), decay: Single::of(P0_08), level: Single::of(P0_6), vary: Single::of(P0_4), ..Layer::default() });
                r.push(Layer { src: Src::Tone(Waveform::Saw), f0: Single::of(P300), f1: Single::of(P180), glide: Single::of(P0_15), attack: Single::of(P0_01), hold: Single::of(P0_05), decay: Single::of(P0_2), level: Single::of(P0_1), ..Layer::default() });
            },
            Effect::Beep => {
                r.push(Layer { src: Src::Tone(Waveform::Sine), f0: Single::of(P880), fm_ratio: Single::of(TWO), fm: Single::of(P0_25), attack: Single::of(P0_002), hold: Single::of(P0_09), decay: Single::of(P0_06), level: Single::of(P0_6), vary: Single::of(P0_05), ..Layer::default() });
                r.push(Layer { src: Src::White, mode: FilterMode::HighPass, f0: Single::of(P4000), hold: Single::of(P0_001), decay: Single::of(P0_01), level: Single::of(P0_15), ..Layer::default() });
            },
            Effect::Laser => {
                r.push(Layer { src: Src::Tone(Waveform::Sine), f0: Single::of(P4200), f1: Single::of(P350), glide: Single::of(P0_035), fm_ratio: Single::of(HALF), fm: Single::of(TWO), hold: Single::of(P0_01), decay: Single::of(P0_16), level: Single::of(P0_8), ..Layer::default() });
                r.push(Layer { src: Src::Tone(Waveform::Saw), f0: Single::of(P2100), f1: Single::of(P180), glide: Single::of(P0_04), hold: Single::of(P0_008), decay: Single::of(P0_12), level: Single::of(P0_25), ..Layer::default() });
                r.push(Layer { src: Src::White, mode: FilterMode::BandPass, f0: Single::of(P6500), f1: Single::of(P3000), glide: Single::of(P0_05), q: Single::of(P0_7), hold: Single::of(P0_005), decay: Single::of(P0_08), level: Single::of(P0_35), ..Layer::default() });
                r.push(Layer { src: Src::Tone(Waveform::Sine), f0: Single::of(P180), f1: Single::of(P70), glide: Single::of(P0_03), hold: Single::of(P0_004), decay: Single::of(P0_06), level: Single::of(P0_35), vary: Single::of(P0_4), ..Layer::default() });
            },
            Effect::MineDrop => {
                r.push(Layer { src: Src::Tone(Waveform::Sine), f0: Single::of(P150), f1: Single::of(P70), glide: Single::of(P0_04), hold: Single::of(P0_008), decay: Single::of(P0_12), level: Single::of(P0_9), vary: Single::of(P0_4), ..Layer::default() });
                r.push(Layer { src: Src::White, mode: FilterMode::HighPass, f0: Single::of(P2800), hold: Single::of(P0_002), decay: Single::of(P0_025), level: Single::of(HALF), ..Layer::default() });
                r.push(Layer { src: Src::Pink, mode: FilterMode::BandPass, f0: Single::of(P1100), f1: Single::of(P260), glide: Single::of(P0_12), q: Single::of(HALF), attack: Single::of(P0_02), hold: Single::of(P0_05), decay: Single::of(P0_3), level: Single::of(P1_4), ..Layer::default() });
                r.push(Layer { src: Src::Tone(Waveform::Sine), f0: Single::of(P1500), fm_ratio: Single::of(TWO), fm: Single::of(P0_3), delay: Single::of(P0_38), attack: Single::of(P0_002), hold: Single::of(P0_04), decay: Single::of(P0_03), level: Single::of(P0_4), vary: Single::of(P0_05), ..Layer::default() });
                r.push(Layer { src: Src::Tone(Waveform::Sine), f0: Single::of(P1500), fm_ratio: Single::of(TWO), fm: Single::of(P0_3), delay: Single::of(P0_52), attack: Single::of(P0_002), hold: Single::of(P0_04), decay: Single::of(P0_03), level: Single::of(P0_4), vary: Single::of(P0_05), ..Layer::default() });
                r.push(Layer { src: Src::Tone(Waveform::Sine), f0: Single::of(P2000), fm_ratio: Single::of(TWO), fm: Single::of(P0_3), delay: Single::of(P0_66), attack: Single::of(P0_002), hold: Single::of(P0_09), decay: Single::of(P0_08), level: Single::of(P0_45), vary: Single::of(P0_05), ..Layer::default() });
            },
            Effect::MineBlast => {
                r.push(Layer { src: Src::White, mode: FilterMode::HighPass, f0: Single::of(P2500), hold: Single::of(P0_003), decay: Single::of(P0_05), level: Single::of(P1_1), drive: Single::of(P0_6), ..Layer::default() });
                r.push(Layer { src: Src::Pink, mode: FilterMode::LowPass, f0: Single::of(P5000), f1: Single::of(P250), glide: Single::of(P0_09), q: Single::of(P0_25), hold: Single::of(P0_015), decay: Single::of(P0_45), level: Single::of(P1_6), drive: Single::of(P0_8), ..Layer::default() });
                r.push(Layer { src: Src::Tone(Waveform::Sine), f0: Single::of(P140), f1: Single::of(P45), glide: Single::of(P0_1), hold: Single::of(P0_02), decay: Single::of(P0_35), level: Single::of(P0_9), vary: Single::of(P0_4), ..Layer::default() });
                r.push(Layer { src: Src::Debris, f0: Single::of(P6000), f1: Single::of(P2500), glide: Single::of(P0_4), rate: Single::of(P220), spread: Single::of(P1_2), q: Single::of(P0_85), delay: Single::of(P0_02), hold: Single::of(P0_05), decay: Single::of(P0_7), level: Single::of(P0_7), ..Layer::default() });
                r.push(Layer { src: Src::Tone(Waveform::Sine), f0: Single::of(P1900), fm_ratio: Single::of(P1_41), fm: Single::of(P0_8), hold: Single::of(ZERO), decay: Single::of(P0_4), level: Single::of(P0_12), vary: Single::of(P1_5), ..Layer::default() });
            },
            Effect::LockOn => {
                r.push(Layer { src: Src::Tone(Waveform::Sine), f0: Single::of(P1200), fm_ratio: Single::of(TWO), fm: Single::of(P0_3), attack: Single::of(P0_002), hold: Single::of(P0_04), decay: Single::of(P0_02), level: Single::of(P0_45), vary: Single::of(P0_02), ..Layer::default() });
                r.push(Layer { src: Src::Tone(Waveform::Sine), f0: Single::of(P1200), fm_ratio: Single::of(TWO), fm: Single::of(P0_3), delay: Single::of(P0_09), attack: Single::of(P0_002), hold: Single::of(P0_04), decay: Single::of(P0_02), level: Single::of(P0_45), vary: Single::of(P0_02), ..Layer::default() });
                r.push(Layer { src: Src::Tone(Waveform::Sine), f0: Single::of(P1200), fm_ratio: Single::of(TWO), fm: Single::of(P0_3), delay: Single::of(P0_18), attack: Single::of(P0_002), hold: Single::of(P0_04), decay: Single::of(P0_02), level: Single::of(P0_45), vary: Single::of(P0_02), ..Layer::default() });
                r.push(Layer { src: Src::Tone(Waveform::Sine), f0: Single::of(P1800), fm_ratio: Single::of(TWO), fm: Single::of(P0_3), delay: Single::of(P0_3), attack: Single::of(P0_002), hold: Single::of(P0_28), decay: Single::of(P0_08), level: Single::of(P0_45), vary: Single::of(P0_02), ..Layer::default() });
            },
            Effect::ShieldUp => {
                r.push(Layer { src: Src::Tone(Waveform::Sine), f0: Single::of(P180), f1: Single::of(P520), glide: Single::of(P0_35), fm_ratio: Single::of(TWO), fm: Single::of(ONE), attack: Single::of(P0_25), hold: Single::of(P0_1), decay: Single::of(HALF), level: Single::of(HALF), vary: Single::of(P0_3), ..Layer::default() });
                r.push(Layer { src: Src::White, mode: FilterMode::BandPass, f0: Single::of(P3000), f1: Single::of(P7000), glide: Single::of(P0_4), q: Single::of(P0_85), attack: Single::of(P0_3), hold: Single::of(P0_1), decay: Single::of(P0_6), level: Single::of(HALF), ..Layer::default() });
                r.push(Layer { src: Src::Tone(Waveform::Sine), f0: Single::of(P60), f1: Single::of(P90), glide: Single::of(P0_3), attack: Single::of(P0_2), hold: Single::of(P0_1), decay: Single::of(P0_4), level: Single::of(HALF), vary: Single::of(P0_3), ..Layer::default() });
                r.push(Layer { src: Src::Debris, f0: Single::of(P7000), rate: Single::of(P120), spread: Single::of(P0_8), q: Single::of(P0_8), attack: Single::of(P0_3), hold: Single::of(P0_1), decay: Single::of(HALF), level: Single::of(P0_3), ..Layer::default() });
            },
        }
        r
    }

    pub open spec fn preset_list(self) -> Seq<(Seq<char>, FxParams)> {
        match self {
            Effect::Explosion => seq![
                ("Ship destroyed"@, FxParams { size: Single::of(P1_7), pitch: Single::of(N3), brightness: Single::of(P0_45), ..FxParams::plain() }),
                ("Mine"@, FxParams { size: Single::of(P0_65), pitch: Single::of(P4), brightness: Single::of(P0_6), ..FxParams::plain() }),
                ("Depth charge"@, FxParams { size: Single::of(P1_4), pitch: Single::of(N7), brightness: Single::of(P0_25), tail: Single::of(P0_8), ..FxParams::plain() }),
            ],
            Effect::Rocket => seq![
                ("Heavy missile"@, FxParams { size: Single::of(P1_5), pitch: Single::of(N5), brightness: Single::of(P0_4), ..FxParams::plain() }),
                ("Dart"@, FxParams { size: Single::of(P0_6), pitch: Single::of(P5), brightness: Single::of(P0_65), ..FxParams::plain() }),
            ],
            Effect::Plasma => seq![
                ("Heavy cannon"@, FxParams { size: Single::of(P1_6), pitch: Single::of(N9), brightness: Single::of(P0_45), ..FxParams::plain() }),
                ("Pulse rifle"@, FxParams { size: Single::of(HALF), pitch: Single::of(P5), brightness: Single::of(P0_6), ..FxParams::plain() }),
            ],
            Effect::Cannon => seq![
                ("Heavy"@, FxParams { size: Single::of(P1_5), pitch: Single::of(N5), brightness: Single::of(P0_4), ..FxParams::plain() }),
                ("Rattle"@, FxParams { size: Single::of(P0_6), pitch: Single::of(P4), brightness: Single::of(P0_65), ..FxParams::plain() }),
            ],
            Effect::Impact => seq![
                ("Heavy slam"@, FxParams { size: Single::of(P1_6), pitch: Single::of(N7), brightness: Single::of(P0_4), ..FxParams::plain() }),
                ("Glancing"@, FxParams { size: Single::of(P0_6), pitch: Single::of(P5), brightness: Single::of(P0_6), punch: Single::of(P0_3), ..FxParams::plain() }),
            ],
            Effect::ShieldHit => seq![
                ("Overload"@, FxParams { size: Single::of(P1_5), pitch: Single::of(N5), brightness: Single::of(P0_7), ..FxParams::plain() }),
            ],
            Effect::Pickup => seq![
                ("Rare item"@, FxParams { size: Single::of(P1_4), pitch: Single::of(P5), brightness: Single::of(P0_65), ..FxParams::plain() }),
                ("Energy cell"@, FxParams { size: Single::of(P0_8), pitch: Single::of(N5), brightness: Single::of(P0_4), ..FxParams::plain() }),
            ],
            Effect::Boost => seq![
                ("Turbo"@, FxParams { size: Single::of(P1_5), pitch: Single::of(N3), brightness: Single::of(P0_6), ..FxParams::plain() }),
                ("Nudge"@, FxParams { size: Single::of(P0_6), pitch: Single::of(P4), brightness: Single::of(HALF), ..FxParams::plain() }),
            ],
            Effect::Quake => seq![
                ("Tremor"@, FxParams { size: Single::of(P0_6), pitch: Single::of(THREE), brightness: Single::of(P0_4), punch: Single::of(P0_3), ..FxParams::plain() }),
            ],
            Effect::Emp => seq![
                ("Short circuit"@, FxParams { size: Single::of(HALF), pitch: Single::of(P7), brightness: Single::of(P0_7), ..FxParams::plain() }),
            ],
            Effect::Airbrake => seq![
            ],
            Effect::Beep => seq![
                ("Go"@, FxParams { size: Single::of(P2_5), pitch: Single::of(P12), brightness: Single::of(P0_55), variation: Single::of(ZERO), ..FxParams::plain() }),
                ("Lock-on"@, FxParams { size: Single::of(HALF), pitch: Single::of(P7), brightness: Single::of(P0_6), variation: Single::of(ZERO), ..FxParams::plain() }),
                ("Warning"@, FxParams { size: Single::of(P1_2), pitch: Single::of(N5), brightness: Single::of(P0_6), variation: Single::of(ZERO), ..FxParams::plain() }),
            ],
            Effect::Laser => seq![
                ("Heavy laser"@, FxParams { size: Single::of(P1_6), pitch: Single::of(N7), brightness: Single::of(P0_45), ..FxParams::plain() }),
                ("Needle"@, FxParams { size: Single::of(HALF), pitch: Single::of(P7), brightness: Single::of(P0_7), ..FxParams::plain() }),
                ("Charged shot"@, FxParams { size: Single::of(P2_2), pitch: Single::of(N12), brightness: Single::of(P0_55), punch: Single::of(P0_8), tail: Single::of(P0_7), ..FxParams::plain() }),
            ],
            Effect::MineDrop => seq![
                ("Heavy mine"@, FxParams { size: Single::of(P1_4), pitch: Single::of(N5), brightness: Single::of(P0_4), ..FxParams::plain() }),
                ("Cluster"@, FxParams { size: Single::of(P0_6), pitch: Single::of(P5), brightness: Single::of(P0_6), ..FxParams::plain() }),
            ],
            Effect::MineBlast => seq![
                ("Proximity cluster"@, FxParams { size: Single::of(P0_6), pitch: Single::of(P5), brightness: Single::of(P0_65), ..FxParams::plain() }),
                ("Magnetic mine"@, FxParams { size: Single::of(P1_5), pitch: Single::of(N5), brightness: Single::of(P0_4), ..FxParams::plain() }),
            ],
            Effect::LockOn => seq![
                ("Incoming!"@, FxParams { size: Single::of(P0_7), pitch: Single::of(P7), brightness: Single::of(P0_65), variation: Single::of(ZERO), ..FxParams::plain() }),
            ],
            Effect::ShieldUp => seq![
                ("Autopilot engage"@, FxParams { size: Single::of(P0_7), pitch: Single::of(P7), brightness: Single::of(P0_6), ..FxParams::plain() }),
            ],
        }
    }

    pub fn presets(self) -> (r: Vec<(&'static str, FxParams)>)
        ensures
            r@.len() == self.preset_list().len(),
            forall|i: int| 0 <= i < r@.len() ==> (#[trigger] r@[i]).0@ == self.preset_list()[i].0 && r@[i].1 == self.preset_list()[i].1,
    {
        let mut r: Vec<(&'static str, FxParams)> = Vec::new();
        match self {
            Effect::Explosion => {
                r.push(("Ship destroyed", FxParams { size: Single::of(P1_7), pitch: Single::of(N3), brightness: Single::of(P0_45), ..FxParams::default() }));
                r.push(("Mine", FxParams { size: Single::of(P0_65), pitch: Single::of(P4), brightness: Single::of(P0_6), ..FxParams::default() }));
                r.push(("Depth charge", FxParams { size: Single::of(P1_4), pitch: Single::of(N7), brightness: Single::of(P0_25), tail: Single::of(P0_8), ..FxParams::default() }));
            },
            Effect::Rocket => {
                r.push(("Heavy missile", FxParams { size: Single::of(P1_5), pitch: Single::of(N5), brightness: Single::of(P0_4), ..FxParams::default() }));
                r.push(("Dart", FxParams { size: Single::of(P0_6), pitch: Single::of(P5), brightness: Single::of(P0_65), ..FxParams::default() }));
            },
            Effect::Plasma => {
                r.push(("Heavy cannon", FxParams { size: Single::of(P1_6), pitch: Single::of(N9), brightness: Single::of(P0_45), ..FxParams::default() }));
                r.push(("Pulse rifle", FxParams { size: Single::of(HALF), pitch: Single::of(P5), brightness: Single::of(P0_6), ..FxParams::default() }));
            },
            Effect::Cannon => {
                r.push(("Heavy", FxParams { size: Single::of(P1_5), pitch: Single::of(N5), brightness: Single::of(P0_4), ..FxParams::default() }));
                r.push(("Rattle", FxParams { size: Single::of(P0_6), pitch: Single::of(P4), brightness: Single::of(P0_65), ..FxParams::default() }));
            },
            Effect::Impact => {
                r.push(("Heavy slam", FxParams { size: Single::of(P1_6), pitch: Single::of(N7), brightness: Single::of(P0_4), ..FxParams::default() }));
                r.push(("Glancing", FxParams { size: Single::of(P0_6), pitch: Single::of(P5), brightness: Single::of(P0_6), punch: Single::of(P0_3), ..FxParams::default() }));
            },
            Effect::ShieldHit => {
                r.push(("Overload", FxParams { size: Single::of(P1_5), pitch: Single::of(N5), brightness: Single::of(P0_7), ..FxParams::default() }));
            },
            Effect::Pickup => {
                r.push(("Rare item", FxParams { size: Single::of(P1_4), pitch: Single::of(P5), brightness: Single::of(P0_65), ..FxParams::default() }));
                r.push(("Energy cell", FxParams { size: Single::of(P0_8), pitch: Single::of(N5), brightness: Single::of(P0_4), ..FxParams::default() }));
            },
            Effect::Boost => {
                r.push(("Turbo", FxParams { size: Single::of(P1_5), pitch: Single::of(N3), brightness: Single::of(P0_6), ..FxParams::default() }));
                r.push(("Nudge", FxParams { size: Single::of(P0_6), pitch: Single::of(P4), brightness: Single::of(HALF), ..FxParams::default() }));
            },
            Effect::Quake => {
                r.push(("Tremor", FxParams { size: Single::of(P0_6), pitch: Single::of(THREE), brightness: Single::of(P0_4), punch: Single::of(P0_3), ..FxParams::default() }));
            },
            Effect::Emp => {
                r.push(("Short circuit", FxParams { size: Single::of(HALF), pitch: Single::of(P7), brightness: Single::of(P0_7), ..FxParams::default() }));
            },
            Effect::Airbrake => {
            },
            Effect::Beep => {
                r.push(("Go", FxParams { size: Single::of(P2_5), pitch: Single::of(P12), brightness: Single::of(P0_55), variation: Single::of(ZERO), ..FxParams::default() }));
                r.push(("Lock-on", FxParams { size: Single::of(HALF), pitch: Single::of(P7), brightness: Single::of(P0_6), variation: Single::of(ZERO), ..FxParams::default() }));
                r.push(("Warning", FxParams { size: Single::of(P1_2), pitch: Single::of(N5), brightness: Single::of(P0_6), variation: Single::of(ZERO), ..FxParams::default() }));
            },
            Effect::Laser => {
                r.push(("Heavy laser", FxParams { size: Single::of(P1_6), pitch: Single::of(N7), brightness: Single::of(P0_45), ..FxParams::default() }));
                r.push(("Needle", FxParams { size: Single::of(HALF), pitch: Single::of(P7), brightness: Single::of(P0_7), ..FxParams::default() }));
                r.push(("Charged shot", FxParams { size: Single::of(P2_2), pitch: Single::of(N12), brightness: Single::of(P0_55), punch: Single::of(P0_8), tail: Single::of(P0_7), ..FxParams::default() }));
            },
            Effect::MineDrop => {
                r.push(("Heavy mine", FxParams { size: Single::of(P1_4), pitch: Single::of(N5), brightness: Single::of(P0_4), ..FxParams::default() }));
                r.push(("Cluster", FxParams { size: Single::of(P0_6), pitch: Single::of(P5), brightness: Single::of(P0_6), ..FxParams::default() }));
            },
            Effect::MineBlast => {
                r.push(("Proximity cluster", FxParams { size: Single::of(P0_6), pitch: Single::of(P5), brightness: Single::of(P0_65), ..FxParams::default() }));
                r.push(("Magnetic mine", FxParams { size: Single::of(P1_5), pitch: Single::of(N5), brightness: Single::of(P0_4), ..FxParams::default() }));
            },
            Effect::LockOn => {
                r.push(("Incoming!", FxParams { size: Single::of(P0_7), pitch: Single::of(P7), brightness: Single::of(P0_65), variation: Single::of(ZERO), ..FxParams::default() }));
            },
            Effect::ShieldUp => {
                r.push(("Autopilot engage", FxParams { size: Single::of(P0_7), pitch: Single::of(P7), brightness: Single::of(P0_6), ..FxParams::default() }));
            },
        }
        r
    }
}

/// A seed from the letters of a name: each letter is mixed into the seed of those before it.
pub open spec fn name_seed(name: Seq<char>) -> u32
    decreases name.len(),
{
    if name.len() == 0 {
        0x811C_9DC5
    } else {
        (name_seed(name.drop_last()) ^ (name.last() as u32)).wrapping_mul(0x0100_0193)
    }
}

fn seed_of_name(name: &str) -> (r: u32)
    ensures
        r == name_seed(name@),
{
    let letters = crate::text::chars_of(name);
    let mut h: u32 = 0x811C_9DC5;
    let mut i: usize = 0;
    assert(letters@.take(0) =~= seq![]);
    while i < letters.len()
        invariant
            i <= letters@.len(),
            h == name_seed(letters@.take(i as int)),
        decreases letters@.len() - i,
    {
        let c = letters[i];
        h = (h ^ (c as u32)).wrapping_mul(0x0100_0193);
        i = i + 1;
        assert(letters@.take(i as int).drop_last() =~= letters@.take(i - 1));
    }
    assert(letters@.take(i as int) =~= letters@);
    h
}

/// Event number `E` as a one-shot [`Generator`].
pub struct OneShot<const E: usize> {
    pub engine: FxEngine,
    pub layers: Vec<Layer>,
}

proof fn lemma_strand_len(f: Sums, l: Layer, m: LayerMix, s: Strand, x: Seq<Single>)
    ensures
        strand_run(f, l, m, s, x).1.len() == x.len(),
    decreases x.len(),
{
    if x.len() > 0 {
        lemma_strand_len(f, l, m, s, x.drop_last());
    }
}

proof fn lemma_space_len(f: Sums, m: SpaceMix, s: SpaceView, x: Seq<Single>)
    ensures
        space_run(f, m, s, x).1.len() == x.len(),
    decreases x.len(),
{
    if x.len() > 0 {
        lemma_space_len(f, m, s, x.drop_last());
    }
}

proof fn lemma_layers_len(f: Sums, layers: Seq<Layer>, p: FxParams, c: Scene, s: FxView, x: Seq<Single>, k: nat)
    ensures
        layers_played(f, layers, p, c, s, x, k).1.len() == x.len(),
    decreases k,
{
    if k > 0 {
        lemma_layers_len(f, layers, p, c, s, x, (k - 1) as nat);
        let (t, y, any) = layers_played(f, layers, p, c, s, x, (k - 1) as nat);
        if t.lanes[k - 1].on {
            let strand = Strand { lane: t.lanes[k - 1], noise: t.noise, rng: t.rng };
            reveal(layer_played);
            let l = layers[k - 1];
            let m = layer_mix(f, l, p, c, strand.lane);
            assert forall|filter: Svf| #[trigger] strand_run(f, l, m, Strand { lane: Lane { filter, ..strand.lane }, ..strand }, y).1.len() == y.len() by {
                lemma_strand_len(f, l, m, Strand { lane: Lane { filter, ..strand.lane }, ..strand }, y);
            }
        }
    }
}

/// A block is as long as what it replaces, and does not depend on that.
proof fn lemma_fx_block_overwrites(s: FxView, f: Sums, layers: Seq<Layer>, p: FxParams, reverb: Single, reverb_time: Single, a: Seq<Single>, b: Seq<Single>)
    requires
        a.len() == b.len(),
    ensures
        s.block(f, layers, p, reverb, reverb_time, a) == s.block(f, layers, p, reverb, reverb_time, b),
        s.block(f, layers, p, reverb, reverb_time, a).1.len() == a.len(),
{
    reveal(FxView::block);
    let zeros = Seq::new(a.len(), |j: int| Single::of(ZERO));
    assert(zeros =~= Seq::new(b.len(), |j: int| Single::of(ZERO)));
    let c = s.scene(f, p);
    lemma_layers_len(f, layers, p, c, s, zeros, lanes_used(layers));
    let (t, y, any) = layers_played(f, layers, p, c, s, zeros, lanes_used(layers));
    let rt = t.ring(f, p, c.size, reverb_time);
    lemma_space_len(f, t.space_mix(f, p, reverb, rt), t.space, y);
}

impl<const E: usize> Generator for OneShot<E> {
    type P = FxParams;

    type State = FxView;

    open spec fn about() -> ProfileView {
        ProfileView {
            name: Effect::numbered(E as int).label(),
            category: "fx"@,
            doc: Effect::numbered(E as int).story(),
            smooth_secs: Single::of(ZERO),
            limit: true,
            one_shot: true,
        }
    }

    open spec fn input_list() -> Seq<InputView> {
        seq![
            InputView { name: "power"@, default: Single::of(ONE), doc: "Glancing hit to full blast: level, size and brightness"@ },
            InputView { name: "distance"@, default: Single::of(ZERO), doc: "0 = on top of the listener, 1 = far off (duller, roomier)"@ },
        ]
    }

    open spec fn preset_list() -> Seq<(Seq<char>, FxParams)> {
        Effect::numbered(E as int).preset_list()
    }

    open spec fn wf(&self) -> bool {
        self.engine.wf() && self.layers@ == Effect::numbered(E as int).recipe() && self.layers@.len() <= MAX_LAYERS
    }

    open spec fn state(&self) -> FxView {
        self.engine@
    }

    open spec fn fresh(f: Sums, sample_rate: Single) -> FxView {
        FxView::started(f, sample_rate, name_seed(Effect::numbered(E as int).label()))
    }

    open spec fn snapped(s: FxView, f: Sums, x: Seq<Single>, p: FxParams) -> FxView {
        s
    }

    open spec fn fired(s: FxView, f: Sums, x: Seq<Single>, p: FxParams) -> FxView {
        s.fired(f, Effect::numbered(E as int).recipe(), p, x[0], x[1])
    }

    open spec fn ringing(s: FxView) -> bool {
        s.active()
    }

    open spec fn played(s: FxView, f: Sums, x: Seq<Single>, p: FxParams, out: Seq<Single>) -> (FxView, Seq<Single>) {
        let e = Effect::numbered(E as int);
        s.block(f, e.recipe(), p, e.room().0, e.room().1, out)
    }

    proof fn lemma_overwrites(s: FxView, f: Sums, x: Seq<Single>, p: FxParams, a: Seq<Single>, b: Seq<Single>) {
        let e = Effect::numbered(E as int);
        lemma_fx_block_overwrites(s, f, e.recipe(), p, e.room().0, e.room().1, a, b);
    }

    fn profile() -> (r: Profile) {
        let e = Effect::from_number(E);
        Profile {
            name: e.name(),
            category: "fx",
            doc: e.doc(),
            smooth_secs: Single::of(ZERO),
            limit: true,
            one_shot: true,
        }
    }

    fn inputs() -> (r: Vec<InputSpec>) {
        let mut r: Vec<InputSpec> = Vec::new();
        r.push(InputSpec { name: "power", default: Single::of(ONE), doc: "Glancing hit to full blast: level, size and brightness" });
        r.push(InputSpec { name: "distance", default: Single::of(ZERO), doc: "0 = on top of the listener, 1 = far off (duller, roomier)" });
        r
    }

    fn presets() -> (r: Vec<(&'static str, FxParams)>) {
        Effect::from_number(E).presets()
    }

    fn new<F: Fn(Prim, Single, Single) -> Single>(fpu: &F, sample_rate: Single) -> (r: OneShot<E>) {
        let e = Effect::from_number(E);
        OneShot { engine: FxEngine::new(fpu, sample_rate, seed_of_name(e.name())), layers: e.layers() }
    }

    fn snap<F: Fn(Prim, Single, Single) -> Single>(&mut self, fpu: &F, x: &Vec<Single>, p: &FxParams) {
    }

    fn trigger<F: Fn(Prim, Single, Single) -> Single>(&mut self, fpu: &F, x: &Vec<Single>, p: &FxParams) {
        self.engine.trigger(fpu, &self.layers, p, x[0], x[1]);
    }

    fn is_active(&self) -> (r: bool) {
        self.engine.is_active()
    }

    fn block<F: Fn(Prim, Single, Single) -> Single>(&mut self, fpu: &F, x: &Vec<Single>, p: &FxParams, out: &mut Vec<Single>, start: usize, end: usize) {
        let (reverb, time) = Effect::from_number(E).reverb();
        self.engine.block(fpu, &self.layers, p, reverb, time, out, start, end);
    }
}

/// Without variation every trigger gives the same event: noise, dice and layers start alike.
pub proof fn lemma_no_variation_repeats(a: FxView, f: Sums, layers: Seq<Layer>, p: FxParams, power: Single, distance: Single)
    requires
        p.variation.at_most(Single::of(ZERO)),
        a.lanes.len() == MAX_LAYERS,
    ensures
        a.fired(f, layers, p, power, distance).noise == FxView::started(f, a.sr, a.seed).noise,
        a.fired(f, layers, p, power, distance).rng == lanes_fired(
            f,
            layers,
            p,
            a.lanes,
            FxView::started(f, a.sr, a.seed).rng,
            MAX_LAYERS as nat,
        ).1,
{
}

/// Firing an effect makes it ring, whatever it was doing.
pub proof fn lemma_fired_event_rings(s: FxView, f: Sums, layers: Seq<Layer>, p: FxParams, power: Single, distance: Single)
    requires
        s.lanes.len() == MAX_LAYERS,
        layers.len() > 0,
    ensures
        s.fired(f, layers, p, power, distance).active(),
{
    let t = if p.variation.at_most(Single::of(ZERO)) {
        s.rewound()
    } else {
        s
    };
    lemma_first_lane_on(f, layers, p, t.lanes, t.rng, MAX_LAYERS as nat);
    assert(s.fired(f, layers, p, power, distance).lanes[0].on);
}

proof fn lemma_first_lane_on(f: Sums, layers: Seq<Layer>, p: FxParams, lanes: Seq<Lane>, r: Rng, k: nat)
    requires
        lanes.len() == MAX_LAYERS,
        layers.len() > 0,
        1 <= k <= MAX_LAYERS,
    ensures
        lanes_fired(f, layers, p, lanes, r, k).0.len() == MAX_LAYERS,
        lanes_fired(f, layers, p, lanes, r, k).0[0].on,
    decreases k,
{
    if k == 1 {
        assert(lanes_fired(f, layers, p, lanes, r, 0) == (lanes, r));
    } else {
        lemma_first_lane_on(f, layers, p, lanes, r, (k - 1) as nat);
    }
}

/// Every layer has ended.
pub open spec fn layers_over(s: FxView) -> bool {
    s.lanes.len() == MAX_LAYERS && forall|k: int| 0 <= k < s.lanes.len() ==> !(#[trigger] s.lanes[k]).on
}

/// The engine after a number of blocks of `x.len()` samples.
pub open spec fn after_blocks(s: FxView, f: Sums, layers: Seq<Layer>, p: FxParams, room: (Single, Single), x: Seq<Single>, k: nat) -> FxView
    decreases k,
{
    if k == 0 {
        s
    } else {
        after_blocks(s.block(f, layers, p, room.0, room.1, x).0, f, layers, p, room, x, (k - 1) as nat)
    }
}

/// Arithmetic in which a block of `n` samples takes something off whatever is left of a tail of up
/// to `most`, and nothing off nothing.
pub open spec fn time_passes(f: Sums, sr: Single, n: int, most: Single) -> bool {
    forall|t: Single|
        #![trigger f(Prim::Sub, t, f(Prim::Mul, crate::single::signed_integer(n), f(Prim::Div, Single::of(ONE), sr)))]
        Single::of(ZERO).at_most(t) && t.at_most(most) ==> {
            let left = f(Prim::Sub, t, f(Prim::Mul, crate::single::signed_integer(n), f(Prim::Div, Single::of(ONE), sr))).larger(
                Single::of(ZERO),
            );
            &&& Single::of(ZERO).below(t) ==> left.below(t)
            &&& t.zero() ==> left.zero()
        }
}

proof fn lemma_no_layer_plays(f: Sums, layers: Seq<Layer>, p: FxParams, c: Scene, s: FxView, x: Seq<Single>, k: nat)
    requires
        layers_over(s),
        k <= MAX_LAYERS,
    ensures
        layers_played(f, layers, p, c, s, x, k) == (s, x, false),
    decreases k,
{
    if k > 0 {
        lemma_no_layer_plays(f, layers, p, c, s, x, (k - 1) as nat);
        assert(!s.lanes[k - 1].on);
    }
}

/// Once its last layer has ended, an event rings out: every block shortens its tail, which is gone
/// after finitely many of them, and nothing starts it again.
pub proof fn lemma_tail_rings_out(s: FxView, f: Sums, layers: Seq<Layer>, p: FxParams, room: (Single, Single), x: Seq<Single>, most: Single, k: nat)
    requires
        layers_over(s),
        time_passes(f, s.sr, x.len() as int, most),
        s.tail_left.at_most(most),
        0 <= s.tail_left.order() <= k,
    ensures
        !after_blocks(s, f, layers, p, room, x, k).active(),
    decreases k,
{
    if k > 0 {
        let t = s.block(f, layers, p, room.0, room.1, x).0;
        let zeros = Seq::new(x.len(), |j: int| Single::of(ZERO));
        reveal(FxView::block);
        lemma_no_layer_plays(f, layers, p, s.scene(f, p), s, zeros, lanes_used(layers));
        let step = f(Prim::Mul, crate::single::signed_integer(x.len() as int), f(Prim::Div, Single::of(ONE), s.sr));
        assert(t.tail_left == f(Prim::Sub, s.tail_left, step).larger(Single::of(ZERO)));
        assert(t.lanes == s.lanes && t.sr == s.sr);
        lemma_tail_rings_out(t, f, layers, p, room, x, most, (k - 1) as nat);
    }
}

/// A clock a number of samples later.
pub open spec fn clock_after(f: Sums, t: Single, dt: Single, n: nat) -> Single
    decreases n,
{
    if n == 0 {
        t
    } else {
        f(Prim::Add, clock_after(f, t, dt, (n - 1) as nat), dt)
    }
}

/// When a layer is over, on its own clock.
pub open spec fn layer_end(f: Sums, l: Layer, p: FxParams, c: Scene, lane: Lane) -> Single {
    let m = layer_mix(f, l, p, c, lane);
    f(Prim::Add, f(Prim::Add, m.attack, m.hold), m.decay)
}

proof fn lemma_tick_moves_clock(f: Sums, l: Layer, m: LayerMix, s: Strand, v: Single)
    ensures
        ({
            let lane = strand_tick(f, l, m, s, v).0.lane;
            lane.t == f(Prim::Add, s.lane.t, m.dt) && lane.time == s.lane.time && lane.on == s.lane.on
        }),
{
    reveal(strand_tick);
}

proof fn lemma_run_moves_clock(f: Sums, l: Layer, m: LayerMix, s: Strand, x: Seq<Single>)
    ensures
        ({
            let lane = strand_run(f, l, m, s, x).0.lane;
            lane.t == clock_after(f, s.lane.t, m.dt, x.len()) && lane.time == s.lane.time && lane.on == s.lane.on
        }),
    decreases x.len(),
{
    if x.len() > 0 {
        lemma_run_moves_clock(f, l, m, s, x.drop_last());
        lemma_tick_moves_clock(f, l, m, strand_run(f, l, m, s, x.drop_last()).0, x.last());
    }
}

proof fn lemma_layer_moves_clock(f: Sums, l: Layer, p: FxParams, c: Scene, s: Strand, x: Seq<Single>)
    ensures
        ({
            let lane = layer_played(f, l, p, c, s, x).0.lane;
            let t = clock_after(f, s.lane.t, f(Prim::Div, Single::of(ONE), c.sr), x.len());
            lane.t == t && lane.time == s.lane.time && lane.on == (s.lane.on && !layer_end(f, l, p, c, s.lane).below(t))
        }),
        layer_played(f, l, p, c, s, x).1.len() == x.len(),
{
    reveal(layer_played);
    let m = layer_mix(f, l, p, c, s.lane);
    let tuned = if l.src == Src::White || l.src == Src::Pink {
        s.lane.filter.tuned(f, l.mode, f(Prim::Mul, m.hz, m.bright).smaller(f(Prim::Mul, m.sr, Single::of(P0_45))), l.q, m.sr)
    } else {
        s.lane.filter
    };
    let start = Strand { lane: Lane { filter: tuned, ..s.lane }, ..s };
    lemma_run_moves_clock(f, l, m, start, x);
    lemma_strand_len(f, l, m, start, x);
}

/// What a block does to a lane: a layer that is on moves its clock and may end, the others rest.
spec fn lane_later(f: Sums, l: Layer, p: FxParams, c: Scene, a: Lane, n: nat, b: Lane) -> bool {
    let t = clock_after(f, a.t, f(Prim::Div, Single::of(ONE), c.sr), n);
    if a.on {
        b.t == t && b.time == a.time && b.on == !layer_end(f, l, p, c, a).below(t)
    } else {
        b == a
    }
}

proof fn lemma_layers_move_clocks(f: Sums, layers: Seq<Layer>, p: FxParams, c: Scene, s: FxView, x: Seq<Single>, k: nat)
    requires
        s.lanes.len() == MAX_LAYERS,
        k <= MAX_LAYERS,
    ensures
        ({
            let (t, y, any) = layers_played(f, layers, p, c, s, x, k);
            &&& t.lanes.len() == MAX_LAYERS
            &&& y.len() == x.len()
            &&& t.sr == s.sr && t.power == s.power && t.tail_left == s.tail_left
            &&& forall|i: int| 0 <= i < k ==> lane_later(f, layers[i], p, c, s.lanes[i], x.len(), #[trigger] t.lanes[i])
            &&& forall|i: int| k <= i < MAX_LAYERS ==> #[trigger] t.lanes[i] == s.lanes[i]
        }),
    decreases k,
{
    if k > 0 {
        lemma_layers_move_clocks(f, layers, p, c, s, x, (k - 1) as nat);
        let (t, y, any) = layers_played(f, layers, p, c, s, x, (k - 1) as nat);
        assert(t.lanes[k - 1] == s.lanes[k - 1]);
        if t.lanes[k - 1].on {
            lemma_layer_moves_clock(f, layers[k - 1], p, c, Strand { lane: t.lanes[k - 1], noise: t.noise, rng: t.rng }, y);
        }
        let (u, z, _) = layers_played(f, layers, p, c, s, x, k);
        assert forall|i: int| 0 <= i < k implies lane_later(f, layers[i], p, c, s.lanes[i], x.len(), #[trigger] u.lanes[i]) by {
            if i < k - 1 {
                assert(lane_later(f, layers[i], p, c, s.lanes[i], x.len(), t.lanes[i]));
                assert(u.lanes[i] == t.lanes[i]);
            }
        }
    }
}

/// Arithmetic in which a sample moves every clock up to `most` either way on, and brings none back.
pub open spec fn clocks_run(f: Sums, sr: Single, most: Single) -> bool {
    forall|t: Single|
        #![trigger f(Prim::Add, t, f(Prim::Div, Single::of(ONE), sr))]
        !t.nan() ==> {
            let u = f(Prim::Add, t, f(Prim::Div, Single::of(ONE), sr));
            &&& !u.nan()
            &&& t.absolute().at_most(most) ==> t.below(u)
            &&& most.below(t) ==> most.below(u)
        }
}

proof fn lemma_clock_runs(f: Sums, sr: Single, most: Single, t: Single, n: nat)
    requires
        clocks_run(f, sr, most),
        most.finite(),
        t.absolute().at_most(most) || most.below(t),
    ensures
        ({
            let u = clock_after(f, t, f(Prim::Div, Single::of(ONE), sr), n);
            &&& u.absolute().at_most(most) || most.below(u)
            &&& most.below(u) || u.order() >= t.order() + n
        }),
    decreases n,
{
    if n > 0 {
        lemma_clock_runs(f, sr, most, t, (n - 1) as nat);
        let v = clock_after(f, t, f(Prim::Div, Single::of(ONE), sr), (n - 1) as nat);
        let u = f(Prim::Add, v, f(Prim::Div, Single::of(ONE), sr));
        assert(!u.nan());
    }
}

/// Every layer that is on ends by `most` on its clock, within `k` blocks.
pub open spec fn ends_within(s: FxView, f: Sums, layers: Seq<Layer>, p: FxParams, most: Single, k: int) -> bool {
    &&& s.lanes.len() == MAX_LAYERS
    &&& forall|i: int|
        0 <= i < MAX_LAYERS && (#[trigger] s.lanes[i]).on ==> {
            &&& i < layers.len()
            &&& layer_end(f, layers[i], p, s.scene(f, p), s.lanes[i]).at_most(most)
            &&& s.lanes[i].t.absolute().at_most(most) || most.below(s.lanes[i].t)
            &&& if most.below(s.lanes[i].t) {
                1 <= k
            } else {
                most.order() - s.lanes[i].t.order() + 2 <= k
            }
        }
}

/// A tail lasts between nothing and `most`.
pub open spec fn tail_within(t: Single, most: Single) -> bool {
    Single::of(ZERO).at_most(t) && t.at_most(most)
}

proof fn lemma_block_brings_end_nearer(s: FxView, f: Sums, layers: Seq<Layer>, p: FxParams, room: (Single, Single), x: Seq<Single>, most: Single, k: int)
    requires
        x.len() > 0,
        most.finite(),
        clocks_run(f, s.sr, most),
        time_passes(f, s.sr, x.len() as int, most),
        ends_within(s, f, layers, p, most, k),
        tail_within(s.tail_left, most),
        tail_within(s.ring(f, p, s.scene(f, p).size, room.1), most),
    ensures
        ({
            let t = s.block(f, layers, p, room.0, room.1, x).0;
            &&& t.sr == s.sr && t.power == s.power
            &&& ends_within(t, f, layers, p, most, k - 1)
            &&& tail_within(t.tail_left, most)
        }),
{
    reveal(FxView::block);
    let c = s.scene(f, p);
    let zeros = Seq::new(x.len(), |i: int| Single::of(ZERO));
    let n = lanes_used(layers);
    lemma_layers_move_clocks(f, layers, p, c, s, zeros, n);
    let (u, y, any) = layers_played(f, layers, p, c, s, zeros, n);
    let t = s.block(f, layers, p, room.0, room.1, x).0;
    assert(t.lanes == u.lanes && t.sr == s.sr && t.power == s.power);
    assert forall|i: int| 0 <= i < MAX_LAYERS && (#[trigger] t.lanes[i]).on implies ({
        &&& i < layers.len()
        &&& layer_end(f, layers[i], p, t.scene(f, p), t.lanes[i]).at_most(most)
        &&& t.lanes[i].t.absolute().at_most(most) || most.below(t.lanes[i].t)
        &&& if most.below(t.lanes[i].t) {
            1 <= k - 1
        } else {
            most.order() - t.lanes[i].t.order() + 2 <= k - 1
        }
    }) by {
        let a = s.lanes[i];
        if i < n {
            assert(lane_later(f, layers[i], p, c, a, x.len(), u.lanes[i]));
        }
        assert(a.on);
        assert(i < layers.len());
        lemma_clock_runs(f, s.sr, most, a.t, x.len());
        assert(layer_end(f, layers[i], p, c, a).at_most(most));
    }
    let step = f(Prim::Mul, crate::single::signed_integer(x.len() as int), f(Prim::Div, Single::of(ONE), s.sr));
    let left = f(Prim::Sub, s.tail_left, step).larger(Single::of(ZERO));
    if !any {
        assert(t.tail_left == left);
    } else {
        assert(u.ring(f, p, c.size, room.1) == s.ring(f, p, c.size, room.1));
    }
}

proof fn lemma_after_more_blocks(s: FxView, f: Sums, layers: Seq<Layer>, p: FxParams, room: (Single, Single), x: Seq<Single>, a: nat, b: nat)
    ensures
        after_blocks(s, f, layers, p, room, x, a + b) == after_blocks(after_blocks(s, f, layers, p, room, x, a), f, layers, p, room, x, b),
    decreases a,
{
    if a > 0 {
        lemma_after_more_blocks(s.block(f, layers, p, room.0, room.1, x).0, f, layers, p, room, x, (a - 1) as nat, b);
    }
}

proof fn lemma_layers_end(s: FxView, f: Sums, layers: Seq<Layer>, p: FxParams, room: (Single, Single), x: Seq<Single>, most: Single, k: nat)
    requires
        x.len() > 0,
        most.finite(),
        clocks_run(f, s.sr, most),
        time_passes(f, s.sr, x.len() as int, most),
        ends_within(s, f, layers, p, most, k as int),
        tail_within(s.tail_left, most),
        tail_within(s.ring(f, p, s.scene(f, p).size, room.1), most),
    ensures
        ({
            let t = after_blocks(s, f, layers, p, room, x, k);
            layers_over(t) && tail_within(t.tail_left, most) && t.sr == s.sr
        }),
    decreases k,
{
    if k > 0 {
        lemma_block_brings_end_nearer(s, f, layers, p, room, x, most, k as int);
        let t = s.block(f, layers, p, room.0, room.1, x).0;
        assert(t.ring(f, p, t.scene(f, p).size, room.1) == s.ring(f, p, s.scene(f, p).size, room.1));
        lemma_layers_end(t, f, layers, p, room, x, most, (k - 1) as nat);
    }
}

/// An event rings out by itself: where every sample moves the clocks on, its layers end and its tail
/// fades within finitely many blocks. `most` bounds the clocks and the tail, in seconds.
pub proof fn lemma_event_rings_out(s: FxView, f: Sums, layers: Seq<Layer>, p: FxParams, room: (Single, Single), x: Seq<Single>, most: Single, k: nat)
    requires
        x.len() > 0,
        most.finite(),
        clocks_run(f, s.sr, most),
        time_passes(f, s.sr, x.len() as int, most),
        ends_within(s, f, layers, p, most, k as int),
        tail_within(s.tail_left, most),
        tail_within(s.ring(f, p, s.scene(f, p).size, room.1), most),
    ensures
        !after_blocks(s, f, layers, p, room, x, k + most.order() as nat).active(),
{
    let j = most.order() as nat;
    lemma_layers_end(s, f, layers, p, room, x, most, k);
    lemma_after_more_blocks(s, f, layers, p, room, x, k, j);
    lemma_tail_rings_out(after_blocks(s, f, layers, p, room, x, k), f, layers, p, room, x, most, j);
}

/// Every layer of a recipe, however it is re-rolled, starts and ends within `most` on its clock.
pub open spec fn fits(f: Sums, layers: Seq<Layer>, p: FxParams, c: Scene, most: Single) -> bool {
    forall|i: int, lane: Lane, r: Rng|
        #![trigger lane_fired(f, layers[i], p, lane, r)]
        0 <= i < layers.len() ==> {
            let fired = lane_fired(f, layers[i], p, lane, r);
            fired.t.absolute().at_most(most) && layer_end(f, layers[i], p, c, fired).at_most(most)
        }
}

proof fn lemma_fired_lanes_fit(f: Sums, layers: Seq<Layer>, p: FxParams, c: Scene, most: Single, lanes: Seq<Lane>, r: Rng, k: nat)
    requires
        fits(f, layers, p, c, most),
        lanes.len() == MAX_LAYERS,
        k <= MAX_LAYERS,
    ensures
        ({
            let fired = lanes_fired(f, layers, p, lanes, r, k).0;
            &&& fired.len() == MAX_LAYERS
            &&& forall|i: int|
                0 <= i < k && (#[trigger] fired[i]).on ==> {
                    &&& i < layers.len()
                    &&& fired[i].t.absolute().at_most(most)
                    &&& layer_end(f, layers[i], p, c, fired[i]).at_most(most)
                }
        }),
    decreases k,
{
    if k > 0 {
        lemma_fired_lanes_fit(f, layers, p, c, most, lanes, r, (k - 1) as nat);
    }
}

/// Every event of the library rings out: once fired it falls silent within a number of blocks that
/// `most`, a bound on its clocks and its tail in seconds, gives, and stays so until it is fired again.
pub proof fn lemma_fired_event_rings_out(s: FxView, f: Sums, e: Effect, p: FxParams, power: Single, distance: Single, x: Seq<Single>, most: Single, blocks: nat)
    requires
        s.lanes.len() == MAX_LAYERS,
        x.len() > 0,
        most.finite(),
        Single::of(ZERO).at_most(most),
        clocks_run(f, s.sr, most),
        time_passes(f, s.sr, x.len() as int, most),
        ({
            let fired = s.fired(f, e.recipe(), p, power, distance);
            let c = fired.scene(f, p);
            fits(f, e.recipe(), p, c, most) && tail_within(fired.ring(f, p, c.size, e.room().1), most)
        }),
        3 * most.order() + 2 <= blocks,
    ensures
        !after_blocks(s.fired(f, e.recipe(), p, power, distance), f, e.recipe(), p, e.room(), x, blocks).active(),
{
    let layers = e.recipe();
    let fired = s.fired(f, layers, p, power, distance);
    let c = fired.scene(f, p);
    let from = if p.variation.at_most(Single::of(ZERO)) {
        s.rewound()
    } else {
        s
    };
    assert(from.lanes.len() == MAX_LAYERS && from.sr == s.sr);
    lemma_fired_lanes_fit(f, layers, p, c, most, from.lanes, from.rng, MAX_LAYERS as nat);
    let k = (blocks - most.order()) as nat;
    assert(ends_within(fired, f, layers, p, most, k as int)) by {
        assert forall|i: int| 0 <= i < MAX_LAYERS && (#[trigger] fired.lanes[i]).on implies ({
            &&& i < layers.len()
            &&& layer_end(f, layers[i], p, c, fired.lanes[i]).at_most(most)
            &&& fired.lanes[i].t.absolute().at_most(most)
            &&& most.order() - fired.lanes[i].t.order() + 2 <= k
        }) by {
            assert(fired.lanes[i].t.absolute().at_most(most));
        }
    }
    lemma_event_rings_out(fired, f, layers, p, e.room(), x, most, k);
}

} // verus!
