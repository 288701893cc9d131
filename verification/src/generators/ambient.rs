//! Ambient, sci-fi and signal generators: electric field, tension drone, crowd, radio static,
//! siren.
use vstd::prelude::*;

use crate::arith::{meant, total, Prim, Sums};
use crate::blocks::{hz_coef, Brown, Dust, OnePole, Phasor, SlowNoise};
use crate::effects::same_outside;
use crate::filter::{FilterMode, Svf};
use crate::math::{soft_clip, Rng};
use crate::native::{Generator, InputSpec, InputView, Profile, ProfileView};
use crate::noise::Noise;
use crate::osc::{Oscillator, Waveform};
use crate::params::{Choices, ParamKind, Params};
use crate::single::{from_i32, Single, HALF, ONE, TAU, THREE, TWO, ZERO};
use crate::text::equal;

verus! {

/// Pattern of -1.
pub const N1: u32 = 0xbf80_0000;

/// Pattern of 0.001.
pub const P0_001: u32 = 0x3a83_126f;

/// Pattern of 0.006.
pub const P0_006: u32 = 0x3bc4_9ba6;

/// Pattern of 0.01.
pub const P0_01: u32 = 0x3c23_d70a;

/// Pattern of 0.02.
pub const P0_02: u32 = 0x3ca3_d70a;

/// Pattern of 0.03.
pub const P0_03: u32 = 0x3cf5_c28f;

/// Pattern of 0.05.
pub const P0_05: u32 = 0x3d4c_cccd;

/// Pattern of 0.1.
pub const P0_1: u32 = 0x3dcc_cccd;

/// Pattern of 0.13.
pub const P0_13: u32 = 0x3e05_1eb8;

/// Pattern of 0.15.
pub const P0_15: u32 = 0x3e19_999a;

/// Pattern of 0.2.
pub const P0_2: u32 = 0x3e4c_cccd;

/// Pattern of 0.25.
pub const P0_25: u32 = 0x3e80_0000;

/// Pattern of 0.3.
pub const P0_3: u32 = 0x3e99_999a;

/// Pattern of 0.35.
pub const P0_35: u32 = 0x3eb3_3333;

/// Pattern of 0.36.
pub const P0_36: u32 = 0x3eb8_51ec;

/// Pattern of 0.4.
pub const P0_4: u32 = 0x3ecc_cccd;

/// Pattern of 0.6.
pub const P0_6: u32 = 0x3f19_999a;

/// Pattern of 0.7.
pub const P0_7: u32 = 0x3f33_3333;

/// Pattern of 0.75.
pub const P0_75: u32 = 0x3f40_0000;

/// Pattern of 0.8.
pub const P0_8: u32 = 0x3f4c_cccd;

/// Pattern of 0.85.
pub const P0_85: u32 = 0x3f59_999a;

/// Pattern of 0.9.
pub const P0_9: u32 = 0x3f66_6666;

/// Pattern of 1.2.
pub const P1_2: u32 = 0x3f99_999a;

/// Pattern of 1.26.
pub const P1_26: u32 = 0x3fa1_47ae;

/// Pattern of 1.4.
pub const P1_4: u32 = 0x3fb3_3333;

/// Pattern of 1.498.
pub const P1_498: u32 = 0x3fbf_be77;

/// Pattern of 1.5.
pub const P1_5: u32 = 0x3fc0_0000;

/// Pattern of 1.6.
pub const P1_6: u32 = 0x3fcc_cccd;

/// Pattern of 2.119.
pub const P2_119: u32 = 0x4007_9db2;

/// Pattern of 2.2.
pub const P2_2: u32 = 0x400c_cccd;

/// Pattern of 2.5.
pub const P2_5: u32 = 0x4020_0000;

/// Pattern of 3.2.
pub const P3_2: u32 = 0x404c_cccd;

/// Pattern of 4.
pub const P4: u32 = 0x4080_0000;

/// Pattern of 5.
pub const P5: u32 = 0x40a0_0000;

/// Pattern of 5.657.
pub const P5_657: u32 = 0x40b5_0625;

/// Pattern of 6.
pub const P6: u32 = 0x40c0_0000;

/// Pattern of 7.
pub const P7: u32 = 0x40e0_0000;

/// Pattern of 8.
pub const P8: u32 = 0x4100_0000;

/// Pattern of 8.03.
pub const P8_03: u32 = 0x4100_7ae1;

/// Pattern of 8.47.
pub const P8_47: u32 = 0x4107_851f;

/// Pattern of 10.
pub const P10: u32 = 0x4120_0000;

/// Pattern of 12.
pub const P12: u32 = 0x4140_0000;

/// Pattern of 18.
pub const P18: u32 = 0x4190_0000;

/// Pattern of 20.
pub const P20: u32 = 0x41a0_0000;

/// Pattern of 30.
pub const P30: u32 = 0x41f0_0000;

/// Pattern of 36.
pub const P36: u32 = 0x4210_0000;

/// Pattern of 40.
pub const P40: u32 = 0x4220_0000;

/// Pattern of 49.
pub const P49: u32 = 0x4244_0000;

/// Pattern of 50.
pub const P50: u32 = 0x4248_0000;

/// Pattern of 55.
pub const P55: u32 = 0x425c_0000;

/// Pattern of 90.
pub const P90: u32 = 0x42b4_0000;

/// Pattern of 100.
pub const P100: u32 = 0x42c8_0000;

/// Pattern of 110.
pub const P110: u32 = 0x42dc_0000;

/// Pattern of 120.
pub const P120: u32 = 0x42f0_0000;

/// Pattern of 160.
pub const P160: u32 = 0x4320_0000;

/// Pattern of 200.
pub const P200: u32 = 0x4348_0000;

/// Pattern of 220.
pub const P220: u32 = 0x435c_0000;

/// Pattern of 300.
pub const P300: u32 = 0x4396_0000;

/// Pattern of 400.
pub const P400: u32 = 0x43c8_0000;

/// Pattern of 440.
pub const P440: u32 = 0x43dc_0000;

/// Pattern of 500.
pub const P500: u32 = 0x43fa_0000;

/// Pattern of 560.
pub const P560: u32 = 0x440c_0000;

/// Pattern of 587.
pub const P587: u32 = 0x4412_c000;

/// Pattern of 650.
pub const P650: u32 = 0x4422_8000;

/// Pattern of 700.
pub const P700: u32 = 0x442f_0000;

/// Pattern of 800.
pub const P800: u32 = 0x4448_0000;

/// Pattern of 850.
pub const P850: u32 = 0x4454_8000;

/// Pattern of 880.
pub const P880: u32 = 0x445c_0000;

/// Pattern of 1000.
pub const P1000: u32 = 0x447a_0000;

/// Pattern of 1100.
pub const P1100: u32 = 0x4489_8000;

/// Pattern of 1200.
pub const P1200: u32 = 0x4496_0000;

/// Pattern of 1350.
pub const P1350: u32 = 0x44a8_c000;

/// Pattern of 1600.
pub const P1600: u32 = 0x44c8_0000;

/// Pattern of 1800.
pub const P1800: u32 = 0x44e1_0000;

/// Pattern of 2000.
pub const P2000: u32 = 0x44fa_0000;

/// Pattern of 2500.
pub const P2500: u32 = 0x451c_4000;

/// Pattern of 2600.
pub const P2600: u32 = 0x4522_8000;

/// Pattern of 3000.
pub const P3000: u32 = 0x453b_8000;

/// Pattern of 3500.
pub const P3500: u32 = 0x455a_c000;

/// Pattern of 4000.
pub const P4000: u32 = 0x457a_0000;

/// Pattern of 5000.
pub const P5000: u32 = 0x459c_4000;

/// Pattern of 5200.
pub const P5200: u32 = 0x45a2_8000;

/// Pattern of 6000.
pub const P6000: u32 = 0x45bb_8000;

/// Pattern of 8000.
pub const P8000: u32 = 0x45fa_0000;

/// Pattern of 9000.
pub const P9000: u32 = 0x460c_a000;

/// Electrical hum with beating, buzz from saturation, flicker and arcing crackle.
#[derive(Clone, Copy, Debug, PartialEq, Eq, Structural)]
pub struct ElectricParams {
    pub hum_hz: Single,
    pub hum_level: Single,
    pub brightness: Single,
    pub buzz: Single,
    pub beat_hz: Single,
    pub flicker: Single,
    pub arc_rate: Single,
    pub arc_level: Single,
    pub arc_hz: Single,
    pub gain: Single,
}

impl ElectricParams {
    pub open spec fn plain() -> ElectricParams {
        ElectricParams {
            hum_hz: Single::of(P55),
            hum_level: Single::of(P0_6),
            brightness: Single::of(HALF),
            buzz: Single::of(P0_4),
            beat_hz: Single::of(P0_7),
            flicker: Single::of(HALF),
            arc_rate: Single::of(P12),
            arc_level: Single::of(P0_6),
            arc_hz: Single::of(P3500),
            gain: Single::of(ONE),
        }
    }
}

impl Default for ElectricParams {
    fn default() -> (r: ElectricParams)
        ensures
            r == ElectricParams::plain(),
    {
        ElectricParams {
            hum_hz: Single::of(P55),
            hum_level: Single::of(P0_6),
            brightness: Single::of(HALF),
            buzz: Single::of(P0_4),
            beat_hz: Single::of(P0_7),
            flicker: Single::of(HALF),
            arc_rate: Single::of(P12),
            arc_level: Single::of(P0_6),
            arc_hz: Single::of(P3500),
            gain: Single::of(ONE),
        }
    }
}

/// Identifier of every tweakable value in [`ElectricParams`].
#[derive(Clone, Copy, Debug, PartialEq, Eq, Structural)]
pub enum ElectricParamId {
    HumHz,
    HumLevel,
    Brightness,
    Buzz,
    BeatHz,
    Flicker,
    ArcRate,
    ArcLevel,
    ArcHz,
    Gain,
}

impl ElectricParamId {
    /// Number of parameters.
    pub const COUNT: usize = 10;

    /// Every parameter, in table order.
    pub open spec fn all() -> Seq<ElectricParamId> {
        seq![
            ElectricParamId::HumHz,
            ElectricParamId::HumLevel,
            ElectricParamId::Brightness,
            ElectricParamId::Buzz,
            ElectricParamId::BeatHz,
            ElectricParamId::Flicker,
            ElectricParamId::ArcRate,
            ElectricParamId::ArcLevel,
            ElectricParamId::ArcHz,
            ElectricParamId::Gain,
        ]
    }

    /// Place in the table.
    pub open spec fn place(self) -> int {
        match self {
            ElectricParamId::HumHz => 0,
            ElectricParamId::HumLevel => 1,
            ElectricParamId::Brightness => 2,
            ElectricParamId::Buzz => 3,
            ElectricParamId::BeatHz => 4,
            ElectricParamId::Flicker => 5,
            ElectricParamId::ArcRate => 6,
            ElectricParamId::ArcLevel => 7,
            ElectricParamId::ArcHz => 8,
            ElectricParamId::Gain => 9,
        }
    }

    pub open spec fn label(self) -> Seq<char> {
        match self {
            ElectricParamId::HumHz => "hum/hz"@,
            ElectricParamId::HumLevel => "hum/level"@,
            ElectricParamId::Brightness => "hum/brightness"@,
            ElectricParamId::Buzz => "hum/buzz"@,
            ElectricParamId::BeatHz => "hum/beat_hz"@,
            ElectricParamId::Flicker => "hum/flicker"@,
            ElectricParamId::ArcRate => "arcs/per_second"@,
            ElectricParamId::ArcLevel => "arcs/level"@,
            ElectricParamId::ArcHz => "arcs/hz"@,
            ElectricParamId::Gain => "master/gain"@,
        }
    }

    pub open spec fn range(self) -> ParamKind {
        match self {
            ElectricParamId::HumHz => ParamKind::Exp { min: Single::of(P30), max: Single::of(P400) },
            ElectricParamId::HumLevel => ParamKind::Float { min: Single::of(ZERO), max: Single::of(ONE), step: Single::of(P0_001) },
            ElectricParamId::Brightness => ParamKind::Float { min: Single::of(ZERO), max: Single::of(ONE), step: Single::of(P0_001) },
            ElectricParamId::Buzz => ParamKind::Float { min: Single::of(ZERO), max: Single::of(ONE), step: Single::of(P0_001) },
            ElectricParamId::BeatHz => ParamKind::Float { min: Single::of(ZERO), max: Single::of(P8), step: Single::of(P0_001) },
            ElectricParamId::Flicker => ParamKind::Float { min: Single::of(ZERO), max: Single::of(ONE), step: Single::of(P0_001) },
            ElectricParamId::ArcRate => ParamKind::Exp { min: Single::of(P0_2), max: Single::of(P200) },
            ElectricParamId::ArcLevel => ParamKind::Float { min: Single::of(ZERO), max: Single::of(ONE), step: Single::of(P0_001) },
            ElectricParamId::ArcHz => ParamKind::Exp { min: Single::of(P800), max: Single::of(P9000) },
            ElectricParamId::Gain => ParamKind::Float { min: Single::of(ZERO), max: Single::of(TWO), step: Single::of(P0_001) },
        }
    }

    /// The parameter at a place of the table, if there is one.
    pub fn from_index(i: usize) -> (r: Option<ElectricParamId>)
        ensures
            r == if i < 10 {
                Some(ElectricParamId::all()[i as int])
            } else {
                None
            },
    {
        if i < 10 {
            Some(ElectricParamId::nth(i))
        } else {
            None
        }
    }

    /// The parameter at a place of the table.
    pub fn nth(i: usize) -> (r: ElectricParamId)
        requires
            i < 10,
        ensures
            r == ElectricParamId::all()[i as int],
            r.place() == i,
    {
        match i {
            0 => ElectricParamId::HumHz,
            1 => ElectricParamId::HumLevel,
            2 => ElectricParamId::Brightness,
            3 => ElectricParamId::Buzz,
            4 => ElectricParamId::BeatHz,
            5 => ElectricParamId::Flicker,
            6 => ElectricParamId::ArcRate,
            7 => ElectricParamId::ArcLevel,
            8 => ElectricParamId::ArcHz,
            _ => ElectricParamId::Gain,
        }
    }

    pub fn index(self) -> (r: usize)
        ensures
            r == self.place(),
            r < 10,
    {
        match self {
            ElectricParamId::HumHz => 0,
            ElectricParamId::HumLevel => 1,
            ElectricParamId::Brightness => 2,
            ElectricParamId::Buzz => 3,
            ElectricParamId::BeatHz => 4,
            ElectricParamId::Flicker => 5,
            ElectricParamId::ArcRate => 6,
            ElectricParamId::ArcLevel => 7,
            ElectricParamId::ArcHz => 8,
            ElectricParamId::Gain => 9,
        }
    }

    pub fn name(self) -> (r: &'static str)
        ensures
            r@ == self.label(),
    {
        match self {
            ElectricParamId::HumHz => "hum/hz",
            ElectricParamId::HumLevel => "hum/level",
            ElectricParamId::Brightness => "hum/brightness",
            ElectricParamId::Buzz => "hum/buzz",
            ElectricParamId::BeatHz => "hum/beat_hz",
            ElectricParamId::Flicker => "hum/flicker",
            ElectricParamId::ArcRate => "arcs/per_second",
            ElectricParamId::ArcLevel => "arcs/level",
            ElectricParamId::ArcHz => "arcs/hz",
            ElectricParamId::Gain => "master/gain",
        }
    }

    pub fn kind(self) -> (r: ParamKind)
        ensures
            r == self.range(),
            r.wf(),
    {
        match self {
            ElectricParamId::HumHz => ParamKind::Exp { min: Single::of(P30), max: Single::of(P400) },
            ElectricParamId::HumLevel => ParamKind::Float { min: Single::of(ZERO), max: Single::of(ONE), step: Single::of(P0_001) },
            ElectricParamId::Brightness => ParamKind::Float { min: Single::of(ZERO), max: Single::of(ONE), step: Single::of(P0_001) },
            ElectricParamId::Buzz => ParamKind::Float { min: Single::of(ZERO), max: Single::of(ONE), step: Single::of(P0_001) },
            ElectricParamId::BeatHz => ParamKind::Float { min: Single::of(ZERO), max: Single::of(P8), step: Single::of(P0_001) },
            ElectricParamId::Flicker => ParamKind::Float { min: Single::of(ZERO), max: Single::of(ONE), step: Single::of(P0_001) },
            ElectricParamId::ArcRate => ParamKind::Exp { min: Single::of(P0_2), max: Single::of(P200) },
            ElectricParamId::ArcLevel => ParamKind::Float { min: Single::of(ZERO), max: Single::of(ONE), step: Single::of(P0_001) },
            ElectricParamId::ArcHz => ParamKind::Exp { min: Single::of(P800), max: Single::of(P9000) },
            ElectricParamId::Gain => ParamKind::Float { min: Single::of(ZERO), max: Single::of(TWO), step: Single::of(P0_001) },
        }
    }

    /// The parameter with a name.
    pub fn from_name(name: &str) -> (r: Option<ElectricParamId>)
        ensures
            match r {
                Some(id) => id.label() == name@,
                None => forall|id: ElectricParamId| (#[trigger] id.label()) != name@,
            },
    {
        let mut i: usize = 0;
        while i < 10
            invariant
                i <= 10,
                forall|id: ElectricParamId| id.place() < i ==> (#[trigger] id.label()) != name@,
            decreases 10 - i,
        {
            let id = ElectricParamId::nth(i);
            if equal(id.name(), name) {
                return Some(id);
            }
            proof {
                assert forall|other: ElectricParamId| other.place() < i + 1 implies (#[trigger] other.label()) != name@ by {
                    if other.place() == i {
                        assert(ElectricParamId::all()[other.place()] == other);
                    }
                }
            }
            i = i + 1;
        }
        None
    }
}

impl ElectricParams {
    /// Value of a parameter; names count by their index.
    pub open spec fn value(self, id: ElectricParamId) -> Single {
        match id {
            ElectricParamId::HumHz => self.hum_hz,
            ElectricParamId::HumLevel => self.hum_level,
            ElectricParamId::Brightness => self.brightness,
            ElectricParamId::Buzz => self.buzz,
            ElectricParamId::BeatHz => self.beat_hz,
            ElectricParamId::Flicker => self.flicker,
            ElectricParamId::ArcRate => self.arc_rate,
            ElectricParamId::ArcLevel => self.arc_level,
            ElectricParamId::ArcHz => self.arc_hz,
            ElectricParamId::Gain => self.gain,
        }
    }

    /// With a parameter set to the nearest value it can take.
    pub open spec fn with(self, id: ElectricParamId, v: Single) -> ElectricParams {
        match id {
            ElectricParamId::HumHz => ElectricParams { hum_hz: id.range().clamped(v), ..self },
            ElectricParamId::HumLevel => ElectricParams { hum_level: id.range().clamped(v), ..self },
            ElectricParamId::Brightness => ElectricParams { brightness: id.range().clamped(v), ..self },
            ElectricParamId::Buzz => ElectricParams { buzz: id.range().clamped(v), ..self },
            ElectricParamId::BeatHz => ElectricParams { beat_hz: id.range().clamped(v), ..self },
            ElectricParamId::Flicker => ElectricParams { flicker: id.range().clamped(v), ..self },
            ElectricParamId::ArcRate => ElectricParams { arc_rate: id.range().clamped(v), ..self },
            ElectricParamId::ArcLevel => ElectricParams { arc_level: id.range().clamped(v), ..self },
            ElectricParamId::ArcHz => ElectricParams { arc_hz: id.range().clamped(v), ..self },
            ElectricParamId::Gain => ElectricParams { gain: id.range().clamped(v), ..self },
        }
    }

    pub fn get(&self, id: ElectricParamId) -> (r: Single)
        ensures
            r == self.value(id),
    {
        match id {
            ElectricParamId::HumHz => self.hum_hz,
            ElectricParamId::HumLevel => self.hum_level,
            ElectricParamId::Brightness => self.brightness,
            ElectricParamId::Buzz => self.buzz,
            ElectricParamId::BeatHz => self.beat_hz,
            ElectricParamId::Flicker => self.flicker,
            ElectricParamId::ArcRate => self.arc_rate,
            ElectricParamId::ArcLevel => self.arc_level,
            ElectricParamId::ArcHz => self.arc_hz,
            ElectricParamId::Gain => self.gain,
        }
    }

    /// Set a parameter to the nearest value it can take; what is no number is ignored.
    pub fn set(&mut self, id: ElectricParamId, v: Single)
        ensures
            *final(self) == if v.finite() {
                old(self).with(id, v)
            } else {
                *old(self)
            },
    {
        if !v.is_finite() {
            return;
        }
        match id {
            ElectricParamId::HumHz => {
                self.hum_hz = id.kind().clamp(v);
            },
            ElectricParamId::HumLevel => {
                self.hum_level = id.kind().clamp(v);
            },
            ElectricParamId::Brightness => {
                self.brightness = id.kind().clamp(v);
            },
            ElectricParamId::Buzz => {
                self.buzz = id.kind().clamp(v);
            },
            ElectricParamId::BeatHz => {
                self.beat_hz = id.kind().clamp(v);
            },
            ElectricParamId::Flicker => {
                self.flicker = id.kind().clamp(v);
            },
            ElectricParamId::ArcRate => {
                self.arc_rate = id.kind().clamp(v);
            },
            ElectricParamId::ArcLevel => {
                self.arc_level = id.kind().clamp(v);
            },
            ElectricParamId::ArcHz => {
                self.arc_hz = id.kind().clamp(v);
            },
            ElectricParamId::Gain => {
                self.gain = id.kind().clamp(v);
            },
        }
    }
}

/// A parameter that was set has the nearest value it can take.
pub proof fn lemma_electricparams_set_get(p: ElectricParams, id: ElectricParamId, v: Single)
    requires
        v.finite(),
    ensures
        p.with(id, v).value(id) == id.range().clamped(v),
{
}


/// Setting a parameter leaves every other one what it was.
#[verifier::rlimit(30)]
pub proof fn lemma_electricparams_set_keeps_others(p: ElectricParams, id: ElectricParamId, other: ElectricParamId, v: Single)
    requires
        other != id,
    ensures
        p.with(id, v).value(other) == p.value(other),
{
}

/// Length and some letters of a name.
spec fn electricparamid_sign(id: ElectricParamId) -> (int, char) {
    match id {
        ElectricParamId::HumHz => (6, 'h'),
        ElectricParamId::HumLevel => (9, 'l'),
        ElectricParamId::Brightness => (14, 'b'),
        ElectricParamId::Buzz => (8, 'b'),
        ElectricParamId::BeatHz => (11, 'b'),
        ElectricParamId::Flicker => (11, 'f'),
        ElectricParamId::ArcRate => (15, '/'),
        ElectricParamId::ArcLevel => (10, '/'),
        ElectricParamId::ArcHz => (7, '/'),
        ElectricParamId::Gain => (11, 'e'),
    }
}

#[verifier::rlimit(60)]
proof fn lemma_electricparamid_sign(id: ElectricParamId)
    ensures
        id.label().len() == electricparamid_sign(id).0,
        electricparamid_sign(id).0 > 4 ==> id.label()[4] == electricparamid_sign(id).1,
{
    reveal_strlit("hum/hz");
    reveal_strlit("hum/level");
    reveal_strlit("hum/brightness");
    reveal_strlit("hum/buzz");
    reveal_strlit("hum/beat_hz");
    reveal_strlit("hum/flicker");
    reveal_strlit("arcs/per_second");
    reveal_strlit("arcs/level");
    reveal_strlit("arcs/hz");
    reveal_strlit("master/gain");
}

/// Names tell the parameters apart, so looking up a parameter's name gives the parameter.
pub proof fn lemma_electricparamid_names_differ(a: ElectricParamId, b: ElectricParamId)
    requires
        a.label() == b.label(),
    ensures
        a == b,
{
    lemma_electricparamid_sign(a);
    lemma_electricparamid_sign(b);
}

impl Params for ElectricParams {
    open spec fn plain_params() -> ElectricParams {
        ElectricParams::plain()
    }

    open spec fn param_count() -> nat {
        ElectricParamId::COUNT as nat
    }

    open spec fn label_at(i: int) -> Seq<char> {
        ElectricParamId::all()[i].label()
    }

    open spec fn range_at(i: int) -> ParamKind {
        ElectricParamId::all()[i].range()
    }

    open spec fn value_at(self, i: int) -> Single {
        self.value(ElectricParamId::all()[i])
    }

    open spec fn with_at(self, i: int, v: Single) -> ElectricParams {
        self.with(ElectricParamId::all()[i], v)
    }

    proof fn lemma_set_at_reads_back(self, i: int, v: Single) {
        lemma_electricparams_set_get(self, ElectricParamId::all()[i], v);
    }

    proof fn lemma_set_at_keeps_others(self, i: int, j: int, v: Single) {
        assert(ElectricParamId::all()[i].place() == i);
        assert(ElectricParamId::all()[j].place() == j);
        lemma_electricparams_set_keeps_others(self, ElectricParamId::all()[i], ElectricParamId::all()[j], v);
    }

    fn default_params() -> (r: ElectricParams) {
        ElectricParams::default()
    }

    fn count() -> (r: usize) {
        ElectricParamId::COUNT
    }

    fn name_at(i: usize) -> (r: &'static str) {
        ElectricParamId::nth(i).name()
    }

    fn kind_at(i: usize) -> (r: ParamKind) {
        ElectricParamId::nth(i).kind()
    }

    fn get_at(&self, i: usize) -> (r: Single) {
        self.get(ElectricParamId::nth(i))
    }

    fn set_at(&mut self, i: usize, v: Single) {
        self.set(ElectricParamId::nth(i), v);
    }
}

/// Transformer hum, force field or faulty wiring: hum, buzz, flicker and arcs.
pub struct Electric {
    pub sr: Single,
    pub hum0: Phasor,
    pub hum1: Phasor,
    pub noise: Noise,
    pub arcs: Dust,
    pub arc_env: Single,
    pub arc: Svf,
    pub flick: SlowNoise,
    pub amps: Vec<Single>,
}

/// A [`Electric`] as a value.
#[verifier::ext_equal]
pub struct ElectricView {
    pub sr: Single,
    pub hum0: Phasor,
    pub hum1: Phasor,
    pub noise: Noise,
    pub arcs: Dust,
    pub arc_env: Single,
    pub arc: Svf,
    pub flick: SlowNoise,
    pub amps: Seq<Single>,
}

impl View for Electric {
    type V = ElectricView;

    open spec fn view(&self) -> ElectricView {
        ElectricView {
            sr: self.sr,
            hum0: self.hum0,
            hum1: self.hum1,
            noise: self.noise,
            arcs: self.arcs,
            arc_env: self.arc_env,
            arc: self.arc,
            flick: self.flick,
            amps: self.amps@,
        }
    }
}

impl Electric {
    pub open spec fn valid(self) -> bool {
        &&& self.amps@.len() == 7
    }
}

/// Settings of a control block.
#[derive(Clone, Copy, Debug, PartialEq, Eq, Structural)]
pub struct ElectricMix {
    pub arc_p: Single,
    pub arc_decay: Single,
    pub drive: Single,
    pub hum_gain: Single,
    pub inc0: Single,
    pub inc1: Single,
    pub level: Single,
}

/// Levels of the first `k` harmonics; mains hum is dominated by odd ones.
pub open spec fn electric_amps_of(f: Sums, slope: Single, s: ElectricView, k: nat) -> ElectricView
    decreases k,
{
    if k == 0 {
        s
    } else {
        let s = electric_amps_of(f, slope, s, (k - 1) as nat);
        let k = k - 1;
        let order = crate::single::signed_integer(k + 1);
        let s = ElectricView { amps: s.amps.update(k, f(Prim::Mul, f(Prim::Pow, order, slope.negated()), (if k % 2 == 0 { Single::of(ONE) } else { Single::of(HALF) }))), ..s };
        s
    }
}

fn electric_amps<F: Fn(Prim, Single, Single) -> Single>(fpu: &F, slope: Single, s: &mut Electric)
    requires
        total(*fpu),
        old(s).valid(),
    ensures
        final(s).valid(),
        forall|f: Sums| #[trigger] meant(*fpu, f) ==> final(s)@ == electric_amps_of(f, slope, old(s)@, 7),
{
    let mut k: usize = 0;
    while k < 7
        invariant
            k <= 7,
            total(*fpu),
            s.valid(),
            forall|f: Sums| #[trigger] meant(*fpu, f) ==> s@ == electric_amps_of(f, slope, old(s)@, k as nat),
        decreases 7 - k,
    {
        let order = from_i32(k as i32 + 1);
        let value = fpu(Prim::Mul, fpu(Prim::Pow, order, slope.neg()), (if k % 2 == 0 { Single::of(ONE) } else { Single::of(HALF) }));
        s.amps.set(k, value);
        k = k + 1;
    }
}

/// The generator at the start of a control block of `n` samples with inputs `x`, and the settings.
pub open spec fn electric_steered(f: Sums, p: ElectricParams, x: Seq<Single>, n: Single, s: ElectricView) -> (ElectricView, ElectricMix) {
    let sr = s.sr;
    let dt = f(Prim::Div, n, sr);
    let power = x[0];
    let inst = x[1];
    let slope = f(Prim::Sub, Single::of(P2_2), f(Prim::Mul, Single::of(P1_6), p.brightness));
    let s = electric_amps_of(f, slope, s, 7);
    let wave = s.flick.advanced(f, Single::of(P18), dt).level(f);
    let s = ElectricView { flick: s.flick.advanced(f, Single::of(P18), dt), ..s };
    let flick = f(Prim::Sub, Single::of(ONE), f(Prim::Mul, f(Prim::Mul, p.flicker, inst), f(Prim::Add, Single::of(HALF), f(Prim::Mul, Single::of(HALF), wave))));
    let s = ElectricView { arc: s.arc.tuned(f, FilterMode::BandPass, p.arc_hz, Single::of(P0_6), sr), ..s };
    let arc_p = f(Prim::Div, f(Prim::Mul, f(Prim::Mul, p.arc_rate, inst), inst), sr);
    let arc_decay = f(Prim::Exp, f(Prim::Div, Single::of(N1), f(Prim::Mul, Single::of(P0_006), sr)), Single::of(ZERO));
    let drive = f(Prim::Add, Single::of(ONE), f(Prim::Mul, p.buzz, Single::of(P8)));
    let hum_gain = f(Prim::Div, f(Prim::Mul, p.hum_level, flick), f(Prim::Add, Single::of(ONE), f(Prim::Mul, p.buzz, Single::of(TWO))));
    let inc0 = f(Prim::Div, p.hum_hz, sr);
    let inc1 = f(Prim::Div, f(Prim::Add, p.hum_hz, p.beat_hz), sr);
    let level = f(Prim::Mul, power, p.gain);
    (s, ElectricMix { arc_p, arc_decay, drive, hum_gain, inc0, inc1, level })
}

fn electric_steer<F: Fn(Prim, Single, Single) -> Single>(fpu: &F, p: ElectricParams, x: &Vec<Single>, n: Single, s: &mut Electric) -> (r: ElectricMix)
    requires
        total(*fpu),
        x@.len() == 2,
        old(s).valid(),
    ensures
        final(s).valid(),
        forall|f: Sums| #[trigger] meant(*fpu, f) ==> (final(s)@, r) == electric_steered(f, p, x@, n, old(s)@),
{
    let sr = s.sr;
    let dt = fpu(Prim::Div, n, sr);
    let power = x[0];
    let inst = x[1];
    let slope = fpu(Prim::Sub, Single::of(P2_2), fpu(Prim::Mul, Single::of(P1_6), p.brightness));
    electric_amps(fpu, slope, s);
    let wave = s.flick.advance(fpu, Single::of(P18), dt);
    let flick = fpu(Prim::Sub, Single::of(ONE), fpu(Prim::Mul, fpu(Prim::Mul, p.flicker, inst), fpu(Prim::Add, Single::of(HALF), fpu(Prim::Mul, Single::of(HALF), wave))));
    s.arc.set(fpu, FilterMode::BandPass, p.arc_hz, Single::of(P0_6), sr);
    let arc_p = fpu(Prim::Div, fpu(Prim::Mul, fpu(Prim::Mul, p.arc_rate, inst), inst), sr);
    let arc_decay = fpu(Prim::Exp, fpu(Prim::Div, Single::of(N1), fpu(Prim::Mul, Single::of(P0_006), sr)), Single::of(ZERO));
    let drive = fpu(Prim::Add, Single::of(ONE), fpu(Prim::Mul, p.buzz, Single::of(P8)));
    let hum_gain = fpu(Prim::Div, fpu(Prim::Mul, p.hum_level, flick), fpu(Prim::Add, Single::of(ONE), fpu(Prim::Mul, p.buzz, Single::of(TWO))));
    let inc0 = fpu(Prim::Div, p.hum_hz, sr);
    let inc1 = fpu(Prim::Div, fpu(Prim::Add, p.hum_hz, p.beat_hz), sr);
    let level = fpu(Prim::Mul, power, p.gain);
    ElectricMix { arc_p, arc_decay, drive, hum_gain, inc0, inc1, level }
}

/// Sum of the first `k` harmonics.
pub open spec fn electric_hum_of(f: Sums, a: Single, s: ElectricView, hum: Single, k: nat) -> (ElectricView, Single)
    decreases k,
{
    if k == 0 {
        (s, hum)
    } else {
        let (s, hum) = electric_hum_of(f, a, s, hum, (k - 1) as nat);
        let k = k - 1;
        let order = crate::single::signed_integer(k + 1);
        let hum = f(Prim::Add, hum, f(Prim::Mul, s.amps[k], f(Prim::Sin, f(Prim::Mul, a, order), Single::of(ZERO))));
        (s, hum)
    }
}

fn electric_hum<F: Fn(Prim, Single, Single) -> Single>(fpu: &F, a: Single, s: &mut Electric, hum0: Single) -> (r: Single)
    requires
        total(*fpu),
        old(s).valid(),
    ensures
        final(s).valid(),
        forall|f: Sums| #[trigger] meant(*fpu, f) ==> (final(s)@, r) == electric_hum_of(f, a, old(s)@, hum0, 7),
{
    let mut hum = hum0;
    let mut k: usize = 0;
    while k < 7
        invariant
            k <= 7,
            total(*fpu),
            s.valid(),
            forall|f: Sums| #[trigger] meant(*fpu, f) ==> (s@, hum) == electric_hum_of(f, a, old(s)@, hum0, k as nat),
        decreases 7 - k,
    {
        let order = from_i32(k as i32 + 1);
        hum = fpu(Prim::Add, hum, fpu(Prim::Mul, s.amps[k], fpu(Prim::Sin, fpu(Prim::Mul, a, order), Single::of(ZERO))));
        k = k + 1;
    }
    hum
}

/// One sample; what was in its place is not heard.
pub open spec fn electric_tick(f: Sums, p: ElectricParams, m: ElectricMix, s: ElectricView, v: Single) -> (ElectricView, Single) {
    let s = ElectricView { hum0: s.hum0.moved(f, m.inc0), ..s };
    let s = ElectricView { hum1: s.hum1.moved(f, m.inc1), ..s };
    let a = f(Prim::Mul, s.hum0.phase, Single::of(TAU));
    let b = f(Prim::Mul, s.hum1.phase, Single::of(TAU));
    let hum = Single::of(ZERO);
    let (s, hum) = electric_hum_of(f, a, s, hum, 7);
    let tone = f(Prim::Add, hum, f(Prim::Add, f(Prim::Mul, Single::of(P0_6), f(Prim::Sin, b, Single::of(ZERO))), f(Prim::Mul, Single::of(P0_3), f(Prim::Sin, f(Prim::Mul, b, Single::of(THREE)), Single::of(ZERO)))));
    let d = s.arcs.impulse(f, m.arc_p);
    let s = ElectricView { arcs: s.arcs.ticked(m.arc_p), ..s };
    let s = if Single::of(ZERO).below(d) {
        let s = ElectricView { arc_env: s.arc_env.larger(d), ..s };
        s
    } else {
        s
    };
    let s = ElectricView { arc_env: f(Prim::Mul, s.arc_env, m.arc_decay), ..s };
    let w = s.noise.draw();
    let s = ElectricView { noise: Noise { rng: s.noise.rng.advanced(), ..s.noise }, ..s };
    let burst = f(Prim::Mul, w, s.arc_env);
    let rung = s.arc.output(f, burst);
    let s = ElectricView { arc: s.arc.fed(f, burst), ..s };
    let arc = f(Prim::Add, rung, f(Prim::Mul, Single::of(P0_3), burst));
    (s, f(Prim::Mul, f(Prim::Add, f(Prim::Mul, crate::math::saturated(f, f(Prim::Mul, f(Prim::Mul, tone, Single::of(P0_6)), m.drive)), m.hum_gain), f(Prim::Mul, f(Prim::Mul, arc, p.arc_level), Single::of(P2_5))), m.level))
}

/// The same for a run of samples.
pub open spec fn electric_run(f: Sums, p: ElectricParams, m: ElectricMix, s: ElectricView, x: Seq<Single>) -> (ElectricView, Seq<Single>)
    decreases x.len(),
{
    if x.len() == 0 {
        (s, seq![])
    } else {
        let (t, out) = electric_run(f, p, m, s, x.drop_last());
        let (u, y) = electric_tick(f, p, m, t, x.last());
        (u, out.push(y))
    }
}

fn electric_sample<F: Fn(Prim, Single, Single) -> Single>(fpu: &F, p: ElectricParams, m: ElectricMix, s: &mut Electric, v: Single) -> (y: Single)
    requires
        total(*fpu),
        old(s).valid(),
    ensures
        final(s).valid(),
        forall|f: Sums| #[trigger] meant(*fpu, f) ==> (final(s)@, y) == electric_tick(f, p, m, old(s)@, v),
{
    s.hum0.tick(fpu, m.inc0);
    s.hum1.tick(fpu, m.inc1);
    let a = fpu(Prim::Mul, s.hum0.phase, Single::of(TAU));
    let b = fpu(Prim::Mul, s.hum1.phase, Single::of(TAU));
    let mut hum = Single::of(ZERO);
    hum = electric_hum(fpu, a, s, hum);
    let tone = fpu(Prim::Add, hum, fpu(Prim::Add, fpu(Prim::Mul, Single::of(P0_6), fpu(Prim::Sin, b, Single::of(ZERO))), fpu(Prim::Mul, Single::of(P0_3), fpu(Prim::Sin, fpu(Prim::Mul, b, Single::of(THREE)), Single::of(ZERO)))));
    let d = s.arcs.tick(fpu, m.arc_p);
    if Single::of(ZERO).lt(d) {
        s.arc_env = s.arc_env.max(d);
    }
    s.arc_env = fpu(Prim::Mul, s.arc_env, m.arc_decay);
    let w = s.noise.white();
    let burst = fpu(Prim::Mul, w, s.arc_env);
    let rung = s.arc.tick(fpu, burst);
    let arc = fpu(Prim::Add, rung, fpu(Prim::Mul, Single::of(P0_3), burst));
    fpu(Prim::Mul, fpu(Prim::Add, fpu(Prim::Mul, soft_clip(fpu, fpu(Prim::Mul, fpu(Prim::Mul, tone, Single::of(P0_6)), m.drive)), m.hum_gain), fpu(Prim::Mul, fpu(Prim::Mul, arc, p.arc_level), Single::of(P2_5))), m.level)
}

fn electric_span<F: Fn(Prim, Single, Single) -> Single>(fpu: &F, p: ElectricParams, m: ElectricMix, s: &mut Electric, buf: &mut Vec<Single>, start: usize, end: usize)
    requires
        total(*fpu),
        start <= end <= old(buf)@.len(),
        old(s).valid(),
    ensures
        final(buf)@.len() == old(buf)@.len(),
        same_outside(old(buf)@, final(buf)@, start as int, end as int),
        final(s).valid(),
        forall|f: Sums| #[trigger] meant(*fpu, f) ==> (final(s)@, final(buf)@.subrange(start as int, end as int)) == electric_run(
            f, p, m,
            old(s)@,
            old(buf)@.subrange(start as int, end as int),
        ),
{
    let mut i: usize = start;
    let ghost before = buf@;
    assert(before.subrange(start as int, start as int) =~= seq![]);
    while i < end
        invariant
            start <= i <= end <= buf@.len(),
            buf@.len() == before.len(),
            before == old(buf)@,
            same_outside(before, buf@, start as int, i as int),
            total(*fpu),
            s.valid(),
            forall|f: Sums| #[trigger] meant(*fpu, f) ==> (s@, buf@.subrange(start as int, i as int)) == electric_run(
                f, p, m,
                old(s)@,
                before.subrange(start as int, i as int),
            ),
        decreases end - i,
    {
        let ghost last = buf@;
        let y = electric_sample(fpu, p, m, s, buf[i]);
        buf.set(i, y);
        i = i + 1;
        assert(before.subrange(start as int, i as int).drop_last() =~= before.subrange(start as int, i - 1));
        assert(buf@.subrange(start as int, i as int) =~= last.subrange(start as int, i - 1).push(y));
    }
}

/// What the buffer held does not matter.
proof fn lemma_electric_overwrites(f: Sums, p: ElectricParams, m: ElectricMix, s: ElectricView, a: Seq<Single>, b: Seq<Single>)
    requires
        a.len() == b.len(),
    ensures
        electric_run(f, p, m, s, a) == electric_run(f, p, m, s, b),
        electric_run(f, p, m, s, a).1.len() == a.len(),
    decreases a.len(),
{
    if a.len() > 0 {
        lemma_electric_overwrites(f, p, m, s, a.drop_last(), b.drop_last());
    }
}

impl Generator for Electric {
    type P = ElectricParams;

    type State = ElectricView;

    open spec fn about() -> ProfileView {
        ProfileView {
            name: "electric"@,
            category: "ambient"@,
            doc: "Transformer hum, force field or faulty wiring: hum, buzz, flicker and arcs."@,
            smooth_secs: Single::of(P0_05),
            limit: true,
            one_shot: false,
        }
    }

    open spec fn input_list() -> Seq<InputView> {
        seq![
            InputView { name: "power"@, default: Single::of(P0_6), doc: "Overall field strength"@ },
            InputView { name: "instability"@, default: Single::of(P0_2), doc: "Flicker and arcing"@ },
        ]
    }

    open spec fn preset_list() -> Seq<(Seq<char>, ElectricParams)> {
        seq![
            ("Force field"@, ElectricParams { hum_hz: Single::of(P110), brightness: Single::of(P0_8), buzz: Single::of(P0_2), beat_hz: Single::of(THREE), arc_rate: Single::of(P4), arc_hz: Single::of(P5200), ..ElectricParams::plain() }),
            ("Substation"@, ElectricParams { hum_hz: Single::of(P50), brightness: Single::of(P0_35), buzz: Single::of(P0_7), beat_hz: Single::of(P0_3), arc_level: Single::of(P0_3), ..ElectricParams::plain() }),
            ("Tesla coil"@, ElectricParams { hum_hz: Single::of(P160), buzz: Single::of(P0_9), flicker: Single::of(P0_9), arc_rate: Single::of(P90), arc_level: Single::of(P0_9), ..ElectricParams::plain() }),
        ]
    }

    open spec fn wf(&self) -> bool {
        self.valid()
    }

    open spec fn state(&self) -> ElectricView {
        self@
    }

    open spec fn fresh(f: Sums, sample_rate: Single) -> ElectricView {
        ElectricView {
            sr: sample_rate,
            hum0: Phasor::start(),
            hum1: Phasor::start(),
            noise: Noise::seeded_with(0x60_0001),
            arcs: Dust { rng: Rng::seeded_with(0x60_0002) },
            arc_env: Single::of(ZERO),
            arc: Svf::silent(),
            flick: SlowNoise::seeded_with(0x60_0003),
            amps: Seq::new(7, |k: int| Single::of(ZERO)),
        }
    }

    open spec fn snapped(s: ElectricView, f: Sums, x: Seq<Single>, p: ElectricParams) -> ElectricView {
        s
    }

    open spec fn fired(s: ElectricView, f: Sums, x: Seq<Single>, p: ElectricParams) -> ElectricView {
        s
    }

    open spec fn ringing(s: ElectricView) -> bool {
        true
    }

    open spec fn played(s: ElectricView, f: Sums, x: Seq<Single>, p: ElectricParams, out: Seq<Single>) -> (ElectricView, Seq<Single>) {
        let (t, m) = electric_steered(f, p, x, crate::single::signed_integer(out.len() as int), s);
        electric_run(f, p, m, t, out)
    }

    proof fn lemma_overwrites(s: ElectricView, f: Sums, x: Seq<Single>, p: ElectricParams, a: Seq<Single>, b: Seq<Single>) {
        let (t, m) = electric_steered(f, p, x, crate::single::signed_integer(a.len() as int), s);
        lemma_electric_overwrites(f, p, m, t, a, b);
    }

    fn profile() -> (r: Profile) {
        Profile {
            name: "electric",
            category: "ambient",
            doc: "Transformer hum, force field or faulty wiring: hum, buzz, flicker and arcs.",
            smooth_secs: Single::of(P0_05),
            limit: true,
            one_shot: false,
        }
    }

    fn inputs() -> (r: Vec<InputSpec>) {
        let mut r: Vec<InputSpec> = Vec::new();
        r.push(InputSpec { name: "power", default: Single::of(P0_6), doc: "Overall field strength" });
        r.push(InputSpec { name: "instability", default: Single::of(P0_2), doc: "Flicker and arcing" });
        r
    }

    fn presets() -> (r: Vec<(&'static str, ElectricParams)>) {
        let mut r: Vec<(&'static str, ElectricParams)> = Vec::new();
        r.push(("Force field", ElectricParams { hum_hz: Single::of(P110), brightness: Single::of(P0_8), buzz: Single::of(P0_2), beat_hz: Single::of(THREE), arc_rate: Single::of(P4), arc_hz: Single::of(P5200), ..ElectricParams::default() }));
        r.push(("Substation", ElectricParams { hum_hz: Single::of(P50), brightness: Single::of(P0_35), buzz: Single::of(P0_7), beat_hz: Single::of(P0_3), arc_level: Single::of(P0_3), ..ElectricParams::default() }));
        r.push(("Tesla coil", ElectricParams { hum_hz: Single::of(P160), buzz: Single::of(P0_9), flicker: Single::of(P0_9), arc_rate: Single::of(P90), arc_level: Single::of(P0_9), ..ElectricParams::default() }));
        r
    }

    fn new<F: Fn(Prim, Single, Single) -> Single>(fpu: &F, sample_rate: Single) -> (r: Electric) {
        let mut amps: Vec<Single> = Vec::new();
        while amps.len() < 7
            invariant
                amps@.len() <= 7,
                forall|k: int| 0 <= k < amps@.len() ==> #[trigger] amps@[k] == Single::of(ZERO),
            decreases 7 - amps@.len(),
        {
            let k = amps.len();
            amps.push(Single::of(ZERO));
        }
        let r = Electric {
            sr: sample_rate,
            hum0: Phasor::default(),
            hum1: Phasor::default(),
            noise: Noise::new(0x60_0001),
            arcs: Dust::new(0x60_0002),
            arc_env: Single::of(ZERO),
            arc: Svf::default(),
            flick: SlowNoise::new(0x60_0003),
            amps,
        };
        assert(r@.amps =~= Seq::new(7, |k: int| Single::of(ZERO)));
        r
    }

    fn snap<F: Fn(Prim, Single, Single) -> Single>(&mut self, fpu: &F, x: &Vec<Single>, p: &ElectricParams) {
    }

    fn trigger<F: Fn(Prim, Single, Single) -> Single>(&mut self, fpu: &F, x: &Vec<Single>, p: &ElectricParams) {
    }

    fn is_active(&self) -> (r: bool) {
        true
    }

    fn block<F: Fn(Prim, Single, Single) -> Single>(&mut self, fpu: &F, x: &Vec<Single>, p: &ElectricParams, out: &mut Vec<Single>, start: usize, end: usize) {
        let n = from_i32((end - start) as i32);
        let m = electric_steer(fpu, *p, x, n, self);
        electric_span(fpu, *p, m, self, out, start, end);
    }
}

/// Slowly evolving drone whose dissonant partials, tremolo and airy noise rise with tension.
#[derive(Clone, Copy, Debug, PartialEq, Eq, Structural)]
pub struct DroneParams {
    pub root_hz: Single,
    pub detune: Single,
    pub dissonance: Single,
    pub motion: Single,
    pub sub_level: Single,
    pub drive: Single,
    pub air_level: Single,
    pub air_hz: Single,
    pub gain: Single,
}

impl DroneParams {
    pub open spec fn plain() -> DroneParams {
        DroneParams {
            root_hz: Single::of(P55),
            detune: Single::of(P8),
            dissonance: Single::of(HALF),
            motion: Single::of(P0_15),
            sub_level: Single::of(HALF),
            drive: Single::of(P0_3),
            air_level: Single::of(P0_3),
            air_hz: Single::of(P3000),
            gain: Single::of(ONE),
        }
    }
}

impl Default for DroneParams {
    fn default() -> (r: DroneParams)
        ensures
            r == DroneParams::plain(),
    {
        DroneParams {
            root_hz: Single::of(P55),
            detune: Single::of(P8),
            dissonance: Single::of(HALF),
            motion: Single::of(P0_15),
            sub_level: Single::of(HALF),
            drive: Single::of(P0_3),
            air_level: Single::of(P0_3),
            air_hz: Single::of(P3000),
            gain: Single::of(ONE),
        }
    }
}

/// Identifier of every tweakable value in [`DroneParams`].
#[derive(Clone, Copy, Debug, PartialEq, Eq, Structural)]
pub enum DroneParamId {
    RootHz,
    Detune,
    Dissonance,
    Motion,
    SubLevel,
    Drive,
    AirLevel,
    AirHz,
    Gain,
}

impl DroneParamId {
    /// Number of parameters.
    pub const COUNT: usize = 9;

    /// Every parameter, in table order.
    pub open spec fn all() -> Seq<DroneParamId> {
        seq![
            DroneParamId::RootHz,
            DroneParamId::Detune,
            DroneParamId::Dissonance,
            DroneParamId::Motion,
            DroneParamId::SubLevel,
            DroneParamId::Drive,
            DroneParamId::AirLevel,
            DroneParamId::AirHz,
            DroneParamId::Gain,
        ]
    }

    /// Place in the table.
    pub open spec fn place(self) -> int {
        match self {
            DroneParamId::RootHz => 0,
            DroneParamId::Detune => 1,
            DroneParamId::Dissonance => 2,
            DroneParamId::Motion => 3,
            DroneParamId::SubLevel => 4,
            DroneParamId::Drive => 5,
            DroneParamId::AirLevel => 6,
            DroneParamId::AirHz => 7,
            DroneParamId::Gain => 8,
        }
    }

    pub open spec fn label(self) -> Seq<char> {
        match self {
            DroneParamId::RootHz => "drone/root_hz"@,
            DroneParamId::Detune => "drone/detune_cents"@,
            DroneParamId::Dissonance => "drone/dissonance"@,
            DroneParamId::Motion => "drone/motion_hz"@,
            DroneParamId::SubLevel => "drone/sub"@,
            DroneParamId::Drive => "drone/drive"@,
            DroneParamId::AirLevel => "air/level"@,
            DroneParamId::AirHz => "air/hz"@,
            DroneParamId::Gain => "master/gain"@,
        }
    }

    pub open spec fn range(self) -> ParamKind {
        match self {
            DroneParamId::RootHz => ParamKind::Exp { min: Single::of(P20), max: Single::of(P220) },
            DroneParamId::Detune => ParamKind::Float { min: Single::of(ZERO), max: Single::of(P40), step: Single::of(P0_001) },
            DroneParamId::Dissonance => ParamKind::Float { min: Single::of(ZERO), max: Single::of(ONE), step: Single::of(P0_001) },
            DroneParamId::Motion => ParamKind::Exp { min: Single::of(P0_01), max: Single::of(TWO) },
            DroneParamId::SubLevel => ParamKind::Float { min: Single::of(ZERO), max: Single::of(ONE), step: Single::of(P0_001) },
            DroneParamId::Drive => ParamKind::Float { min: Single::of(ZERO), max: Single::of(ONE), step: Single::of(P0_001) },
            DroneParamId::AirLevel => ParamKind::Float { min: Single::of(ZERO), max: Single::of(ONE), step: Single::of(P0_001) },
            DroneParamId::AirHz => ParamKind::Exp { min: Single::of(P500), max: Single::of(P9000) },
            DroneParamId::Gain => ParamKind::Float { min: Single::of(ZERO), max: Single::of(TWO), step: Single::of(P0_001) },
        }
    }

    /// The parameter at a place of the table, if there is one.
    pub fn from_index(i: usize) -> (r: Option<DroneParamId>)
        ensures
            r == if i < 9 {
                Some(DroneParamId::all()[i as int])
            } else {
                None
            },
    {
        if i < 9 {
            Some(DroneParamId::nth(i))
        } else {
            None
        }
    }

    /// The parameter at a place of the table.
    pub fn nth(i: usize) -> (r: DroneParamId)
        requires
            i < 9,
        ensures
            r == DroneParamId::all()[i as int],
            r.place() == i,
    {
        match i {
            0 => DroneParamId::RootHz,
            1 => DroneParamId::Detune,
            2 => DroneParamId::Dissonance,
            3 => DroneParamId::Motion,
            4 => DroneParamId::SubLevel,
            5 => DroneParamId::Drive,
            6 => DroneParamId::AirLevel,
            7 => DroneParamId::AirHz,
            _ => DroneParamId::Gain,
        }
    }

    pub fn index(self) -> (r: usize)
        ensures
            r == self.place(),
            r < 9,
    {
        match self {
            DroneParamId::RootHz => 0,
            DroneParamId::Detune => 1,
            DroneParamId::Dissonance => 2,
            DroneParamId::Motion => 3,
            DroneParamId::SubLevel => 4,
            DroneParamId::Drive => 5,
            DroneParamId::AirLevel => 6,
            DroneParamId::AirHz => 7,
            DroneParamId::Gain => 8,
        }
    }

    pub fn name(self) -> (r: &'static str)
        ensures
            r@ == self.label(),
    {
        match self {
            DroneParamId::RootHz => "drone/root_hz",
            DroneParamId::Detune => "drone/detune_cents",
            DroneParamId::Dissonance => "drone/dissonance",
            DroneParamId::Motion => "drone/motion_hz",
            DroneParamId::SubLevel => "drone/sub",
            DroneParamId::Drive => "drone/drive",
            DroneParamId::AirLevel => "air/level",
            DroneParamId::AirHz => "air/hz",
            DroneParamId::Gain => "master/gain",
        }
    }

    pub fn kind(self) -> (r: ParamKind)
        ensures
            r == self.range(),
            r.wf(),
    {
        match self {
            DroneParamId::RootHz => ParamKind::Exp { min: Single::of(P20), max: Single::of(P220) },
            DroneParamId::Detune => ParamKind::Float { min: Single::of(ZERO), max: Single::of(P40), step: Single::of(P0_001) },
            DroneParamId::Dissonance => ParamKind::Float { min: Single::of(ZERO), max: Single::of(ONE), step: Single::of(P0_001) },
            DroneParamId::Motion => ParamKind::Exp { min: Single::of(P0_01), max: Single::of(TWO) },
            DroneParamId::SubLevel => ParamKind::Float { min: Single::of(ZERO), max: Single::of(ONE), step: Single::of(P0_001) },
            DroneParamId::Drive => ParamKind::Float { min: Single::of(ZERO), max: Single::of(ONE), step: Single::of(P0_001) },
            DroneParamId::AirLevel => ParamKind::Float { min: Single::of(ZERO), max: Single::of(ONE), step: Single::of(P0_001) },
            DroneParamId::AirHz => ParamKind::Exp { min: Single::of(P500), max: Single::of(P9000) },
            DroneParamId::Gain => ParamKind::Float { min: Single::of(ZERO), max: Single::of(TWO), step: Single::of(P0_001) },
        }
    }

    /// The parameter with a name.
    pub fn from_name(name: &str) -> (r: Option<DroneParamId>)
        ensures
            match r {
                Some(id) => id.label() == name@,
                None => forall|id: DroneParamId| (#[trigger] id.label()) != name@,
            },
    {
        let mut i: usize = 0;
        while i < 9
            invariant
                i <= 9,
                forall|id: DroneParamId| id.place() < i ==> (#[trigger] id.label()) != name@,
            decreases 9 - i,
        {
            let id = DroneParamId::nth(i);
            if equal(id.name(), name) {
                return Some(id);
            }
            proof {
                assert forall|other: DroneParamId| other.place() < i + 1 implies (#[trigger] other.label()) != name@ by {
                    if other.place() == i {
                        assert(DroneParamId::all()[other.place()] == other);
                    }
                }
            }
            i = i + 1;
        }
        None
    }
}

impl DroneParams {
    /// Value of a parameter; names count by their index.
    pub open spec fn value(self, id: DroneParamId) -> Single {
        match id {
            DroneParamId::RootHz => self.root_hz,
            DroneParamId::Detune => self.detune,
            DroneParamId::Dissonance => self.dissonance,
            DroneParamId::Motion => self.motion,
            DroneParamId::SubLevel => self.sub_level,
            DroneParamId::Drive => self.drive,
            DroneParamId::AirLevel => self.air_level,
            DroneParamId::AirHz => self.air_hz,
            DroneParamId::Gain => self.gain,
        }
    }

    /// With a parameter set to the nearest value it can take.
    pub open spec fn with(self, id: DroneParamId, v: Single) -> DroneParams {
        match id {
            DroneParamId::RootHz => DroneParams { root_hz: id.range().clamped(v), ..self },
            DroneParamId::Detune => DroneParams { detune: id.range().clamped(v), ..self },
            DroneParamId::Dissonance => DroneParams { dissonance: id.range().clamped(v), ..self },
            DroneParamId::Motion => DroneParams { motion: id.range().clamped(v), ..self },
            DroneParamId::SubLevel => DroneParams { sub_level: id.range().clamped(v), ..self },
            DroneParamId::Drive => DroneParams { drive: id.range().clamped(v), ..self },
            DroneParamId::AirLevel => DroneParams { air_level: id.range().clamped(v), ..self },
            DroneParamId::AirHz => DroneParams { air_hz: id.range().clamped(v), ..self },
            DroneParamId::Gain => DroneParams { gain: id.range().clamped(v), ..self },
        }
    }

    pub fn get(&self, id: DroneParamId) -> (r: Single)
        ensures
            r == self.value(id),
    {
        match id {
            DroneParamId::RootHz => self.root_hz,
            DroneParamId::Detune => self.detune,
            DroneParamId::Dissonance => self.dissonance,
            DroneParamId::Motion => self.motion,
            DroneParamId::SubLevel => self.sub_level,
            DroneParamId::Drive => self.drive,
            DroneParamId::AirLevel => self.air_level,
            DroneParamId::AirHz => self.air_hz,
            DroneParamId::Gain => self.gain,
        }
    }

    /// Set a parameter to the nearest value it can take; what is no number is ignored.
    pub fn set(&mut self, id: DroneParamId, v: Single)
        ensures
            *final(self) == if v.finite() {
                old(self).with(id, v)
            } else {
                *old(self)
            },
    {
        if !v.is_finite() {
            return;
        }
        match id {
            DroneParamId::RootHz => {
                self.root_hz = id.kind().clamp(v);
            },
            DroneParamId::Detune => {
                self.detune = id.kind().clamp(v);
            },
            DroneParamId::Dissonance => {
                self.dissonance = id.kind().clamp(v);
            },
            DroneParamId::Motion => {
                self.motion = id.kind().clamp(v);
            },
            DroneParamId::SubLevel => {
                self.sub_level = id.kind().clamp(v);
            },
            DroneParamId::Drive => {
                self.drive = id.kind().clamp(v);
            },
            DroneParamId::AirLevel => {
                self.air_level = id.kind().clamp(v);
            },
            DroneParamId::AirHz => {
                self.air_hz = id.kind().clamp(v);
            },
            DroneParamId::Gain => {
                self.gain = id.kind().clamp(v);
            },
        }
    }
}

/// A parameter that was set has the nearest value it can take.
pub proof fn lemma_droneparams_set_get(p: DroneParams, id: DroneParamId, v: Single)
    requires
        v.finite(),
    ensures
        p.with(id, v).value(id) == id.range().clamped(v),
{
}


/// Setting a parameter leaves every other one what it was.
#[verifier::rlimit(30)]
pub proof fn lemma_droneparams_set_keeps_others(p: DroneParams, id: DroneParamId, other: DroneParamId, v: Single)
    requires
        other != id,
    ensures
        p.with(id, v).value(other) == p.value(other),
{
}

/// Length and some letters of a name.
spec fn droneparamid_sign(id: DroneParamId) -> (int, char) {
    match id {
        DroneParamId::RootHz => (13, 'd'),
        DroneParamId::Detune => (18, 'd'),
        DroneParamId::Dissonance => (16, 'd'),
        DroneParamId::Motion => (15, 'd'),
        DroneParamId::SubLevel => (9, 'd'),
        DroneParamId::Drive => (11, 'd'),
        DroneParamId::AirLevel => (9, 'a'),
        DroneParamId::AirHz => (6, 'a'),
        DroneParamId::Gain => (11, 'm'),
    }
}

#[verifier::rlimit(60)]
proof fn lemma_droneparamid_sign(id: DroneParamId)
    ensures
        id.label().len() == droneparamid_sign(id).0,
        droneparamid_sign(id).0 > 0 ==> id.label()[0] == droneparamid_sign(id).1,
{
    reveal_strlit("drone/root_hz");
    reveal_strlit("drone/detune_cents");
    reveal_strlit("drone/dissonance");
    reveal_strlit("drone/motion_hz");
    reveal_strlit("drone/sub");
    reveal_strlit("drone/drive");
    reveal_strlit("air/level");
    reveal_strlit("air/hz");
    reveal_strlit("master/gain");
}

/// Names tell the parameters apart, so looking up a parameter's name gives the parameter.
pub proof fn lemma_droneparamid_names_differ(a: DroneParamId, b: DroneParamId)
    requires
        a.label() == b.label(),
    ensures
        a == b,
{
    lemma_droneparamid_sign(a);
    lemma_droneparamid_sign(b);
}

impl Params for DroneParams {
    open spec fn plain_params() -> DroneParams {
        DroneParams::plain()
    }

    open spec fn param_count() -> nat {
        DroneParamId::COUNT as nat
    }

    open spec fn label_at(i: int) -> Seq<char> {
        DroneParamId::all()[i].label()
    }

    open spec fn range_at(i: int) -> ParamKind {
        DroneParamId::all()[i].range()
    }

    open spec fn value_at(self, i: int) -> Single {
        self.value(DroneParamId::all()[i])
    }

    open spec fn with_at(self, i: int, v: Single) -> DroneParams {
        self.with(DroneParamId::all()[i], v)
    }

    proof fn lemma_set_at_reads_back(self, i: int, v: Single) {
        lemma_droneparams_set_get(self, DroneParamId::all()[i], v);
    }

    proof fn lemma_set_at_keeps_others(self, i: int, j: int, v: Single) {
        assert(DroneParamId::all()[i].place() == i);
        assert(DroneParamId::all()[j].place() == j);
        lemma_droneparams_set_keeps_others(self, DroneParamId::all()[i], DroneParamId::all()[j], v);
    }

    fn default_params() -> (r: DroneParams) {
        DroneParams::default()
    }

    fn count() -> (r: usize) {
        DroneParamId::COUNT
    }

    fn name_at(i: usize) -> (r: &'static str) {
        DroneParamId::nth(i).name()
    }

    fn kind_at(i: usize) -> (r: ParamKind) {
        DroneParamId::nth(i).kind()
    }

    fn get_at(&self, i: usize) -> (r: Single) {
        self.get(DroneParamId::nth(i))
    }

    fn set_at(&mut self, i: usize, v: Single) {
        self.set(DroneParamId::nth(i), v);
    }
}

/// Consonant stack first, then a minor ninth, a tritone and a beating high cluster.
pub open spec fn ratio_at(k: int) -> Single {
    if k == 0 { Single::of(ONE) } else if k == 1 { Single::of(P1_498) } else if k == 2 { Single::of(TWO) } else if k == 3 { Single::of(P2_119) } else if k == 4 { Single::of(THREE) } else if k == 5 { Single::of(P5_657) } else if k == 6 { Single::of(P8_03) } else { Single::of(P8_47) }
}

fn ratio(k: usize) -> (r: Single)
    ensures
        r == ratio_at(k as int),
{
    if k == 0 { Single::of(ONE) } else if k == 1 { Single::of(P1_498) } else if k == 2 { Single::of(TWO) } else if k == 3 { Single::of(P2_119) } else if k == 4 { Single::of(THREE) } else if k == 5 { Single::of(P5_657) } else if k == 6 { Single::of(P8_03) } else { Single::of(P8_47) }
}

/// Partials that tension brings in.
pub open spec fn tense_at(k: int) -> bool {
    k == 3 || k == 5 || k == 6 || k == 7
}

fn tense(k: usize) -> (r: bool)
    ensures
        r == tense_at(k as int),
{
    k == 3 || k == 5 || k == 6 || k == 7
}

/// Share of partial `k`.
pub open spec fn weight_at(k: int) -> Single {
    if k == 0 { Single::of(ONE) } else if k == 1 { Single::of(HALF) } else if k == 2 { Single::of(P0_6) } else if k == 3 { Single::of(P0_7) } else if k == 4 { Single::of(P0_35) } else if k == 5 { Single::of(HALF) } else { Single::of(P0_3) }
}

fn weight(k: usize) -> (r: Single)
    ensures
        r == weight_at(k as int),
{
    if k == 0 { Single::of(ONE) } else if k == 1 { Single::of(HALF) } else if k == 2 { Single::of(P0_6) } else if k == 3 { Single::of(P0_7) } else if k == 4 { Single::of(P0_35) } else if k == 5 { Single::of(HALF) } else { Single::of(P0_3) }
}

/// Tension bed for horror and suspense: consonant at rest, dissonant and restless under tension.
pub struct Drone {
    pub sr: Single,
    pub partial: Vec<Phasor>,
    pub wander: Vec<SlowNoise>,
    pub sub: Phasor,
    pub trem: Phasor,
    pub noise: Noise,
    pub air: Svf,
    pub air_drift: SlowNoise,
    pub dark: OnePole,
    pub amp: Vec<Single>,
    pub inc: Vec<Single>,
}

/// A [`Drone`] as a value.
#[verifier::ext_equal]
pub struct DroneView {
    pub sr: Single,
    pub partial: Seq<Phasor>,
    pub wander: Seq<SlowNoise>,
    pub sub: Phasor,
    pub trem: Phasor,
    pub noise: Noise,
    pub air: Svf,
    pub air_drift: SlowNoise,
    pub dark: OnePole,
    pub amp: Seq<Single>,
    pub inc: Seq<Single>,
}

impl View for Drone {
    type V = DroneView;

    open spec fn view(&self) -> DroneView {
        DroneView {
            sr: self.sr,
            partial: self.partial@,
            wander: self.wander@,
            sub: self.sub,
            trem: self.trem,
            noise: self.noise,
            air: self.air,
            air_drift: self.air_drift,
            dark: self.dark,
            amp: self.amp@,
            inc: self.inc@,
        }
    }
}

impl Drone {
    pub open spec fn valid(self) -> bool {
        &&& self.partial@.len() == 8
        &&& self.wander@.len() == 8
        &&& self.amp@.len() == 8
        &&& self.inc@.len() == 8
    }
}

/// Settings of a control block.
#[derive(Clone, Copy, Debug, PartialEq, Eq, Structural)]
pub struct DroneMix {
    pub dark_coef: Single,
    pub trem_inc: Single,
    pub trem_depth: Single,
    pub sub_gain: Single,
    pub air_gain: Single,
    pub drive: Single,
}

/// Levels and pitches of the first `k` partials.
pub open spec fn drone_partials_of(f: Sums, p: DroneParams, dt: Single, tension: Single, sr: Single, s: DroneView, k: nat) -> DroneView
    decreases k,
{
    if k == 0 {
        s
    } else {
        let s = drone_partials_of(f, p, dt, tension, sr, s, (k - 1) as nat);
        let k = k - 1;
        let kf = crate::single::signed_integer(k);
        let wander = s.wander[k].advanced(f, f(Prim::Mul, p.motion, f(Prim::Add, Single::of(ONE), f(Prim::Mul, Single::of(P0_13), kf))), dt).level(f);
        let s = DroneView { wander: s.wander.update(k, s.wander[k].advanced(f, f(Prim::Mul, p.motion, f(Prim::Add, Single::of(ONE), f(Prim::Mul, Single::of(P0_13), kf))), dt)), ..s };
        let presence = (if tense_at(k) { f(Prim::Mul, f(Prim::Mul, tension, p.dissonance), Single::of(P1_4)) } else { Single::of(ONE) });
        let s = DroneView { amp: s.amp.update(k, f(Prim::Mul, f(Prim::Mul, weight_at(k), presence), f(Prim::Add, Single::of(P0_6), f(Prim::Mul, Single::of(P0_4), wander)))), ..s };
        let cents = f(Prim::Mul, f(Prim::Mul, p.detune, wander), (if k % 2 == 0 { Single::of(ONE) } else { Single::of(N1) }));
        let s = DroneView { inc: s.inc.update(k, f(Prim::Div, f(Prim::Mul, f(Prim::Mul, p.root_hz, ratio_at(k)), f(Prim::Exp2, f(Prim::Div, cents, Single::of(P1200)), Single::of(ZERO))).smaller(f(Prim::Mul, sr, Single::of(P0_4))), sr)), ..s };
        s
    }
}

fn drone_partials<F: Fn(Prim, Single, Single) -> Single>(fpu: &F, p: DroneParams, dt: Single, tension: Single, sr: Single, s: &mut Drone)
    requires
        total(*fpu),
        old(s).valid(),
    ensures
        final(s).valid(),
        forall|f: Sums| #[trigger] meant(*fpu, f) ==> final(s)@ == drone_partials_of(f, p, dt, tension, sr, old(s)@, 8),
{
    let mut k: usize = 0;
    while k < 8
        invariant
            k <= 8,
            total(*fpu),
            s.valid(),
            forall|f: Sums| #[trigger] meant(*fpu, f) ==> s@ == drone_partials_of(f, p, dt, tension, sr, old(s)@, k as nat),
        decreases 8 - k,
    {
        let kf = from_i32(k as i32);
        let mut item = s.wander[k];
        let wander = item.advance(fpu, fpu(Prim::Mul, p.motion, fpu(Prim::Add, Single::of(ONE), fpu(Prim::Mul, Single::of(P0_13), kf))), dt);
        s.wander.set(k, item);
        let presence = (if tense(k) { fpu(Prim::Mul, fpu(Prim::Mul, tension, p.dissonance), Single::of(P1_4)) } else { Single::of(ONE) });
        let value = fpu(Prim::Mul, fpu(Prim::Mul, weight(k), presence), fpu(Prim::Add, Single::of(P0_6), fpu(Prim::Mul, Single::of(P0_4), wander)));
        s.amp.set(k, value);
        let cents = fpu(Prim::Mul, fpu(Prim::Mul, p.detune, wander), (if k % 2 == 0 { Single::of(ONE) } else { Single::of(N1) }));
        let value = fpu(Prim::Div, fpu(Prim::Mul, fpu(Prim::Mul, p.root_hz, ratio(k)), fpu(Prim::Exp2, fpu(Prim::Div, cents, Single::of(P1200)), Single::of(ZERO))).min(fpu(Prim::Mul, sr, Single::of(P0_4))), sr);
        s.inc.set(k, value);
        k = k + 1;
    }
}

/// The generator at the start of a control block of `n` samples with inputs `x`, and the settings.
pub open spec fn drone_steered(f: Sums, p: DroneParams, x: Seq<Single>, n: Single, s: DroneView) -> (DroneView, DroneMix) {
    let sr = s.sr;
    let dt = f(Prim::Div, n, sr);
    let tension = x[0];
    let darkness = x[1];
    let s = drone_partials_of(f, p, dt, tension, sr, s, 8);
    let drift = s.air_drift.advanced(f, Single::of(P0_3), dt).level(f);
    let s = DroneView { air_drift: s.air_drift.advanced(f, Single::of(P0_3), dt), ..s };
    let s = DroneView { air: s.air.tuned(f, FilterMode::BandPass, f(Prim::Mul, p.air_hz, f(Prim::Add, Single::of(ONE), f(Prim::Mul, Single::of(P0_3), drift))), Single::of(P0_8), sr), ..s };
    let dark_coef = crate::blocks::cutoff_coef(f, f(Prim::Add, Single::of(P6000), f(Prim::Mul, f(Prim::Sub, Single::of(P300), Single::of(P6000)), darkness)), sr);
    let trem_inc = f(Prim::Div, f(Prim::Add, Single::of(HALF), f(Prim::Mul, f(Prim::Mul, Single::of(P6), tension), tension)), sr);
    let trem_depth = f(Prim::Mul, Single::of(P0_3), tension);
    let sub_gain = f(Prim::Mul, p.sub_level, f(Prim::Add, Single::of(HALF), f(Prim::Mul, Single::of(HALF), darkness)));
    let air_gain = f(Prim::Mul, f(Prim::Mul, p.air_level, tension), Single::of(P1_5));
    let drive = f(Prim::Add, Single::of(ONE), f(Prim::Mul, p.drive, Single::of(P4)));
    (s, DroneMix { dark_coef, trem_inc, trem_depth, sub_gain, air_gain, drive })
}

fn drone_steer<F: Fn(Prim, Single, Single) -> Single>(fpu: &F, p: DroneParams, x: &Vec<Single>, n: Single, s: &mut Drone) -> (r: DroneMix)
    requires
        total(*fpu),
        x@.len() == 2,
        old(s).valid(),
    ensures
        final(s).valid(),
        forall|f: Sums| #[trigger] meant(*fpu, f) ==> (final(s)@, r) == drone_steered(f, p, x@, n, old(s)@),
{
    let sr = s.sr;
    let dt = fpu(Prim::Div, n, sr);
    let tension = x[0];
    let darkness = x[1];
    drone_partials(fpu, p, dt, tension, sr, s);
    let drift = s.air_drift.advance(fpu, Single::of(P0_3), dt);
    s.air.set(fpu, FilterMode::BandPass, fpu(Prim::Mul, p.air_hz, fpu(Prim::Add, Single::of(ONE), fpu(Prim::Mul, Single::of(P0_3), drift))), Single::of(P0_8), sr);
    let dark_coef = hz_coef(fpu, fpu(Prim::Add, Single::of(P6000), fpu(Prim::Mul, fpu(Prim::Sub, Single::of(P300), Single::of(P6000)), darkness)), sr);
    let trem_inc = fpu(Prim::Div, fpu(Prim::Add, Single::of(HALF), fpu(Prim::Mul, fpu(Prim::Mul, Single::of(P6), tension), tension)), sr);
    let trem_depth = fpu(Prim::Mul, Single::of(P0_3), tension);
    let sub_gain = fpu(Prim::Mul, p.sub_level, fpu(Prim::Add, Single::of(HALF), fpu(Prim::Mul, Single::of(HALF), darkness)));
    let air_gain = fpu(Prim::Mul, fpu(Prim::Mul, p.air_level, tension), Single::of(P1_5));
    let drive = fpu(Prim::Add, Single::of(ONE), fpu(Prim::Mul, p.drive, Single::of(P4)));
    DroneMix { dark_coef, trem_inc, trem_depth, sub_gain, air_gain, drive }
}

/// Sum of the first `k` partials, each moved a sample on.
pub open spec fn drone_stack_of(f: Sums, s: DroneView, y: Single, k: nat) -> (DroneView, Single)
    decreases k,
{
    if k == 0 {
        (s, y)
    } else {
        let (s, y) = drone_stack_of(f, s, y, (k - 1) as nat);
        let k = k - 1;
        let s = DroneView { partial: s.partial.update(k, s.partial[k].moved(f, s.inc[k])), ..s };
        let y = f(Prim::Add, y, f(Prim::Mul, s.amp[k], s.partial[k].sine(f)));
        (s, y)
    }
}

fn drone_stack<F: Fn(Prim, Single, Single) -> Single>(fpu: &F, s: &mut Drone, y0: Single) -> (r: Single)
    requires
        total(*fpu),
        old(s).valid(),
    ensures
        final(s).valid(),
        forall|f: Sums| #[trigger] meant(*fpu, f) ==> (final(s)@, r) == drone_stack_of(f, old(s)@, y0, 8),
{
    let mut y = y0;
    let mut k: usize = 0;
    while k < 8
        invariant
            k <= 8,
            total(*fpu),
            s.valid(),
            forall|f: Sums| #[trigger] meant(*fpu, f) ==> (s@, y) == drone_stack_of(f, old(s)@, y0, k as nat),
        decreases 8 - k,
    {
        let mut item = s.partial[k];
        item.tick(fpu, s.inc[k]);
        s.partial.set(k, item);
        y = fpu(Prim::Add, y, fpu(Prim::Mul, s.amp[k], s.partial[k].sin(fpu)));
        k = k + 1;
    }
    y
}

/// One sample; what was in its place is not heard.
pub open spec fn drone_tick(f: Sums, p: DroneParams, m: DroneMix, s: DroneView, v: Single) -> (DroneView, Single) {
    let y = Single::of(ZERO);
    let (s, y) = drone_stack_of(f, s, y, 8);
    let s = DroneView { sub: s.sub.moved(f, f(Prim::Mul, s.inc[0], Single::of(HALF))), ..s };
    let s = DroneView { trem: s.trem.moved(f, m.trem_inc), ..s };
    let dim = s.dark.smoothed(f, crate::math::saturated(f, f(Prim::Mul, f(Prim::Mul, y, Single::of(P0_3)), m.drive)), m.dark_coef);
    let s = DroneView { dark: OnePole { y: s.dark.smoothed(f, crate::math::saturated(f, f(Prim::Mul, f(Prim::Mul, y, Single::of(P0_3)), m.drive)), m.dark_coef) }, ..s };
    let body = f(Prim::Add, dim, f(Prim::Mul, f(Prim::Mul, s.sub.sine(f), m.sub_gain), Single::of(HALF)));
    let w = s.noise.draw();
    let s = DroneView { noise: Noise { rng: s.noise.rng.advanced(), ..s.noise }, ..s };
    let aired = s.air.output(f, w);
    let s = DroneView { air: s.air.fed(f, w), ..s };
    let air = f(Prim::Mul, f(Prim::Mul, aired, m.air_gain), Single::of(P0_2));
    (s, f(Prim::Mul, f(Prim::Mul, f(Prim::Mul, f(Prim::Add, body, air), f(Prim::Sub, Single::of(ONE), f(Prim::Mul, m.trem_depth, f(Prim::Add, Single::of(HALF), f(Prim::Mul, Single::of(HALF), s.trem.sine(f)))))), p.gain), Single::of(P0_6)))
}

/// The same for a run of samples.
pub open spec fn drone_run(f: Sums, p: DroneParams, m: DroneMix, s: DroneView, x: Seq<Single>) -> (DroneView, Seq<Single>)
    decreases x.len(),
{
    if x.len() == 0 {
        (s, seq![])
    } else {
        let (t, out) = drone_run(f, p, m, s, x.drop_last());
        let (u, y) = drone_tick(f, p, m, t, x.last());
        (u, out.push(y))
    }
}

fn drone_sample<F: Fn(Prim, Single, Single) -> Single>(fpu: &F, p: DroneParams, m: DroneMix, s: &mut Drone, v: Single) -> (y: Single)
    requires
        total(*fpu),
        old(s).valid(),
    ensures
        final(s).valid(),
        forall|f: Sums| #[trigger] meant(*fpu, f) ==> (final(s)@, y) == drone_tick(f, p, m, old(s)@, v),
{
    let mut y = Single::of(ZERO);
    y = drone_stack(fpu, s, y);
    s.sub.tick(fpu, fpu(Prim::Mul, s.inc[0], Single::of(HALF)));
    s.trem.tick(fpu, m.trem_inc);
    let dim = s.dark.lp(fpu, soft_clip(fpu, fpu(Prim::Mul, fpu(Prim::Mul, y, Single::of(P0_3)), m.drive)), m.dark_coef);
    let body = fpu(Prim::Add, dim, fpu(Prim::Mul, fpu(Prim::Mul, s.sub.sin(fpu), m.sub_gain), Single::of(HALF)));
    let w = s.noise.white();
    let aired = s.air.tick(fpu, w);
    let air = fpu(Prim::Mul, fpu(Prim::Mul, aired, m.air_gain), Single::of(P0_2));
    fpu(Prim::Mul, fpu(Prim::Mul, fpu(Prim::Mul, fpu(Prim::Add, body, air), fpu(Prim::Sub, Single::of(ONE), fpu(Prim::Mul, m.trem_depth, fpu(Prim::Add, Single::of(HALF), fpu(Prim::Mul, Single::of(HALF), s.trem.sin(fpu)))))), p.gain), Single::of(P0_6))
}

fn drone_span<F: Fn(Prim, Single, Single) -> Single>(fpu: &F, p: DroneParams, m: DroneMix, s: &mut Drone, buf: &mut Vec<Single>, start: usize, end: usize)
    requires
        total(*fpu),
        start <= end <= old(buf)@.len(),
        old(s).valid(),
    ensures
        final(buf)@.len() == old(buf)@.len(),
        same_outside(old(buf)@, final(buf)@, start as int, end as int),
        final(s).valid(),
        forall|f: Sums| #[trigger] meant(*fpu, f) ==> (final(s)@, final(buf)@.subrange(start as int, end as int)) == drone_run(
            f, p, m,
            old(s)@,
            old(buf)@.subrange(start as int, end as int),
        ),
{
    let mut i: usize = start;
    let ghost before = buf@;
    assert(before.subrange(start as int, start as int) =~= seq![]);
    while i < end
        invariant
            start <= i <= end <= buf@.len(),
            buf@.len() == before.len(),
            before == old(buf)@,
            same_outside(before, buf@, start as int, i as int),
            total(*fpu),
            s.valid(),
            forall|f: Sums| #[trigger] meant(*fpu, f) ==> (s@, buf@.subrange(start as int, i as int)) == drone_run(
                f, p, m,
                old(s)@,
                before.subrange(start as int, i as int),
            ),
        decreases end - i,
    {
        let ghost last = buf@;
        let y = drone_sample(fpu, p, m, s, buf[i]);
        buf.set(i, y);
        i = i + 1;
        assert(before.subrange(start as int, i as int).drop_last() =~= before.subrange(start as int, i - 1));
        assert(buf@.subrange(start as int, i as int) =~= last.subrange(start as int, i - 1).push(y));
    }
}

/// What the buffer held does not matter.
proof fn lemma_drone_overwrites(f: Sums, p: DroneParams, m: DroneMix, s: DroneView, a: Seq<Single>, b: Seq<Single>)
    requires
        a.len() == b.len(),
    ensures
        drone_run(f, p, m, s, a) == drone_run(f, p, m, s, b),
        drone_run(f, p, m, s, a).1.len() == a.len(),
    decreases a.len(),
{
    if a.len() > 0 {
        lemma_drone_overwrites(f, p, m, s, a.drop_last(), b.drop_last());
    }
}

impl Generator for Drone {
    type P = DroneParams;

    type State = DroneView;

    open spec fn about() -> ProfileView {
        ProfileView {
            name: "drone"@,
            category: "ambient"@,
            doc: "Tension bed for horror and suspense: consonant at rest, dissonant and restless under tension."@,
            smooth_secs: Single::of(P0_05),
            limit: true,
            one_shot: false,
        }
    }

    open spec fn input_list() -> Seq<InputView> {
        seq![
            InputView { name: "tension"@, default: Single::of(P0_2), doc: "Brings in dissonant partials, tremolo and air"@ },
            InputView { name: "darkness"@, default: Single::of(HALF), doc: "Closes the top end and deepens the sub"@ },
        ]
    }

    open spec fn preset_list() -> Seq<(Seq<char>, DroneParams)> {
        seq![
            ("Deep space"@, DroneParams { root_hz: Single::of(P36), motion: Single::of(P0_05), dissonance: Single::of(P0_25), air_level: Single::of(P0_15), ..DroneParams::plain() }),
            ("Dread"@, DroneParams { root_hz: Single::of(P49), dissonance: Single::of(P0_9), motion: Single::of(P0_4), drive: Single::of(P0_6), air_level: Single::of(HALF), ..DroneParams::plain() }),
        ]
    }

    open spec fn wf(&self) -> bool {
        self.valid()
    }

    open spec fn state(&self) -> DroneView {
        self@
    }

    open spec fn fresh(f: Sums, sample_rate: Single) -> DroneView {
        DroneView {
            sr: sample_rate,
            partial: Seq::new(8, |k: int| Phasor::start()),
            wander: Seq::new(8, |k: int| SlowNoise::seeded_with((0x61_0001 + k * 97) as u32)),
            sub: Phasor::start(),
            trem: Phasor::start(),
            noise: Noise::seeded_with(0x61_1001),
            air: Svf::silent(),
            air_drift: SlowNoise::seeded_with(0x61_1002),
            dark: OnePole { y: Single::of(ZERO) },
            amp: Seq::new(8, |k: int| Single::of(ZERO)),
            inc: Seq::new(8, |k: int| Single::of(ZERO)),
        }
    }

    open spec fn snapped(s: DroneView, f: Sums, x: Seq<Single>, p: DroneParams) -> DroneView {
        s
    }

    open spec fn fired(s: DroneView, f: Sums, x: Seq<Single>, p: DroneParams) -> DroneView {
        s
    }

    open spec fn ringing(s: DroneView) -> bool {
        true
    }

    open spec fn played(s: DroneView, f: Sums, x: Seq<Single>, p: DroneParams, out: Seq<Single>) -> (DroneView, Seq<Single>) {
        let (t, m) = drone_steered(f, p, x, crate::single::signed_integer(out.len() as int), s);
        drone_run(f, p, m, t, out)
    }

    proof fn lemma_overwrites(s: DroneView, f: Sums, x: Seq<Single>, p: DroneParams, a: Seq<Single>, b: Seq<Single>) {
        let (t, m) = drone_steered(f, p, x, crate::single::signed_integer(a.len() as int), s);
        lemma_drone_overwrites(f, p, m, t, a, b);
    }

    fn profile() -> (r: Profile) {
        Profile {
            name: "drone",
            category: "ambient",
            doc: "Tension bed for horror and suspense: consonant at rest, dissonant and restless under tension.",
            smooth_secs: Single::of(P0_05),
            limit: true,
            one_shot: false,
        }
    }

    fn inputs() -> (r: Vec<InputSpec>) {
        let mut r: Vec<InputSpec> = Vec::new();
        r.push(InputSpec { name: "tension", default: Single::of(P0_2), doc: "Brings in dissonant partials, tremolo and air" });
        r.push(InputSpec { name: "darkness", default: Single::of(HALF), doc: "Closes the top end and deepens the sub" });
        r
    }

    fn presets() -> (r: Vec<(&'static str, DroneParams)>) {
        let mut r: Vec<(&'static str, DroneParams)> = Vec::new();
        r.push(("Deep space", DroneParams { root_hz: Single::of(P36), motion: Single::of(P0_05), dissonance: Single::of(P0_25), air_level: Single::of(P0_15), ..DroneParams::default() }));
        r.push(("Dread", DroneParams { root_hz: Single::of(P49), dissonance: Single::of(P0_9), motion: Single::of(P0_4), drive: Single::of(P0_6), air_level: Single::of(HALF), ..DroneParams::default() }));
        r
    }

    fn new<F: Fn(Prim, Single, Single) -> Single>(fpu: &F, sample_rate: Single) -> (r: Drone) {
        let mut partial: Vec<Phasor> = Vec::new();
        while partial.len() < 8
            invariant
                partial@.len() <= 8,
                forall|k: int| 0 <= k < partial@.len() ==> #[trigger] partial@[k] == Phasor::start(),
            decreases 8 - partial@.len(),
        {
            let k = partial.len();
            partial.push(Phasor::default());
        }
        let mut wander: Vec<SlowNoise> = Vec::new();
        while wander.len() < 8
            invariant
                wander@.len() <= 8,
                forall|k: int| 0 <= k < wander@.len() ==> #[trigger] wander@[k] == SlowNoise::seeded_with((0x61_0001 + k * 97) as u32),
            decreases 8 - wander@.len(),
        {
            let k = wander.len();
            wander.push(SlowNoise::new(0x61_0001 + k as u32 * 97));
        }
        let mut amp: Vec<Single> = Vec::new();
        while amp.len() < 8
            invariant
                amp@.len() <= 8,
                forall|k: int| 0 <= k < amp@.len() ==> #[trigger] amp@[k] == Single::of(ZERO),
            decreases 8 - amp@.len(),
        {
            let k = amp.len();
            amp.push(Single::of(ZERO));
        }
        let mut inc: Vec<Single> = Vec::new();
        while inc.len() < 8
            invariant
                inc@.len() <= 8,
                forall|k: int| 0 <= k < inc@.len() ==> #[trigger] inc@[k] == Single::of(ZERO),
            decreases 8 - inc@.len(),
        {
            let k = inc.len();
            inc.push(Single::of(ZERO));
        }
        let r = Drone {
            sr: sample_rate,
            partial,
            wander,
            sub: Phasor::default(),
            trem: Phasor::default(),
            noise: Noise::new(0x61_1001),
            air: Svf::default(),
            air_drift: SlowNoise::new(0x61_1002),
            dark: OnePole::default(),
            amp,
            inc,
        };
        assert(r@.partial =~= Seq::new(8, |k: int| Phasor::start()));
        assert(r@.wander =~= Seq::new(8, |k: int| SlowNoise::seeded_with((0x61_0001 + k * 97) as u32)));
        assert(r@.amp =~= Seq::new(8, |k: int| Single::of(ZERO)));
        assert(r@.inc =~= Seq::new(8, |k: int| Single::of(ZERO)));
        r
    }

    fn snap<F: Fn(Prim, Single, Single) -> Single>(&mut self, fpu: &F, x: &Vec<Single>, p: &DroneParams) {
    }

    fn trigger<F: Fn(Prim, Single, Single) -> Single>(&mut self, fpu: &F, x: &Vec<Single>, p: &DroneParams) {
    }

    fn is_active(&self) -> (r: bool) {
        true
    }

    fn block<F: Fn(Prim, Single, Single) -> Single>(&mut self, fpu: &F, x: &Vec<Single>, p: &DroneParams, out: &mut Vec<Single>, start: usize, end: usize) {
        let n = from_i32((end - start) as i32);
        let m = drone_steer(fpu, *p, x, n, self);
        drone_span(fpu, *p, m, self, out, start, end);
    }
}

/// Crowd murmur: formant-filtered noise "voices" with independent syllable rhythms, plus
/// cheering and a low roar when excited.
#[derive(Clone, Copy, Debug, PartialEq, Eq, Structural)]
pub struct CrowdParams {
    pub formant_hz: Single,
    pub formant_spread: Single,
    pub syllable_hz: Single,
    pub murmur_level: Single,
    pub cheer_level: Single,
    pub cheer_hz: Single,
    pub roar_level: Single,
    pub gain: Single,
}

impl CrowdParams {
    pub open spec fn plain() -> CrowdParams {
        CrowdParams {
            formant_hz: Single::of(P700),
            formant_spread: Single::of(P0_8),
            syllable_hz: Single::of(P4),
            murmur_level: Single::of(P0_7),
            cheer_level: Single::of(P0_6),
            cheer_hz: Single::of(P2600),
            roar_level: Single::of(P0_4),
            gain: Single::of(ONE),
        }
    }
}

impl Default for CrowdParams {
    fn default() -> (r: CrowdParams)
        ensures
            r == CrowdParams::plain(),
    {
        CrowdParams {
            formant_hz: Single::of(P700),
            formant_spread: Single::of(P0_8),
            syllable_hz: Single::of(P4),
            murmur_level: Single::of(P0_7),
            cheer_level: Single::of(P0_6),
            cheer_hz: Single::of(P2600),
            roar_level: Single::of(P0_4),
            gain: Single::of(ONE),
        }
    }
}

/// Identifier of every tweakable value in [`CrowdParams`].
#[derive(Clone, Copy, Debug, PartialEq, Eq, Structural)]
pub enum CrowdParamId {
    FormantHz,
    FormantSpread,
    SyllableHz,
    MurmurLevel,
    CheerLevel,
    CheerHz,
    RoarLevel,
    Gain,
}

impl CrowdParamId {
    /// Number of parameters.
    pub const COUNT: usize = 8;

    /// Every parameter, in table order.
    pub open spec fn all() -> Seq<CrowdParamId> {
        seq![
            CrowdParamId::FormantHz,
            CrowdParamId::FormantSpread,
            CrowdParamId::SyllableHz,
            CrowdParamId::MurmurLevel,
            CrowdParamId::CheerLevel,
            CrowdParamId::CheerHz,
            CrowdParamId::RoarLevel,
            CrowdParamId::Gain,
        ]
    }

    /// Place in the table.
    pub open spec fn place(self) -> int {
        match self {
            CrowdParamId::FormantHz => 0,
            CrowdParamId::FormantSpread => 1,
            CrowdParamId::SyllableHz => 2,
            CrowdParamId::MurmurLevel => 3,
            CrowdParamId::CheerLevel => 4,
            CrowdParamId::CheerHz => 5,
            CrowdParamId::RoarLevel => 6,
            CrowdParamId::Gain => 7,
        }
    }

    pub open spec fn label(self) -> Seq<char> {
        match self {
            CrowdParamId::FormantHz => "murmur/formant_hz"@,
            CrowdParamId::FormantSpread => "murmur/spread_octaves"@,
            CrowdParamId::SyllableHz => "murmur/syllable_hz"@,
            CrowdParamId::MurmurLevel => "murmur/level"@,
            CrowdParamId::CheerLevel => "cheer/level"@,
            CrowdParamId::CheerHz => "cheer/hz"@,
            CrowdParamId::RoarLevel => "cheer/roar"@,
            CrowdParamId::Gain => "master/gain"@,
        }
    }

    pub open spec fn range(self) -> ParamKind {
        match self {
            CrowdParamId::FormantHz => ParamKind::Exp { min: Single::of(P300), max: Single::of(P2000) },
            CrowdParamId::FormantSpread => ParamKind::Float { min: Single::of(ZERO), max: Single::of(TWO), step: Single::of(P0_001) },
            CrowdParamId::SyllableHz => ParamKind::Float { min: Single::of(ONE), max: Single::of(P10), step: Single::of(P0_001) },
            CrowdParamId::MurmurLevel => ParamKind::Float { min: Single::of(ZERO), max: Single::of(ONE), step: Single::of(P0_001) },
            CrowdParamId::CheerLevel => ParamKind::Float { min: Single::of(ZERO), max: Single::of(ONE), step: Single::of(P0_001) },
            CrowdParamId::CheerHz => ParamKind::Exp { min: Single::of(P1000), max: Single::of(P6000) },
            CrowdParamId::RoarLevel => ParamKind::Float { min: Single::of(ZERO), max: Single::of(ONE), step: Single::of(P0_001) },
            CrowdParamId::Gain => ParamKind::Float { min: Single::of(ZERO), max: Single::of(TWO), step: Single::of(P0_001) },
        }
    }

    /// The parameter at a place of the table, if there is one.
    pub fn from_index(i: usize) -> (r: Option<CrowdParamId>)
        ensures
            r == if i < 8 {
                Some(CrowdParamId::all()[i as int])
            } else {
                None
            },
    {
        if i < 8 {
            Some(CrowdParamId::nth(i))
        } else {
            None
        }
    }

    /// The parameter at a place of the table.
    pub fn nth(i: usize) -> (r: CrowdParamId)
        requires
            i < 8,
        ensures
            r == CrowdParamId::all()[i as int],
            r.place() == i,
    {
        match i {
            0 => CrowdParamId::FormantHz,
            1 => CrowdParamId::FormantSpread,
            2 => CrowdParamId::SyllableHz,
            3 => CrowdParamId::MurmurLevel,
            4 => CrowdParamId::CheerLevel,
            5 => CrowdParamId::CheerHz,
            6 => CrowdParamId::RoarLevel,
            _ => CrowdParamId::Gain,
        }
    }

    pub fn index(self) -> (r: usize)
        ensures
            r == self.place(),
            r < 8,
    {
        match self {
            CrowdParamId::FormantHz => 0,
            CrowdParamId::FormantSpread => 1,
            CrowdParamId::SyllableHz => 2,
            CrowdParamId::MurmurLevel => 3,
            CrowdParamId::CheerLevel => 4,
            CrowdParamId::CheerHz => 5,
            CrowdParamId::RoarLevel => 6,
            CrowdParamId::Gain => 7,
        }
    }

    pub fn name(self) -> (r: &'static str)
        ensures
            r@ == self.label(),
    {
        match self {
            CrowdParamId::FormantHz => "murmur/formant_hz",
            CrowdParamId::FormantSpread => "murmur/spread_octaves",
            CrowdParamId::SyllableHz => "murmur/syllable_hz",
            CrowdParamId::MurmurLevel => "murmur/level",
            CrowdParamId::CheerLevel => "cheer/level",
            CrowdParamId::CheerHz => "cheer/hz",
            CrowdParamId::RoarLevel => "cheer/roar",
            CrowdParamId::Gain => "master/gain",
        }
    }

    pub fn kind(self) -> (r: ParamKind)
        ensures
            r == self.range(),
            r.wf(),
    {
        match self {
            CrowdParamId::FormantHz => ParamKind::Exp { min: Single::of(P300), max: Single::of(P2000) },
            CrowdParamId::FormantSpread => ParamKind::Float { min: Single::of(ZERO), max: Single::of(TWO), step: Single::of(P0_001) },
            CrowdParamId::SyllableHz => ParamKind::Float { min: Single::of(ONE), max: Single::of(P10), step: Single::of(P0_001) },
            CrowdParamId::MurmurLevel => ParamKind::Float { min: Single::of(ZERO), max: Single::of(ONE), step: Single::of(P0_001) },
            CrowdParamId::CheerLevel => ParamKind::Float { min: Single::of(ZERO), max: Single::of(ONE), step: Single::of(P0_001) },
            CrowdParamId::CheerHz => ParamKind::Exp { min: Single::of(P1000), max: Single::of(P6000) },
            CrowdParamId::RoarLevel => ParamKind::Float { min: Single::of(ZERO), max: Single::of(ONE), step: Single::of(P0_001) },
            CrowdParamId::Gain => ParamKind::Float { min: Single::of(ZERO), max: Single::of(TWO), step: Single::of(P0_001) },
        }
    }

    /// The parameter with a name.
    pub fn from_name(name: &str) -> (r: Option<CrowdParamId>)
        ensures
            match r {
                Some(id) => id.label() == name@,
                None => forall|id: CrowdParamId| (#[trigger] id.label()) != name@,
            },
    {
        let mut i: usize = 0;
        while i < 8
            invariant
                i <= 8,
                forall|id: CrowdParamId| id.place() < i ==> (#[trigger] id.label()) != name@,
            decreases 8 - i,
        {
            let id = CrowdParamId::nth(i);
            if equal(id.name(), name) {
                return Some(id);
            }
            proof {
                assert forall|other: CrowdParamId| other.place() < i + 1 implies (#[trigger] other.label()) != name@ by {
                    if other.place() == i {
                        assert(CrowdParamId::all()[other.place()] == other);
                    }
                }
            }
            i = i + 1;
        }
        None
    }
}

impl CrowdParams {
    /// Value of a parameter; names count by their index.
    pub open spec fn value(self, id: CrowdParamId) -> Single {
        match id {
            CrowdParamId::FormantHz => self.formant_hz,
            CrowdParamId::FormantSpread => self.formant_spread,
            CrowdParamId::SyllableHz => self.syllable_hz,
            CrowdParamId::MurmurLevel => self.murmur_level,
            CrowdParamId::CheerLevel => self.cheer_level,
            CrowdParamId::CheerHz => self.cheer_hz,
            CrowdParamId::RoarLevel => self.roar_level,
            CrowdParamId::Gain => self.gain,
        }
    }

    /// With a parameter set to the nearest value it can take.
    pub open spec fn with(self, id: CrowdParamId, v: Single) -> CrowdParams {
        match id {
            CrowdParamId::FormantHz => CrowdParams { formant_hz: id.range().clamped(v), ..self },
            CrowdParamId::FormantSpread => CrowdParams { formant_spread: id.range().clamped(v), ..self },
            CrowdParamId::SyllableHz => CrowdParams { syllable_hz: id.range().clamped(v), ..self },
            CrowdParamId::MurmurLevel => CrowdParams { murmur_level: id.range().clamped(v), ..self },
            CrowdParamId::CheerLevel => CrowdParams { cheer_level: id.range().clamped(v), ..self },
            CrowdParamId::CheerHz => CrowdParams { cheer_hz: id.range().clamped(v), ..self },
            CrowdParamId::RoarLevel => CrowdParams { roar_level: id.range().clamped(v), ..self },
            CrowdParamId::Gain => CrowdParams { gain: id.range().clamped(v), ..self },
        }
    }

    pub fn get(&self, id: CrowdParamId) -> (r: Single)
        ensures
            r == self.value(id),
    {
        match id {
            CrowdParamId::FormantHz => self.formant_hz,
            CrowdParamId::FormantSpread => self.formant_spread,
            CrowdParamId::SyllableHz => self.syllable_hz,
            CrowdParamId::MurmurLevel => self.murmur_level,
            CrowdParamId::CheerLevel => self.cheer_level,
            CrowdParamId::CheerHz => self.cheer_hz,
            CrowdParamId::RoarLevel => self.roar_level,
            CrowdParamId::Gain => self.gain,
        }
    }

    /// Set a parameter to the nearest value it can take; what is no number is ignored.
    pub fn set(&mut self, id: CrowdParamId, v: Single)
        ensures
            *final(self) == if v.finite() {
                old(self).with(id, v)
            } else {
                *old(self)
            },
    {
        if !v.is_finite() {
            return;
        }
        match id {
            CrowdParamId::FormantHz => {
                self.formant_hz = id.kind().clamp(v);
            },
            CrowdParamId::FormantSpread => {
                self.formant_spread = id.kind().clamp(v);
            },
            CrowdParamId::SyllableHz => {
                self.syllable_hz = id.kind().clamp(v);
            },
            CrowdParamId::MurmurLevel => {
                self.murmur_level = id.kind().clamp(v);
            },
            CrowdParamId::CheerLevel => {
                self.cheer_level = id.kind().clamp(v);
            },
            CrowdParamId::CheerHz => {
                self.cheer_hz = id.kind().clamp(v);
            },
            CrowdParamId::RoarLevel => {
                self.roar_level = id.kind().clamp(v);
            },
            CrowdParamId::Gain => {
                self.gain = id.kind().clamp(v);
            },
        }
    }
}

/// A parameter that was set has the nearest value it can take.
pub proof fn lemma_crowdparams_set_get(p: CrowdParams, id: CrowdParamId, v: Single)
    requires
        v.finite(),
    ensures
        p.with(id, v).value(id) == id.range().clamped(v),
{
}


/// Setting a parameter leaves every other one what it was.
#[verifier::rlimit(30)]
pub proof fn lemma_crowdparams_set_keeps_others(p: CrowdParams, id: CrowdParamId, other: CrowdParamId, v: Single)
    requires
        other != id,
    ensures
        p.with(id, v).value(other) == p.value(other),
{
}

/// Length and some letters of a name.
spec fn crowdparamid_sign(id: CrowdParamId) -> (int, char) {
    match id {
        CrowdParamId::FormantHz => (17, 'm'),
        CrowdParamId::FormantSpread => (21, 'm'),
        CrowdParamId::SyllableHz => (18, 'm'),
        CrowdParamId::MurmurLevel => (12, 'm'),
        CrowdParamId::CheerLevel => (11, 'c'),
        CrowdParamId::CheerHz => (8, 'c'),
        CrowdParamId::RoarLevel => (10, 'c'),
        CrowdParamId::Gain => (11, 'm'),
    }
}

#[verifier::rlimit(60)]
proof fn lemma_crowdparamid_sign(id: CrowdParamId)
    ensures
        id.label().len() == crowdparamid_sign(id).0,
        crowdparamid_sign(id).0 > 0 ==> id.label()[0] == crowdparamid_sign(id).1,
{
    reveal_strlit("murmur/formant_hz");
    reveal_strlit("murmur/spread_octaves");
    reveal_strlit("murmur/syllable_hz");
    reveal_strlit("murmur/level");
    reveal_strlit("cheer/level");
    reveal_strlit("cheer/hz");
    reveal_strlit("cheer/roar");
    reveal_strlit("master/gain");
}

/// Names tell the parameters apart, so looking up a parameter's name gives the parameter.
pub proof fn lemma_crowdparamid_names_differ(a: CrowdParamId, b: CrowdParamId)
    requires
        a.label() == b.label(),
    ensures
        a == b,
{
    lemma_crowdparamid_sign(a);
    lemma_crowdparamid_sign(b);
}

impl Params for CrowdParams {
    open spec fn plain_params() -> CrowdParams {
        CrowdParams::plain()
    }

    open spec fn param_count() -> nat {
        CrowdParamId::COUNT as nat
    }

    open spec fn label_at(i: int) -> Seq<char> {
        CrowdParamId::all()[i].label()
    }

    open spec fn range_at(i: int) -> ParamKind {
        CrowdParamId::all()[i].range()
    }

    open spec fn value_at(self, i: int) -> Single {
        self.value(CrowdParamId::all()[i])
    }

    open spec fn with_at(self, i: int, v: Single) -> CrowdParams {
        self.with(CrowdParamId::all()[i], v)
    }

    proof fn lemma_set_at_reads_back(self, i: int, v: Single) {
        lemma_crowdparams_set_get(self, CrowdParamId::all()[i], v);
    }

    proof fn lemma_set_at_keeps_others(self, i: int, j: int, v: Single) {
        assert(CrowdParamId::all()[i].place() == i);
        assert(CrowdParamId::all()[j].place() == j);
        lemma_crowdparams_set_keeps_others(self, CrowdParamId::all()[i], CrowdParamId::all()[j], v);
    }

    fn default_params() -> (r: CrowdParams) {
        CrowdParams::default()
    }

    fn count() -> (r: usize) {
        CrowdParamId::COUNT
    }

    fn name_at(i: usize) -> (r: &'static str) {
        CrowdParamId::nth(i).name()
    }

    fn kind_at(i: usize) -> (r: ParamKind) {
        CrowdParamId::nth(i).kind()
    }

    fn get_at(&self, i: usize) -> (r: Single) {
        self.get(CrowdParamId::nth(i))
    }

    fn set_at(&mut self, i: usize, v: Single) {
        self.set(CrowdParamId::nth(i), v);
    }
}

/// Crowd walla from a few people to a stadium; excitement adds cheering and roar.
pub struct Crowd {
    pub sr: Single,
    pub noise: Noise,
    pub brown: Brown,
    pub voice: Vec<Svf>,
    pub talk: Vec<SlowNoise>,
    pub pitch: Vec<SlowNoise>,
    pub cheer: Svf,
    pub cheer_swell: SlowNoise,
    pub roar: Svf,
    pub amp: Vec<Single>,
}

/// A [`Crowd`] as a value.
#[verifier::ext_equal]
pub struct CrowdView {
    pub sr: Single,
    pub noise: Noise,
    pub brown: Brown,
    pub voice: Seq<Svf>,
    pub talk: Seq<SlowNoise>,
    pub pitch: Seq<SlowNoise>,
    pub cheer: Svf,
    pub cheer_swell: SlowNoise,
    pub roar: Svf,
    pub amp: Seq<Single>,
}

impl View for Crowd {
    type V = CrowdView;

    open spec fn view(&self) -> CrowdView {
        CrowdView {
            sr: self.sr,
            noise: self.noise,
            brown: self.brown,
            voice: self.voice@,
            talk: self.talk@,
            pitch: self.pitch@,
            cheer: self.cheer,
            cheer_swell: self.cheer_swell,
            roar: self.roar,
            amp: self.amp@,
        }
    }
}

impl Crowd {
    pub open spec fn valid(self) -> bool {
        &&& self.voice@.len() == 8
        &&& self.talk@.len() == 8
        &&& self.pitch@.len() == 8
        &&& self.amp@.len() == 8
    }
}

/// Settings of a control block.
#[derive(Clone, Copy, Debug, PartialEq, Eq, Structural)]
pub struct CrowdMix {
    pub cheer_gain: Single,
    pub roar_gain: Single,
    pub murmur_gain: Single,
    pub level: Single,
}

/// The first `k` voices tuned; they join one by one as the crowd grows.
pub open spec fn crowd_voices_of(f: Sums, p: CrowdParams, ex: Single, dt: Single, size: Single, sr: Single, s: CrowdView, k: nat) -> CrowdView
    decreases k,
{
    if k == 0 {
        s
    } else {
        let s = crowd_voices_of(f, p, ex, dt, size, sr, s, (k - 1) as nat);
        let k = k - 1;
        let kf = crate::single::signed_integer(k);
        let spot = f(Prim::Div, kf, Single::of(P7));
        let rate = f(Prim::Mul, f(Prim::Mul, p.syllable_hz, f(Prim::Add, Single::of(P0_7), f(Prim::Mul, Single::of(P0_6), spot))), f(Prim::Add, Single::of(ONE), ex));
        let said = s.talk[k].advanced(f, rate, dt).level(f);
        let s = CrowdView { talk: s.talk.update(k, s.talk[k].advanced(f, rate, dt)), ..s };
        let talking = f(Prim::Pow, said.larger(Single::of(ZERO)), Single::of(P1_5));
        let joined = f(Prim::Add, f(Prim::Sub, f(Prim::Mul, size, Single::of(P8)), kf), Single::of(TWO)).within(Single::of(ZERO), Single::of(ONE));
        let s = CrowdView { amp: s.amp.update(k, f(Prim::Mul, talking, joined)), ..s };
        let bend = s.pitch[k].advanced(f, f(Prim::Mul, rate, Single::of(HALF)), dt).level(f);
        let s = CrowdView { pitch: s.pitch.update(k, s.pitch[k].advanced(f, f(Prim::Mul, rate, Single::of(HALF)), dt)), ..s };
        let hz = f(Prim::Mul, p.formant_hz, f(Prim::Exp2, f(Prim::Add, f(Prim::Add, f(Prim::Mul, f(Prim::Mul, p.formant_spread, f(Prim::Sub, spot, Single::of(HALF))), Single::of(TWO)), f(Prim::Mul, Single::of(P0_25), bend)), f(Prim::Mul, Single::of(P0_4), ex)), Single::of(ZERO)));
        let s = CrowdView { voice: s.voice.update(k, s.voice[k].tuned(f, FilterMode::BandPass, hz, Single::of(P0_75), sr)), ..s };
        s
    }
}

fn crowd_voices<F: Fn(Prim, Single, Single) -> Single>(fpu: &F, p: CrowdParams, ex: Single, dt: Single, size: Single, sr: Single, s: &mut Crowd)
    requires
        total(*fpu),
        old(s).valid(),
    ensures
        final(s).valid(),
        forall|f: Sums| #[trigger] meant(*fpu, f) ==> final(s)@ == crowd_voices_of(f, p, ex, dt, size, sr, old(s)@, 8),
{
    let mut k: usize = 0;
    while k < 8
        invariant
            k <= 8,
            total(*fpu),
            s.valid(),
            forall|f: Sums| #[trigger] meant(*fpu, f) ==> s@ == crowd_voices_of(f, p, ex, dt, size, sr, old(s)@, k as nat),
        decreases 8 - k,
    {
        let kf = from_i32(k as i32);
        let spot = fpu(Prim::Div, kf, Single::of(P7));
        let rate = fpu(Prim::Mul, fpu(Prim::Mul, p.syllable_hz, fpu(Prim::Add, Single::of(P0_7), fpu(Prim::Mul, Single::of(P0_6), spot))), fpu(Prim::Add, Single::of(ONE), ex));
        let mut item = s.talk[k];
        let said = item.advance(fpu, rate, dt);
        s.talk.set(k, item);
        let talking = fpu(Prim::Pow, said.max(Single::of(ZERO)), Single::of(P1_5));
        let joined = fpu(Prim::Add, fpu(Prim::Sub, fpu(Prim::Mul, size, Single::of(P8)), kf), Single::of(TWO)).clamp(Single::of(ZERO), Single::of(ONE));
        let value = fpu(Prim::Mul, talking, joined);
        s.amp.set(k, value);
        let mut item = s.pitch[k];
        let bend = item.advance(fpu, fpu(Prim::Mul, rate, Single::of(HALF)), dt);
        s.pitch.set(k, item);
        let hz = fpu(Prim::Mul, p.formant_hz, fpu(Prim::Exp2, fpu(Prim::Add, fpu(Prim::Add, fpu(Prim::Mul, fpu(Prim::Mul, p.formant_spread, fpu(Prim::Sub, spot, Single::of(HALF))), Single::of(TWO)), fpu(Prim::Mul, Single::of(P0_25), bend)), fpu(Prim::Mul, Single::of(P0_4), ex)), Single::of(ZERO)));
        let mut item = s.voice[k];
        item.set(fpu, FilterMode::BandPass, hz, Single::of(P0_75), sr);
        s.voice.set(k, item);
        k = k + 1;
    }
}

/// The generator at the start of a control block of `n` samples with inputs `x`, and the settings.
pub open spec fn crowd_steered(f: Sums, p: CrowdParams, x: Seq<Single>, n: Single, s: CrowdView) -> (CrowdView, CrowdMix) {
    let sr = s.sr;
    let dt = f(Prim::Div, n, sr);
    let size = x[0];
    let ex = x[1];
    let s = crowd_voices_of(f, p, ex, dt, size, sr, s, 8);
    let s = CrowdView { cheer: s.cheer.tuned(f, FilterMode::BandPass, p.cheer_hz, Single::of(P0_4), sr), ..s };
    let s = CrowdView { roar: s.roar.tuned(f, FilterMode::LowPass, Single::of(P400), Single::of(P0_1), sr), ..s };
    let swell = s.cheer_swell.advanced(f, Single::of(P0_6), dt).level(f);
    let s = CrowdView { cheer_swell: s.cheer_swell.advanced(f, Single::of(P0_6), dt), ..s };
    let cheer_gain = f(Prim::Mul, f(Prim::Mul, f(Prim::Mul, f(Prim::Mul, p.cheer_level, ex), ex), f(Prim::Add, Single::of(P0_7), f(Prim::Mul, Single::of(P0_3), swell))), Single::of(P0_8));
    let roar_gain = f(Prim::Mul, f(Prim::Mul, p.roar_level, ex), Single::of(TWO));
    let murmur_gain = f(Prim::Div, f(Prim::Mul, p.murmur_level, Single::of(P6)), f(Prim::Add, Single::of(ONE), f(Prim::Mul, Single::of(TWO), size)));
    let level = f(Prim::Mul, f(Prim::Add, Single::of(P0_4), f(Prim::Mul, Single::of(P0_6), size)), p.gain);
    (s, CrowdMix { cheer_gain, roar_gain, murmur_gain, level })
}

fn crowd_steer<F: Fn(Prim, Single, Single) -> Single>(fpu: &F, p: CrowdParams, x: &Vec<Single>, n: Single, s: &mut Crowd) -> (r: CrowdMix)
    requires
        total(*fpu),
        x@.len() == 2,
        old(s).valid(),
    ensures
        final(s).valid(),
        forall|f: Sums| #[trigger] meant(*fpu, f) ==> (final(s)@, r) == crowd_steered(f, p, x@, n, old(s)@),
{
    let sr = s.sr;
    let dt = fpu(Prim::Div, n, sr);
    let size = x[0];
    let ex = x[1];
    crowd_voices(fpu, p, ex, dt, size, sr, s);
    s.cheer.set(fpu, FilterMode::BandPass, p.cheer_hz, Single::of(P0_4), sr);
    s.roar.set(fpu, FilterMode::LowPass, Single::of(P400), Single::of(P0_1), sr);
    let swell = s.cheer_swell.advance(fpu, Single::of(P0_6), dt);
    let cheer_gain = fpu(Prim::Mul, fpu(Prim::Mul, fpu(Prim::Mul, fpu(Prim::Mul, p.cheer_level, ex), ex), fpu(Prim::Add, Single::of(P0_7), fpu(Prim::Mul, Single::of(P0_3), swell))), Single::of(P0_8));
    let roar_gain = fpu(Prim::Mul, fpu(Prim::Mul, p.roar_level, ex), Single::of(TWO));
    let murmur_gain = fpu(Prim::Div, fpu(Prim::Mul, p.murmur_level, Single::of(P6)), fpu(Prim::Add, Single::of(ONE), fpu(Prim::Mul, Single::of(TWO), size)));
    let level = fpu(Prim::Mul, fpu(Prim::Add, Single::of(P0_4), fpu(Prim::Mul, Single::of(P0_6), size)), p.gain);
    CrowdMix { cheer_gain, roar_gain, murmur_gain, level }
}

/// Sum of the first `k` voices.
pub open spec fn crowd_murmur_of(f: Sums, pk: Single, s: CrowdView, y: Single, k: nat) -> (CrowdView, Single)
    decreases k,
{
    if k == 0 {
        (s, y)
    } else {
        let (s, y) = crowd_murmur_of(f, pk, s, y, (k - 1) as nat);
        let k = k - 1;
        let spoken = s.voice[k].output(f, pk);
        let s = CrowdView { voice: s.voice.update(k, s.voice[k].fed(f, pk)), ..s };
        let y = f(Prim::Add, y, f(Prim::Mul, spoken, s.amp[k]));
        (s, y)
    }
}

fn crowd_murmur<F: Fn(Prim, Single, Single) -> Single>(fpu: &F, pk: Single, s: &mut Crowd, y0: Single) -> (r: Single)
    requires
        total(*fpu),
        old(s).valid(),
    ensures
        final(s).valid(),
        forall|f: Sums| #[trigger] meant(*fpu, f) ==> (final(s)@, r) == crowd_murmur_of(f, pk, old(s)@, y0, 8),
{
    let mut y = y0;
    let mut k: usize = 0;
    while k < 8
        invariant
            k <= 8,
            total(*fpu),
            s.valid(),
            forall|f: Sums| #[trigger] meant(*fpu, f) ==> (s@, y) == crowd_murmur_of(f, pk, old(s)@, y0, k as nat),
        decreases 8 - k,
    {
        let mut item = s.voice[k];
        let spoken = item.tick(fpu, pk);
        s.voice.set(k, item);
        y = fpu(Prim::Add, y, fpu(Prim::Mul, spoken, s.amp[k]));
        k = k + 1;
    }
    y
}

/// One sample; what was in its place is not heard.
pub open spec fn crowd_tick(f: Sums, p: CrowdParams, m: CrowdMix, s: CrowdView, v: Single) -> (CrowdView, Single) {
    let w = s.noise.draw();
    let s = CrowdView { noise: Noise { rng: s.noise.rng.advanced(), ..s.noise }, ..s };
    let pk = s.noise.pink.output(f, s.noise.draw());
    let s = CrowdView { noise: Noise { rng: s.noise.rng.advanced(), pink: s.noise.pink.fed(f, s.noise.draw()) }, ..s };
    let y = Single::of(ZERO);
    let (s, y) = crowd_murmur_of(f, pk, s, y, 8);
    let cheered = s.cheer.output(f, w);
    let s = CrowdView { cheer: s.cheer.fed(f, w), ..s };
    let br = s.brown.sound(f, w);
    let s = CrowdView { brown: Brown { y: s.brown.integrated(f, w) }, ..s };
    let roared = s.roar.output(f, br);
    let s = CrowdView { roar: s.roar.fed(f, br), ..s };
    (s, f(Prim::Mul, f(Prim::Add, f(Prim::Add, f(Prim::Mul, y, m.murmur_gain), f(Prim::Mul, cheered, m.cheer_gain)), f(Prim::Mul, roared, m.roar_gain)), m.level))
}

/// The same for a run of samples.
pub open spec fn crowd_run(f: Sums, p: CrowdParams, m: CrowdMix, s: CrowdView, x: Seq<Single>) -> (CrowdView, Seq<Single>)
    decreases x.len(),
{
    if x.len() == 0 {
        (s, seq![])
    } else {
        let (t, out) = crowd_run(f, p, m, s, x.drop_last());
        let (u, y) = crowd_tick(f, p, m, t, x.last());
        (u, out.push(y))
    }
}

fn crowd_sample<F: Fn(Prim, Single, Single) -> Single>(fpu: &F, p: CrowdParams, m: CrowdMix, s: &mut Crowd, v: Single) -> (y: Single)
    requires
        total(*fpu),
        old(s).valid(),
    ensures
        final(s).valid(),
        forall|f: Sums| #[trigger] meant(*fpu, f) ==> (final(s)@, y) == crowd_tick(f, p, m, old(s)@, v),
{
    let w = s.noise.white();
    let pk = s.noise.pink(fpu);
    let mut y = Single::of(ZERO);
    y = crowd_murmur(fpu, pk, s, y);
    let cheered = s.cheer.tick(fpu, w);
    let br = s.brown.tick(fpu, w);
    let roared = s.roar.tick(fpu, br);
    fpu(Prim::Mul, fpu(Prim::Add, fpu(Prim::Add, fpu(Prim::Mul, y, m.murmur_gain), fpu(Prim::Mul, cheered, m.cheer_gain)), fpu(Prim::Mul, roared, m.roar_gain)), m.level)
}

fn crowd_span<F: Fn(Prim, Single, Single) -> Single>(fpu: &F, p: CrowdParams, m: CrowdMix, s: &mut Crowd, buf: &mut Vec<Single>, start: usize, end: usize)
    requires
        total(*fpu),
        start <= end <= old(buf)@.len(),
        old(s).valid(),
    ensures
        final(buf)@.len() == old(buf)@.len(),
        same_outside(old(buf)@, final(buf)@, start as int, end as int),
        final(s).valid(),
        forall|f: Sums| #[trigger] meant(*fpu, f) ==> (final(s)@, final(buf)@.subrange(start as int, end as int)) == crowd_run(
            f, p, m,
            old(s)@,
            old(buf)@.subrange(start as int, end as int),
        ),
{
    let mut i: usize = start;
    let ghost before = buf@;
    assert(before.subrange(start as int, start as int) =~= seq![]);
    while i < end
        invariant
            start <= i <= end <= buf@.len(),
            buf@.len() == before.len(),
            before == old(buf)@,
            same_outside(before, buf@, start as int, i as int),
            total(*fpu),
            s.valid(),
            forall|f: Sums| #[trigger] meant(*fpu, f) ==> (s@, buf@.subrange(start as int, i as int)) == crowd_run(
                f, p, m,
                old(s)@,
                before.subrange(start as int, i as int),
            ),
        decreases end - i,
    {
        let ghost last = buf@;
        let y = crowd_sample(fpu, p, m, s, buf[i]);
        buf.set(i, y);
        i = i + 1;
        assert(before.subrange(start as int, i as int).drop_last() =~= before.subrange(start as int, i - 1));
        assert(buf@.subrange(start as int, i as int) =~= last.subrange(start as int, i - 1).push(y));
    }
}

/// What the buffer held does not matter.
proof fn lemma_crowd_overwrites(f: Sums, p: CrowdParams, m: CrowdMix, s: CrowdView, a: Seq<Single>, b: Seq<Single>)
    requires
        a.len() == b.len(),
    ensures
        crowd_run(f, p, m, s, a) == crowd_run(f, p, m, s, b),
        crowd_run(f, p, m, s, a).1.len() == a.len(),
    decreases a.len(),
{
    if a.len() > 0 {
        lemma_crowd_overwrites(f, p, m, s, a.drop_last(), b.drop_last());
    }
}

impl Generator for Crowd {
    type P = CrowdParams;

    type State = CrowdView;

    open spec fn about() -> ProfileView {
        ProfileView {
            name: "crowd"@,
            category: "ambient"@,
            doc: "Crowd walla from a few people to a stadium; excitement adds cheering and roar."@,
            smooth_secs: Single::of(P0_05),
            limit: true,
            one_shot: false,
        }
    }

    open spec fn input_list() -> Seq<InputView> {
        seq![
            InputView { name: "size"@, default: Single::of(HALF), doc: "A few voices to a packed arena"@ },
            InputView { name: "excitement"@, default: Single::of(P0_1), doc: "Murmur to cheering roar"@ },
        ]
    }

    open spec fn preset_list() -> Seq<(Seq<char>, CrowdParams)> {
        seq![
            ("Tavern"@, CrowdParams { formant_hz: Single::of(P560), syllable_hz: Single::of(P3_2), cheer_level: Single::of(P0_3), roar_level: Single::of(P0_1), ..CrowdParams::plain() }),
            ("Stadium"@, CrowdParams { formant_hz: Single::of(P850), formant_spread: Single::of(P1_2), cheer_level: Single::of(P0_9), roar_level: Single::of(P0_8), ..CrowdParams::plain() }),
        ]
    }

    open spec fn wf(&self) -> bool {
        self.valid()
    }

    open spec fn state(&self) -> CrowdView {
        self@
    }

    open spec fn fresh(f: Sums, sample_rate: Single) -> CrowdView {
        CrowdView {
            sr: sample_rate,
            noise: Noise::seeded_with(0x62_0001),
            brown: Brown { y: Single::of(ZERO) },
            voice: Seq::new(8, |k: int| Svf::silent()),
            talk: Seq::new(8, |k: int| SlowNoise::seeded_with((0x62_0100 + k * 131) as u32)),
            pitch: Seq::new(8, |k: int| SlowNoise::seeded_with((0x62_0200 + k * 137) as u32)),
            cheer: Svf::silent(),
            cheer_swell: SlowNoise::seeded_with(0x62_0300),
            roar: Svf::silent(),
            amp: Seq::new(8, |k: int| Single::of(ZERO)),
        }
    }

    open spec fn snapped(s: CrowdView, f: Sums, x: Seq<Single>, p: CrowdParams) -> CrowdView {
        s
    }

    open spec fn fired(s: CrowdView, f: Sums, x: Seq<Single>, p: CrowdParams) -> CrowdView {
        s
    }

    open spec fn ringing(s: CrowdView) -> bool {
        true
    }

    open spec fn played(s: CrowdView, f: Sums, x: Seq<Single>, p: CrowdParams, out: Seq<Single>) -> (CrowdView, Seq<Single>) {
        let (t, m) = crowd_steered(f, p, x, crate::single::signed_integer(out.len() as int), s);
        crowd_run(f, p, m, t, out)
    }

    proof fn lemma_overwrites(s: CrowdView, f: Sums, x: Seq<Single>, p: CrowdParams, a: Seq<Single>, b: Seq<Single>) {
        let (t, m) = crowd_steered(f, p, x, crate::single::signed_integer(a.len() as int), s);
        lemma_crowd_overwrites(f, p, m, t, a, b);
    }

    fn profile() -> (r: Profile) {
        Profile {
            name: "crowd",
            category: "ambient",
            doc: "Crowd walla from a few people to a stadium; excitement adds cheering and roar.",
            smooth_secs: Single::of(P0_05),
            limit: true,
            one_shot: false,
        }
    }

    fn inputs() -> (r: Vec<InputSpec>) {
        let mut r: Vec<InputSpec> = Vec::new();
        r.push(InputSpec { name: "size", default: Single::of(HALF), doc: "A few voices to a packed arena" });
        r.push(InputSpec { name: "excitement", default: Single::of(P0_1), doc: "Murmur to cheering roar" });
        r
    }

    fn presets() -> (r: Vec<(&'static str, CrowdParams)>) {
        let mut r: Vec<(&'static str, CrowdParams)> = Vec::new();
        r.push(("Tavern", CrowdParams { formant_hz: Single::of(P560), syllable_hz: Single::of(P3_2), cheer_level: Single::of(P0_3), roar_level: Single::of(P0_1), ..CrowdParams::default() }));
        r.push(("Stadium", CrowdParams { formant_hz: Single::of(P850), formant_spread: Single::of(P1_2), cheer_level: Single::of(P0_9), roar_level: Single::of(P0_8), ..CrowdParams::default() }));
        r
    }

    fn new<F: Fn(Prim, Single, Single) -> Single>(fpu: &F, sample_rate: Single) -> (r: Crowd) {
        let mut voice: Vec<Svf> = Vec::new();
        while voice.len() < 8
            invariant
                voice@.len() <= 8,
                forall|k: int| 0 <= k < voice@.len() ==> #[trigger] voice@[k] == Svf::silent(),
            decreases 8 - voice@.len(),
        {
            let k = voice.len();
            voice.push(Svf::default());
        }
        let mut talk: Vec<SlowNoise> = Vec::new();
        while talk.len() < 8
            invariant
                talk@.len() <= 8,
                forall|k: int| 0 <= k < talk@.len() ==> #[trigger] talk@[k] == SlowNoise::seeded_with((0x62_0100 + k * 131) as u32),
            decreases 8 - talk@.len(),
        {
            let k = talk.len();
            talk.push(SlowNoise::new(0x62_0100 + k as u32 * 131));
        }
        let mut pitch: Vec<SlowNoise> = Vec::new();
        while pitch.len() < 8
            invariant
                pitch@.len() <= 8,
                forall|k: int| 0 <= k < pitch@.len() ==> #[trigger] pitch@[k] == SlowNoise::seeded_with((0x62_0200 + k * 137) as u32),
            decreases 8 - pitch@.len(),
        {
            let k = pitch.len();
            pitch.push(SlowNoise::new(0x62_0200 + k as u32 * 137));
        }
        let mut amp: Vec<Single> = Vec::new();
        while amp.len() < 8
            invariant
                amp@.len() <= 8,
                forall|k: int| 0 <= k < amp@.len() ==> #[trigger] amp@[k] == Single::of(ZERO),
            decreases 8 - amp@.len(),
        {
            let k = amp.len();
            amp.push(Single::of(ZERO));
        }
        let r = Crowd {
            sr: sample_rate,
            noise: Noise::new(0x62_0001),
            brown: Brown::default(),
            voice,
            talk,
            pitch,
            cheer: Svf::default(),
            cheer_swell: SlowNoise::new(0x62_0300),
            roar: Svf::default(),
            amp,
        };
        assert(r@.voice =~= Seq::new(8, |k: int| Svf::silent()));
        assert(r@.talk =~= Seq::new(8, |k: int| SlowNoise::seeded_with((0x62_0100 + k * 131) as u32)));
        assert(r@.pitch =~= Seq::new(8, |k: int| SlowNoise::seeded_with((0x62_0200 + k * 137) as u32)));
        assert(r@.amp =~= Seq::new(8, |k: int| Single::of(ZERO)));
        r
    }

    fn snap<F: Fn(Prim, Single, Single) -> Single>(&mut self, fpu: &F, x: &Vec<Single>, p: &CrowdParams) {
    }

    fn trigger<F: Fn(Prim, Single, Single) -> Single>(&mut self, fpu: &F, x: &Vec<Single>, p: &CrowdParams) {
    }

    fn is_active(&self) -> (r: bool) {
        true
    }

    fn block<F: Fn(Prim, Single, Single) -> Single>(&mut self, fpu: &F, x: &Vec<Single>, p: &CrowdParams, out: &mut Vec<Single>, start: usize, end: usize) {
        let n = from_i32((end - start) as i32);
        let m = crowd_steer(fpu, *p, x, n, self);
        crowd_span(fpu, *p, m, self, out, start, end);
    }
}

/// Radio static: band-limited hiss, clicks, a drifting heterodyne whistle and mains hum.
#[derive(Clone, Copy, Debug, PartialEq, Eq, Structural)]
pub struct RadioParams {
    pub hiss_level: Single,
    pub hiss_hz: Single,
    pub click_rate: Single,
    pub click_level: Single,
    pub whistle_hz: Single,
    pub whistle_level: Single,
    pub drift: Single,
    pub hum_level: Single,
    pub gain: Single,
}

impl RadioParams {
    pub open spec fn plain() -> RadioParams {
        RadioParams {
            hiss_level: Single::of(HALF),
            hiss_hz: Single::of(P2500),
            click_rate: Single::of(P40),
            click_level: Single::of(P0_6),
            whistle_hz: Single::of(P1800),
            whistle_level: Single::of(P0_25),
            drift: Single::of(P0_3),
            hum_level: Single::of(P0_15),
            gain: Single::of(ONE),
        }
    }
}

impl Default for RadioParams {
    fn default() -> (r: RadioParams)
        ensures
            r == RadioParams::plain(),
    {
        RadioParams {
            hiss_level: Single::of(HALF),
            hiss_hz: Single::of(P2500),
            click_rate: Single::of(P40),
            click_level: Single::of(P0_6),
            whistle_hz: Single::of(P1800),
            whistle_level: Single::of(P0_25),
            drift: Single::of(P0_3),
            hum_level: Single::of(P0_15),
            gain: Single::of(ONE),
        }
    }
}

/// Identifier of every tweakable value in [`RadioParams`].
#[derive(Clone, Copy, Debug, PartialEq, Eq, Structural)]
pub enum RadioParamId {
    HissLevel,
    HissHz,
    ClickRate,
    ClickLevel,
    WhistleHz,
    WhistleLevel,
    Drift,
    HumLevel,
    Gain,
}

impl RadioParamId {
    /// Number of parameters.
    pub const COUNT: usize = 9;

    /// Every parameter, in table order.
    pub open spec fn all() -> Seq<RadioParamId> {
        seq![
            RadioParamId::HissLevel,
            RadioParamId::HissHz,
            RadioParamId::ClickRate,
            RadioParamId::ClickLevel,
            RadioParamId::WhistleHz,
            RadioParamId::WhistleLevel,
            RadioParamId::Drift,
            RadioParamId::HumLevel,
            RadioParamId::Gain,
        ]
    }

    /// Place in the table.
    pub open spec fn place(self) -> int {
        match self {
            RadioParamId::HissLevel => 0,
            RadioParamId::HissHz => 1,
            RadioParamId::ClickRate => 2,
            RadioParamId::ClickLevel => 3,
            RadioParamId::WhistleHz => 4,
            RadioParamId::WhistleLevel => 5,
            RadioParamId::Drift => 6,
            RadioParamId::HumLevel => 7,
            RadioParamId::Gain => 8,
        }
    }

    pub open spec fn label(self) -> Seq<char> {
        match self {
            RadioParamId::HissLevel => "hiss/level"@,
            RadioParamId::HissHz => "hiss/hz"@,
            RadioParamId::ClickRate => "clicks/per_second"@,
            RadioParamId::ClickLevel => "clicks/level"@,
            RadioParamId::WhistleHz => "whistle/hz"@,
            RadioParamId::WhistleLevel => "whistle/level"@,
            RadioParamId::Drift => "whistle/drift_hz"@,
            RadioParamId::HumLevel => "hum/level"@,
            RadioParamId::Gain => "master/gain"@,
        }
    }

    pub open spec fn range(self) -> ParamKind {
        match self {
            RadioParamId::HissLevel => ParamKind::Float { min: Single::of(ZERO), max: Single::of(ONE), step: Single::of(P0_001) },
            RadioParamId::HissHz => ParamKind::Exp { min: Single::of(P500), max: Single::of(P8000) },
            RadioParamId::ClickRate => ParamKind::Exp { min: Single::of(ONE), max: Single::of(P2000) },
            RadioParamId::ClickLevel => ParamKind::Float { min: Single::of(ZERO), max: Single::of(ONE), step: Single::of(P0_001) },
            RadioParamId::WhistleHz => ParamKind::Exp { min: Single::of(P200), max: Single::of(P6000) },
            RadioParamId::WhistleLevel => ParamKind::Float { min: Single::of(ZERO), max: Single::of(ONE), step: Single::of(P0_001) },
            RadioParamId::Drift => ParamKind::Exp { min: Single::of(P0_02), max: Single::of(P5) },
            RadioParamId::HumLevel => ParamKind::Float { min: Single::of(ZERO), max: Single::of(ONE), step: Single::of(P0_001) },
            RadioParamId::Gain => ParamKind::Float { min: Single::of(ZERO), max: Single::of(TWO), step: Single::of(P0_001) },
        }
    }

    /// The parameter at a place of the table, if there is one.
    pub fn from_index(i: usize) -> (r: Option<RadioParamId>)
        ensures
            r == if i < 9 {
                Some(RadioParamId::all()[i as int])
            } else {
                None
            },
    {
        if i < 9 {
            Some(RadioParamId::nth(i))
        } else {
            None
        }
    }

    /// The parameter at a place of the table.
    pub fn nth(i: usize) -> (r: RadioParamId)
        requires
            i < 9,
        ensures
            r == RadioParamId::all()[i as int],
            r.place() == i,
    {
        match i {
            0 => RadioParamId::HissLevel,
            1 => RadioParamId::HissHz,
            2 => RadioParamId::ClickRate,
            3 => RadioParamId::ClickLevel,
            4 => RadioParamId::WhistleHz,
            5 => RadioParamId::WhistleLevel,
            6 => RadioParamId::Drift,
            7 => RadioParamId::HumLevel,
            _ => RadioParamId::Gain,
        }
    }

    pub fn index(self) -> (r: usize)
        ensures
            r == self.place(),
            r < 9,
    {
        match self {
            RadioParamId::HissLevel => 0,
            RadioParamId::HissHz => 1,
            RadioParamId::ClickRate => 2,
            RadioParamId::ClickLevel => 3,
            RadioParamId::WhistleHz => 4,
            RadioParamId::WhistleLevel => 5,
            RadioParamId::Drift => 6,
            RadioParamId::HumLevel => 7,
            RadioParamId::Gain => 8,
        }
    }

    pub fn name(self) -> (r: &'static str)
        ensures
            r@ == self.label(),
    {
        match self {
            RadioParamId::HissLevel => "hiss/level",
            RadioParamId::HissHz => "hiss/hz",
            RadioParamId::ClickRate => "clicks/per_second",
            RadioParamId::ClickLevel => "clicks/level",
            RadioParamId::WhistleHz => "whistle/hz",
            RadioParamId::WhistleLevel => "whistle/level",
            RadioParamId::Drift => "whistle/drift_hz",
            RadioParamId::HumLevel => "hum/level",
            RadioParamId::Gain => "master/gain",
        }
    }

    pub fn kind(self) -> (r: ParamKind)
        ensures
            r == self.range(),
            r.wf(),
    {
        match self {
            RadioParamId::HissLevel => ParamKind::Float { min: Single::of(ZERO), max: Single::of(ONE), step: Single::of(P0_001) },
            RadioParamId::HissHz => ParamKind::Exp { min: Single::of(P500), max: Single::of(P8000) },
            RadioParamId::ClickRate => ParamKind::Exp { min: Single::of(ONE), max: Single::of(P2000) },
            RadioParamId::ClickLevel => ParamKind::Float { min: Single::of(ZERO), max: Single::of(ONE), step: Single::of(P0_001) },
            RadioParamId::WhistleHz => ParamKind::Exp { min: Single::of(P200), max: Single::of(P6000) },
            RadioParamId::WhistleLevel => ParamKind::Float { min: Single::of(ZERO), max: Single::of(ONE), step: Single::of(P0_001) },
            RadioParamId::Drift => ParamKind::Exp { min: Single::of(P0_02), max: Single::of(P5) },
            RadioParamId::HumLevel => ParamKind::Float { min: Single::of(ZERO), max: Single::of(ONE), step: Single::of(P0_001) },
            RadioParamId::Gain => ParamKind::Float { min: Single::of(ZERO), max: Single::of(TWO), step: Single::of(P0_001) },
        }
    }

    /// The parameter with a name.
    pub fn from_name(name: &str) -> (r: Option<RadioParamId>)
        ensures
            match r {
                Some(id) => id.label() == name@,
                None => forall|id: RadioParamId| (#[trigger] id.label()) != name@,
            },
    {
        let mut i: usize = 0;
        while i < 9
            invariant
                i <= 9,
                forall|id: RadioParamId| id.place() < i ==> (#[trigger] id.label()) != name@,
            decreases 9 - i,
        {
            let id = RadioParamId::nth(i);
            if equal(id.name(), name) {
                return Some(id);
            }
            proof {
                assert forall|other: RadioParamId| other.place() < i + 1 implies (#[trigger] other.label()) != name@ by {
                    if other.place() == i {
                        assert(RadioParamId::all()[other.place()] == other);
                    }
                }
            }
            i = i + 1;
        }
        None
    }
}

impl RadioParams {
    /// Value of a parameter; names count by their index.
    pub open spec fn value(self, id: RadioParamId) -> Single {
        match id {
            RadioParamId::HissLevel => self.hiss_level,
            RadioParamId::HissHz => self.hiss_hz,
            RadioParamId::ClickRate => self.click_rate,
            RadioParamId::ClickLevel => self.click_level,
            RadioParamId::WhistleHz => self.whistle_hz,
            RadioParamId::WhistleLevel => self.whistle_level,
            RadioParamId::Drift => self.drift,
            RadioParamId::HumLevel => self.hum_level,
            RadioParamId::Gain => self.gain,
        }
    }

    /// With a parameter set to the nearest value it can take.
    pub open spec fn with(self, id: RadioParamId, v: Single) -> RadioParams {
        match id {
            RadioParamId::HissLevel => RadioParams { hiss_level: id.range().clamped(v), ..self },
            RadioParamId::HissHz => RadioParams { hiss_hz: id.range().clamped(v), ..self },
            RadioParamId::ClickRate => RadioParams { click_rate: id.range().clamped(v), ..self },
            RadioParamId::ClickLevel => RadioParams { click_level: id.range().clamped(v), ..self },
            RadioParamId::WhistleHz => RadioParams { whistle_hz: id.range().clamped(v), ..self },
            RadioParamId::WhistleLevel => RadioParams { whistle_level: id.range().clamped(v), ..self },
            RadioParamId::Drift => RadioParams { drift: id.range().clamped(v), ..self },
            RadioParamId::HumLevel => RadioParams { hum_level: id.range().clamped(v), ..self },
            RadioParamId::Gain => RadioParams { gain: id.range().clamped(v), ..self },
        }
    }

    pub fn get(&self, id: RadioParamId) -> (r: Single)
        ensures
            r == self.value(id),
    {
        match id {
            RadioParamId::HissLevel => self.hiss_level,
            RadioParamId::HissHz => self.hiss_hz,
            RadioParamId::ClickRate => self.click_rate,
            RadioParamId::ClickLevel => self.click_level,
            RadioParamId::WhistleHz => self.whistle_hz,
            RadioParamId::WhistleLevel => self.whistle_level,
            RadioParamId::Drift => self.drift,
            RadioParamId::HumLevel => self.hum_level,
            RadioParamId::Gain => self.gain,
        }
    }

    /// Set a parameter to the nearest value it can take; what is no number is ignored.
    pub fn set(&mut self, id: RadioParamId, v: Single)
        ensures
            *final(self) == if v.finite() {
                old(self).with(id, v)
            } else {
                *old(self)
            },
    {
        if !v.is_finite() {
            return;
        }
        match id {
            RadioParamId::HissLevel => {
                self.hiss_level = id.kind().clamp(v);
            },
            RadioParamId::HissHz => {
                self.hiss_hz = id.kind().clamp(v);
            },
            RadioParamId::ClickRate => {
                self.click_rate = id.kind().clamp(v);
            },
            RadioParamId::ClickLevel => {
                self.click_level = id.kind().clamp(v);
            },
            RadioParamId::WhistleHz => {
                self.whistle_hz = id.kind().clamp(v);
            },
            RadioParamId::WhistleLevel => {
                self.whistle_level = id.kind().clamp(v);
            },
            RadioParamId::Drift => {
                self.drift = id.kind().clamp(v);
            },
            RadioParamId::HumLevel => {
                self.hum_level = id.kind().clamp(v);
            },
            RadioParamId::Gain => {
                self.gain = id.kind().clamp(v);
            },
        }
    }
}

/// A parameter that was set has the nearest value it can take.
pub proof fn lemma_radioparams_set_get(p: RadioParams, id: RadioParamId, v: Single)
    requires
        v.finite(),
    ensures
        p.with(id, v).value(id) == id.range().clamped(v),
{
}


/// Setting a parameter leaves every other one what it was.
#[verifier::rlimit(30)]
pub proof fn lemma_radioparams_set_keeps_others(p: RadioParams, id: RadioParamId, other: RadioParamId, v: Single)
    requires
        other != id,
    ensures
        p.with(id, v).value(other) == p.value(other),
{
}

/// Length and some letters of a name.
spec fn radioparamid_sign(id: RadioParamId) -> (int, char) {
    match id {
        RadioParamId::HissLevel => (10, 'h'),
        RadioParamId::HissHz => (7, 'h'),
        RadioParamId::ClickRate => (17, 'c'),
        RadioParamId::ClickLevel => (12, 'c'),
        RadioParamId::WhistleHz => (10, 'w'),
        RadioParamId::WhistleLevel => (13, 'w'),
        RadioParamId::Drift => (16, 'w'),
        RadioParamId::HumLevel => (9, 'h'),
        RadioParamId::Gain => (11, 'm'),
    }
}

#[verifier::rlimit(60)]
proof fn lemma_radioparamid_sign(id: RadioParamId)
    ensures
        id.label().len() == radioparamid_sign(id).0,
        radioparamid_sign(id).0 > 0 ==> id.label()[0] == radioparamid_sign(id).1,
{
    reveal_strlit("hiss/level");
    reveal_strlit("hiss/hz");
    reveal_strlit("clicks/per_second");
    reveal_strlit("clicks/level");
    reveal_strlit("whistle/hz");
    reveal_strlit("whistle/level");
    reveal_strlit("whistle/drift_hz");
    reveal_strlit("hum/level");
    reveal_strlit("master/gain");
}

/// Names tell the parameters apart, so looking up a parameter's name gives the parameter.
pub proof fn lemma_radioparamid_names_differ(a: RadioParamId, b: RadioParamId)
    requires
        a.label() == b.label(),
    ensures
        a == b,
{
    lemma_radioparamid_sign(a);
    lemma_radioparamid_sign(b);
}

impl Params for RadioParams {
    open spec fn plain_params() -> RadioParams {
        RadioParams::plain()
    }

    open spec fn param_count() -> nat {
        RadioParamId::COUNT as nat
    }

    open spec fn label_at(i: int) -> Seq<char> {
        RadioParamId::all()[i].label()
    }

    open spec fn range_at(i: int) -> ParamKind {
        RadioParamId::all()[i].range()
    }

    open spec fn value_at(self, i: int) -> Single {
        self.value(RadioParamId::all()[i])
    }

    open spec fn with_at(self, i: int, v: Single) -> RadioParams {
        self.with(RadioParamId::all()[i], v)
    }

    proof fn lemma_set_at_reads_back(self, i: int, v: Single) {
        lemma_radioparams_set_get(self, RadioParamId::all()[i], v);
    }

    proof fn lemma_set_at_keeps_others(self, i: int, j: int, v: Single) {
        assert(RadioParamId::all()[i].place() == i);
        assert(RadioParamId::all()[j].place() == j);
        lemma_radioparams_set_keeps_others(self, RadioParamId::all()[i], RadioParamId::all()[j], v);
    }

    fn default_params() -> (r: RadioParams) {
        RadioParams::default()
    }

    fn count() -> (r: usize) {
        RadioParamId::COUNT
    }

    fn name_at(i: usize) -> (r: &'static str) {
        RadioParamId::nth(i).name()
    }

    fn kind_at(i: usize) -> (r: ParamKind) {
        RadioParamId::nth(i).kind()
    }

    fn get_at(&self, i: usize) -> (r: Single) {
        self.get(RadioParamId::nth(i))
    }

    fn set_at(&mut self, i: usize, v: Single) {
        self.set(RadioParamId::nth(i), v);
    }
}

/// Radio static and interference; `activity` alone works as a geiger counter.
#[derive(Clone, Copy, Debug, PartialEq, Eq, Structural)]
pub struct Radio {
    pub sr: Single,
    pub noise: Noise,
    pub clicks: Dust,
    pub hiss: Svf,
    pub tick: Svf,
    pub whistle: Phasor,
    pub hum: Phasor,
    pub swell: SlowNoise,
    pub tune: SlowNoise,
    pub fade: SlowNoise,
}

/// Settings of a control block.
#[derive(Clone, Copy, Debug, PartialEq, Eq, Structural)]
pub struct RadioMix {
    pub sr: Single,
    pub hiss_gain: Single,
    pub click_p: Single,
    pub whistle_inc: Single,
    pub whistle_gain: Single,
    pub hum_gain: Single,
}

/// The generator at the start of a control block of `n` samples with inputs `x`, and the settings.
pub open spec fn radio_steered(f: Sums, p: RadioParams, x: Seq<Single>, n: Single, s: Radio) -> (Radio, RadioMix) {
    let sr = s.sr;
    let dt = f(Prim::Div, n, sr);
    let inter = x[0];
    let activity = x[1];
    let s = Radio { hiss: s.hiss.tuned(f, FilterMode::BandPass, p.hiss_hz, Single::of(P0_2), sr), ..s };
    let s = Radio { tick: s.tick.tuned(f, FilterMode::BandPass, Single::of(P2500), Single::of(P0_6), sr), ..s };
    let swell = s.swell.advanced(f, Single::of(P1_5), dt).level(f);
    let s = Radio { swell: s.swell.advanced(f, Single::of(P1_5), dt), ..s };
    let hiss_gain = f(Prim::Mul, f(Prim::Mul, f(Prim::Mul, p.hiss_level, f(Prim::Add, Single::of(P0_15), f(Prim::Mul, Single::of(P0_85), inter))), f(Prim::Add, Single::of(P0_7), f(Prim::Mul, Single::of(P0_3), swell))), Single::of(P0_8));
    let click_p = f(Prim::Div, f(Prim::Mul, f(Prim::Mul, p.click_rate, activity), activity), sr);
    let tune = s.tune.advanced(f, p.drift, dt).level(f);
    let s = Radio { tune: s.tune.advanced(f, p.drift, dt), ..s };
    let whistle_inc = f(Prim::Div, f(Prim::Mul, p.whistle_hz, f(Prim::Exp2, f(Prim::Mul, Single::of(P0_7), tune), Single::of(ZERO))), sr);
    let fade = s.fade.advanced(f, f(Prim::Mul, p.drift, Single::of(P0_7)), dt).level(f);
    let s = Radio { fade: s.fade.advanced(f, f(Prim::Mul, p.drift, Single::of(P0_7)), dt), ..s };
    let whistle_gain = f(Prim::Mul, f(Prim::Mul, p.whistle_level, inter), fade.larger(Single::of(ZERO)));
    let hum_gain = f(Prim::Mul, p.hum_level, inter);
    (s, RadioMix { sr, hiss_gain, click_p, whistle_inc, whistle_gain, hum_gain })
}

fn radio_steer<F: Fn(Prim, Single, Single) -> Single>(fpu: &F, p: RadioParams, x: &Vec<Single>, n: Single, s: &mut Radio) -> (r: RadioMix)
    requires
        total(*fpu),
        x@.len() == 2,
    ensures
        forall|f: Sums| #[trigger] meant(*fpu, f) ==> (*final(s), r) == radio_steered(f, p, x@, n, *old(s)),
{
    let sr = s.sr;
    let dt = fpu(Prim::Div, n, sr);
    let inter = x[0];
    let activity = x[1];
    s.hiss.set(fpu, FilterMode::BandPass, p.hiss_hz, Single::of(P0_2), sr);
    s.tick.set(fpu, FilterMode::BandPass, Single::of(P2500), Single::of(P0_6), sr);
    let swell = s.swell.advance(fpu, Single::of(P1_5), dt);
    let hiss_gain = fpu(Prim::Mul, fpu(Prim::Mul, fpu(Prim::Mul, p.hiss_level, fpu(Prim::Add, Single::of(P0_15), fpu(Prim::Mul, Single::of(P0_85), inter))), fpu(Prim::Add, Single::of(P0_7), fpu(Prim::Mul, Single::of(P0_3), swell))), Single::of(P0_8));
    let click_p = fpu(Prim::Div, fpu(Prim::Mul, fpu(Prim::Mul, p.click_rate, activity), activity), sr);
    let tune = s.tune.advance(fpu, p.drift, dt);
    let whistle_inc = fpu(Prim::Div, fpu(Prim::Mul, p.whistle_hz, fpu(Prim::Exp2, fpu(Prim::Mul, Single::of(P0_7), tune), Single::of(ZERO))), sr);
    let fade = s.fade.advance(fpu, fpu(Prim::Mul, p.drift, Single::of(P0_7)), dt);
    let whistle_gain = fpu(Prim::Mul, fpu(Prim::Mul, p.whistle_level, inter), fade.max(Single::of(ZERO)));
    let hum_gain = fpu(Prim::Mul, p.hum_level, inter);
    RadioMix { sr, hiss_gain, click_p, whistle_inc, whistle_gain, hum_gain }
}

/// One sample; what was in its place is not heard.
pub open spec fn radio_tick(f: Sums, p: RadioParams, m: RadioMix, s: Radio, v: Single) -> (Radio, Single) {
    let s = Radio { whistle: s.whistle.moved(f, m.whistle_inc), ..s };
    let s = Radio { hum: s.hum.moved(f, f(Prim::Div, Single::of(P50), m.sr)), ..s };
    let h = f(Prim::Mul, s.hum.phase, Single::of(TAU));
    let click = s.clicks.impulse(f, m.click_p);
    let s = Radio { clicks: s.clicks.ticked(m.click_p), ..s };
    let w = s.noise.draw();
    let s = Radio { noise: Noise { rng: s.noise.rng.advanced(), ..s.noise }, ..s };
    let hissed = s.hiss.output(f, w);
    let s = Radio { hiss: s.hiss.fed(f, w), ..s };
    let ticked = s.tick.output(f, click);
    let s = Radio { tick: s.tick.fed(f, click), ..s };
    (s, f(Prim::Mul, f(Prim::Mul, f(Prim::Add, f(Prim::Add, f(Prim::Add, f(Prim::Mul, hissed, m.hiss_gain), f(Prim::Mul, f(Prim::Add, f(Prim::Mul, ticked, Single::of(TWO)), f(Prim::Mul, click, Single::of(HALF))), p.click_level)), f(Prim::Mul, s.whistle.sine(f), m.whistle_gain)), f(Prim::Mul, f(Prim::Add, f(Prim::Sin, h, Single::of(ZERO)), f(Prim::Mul, Single::of(HALF), f(Prim::Sin, f(Prim::Mul, h, Single::of(TWO)), Single::of(ZERO)))), m.hum_gain)), p.gain), Single::of(P1_5)))
}

/// The same for a run of samples.
pub open spec fn radio_run(f: Sums, p: RadioParams, m: RadioMix, s: Radio, x: Seq<Single>) -> (Radio, Seq<Single>)
    decreases x.len(),
{
    if x.len() == 0 {
        (s, seq![])
    } else {
        let (t, out) = radio_run(f, p, m, s, x.drop_last());
        let (u, y) = radio_tick(f, p, m, t, x.last());
        (u, out.push(y))
    }
}

fn radio_sample<F: Fn(Prim, Single, Single) -> Single>(fpu: &F, p: RadioParams, m: RadioMix, s: &mut Radio, v: Single) -> (y: Single)
    requires
        total(*fpu),
    ensures
        forall|f: Sums| #[trigger] meant(*fpu, f) ==> (*final(s), y) == radio_tick(f, p, m, *old(s), v),
{
    s.whistle.tick(fpu, m.whistle_inc);
    s.hum.tick(fpu, fpu(Prim::Div, Single::of(P50), m.sr));
    let h = fpu(Prim::Mul, s.hum.phase, Single::of(TAU));
    let click = s.clicks.tick(fpu, m.click_p);
    let w = s.noise.white();
    let hissed = s.hiss.tick(fpu, w);
    let ticked = s.tick.tick(fpu, click);
    fpu(Prim::Mul, fpu(Prim::Mul, fpu(Prim::Add, fpu(Prim::Add, fpu(Prim::Add, fpu(Prim::Mul, hissed, m.hiss_gain), fpu(Prim::Mul, fpu(Prim::Add, fpu(Prim::Mul, ticked, Single::of(TWO)), fpu(Prim::Mul, click, Single::of(HALF))), p.click_level)), fpu(Prim::Mul, s.whistle.sin(fpu), m.whistle_gain)), fpu(Prim::Mul, fpu(Prim::Add, fpu(Prim::Sin, h, Single::of(ZERO)), fpu(Prim::Mul, Single::of(HALF), fpu(Prim::Sin, fpu(Prim::Mul, h, Single::of(TWO)), Single::of(ZERO)))), m.hum_gain)), p.gain), Single::of(P1_5))
}

fn radio_span<F: Fn(Prim, Single, Single) -> Single>(fpu: &F, p: RadioParams, m: RadioMix, s: &mut Radio, buf: &mut Vec<Single>, start: usize, end: usize)
    requires
        total(*fpu),
        start <= end <= old(buf)@.len(),
    ensures
        final(buf)@.len() == old(buf)@.len(),
        same_outside(old(buf)@, final(buf)@, start as int, end as int),
        forall|f: Sums| #[trigger] meant(*fpu, f) ==> (*final(s), final(buf)@.subrange(start as int, end as int)) == radio_run(
            f, p, m,
            *old(s),
            old(buf)@.subrange(start as int, end as int),
        ),
{
    let mut i: usize = start;
    let ghost before = buf@;
    assert(before.subrange(start as int, start as int) =~= seq![]);
    while i < end
        invariant
            start <= i <= end <= buf@.len(),
            buf@.len() == before.len(),
            before == old(buf)@,
            same_outside(before, buf@, start as int, i as int),
            total(*fpu),
            forall|f: Sums| #[trigger] meant(*fpu, f) ==> (*s, buf@.subrange(start as int, i as int)) == radio_run(
                f, p, m,
                *old(s),
                before.subrange(start as int, i as int),
            ),
        decreases end - i,
    {
        let ghost last = buf@;
        let y = radio_sample(fpu, p, m, s, buf[i]);
        buf.set(i, y);
        i = i + 1;
        assert(before.subrange(start as int, i as int).drop_last() =~= before.subrange(start as int, i - 1));
        assert(buf@.subrange(start as int, i as int) =~= last.subrange(start as int, i - 1).push(y));
    }
}

/// What the buffer held does not matter.
proof fn lemma_radio_overwrites(f: Sums, p: RadioParams, m: RadioMix, s: Radio, a: Seq<Single>, b: Seq<Single>)
    requires
        a.len() == b.len(),
    ensures
        radio_run(f, p, m, s, a) == radio_run(f, p, m, s, b),
        radio_run(f, p, m, s, a).1.len() == a.len(),
    decreases a.len(),
{
    if a.len() > 0 {
        lemma_radio_overwrites(f, p, m, s, a.drop_last(), b.drop_last());
    }
}

impl Generator for Radio {
    type P = RadioParams;

    type State = Radio;

    open spec fn about() -> ProfileView {
        ProfileView {
            name: "radio"@,
            category: "ambient"@,
            doc: "Radio static and interference; `activity` alone works as a geiger counter."@,
            smooth_secs: Single::of(P0_05),
            limit: true,
            one_shot: false,
        }
    }

    open spec fn input_list() -> Seq<InputView> {
        seq![
            InputView { name: "interference"@, default: Single::of(HALF), doc: "Hiss, whistle and hum level"@ },
            InputView { name: "activity"@, default: Single::of(P0_2), doc: "Click rate (geiger counter, sparks on the line)"@ },
        ]
    }

    open spec fn preset_list() -> Seq<(Seq<char>, RadioParams)> {
        seq![
            ("Geiger counter"@, RadioParams { hiss_level: Single::of(P0_05), whistle_level: Single::of(ZERO), hum_level: Single::of(ZERO), click_rate: Single::of(P300), click_level: Single::of(P0_9), ..RadioParams::plain() }),
            ("Shortwave"@, RadioParams { whistle_level: Single::of(HALF), drift: Single::of(P0_8), hiss_hz: Single::of(P1800), ..RadioParams::plain() }),
        ]
    }

    open spec fn wf(&self) -> bool {
        true
    }

    open spec fn state(&self) -> Radio {
        *self
    }

    open spec fn fresh(f: Sums, sample_rate: Single) -> Radio {
        Radio {
            sr: sample_rate,
            noise: Noise::seeded_with(0x63_0001),
            clicks: Dust { rng: Rng::seeded_with(0x63_0002) },
            hiss: Svf::silent(),
            tick: Svf::silent(),
            whistle: Phasor::start(),
            hum: Phasor::start(),
            swell: SlowNoise::seeded_with(0x63_0003),
            tune: SlowNoise::seeded_with(0x63_0004),
            fade: SlowNoise::seeded_with(0x63_0005),
        }
    }

    open spec fn snapped(s: Radio, f: Sums, x: Seq<Single>, p: RadioParams) -> Radio {
        s
    }

    open spec fn fired(s: Radio, f: Sums, x: Seq<Single>, p: RadioParams) -> Radio {
        s
    }

    open spec fn ringing(s: Radio) -> bool {
        true
    }

    open spec fn played(s: Radio, f: Sums, x: Seq<Single>, p: RadioParams, out: Seq<Single>) -> (Radio, Seq<Single>) {
        let (t, m) = radio_steered(f, p, x, crate::single::signed_integer(out.len() as int), s);
        radio_run(f, p, m, t, out)
    }

    proof fn lemma_overwrites(s: Radio, f: Sums, x: Seq<Single>, p: RadioParams, a: Seq<Single>, b: Seq<Single>) {
        let (t, m) = radio_steered(f, p, x, crate::single::signed_integer(a.len() as int), s);
        lemma_radio_overwrites(f, p, m, t, a, b);
    }

    fn profile() -> (r: Profile) {
        Profile {
            name: "radio",
            category: "ambient",
            doc: "Radio static and interference; `activity` alone works as a geiger counter.",
            smooth_secs: Single::of(P0_05),
            limit: true,
            one_shot: false,
        }
    }

    fn inputs() -> (r: Vec<InputSpec>) {
        let mut r: Vec<InputSpec> = Vec::new();
        r.push(InputSpec { name: "interference", default: Single::of(HALF), doc: "Hiss, whistle and hum level" });
        r.push(InputSpec { name: "activity", default: Single::of(P0_2), doc: "Click rate (geiger counter, sparks on the line)" });
        r
    }

    fn presets() -> (r: Vec<(&'static str, RadioParams)>) {
        let mut r: Vec<(&'static str, RadioParams)> = Vec::new();
        r.push(("Geiger counter", RadioParams { hiss_level: Single::of(P0_05), whistle_level: Single::of(ZERO), hum_level: Single::of(ZERO), click_rate: Single::of(P300), click_level: Single::of(P0_9), ..RadioParams::default() }));
        r.push(("Shortwave", RadioParams { whistle_level: Single::of(HALF), drift: Single::of(P0_8), hiss_hz: Single::of(P1800), ..RadioParams::default() }));
        r
    }

    fn new<F: Fn(Prim, Single, Single) -> Single>(fpu: &F, sample_rate: Single) -> (r: Radio) {
        let r = Radio {
            sr: sample_rate,
            noise: Noise::new(0x63_0001),
            clicks: Dust::new(0x63_0002),
            hiss: Svf::default(),
            tick: Svf::default(),
            whistle: Phasor::default(),
            hum: Phasor::default(),
            swell: SlowNoise::new(0x63_0003),
            tune: SlowNoise::new(0x63_0004),
            fade: SlowNoise::new(0x63_0005),
        };
        r
    }

    fn snap<F: Fn(Prim, Single, Single) -> Single>(&mut self, fpu: &F, x: &Vec<Single>, p: &RadioParams) {
    }

    fn trigger<F: Fn(Prim, Single, Single) -> Single>(&mut self, fpu: &F, x: &Vec<Single>, p: &RadioParams) {
    }

    fn is_active(&self) -> (r: bool) {
        true
    }

    fn block<F: Fn(Prim, Single, Single) -> Single>(&mut self, fpu: &F, x: &Vec<Single>, p: &RadioParams, out: &mut Vec<Single>, start: usize, end: usize) {
        let n = from_i32((end - start) as i32);
        let m = radio_steer(fpu, *p, x, n, self);
        radio_span(fpu, *p, m, self, out, start, end);
    }
}

/// Siren or alarm: a swept or stepped tone through a horn resonance.
#[derive(Clone, Copy, Debug, PartialEq, Eq, Structural)]
pub struct SirenParams {
    pub mode: Single,
    pub low_hz: Single,
    pub high_hz: Single,
    pub rate: Single,
    pub brightness: Single,
    pub horn_hz: Single,
    pub horn_res: Single,
    pub voices: Single,
    pub gain: Single,
}

impl SirenParams {
    pub open spec fn plain() -> SirenParams {
        SirenParams {
            mode: Single::of(ZERO),
            low_hz: Single::of(P650),
            high_hz: Single::of(P1350),
            rate: Single::of(P0_35),
            brightness: Single::of(P0_6),
            horn_hz: Single::of(P1600),
            horn_res: Single::of(HALF),
            voices: Single::of(ONE),
            gain: Single::of(P0_8),
        }
    }
}

impl Default for SirenParams {
    fn default() -> (r: SirenParams)
        ensures
            r == SirenParams::plain(),
    {
        SirenParams {
            mode: Single::of(ZERO),
            low_hz: Single::of(P650),
            high_hz: Single::of(P1350),
            rate: Single::of(P0_35),
            brightness: Single::of(P0_6),
            horn_hz: Single::of(P1600),
            horn_res: Single::of(HALF),
            voices: Single::of(ONE),
            gain: Single::of(P0_8),
        }
    }
}

/// Identifier of every tweakable value in [`SirenParams`].
#[derive(Clone, Copy, Debug, PartialEq, Eq, Structural)]
pub enum SirenParamId {
    Mode,
    LowHz,
    HighHz,
    Rate,
    Brightness,
    HornHz,
    HornRes,
    Voices,
    Gain,
}

impl SirenParamId {
    /// Number of parameters.
    pub const COUNT: usize = 9;

    /// Every parameter, in table order.
    pub open spec fn all() -> Seq<SirenParamId> {
        seq![
            SirenParamId::Mode,
            SirenParamId::LowHz,
            SirenParamId::HighHz,
            SirenParamId::Rate,
            SirenParamId::Brightness,
            SirenParamId::HornHz,
            SirenParamId::HornRes,
            SirenParamId::Voices,
            SirenParamId::Gain,
        ]
    }

    /// Place in the table.
    pub open spec fn place(self) -> int {
        match self {
            SirenParamId::Mode => 0,
            SirenParamId::LowHz => 1,
            SirenParamId::HighHz => 2,
            SirenParamId::Rate => 3,
            SirenParamId::Brightness => 4,
            SirenParamId::HornHz => 5,
            SirenParamId::HornRes => 6,
            SirenParamId::Voices => 7,
            SirenParamId::Gain => 8,
        }
    }

    pub open spec fn label(self) -> Seq<char> {
        match self {
            SirenParamId::Mode => "siren/mode"@,
            SirenParamId::LowHz => "siren/low_hz"@,
            SirenParamId::HighHz => "siren/high_hz"@,
            SirenParamId::Rate => "siren/rate_hz"@,
            SirenParamId::Brightness => "siren/brightness"@,
            SirenParamId::HornHz => "horn/hz"@,
            SirenParamId::HornRes => "horn/resonance"@,
            SirenParamId::Voices => "siren/voices"@,
            SirenParamId::Gain => "master/gain"@,
        }
    }

    pub open spec fn range(self) -> ParamKind {
        match self {
            SirenParamId::Mode => ParamKind::Enum(Choices::Siren),
            SirenParamId::LowHz => ParamKind::Exp { min: Single::of(P100), max: Single::of(P3000) },
            SirenParamId::HighHz => ParamKind::Exp { min: Single::of(P100), max: Single::of(P4000) },
            SirenParamId::Rate => ParamKind::Exp { min: Single::of(P0_05), max: Single::of(P12) },
            SirenParamId::Brightness => ParamKind::Float { min: Single::of(ZERO), max: Single::of(ONE), step: Single::of(P0_001) },
            SirenParamId::HornHz => ParamKind::Exp { min: Single::of(P400), max: Single::of(P5000) },
            SirenParamId::HornRes => ParamKind::Float { min: Single::of(ZERO), max: Single::of(P0_9), step: Single::of(P0_001) },
            SirenParamId::Voices => ParamKind::Int { min: 1, max: 2 },
            SirenParamId::Gain => ParamKind::Float { min: Single::of(ZERO), max: Single::of(TWO), step: Single::of(P0_001) },
        }
    }

    /// The parameter at a place of the table, if there is one.
    pub fn from_index(i: usize) -> (r: Option<SirenParamId>)
        ensures
            r == if i < 9 {
                Some(SirenParamId::all()[i as int])
            } else {
                None
            },
    {
        if i < 9 {
            Some(SirenParamId::nth(i))
        } else {
            None
        }
    }

    /// The parameter at a place of the table.
    pub fn nth(i: usize) -> (r: SirenParamId)
        requires
            i < 9,
        ensures
            r == SirenParamId::all()[i as int],
            r.place() == i,
    {
        match i {
            0 => SirenParamId::Mode,
            1 => SirenParamId::LowHz,
            2 => SirenParamId::HighHz,
            3 => SirenParamId::Rate,
            4 => SirenParamId::Brightness,
            5 => SirenParamId::HornHz,
            6 => SirenParamId::HornRes,
            7 => SirenParamId::Voices,
            _ => SirenParamId::Gain,
        }
    }

    pub fn index(self) -> (r: usize)
        ensures
            r == self.place(),
            r < 9,
    {
        match self {
            SirenParamId::Mode => 0,
            SirenParamId::LowHz => 1,
            SirenParamId::HighHz => 2,
            SirenParamId::Rate => 3,
            SirenParamId::Brightness => 4,
            SirenParamId::HornHz => 5,
            SirenParamId::HornRes => 6,
            SirenParamId::Voices => 7,
            SirenParamId::Gain => 8,
        }
    }

    pub fn name(self) -> (r: &'static str)
        ensures
            r@ == self.label(),
    {
        match self {
            SirenParamId::Mode => "siren/mode",
            SirenParamId::LowHz => "siren/low_hz",
            SirenParamId::HighHz => "siren/high_hz",
            SirenParamId::Rate => "siren/rate_hz",
            SirenParamId::Brightness => "siren/brightness",
            SirenParamId::HornHz => "horn/hz",
            SirenParamId::HornRes => "horn/resonance",
            SirenParamId::Voices => "siren/voices",
            SirenParamId::Gain => "master/gain",
        }
    }

    pub fn kind(self) -> (r: ParamKind)
        ensures
            r == self.range(),
            r.wf(),
    {
        match self {
            SirenParamId::Mode => ParamKind::Enum(Choices::Siren),
            SirenParamId::LowHz => ParamKind::Exp { min: Single::of(P100), max: Single::of(P3000) },
            SirenParamId::HighHz => ParamKind::Exp { min: Single::of(P100), max: Single::of(P4000) },
            SirenParamId::Rate => ParamKind::Exp { min: Single::of(P0_05), max: Single::of(P12) },
            SirenParamId::Brightness => ParamKind::Float { min: Single::of(ZERO), max: Single::of(ONE), step: Single::of(P0_001) },
            SirenParamId::HornHz => ParamKind::Exp { min: Single::of(P400), max: Single::of(P5000) },
            SirenParamId::HornRes => ParamKind::Float { min: Single::of(ZERO), max: Single::of(P0_9), step: Single::of(P0_001) },
            SirenParamId::Voices => ParamKind::Int { min: 1, max: 2 },
            SirenParamId::Gain => ParamKind::Float { min: Single::of(ZERO), max: Single::of(TWO), step: Single::of(P0_001) },
        }
    }

    /// The parameter with a name.
    pub fn from_name(name: &str) -> (r: Option<SirenParamId>)
        ensures
            match r {
                Some(id) => id.label() == name@,
                None => forall|id: SirenParamId| (#[trigger] id.label()) != name@,
            },
    {
        let mut i: usize = 0;
        while i < 9
            invariant
                i <= 9,
                forall|id: SirenParamId| id.place() < i ==> (#[trigger] id.label()) != name@,
            decreases 9 - i,
        {
            let id = SirenParamId::nth(i);
            if equal(id.name(), name) {
                return Some(id);
            }
            proof {
                assert forall|other: SirenParamId| other.place() < i + 1 implies (#[trigger] other.label()) != name@ by {
                    if other.place() == i {
                        assert(SirenParamId::all()[other.place()] == other);
                    }
                }
            }
            i = i + 1;
        }
        None
    }
}

impl SirenParams {
    /// Value of a parameter; names count by their index.
    pub open spec fn value(self, id: SirenParamId) -> Single {
        match id {
            SirenParamId::Mode => self.mode,
            SirenParamId::LowHz => self.low_hz,
            SirenParamId::HighHz => self.high_hz,
            SirenParamId::Rate => self.rate,
            SirenParamId::Brightness => self.brightness,
            SirenParamId::HornHz => self.horn_hz,
            SirenParamId::HornRes => self.horn_res,
            SirenParamId::Voices => self.voices,
            SirenParamId::Gain => self.gain,
        }
    }

    /// With a parameter set to the nearest value it can take.
    pub open spec fn with(self, id: SirenParamId, v: Single) -> SirenParams {
        match id {
            SirenParamId::Mode => SirenParams { mode: id.range().clamped(v), ..self },
            SirenParamId::LowHz => SirenParams { low_hz: id.range().clamped(v), ..self },
            SirenParamId::HighHz => SirenParams { high_hz: id.range().clamped(v), ..self },
            SirenParamId::Rate => SirenParams { rate: id.range().clamped(v), ..self },
            SirenParamId::Brightness => SirenParams { brightness: id.range().clamped(v), ..self },
            SirenParamId::HornHz => SirenParams { horn_hz: id.range().clamped(v), ..self },
            SirenParamId::HornRes => SirenParams { horn_res: id.range().clamped(v), ..self },
            SirenParamId::Voices => SirenParams { voices: id.range().clamped(v), ..self },
            SirenParamId::Gain => SirenParams { gain: id.range().clamped(v), ..self },
        }
    }

    pub fn get(&self, id: SirenParamId) -> (r: Single)
        ensures
            r == self.value(id),
    {
        match id {
            SirenParamId::Mode => self.mode,
            SirenParamId::LowHz => self.low_hz,
            SirenParamId::HighHz => self.high_hz,
            SirenParamId::Rate => self.rate,
            SirenParamId::Brightness => self.brightness,
            SirenParamId::HornHz => self.horn_hz,
            SirenParamId::HornRes => self.horn_res,
            SirenParamId::Voices => self.voices,
            SirenParamId::Gain => self.gain,
        }
    }

    /// Set a parameter to the nearest value it can take; what is no number is ignored.
    pub fn set(&mut self, id: SirenParamId, v: Single)
        ensures
            *final(self) == if v.finite() {
                old(self).with(id, v)
            } else {
                *old(self)
            },
    {
        if !v.is_finite() {
            return;
        }
        match id {
            SirenParamId::Mode => {
                self.mode = id.kind().clamp(v);
            },
            SirenParamId::LowHz => {
                self.low_hz = id.kind().clamp(v);
            },
            SirenParamId::HighHz => {
                self.high_hz = id.kind().clamp(v);
            },
            SirenParamId::Rate => {
                self.rate = id.kind().clamp(v);
            },
            SirenParamId::Brightness => {
                self.brightness = id.kind().clamp(v);
            },
            SirenParamId::HornHz => {
                self.horn_hz = id.kind().clamp(v);
            },
            SirenParamId::HornRes => {
                self.horn_res = id.kind().clamp(v);
            },
            SirenParamId::Voices => {
                self.voices = id.kind().clamp(v);
            },
            SirenParamId::Gain => {
                self.gain = id.kind().clamp(v);
            },
        }
    }
}

/// A parameter that was set has the nearest value it can take.
pub proof fn lemma_sirenparams_set_get(p: SirenParams, id: SirenParamId, v: Single)
    requires
        v.finite(),
    ensures
        p.with(id, v).value(id) == id.range().clamped(v),
{
}


/// Setting a parameter leaves every other one what it was.
#[verifier::rlimit(30)]
pub proof fn lemma_sirenparams_set_keeps_others(p: SirenParams, id: SirenParamId, other: SirenParamId, v: Single)
    requires
        other != id,
    ensures
        p.with(id, v).value(other) == p.value(other),
{
}

/// Length and some letters of a name.
spec fn sirenparamid_sign(id: SirenParamId) -> (int, char) {
    match id {
        SirenParamId::Mode => (10, 'm'),
        SirenParamId::LowHz => (12, 'l'),
        SirenParamId::HighHz => (13, 'h'),
        SirenParamId::Rate => (13, 'r'),
        SirenParamId::Brightness => (16, 'b'),
        SirenParamId::HornHz => (7, 'z'),
        SirenParamId::HornRes => (14, 'e'),
        SirenParamId::Voices => (12, 'v'),
        SirenParamId::Gain => (11, '/'),
    }
}

#[verifier::rlimit(60)]
proof fn lemma_sirenparamid_sign(id: SirenParamId)
    ensures
        id.label().len() == sirenparamid_sign(id).0,
        sirenparamid_sign(id).0 > 6 ==> id.label()[6] == sirenparamid_sign(id).1,
{
    reveal_strlit("siren/mode");
    reveal_strlit("siren/low_hz");
    reveal_strlit("siren/high_hz");
    reveal_strlit("siren/rate_hz");
    reveal_strlit("siren/brightness");
    reveal_strlit("horn/hz");
    reveal_strlit("horn/resonance");
    reveal_strlit("siren/voices");
    reveal_strlit("master/gain");
}

/// Names tell the parameters apart, so looking up a parameter's name gives the parameter.
pub proof fn lemma_sirenparamid_names_differ(a: SirenParamId, b: SirenParamId)
    requires
        a.label() == b.label(),
    ensures
        a == b,
{
    lemma_sirenparamid_sign(a);
    lemma_sirenparamid_sign(b);
}

impl Params for SirenParams {
    open spec fn plain_params() -> SirenParams {
        SirenParams::plain()
    }

    open spec fn param_count() -> nat {
        SirenParamId::COUNT as nat
    }

    open spec fn label_at(i: int) -> Seq<char> {
        SirenParamId::all()[i].label()
    }

    open spec fn range_at(i: int) -> ParamKind {
        SirenParamId::all()[i].range()
    }

    open spec fn value_at(self, i: int) -> Single {
        self.value(SirenParamId::all()[i])
    }

    open spec fn with_at(self, i: int, v: Single) -> SirenParams {
        self.with(SirenParamId::all()[i], v)
    }

    proof fn lemma_set_at_reads_back(self, i: int, v: Single) {
        lemma_sirenparams_set_get(self, SirenParamId::all()[i], v);
    }

    proof fn lemma_set_at_keeps_others(self, i: int, j: int, v: Single) {
        assert(SirenParamId::all()[i].place() == i);
        assert(SirenParamId::all()[j].place() == j);
        lemma_sirenparams_set_keeps_others(self, SirenParamId::all()[i], SirenParamId::all()[j], v);
    }

    fn default_params() -> (r: SirenParams) {
        SirenParams::default()
    }

    fn count() -> (r: usize) {
        SirenParamId::COUNT
    }

    fn name_at(i: usize) -> (r: &'static str) {
        SirenParamId::nth(i).name()
    }

    fn kind_at(i: usize) -> (r: ParamKind) {
        SirenParamId::nth(i).kind()
    }

    fn get_at(&self, i: usize) -> (r: Single) {
        self.get(SirenParamId::nth(i))
    }

    fn set_at(&mut self, i: usize, v: Single) {
        self.set(SirenParamId::nth(i), v);
    }
}

/// Sweep of the siren at a phase of its cycle.
pub open spec fn siren_shape(f: Sums, p: SirenParams, ph: Single) -> Single {
    let mode = p.mode.nearest_int();
    if mode <= 0 {
        f(Prim::Sub, Single::of(ONE), f(Prim::Sub, f(Prim::Mul, Single::of(TWO), ph), Single::of(ONE)).absolute())
    } else if mode == 1 {
        ph
    } else if mode == 2 {
        if ph.below(Single::of(HALF)) {
            Single::of(ZERO)
        } else {
            Single::of(ONE)
        }
    } else {
        Single::of(ONE)
    }
}

fn shape_siren<F: Fn(Prim, Single, Single) -> Single>(fpu: &F, p: &SirenParams, ph: Single) -> (r: Single)
    requires
        total(*fpu),
    ensures
        forall|f: Sums| #[trigger] meant(*fpu, f) ==> r == siren_shape(f, *p, ph),
{
    let mode = p.mode.round();
    if mode <= 0 {
        fpu(Prim::Sub, Single::of(ONE), fpu(Prim::Sub, fpu(Prim::Mul, Single::of(TWO), ph), Single::of(ONE)).abs())
    } else if mode == 1 {
        ph
    } else if mode == 2 {
        if ph.lt(Single::of(HALF)) {
            Single::of(ZERO)
        } else {
            Single::of(ONE)
        }
    } else {
        Single::of(ONE)
    }
}

/// Whether a pulsing siren sounds at a phase of its cycle.
pub open spec fn siren_gate(p: SirenParams, ph: Single) -> Single {
    if p.mode.nearest_int() >= 3 && !ph.below(Single::of(HALF)) {
        Single::of(ZERO)
    } else {
        Single::of(ONE)
    }
}

fn gate_siren(p: &SirenParams, ph: Single) -> (r: Single)
    ensures
        r == siren_gate(*p, ph),
{
    if p.mode.round() >= 3 && !ph.lt(Single::of(HALF)) {
        Single::of(ZERO)
    } else {
        Single::of(ONE)
    }
}

/// Emergency siren, klaxon or base alarm; urgency speeds it up.
#[derive(Clone, Copy, Debug, PartialEq, Eq, Structural)]
pub struct Siren {
    pub sr: Single,
    pub lfo: Phasor,
    pub osc0: Oscillator,
    pub osc1: Oscillator,
    pub tone0: Phasor,
    pub tone1: Phasor,
    pub horn: Svf,
    pub gate: OnePole,
}

/// Settings of a control block.
#[derive(Clone, Copy, Debug, PartialEq, Eq, Structural)]
pub struct SirenMix {
    pub sr: Single,
    pub active: Single,
    pub lfo_inc: Single,
    pub span: Single,
    pub gate_coef: Single,
    pub second: Single,
}

/// The generator at the start of a control block of `n` samples with inputs `x`, and the settings.
pub open spec fn siren_steered(f: Sums, p: SirenParams, x: Seq<Single>, n: Single, s: Siren) -> (Siren, SirenMix) {
    let sr = s.sr;
    let active = x[0];
    let urgency = x[1];
    let lfo_inc = f(Prim::Div, f(Prim::Mul, p.rate, f(Prim::Add, Single::of(ONE), f(Prim::Mul, Single::of(THREE), urgency))), sr);
    let span = f(Prim::Ln, f(Prim::Div, p.high_hz, p.low_hz).larger(Single::of(P0_001)), Single::of(ZERO));
    let s = Siren { horn: s.horn.tuned(f, FilterMode::BandPass, p.horn_hz, p.horn_res, sr), ..s };
    let gate_coef = crate::blocks::cutoff_coef(f, Single::of(P120), sr);
    let second = (if Single::of(P1_5).at_most(p.voices) { Single::of(ONE) } else { Single::of(ZERO) });
    (s, SirenMix { sr, active, lfo_inc, span, gate_coef, second })
}

fn siren_steer<F: Fn(Prim, Single, Single) -> Single>(fpu: &F, p: SirenParams, x: &Vec<Single>, n: Single, s: &mut Siren) -> (r: SirenMix)
    requires
        total(*fpu),
        x@.len() == 2,
    ensures
        forall|f: Sums| #[trigger] meant(*fpu, f) ==> (*final(s), r) == siren_steered(f, p, x@, n, *old(s)),
{
    let sr = s.sr;
    let active = x[0];
    let urgency = x[1];
    let lfo_inc = fpu(Prim::Div, fpu(Prim::Mul, p.rate, fpu(Prim::Add, Single::of(ONE), fpu(Prim::Mul, Single::of(THREE), urgency))), sr);
    let span = fpu(Prim::Ln, fpu(Prim::Div, p.high_hz, p.low_hz).max(Single::of(P0_001)), Single::of(ZERO));
    s.horn.set(fpu, FilterMode::BandPass, p.horn_hz, p.horn_res, sr);
    let gate_coef = hz_coef(fpu, Single::of(P120), sr);
    let second = (if Single::of(P1_5).le(p.voices) { Single::of(ONE) } else { Single::of(ZERO) });
    SirenMix { sr, active, lfo_inc, span, gate_coef, second }
}

/// One sample; what was in its place is not heard.
pub open spec fn siren_tick(f: Sums, p: SirenParams, m: SirenMix, s: Siren, v: Single) -> (Siren, Single) {
    let s = Siren { lfo: s.lfo.moved(f, m.lfo_inc), ..s };
    let ph = s.lfo.phase;
    let shape = siren_shape(f, p, ph);
    let open_gate = siren_gate(p, ph);
    let hz = f(Prim::Mul, p.low_hz, f(Prim::Exp, f(Prim::Mul, m.span, shape), Single::of(ZERO)));
    let inc0 = f(Prim::Div, f(Prim::Mul, hz, Single::of(ONE)), m.sr);
    let s = Siren { tone0: s.tone0.moved(f, inc0), ..s };
    let a = s.osc0.sample(f, Waveform::Pulse, inc0, Single::of(P0_35));
    let s = Siren { osc0: s.osc0.moved(f, Waveform::Pulse, inc0), ..s };
    let v0 = f(Prim::Add, f(Prim::Mul, a, p.brightness), f(Prim::Mul, s.tone0.sine(f), f(Prim::Sub, Single::of(ONE), p.brightness)));
    let y0 = f(Prim::Add, Single::of(ZERO), f(Prim::Mul, v0, Single::of(ONE)));
    let inc1 = f(Prim::Div, f(Prim::Mul, hz, Single::of(P1_26)), m.sr);
    let s = Siren { tone1: s.tone1.moved(f, inc1), ..s };
    let b = s.osc1.sample(f, Waveform::Pulse, inc1, Single::of(P0_35));
    let s = Siren { osc1: s.osc1.moved(f, Waveform::Pulse, inc1), ..s };
    let v1 = f(Prim::Add, f(Prim::Mul, b, p.brightness), f(Prim::Mul, s.tone1.sine(f), f(Prim::Sub, Single::of(ONE), p.brightness)));
    let y = f(Prim::Add, y0, f(Prim::Mul, v1, f(Prim::Mul, m.second, Single::of(P0_7))));
    let level = s.gate.smoothed(f, f(Prim::Mul, open_gate, m.active), m.gate_coef);
    let s = Siren { gate: OnePole { y: s.gate.smoothed(f, f(Prim::Mul, open_gate, m.active), m.gate_coef) }, ..s };
    let blown = s.horn.output(f, y);
    let s = Siren { horn: s.horn.fed(f, y), ..s };
    (s, f(Prim::Mul, f(Prim::Mul, f(Prim::Mul, f(Prim::Add, f(Prim::Mul, blown, Single::of(P1_5)), f(Prim::Mul, y, Single::of(P0_3))), level), p.gain), Single::of(P0_36)))
}

/// The same for a run of samples.
pub open spec fn siren_run(f: Sums, p: SirenParams, m: SirenMix, s: Siren, x: Seq<Single>) -> (Siren, Seq<Single>)
    decreases x.len(),
{
    if x.len() == 0 {
        (s, seq![])
    } else {
        let (t, out) = siren_run(f, p, m, s, x.drop_last());
        let (u, y) = siren_tick(f, p, m, t, x.last());
        (u, out.push(y))
    }
}

fn siren_sample<F: Fn(Prim, Single, Single) -> Single>(fpu: &F, p: SirenParams, m: SirenMix, s: &mut Siren, v: Single) -> (y: Single)
    requires
        total(*fpu),
    ensures
        forall|f: Sums| #[trigger] meant(*fpu, f) ==> (*final(s), y) == siren_tick(f, p, m, *old(s), v),
{
    s.lfo.tick(fpu, m.lfo_inc);
    let ph = s.lfo.phase;
    let shape = shape_siren(fpu, &p, ph);
    let open_gate = gate_siren(&p, ph);
    let hz = fpu(Prim::Mul, p.low_hz, fpu(Prim::Exp, fpu(Prim::Mul, m.span, shape), Single::of(ZERO)));
    let inc0 = fpu(Prim::Div, fpu(Prim::Mul, hz, Single::of(ONE)), m.sr);
    s.tone0.tick(fpu, inc0);
    let a = s.osc0.next(fpu, Waveform::Pulse, inc0, Single::of(P0_35));
    let v0 = fpu(Prim::Add, fpu(Prim::Mul, a, p.brightness), fpu(Prim::Mul, s.tone0.sin(fpu), fpu(Prim::Sub, Single::of(ONE), p.brightness)));
    let y0 = fpu(Prim::Add, Single::of(ZERO), fpu(Prim::Mul, v0, Single::of(ONE)));
    let inc1 = fpu(Prim::Div, fpu(Prim::Mul, hz, Single::of(P1_26)), m.sr);
    s.tone1.tick(fpu, inc1);
    let b = s.osc1.next(fpu, Waveform::Pulse, inc1, Single::of(P0_35));
    let v1 = fpu(Prim::Add, fpu(Prim::Mul, b, p.brightness), fpu(Prim::Mul, s.tone1.sin(fpu), fpu(Prim::Sub, Single::of(ONE), p.brightness)));
    let y = fpu(Prim::Add, y0, fpu(Prim::Mul, v1, fpu(Prim::Mul, m.second, Single::of(P0_7))));
    let level = s.gate.lp(fpu, fpu(Prim::Mul, open_gate, m.active), m.gate_coef);
    let blown = s.horn.tick(fpu, y);
    fpu(Prim::Mul, fpu(Prim::Mul, fpu(Prim::Mul, fpu(Prim::Add, fpu(Prim::Mul, blown, Single::of(P1_5)), fpu(Prim::Mul, y, Single::of(P0_3))), level), p.gain), Single::of(P0_36))
}

fn siren_span<F: Fn(Prim, Single, Single) -> Single>(fpu: &F, p: SirenParams, m: SirenMix, s: &mut Siren, buf: &mut Vec<Single>, start: usize, end: usize)
    requires
        total(*fpu),
        start <= end <= old(buf)@.len(),
    ensures
        final(buf)@.len() == old(buf)@.len(),
        same_outside(old(buf)@, final(buf)@, start as int, end as int),
        forall|f: Sums| #[trigger] meant(*fpu, f) ==> (*final(s), final(buf)@.subrange(start as int, end as int)) == siren_run(
            f, p, m,
            *old(s),
            old(buf)@.subrange(start as int, end as int),
        ),
{
    let mut i: usize = start;
    let ghost before = buf@;
    assert(before.subrange(start as int, start as int) =~= seq![]);
    while i < end
        invariant
            start <= i <= end <= buf@.len(),
            buf@.len() == before.len(),
            before == old(buf)@,
            same_outside(before, buf@, start as int, i as int),
            total(*fpu),
            forall|f: Sums| #[trigger] meant(*fpu, f) ==> (*s, buf@.subrange(start as int, i as int)) == siren_run(
                f, p, m,
                *old(s),
                before.subrange(start as int, i as int),
            ),
        decreases end - i,
    {
        let ghost last = buf@;
        let y = siren_sample(fpu, p, m, s, buf[i]);
        buf.set(i, y);
        i = i + 1;
        assert(before.subrange(start as int, i as int).drop_last() =~= before.subrange(start as int, i - 1));
        assert(buf@.subrange(start as int, i as int) =~= last.subrange(start as int, i - 1).push(y));
    }
}

/// What the buffer held does not matter.
proof fn lemma_siren_overwrites(f: Sums, p: SirenParams, m: SirenMix, s: Siren, a: Seq<Single>, b: Seq<Single>)
    requires
        a.len() == b.len(),
    ensures
        siren_run(f, p, m, s, a) == siren_run(f, p, m, s, b),
        siren_run(f, p, m, s, a).1.len() == a.len(),
    decreases a.len(),
{
    if a.len() > 0 {
        lemma_siren_overwrites(f, p, m, s, a.drop_last(), b.drop_last());
    }
}

impl Generator for Siren {
    type P = SirenParams;

    type State = Siren;

    open spec fn about() -> ProfileView {
        ProfileView {
            name: "siren"@,
            category: "ambient"@,
            doc: "Emergency siren, klaxon or base alarm; urgency speeds it up."@,
            smooth_secs: Single::of(P0_03),
            limit: true,
            one_shot: false,
        }
    }

    open spec fn input_list() -> Seq<InputView> {
        seq![
            InputView { name: "active"@, default: Single::of(ONE), doc: "Gate: 1 = sounding"@ },
            InputView { name: "urgency"@, default: Single::of(ZERO), doc: "Speeds up the cycle up to 4x"@ },
        ]
    }

    open spec fn preset_list() -> Seq<(Seq<char>, SirenParams)> {
        seq![
            ("Police yelp"@, SirenParams { mode: Single::of(ONE), rate: Single::of(P3_2), low_hz: Single::of(P700), high_hz: Single::of(P1600), ..SirenParams::plain() }),
            ("Euro two-tone"@, SirenParams { mode: Single::of(TWO), rate: Single::of(P0_9), low_hz: Single::of(P440), high_hz: Single::of(P587), brightness: Single::of(P0_8), ..SirenParams::plain() }),
            ("Reactor alarm"@, SirenParams { mode: Single::of(THREE), rate: Single::of(P1_6), high_hz: Single::of(P880), brightness: Single::of(P0_9), horn_hz: Single::of(P1100), horn_res: Single::of(P0_7), voices: Single::of(TWO), ..SirenParams::plain() }),
        ]
    }

    open spec fn wf(&self) -> bool {
        true
    }

    open spec fn state(&self) -> Siren {
        *self
    }

    open spec fn fresh(f: Sums, sample_rate: Single) -> Siren {
        Siren {
            sr: sample_rate,
            lfo: Phasor::start(),
            osc0: Oscillator::seeded_with(0x64_0001),
            osc1: Oscillator::seeded_with(0x64_0002),
            tone0: Phasor::start(),
            tone1: Phasor::start(),
            horn: Svf::silent(),
            gate: OnePole { y: Single::of(ZERO) },
        }
    }

    open spec fn snapped(s: Siren, f: Sums, x: Seq<Single>, p: SirenParams) -> Siren {
        s
    }

    open spec fn fired(s: Siren, f: Sums, x: Seq<Single>, p: SirenParams) -> Siren {
        s
    }

    open spec fn ringing(s: Siren) -> bool {
        true
    }

    open spec fn played(s: Siren, f: Sums, x: Seq<Single>, p: SirenParams, out: Seq<Single>) -> (Siren, Seq<Single>) {
        let (t, m) = siren_steered(f, p, x, crate::single::signed_integer(out.len() as int), s);
        siren_run(f, p, m, t, out)
    }

    proof fn lemma_overwrites(s: Siren, f: Sums, x: Seq<Single>, p: SirenParams, a: Seq<Single>, b: Seq<Single>) {
        let (t, m) = siren_steered(f, p, x, crate::single::signed_integer(a.len() as int), s);
        lemma_siren_overwrites(f, p, m, t, a, b);
    }

    fn profile() -> (r: Profile) {
        Profile {
            name: "siren",
            category: "ambient",
            doc: "Emergency siren, klaxon or base alarm; urgency speeds it up.",
            smooth_secs: Single::of(P0_03),
            limit: true,
            one_shot: false,
        }
    }

    fn inputs() -> (r: Vec<InputSpec>) {
        let mut r: Vec<InputSpec> = Vec::new();
        r.push(InputSpec { name: "active", default: Single::of(ONE), doc: "Gate: 1 = sounding" });
        r.push(InputSpec { name: "urgency", default: Single::of(ZERO), doc: "Speeds up the cycle up to 4x" });
        r
    }

    fn presets() -> (r: Vec<(&'static str, SirenParams)>) {
        let mut r: Vec<(&'static str, SirenParams)> = Vec::new();
        r.push(("Police yelp", SirenParams { mode: Single::of(ONE), rate: Single::of(P3_2), low_hz: Single::of(P700), high_hz: Single::of(P1600), ..SirenParams::default() }));
        r.push(("Euro two-tone", SirenParams { mode: Single::of(TWO), rate: Single::of(P0_9), low_hz: Single::of(P440), high_hz: Single::of(P587), brightness: Single::of(P0_8), ..SirenParams::default() }));
        r.push(("Reactor alarm", SirenParams { mode: Single::of(THREE), rate: Single::of(P1_6), high_hz: Single::of(P880), brightness: Single::of(P0_9), horn_hz: Single::of(P1100), horn_res: Single::of(P0_7), voices: Single::of(TWO), ..SirenParams::default() }));
        r
    }

    fn new<F: Fn(Prim, Single, Single) -> Single>(fpu: &F, sample_rate: Single) -> (r: Siren) {
        let r = Siren {
            sr: sample_rate,
            lfo: Phasor::default(),
            osc0: Oscillator::new(0x64_0001),
            osc1: Oscillator::new(0x64_0002),
            tone0: Phasor::default(),
            tone1: Phasor::default(),
            horn: Svf::default(),
            gate: OnePole::default(),
        };
        r
    }

    fn snap<F: Fn(Prim, Single, Single) -> Single>(&mut self, fpu: &F, x: &Vec<Single>, p: &SirenParams) {
    }

    fn trigger<F: Fn(Prim, Single, Single) -> Single>(&mut self, fpu: &F, x: &Vec<Single>, p: &SirenParams) {
    }

    fn is_active(&self) -> (r: bool) {
        true
    }

    fn block<F: Fn(Prim, Single, Single) -> Single>(&mut self, fpu: &F, x: &Vec<Single>, p: &SirenParams, out: &mut Vec<Single>, start: usize, end: usize) {
        let n = from_i32((end - start) as i32);
        let m = siren_steer(fpu, *p, x, n, self);
        siren_span(fpu, *p, m, self, out, start, end);
    }
}

} // verus!
