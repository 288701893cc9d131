//! Nature and weather generators: wind, rain, fire, stream, ocean.
use vstd::prelude::*;

use crate::arith::{meant, total, Prim, Sums};
use crate::blocks::{hz_coef, Brown, Dust, OnePole, SlowNoise};
use crate::effects::same_outside;
use crate::filter::{FilterMode, Svf};
use crate::math::Rng;
use crate::native::{Generator, InputSpec, InputView, Profile, ProfileView};
use crate::noise::Noise;
use crate::params::{ParamKind, Params};
use crate::single::{from_i32, Single, HALF, ONE, TAU, THREE, TWO, ZERO};
use crate::text::equal;

verus! {

/// Pattern of -1.5.
pub const N1_5: u32 = 0xbfc0_0000;

/// Pattern of -1.
pub const N1: u32 = 0xbf80_0000;

/// Pattern of 0.0001.
pub const P0_0001: u32 = 0x38d1_b717;

/// Pattern of 0.001.
pub const P0_001: u32 = 0x3a83_126f;

/// Pattern of 0.004.
pub const P0_004: u32 = 0x3b83_126f;

/// Pattern of 0.02.
pub const P0_02: u32 = 0x3ca3_d70a;

/// Pattern of 0.05.
pub const P0_05: u32 = 0x3d4c_cccd;

/// Pattern of 0.08.
pub const P0_08: u32 = 0x3da3_d70a;

/// Pattern of 0.1.
pub const P0_1: u32 = 0x3dcc_cccd;

/// Pattern of 0.12.
pub const P0_12: u32 = 0x3df5_c28f;

/// Pattern of 0.15.
pub const P0_15: u32 = 0x3e19_999a;

/// Pattern of 0.2.
pub const P0_2: u32 = 0x3e4c_cccd;

/// Pattern of 0.25.
pub const P0_25: u32 = 0x3e80_0000;

/// Pattern of 0.3.
pub const P0_3: u32 = 0x3e99_999a;

/// Pattern of 0.35.
pub const P0_35: u32 = 0x3eb3_3333;

/// Pattern of 0.4.
pub const P0_4: u32 = 0x3ecc_cccd;

/// Pattern of 0.45.
pub const P0_45: u32 = 0x3ee6_6666;

/// Pattern of 0.55.
pub const P0_55: u32 = 0x3f0c_cccd;

/// Pattern of 0.6.
pub const P0_6: u32 = 0x3f19_999a;

/// Pattern of 0.7.
pub const P0_7: u32 = 0x3f33_3333;

/// Pattern of 0.73.
pub const P0_73: u32 = 0x3f3a_e148;

/// Pattern of 0.75.
pub const P0_75: u32 = 0x3f40_0000;

/// Pattern of 0.78.
pub const P0_78: u32 = 0x3f47_ae14;

/// Pattern of 0.8.
pub const P0_8: u32 = 0x3f4c_cccd;

/// Pattern of 0.85.
pub const P0_85: u32 = 0x3f59_999a;

/// Pattern of 0.88.
pub const P0_88: u32 = 0x3f61_47ae;

/// Pattern of 0.9.
pub const P0_9: u32 = 0x3f66_6666;

/// Pattern of 0.95.
pub const P0_95: u32 = 0x3f73_3333;

/// Pattern of 0.96.
pub const P0_96: u32 = 0x3f75_c28f;

/// Pattern of 0.97.
pub const P0_97: u32 = 0x3f78_51ec;

/// Pattern of 0.99.
pub const P0_99: u32 = 0x3f7d_70a4;

/// Pattern of 1.2.
pub const P1_2: u32 = 0x3f99_999a;

/// Pattern of 1.3.
pub const P1_3: u32 = 0x3fa6_6666;

/// Pattern of 1.37.
pub const P1_37: u32 = 0x3faf_5c29;

/// Pattern of 1.4.
pub const P1_4: u32 = 0x3fb3_3333;

/// Pattern of 1.5.
pub const P1_5: u32 = 0x3fc0_0000;

/// Pattern of 1.6.
pub const P1_6: u32 = 0x3fcc_cccd;

/// Pattern of 1.62.
pub const P1_62: u32 = 0x3fcf_5c29;

/// Pattern of 1.7.
pub const P1_7: u32 = 0x3fd9_999a;

/// Pattern of 1.8.
pub const P1_8: u32 = 0x3fe6_6666;

/// Pattern of 2.3.
pub const P2_3: u32 = 0x4013_3333;

/// Pattern of 2.4.
pub const P2_4: u32 = 0x4019_999a;

/// Pattern of 2.5.
pub const P2_5: u32 = 0x4020_0000;

/// Pattern of 2.8.
pub const P2_8: u32 = 0x4033_3333;

/// Pattern of 3.2.
pub const P3_2: u32 = 0x404c_cccd;

/// Pattern of 4.
pub const P4: u32 = 0x4080_0000;

/// Pattern of 5.
pub const P5: u32 = 0x40a0_0000;

/// Pattern of 7.
pub const P7: u32 = 0x40e0_0000;

/// Pattern of 8.
pub const P8: u32 = 0x4100_0000;

/// Pattern of 9.
pub const P9: u32 = 0x4110_0000;

/// Pattern of 10.
pub const P10: u32 = 0x4120_0000;

/// Pattern of 12.
pub const P12: u32 = 0x4140_0000;

/// Pattern of 20.
pub const P20: u32 = 0x41a0_0000;

/// Pattern of 22.
pub const P22: u32 = 0x41b0_0000;

/// Pattern of 24.
pub const P24: u32 = 0x41c0_0000;

/// Pattern of 30.
pub const P30: u32 = 0x41f0_0000;

/// Pattern of 35.
pub const P35: u32 = 0x420c_0000;

/// Pattern of 40.
pub const P40: u32 = 0x4220_0000;

/// Pattern of 45.
pub const P45: u32 = 0x4234_0000;

/// Pattern of 60.
pub const P60: u32 = 0x4270_0000;

/// Pattern of 90.
pub const P90: u32 = 0x42b4_0000;

/// Pattern of 100.
pub const P100: u32 = 0x42c8_0000;

/// Pattern of 120.
pub const P120: u32 = 0x42f0_0000;

/// Pattern of 140.
pub const P140: u32 = 0x430c_0000;

/// Pattern of 160.
pub const P160: u32 = 0x4320_0000;

/// Pattern of 200.
pub const P200: u32 = 0x4348_0000;

/// Pattern of 220.
pub const P220: u32 = 0x435c_0000;

/// Pattern of 250.
pub const P250: u32 = 0x437a_0000;

/// Pattern of 260.
pub const P260: u32 = 0x4382_0000;

/// Pattern of 300.
pub const P300: u32 = 0x4396_0000;

/// Pattern of 320.
pub const P320: u32 = 0x43a0_0000;

/// Pattern of 340.
pub const P340: u32 = 0x43aa_0000;

/// Pattern of 380.
pub const P380: u32 = 0x43be_0000;

/// Pattern of 400.
pub const P400: u32 = 0x43c8_0000;

/// Pattern of 420.
pub const P420: u32 = 0x43d2_0000;

/// Pattern of 500.
pub const P500: u32 = 0x43fa_0000;

/// Pattern of 520.
pub const P520: u32 = 0x4402_0000;

/// Pattern of 600.
pub const P600: u32 = 0x4416_0000;

/// Pattern of 700.
pub const P700: u32 = 0x442f_0000;

/// Pattern of 800.
pub const P800: u32 = 0x4448_0000;

/// Pattern of 900.
pub const P900: u32 = 0x4461_0000;

/// Pattern of 1100.
pub const P1100: u32 = 0x4489_8000;

/// Pattern of 1200.
pub const P1200: u32 = 0x4496_0000;

/// Pattern of 1300.
pub const P1300: u32 = 0x44a2_8000;

/// Pattern of 1500.
pub const P1500: u32 = 0x44bb_8000;

/// Pattern of 1700.
pub const P1700: u32 = 0x44d4_8000;

/// Pattern of 1800.
pub const P1800: u32 = 0x44e1_0000;

/// Pattern of 1900.
pub const P1900: u32 = 0x44ed_8000;

/// Pattern of 2200.
pub const P2200: u32 = 0x4509_8000;

/// Pattern of 2500.
pub const P2500: u32 = 0x451c_4000;

/// Pattern of 2600.
pub const P2600: u32 = 0x4522_8000;

/// Pattern of 2800.
pub const P2800: u32 = 0x452f_0000;

/// Pattern of 3000.
pub const P3000: u32 = 0x453b_8000;

/// Pattern of 3500.
pub const P3500: u32 = 0x455a_c000;

/// Pattern of 4000.
pub const P4000: u32 = 0x457a_0000;

/// Pattern of 5000.
pub const P5000: u32 = 0x459c_4000;

/// Pattern of 6000.
pub const P6000: u32 = 0x45bb_8000;

/// Pattern of 8000.
pub const P8000: u32 = 0x45fa_0000;

/// Pattern of 16000.
pub const P16000: u32 = 0x467a_0000;

/// Pattern of 18000.
pub const P18000: u32 = 0x468c_a000;

/// Wind: resonant howl that tracks strength, low rumble, hiss and a gap whistle.
#[derive(Clone, Copy, Debug, PartialEq, Eq, Structural)]
pub struct WindParams {
    pub howl_hz: Single,
    pub howl_res: Single,
    pub howl_level: Single,
    pub gust_rate: Single,
    pub rumble_level: Single,
    pub hiss_level: Single,
    pub whistle_hz: Single,
    pub whistle_level: Single,
    pub gain: Single,
}

impl WindParams {
    pub open spec fn plain() -> WindParams {
        WindParams {
            howl_hz: Single::of(P520),
            howl_res: Single::of(P0_78),
            howl_level: Single::of(P0_7),
            gust_rate: Single::of(P0_25),
            rumble_level: Single::of(HALF),
            hiss_level: Single::of(P0_4),
            whistle_hz: Single::of(P1900),
            whistle_level: Single::of(P0_3),
            gain: Single::of(ONE),
        }
    }
}

impl Default for WindParams {
    fn default() -> (r: WindParams)
        ensures
            r == WindParams::plain(),
    {
        WindParams {
            howl_hz: Single::of(P520),
            howl_res: Single::of(P0_78),
            howl_level: Single::of(P0_7),
            gust_rate: Single::of(P0_25),
            rumble_level: Single::of(HALF),
            hiss_level: Single::of(P0_4),
            whistle_hz: Single::of(P1900),
            whistle_level: Single::of(P0_3),
            gain: Single::of(ONE),
        }
    }
}

/// Identifier of every tweakable value in [`WindParams`].
#[derive(Clone, Copy, Debug, PartialEq, Eq, Structural)]
pub enum WindParamId {
    HowlHz,
    HowlRes,
    HowlLevel,
    GustRate,
    RumbleLevel,
    HissLevel,
    WhistleHz,
    WhistleLevel,
    Gain,
}

impl WindParamId {
    /// Number of parameters.
    pub const COUNT: usize = 9;

    /// Every parameter, in table order.
    pub open spec fn all() -> Seq<WindParamId> {
        seq![
            WindParamId::HowlHz,
            WindParamId::HowlRes,
            WindParamId::HowlLevel,
            WindParamId::GustRate,
            WindParamId::RumbleLevel,
            WindParamId::HissLevel,
            WindParamId::WhistleHz,
            WindParamId::WhistleLevel,
            WindParamId::Gain,
        ]
    }

    /// Place in the table.
    pub open spec fn place(self) -> int {
        match self {
            WindParamId::HowlHz => 0,
            WindParamId::HowlRes => 1,
            WindParamId::HowlLevel => 2,
            WindParamId::GustRate => 3,
            WindParamId::RumbleLevel => 4,
            WindParamId::HissLevel => 5,
            WindParamId::WhistleHz => 6,
            WindParamId::WhistleLevel => 7,
            WindParamId::Gain => 8,
        }
    }

    pub open spec fn label(self) -> Seq<char> {
        match self {
            WindParamId::HowlHz => "howl/hz"@,
            WindParamId::HowlRes => "howl/resonance"@,
            WindParamId::HowlLevel => "howl/level"@,
            WindParamId::GustRate => "gusts/rate_hz"@,
            WindParamId::RumbleLevel => "rumble/level"@,
            WindParamId::HissLevel => "hiss/level"@,
            WindParamId::WhistleHz => "whistle/hz"@,
            WindParamId::WhistleLevel => "whistle/level"@,
            WindParamId::Gain => "master/gain"@,
        }
    }

    pub open spec fn range(self) -> ParamKind {
        match self {
            WindParamId::HowlHz => ParamKind::Exp { min: Single::of(P100), max: Single::of(P4000) },
            WindParamId::HowlRes => ParamKind::Float { min: Single::of(ZERO), max: Single::of(P0_95), step: Single::of(P0_001) },
            WindParamId::HowlLevel => ParamKind::Float { min: Single::of(ZERO), max: Single::of(ONE), step: Single::of(P0_001) },
            WindParamId::GustRate => ParamKind::Exp { min: Single::of(P0_02), max: Single::of(P4) },
            WindParamId::RumbleLevel => ParamKind::Float { min: Single::of(ZERO), max: Single::of(ONE), step: Single::of(P0_001) },
            WindParamId::HissLevel => ParamKind::Float { min: Single::of(ZERO), max: Single::of(ONE), step: Single::of(P0_001) },
            WindParamId::WhistleHz => ParamKind::Exp { min: Single::of(P400), max: Single::of(P6000) },
            WindParamId::WhistleLevel => ParamKind::Float { min: Single::of(ZERO), max: Single::of(ONE), step: Single::of(P0_001) },
            WindParamId::Gain => ParamKind::Float { min: Single::of(ZERO), max: Single::of(TWO), step: Single::of(P0_001) },
        }
    }

    /// The parameter at a place of the table, if there is one.
    pub fn from_index(i: usize) -> (r: Option<WindParamId>)
        ensures
            r == if i < 9 {
                Some(WindParamId::all()[i as int])
            } else {
                None
            },
    {
        if i < 9 {
            Some(WindParamId::nth(i))
        } else {
            None
        }
    }

    /// The parameter at a place of the table.
    pub fn nth(i: usize) -> (r: WindParamId)
        requires
            i < 9,
        ensures
            r == WindParamId::all()[i as int],
            r.place() == i,
    {
        match i {
            0 => WindParamId::HowlHz,
            1 => WindParamId::HowlRes,
            2 => WindParamId::HowlLevel,
            3 => WindParamId::GustRate,
            4 => WindParamId::RumbleLevel,
            5 => WindParamId::HissLevel,
            6 => WindParamId::WhistleHz,
            7 => WindParamId::WhistleLevel,
            _ => WindParamId::Gain,
        }
    }

    pub fn index(self) -> (r: usize)
        ensures
            r == self.place(),
            r < 9,
    {
        match self {
            WindParamId::HowlHz => 0,
            WindParamId::HowlRes => 1,
            WindParamId::HowlLevel => 2,
            WindParamId::GustRate => 3,
            WindParamId::RumbleLevel => 4,
            WindParamId::HissLevel => 5,
            WindParamId::WhistleHz => 6,
            WindParamId::WhistleLevel => 7,
            WindParamId::Gain => 8,
        }
    }

    pub fn name(self) -> (r: &'static str)
        ensures
            r@ == self.label(),
    {
        match self {
            WindParamId::HowlHz => "howl/hz",
            WindParamId::HowlRes => "howl/resonance",
            WindParamId::HowlLevel => "howl/level",
            WindParamId::GustRate => "gusts/rate_hz",
            WindParamId::RumbleLevel => "rumble/level",
            WindParamId::HissLevel => "hiss/level",
            WindParamId::WhistleHz => "whistle/hz",
            WindParamId::WhistleLevel => "whistle/level",
            WindParamId::Gain => "master/gain",
        }
    }

    pub fn kind(self) -> (r: ParamKind)
        ensures
            r == self.range(),
            r.wf(),
    {
        match self {
            WindParamId::HowlHz => ParamKind::Exp { min: Single::of(P100), max: Single::of(P4000) },
            WindParamId::HowlRes => ParamKind::Float { min: Single::of(ZERO), max: Single::of(P0_95), step: Single::of(P0_001) },
            WindParamId::HowlLevel => ParamKind::Float { min: Single::of(ZERO), max: Single::of(ONE), step: Single::of(P0_001) },
            WindParamId::GustRate => ParamKind::Exp { min: Single::of(P0_02), max: Single::of(P4) },
            WindParamId::RumbleLevel => ParamKind::Float { min: Single::of(ZERO), max: Single::of(ONE), step: Single::of(P0_001) },
            WindParamId::HissLevel => ParamKind::Float { min: Single::of(ZERO), max: Single::of(ONE), step: Single::of(P0_001) },
            WindParamId::WhistleHz => ParamKind::Exp { min: Single::of(P400), max: Single::of(P6000) },
            WindParamId::WhistleLevel => ParamKind::Float { min: Single::of(ZERO), max: Single::of(ONE), step: Single::of(P0_001) },
            WindParamId::Gain => ParamKind::Float { min: Single::of(ZERO), max: Single::of(TWO), step: Single::of(P0_001) },
        }
    }

    /// The parameter with a name.
    pub fn from_name(name: &str) -> (r: Option<WindParamId>)
        ensures
            match r {
                Some(id) => id.label() == name@,
                None => forall|id: WindParamId| (#[trigger] id.label()) != name@,
            },
    {
        let mut i: usize = 0;
        while i < 9
            invariant
                i <= 9,
                forall|id: WindParamId| id.place() < i ==> (#[trigger] id.label()) != name@,
            decreases 9 - i,
        {
            let id = WindParamId::nth(i);
            if equal(id.name(), name) {
                return Some(id);
            }
            proof {
                assert forall|other: WindParamId| other.place() < i + 1 implies (#[trigger] other.label()) != name@ by {
                    if other.place() == i {
                        assert(WindParamId::all()[other.place()] == other);
                    }
                }
            }
            i = i + 1;
        }
        None
    }
}

impl WindParams {
    /// Value of a parameter; names count by their index.
    pub open spec fn value(self, id: WindParamId) -> Single {
        match id {
            WindParamId::HowlHz => self.howl_hz,
            WindParamId::HowlRes => self.howl_res,
            WindParamId::HowlLevel => self.howl_level,
            WindParamId::GustRate => self.gust_rate,
            WindParamId::RumbleLevel => self.rumble_level,
            WindParamId::HissLevel => self.hiss_level,
            WindParamId::WhistleHz => self.whistle_hz,
            WindParamId::WhistleLevel => self.whistle_level,
            WindParamId::Gain => self.gain,
        }
    }

    /// With a parameter set to the nearest value it can take.
    pub open spec fn with(self, id: WindParamId, v: Single) -> WindParams {
        match id {
            WindParamId::HowlHz => WindParams { howl_hz: id.range().clamped(v), ..self },
            WindParamId::HowlRes => WindParams { howl_res: id.range().clamped(v), ..self },
            WindParamId::HowlLevel => WindParams { howl_level: id.range().clamped(v), ..self },
            WindParamId::GustRate => WindParams { gust_rate: id.range().clamped(v), ..self },
            WindParamId::RumbleLevel => WindParams { rumble_level: id.range().clamped(v), ..self },
            WindParamId::HissLevel => WindParams { hiss_level: id.range().clamped(v), ..self },
            WindParamId::WhistleHz => WindParams { whistle_hz: id.range().clamped(v), ..self },
            WindParamId::WhistleLevel => WindParams { whistle_level: id.range().clamped(v), ..self },
            WindParamId::Gain => WindParams { gain: id.range().clamped(v), ..self },
        }
    }

    pub fn get(&self, id: WindParamId) -> (r: Single)
        ensures
            r == self.value(id),
    {
        match id {
            WindParamId::HowlHz => self.howl_hz,
            WindParamId::HowlRes => self.howl_res,
            WindParamId::HowlLevel => self.howl_level,
            WindParamId::GustRate => self.gust_rate,
            WindParamId::RumbleLevel => self.rumble_level,
            WindParamId::HissLevel => self.hiss_level,
            WindParamId::WhistleHz => self.whistle_hz,
            WindParamId::WhistleLevel => self.whistle_level,
            WindParamId::Gain => self.gain,
        }
    }

    /// Set a parameter to the nearest value it can take; what is no number is ignored.
    pub fn set(&mut self, id: WindParamId, v: Single)
        ensures
            *final(self) == if v.finite() {
                old(self).with(id, v)
            } else {
                *old(self)
            },
    {
        if !v.is_finite() {
            return;
        }
        match id {
            WindParamId::HowlHz => {
                self.howl_hz = id.kind().clamp(v);
            },
            WindParamId::HowlRes => {
                self.howl_res = id.kind().clamp(v);
            },
            WindParamId::HowlLevel => {
                self.howl_level = id.kind().clamp(v);
            },
            WindParamId::GustRate => {
                self.gust_rate = id.kind().clamp(v);
            },
            WindParamId::RumbleLevel => {
                self.rumble_level = id.kind().clamp(v);
            },
            WindParamId::HissLevel => {
                self.hiss_level = id.kind().clamp(v);
            },
            WindParamId::WhistleHz => {
                self.whistle_hz = id.kind().clamp(v);
            },
            WindParamId::WhistleLevel => {
                self.whistle_level = id.kind().clamp(v);
            },
            WindParamId::Gain => {
                self.gain = id.kind().clamp(v);
            },
        }
    }
}

/// A parameter that was set has the nearest value it can take.
pub proof fn lemma_windparams_set_get(p: WindParams, id: WindParamId, v: Single)
    requires
        v.finite(),
    ensures
        p.with(id, v).value(id) == id.range().clamped(v),
{
}


/// Setting a parameter leaves every other one what it was.
#[verifier::rlimit(30)]
pub proof fn lemma_windparams_set_keeps_others(p: WindParams, id: WindParamId, other: WindParamId, v: Single)
    requires
        other != id,
    ensures
        p.with(id, v).value(other) == p.value(other),
{
}

/// Length and some letters of a name.
spec fn windparamid_sign(id: WindParamId) -> (int, char) {
    match id {
        WindParamId::HowlHz => (7, 'o'),
        WindParamId::HowlRes => (14, 'o'),
        WindParamId::HowlLevel => (10, 'o'),
        WindParamId::GustRate => (13, 'u'),
        WindParamId::RumbleLevel => (12, 'u'),
        WindParamId::HissLevel => (10, 'i'),
        WindParamId::WhistleHz => (10, 'h'),
        WindParamId::WhistleLevel => (13, 'h'),
        WindParamId::Gain => (11, 'a'),
    }
}

#[verifier::rlimit(60)]
proof fn lemma_windparamid_sign(id: WindParamId)
    ensures
        id.label().len() == windparamid_sign(id).0,
        windparamid_sign(id).0 > 1 ==> id.label()[1] == windparamid_sign(id).1,
{
    reveal_strlit("howl/hz");
    reveal_strlit("howl/resonance");
    reveal_strlit("howl/level");
    reveal_strlit("gusts/rate_hz");
    reveal_strlit("rumble/level");
    reveal_strlit("hiss/level");
    reveal_strlit("whistle/hz");
    reveal_strlit("whistle/level");
    reveal_strlit("master/gain");
}

/// Names tell the parameters apart, so looking up a parameter's name gives the parameter.
pub proof fn lemma_windparamid_names_differ(a: WindParamId, b: WindParamId)
    requires
        a.label() == b.label(),
    ensures
        a == b,
{
    lemma_windparamid_sign(a);
    lemma_windparamid_sign(b);
}

impl Params for WindParams {
    open spec fn plain_params() -> WindParams {
        WindParams::plain()
    }

    open spec fn param_count() -> nat {
        WindParamId::COUNT as nat
    }

    open spec fn label_at(i: int) -> Seq<char> {
        WindParamId::all()[i].label()
    }

    open spec fn range_at(i: int) -> ParamKind {
        WindParamId::all()[i].range()
    }

    open spec fn value_at(self, i: int) -> Single {
        self.value(WindParamId::all()[i])
    }

    open spec fn with_at(self, i: int, v: Single) -> WindParams {
        self.with(WindParamId::all()[i], v)
    }

    proof fn lemma_set_at_reads_back(self, i: int, v: Single) {
        lemma_windparams_set_get(self, WindParamId::all()[i], v);
    }

    proof fn lemma_set_at_keeps_others(self, i: int, j: int, v: Single) {
        assert(WindParamId::all()[i].place() == i);
        assert(WindParamId::all()[j].place() == j);
        lemma_windparams_set_keeps_others(self, WindParamId::all()[i], WindParamId::all()[j], v);
    }

    fn default_params() -> (r: WindParams) {
        WindParams::default()
    }

    fn count() -> (r: usize) {
        WindParamId::COUNT
    }

    fn name_at(i: usize) -> (r: &'static str) {
        WindParamId::nth(i).name()
    }

    fn kind_at(i: usize) -> (r: ParamKind) {
        WindParamId::nth(i).kind()
    }

    fn get_at(&self, i: usize) -> (r: Single) {
        self.get(WindParamId::nth(i))
    }

    fn set_at(&mut self, i: usize, v: Single) {
        self.set(WindParamId::nth(i), v);
    }
}

/// Wind with gusts: howl, rumble, hiss and a whistle through gaps at high strength.
#[derive(Clone, Copy, Debug, PartialEq, Eq, Structural)]
pub struct Wind {
    pub sr: Single,
    pub noise: Noise,
    pub brown: Brown,
    pub body0: Svf,
    pub body1: Svf,
    pub rumble: Svf,
    pub hiss: Svf,
    pub whistle: Svf,
    pub gust: SlowNoise,
    pub drift: SlowNoise,
    pub whistle_drift: SlowNoise,
}

/// Settings of a control block.
#[derive(Clone, Copy, Debug, PartialEq, Eq, Structural)]
pub struct WindMix {
    pub whistle_gain: Single,
    pub howl: Single,
    pub rumble: Single,
    pub hiss: Single,
    pub level: Single,
}

/// The generator at the start of a control block of `n` samples with inputs `x`, and the settings.
pub open spec fn wind_steered(f: Sums, p: WindParams, x: Seq<Single>, n: Single, s: Wind) -> (Wind, WindMix) {
    let sr = s.sr;
    let dt = f(Prim::Div, n, sr);
    let gust = s.gust.advanced(f, p.gust_rate, dt).level(f);
    let s = Wind { gust: s.gust.advanced(f, p.gust_rate, dt), ..s };
    let strength = f(Prim::Mul, x[0], f(Prim::Add, Single::of(ONE), f(Prim::Mul, f(Prim::Mul, x[1], Single::of(P0_8)), gust))).within(Single::of(ZERO), Single::of(P1_3));
    let drift = s.drift.advanced(f, f(Prim::Add, f(Prim::Mul, p.gust_rate, Single::of(P1_7)), Single::of(P0_05)), dt).level(f);
    let s = Wind { drift: s.drift.advanced(f, f(Prim::Add, f(Prim::Mul, p.gust_rate, Single::of(P1_7)), Single::of(P0_05)), dt), ..s };
    let fc = f(Prim::Mul, p.howl_hz, f(Prim::Exp2, f(Prim::Add, f(Prim::Mul, Single::of(P1_6), f(Prim::Sub, strength, Single::of(HALF))), f(Prim::Mul, Single::of(P0_4), drift)), Single::of(ZERO)));
    let s = Wind { body0: s.body0.tuned(f, FilterMode::BandPass, fc, p.howl_res, sr), ..s };
    let s = Wind { body1: s.body1.tuned(f, FilterMode::BandPass, f(Prim::Mul, fc, Single::of(P2_3)), f(Prim::Mul, p.howl_res, Single::of(P0_8)), sr), ..s };
    let s = Wind { rumble: s.rumble.tuned(f, FilterMode::LowPass, f(Prim::Add, Single::of(P60), f(Prim::Mul, Single::of(P140), strength)), Single::of(P0_1), sr), ..s };
    let s = Wind { hiss: s.hiss.tuned(f, FilterMode::HighPass, Single::of(P3500), Single::of(P0_1), sr), ..s };
    let wd = s.whistle_drift.advanced(f, Single::of(P0_8), dt).level(f);
    let s = Wind { whistle_drift: s.whistle_drift.advanced(f, Single::of(P0_8), dt), ..s };
    let s = Wind { whistle: s.whistle.tuned(f, FilterMode::BandPass, f(Prim::Mul, f(Prim::Mul, p.whistle_hz, f(Prim::Add, Single::of(ONE), f(Prim::Mul, Single::of(P0_12), wd))), f(Prim::Add, Single::of(P0_8), f(Prim::Mul, Single::of(P0_4), strength))), Single::of(P0_97), sr), ..s };
    let t = f(Prim::Mul, f(Prim::Sub, strength, Single::of(P0_45)), Single::of(THREE)).within(Single::of(ZERO), Single::of(ONE));
    let whistle_gain = f(Prim::Mul, f(Prim::Mul, f(Prim::Mul, p.whistle_level, t), t), Single::of(P0_12));
    let howl = f(Prim::Mul, p.howl_level, Single::of(P2_3));
    let rumble = f(Prim::Mul, p.rumble_level, Single::of(P1_4));
    let hiss = f(Prim::Mul, f(Prim::Mul, p.hiss_level, Single::of(P0_45)), strength);
    let level = f(Prim::Mul, f(Prim::Pow, strength, Single::of(P1_5)), p.gain);
    (s, WindMix { whistle_gain, howl, rumble, hiss, level })
}

fn wind_steer<F: Fn(Prim, Single, Single) -> Single>(fpu: &F, p: WindParams, x: &Vec<Single>, n: Single, s: &mut Wind) -> (r: WindMix)
    requires
        total(*fpu),
        x@.len() == 2,
    ensures
        forall|f: Sums| #[trigger] meant(*fpu, f) ==> (*final(s), r) == wind_steered(f, p, x@, n, *old(s)),
{
    let sr = s.sr;
    let dt = fpu(Prim::Div, n, sr);
    let gust = s.gust.advance(fpu, p.gust_rate, dt);
    let strength = fpu(Prim::Mul, x[0], fpu(Prim::Add, Single::of(ONE), fpu(Prim::Mul, fpu(Prim::Mul, x[1], Single::of(P0_8)), gust))).clamp(Single::of(ZERO), Single::of(P1_3));
    let drift = s.drift.advance(fpu, fpu(Prim::Add, fpu(Prim::Mul, p.gust_rate, Single::of(P1_7)), Single::of(P0_05)), dt);
    let fc = fpu(Prim::Mul, p.howl_hz, fpu(Prim::Exp2, fpu(Prim::Add, fpu(Prim::Mul, Single::of(P1_6), fpu(Prim::Sub, strength, Single::of(HALF))), fpu(Prim::Mul, Single::of(P0_4), drift)), Single::of(ZERO)));
    s.body0.set(fpu, FilterMode::BandPass, fc, p.howl_res, sr);
    s.body1.set(fpu, FilterMode::BandPass, fpu(Prim::Mul, fc, Single::of(P2_3)), fpu(Prim::Mul, p.howl_res, Single::of(P0_8)), sr);
    s.rumble.set(fpu, FilterMode::LowPass, fpu(Prim::Add, Single::of(P60), fpu(Prim::Mul, Single::of(P140), strength)), Single::of(P0_1), sr);
    s.hiss.set(fpu, FilterMode::HighPass, Single::of(P3500), Single::of(P0_1), sr);
    let wd = s.whistle_drift.advance(fpu, Single::of(P0_8), dt);
    s.whistle.set(fpu, FilterMode::BandPass, fpu(Prim::Mul, fpu(Prim::Mul, p.whistle_hz, fpu(Prim::Add, Single::of(ONE), fpu(Prim::Mul, Single::of(P0_12), wd))), fpu(Prim::Add, Single::of(P0_8), fpu(Prim::Mul, Single::of(P0_4), strength))), Single::of(P0_97), sr);
    let t = fpu(Prim::Mul, fpu(Prim::Sub, strength, Single::of(P0_45)), Single::of(THREE)).clamp(Single::of(ZERO), Single::of(ONE));
    let whistle_gain = fpu(Prim::Mul, fpu(Prim::Mul, fpu(Prim::Mul, p.whistle_level, t), t), Single::of(P0_12));
    let howl = fpu(Prim::Mul, p.howl_level, Single::of(P2_3));
    let rumble = fpu(Prim::Mul, p.rumble_level, Single::of(P1_4));
    let hiss = fpu(Prim::Mul, fpu(Prim::Mul, p.hiss_level, Single::of(P0_45)), strength);
    let level = fpu(Prim::Mul, fpu(Prim::Pow, strength, Single::of(P1_5)), p.gain);
    WindMix { whistle_gain, howl, rumble, hiss, level }
}

/// One sample; what was in its place is not heard.
pub open spec fn wind_tick(f: Sums, p: WindParams, m: WindMix, s: Wind, v: Single) -> (Wind, Single) {
    let w = s.noise.draw();
    let s = Wind { noise: Noise { rng: s.noise.rng.advanced(), ..s.noise }, ..s };
    let pk = s.noise.pink.output(f, s.noise.draw());
    let s = Wind { noise: Noise { rng: s.noise.rng.advanced(), pink: s.noise.pink.fed(f, s.noise.draw()) }, ..s };
    let b0 = s.body0.output(f, pk);
    let s = Wind { body0: s.body0.fed(f, pk), ..s };
    let b1 = s.body1.output(f, pk);
    let s = Wind { body1: s.body1.fed(f, pk), ..s };
    let br = s.brown.sound(f, w);
    let s = Wind { brown: Brown { y: s.brown.integrated(f, w) }, ..s };
    let lo = s.rumble.output(f, br);
    let s = Wind { rumble: s.rumble.fed(f, br), ..s };
    let hi = s.hiss.output(f, w);
    let s = Wind { hiss: s.hiss.fed(f, w), ..s };
    let wh = s.whistle.output(f, w);
    let s = Wind { whistle: s.whistle.fed(f, w), ..s };
    let y = f(Prim::Add, f(Prim::Add, f(Prim::Add, f(Prim::Mul, f(Prim::Add, b0, f(Prim::Mul, Single::of(P0_4), b1)), m.howl), f(Prim::Mul, lo, m.rumble)), f(Prim::Mul, hi, m.hiss)), f(Prim::Mul, wh, m.whistle_gain));
    (s, f(Prim::Mul, y, m.level))
}

/// The same for a run of samples.
pub open spec fn wind_run(f: Sums, p: WindParams, m: WindMix, s: Wind, x: Seq<Single>) -> (Wind, Seq<Single>)
    decreases x.len(),
{
    if x.len() == 0 {
        (s, seq![])
    } else {
        let (t, out) = wind_run(f, p, m, s, x.drop_last());
        let (u, y) = wind_tick(f, p, m, t, x.last());
        (u, out.push(y))
    }
}

fn wind_sample<F: Fn(Prim, Single, Single) -> Single>(fpu: &F, p: WindParams, m: WindMix, s: &mut Wind, v: Single) -> (y: Single)
    requires
        total(*fpu),
    ensures
        forall|f: Sums| #[trigger] meant(*fpu, f) ==> (*final(s), y) == wind_tick(f, p, m, *old(s), v),
{
    let w = s.noise.white();
    let pk = s.noise.pink(fpu);
    let b0 = s.body0.tick(fpu, pk);
    let b1 = s.body1.tick(fpu, pk);
    let br = s.brown.tick(fpu, w);
    let lo = s.rumble.tick(fpu, br);
    let hi = s.hiss.tick(fpu, w);
    let wh = s.whistle.tick(fpu, w);
    let y = fpu(Prim::Add, fpu(Prim::Add, fpu(Prim::Add, fpu(Prim::Mul, fpu(Prim::Add, b0, fpu(Prim::Mul, Single::of(P0_4), b1)), m.howl), fpu(Prim::Mul, lo, m.rumble)), fpu(Prim::Mul, hi, m.hiss)), fpu(Prim::Mul, wh, m.whistle_gain));
    fpu(Prim::Mul, y, m.level)
}

fn wind_span<F: Fn(Prim, Single, Single) -> Single>(fpu: &F, p: WindParams, m: WindMix, s: &mut Wind, buf: &mut Vec<Single>, start: usize, end: usize)
    requires
        total(*fpu),
        start <= end <= old(buf)@.len(),
    ensures
        final(buf)@.len() == old(buf)@.len(),
        same_outside(old(buf)@, final(buf)@, start as int, end as int),
        forall|f: Sums| #[trigger] meant(*fpu, f) ==> (*final(s), final(buf)@.subrange(start as int, end as int)) == wind_run(
            f, p, m,
            *old(s),
            old(buf)@.subrange(start as int, end as int),
        ),
{
    let mut i: usize = start;
    let ghost before = buf@;
    assert(before.subrange(start as int, start as int) =~= seq![]);
    while i < end
        invariant
            start <= i <= end <= buf@.len(),
            buf@.len() == before.len(),
            before == old(buf)@,
            same_outside(before, buf@, start as int, i as int),
            total(*fpu),
            forall|f: Sums| #[trigger] meant(*fpu, f) ==> (*s, buf@.subrange(start as int, i as int)) == wind_run(
                f, p, m,
                *old(s),
                before.subrange(start as int, i as int),
            ),
        decreases end - i,
    {
        let ghost last = buf@;
        let y = wind_sample(fpu, p, m, s, buf[i]);
        buf.set(i, y);
        i = i + 1;
        assert(before.subrange(start as int, i as int).drop_last() =~= before.subrange(start as int, i - 1));
        assert(buf@.subrange(start as int, i as int) =~= last.subrange(start as int, i - 1).push(y));
    }
}

/// What the buffer held does not matter.
proof fn lemma_wind_overwrites(f: Sums, p: WindParams, m: WindMix, s: Wind, a: Seq<Single>, b: Seq<Single>)
    requires
        a.len() == b.len(),
    ensures
        wind_run(f, p, m, s, a) == wind_run(f, p, m, s, b),
        wind_run(f, p, m, s, a).1.len() == a.len(),
    decreases a.len(),
{
    if a.len() > 0 {
        lemma_wind_overwrites(f, p, m, s, a.drop_last(), b.drop_last());
    }
}

impl Generator for Wind {
    type P = WindParams;

    type State = Wind;

    open spec fn about() -> ProfileView {
        ProfileView {
            name: "wind"@,
            category: "nature"@,
            doc: "Wind with gusts: howl, rumble, hiss and a whistle through gaps at high strength."@,
            smooth_secs: Single::of(P0_05),
            limit: true,
            one_shot: false,
        }
    }

    open spec fn input_list() -> Seq<InputView> {
        seq![
            InputView { name: "strength"@, default: Single::of(P0_4), doc: "Breeze to storm"@ },
            InputView { name: "gustiness"@, default: Single::of(HALF), doc: "How much the strength wanders by itself"@ },
        ]
    }

    open spec fn preset_list() -> Seq<(Seq<char>, WindParams)> {
        seq![
            ("Blizzard"@, WindParams { howl_hz: Single::of(P800), howl_res: Single::of(P0_75), hiss_level: Single::of(P0_7), whistle_level: Single::of(HALF), gust_rate: Single::of(HALF), ..WindParams::plain() }),
            ("Desert"@, WindParams { howl_hz: Single::of(P320), howl_res: Single::of(P0_4), hiss_level: Single::of(P0_6), whistle_level: Single::of(ZERO), rumble_level: Single::of(P0_7), ..WindParams::plain() }),
            ("Drafty corridor"@, WindParams { howl_hz: Single::of(P420), howl_res: Single::of(P0_85), rumble_level: Single::of(P0_2), hiss_level: Single::of(P0_1), whistle_hz: Single::of(P1300), whistle_level: Single::of(P0_6), gust_rate: Single::of(P0_12), ..WindParams::plain() }),
        ]
    }

    open spec fn wf(&self) -> bool {
        true
    }

    open spec fn state(&self) -> Wind {
        *self
    }

    open spec fn fresh(f: Sums, sample_rate: Single) -> Wind {
        Wind {
            sr: sample_rate,
            noise: Noise::seeded_with(0x50_0001),
            brown: Brown { y: Single::of(ZERO) },
            body0: Svf::silent(),
            body1: Svf::silent(),
            rumble: Svf::silent(),
            hiss: Svf::silent(),
            whistle: Svf::silent(),
            gust: SlowNoise::seeded_with(0x50_0002),
            drift: SlowNoise::seeded_with(0x50_0003),
            whistle_drift: SlowNoise::seeded_with(0x50_0004),
        }
    }

    open spec fn snapped(s: Wind, f: Sums, x: Seq<Single>, p: WindParams) -> Wind {
        s
    }

    open spec fn fired(s: Wind, f: Sums, x: Seq<Single>, p: WindParams) -> Wind {
        s
    }

    open spec fn ringing(s: Wind) -> bool {
        true
    }

    open spec fn played(s: Wind, f: Sums, x: Seq<Single>, p: WindParams, out: Seq<Single>) -> (Wind, Seq<Single>) {
        let (t, m) = wind_steered(f, p, x, crate::single::signed_integer(out.len() as int), s);
        wind_run(f, p, m, t, out)
    }

    proof fn lemma_overwrites(s: Wind, f: Sums, x: Seq<Single>, p: WindParams, a: Seq<Single>, b: Seq<Single>) {
        let (t, m) = wind_steered(f, p, x, crate::single::signed_integer(a.len() as int), s);
        lemma_wind_overwrites(f, p, m, t, a, b);
    }

    fn profile() -> (r: Profile) {
        Profile {
            name: "wind",
            category: "nature",
            doc: "Wind with gusts: howl, rumble, hiss and a whistle through gaps at high strength.",
            smooth_secs: Single::of(P0_05),
            limit: true,
            one_shot: false,
        }
    }

    fn inputs() -> (r: Vec<InputSpec>) {
        let mut r: Vec<InputSpec> = Vec::new();
        r.push(InputSpec { name: "strength", default: Single::of(P0_4), doc: "Breeze to storm" });
        r.push(InputSpec { name: "gustiness", default: Single::of(HALF), doc: "How much the strength wanders by itself" });
        r
    }

    fn presets() -> (r: Vec<(&'static str, WindParams)>) {
        let mut r: Vec<(&'static str, WindParams)> = Vec::new();
        r.push(("Blizzard", WindParams { howl_hz: Single::of(P800), howl_res: Single::of(P0_75), hiss_level: Single::of(P0_7), whistle_level: Single::of(HALF), gust_rate: Single::of(HALF), ..WindParams::default() }));
        r.push(("Desert", WindParams { howl_hz: Single::of(P320), howl_res: Single::of(P0_4), hiss_level: Single::of(P0_6), whistle_level: Single::of(ZERO), rumble_level: Single::of(P0_7), ..WindParams::default() }));
        r.push(("Drafty corridor", WindParams { howl_hz: Single::of(P420), howl_res: Single::of(P0_85), rumble_level: Single::of(P0_2), hiss_level: Single::of(P0_1), whistle_hz: Single::of(P1300), whistle_level: Single::of(P0_6), gust_rate: Single::of(P0_12), ..WindParams::default() }));
        r
    }

    fn new<F: Fn(Prim, Single, Single) -> Single>(fpu: &F, sample_rate: Single) -> (r: Wind) {
        let r = Wind {
            sr: sample_rate,
            noise: Noise::new(0x50_0001),
            brown: Brown::default(),
            body0: Svf::default(),
            body1: Svf::default(),
            rumble: Svf::default(),
            hiss: Svf::default(),
            whistle: Svf::default(),
            gust: SlowNoise::new(0x50_0002),
            drift: SlowNoise::new(0x50_0003),
            whistle_drift: SlowNoise::new(0x50_0004),
        };
        r
    }

    fn snap<F: Fn(Prim, Single, Single) -> Single>(&mut self, fpu: &F, x: &Vec<Single>, p: &WindParams) {
    }

    fn trigger<F: Fn(Prim, Single, Single) -> Single>(&mut self, fpu: &F, x: &Vec<Single>, p: &WindParams) {
    }

    fn is_active(&self) -> (r: bool) {
        true
    }

    fn block<F: Fn(Prim, Single, Single) -> Single>(&mut self, fpu: &F, x: &Vec<Single>, p: &WindParams, out: &mut Vec<Single>, start: usize, end: usize) {
        let n = from_i32((end - start) as i32);
        let m = wind_steer(fpu, *p, x, n, self);
        wind_span(fpu, *p, m, self, out, start, end);
    }
}

/// Rain: a noise bed plus individual drops as randomly excited resonators; `shelter`
/// moves the listener under a roof (muffled air, distinct patter overhead).
#[derive(Clone, Copy, Debug, PartialEq, Eq, Structural)]
pub struct RainParams {
    pub density: Single,
    pub drop_hz: Single,
    pub drop_res: Single,
    pub drop_spread: Single,
    pub drops_level: Single,
    pub bed_level: Single,
    pub bed_hz: Single,
    pub roof_hz: Single,
    pub roof_level: Single,
    pub gain: Single,
}

impl RainParams {
    pub open spec fn plain() -> RainParams {
        RainParams {
            density: Single::of(P900),
            drop_hz: Single::of(P2600),
            drop_res: Single::of(P0_88),
            drop_spread: Single::of(P0_7),
            drops_level: Single::of(P0_6),
            bed_level: Single::of(HALF),
            bed_hz: Single::of(P2200),
            roof_hz: Single::of(P420),
            roof_level: Single::of(P0_6),
            gain: Single::of(ONE),
        }
    }
}

impl Default for RainParams {
    fn default() -> (r: RainParams)
        ensures
            r == RainParams::plain(),
    {
        RainParams {
            density: Single::of(P900),
            drop_hz: Single::of(P2600),
            drop_res: Single::of(P0_88),
            drop_spread: Single::of(P0_7),
            drops_level: Single::of(P0_6),
            bed_level: Single::of(HALF),
            bed_hz: Single::of(P2200),
            roof_hz: Single::of(P420),
            roof_level: Single::of(P0_6),
            gain: Single::of(ONE),
        }
    }
}

/// Identifier of every tweakable value in [`RainParams`].
#[derive(Clone, Copy, Debug, PartialEq, Eq, Structural)]
pub enum RainParamId {
    Density,
    DropHz,
    DropRes,
    DropSpread,
    DropsLevel,
    BedLevel,
    BedHz,
    RoofHz,
    RoofLevel,
    Gain,
}

impl RainParamId {
    /// Number of parameters.
    pub const COUNT: usize = 10;

    /// Every parameter, in table order.
    pub open spec fn all() -> Seq<RainParamId> {
        seq![
            RainParamId::Density,
            RainParamId::DropHz,
            RainParamId::DropRes,
            RainParamId::DropSpread,
            RainParamId::DropsLevel,
            RainParamId::BedLevel,
            RainParamId::BedHz,
            RainParamId::RoofHz,
            RainParamId::RoofLevel,
            RainParamId::Gain,
        ]
    }

    /// Place in the table.
    pub open spec fn place(self) -> int {
        match self {
            RainParamId::Density => 0,
            RainParamId::DropHz => 1,
            RainParamId::DropRes => 2,
            RainParamId::DropSpread => 3,
            RainParamId::DropsLevel => 4,
            RainParamId::BedLevel => 5,
            RainParamId::BedHz => 6,
            RainParamId::RoofHz => 7,
            RainParamId::RoofLevel => 8,
            RainParamId::Gain => 9,
        }
    }

    pub open spec fn label(self) -> Seq<char> {
        match self {
            RainParamId::Density => "drops/per_second"@,
            RainParamId::DropHz => "drops/hz"@,
            RainParamId::DropRes => "drops/resonance"@,
            RainParamId::DropSpread => "drops/spread_octaves"@,
            RainParamId::DropsLevel => "drops/level"@,
            RainParamId::BedLevel => "bed/level"@,
            RainParamId::BedHz => "bed/hz"@,
            RainParamId::RoofHz => "roof/hz"@,
            RainParamId::RoofLevel => "roof/level"@,
            RainParamId::Gain => "master/gain"@,
        }
    }

    pub open spec fn range(self) -> ParamKind {
        match self {
            RainParamId::Density => ParamKind::Exp { min: Single::of(P20), max: Single::of(P6000) },
            RainParamId::DropHz => ParamKind::Exp { min: Single::of(P500), max: Single::of(P8000) },
            RainParamId::DropRes => ParamKind::Float { min: Single::of(HALF), max: Single::of(P0_99), step: Single::of(P0_001) },
            RainParamId::DropSpread => ParamKind::Float { min: Single::of(ZERO), max: Single::of(TWO), step: Single::of(P0_001) },
            RainParamId::DropsLevel => ParamKind::Float { min: Single::of(ZERO), max: Single::of(ONE), step: Single::of(P0_001) },
            RainParamId::BedLevel => ParamKind::Float { min: Single::of(ZERO), max: Single::of(ONE), step: Single::of(P0_001) },
            RainParamId::BedHz => ParamKind::Exp { min: Single::of(P400), max: Single::of(P8000) },
            RainParamId::RoofHz => ParamKind::Exp { min: Single::of(P100), max: Single::of(P2500) },
            RainParamId::RoofLevel => ParamKind::Float { min: Single::of(ZERO), max: Single::of(ONE), step: Single::of(P0_001) },
            RainParamId::Gain => ParamKind::Float { min: Single::of(ZERO), max: Single::of(TWO), step: Single::of(P0_001) },
        }
    }

    /// The parameter at a place of the table, if there is one.
    pub fn from_index(i: usize) -> (r: Option<RainParamId>)
        ensures
            r == if i < 10 {
                Some(RainParamId::all()[i as int])
            } else {
                None
            },
    {
        if i < 10 {
            Some(RainParamId::nth(i))
        } else {
            None
        }
    }

    /// The parameter at a place of the table.
    pub fn nth(i: usize) -> (r: RainParamId)
        requires
            i < 10,
        ensures
            r == RainParamId::all()[i as int],
            r.place() == i,
    {
        match i {
            0 => RainParamId::Density,
            1 => RainParamId::DropHz,
            2 => RainParamId::DropRes,
            3 => RainParamId::DropSpread,
            4 => RainParamId::DropsLevel,
            5 => RainParamId::BedLevel,
            6 => RainParamId::BedHz,
            7 => RainParamId::RoofHz,
            8 => RainParamId::RoofLevel,
            _ => RainParamId::Gain,
        }
    }

    pub fn index(self) -> (r: usize)
        ensures
            r == self.place(),
            r < 10,
    {
        match self {
            RainParamId::Density => 0,
            RainParamId::DropHz => 1,
            RainParamId::DropRes => 2,
            RainParamId::DropSpread => 3,
            RainParamId::DropsLevel => 4,
            RainParamId::BedLevel => 5,
            RainParamId::BedHz => 6,
            RainParamId::RoofHz => 7,
            RainParamId::RoofLevel => 8,
            RainParamId::Gain => 9,
        }
    }

    pub fn name(self) -> (r: &'static str)
        ensures
            r@ == self.label(),
    {
        match self {
            RainParamId::Density => "drops/per_second",
            RainParamId::DropHz => "drops/hz",
            RainParamId::DropRes => "drops/resonance",
            RainParamId::DropSpread => "drops/spread_octaves",
            RainParamId::DropsLevel => "drops/level",
            RainParamId::BedLevel => "bed/level",
            RainParamId::BedHz => "bed/hz",
            RainParamId::RoofHz => "roof/hz",
            RainParamId::RoofLevel => "roof/level",
            RainParamId::Gain => "master/gain",
        }
    }

    pub fn kind(self) -> (r: ParamKind)
        ensures
            r == self.range(),
            r.wf(),
    {
        match self {
            RainParamId::Density => ParamKind::Exp { min: Single::of(P20), max: Single::of(P6000) },
            RainParamId::DropHz => ParamKind::Exp { min: Single::of(P500), max: Single::of(P8000) },
            RainParamId::DropRes => ParamKind::Float { min: Single::of(HALF), max: Single::of(P0_99), step: Single::of(P0_001) },
            RainParamId::DropSpread => ParamKind::Float { min: Single::of(ZERO), max: Single::of(TWO), step: Single::of(P0_001) },
            RainParamId::DropsLevel => ParamKind::Float { min: Single::of(ZERO), max: Single::of(ONE), step: Single::of(P0_001) },
            RainParamId::BedLevel => ParamKind::Float { min: Single::of(ZERO), max: Single::of(ONE), step: Single::of(P0_001) },
            RainParamId::BedHz => ParamKind::Exp { min: Single::of(P400), max: Single::of(P8000) },
            RainParamId::RoofHz => ParamKind::Exp { min: Single::of(P100), max: Single::of(P2500) },
            RainParamId::RoofLevel => ParamKind::Float { min: Single::of(ZERO), max: Single::of(ONE), step: Single::of(P0_001) },
            RainParamId::Gain => ParamKind::Float { min: Single::of(ZERO), max: Single::of(TWO), step: Single::of(P0_001) },
        }
    }

    /// The parameter with a name.
    pub fn from_name(name: &str) -> (r: Option<RainParamId>)
        ensures
            match r {
                Some(id) => id.label() == name@,
                None => forall|id: RainParamId| (#[trigger] id.label()) != name@,
            },
    {
        let mut i: usize = 0;
        while i < 10
            invariant
                i <= 10,
                forall|id: RainParamId| id.place() < i ==> (#[trigger] id.label()) != name@,
            decreases 10 - i,
        {
            let id = RainParamId::nth(i);
            if equal(id.name(), name) {
                return Some(id);
            }
            proof {
                assert forall|other: RainParamId| other.place() < i + 1 implies (#[trigger] other.label()) != name@ by {
                    if other.place() == i {
                        assert(RainParamId::all()[other.place()] == other);
                    }
                }
            }
            i = i + 1;
        }
        None
    }
}

impl RainParams {
    /// Value of a parameter; names count by their index.
    pub open spec fn value(self, id: RainParamId) -> Single {
        match id {
            RainParamId::Density => self.density,
            RainParamId::DropHz => self.drop_hz,
            RainParamId::DropRes => self.drop_res,
            RainParamId::DropSpread => self.drop_spread,
            RainParamId::DropsLevel => self.drops_level,
            RainParamId::BedLevel => self.bed_level,
            RainParamId::BedHz => self.bed_hz,
            RainParamId::RoofHz => self.roof_hz,
            RainParamId::RoofLevel => self.roof_level,
            RainParamId::Gain => self.gain,
        }
    }

    /// With a parameter set to the nearest value it can take.
    pub open spec fn with(self, id: RainParamId, v: Single) -> RainParams {
        match id {
            RainParamId::Density => RainParams { density: id.range().clamped(v), ..self },
            RainParamId::DropHz => RainParams { drop_hz: id.range().clamped(v), ..self },
            RainParamId::DropRes => RainParams { drop_res: id.range().clamped(v), ..self },
            RainParamId::DropSpread => RainParams { drop_spread: id.range().clamped(v), ..self },
            RainParamId::DropsLevel => RainParams { drops_level: id.range().clamped(v), ..self },
            RainParamId::BedLevel => RainParams { bed_level: id.range().clamped(v), ..self },
            RainParamId::BedHz => RainParams { bed_hz: id.range().clamped(v), ..self },
            RainParamId::RoofHz => RainParams { roof_hz: id.range().clamped(v), ..self },
            RainParamId::RoofLevel => RainParams { roof_level: id.range().clamped(v), ..self },
            RainParamId::Gain => RainParams { gain: id.range().clamped(v), ..self },
        }
    }

    pub fn get(&self, id: RainParamId) -> (r: Single)
        ensures
            r == self.value(id),
    {
        match id {
            RainParamId::Density => self.density,
            RainParamId::DropHz => self.drop_hz,
            RainParamId::DropRes => self.drop_res,
            RainParamId::DropSpread => self.drop_spread,
            RainParamId::DropsLevel => self.drops_level,
            RainParamId::BedLevel => self.bed_level,
            RainParamId::BedHz => self.bed_hz,
            RainParamId::RoofHz => self.roof_hz,
            RainParamId::RoofLevel => self.roof_level,
            RainParamId::Gain => self.gain,
        }
    }

    /// Set a parameter to the nearest value it can take; what is no number is ignored.
    pub fn set(&mut self, id: RainParamId, v: Single)
        ensures
            *final(self) == if v.finite() {
                old(self).with(id, v)
            } else {
                *old(self)
            },
    {
        if !v.is_finite() {
            return;
        }
        match id {
            RainParamId::Density => {
                self.density = id.kind().clamp(v);
            },
            RainParamId::DropHz => {
                self.drop_hz = id.kind().clamp(v);
            },
            RainParamId::DropRes => {
                self.drop_res = id.kind().clamp(v);
            },
            RainParamId::DropSpread => {
                self.drop_spread = id.kind().clamp(v);
            },
            RainParamId::DropsLevel => {
                self.drops_level = id.kind().clamp(v);
            },
            RainParamId::BedLevel => {
                self.bed_level = id.kind().clamp(v);
            },
            RainParamId::BedHz => {
                self.bed_hz = id.kind().clamp(v);
            },
            RainParamId::RoofHz => {
                self.roof_hz = id.kind().clamp(v);
            },
            RainParamId::RoofLevel => {
                self.roof_level = id.kind().clamp(v);
            },
            RainParamId::Gain => {
                self.gain = id.kind().clamp(v);
            },
        }
    }
}

/// A parameter that was set has the nearest value it can take.
pub proof fn lemma_rainparams_set_get(p: RainParams, id: RainParamId, v: Single)
    requires
        v.finite(),
    ensures
        p.with(id, v).value(id) == id.range().clamped(v),
{
}


/// Setting a parameter leaves every other one what it was.
#[verifier::rlimit(30)]
pub proof fn lemma_rainparams_set_keeps_others(p: RainParams, id: RainParamId, other: RainParamId, v: Single)
    requires
        other != id,
    ensures
        p.with(id, v).value(other) == p.value(other),
{
}

/// Length and some letters of a name.
spec fn rainparamid_sign(id: RainParamId) -> (int, char) {
    match id {
        RainParamId::Density => (16, 'd'),
        RainParamId::DropHz => (8, 'd'),
        RainParamId::DropRes => (15, 'd'),
        RainParamId::DropSpread => (20, 'd'),
        RainParamId::DropsLevel => (11, 'd'),
        RainParamId::BedLevel => (9, 'b'),
        RainParamId::BedHz => (6, 'b'),
        RainParamId::RoofHz => (7, 'r'),
        RainParamId::RoofLevel => (10, 'r'),
        RainParamId::Gain => (11, 'm'),
    }
}

#[verifier::rlimit(60)]
proof fn lemma_rainparamid_sign(id: RainParamId)
    ensures
        id.label().len() == rainparamid_sign(id).0,
        rainparamid_sign(id).0 > 0 ==> id.label()[0] == rainparamid_sign(id).1,
{
    reveal_strlit("drops/per_second");
    reveal_strlit("drops/hz");
    reveal_strlit("drops/resonance");
    reveal_strlit("drops/spread_octaves");
    reveal_strlit("drops/level");
    reveal_strlit("bed/level");
    reveal_strlit("bed/hz");
    reveal_strlit("roof/hz");
    reveal_strlit("roof/level");
    reveal_strlit("master/gain");
}

/// Names tell the parameters apart, so looking up a parameter's name gives the parameter.
pub proof fn lemma_rainparamid_names_differ(a: RainParamId, b: RainParamId)
    requires
        a.label() == b.label(),
    ensures
        a == b,
{
    lemma_rainparamid_sign(a);
    lemma_rainparamid_sign(b);
}

impl Params for RainParams {
    open spec fn plain_params() -> RainParams {
        RainParams::plain()
    }

    open spec fn param_count() -> nat {
        RainParamId::COUNT as nat
    }

    open spec fn label_at(i: int) -> Seq<char> {
        RainParamId::all()[i].label()
    }

    open spec fn range_at(i: int) -> ParamKind {
        RainParamId::all()[i].range()
    }

    open spec fn value_at(self, i: int) -> Single {
        self.value(RainParamId::all()[i])
    }

    open spec fn with_at(self, i: int, v: Single) -> RainParams {
        self.with(RainParamId::all()[i], v)
    }

    proof fn lemma_set_at_reads_back(self, i: int, v: Single) {
        lemma_rainparams_set_get(self, RainParamId::all()[i], v);
    }

    proof fn lemma_set_at_keeps_others(self, i: int, j: int, v: Single) {
        assert(RainParamId::all()[i].place() == i);
        assert(RainParamId::all()[j].place() == j);
        lemma_rainparams_set_keeps_others(self, RainParamId::all()[i], RainParamId::all()[j], v);
    }

    fn default_params() -> (r: RainParams) {
        RainParams::default()
    }

    fn count() -> (r: usize) {
        RainParamId::COUNT
    }

    fn name_at(i: usize) -> (r: &'static str) {
        RainParamId::nth(i).name()
    }

    fn kind_at(i: usize) -> (r: ParamKind) {
        RainParamId::nth(i).kind()
    }

    fn get_at(&self, i: usize) -> (r: Single) {
        self.get(RainParamId::nth(i))
    }

    fn set_at(&mut self, i: usize, v: Single) {
        self.set(RainParamId::nth(i), v);
    }
}

/// Rain from drizzle to downpour, in the open or under a roof.
pub struct Rain {
    pub sr: Single,
    pub noise: Noise,
    pub drops: Dust,
    pub patter: Dust,
    pub ping: Vec<Svf>,
    pub next_ping: usize,
    pub roof0: Svf,
    pub roof1: Svf,
    pub bed: Svf,
    pub air: OnePole,
}

/// A [`Rain`] as a value.
#[verifier::ext_equal]
pub struct RainView {
    pub sr: Single,
    pub noise: Noise,
    pub drops: Dust,
    pub patter: Dust,
    pub ping: Seq<Svf>,
    pub next_ping: usize,
    pub roof0: Svf,
    pub roof1: Svf,
    pub bed: Svf,
    pub air: OnePole,
}

impl View for Rain {
    type V = RainView;

    open spec fn view(&self) -> RainView {
        RainView {
            sr: self.sr,
            noise: self.noise,
            drops: self.drops,
            patter: self.patter,
            ping: self.ping@,
            next_ping: self.next_ping,
            roof0: self.roof0,
            roof1: self.roof1,
            bed: self.bed,
            air: self.air,
        }
    }
}

impl Rain {
    pub open spec fn valid(self) -> bool {
        &&& self.ping@.len() == 8
        &&& self.next_ping < 8
    }
}

/// Settings of a control block.
#[derive(Clone, Copy, Debug, PartialEq, Eq, Structural)]
pub struct RainMix {
    pub sr: Single,
    pub drop_p: Single,
    pub patter_p: Single,
    pub air_coef: Single,
    pub drops_gain: Single,
    pub bed_gain: Single,
    pub roof_gain: Single,
}

/// The generator at the start of a control block of `n` samples with inputs `x`, and the settings.
pub open spec fn rain_steered(f: Sums, p: RainParams, x: Seq<Single>, n: Single, s: RainView) -> (RainView, RainMix) {
    let sr = s.sr;
    let i = x[0];
    let shelter = x[1];
    let s = RainView { roof0: s.roof0.tuned(f, FilterMode::BandPass, p.roof_hz, Single::of(P0_9), sr), ..s };
    let s = RainView { roof1: s.roof1.tuned(f, FilterMode::BandPass, f(Prim::Mul, p.roof_hz, Single::of(P1_62)), Single::of(P0_9), sr), ..s };
    let s = RainView { bed: s.bed.tuned(f, FilterMode::BandPass, p.bed_hz, Single::of(P0_15), sr), ..s };
    let drop_p = f(Prim::Div, f(Prim::Mul, f(Prim::Mul, p.density, i), i), sr);
    let patter_p = f(Prim::Div, f(Prim::Mul, f(Prim::Mul, f(Prim::Mul, f(Prim::Mul, p.density, Single::of(P0_2)), i), i), shelter), sr);
    let air_coef = crate::blocks::cutoff_coef(f, f(Prim::Add, Single::of(P18000), f(Prim::Mul, f(Prim::Sub, Single::of(P1200), Single::of(P18000)), shelter)), sr);
    let drops_gain = f(Prim::Mul, p.drops_level, Single::of(TWO));
    let bed_gain = f(Prim::Mul, f(Prim::Mul, p.bed_level, f(Prim::Pow, i, Single::of(P1_5))), Single::of(P1_6));
    let roof_gain = f(Prim::Mul, p.roof_level, Single::of(P5));
    (s, RainMix { sr, drop_p, patter_p, air_coef, drops_gain, bed_gain, roof_gain })
}

fn rain_steer<F: Fn(Prim, Single, Single) -> Single>(fpu: &F, p: RainParams, x: &Vec<Single>, n: Single, s: &mut Rain) -> (r: RainMix)
    requires
        total(*fpu),
        x@.len() == 2,
        old(s).valid(),
    ensures
        final(s).valid(),
        forall|f: Sums| #[trigger] meant(*fpu, f) ==> (final(s)@, r) == rain_steered(f, p, x@, n, old(s)@),
{
    let sr = s.sr;
    let i = x[0];
    let shelter = x[1];
    s.roof0.set(fpu, FilterMode::BandPass, p.roof_hz, Single::of(P0_9), sr);
    s.roof1.set(fpu, FilterMode::BandPass, fpu(Prim::Mul, p.roof_hz, Single::of(P1_62)), Single::of(P0_9), sr);
    s.bed.set(fpu, FilterMode::BandPass, p.bed_hz, Single::of(P0_15), sr);
    let drop_p = fpu(Prim::Div, fpu(Prim::Mul, fpu(Prim::Mul, p.density, i), i), sr);
    let patter_p = fpu(Prim::Div, fpu(Prim::Mul, fpu(Prim::Mul, fpu(Prim::Mul, fpu(Prim::Mul, p.density, Single::of(P0_2)), i), i), shelter), sr);
    let air_coef = hz_coef(fpu, fpu(Prim::Add, Single::of(P18000), fpu(Prim::Mul, fpu(Prim::Sub, Single::of(P1200), Single::of(P18000)), shelter)), sr);
    let drops_gain = fpu(Prim::Mul, p.drops_level, Single::of(TWO));
    let bed_gain = fpu(Prim::Mul, fpu(Prim::Mul, p.bed_level, fpu(Prim::Pow, i, Single::of(P1_5))), Single::of(P1_6));
    let roof_gain = fpu(Prim::Mul, p.roof_level, Single::of(P5));
    RainMix { sr, drop_p, patter_p, air_coef, drops_gain, bed_gain, roof_gain }
}

/// Sum of the first `k` resonators; the one that was hit rings.
pub open spec fn rain_pings_of(f: Sums, which: usize, d: Single, s: RainView, pings: Single, k: nat) -> (RainView, Single)
    decreases k,
{
    if k == 0 {
        (s, pings)
    } else {
        let (s, pings) = rain_pings_of(f, which, d, s, pings, (k - 1) as nat);
        let k = k - 1;
        let hit = (if k == which { d } else { Single::of(ZERO) });
        let rung = s.ping[k].output(f, hit);
        let s = RainView { ping: s.ping.update(k, s.ping[k].fed(f, hit)), ..s };
        let pings = f(Prim::Add, pings, rung);
        (s, pings)
    }
}

fn rain_pings<F: Fn(Prim, Single, Single) -> Single>(fpu: &F, which: usize, d: Single, s: &mut Rain, pings0: Single) -> (r: Single)
    requires
        total(*fpu),
        old(s).valid(),
    ensures
        final(s).valid(),
        forall|f: Sums| #[trigger] meant(*fpu, f) ==> (final(s)@, r) == rain_pings_of(f, which, d, old(s)@, pings0, 8),
{
    let mut pings = pings0;
    let mut k: usize = 0;
    while k < 8
        invariant
            k <= 8,
            total(*fpu),
            s.valid(),
            forall|f: Sums| #[trigger] meant(*fpu, f) ==> (s@, pings) == rain_pings_of(f, which, d, old(s)@, pings0, k as nat),
        decreases 8 - k,
    {
        let hit = (if k == which { d } else { Single::of(ZERO) });
        let mut item = s.ping[k];
        let rung = item.tick(fpu, hit);
        s.ping.set(k, item);
        pings = fpu(Prim::Add, pings, rung);
        k = k + 1;
    }
    pings
}

/// One sample; what was in its place is not heard.
pub open spec fn rain_tick(f: Sums, p: RainParams, m: RainMix, s: RainView, v: Single) -> (RainView, Single) {
    let d = s.drops.impulse(f, m.drop_p);
    let s = RainView { drops: s.drops.ticked(m.drop_p), ..s };
    let which = 8usize;
    let (s, which) = if Single::of(ZERO).below(d) {
        let which = s.next_ping;
        let s = RainView { next_ping: ((s.next_ping + 1) % 8) as usize, ..s };
        let kick = crate::math::bipolar(s.drops.rng.fraction());
        let s = RainView { drops: Dust { rng: s.drops.rng.advanced() }, ..s };
        let hz = f(Prim::Mul, p.drop_hz, f(Prim::Exp2, f(Prim::Mul, kick, p.drop_spread), Single::of(ZERO)));
        let s = RainView { ping: s.ping.update(which as int, s.ping[which as int].tuned(f, FilterMode::BandPass, hz.smaller(f(Prim::Mul, m.sr, Single::of(P0_4))), p.drop_res, m.sr)), ..s };
        (s, which)
    } else {
        (s, which)
    };
    let pings = Single::of(ZERO);
    let (s, pings) = rain_pings_of(f, which, d, s, pings, 8);
    let t = s.patter.impulse(f, m.patter_p);
    let s = RainView { patter: s.patter.ticked(m.patter_p), ..s };
    let r0 = s.roof0.output(f, t);
    let s = RainView { roof0: s.roof0.fed(f, t), ..s };
    let r1 = s.roof1.output(f, t);
    let s = RainView { roof1: s.roof1.fed(f, t), ..s };
    let roof = f(Prim::Add, r0, f(Prim::Mul, Single::of(P0_6), r1));
    let pk = s.noise.pink.output(f, s.noise.draw());
    let s = RainView { noise: Noise { rng: s.noise.rng.advanced(), pink: s.noise.pink.fed(f, s.noise.draw()) }, ..s };
    let bed = s.bed.output(f, pk);
    let s = RainView { bed: s.bed.fed(f, pk), ..s };
    let open_air = f(Prim::Add, f(Prim::Mul, pings, m.drops_gain), f(Prim::Mul, bed, m.bed_gain));
    let heard = s.air.smoothed(f, open_air, m.air_coef);
    let s = RainView { air: OnePole { y: s.air.smoothed(f, open_air, m.air_coef) }, ..s };
    (s, f(Prim::Mul, f(Prim::Mul, f(Prim::Add, heard, f(Prim::Mul, roof, m.roof_gain)), p.gain), Single::of(P1_8)))
}

/// The same for a run of samples.
pub open spec fn rain_run(f: Sums, p: RainParams, m: RainMix, s: RainView, x: Seq<Single>) -> (RainView, Seq<Single>)
    decreases x.len(),
{
    if x.len() == 0 {
        (s, seq![])
    } else {
        let (t, out) = rain_run(f, p, m, s, x.drop_last());
        let (u, y) = rain_tick(f, p, m, t, x.last());
        (u, out.push(y))
    }
}

fn rain_sample<F: Fn(Prim, Single, Single) -> Single>(fpu: &F, p: RainParams, m: RainMix, s: &mut Rain, v: Single) -> (y: Single)
    requires
        total(*fpu),
        old(s).valid(),
    ensures
        final(s).valid(),
        forall|f: Sums| #[trigger] meant(*fpu, f) ==> (final(s)@, y) == rain_tick(f, p, m, old(s)@, v),
{
    let d = s.drops.tick(fpu, m.drop_p);
    let mut which: usize = 8;
    if Single::of(ZERO).lt(d) {
        which = s.next_ping;
        s.next_ping = (s.next_ping + 1) % 8;
        let kick = s.drops.rng.next_bipolar();
        let hz = fpu(Prim::Mul, p.drop_hz, fpu(Prim::Exp2, fpu(Prim::Mul, kick, p.drop_spread), Single::of(ZERO)));
        let mut item = s.ping[which];
        item.set(fpu, FilterMode::BandPass, hz.min(fpu(Prim::Mul, m.sr, Single::of(P0_4))), p.drop_res, m.sr);
        s.ping.set(which, item);
    }
    let mut pings = Single::of(ZERO);
    pings = rain_pings(fpu, which, d, s, pings);
    let t = s.patter.tick(fpu, m.patter_p);
    let r0 = s.roof0.tick(fpu, t);
    let r1 = s.roof1.tick(fpu, t);
    let roof = fpu(Prim::Add, r0, fpu(Prim::Mul, Single::of(P0_6), r1));
    let pk = s.noise.pink(fpu);
    let bed = s.bed.tick(fpu, pk);
    let open_air = fpu(Prim::Add, fpu(Prim::Mul, pings, m.drops_gain), fpu(Prim::Mul, bed, m.bed_gain));
    let heard = s.air.lp(fpu, open_air, m.air_coef);
    fpu(Prim::Mul, fpu(Prim::Mul, fpu(Prim::Add, heard, fpu(Prim::Mul, roof, m.roof_gain)), p.gain), Single::of(P1_8))
}

fn rain_span<F: Fn(Prim, Single, Single) -> Single>(fpu: &F, p: RainParams, m: RainMix, s: &mut Rain, buf: &mut Vec<Single>, start: usize, end: usize)
    requires
        total(*fpu),
        start <= end <= old(buf)@.len(),
        old(s).valid(),
    ensures
        final(buf)@.len() == old(buf)@.len(),
        same_outside(old(buf)@, final(buf)@, start as int, end as int),
        final(s).valid(),
        forall|f: Sums| #[trigger] meant(*fpu, f) ==> (final(s)@, final(buf)@.subrange(start as int, end as int)) == rain_run(
            f, p, m,
            old(s)@,
            old(buf)@.subrange(start as int, end as int),
        ),
{
    let mut i: usize = start;
    let ghost before = buf@;
    assert(before.subrange(start as int, start as int) =~= seq![]);
    while i < end
        invariant
            start <= i <= end <= buf@.len(),
            buf@.len() == before.len(),
            before == old(buf)@,
            same_outside(before, buf@, start as int, i as int),
            total(*fpu),
            s.valid(),
            forall|f: Sums| #[trigger] meant(*fpu, f) ==> (s@, buf@.subrange(start as int, i as int)) == rain_run(
                f, p, m,
                old(s)@,
                before.subrange(start as int, i as int),
            ),
        decreases end - i,
    {
        let ghost last = buf@;
        let y = rain_sample(fpu, p, m, s, buf[i]);
        buf.set(i, y);
        i = i + 1;
        assert(before.subrange(start as int, i as int).drop_last() =~= before.subrange(start as int, i - 1));
        assert(buf@.subrange(start as int, i as int) =~= last.subrange(start as int, i - 1).push(y));
    }
}

/// What the buffer held does not matter.
proof fn lemma_rain_overwrites(f: Sums, p: RainParams, m: RainMix, s: RainView, a: Seq<Single>, b: Seq<Single>)
    requires
        a.len() == b.len(),
    ensures
        rain_run(f, p, m, s, a) == rain_run(f, p, m, s, b),
        rain_run(f, p, m, s, a).1.len() == a.len(),
    decreases a.len(),
{
    if a.len() > 0 {
        lemma_rain_overwrites(f, p, m, s, a.drop_last(), b.drop_last());
    }
}

impl Generator for Rain {
    type P = RainParams;

    type State = RainView;

    open spec fn about() -> ProfileView {
        ProfileView {
            name: "rain"@,
            category: "nature"@,
            doc: "Rain from drizzle to downpour, in the open or under a roof."@,
            smooth_secs: Single::of(P0_05),
            limit: true,
            one_shot: false,
        }
    }

    open spec fn input_list() -> Seq<InputView> {
        seq![
            InputView { name: "intensity"@, default: Single::of(HALF), doc: "Drizzle to downpour"@ },
            InputView { name: "shelter"@, default: Single::of(ZERO), doc: "0 = open air, 1 = under a roof"@ },
        ]
    }

    open spec fn preset_list() -> Seq<(Seq<char>, RainParams)> {
        seq![
            ("Tin roof"@, RainParams { roof_hz: Single::of(P900), roof_level: Single::of(P0_9), drop_res: Single::of(P0_96), ..RainParams::plain() }),
            ("Forest drizzle"@, RainParams { density: Single::of(P300), drop_hz: Single::of(P1700), bed_level: Single::of(P0_3), bed_hz: Single::of(P1500), ..RainParams::plain() }),
            ("Monsoon"@, RainParams { density: Single::of(P3500), bed_level: Single::of(P0_8), drops_level: Single::of(P0_4), bed_hz: Single::of(P3000), ..RainParams::plain() }),
        ]
    }

    open spec fn wf(&self) -> bool {
        self.valid()
    }

    open spec fn state(&self) -> RainView {
        self@
    }

    open spec fn fresh(f: Sums, sample_rate: Single) -> RainView {
        RainView {
            sr: sample_rate,
            noise: Noise::seeded_with(0x51_0001),
            drops: Dust { rng: Rng::seeded_with(0x51_0002) },
            patter: Dust { rng: Rng::seeded_with(0x51_0003) },
            ping: Seq::new(8, |k: int| Svf::silent()),
            next_ping: 0,
            roof0: Svf::silent(),
            roof1: Svf::silent(),
            bed: Svf::silent(),
            air: OnePole { y: Single::of(ZERO) },
        }
    }

    open spec fn snapped(s: RainView, f: Sums, x: Seq<Single>, p: RainParams) -> RainView {
        s
    }

    open spec fn fired(s: RainView, f: Sums, x: Seq<Single>, p: RainParams) -> RainView {
        s
    }

    open spec fn ringing(s: RainView) -> bool {
        true
    }

    open spec fn played(s: RainView, f: Sums, x: Seq<Single>, p: RainParams, out: Seq<Single>) -> (RainView, Seq<Single>) {
        let (t, m) = rain_steered(f, p, x, crate::single::signed_integer(out.len() as int), s);
        rain_run(f, p, m, t, out)
    }

    proof fn lemma_overwrites(s: RainView, f: Sums, x: Seq<Single>, p: RainParams, a: Seq<Single>, b: Seq<Single>) {
        let (t, m) = rain_steered(f, p, x, crate::single::signed_integer(a.len() as int), s);
        lemma_rain_overwrites(f, p, m, t, a, b);
    }

    fn profile() -> (r: Profile) {
        Profile {
            name: "rain",
            category: "nature",
            doc: "Rain from drizzle to downpour, in the open or under a roof.",
            smooth_secs: Single::of(P0_05),
            limit: true,
            one_shot: false,
        }
    }

    fn inputs() -> (r: Vec<InputSpec>) {
        let mut r: Vec<InputSpec> = Vec::new();
        r.push(InputSpec { name: "intensity", default: Single::of(HALF), doc: "Drizzle to downpour" });
        r.push(InputSpec { name: "shelter", default: Single::of(ZERO), doc: "0 = open air, 1 = under a roof" });
        r
    }

    fn presets() -> (r: Vec<(&'static str, RainParams)>) {
        let mut r: Vec<(&'static str, RainParams)> = Vec::new();
        r.push(("Tin roof", RainParams { roof_hz: Single::of(P900), roof_level: Single::of(P0_9), drop_res: Single::of(P0_96), ..RainParams::default() }));
        r.push(("Forest drizzle", RainParams { density: Single::of(P300), drop_hz: Single::of(P1700), bed_level: Single::of(P0_3), bed_hz: Single::of(P1500), ..RainParams::default() }));
        r.push(("Monsoon", RainParams { density: Single::of(P3500), bed_level: Single::of(P0_8), drops_level: Single::of(P0_4), bed_hz: Single::of(P3000), ..RainParams::default() }));
        r
    }

    fn new<F: Fn(Prim, Single, Single) -> Single>(fpu: &F, sample_rate: Single) -> (r: Rain) {
        let mut ping: Vec<Svf> = Vec::new();
        while ping.len() < 8
            invariant
                ping@.len() <= 8,
                forall|k: int| 0 <= k < ping@.len() ==> #[trigger] ping@[k] == Svf::silent(),
            decreases 8 - ping@.len(),
        {
            let k = ping.len();
            ping.push(Svf::default());
        }
        let r = Rain {
            sr: sample_rate,
            noise: Noise::new(0x51_0001),
            drops: Dust::new(0x51_0002),
            patter: Dust::new(0x51_0003),
            ping,
            next_ping: 0,
            roof0: Svf::default(),
            roof1: Svf::default(),
            bed: Svf::default(),
            air: OnePole::default(),
        };
        assert(r@.ping =~= Seq::new(8, |k: int| Svf::silent()));
        r
    }

    fn snap<F: Fn(Prim, Single, Single) -> Single>(&mut self, fpu: &F, x: &Vec<Single>, p: &RainParams) {
    }

    fn trigger<F: Fn(Prim, Single, Single) -> Single>(&mut self, fpu: &F, x: &Vec<Single>, p: &RainParams) {
    }

    fn is_active(&self) -> (r: bool) {
        true
    }

    fn block<F: Fn(Prim, Single, Single) -> Single>(&mut self, fpu: &F, x: &Vec<Single>, p: &RainParams, out: &mut Vec<Single>, start: usize, end: usize) {
        let n = from_i32((end - start) as i32);
        let m = rain_steer(fpu, *p, x, n, self);
        rain_span(fpu, *p, m, self, out, start, end);
    }
}

/// Fire: fluttering low roar, hiss, crackles (short filtered noise bursts) and deeper pops.
#[derive(Clone, Copy, Debug, PartialEq, Eq, Structural)]
pub struct FireParams {
    pub crackle_rate: Single,
    pub crackle_level: Single,
    pub crackle_hz: Single,
    pub pop_level: Single,
    pub roar_level: Single,
    pub roar_hz: Single,
    pub flutter: Single,
    pub hiss_level: Single,
    pub gain: Single,
}

impl FireParams {
    pub open spec fn plain() -> FireParams {
        FireParams {
            crackle_rate: Single::of(P35),
            crackle_level: Single::of(P0_7),
            crackle_hz: Single::of(P2800),
            pop_level: Single::of(HALF),
            roar_level: Single::of(P0_6),
            roar_hz: Single::of(P220),
            flutter: Single::of(HALF),
            hiss_level: Single::of(P0_3),
            gain: Single::of(ONE),
        }
    }
}

impl Default for FireParams {
    fn default() -> (r: FireParams)
        ensures
            r == FireParams::plain(),
    {
        FireParams {
            crackle_rate: Single::of(P35),
            crackle_level: Single::of(P0_7),
            crackle_hz: Single::of(P2800),
            pop_level: Single::of(HALF),
            roar_level: Single::of(P0_6),
            roar_hz: Single::of(P220),
            flutter: Single::of(HALF),
            hiss_level: Single::of(P0_3),
            gain: Single::of(ONE),
        }
    }
}

/// Identifier of every tweakable value in [`FireParams`].
#[derive(Clone, Copy, Debug, PartialEq, Eq, Structural)]
pub enum FireParamId {
    CrackleRate,
    CrackleLevel,
    CrackleHz,
    PopLevel,
    RoarLevel,
    RoarHz,
    Flutter,
    HissLevel,
    Gain,
}

impl FireParamId {
    /// Number of parameters.
    pub const COUNT: usize = 9;

    /// Every parameter, in table order.
    pub open spec fn all() -> Seq<FireParamId> {
        seq![
            FireParamId::CrackleRate,
            FireParamId::CrackleLevel,
            FireParamId::CrackleHz,
            FireParamId::PopLevel,
            FireParamId::RoarLevel,
            FireParamId::RoarHz,
            FireParamId::Flutter,
            FireParamId::HissLevel,
            FireParamId::Gain,
        ]
    }

    /// Place in the table.
    pub open spec fn place(self) -> int {
        match self {
            FireParamId::CrackleRate => 0,
            FireParamId::CrackleLevel => 1,
            FireParamId::CrackleHz => 2,
            FireParamId::PopLevel => 3,
            FireParamId::RoarLevel => 4,
            FireParamId::RoarHz => 5,
            FireParamId::Flutter => 6,
            FireParamId::HissLevel => 7,
            FireParamId::Gain => 8,
        }
    }

    pub open spec fn label(self) -> Seq<char> {
        match self {
            FireParamId::CrackleRate => "crackle/per_second"@,
            FireParamId::CrackleLevel => "crackle/level"@,
            FireParamId::CrackleHz => "crackle/hz"@,
            FireParamId::PopLevel => "crackle/pops"@,
            FireParamId::RoarLevel => "roar/level"@,
            FireParamId::RoarHz => "roar/hz"@,
            FireParamId::Flutter => "roar/flutter"@,
            FireParamId::HissLevel => "hiss/level"@,
            FireParamId::Gain => "master/gain"@,
        }
    }

    pub open spec fn range(self) -> ParamKind {
        match self {
            FireParamId::CrackleRate => ParamKind::Exp { min: Single::of(ONE), max: Single::of(P400) },
            FireParamId::CrackleLevel => ParamKind::Float { min: Single::of(ZERO), max: Single::of(ONE), step: Single::of(P0_001) },
            FireParamId::CrackleHz => ParamKind::Exp { min: Single::of(P600), max: Single::of(P8000) },
            FireParamId::PopLevel => ParamKind::Float { min: Single::of(ZERO), max: Single::of(ONE), step: Single::of(P0_001) },
            FireParamId::RoarLevel => ParamKind::Float { min: Single::of(ZERO), max: Single::of(ONE), step: Single::of(P0_001) },
            FireParamId::RoarHz => ParamKind::Exp { min: Single::of(P60), max: Single::of(P1200) },
            FireParamId::Flutter => ParamKind::Float { min: Single::of(ZERO), max: Single::of(ONE), step: Single::of(P0_001) },
            FireParamId::HissLevel => ParamKind::Float { min: Single::of(ZERO), max: Single::of(ONE), step: Single::of(P0_001) },
            FireParamId::Gain => ParamKind::Float { min: Single::of(ZERO), max: Single::of(TWO), step: Single::of(P0_001) },
        }
    }

    /// The parameter at a place of the table, if there is one.
    pub fn from_index(i: usize) -> (r: Option<FireParamId>)
        ensures
            r == if i < 9 {
                Some(FireParamId::all()[i as int])
            } else {
                None
            },
    {
        if i < 9 {
            Some(FireParamId::nth(i))
        } else {
            None
        }
    }

    /// The parameter at a place of the table.
    pub fn nth(i: usize) -> (r: FireParamId)
        requires
            i < 9,
        ensures
            r == FireParamId::all()[i as int],
            r.place() == i,
    {
        match i {
            0 => FireParamId::CrackleRate,
            1 => FireParamId::CrackleLevel,
            2 => FireParamId::CrackleHz,
            3 => FireParamId::PopLevel,
            4 => FireParamId::RoarLevel,
            5 => FireParamId::RoarHz,
            6 => FireParamId::Flutter,
            7 => FireParamId::HissLevel,
            _ => FireParamId::Gain,
        }
    }

    pub fn index(self) -> (r: usize)
        ensures
            r == self.place(),
            r < 9,
    {
        match self {
            FireParamId::CrackleRate => 0,
            FireParamId::CrackleLevel => 1,
            FireParamId::CrackleHz => 2,
            FireParamId::PopLevel => 3,
            FireParamId::RoarLevel => 4,
            FireParamId::RoarHz => 5,
            FireParamId::Flutter => 6,
            FireParamId::HissLevel => 7,
            FireParamId::Gain => 8,
        }
    }

    pub fn name(self) -> (r: &'static str)
        ensures
            r@ == self.label(),
    {
        match self {
            FireParamId::CrackleRate => "crackle/per_second",
            FireParamId::CrackleLevel => "crackle/level",
            FireParamId::CrackleHz => "crackle/hz",
            FireParamId::PopLevel => "crackle/pops",
            FireParamId::RoarLevel => "roar/level",
            FireParamId::RoarHz => "roar/hz",
            FireParamId::Flutter => "roar/flutter",
            FireParamId::HissLevel => "hiss/level",
            FireParamId::Gain => "master/gain",
        }
    }

    pub fn kind(self) -> (r: ParamKind)
        ensures
            r == self.range(),
            r.wf(),
    {
        match self {
            FireParamId::CrackleRate => ParamKind::Exp { min: Single::of(ONE), max: Single::of(P400) },
            FireParamId::CrackleLevel => ParamKind::Float { min: Single::of(ZERO), max: Single::of(ONE), step: Single::of(P0_001) },
            FireParamId::CrackleHz => ParamKind::Exp { min: Single::of(P600), max: Single::of(P8000) },
            FireParamId::PopLevel => ParamKind::Float { min: Single::of(ZERO), max: Single::of(ONE), step: Single::of(P0_001) },
            FireParamId::RoarLevel => ParamKind::Float { min: Single::of(ZERO), max: Single::of(ONE), step: Single::of(P0_001) },
            FireParamId::RoarHz => ParamKind::Exp { min: Single::of(P60), max: Single::of(P1200) },
            FireParamId::Flutter => ParamKind::Float { min: Single::of(ZERO), max: Single::of(ONE), step: Single::of(P0_001) },
            FireParamId::HissLevel => ParamKind::Float { min: Single::of(ZERO), max: Single::of(ONE), step: Single::of(P0_001) },
            FireParamId::Gain => ParamKind::Float { min: Single::of(ZERO), max: Single::of(TWO), step: Single::of(P0_001) },
        }
    }

    /// The parameter with a name.
    pub fn from_name(name: &str) -> (r: Option<FireParamId>)
        ensures
            match r {
                Some(id) => id.label() == name@,
                None => forall|id: FireParamId| (#[trigger] id.label()) != name@,
            },
    {
        let mut i: usize = 0;
        while i < 9
            invariant
                i <= 9,
                forall|id: FireParamId| id.place() < i ==> (#[trigger] id.label()) != name@,
            decreases 9 - i,
        {
            let id = FireParamId::nth(i);
            if equal(id.name(), name) {
                return Some(id);
            }
            proof {
                assert forall|other: FireParamId| other.place() < i + 1 implies (#[trigger] other.label()) != name@ by {
                    if other.place() == i {
                        assert(FireParamId::all()[other.place()] == other);
                    }
                }
            }
            i = i + 1;
        }
        None
    }
}

impl FireParams {
    /// Value of a parameter; names count by their index.
    pub open spec fn value(self, id: FireParamId) -> Single {
        match id {
            FireParamId::CrackleRate => self.crackle_rate,
            FireParamId::CrackleLevel => self.crackle_level,
            FireParamId::CrackleHz => self.crackle_hz,
            FireParamId::PopLevel => self.pop_level,
            FireParamId::RoarLevel => self.roar_level,
            FireParamId::RoarHz => self.roar_hz,
            FireParamId::Flutter => self.flutter,
            FireParamId::HissLevel => self.hiss_level,
            FireParamId::Gain => self.gain,
        }
    }

    /// With a parameter set to the nearest value it can take.
    pub open spec fn with(self, id: FireParamId, v: Single) -> FireParams {
        match id {
            FireParamId::CrackleRate => FireParams { crackle_rate: id.range().clamped(v), ..self },
            FireParamId::CrackleLevel => FireParams { crackle_level: id.range().clamped(v), ..self },
            FireParamId::CrackleHz => FireParams { crackle_hz: id.range().clamped(v), ..self },
            FireParamId::PopLevel => FireParams { pop_level: id.range().clamped(v), ..self },
            FireParamId::RoarLevel => FireParams { roar_level: id.range().clamped(v), ..self },
            FireParamId::RoarHz => FireParams { roar_hz: id.range().clamped(v), ..self },
            FireParamId::Flutter => FireParams { flutter: id.range().clamped(v), ..self },
            FireParamId::HissLevel => FireParams { hiss_level: id.range().clamped(v), ..self },
            FireParamId::Gain => FireParams { gain: id.range().clamped(v), ..self },
        }
    }

    pub fn get(&self, id: FireParamId) -> (r: Single)
        ensures
            r == self.value(id),
    {
        match id {
            FireParamId::CrackleRate => self.crackle_rate,
            FireParamId::CrackleLevel => self.crackle_level,
            FireParamId::CrackleHz => self.crackle_hz,
            FireParamId::PopLevel => self.pop_level,
            FireParamId::RoarLevel => self.roar_level,
            FireParamId::RoarHz => self.roar_hz,
            FireParamId::Flutter => self.flutter,
            FireParamId::HissLevel => self.hiss_level,
            FireParamId::Gain => self.gain,
        }
    }

    /// Set a parameter to the nearest value it can take; what is no number is ignored.
    pub fn set(&mut self, id: FireParamId, v: Single)
        ensures
            *final(self) == if v.finite() {
                old(self).with(id, v)
            } else {
                *old(self)
            },
    {
        if !v.is_finite() {
            return;
        }
        match id {
            FireParamId::CrackleRate => {
                self.crackle_rate = id.kind().clamp(v);
            },
            FireParamId::CrackleLevel => {
                self.crackle_level = id.kind().clamp(v);
            },
            FireParamId::CrackleHz => {
                self.crackle_hz = id.kind().clamp(v);
            },
            FireParamId::PopLevel => {
                self.pop_level = id.kind().clamp(v);
            },
            FireParamId::RoarLevel => {
                self.roar_level = id.kind().clamp(v);
            },
            FireParamId::RoarHz => {
                self.roar_hz = id.kind().clamp(v);
            },
            FireParamId::Flutter => {
                self.flutter = id.kind().clamp(v);
            },
            FireParamId::HissLevel => {
                self.hiss_level = id.kind().clamp(v);
            },
            FireParamId::Gain => {
                self.gain = id.kind().clamp(v);
            },
        }
    }
}

/// A parameter that was set has the nearest value it can take.
pub proof fn lemma_fireparams_set_get(p: FireParams, id: FireParamId, v: Single)
    requires
        v.finite(),
    ensures
        p.with(id, v).value(id) == id.range().clamped(v),
{
}


/// Setting a parameter leaves every other one what it was.
#[verifier::rlimit(30)]
pub proof fn lemma_fireparams_set_keeps_others(p: FireParams, id: FireParamId, other: FireParamId, v: Single)
    requires
        other != id,
    ensures
        p.with(id, v).value(other) == p.value(other),
{
}

/// Length and some letters of a name.
spec fn fireparamid_sign(id: FireParamId) -> (int, char) {
    match id {
        FireParamId::CrackleRate => (18, 'c'),
        FireParamId::CrackleLevel => (13, 'c'),
        FireParamId::CrackleHz => (10, 'c'),
        FireParamId::PopLevel => (12, 'c'),
        FireParamId::RoarLevel => (10, 'r'),
        FireParamId::RoarHz => (7, 'r'),
        FireParamId::Flutter => (12, 'r'),
        FireParamId::HissLevel => (10, 'h'),
        FireParamId::Gain => (11, 'm'),
    }
}

#[verifier::rlimit(60)]
proof fn lemma_fireparamid_sign(id: FireParamId)
    ensures
        id.label().len() == fireparamid_sign(id).0,
        fireparamid_sign(id).0 > 0 ==> id.label()[0] == fireparamid_sign(id).1,
{
    reveal_strlit("crackle/per_second");
    reveal_strlit("crackle/level");
    reveal_strlit("crackle/hz");
    reveal_strlit("crackle/pops");
    reveal_strlit("roar/level");
    reveal_strlit("roar/hz");
    reveal_strlit("roar/flutter");
    reveal_strlit("hiss/level");
    reveal_strlit("master/gain");
}

/// Names tell the parameters apart, so looking up a parameter's name gives the parameter.
pub proof fn lemma_fireparamid_names_differ(a: FireParamId, b: FireParamId)
    requires
        a.label() == b.label(),
    ensures
        a == b,
{
    lemma_fireparamid_sign(a);
    lemma_fireparamid_sign(b);
}

impl Params for FireParams {
    open spec fn plain_params() -> FireParams {
        FireParams::plain()
    }

    open spec fn param_count() -> nat {
        FireParamId::COUNT as nat
    }

    open spec fn label_at(i: int) -> Seq<char> {
        FireParamId::all()[i].label()
    }

    open spec fn range_at(i: int) -> ParamKind {
        FireParamId::all()[i].range()
    }

    open spec fn value_at(self, i: int) -> Single {
        self.value(FireParamId::all()[i])
    }

    open spec fn with_at(self, i: int, v: Single) -> FireParams {
        self.with(FireParamId::all()[i], v)
    }

    proof fn lemma_set_at_reads_back(self, i: int, v: Single) {
        lemma_fireparams_set_get(self, FireParamId::all()[i], v);
    }

    proof fn lemma_set_at_keeps_others(self, i: int, j: int, v: Single) {
        assert(FireParamId::all()[i].place() == i);
        assert(FireParamId::all()[j].place() == j);
        lemma_fireparams_set_keeps_others(self, FireParamId::all()[i], FireParamId::all()[j], v);
    }

    fn default_params() -> (r: FireParams) {
        FireParams::default()
    }

    fn count() -> (r: usize) {
        FireParamId::COUNT
    }

    fn name_at(i: usize) -> (r: &'static str) {
        FireParamId::nth(i).name()
    }

    fn kind_at(i: usize) -> (r: ParamKind) {
        FireParamId::nth(i).kind()
    }

    fn get_at(&self, i: usize) -> (r: Single) {
        self.get(FireParamId::nth(i))
    }

    fn set_at(&mut self, i: usize, v: Single) {
        self.set(FireParamId::nth(i), v);
    }
}

/// Campfire to inferno: roar, hiss, crackle and pops; wind fans the flames.
#[derive(Clone, Copy, Debug, PartialEq, Eq, Structural)]
pub struct Fire {
    pub sr: Single,
    pub noise: Noise,
    pub brown: Brown,
    pub crackles: Dust,
    pub pops: Dust,
    pub env: Single,
    pub crack: Svf,
    pub pop: Svf,
    pub roar: Svf,
    pub hiss: Svf,
    pub flutter: SlowNoise,
    pub tone: SlowNoise,
}

/// Settings of a control block.
#[derive(Clone, Copy, Debug, PartialEq, Eq, Structural)]
pub struct FireMix {
    pub crackle_p: Single,
    pub pop_p: Single,
    pub decay: Single,
    pub crackle_gain: Single,
    pub pop_gain: Single,
    pub roar_gain: Single,
    pub hiss_gain: Single,
}

/// The generator at the start of a control block of `n` samples with inputs `x`, and the settings.
pub open spec fn fire_steered(f: Sums, p: FireParams, x: Seq<Single>, n: Single, s: Fire) -> (Fire, FireMix) {
    let sr = s.sr;
    let dt = f(Prim::Div, n, sr);
    let i = x[0];
    let wind = x[1];
    let wave = s.flutter.advanced(f, f(Prim::Add, Single::of(P5), f(Prim::Mul, Single::of(P10), wind)), dt).level(f);
    let s = Fire { flutter: s.flutter.advanced(f, f(Prim::Add, Single::of(P5), f(Prim::Mul, Single::of(P10), wind)), dt), ..s };
    let fl = f(Prim::Add, Single::of(ONE), f(Prim::Mul, f(Prim::Mul, p.flutter, Single::of(P0_6)), wave));
    let s = Fire { roar: s.roar.tuned(f, FilterMode::LowPass, f(Prim::Mul, f(Prim::Mul, p.roar_hz, f(Prim::Add, Single::of(P0_6), f(Prim::Mul, Single::of(P0_9), i))), f(Prim::Add, Single::of(ONE), f(Prim::Mul, Single::of(HALF), wind))), Single::of(P0_25), sr), ..s };
    let s = Fire { hiss: s.hiss.tuned(f, FilterMode::HighPass, Single::of(P4000), Single::of(P0_1), sr), ..s };
    let colour = s.tone.advanced(f, Single::of(P30), dt).level(f);
    let s = Fire { tone: s.tone.advanced(f, Single::of(P30), dt), ..s };
    let s = Fire { crack: s.crack.tuned(f, FilterMode::BandPass, f(Prim::Mul, p.crackle_hz, f(Prim::Exp2, f(Prim::Mul, Single::of(P0_8), colour), Single::of(ZERO))), Single::of(HALF), sr), ..s };
    let s = Fire { pop: s.pop.tuned(f, FilterMode::BandPass, Single::of(P260), Single::of(P0_85), sr), ..s };
    let crackle_p = f(Prim::Div, f(Prim::Mul, p.crackle_rate, f(Prim::Add, Single::of(P0_15), f(Prim::Mul, Single::of(P0_85), i))), sr);
    let pop_p = f(Prim::Mul, crackle_p, Single::of(P0_08));
    let decay = f(Prim::Exp, f(Prim::Div, Single::of(N1), f(Prim::Mul, Single::of(P0_004), sr)), Single::of(ZERO));
    let crackle_gain = f(Prim::Mul, p.crackle_level, Single::of(P4));
    let pop_gain = f(Prim::Mul, p.pop_level, Single::of(THREE));
    let roar_gain = f(Prim::Mul, f(Prim::Mul, f(Prim::Mul, p.roar_level, i), Single::of(P2_5)), fl);
    let hiss_gain = f(Prim::Mul, f(Prim::Mul, f(Prim::Mul, p.hiss_level, Single::of(P0_2)), i), f(Prim::Add, Single::of(HALF), f(Prim::Mul, Single::of(HALF), fl)));
    (s, FireMix { crackle_p, pop_p, decay, crackle_gain, pop_gain, roar_gain, hiss_gain })
}

fn fire_steer<F: Fn(Prim, Single, Single) -> Single>(fpu: &F, p: FireParams, x: &Vec<Single>, n: Single, s: &mut Fire) -> (r: FireMix)
    requires
        total(*fpu),
        x@.len() == 2,
    ensures
        forall|f: Sums| #[trigger] meant(*fpu, f) ==> (*final(s), r) == fire_steered(f, p, x@, n, *old(s)),
{
    let sr = s.sr;
    let dt = fpu(Prim::Div, n, sr);
    let i = x[0];
    let wind = x[1];
    let wave = s.flutter.advance(fpu, fpu(Prim::Add, Single::of(P5), fpu(Prim::Mul, Single::of(P10), wind)), dt);
    let fl = fpu(Prim::Add, Single::of(ONE), fpu(Prim::Mul, fpu(Prim::Mul, p.flutter, Single::of(P0_6)), wave));
    s.roar.set(fpu, FilterMode::LowPass, fpu(Prim::Mul, fpu(Prim::Mul, p.roar_hz, fpu(Prim::Add, Single::of(P0_6), fpu(Prim::Mul, Single::of(P0_9), i))), fpu(Prim::Add, Single::of(ONE), fpu(Prim::Mul, Single::of(HALF), wind))), Single::of(P0_25), sr);
    s.hiss.set(fpu, FilterMode::HighPass, Single::of(P4000), Single::of(P0_1), sr);
    let colour = s.tone.advance(fpu, Single::of(P30), dt);
    s.crack.set(fpu, FilterMode::BandPass, fpu(Prim::Mul, p.crackle_hz, fpu(Prim::Exp2, fpu(Prim::Mul, Single::of(P0_8), colour), Single::of(ZERO))), Single::of(HALF), sr);
    s.pop.set(fpu, FilterMode::BandPass, Single::of(P260), Single::of(P0_85), sr);
    let crackle_p = fpu(Prim::Div, fpu(Prim::Mul, p.crackle_rate, fpu(Prim::Add, Single::of(P0_15), fpu(Prim::Mul, Single::of(P0_85), i))), sr);
    let pop_p = fpu(Prim::Mul, crackle_p, Single::of(P0_08));
    let decay = fpu(Prim::Exp, fpu(Prim::Div, Single::of(N1), fpu(Prim::Mul, Single::of(P0_004), sr)), Single::of(ZERO));
    let crackle_gain = fpu(Prim::Mul, p.crackle_level, Single::of(P4));
    let pop_gain = fpu(Prim::Mul, p.pop_level, Single::of(THREE));
    let roar_gain = fpu(Prim::Mul, fpu(Prim::Mul, fpu(Prim::Mul, p.roar_level, i), Single::of(P2_5)), fl);
    let hiss_gain = fpu(Prim::Mul, fpu(Prim::Mul, fpu(Prim::Mul, p.hiss_level, Single::of(P0_2)), i), fpu(Prim::Add, Single::of(HALF), fpu(Prim::Mul, Single::of(HALF), fl)));
    FireMix { crackle_p, pop_p, decay, crackle_gain, pop_gain, roar_gain, hiss_gain }
}

/// One sample; what was in its place is not heard.
pub open spec fn fire_tick(f: Sums, p: FireParams, m: FireMix, s: Fire, v: Single) -> (Fire, Single) {
    let w = s.noise.draw();
    let s = Fire { noise: Noise { rng: s.noise.rng.advanced(), ..s.noise }, ..s };
    let d = s.crackles.impulse(f, m.crackle_p);
    let s = Fire { crackles: s.crackles.ticked(m.crackle_p), ..s };
    let s = if Single::of(ZERO).below(d) {
        let s = Fire { env: s.env.larger(d), ..s };
        s
    } else {
        s
    };
    let s = Fire { env: f(Prim::Mul, s.env, m.decay), ..s };
    let cracked = s.crack.output(f, f(Prim::Mul, w, s.env));
    let s = Fire { crack: s.crack.fed(f, f(Prim::Mul, w, s.env)), ..s };
    let popped = s.pops.impulse(f, m.pop_p);
    let s = Fire { pops: s.pops.ticked(m.pop_p), ..s };
    let thud = s.pop.output(f, popped);
    let s = Fire { pop: s.pop.fed(f, popped), ..s };
    let br = s.brown.sound(f, w);
    let s = Fire { brown: Brown { y: s.brown.integrated(f, w) }, ..s };
    let lo = s.roar.output(f, br);
    let s = Fire { roar: s.roar.fed(f, br), ..s };
    let hi = s.hiss.output(f, w);
    let s = Fire { hiss: s.hiss.fed(f, w), ..s };
    let y = f(Prim::Add, f(Prim::Add, f(Prim::Add, f(Prim::Mul, cracked, m.crackle_gain), f(Prim::Mul, thud, m.pop_gain)), f(Prim::Mul, lo, m.roar_gain)), f(Prim::Mul, hi, m.hiss_gain));
    (s, f(Prim::Mul, y, p.gain))
}

/// The same for a run of samples.
pub open spec fn fire_run(f: Sums, p: FireParams, m: FireMix, s: Fire, x: Seq<Single>) -> (Fire, Seq<Single>)
    decreases x.len(),
{
    if x.len() == 0 {
        (s, seq![])
    } else {
        let (t, out) = fire_run(f, p, m, s, x.drop_last());
        let (u, y) = fire_tick(f, p, m, t, x.last());
        (u, out.push(y))
    }
}

fn fire_sample<F: Fn(Prim, Single, Single) -> Single>(fpu: &F, p: FireParams, m: FireMix, s: &mut Fire, v: Single) -> (y: Single)
    requires
        total(*fpu),
    ensures
        forall|f: Sums| #[trigger] meant(*fpu, f) ==> (*final(s), y) == fire_tick(f, p, m, *old(s), v),
{
    let w = s.noise.white();
    let d = s.crackles.tick(fpu, m.crackle_p);
    if Single::of(ZERO).lt(d) {
        s.env = s.env.max(d);
    }
    s.env = fpu(Prim::Mul, s.env, m.decay);
    let cracked = s.crack.tick(fpu, fpu(Prim::Mul, w, s.env));
    let popped = s.pops.tick(fpu, m.pop_p);
    let thud = s.pop.tick(fpu, popped);
    let br = s.brown.tick(fpu, w);
    let lo = s.roar.tick(fpu, br);
    let hi = s.hiss.tick(fpu, w);
    let y = fpu(Prim::Add, fpu(Prim::Add, fpu(Prim::Add, fpu(Prim::Mul, cracked, m.crackle_gain), fpu(Prim::Mul, thud, m.pop_gain)), fpu(Prim::Mul, lo, m.roar_gain)), fpu(Prim::Mul, hi, m.hiss_gain));
    fpu(Prim::Mul, y, p.gain)
}

fn fire_span<F: Fn(Prim, Single, Single) -> Single>(fpu: &F, p: FireParams, m: FireMix, s: &mut Fire, buf: &mut Vec<Single>, start: usize, end: usize)
    requires
        total(*fpu),
        start <= end <= old(buf)@.len(),
    ensures
        final(buf)@.len() == old(buf)@.len(),
        same_outside(old(buf)@, final(buf)@, start as int, end as int),
        forall|f: Sums| #[trigger] meant(*fpu, f) ==> (*final(s), final(buf)@.subrange(start as int, end as int)) == fire_run(
            f, p, m,
            *old(s),
            old(buf)@.subrange(start as int, end as int),
        ),
{
    let mut i: usize = start;
    let ghost before = buf@;
    assert(before.subrange(start as int, start as int) =~= seq![]);
    while i < end
        invariant
            start <= i <= end <= buf@.len(),
            buf@.len() == before.len(),
            before == old(buf)@,
            same_outside(before, buf@, start as int, i as int),
            total(*fpu),
            forall|f: Sums| #[trigger] meant(*fpu, f) ==> (*s, buf@.subrange(start as int, i as int)) == fire_run(
                f, p, m,
                *old(s),
                before.subrange(start as int, i as int),
            ),
        decreases end - i,
    {
        let ghost last = buf@;
        let y = fire_sample(fpu, p, m, s, buf[i]);
        buf.set(i, y);
        i = i + 1;
        assert(before.subrange(start as int, i as int).drop_last() =~= before.subrange(start as int, i - 1));
        assert(buf@.subrange(start as int, i as int) =~= last.subrange(start as int, i - 1).push(y));
    }
}

/// What the buffer held does not matter.
proof fn lemma_fire_overwrites(f: Sums, p: FireParams, m: FireMix, s: Fire, a: Seq<Single>, b: Seq<Single>)
    requires
        a.len() == b.len(),
    ensures
        fire_run(f, p, m, s, a) == fire_run(f, p, m, s, b),
        fire_run(f, p, m, s, a).1.len() == a.len(),
    decreases a.len(),
{
    if a.len() > 0 {
        lemma_fire_overwrites(f, p, m, s, a.drop_last(), b.drop_last());
    }
}

impl Generator for Fire {
    type P = FireParams;

    type State = Fire;

    open spec fn about() -> ProfileView {
        ProfileView {
            name: "fire"@,
            category: "nature"@,
            doc: "Campfire to inferno: roar, hiss, crackle and pops; wind fans the flames."@,
            smooth_secs: Single::of(P0_05),
            limit: true,
            one_shot: false,
        }
    }

    open spec fn input_list() -> Seq<InputView> {
        seq![
            InputView { name: "intensity"@, default: Single::of(HALF), doc: "Embers to blaze"@ },
            InputView { name: "wind"@, default: Single::of(ZERO), doc: "Fans the fire: brighter, faster flutter"@ },
        ]
    }

    open spec fn preset_list() -> Seq<(Seq<char>, FireParams)> {
        seq![
            ("Campfire"@, FireParams { crackle_rate: Single::of(P22), roar_level: Single::of(P0_35), hiss_level: Single::of(P0_2), pop_level: Single::of(P0_7), ..FireParams::plain() }),
            ("Torch"@, FireParams { crackle_rate: Single::of(P8), crackle_level: Single::of(P0_3), roar_hz: Single::of(P380), flutter: Single::of(P0_9), roar_level: Single::of(P0_7), ..FireParams::plain() }),
            ("Inferno"@, FireParams { crackle_rate: Single::of(P120), roar_level: Single::of(ONE), roar_hz: Single::of(P160), hiss_level: Single::of(P0_6), ..FireParams::plain() }),
        ]
    }

    open spec fn wf(&self) -> bool {
        true
    }

    open spec fn state(&self) -> Fire {
        *self
    }

    open spec fn fresh(f: Sums, sample_rate: Single) -> Fire {
        Fire {
            sr: sample_rate,
            noise: Noise::seeded_with(0x52_0001),
            brown: Brown { y: Single::of(ZERO) },
            crackles: Dust { rng: Rng::seeded_with(0x52_0002) },
            pops: Dust { rng: Rng::seeded_with(0x52_0003) },
            env: Single::of(ZERO),
            crack: Svf::silent(),
            pop: Svf::silent(),
            roar: Svf::silent(),
            hiss: Svf::silent(),
            flutter: SlowNoise::seeded_with(0x52_0004),
            tone: SlowNoise::seeded_with(0x52_0005),
        }
    }

    open spec fn snapped(s: Fire, f: Sums, x: Seq<Single>, p: FireParams) -> Fire {
        s
    }

    open spec fn fired(s: Fire, f: Sums, x: Seq<Single>, p: FireParams) -> Fire {
        s
    }

    open spec fn ringing(s: Fire) -> bool {
        true
    }

    open spec fn played(s: Fire, f: Sums, x: Seq<Single>, p: FireParams, out: Seq<Single>) -> (Fire, Seq<Single>) {
        let (t, m) = fire_steered(f, p, x, crate::single::signed_integer(out.len() as int), s);
        fire_run(f, p, m, t, out)
    }

    proof fn lemma_overwrites(s: Fire, f: Sums, x: Seq<Single>, p: FireParams, a: Seq<Single>, b: Seq<Single>) {
        let (t, m) = fire_steered(f, p, x, crate::single::signed_integer(a.len() as int), s);
        lemma_fire_overwrites(f, p, m, t, a, b);
    }

    fn profile() -> (r: Profile) {
        Profile {
            name: "fire",
            category: "nature",
            doc: "Campfire to inferno: roar, hiss, crackle and pops; wind fans the flames.",
            smooth_secs: Single::of(P0_05),
            limit: true,
            one_shot: false,
        }
    }

    fn inputs() -> (r: Vec<InputSpec>) {
        let mut r: Vec<InputSpec> = Vec::new();
        r.push(InputSpec { name: "intensity", default: Single::of(HALF), doc: "Embers to blaze" });
        r.push(InputSpec { name: "wind", default: Single::of(ZERO), doc: "Fans the fire: brighter, faster flutter" });
        r
    }

    fn presets() -> (r: Vec<(&'static str, FireParams)>) {
        let mut r: Vec<(&'static str, FireParams)> = Vec::new();
        r.push(("Campfire", FireParams { crackle_rate: Single::of(P22), roar_level: Single::of(P0_35), hiss_level: Single::of(P0_2), pop_level: Single::of(P0_7), ..FireParams::default() }));
        r.push(("Torch", FireParams { crackle_rate: Single::of(P8), crackle_level: Single::of(P0_3), roar_hz: Single::of(P380), flutter: Single::of(P0_9), roar_level: Single::of(P0_7), ..FireParams::default() }));
        r.push(("Inferno", FireParams { crackle_rate: Single::of(P120), roar_level: Single::of(ONE), roar_hz: Single::of(P160), hiss_level: Single::of(P0_6), ..FireParams::default() }));
        r
    }

    fn new<F: Fn(Prim, Single, Single) -> Single>(fpu: &F, sample_rate: Single) -> (r: Fire) {
        let r = Fire {
            sr: sample_rate,
            noise: Noise::new(0x52_0001),
            brown: Brown::default(),
            crackles: Dust::new(0x52_0002),
            pops: Dust::new(0x52_0003),
            env: Single::of(ZERO),
            crack: Svf::default(),
            pop: Svf::default(),
            roar: Svf::default(),
            hiss: Svf::default(),
            flutter: SlowNoise::new(0x52_0004),
            tone: SlowNoise::new(0x52_0005),
        };
        r
    }

    fn snap<F: Fn(Prim, Single, Single) -> Single>(&mut self, fpu: &F, x: &Vec<Single>, p: &FireParams) {
    }

    fn trigger<F: Fn(Prim, Single, Single) -> Single>(&mut self, fpu: &F, x: &Vec<Single>, p: &FireParams) {
    }

    fn is_active(&self) -> (r: bool) {
        true
    }

    fn block<F: Fn(Prim, Single, Single) -> Single>(&mut self, fpu: &F, x: &Vec<Single>, p: &FireParams, out: &mut Vec<Single>, start: usize, end: usize) {
        let n = from_i32((end - start) as i32);
        let m = fire_steer(fpu, *p, x, n, self);
        fire_span(fpu, *p, m, self, out, start, end);
    }
}

/// Running water as a swarm of bubbles: each is a short sine chirp that rises in pitch.
#[derive(Clone, Copy, Debug, PartialEq, Eq, Structural)]
pub struct StreamParams {
    pub bubble_rate: Single,
    pub bubble_hz: Single,
    pub spread: Single,
    pub rise: Single,
    pub decay_ms: Single,
    pub bubbles_level: Single,
    pub wash_level: Single,
    pub wash_hz: Single,
    pub gain: Single,
}

impl StreamParams {
    pub open spec fn plain() -> StreamParams {
        StreamParams {
            bubble_rate: Single::of(P340),
            bubble_hz: Single::of(P1100),
            spread: Single::of(ONE),
            rise: Single::of(P0_35),
            decay_ms: Single::of(P9),
            bubbles_level: Single::of(P0_7),
            wash_level: Single::of(P0_55),
            wash_hz: Single::of(P1800),
            gain: Single::of(ONE),
        }
    }
}

impl Default for StreamParams {
    fn default() -> (r: StreamParams)
        ensures
            r == StreamParams::plain(),
    {
        StreamParams {
            bubble_rate: Single::of(P340),
            bubble_hz: Single::of(P1100),
            spread: Single::of(ONE),
            rise: Single::of(P0_35),
            decay_ms: Single::of(P9),
            bubbles_level: Single::of(P0_7),
            wash_level: Single::of(P0_55),
            wash_hz: Single::of(P1800),
            gain: Single::of(ONE),
        }
    }
}

/// Identifier of every tweakable value in [`StreamParams`].
#[derive(Clone, Copy, Debug, PartialEq, Eq, Structural)]
pub enum StreamParamId {
    BubbleRate,
    BubbleHz,
    Spread,
    Rise,
    DecayMs,
    BubblesLevel,
    WashLevel,
    WashHz,
    Gain,
}

impl StreamParamId {
    /// Number of parameters.
    pub const COUNT: usize = 9;

    /// Every parameter, in table order.
    pub open spec fn all() -> Seq<StreamParamId> {
        seq![
            StreamParamId::BubbleRate,
            StreamParamId::BubbleHz,
            StreamParamId::Spread,
            StreamParamId::Rise,
            StreamParamId::DecayMs,
            StreamParamId::BubblesLevel,
            StreamParamId::WashLevel,
            StreamParamId::WashHz,
            StreamParamId::Gain,
        ]
    }

    /// Place in the table.
    pub open spec fn place(self) -> int {
        match self {
            StreamParamId::BubbleRate => 0,
            StreamParamId::BubbleHz => 1,
            StreamParamId::Spread => 2,
            StreamParamId::Rise => 3,
            StreamParamId::DecayMs => 4,
            StreamParamId::BubblesLevel => 5,
            StreamParamId::WashLevel => 6,
            StreamParamId::WashHz => 7,
            StreamParamId::Gain => 8,
        }
    }

    pub open spec fn label(self) -> Seq<char> {
        match self {
            StreamParamId::BubbleRate => "bubbles/per_second"@,
            StreamParamId::BubbleHz => "bubbles/hz"@,
            StreamParamId::Spread => "bubbles/spread_octaves"@,
            StreamParamId::Rise => "bubbles/rise"@,
            StreamParamId::DecayMs => "bubbles/decay_ms"@,
            StreamParamId::BubblesLevel => "bubbles/level"@,
            StreamParamId::WashLevel => "wash/level"@,
            StreamParamId::WashHz => "wash/hz"@,
            StreamParamId::Gain => "master/gain"@,
        }
    }

    pub open spec fn range(self) -> ParamKind {
        match self {
            StreamParamId::BubbleRate => ParamKind::Exp { min: Single::of(P5), max: Single::of(P1500) },
            StreamParamId::BubbleHz => ParamKind::Exp { min: Single::of(P200), max: Single::of(P5000) },
            StreamParamId::Spread => ParamKind::Float { min: Single::of(ZERO), max: Single::of(P2_5), step: Single::of(P0_001) },
            StreamParamId::Rise => ParamKind::Float { min: Single::of(ZERO), max: Single::of(ONE), step: Single::of(P0_001) },
            StreamParamId::DecayMs => ParamKind::Float { min: Single::of(THREE), max: Single::of(P120), step: Single::of(P0_001) },
            StreamParamId::BubblesLevel => ParamKind::Float { min: Single::of(ZERO), max: Single::of(ONE), step: Single::of(P0_001) },
            StreamParamId::WashLevel => ParamKind::Float { min: Single::of(ZERO), max: Single::of(ONE), step: Single::of(P0_001) },
            StreamParamId::WashHz => ParamKind::Exp { min: Single::of(P300), max: Single::of(P8000) },
            StreamParamId::Gain => ParamKind::Float { min: Single::of(ZERO), max: Single::of(TWO), step: Single::of(P0_001) },
        }
    }

    /// The parameter at a place of the table, if there is one.
    pub fn from_index(i: usize) -> (r: Option<StreamParamId>)
        ensures
            r == if i < 9 {
                Some(StreamParamId::all()[i as int])
            } else {
                None
            },
    {
        if i < 9 {
            Some(StreamParamId::nth(i))
        } else {
            None
        }
    }

    /// The parameter at a place of the table.
    pub fn nth(i: usize) -> (r: StreamParamId)
        requires
            i < 9,
        ensures
            r == StreamParamId::all()[i as int],
            r.place() == i,
    {
        match i {
            0 => StreamParamId::BubbleRate,
            1 => StreamParamId::BubbleHz,
            2 => StreamParamId::Spread,
            3 => StreamParamId::Rise,
            4 => StreamParamId::DecayMs,
            5 => StreamParamId::BubblesLevel,
            6 => StreamParamId::WashLevel,
            7 => StreamParamId::WashHz,
            _ => StreamParamId::Gain,
        }
    }

    pub fn index(self) -> (r: usize)
        ensures
            r == self.place(),
            r < 9,
    {
        match self {
            StreamParamId::BubbleRate => 0,
            StreamParamId::BubbleHz => 1,
            StreamParamId::Spread => 2,
            StreamParamId::Rise => 3,
            StreamParamId::DecayMs => 4,
            StreamParamId::BubblesLevel => 5,
            StreamParamId::WashLevel => 6,
            StreamParamId::WashHz => 7,
            StreamParamId::Gain => 8,
        }
    }

    pub fn name(self) -> (r: &'static str)
        ensures
            r@ == self.label(),
    {
        match self {
            StreamParamId::BubbleRate => "bubbles/per_second",
            StreamParamId::BubbleHz => "bubbles/hz",
            StreamParamId::Spread => "bubbles/spread_octaves",
            StreamParamId::Rise => "bubbles/rise",
            StreamParamId::DecayMs => "bubbles/decay_ms",
            StreamParamId::BubblesLevel => "bubbles/level",
            StreamParamId::WashLevel => "wash/level",
            StreamParamId::WashHz => "wash/hz",
            StreamParamId::Gain => "master/gain",
        }
    }

    pub fn kind(self) -> (r: ParamKind)
        ensures
            r == self.range(),
            r.wf(),
    {
        match self {
            StreamParamId::BubbleRate => ParamKind::Exp { min: Single::of(P5), max: Single::of(P1500) },
            StreamParamId::BubbleHz => ParamKind::Exp { min: Single::of(P200), max: Single::of(P5000) },
            StreamParamId::Spread => ParamKind::Float { min: Single::of(ZERO), max: Single::of(P2_5), step: Single::of(P0_001) },
            StreamParamId::Rise => ParamKind::Float { min: Single::of(ZERO), max: Single::of(ONE), step: Single::of(P0_001) },
            StreamParamId::DecayMs => ParamKind::Float { min: Single::of(THREE), max: Single::of(P120), step: Single::of(P0_001) },
            StreamParamId::BubblesLevel => ParamKind::Float { min: Single::of(ZERO), max: Single::of(ONE), step: Single::of(P0_001) },
            StreamParamId::WashLevel => ParamKind::Float { min: Single::of(ZERO), max: Single::of(ONE), step: Single::of(P0_001) },
            StreamParamId::WashHz => ParamKind::Exp { min: Single::of(P300), max: Single::of(P8000) },
            StreamParamId::Gain => ParamKind::Float { min: Single::of(ZERO), max: Single::of(TWO), step: Single::of(P0_001) },
        }
    }

    /// The parameter with a name.
    pub fn from_name(name: &str) -> (r: Option<StreamParamId>)
        ensures
            match r {
                Some(id) => id.label() == name@,
                None => forall|id: StreamParamId| (#[trigger] id.label()) != name@,
            },
    {
        let mut i: usize = 0;
        while i < 9
            invariant
                i <= 9,
                forall|id: StreamParamId| id.place() < i ==> (#[trigger] id.label()) != name@,
            decreases 9 - i,
        {
            let id = StreamParamId::nth(i);
            if equal(id.name(), name) {
                return Some(id);
            }
            proof {
                assert forall|other: StreamParamId| other.place() < i + 1 implies (#[trigger] other.label()) != name@ by {
                    if other.place() == i {
                        assert(StreamParamId::all()[other.place()] == other);
                    }
                }
            }
            i = i + 1;
        }
        None
    }
}

impl StreamParams {
    /// Value of a parameter; names count by their index.
    pub open spec fn value(self, id: StreamParamId) -> Single {
        match id {
            StreamParamId::BubbleRate => self.bubble_rate,
            StreamParamId::BubbleHz => self.bubble_hz,
            StreamParamId::Spread => self.spread,
            StreamParamId::Rise => self.rise,
            StreamParamId::DecayMs => self.decay_ms,
            StreamParamId::BubblesLevel => self.bubbles_level,
            StreamParamId::WashLevel => self.wash_level,
            StreamParamId::WashHz => self.wash_hz,
            StreamParamId::Gain => self.gain,
        }
    }

    /// With a parameter set to the nearest value it can take.
    pub open spec fn with(self, id: StreamParamId, v: Single) -> StreamParams {
        match id {
            StreamParamId::BubbleRate => StreamParams { bubble_rate: id.range().clamped(v), ..self },
            StreamParamId::BubbleHz => StreamParams { bubble_hz: id.range().clamped(v), ..self },
            StreamParamId::Spread => StreamParams { spread: id.range().clamped(v), ..self },
            StreamParamId::Rise => StreamParams { rise: id.range().clamped(v), ..self },
            StreamParamId::DecayMs => StreamParams { decay_ms: id.range().clamped(v), ..self },
            StreamParamId::BubblesLevel => StreamParams { bubbles_level: id.range().clamped(v), ..self },
            StreamParamId::WashLevel => StreamParams { wash_level: id.range().clamped(v), ..self },
            StreamParamId::WashHz => StreamParams { wash_hz: id.range().clamped(v), ..self },
            StreamParamId::Gain => StreamParams { gain: id.range().clamped(v), ..self },
        }
    }

    pub fn get(&self, id: StreamParamId) -> (r: Single)
        ensures
            r == self.value(id),
    {
        match id {
            StreamParamId::BubbleRate => self.bubble_rate,
            StreamParamId::BubbleHz => self.bubble_hz,
            StreamParamId::Spread => self.spread,
            StreamParamId::Rise => self.rise,
            StreamParamId::DecayMs => self.decay_ms,
            StreamParamId::BubblesLevel => self.bubbles_level,
            StreamParamId::WashLevel => self.wash_level,
            StreamParamId::WashHz => self.wash_hz,
            StreamParamId::Gain => self.gain,
        }
    }

    /// Set a parameter to the nearest value it can take; what is no number is ignored.
    pub fn set(&mut self, id: StreamParamId, v: Single)
        ensures
            *final(self) == if v.finite() {
                old(self).with(id, v)
            } else {
                *old(self)
            },
    {
        if !v.is_finite() {
            return;
        }
        match id {
            StreamParamId::BubbleRate => {
                self.bubble_rate = id.kind().clamp(v);
            },
            StreamParamId::BubbleHz => {
                self.bubble_hz = id.kind().clamp(v);
            },
            StreamParamId::Spread => {
                self.spread = id.kind().clamp(v);
            },
            StreamParamId::Rise => {
                self.rise = id.kind().clamp(v);
            },
            StreamParamId::DecayMs => {
                self.decay_ms = id.kind().clamp(v);
            },
            StreamParamId::BubblesLevel => {
                self.bubbles_level = id.kind().clamp(v);
            },
            StreamParamId::WashLevel => {
                self.wash_level = id.kind().clamp(v);
            },
            StreamParamId::WashHz => {
                self.wash_hz = id.kind().clamp(v);
            },
            StreamParamId::Gain => {
                self.gain = id.kind().clamp(v);
            },
        }
    }
}

/// A parameter that was set has the nearest value it can take.
pub proof fn lemma_streamparams_set_get(p: StreamParams, id: StreamParamId, v: Single)
    requires
        v.finite(),
    ensures
        p.with(id, v).value(id) == id.range().clamped(v),
{
}


/// Setting a parameter leaves every other one what it was.
#[verifier::rlimit(30)]
pub proof fn lemma_streamparams_set_keeps_others(p: StreamParams, id: StreamParamId, other: StreamParamId, v: Single)
    requires
        other != id,
    ensures
        p.with(id, v).value(other) == p.value(other),
{
}

/// Length and some letters of a name.
spec fn streamparamid_sign(id: StreamParamId) -> (int, char) {
    match id {
        StreamParamId::BubbleRate => (18, 'b'),
        StreamParamId::BubbleHz => (10, 'b'),
        StreamParamId::Spread => (22, 'b'),
        StreamParamId::Rise => (12, 'b'),
        StreamParamId::DecayMs => (16, 'b'),
        StreamParamId::BubblesLevel => (13, 'b'),
        StreamParamId::WashLevel => (10, 'w'),
        StreamParamId::WashHz => (7, 'w'),
        StreamParamId::Gain => (11, 'm'),
    }
}

#[verifier::rlimit(60)]
proof fn lemma_streamparamid_sign(id: StreamParamId)
    ensures
        id.label().len() == streamparamid_sign(id).0,
        streamparamid_sign(id).0 > 0 ==> id.label()[0] == streamparamid_sign(id).1,
{
    reveal_strlit("bubbles/per_second");
    reveal_strlit("bubbles/hz");
    reveal_strlit("bubbles/spread_octaves");
    reveal_strlit("bubbles/rise");
    reveal_strlit("bubbles/decay_ms");
    reveal_strlit("bubbles/level");
    reveal_strlit("wash/level");
    reveal_strlit("wash/hz");
    reveal_strlit("master/gain");
}

/// Names tell the parameters apart, so looking up a parameter's name gives the parameter.
pub proof fn lemma_streamparamid_names_differ(a: StreamParamId, b: StreamParamId)
    requires
        a.label() == b.label(),
    ensures
        a == b,
{
    lemma_streamparamid_sign(a);
    lemma_streamparamid_sign(b);
}

impl Params for StreamParams {
    open spec fn plain_params() -> StreamParams {
        StreamParams::plain()
    }

    open spec fn param_count() -> nat {
        StreamParamId::COUNT as nat
    }

    open spec fn label_at(i: int) -> Seq<char> {
        StreamParamId::all()[i].label()
    }

    open spec fn range_at(i: int) -> ParamKind {
        StreamParamId::all()[i].range()
    }

    open spec fn value_at(self, i: int) -> Single {
        self.value(StreamParamId::all()[i])
    }

    open spec fn with_at(self, i: int, v: Single) -> StreamParams {
        self.with(StreamParamId::all()[i], v)
    }

    proof fn lemma_set_at_reads_back(self, i: int, v: Single) {
        lemma_streamparams_set_get(self, StreamParamId::all()[i], v);
    }

    proof fn lemma_set_at_keeps_others(self, i: int, j: int, v: Single) {
        assert(StreamParamId::all()[i].place() == i);
        assert(StreamParamId::all()[j].place() == j);
        lemma_streamparams_set_keeps_others(self, StreamParamId::all()[i], StreamParamId::all()[j], v);
    }

    fn default_params() -> (r: StreamParams) {
        StreamParams::default()
    }

    fn count() -> (r: usize) {
        StreamParamId::COUNT
    }

    fn name_at(i: usize) -> (r: &'static str) {
        StreamParamId::nth(i).name()
    }

    fn kind_at(i: usize) -> (r: ParamKind) {
        StreamParamId::nth(i).kind()
    }

    fn get_at(&self, i: usize) -> (r: Single) {
        self.get(StreamParamId::nth(i))
    }

    fn set_at(&mut self, i: usize, v: Single) {
        self.set(StreamParamId::nth(i), v);
    }
}

/// A sine chirp that rises and fades.
#[derive(Clone, Copy, Debug, PartialEq, Eq, Structural)]
pub struct Bubble {
    pub phase: Single,
    pub inc: Single,
    pub rise: Single,
    pub env: Single,
    pub decay: Single,
}

impl Default for Bubble {
    fn default() -> (r: Bubble)
        ensures
            r == Bubble::burst(),
    {
        let z = Single::of(ZERO);
        Bubble { phase: z, inc: z, rise: z, env: z, decay: z }
    }
}

impl Bubble {
    /// A bubble that is gone.
    pub open spec fn burst() -> Bubble {
        let z = Single::of(ZERO);
        Bubble { phase: z, inc: z, rise: z, env: z, decay: z }
    }

    /// A sample later.
    pub open spec fn risen(self, f: Sums) -> Bubble {
        let phase = f(Prim::Add, self.phase, self.inc);
        Bubble {
            phase: if Single::of(ONE).at_most(phase) {
                f(Prim::Sub, phase, Single::of(ONE))
            } else {
                phase
            },
            inc: f(Prim::Mul, self.inc, self.rise).smaller(Single::of(P0_45)),
            env: f(Prim::Mul, self.env, self.decay),
            ..self
        }
    }

    fn rise<F: Fn(Prim, Single, Single) -> Single>(self, fpu: &F) -> (r: Bubble)
        requires
            total(*fpu),
        ensures
            forall|f: Sums| #[trigger] meant(*fpu, f) ==> r == self.risen(f),
    {
        let mut phase = fpu(Prim::Add, self.phase, self.inc);
        if Single::of(ONE).le(phase) {
            phase = fpu(Prim::Sub, phase, Single::of(ONE));
        }
        Bubble { phase, inc: fpu(Prim::Mul, self.inc, self.rise).min(Single::of(P0_45)), env: fpu(Prim::Mul, self.env, self.decay), ..self }
    }
}

/// Running water: trickle, brook or river, built from bubble chirps.
pub struct Stream {
    pub sr: Single,
    pub noise: Noise,
    pub dust: Dust,
    pub bubbles: Vec<Bubble>,
    pub next: usize,
    pub wash: Svf,
}

/// A [`Stream`] as a value.
#[verifier::ext_equal]
pub struct StreamView {
    pub sr: Single,
    pub noise: Noise,
    pub dust: Dust,
    pub bubbles: Seq<Bubble>,
    pub next: usize,
    pub wash: Svf,
}

impl View for Stream {
    type V = StreamView;

    open spec fn view(&self) -> StreamView {
        StreamView {
            sr: self.sr,
            noise: self.noise,
            dust: self.dust,
            bubbles: self.bubbles@,
            next: self.next,
            wash: self.wash,
        }
    }
}

impl Stream {
    pub open spec fn valid(self) -> bool {
        &&& self.bubbles@.len() == 16
        &&& self.next < 16
    }
}

/// Settings of a control block.
#[derive(Clone, Copy, Debug, PartialEq, Eq, Structural)]
pub struct StreamMix {
    pub sr: Single,
    pub bubble_p: Single,
    pub decay: Single,
    pub rise: Single,
    pub centre: Single,
    pub bubble_gain: Single,
    pub wash_gain: Single,
}

/// The generator at the start of a control block of `n` samples with inputs `x`, and the settings.
pub open spec fn stream_steered(f: Sums, p: StreamParams, x: Seq<Single>, n: Single, s: StreamView) -> (StreamView, StreamMix) {
    let sr = s.sr;
    let flow = x[0];
    let size = x[1];
    let bubble_p = f(Prim::Div, f(Prim::Mul, p.bubble_rate, f(Prim::Add, Single::of(P0_1), f(Prim::Mul, Single::of(P0_9), f(Prim::Pow, flow, Single::of(P1_5))))), sr);
    let decay_samples = f(Prim::Mul, f(Prim::Mul, f(Prim::Mul, p.decay_ms, f(Prim::Add, Single::of(ONE), size)), Single::of(P0_001)), sr);
    let decay = f(Prim::Exp, f(Prim::Div, Single::of(N1), decay_samples), Single::of(ZERO));
    let rise = f(Prim::Exp2, f(Prim::Div, f(Prim::Mul, p.rise, Single::of(P1_2)), f(Prim::Mul, decay_samples, Single::of(TWO))), Single::of(ZERO));
    let centre = f(Prim::Mul, p.bubble_hz, f(Prim::Exp2, f(Prim::Mul, Single::of(N1_5), size), Single::of(ZERO)));
    let s = StreamView { wash: s.wash.tuned(f, FilterMode::BandPass, f(Prim::Mul, p.wash_hz, f(Prim::Exp2, size.negated(), Single::of(ZERO))), Single::of(P0_2), sr), ..s };
    let bubble_gain = f(Prim::Mul, p.bubbles_level, Single::of(P0_45));
    let wash_gain = f(Prim::Mul, f(Prim::Mul, p.wash_level, f(Prim::Add, Single::of(P0_3), f(Prim::Mul, Single::of(P0_7), flow))), Single::of(P2_4));
    (s, StreamMix { sr, bubble_p, decay, rise, centre, bubble_gain, wash_gain })
}

fn stream_steer<F: Fn(Prim, Single, Single) -> Single>(fpu: &F, p: StreamParams, x: &Vec<Single>, n: Single, s: &mut Stream) -> (r: StreamMix)
    requires
        total(*fpu),
        x@.len() == 2,
        old(s).valid(),
    ensures
        final(s).valid(),
        forall|f: Sums| #[trigger] meant(*fpu, f) ==> (final(s)@, r) == stream_steered(f, p, x@, n, old(s)@),
{
    let sr = s.sr;
    let flow = x[0];
    let size = x[1];
    let bubble_p = fpu(Prim::Div, fpu(Prim::Mul, p.bubble_rate, fpu(Prim::Add, Single::of(P0_1), fpu(Prim::Mul, Single::of(P0_9), fpu(Prim::Pow, flow, Single::of(P1_5))))), sr);
    let decay_samples = fpu(Prim::Mul, fpu(Prim::Mul, fpu(Prim::Mul, p.decay_ms, fpu(Prim::Add, Single::of(ONE), size)), Single::of(P0_001)), sr);
    let decay = fpu(Prim::Exp, fpu(Prim::Div, Single::of(N1), decay_samples), Single::of(ZERO));
    let rise = fpu(Prim::Exp2, fpu(Prim::Div, fpu(Prim::Mul, p.rise, Single::of(P1_2)), fpu(Prim::Mul, decay_samples, Single::of(TWO))), Single::of(ZERO));
    let centre = fpu(Prim::Mul, p.bubble_hz, fpu(Prim::Exp2, fpu(Prim::Mul, Single::of(N1_5), size), Single::of(ZERO)));
    s.wash.set(fpu, FilterMode::BandPass, fpu(Prim::Mul, p.wash_hz, fpu(Prim::Exp2, size.neg(), Single::of(ZERO))), Single::of(P0_2), sr);
    let bubble_gain = fpu(Prim::Mul, p.bubbles_level, Single::of(P0_45));
    let wash_gain = fpu(Prim::Mul, fpu(Prim::Mul, p.wash_level, fpu(Prim::Add, Single::of(P0_3), fpu(Prim::Mul, Single::of(P0_7), flow))), Single::of(P2_4));
    StreamMix { sr, bubble_p, decay, rise, centre, bubble_gain, wash_gain }
}

/// Sum of the first `k` bubbles, each moved a sample on.
pub open spec fn stream_bubbles_of(f: Sums, m: StreamMix, s: StreamView, y: Single, k: nat) -> (StreamView, Single)
    decreases k,
{
    if k == 0 {
        (s, y)
    } else {
        let (s, y) = stream_bubbles_of(f, m, s, y, (k - 1) as nat);
        let k = k - 1;
        let (s, y) = if Single::of(P0_0001).below(s.bubbles[k].env) {
            let y = f(Prim::Add, y, f(Prim::Mul, f(Prim::Sin, f(Prim::Mul, s.bubbles[k].phase, Single::of(TAU)), Single::of(ZERO)), s.bubbles[k].env));
            let s = StreamView { bubbles: s.bubbles.update(k, s.bubbles[k].risen(f)), ..s };
            (s, y)
        } else {
            (s, y)
        };
        (s, y)
    }
}

fn stream_bubbles<F: Fn(Prim, Single, Single) -> Single>(fpu: &F, m: StreamMix, s: &mut Stream, y0: Single) -> (r: Single)
    requires
        total(*fpu),
        old(s).valid(),
    ensures
        final(s).valid(),
        forall|f: Sums| #[trigger] meant(*fpu, f) ==> (final(s)@, r) == stream_bubbles_of(f, m, old(s)@, y0, 16),
{
    let mut y = y0;
    let mut k: usize = 0;
    while k < 16
        invariant
            k <= 16,
            total(*fpu),
            s.valid(),
            forall|f: Sums| #[trigger] meant(*fpu, f) ==> (s@, y) == stream_bubbles_of(f, m, old(s)@, y0, k as nat),
        decreases 16 - k,
    {
        if Single::of(P0_0001).lt(s.bubbles[k].env) {
            y = fpu(Prim::Add, y, fpu(Prim::Mul, fpu(Prim::Sin, fpu(Prim::Mul, s.bubbles[k].phase, Single::of(TAU)), Single::of(ZERO)), s.bubbles[k].env));
            let value = s.bubbles[k].rise(fpu);
            s.bubbles.set(k, value);
        }
        k = k + 1;
    }
    y
}

/// One sample; what was in its place is not heard.
pub open spec fn stream_tick(f: Sums, p: StreamParams, m: StreamMix, s: StreamView, v: Single) -> (StreamView, Single) {
    let d = s.dust.impulse(f, m.bubble_p);
    let s = StreamView { dust: s.dust.ticked(m.bubble_p), ..s };
    let s = if Single::of(ZERO).below(d) {
        let kick = crate::math::bipolar(s.dust.rng.fraction());
        let s = StreamView { dust: Dust { rng: s.dust.rng.advanced() }, ..s };
        let hz = f(Prim::Mul, m.centre, f(Prim::Exp2, f(Prim::Mul, kick, p.spread), Single::of(ZERO)));
        let inc = f(Prim::Div, hz.smaller(f(Prim::Mul, m.sr, Single::of(P0_4))), m.sr);
        let s = StreamView { bubbles: s.bubbles.update(s.next as int, Bubble { phase: Single::of(ZERO), inc, rise: m.rise, env: d, decay: m.decay }), ..s };
        let s = StreamView { next: ((s.next + 1) % 16) as usize, ..s };
        s
    } else {
        s
    };
    let y = Single::of(ZERO);
    let (s, y) = stream_bubbles_of(f, m, s, y, 16);
    let pk = s.noise.pink.output(f, s.noise.draw());
    let s = StreamView { noise: Noise { rng: s.noise.rng.advanced(), pink: s.noise.pink.fed(f, s.noise.draw()) }, ..s };
    let washed = s.wash.output(f, pk);
    let s = StreamView { wash: s.wash.fed(f, pk), ..s };
    (s, f(Prim::Mul, f(Prim::Add, f(Prim::Mul, y, m.bubble_gain), f(Prim::Mul, washed, m.wash_gain)), p.gain))
}

/// The same for a run of samples.
pub open spec fn stream_run(f: Sums, p: StreamParams, m: StreamMix, s: StreamView, x: Seq<Single>) -> (StreamView, Seq<Single>)
    decreases x.len(),
{
    if x.len() == 0 {
        (s, seq![])
    } else {
        let (t, out) = stream_run(f, p, m, s, x.drop_last());
        let (u, y) = stream_tick(f, p, m, t, x.last());
        (u, out.push(y))
    }
}

fn stream_sample<F: Fn(Prim, Single, Single) -> Single>(fpu: &F, p: StreamParams, m: StreamMix, s: &mut Stream, v: Single) -> (y: Single)
    requires
        total(*fpu),
        old(s).valid(),
    ensures
        final(s).valid(),
        forall|f: Sums| #[trigger] meant(*fpu, f) ==> (final(s)@, y) == stream_tick(f, p, m, old(s)@, v),
{
    let d = s.dust.tick(fpu, m.bubble_p);
    if Single::of(ZERO).lt(d) {
        let kick = s.dust.rng.next_bipolar();
        let hz = fpu(Prim::Mul, m.centre, fpu(Prim::Exp2, fpu(Prim::Mul, kick, p.spread), Single::of(ZERO)));
        let inc = fpu(Prim::Div, hz.min(fpu(Prim::Mul, m.sr, Single::of(P0_4))), m.sr);
        let value = Bubble { phase: Single::of(ZERO), inc, rise: m.rise, env: d, decay: m.decay };
        s.bubbles.set(s.next, value);
        s.next = (s.next + 1) % 16;
    }
    let mut y = Single::of(ZERO);
    y = stream_bubbles(fpu, m, s, y);
    let pk = s.noise.pink(fpu);
    let washed = s.wash.tick(fpu, pk);
    fpu(Prim::Mul, fpu(Prim::Add, fpu(Prim::Mul, y, m.bubble_gain), fpu(Prim::Mul, washed, m.wash_gain)), p.gain)
}

fn stream_span<F: Fn(Prim, Single, Single) -> Single>(fpu: &F, p: StreamParams, m: StreamMix, s: &mut Stream, buf: &mut Vec<Single>, start: usize, end: usize)
    requires
        total(*fpu),
        start <= end <= old(buf)@.len(),
        old(s).valid(),
    ensures
        final(buf)@.len() == old(buf)@.len(),
        same_outside(old(buf)@, final(buf)@, start as int, end as int),
        final(s).valid(),
        forall|f: Sums| #[trigger] meant(*fpu, f) ==> (final(s)@, final(buf)@.subrange(start as int, end as int)) == stream_run(
            f, p, m,
            old(s)@,
            old(buf)@.subrange(start as int, end as int),
        ),
{
    let mut i: usize = start;
    let ghost before = buf@;
    assert(before.subrange(start as int, start as int) =~= seq![]);
    while i < end
        invariant
            start <= i <= end <= buf@.len(),
            buf@.len() == before.len(),
            before == old(buf)@,
            same_outside(before, buf@, start as int, i as int),
            total(*fpu),
            s.valid(),
            forall|f: Sums| #[trigger] meant(*fpu, f) ==> (s@, buf@.subrange(start as int, i as int)) == stream_run(
                f, p, m,
                old(s)@,
                before.subrange(start as int, i as int),
            ),
        decreases end - i,
    {
        let ghost last = buf@;
        let y = stream_sample(fpu, p, m, s, buf[i]);
        buf.set(i, y);
        i = i + 1;
        assert(before.subrange(start as int, i as int).drop_last() =~= before.subrange(start as int, i - 1));
        assert(buf@.subrange(start as int, i as int) =~= last.subrange(start as int, i - 1).push(y));
    }
}

/// What the buffer held does not matter.
proof fn lemma_stream_overwrites(f: Sums, p: StreamParams, m: StreamMix, s: StreamView, a: Seq<Single>, b: Seq<Single>)
    requires
        a.len() == b.len(),
    ensures
        stream_run(f, p, m, s, a) == stream_run(f, p, m, s, b),
        stream_run(f, p, m, s, a).1.len() == a.len(),
    decreases a.len(),
{
    if a.len() > 0 {
        lemma_stream_overwrites(f, p, m, s, a.drop_last(), b.drop_last());
    }
}

impl Generator for Stream {
    type P = StreamParams;

    type State = StreamView;

    open spec fn about() -> ProfileView {
        ProfileView {
            name: "stream"@,
            category: "nature"@,
            doc: "Running water: trickle, brook or river, built from bubble chirps."@,
            smooth_secs: Single::of(P0_05),
            limit: true,
            one_shot: false,
        }
    }

    open spec fn input_list() -> Seq<InputView> {
        seq![
            InputView { name: "flow"@, default: Single::of(HALF), doc: "Trickle to torrent"@ },
            InputView { name: "size"@, default: Single::of(P0_3), doc: "Body of water: bigger means deeper, slower bubbles"@ },
        ]
    }

    open spec fn preset_list() -> Seq<(Seq<char>, StreamParams)> {
        seq![
            ("Dripping cave"@, StreamParams { bubble_rate: Single::of(P9), bubble_hz: Single::of(P1500), decay_ms: Single::of(P60), wash_level: Single::of(P0_05), rise: Single::of(P0_8), bubbles_level: Single::of(ONE), ..StreamParams::plain() }),
            ("River"@, StreamParams { bubble_rate: Single::of(P900), bubble_hz: Single::of(P700), wash_level: Single::of(P0_9), wash_hz: Single::of(P1200), ..StreamParams::plain() }),
            ("Bubbling potion"@, StreamParams { bubble_rate: Single::of(P40), bubble_hz: Single::of(P420), spread: Single::of(P0_6), rise: Single::of(P0_9), decay_ms: Single::of(P45), wash_level: Single::of(P0_1), bubbles_level: Single::of(ONE), ..StreamParams::plain() }),
        ]
    }

    open spec fn wf(&self) -> bool {
        self.valid()
    }

    open spec fn state(&self) -> StreamView {
        self@
    }

    open spec fn fresh(f: Sums, sample_rate: Single) -> StreamView {
        StreamView {
            sr: sample_rate,
            noise: Noise::seeded_with(0x53_0001),
            dust: Dust { rng: Rng::seeded_with(0x53_0002) },
            bubbles: Seq::new(16, |k: int| Bubble::burst()),
            next: 0,
            wash: Svf::silent(),
        }
    }

    open spec fn snapped(s: StreamView, f: Sums, x: Seq<Single>, p: StreamParams) -> StreamView {
        s
    }

    open spec fn fired(s: StreamView, f: Sums, x: Seq<Single>, p: StreamParams) -> StreamView {
        s
    }

    open spec fn ringing(s: StreamView) -> bool {
        true
    }

    open spec fn played(s: StreamView, f: Sums, x: Seq<Single>, p: StreamParams, out: Seq<Single>) -> (StreamView, Seq<Single>) {
        let (t, m) = stream_steered(f, p, x, crate::single::signed_integer(out.len() as int), s);
        stream_run(f, p, m, t, out)
    }

    proof fn lemma_overwrites(s: StreamView, f: Sums, x: Seq<Single>, p: StreamParams, a: Seq<Single>, b: Seq<Single>) {
        let (t, m) = stream_steered(f, p, x, crate::single::signed_integer(a.len() as int), s);
        lemma_stream_overwrites(f, p, m, t, a, b);
    }

    fn profile() -> (r: Profile) {
        Profile {
            name: "stream",
            category: "nature",
            doc: "Running water: trickle, brook or river, built from bubble chirps.",
            smooth_secs: Single::of(P0_05),
            limit: true,
            one_shot: false,
        }
    }

    fn inputs() -> (r: Vec<InputSpec>) {
        let mut r: Vec<InputSpec> = Vec::new();
        r.push(InputSpec { name: "flow", default: Single::of(HALF), doc: "Trickle to torrent" });
        r.push(InputSpec { name: "size", default: Single::of(P0_3), doc: "Body of water: bigger means deeper, slower bubbles" });
        r
    }

    fn presets() -> (r: Vec<(&'static str, StreamParams)>) {
        let mut r: Vec<(&'static str, StreamParams)> = Vec::new();
        r.push(("Dripping cave", StreamParams { bubble_rate: Single::of(P9), bubble_hz: Single::of(P1500), decay_ms: Single::of(P60), wash_level: Single::of(P0_05), rise: Single::of(P0_8), bubbles_level: Single::of(ONE), ..StreamParams::default() }));
        r.push(("River", StreamParams { bubble_rate: Single::of(P900), bubble_hz: Single::of(P700), wash_level: Single::of(P0_9), wash_hz: Single::of(P1200), ..StreamParams::default() }));
        r.push(("Bubbling potion", StreamParams { bubble_rate: Single::of(P40), bubble_hz: Single::of(P420), spread: Single::of(P0_6), rise: Single::of(P0_9), decay_ms: Single::of(P45), wash_level: Single::of(P0_1), bubbles_level: Single::of(ONE), ..StreamParams::default() }));
        r
    }

    fn new<F: Fn(Prim, Single, Single) -> Single>(fpu: &F, sample_rate: Single) -> (r: Stream) {
        let mut bubbles: Vec<Bubble> = Vec::new();
        while bubbles.len() < 16
            invariant
                bubbles@.len() <= 16,
                forall|k: int| 0 <= k < bubbles@.len() ==> #[trigger] bubbles@[k] == Bubble::burst(),
            decreases 16 - bubbles@.len(),
        {
            let k = bubbles.len();
            bubbles.push(Bubble::default());
        }
        let r = Stream {
            sr: sample_rate,
            noise: Noise::new(0x53_0001),
            dust: Dust::new(0x53_0002),
            bubbles,
            next: 0,
            wash: Svf::default(),
        };
        assert(r@.bubbles =~= Seq::new(16, |k: int| Bubble::burst()));
        r
    }

    fn snap<F: Fn(Prim, Single, Single) -> Single>(&mut self, fpu: &F, x: &Vec<Single>, p: &StreamParams) {
    }

    fn trigger<F: Fn(Prim, Single, Single) -> Single>(&mut self, fpu: &F, x: &Vec<Single>, p: &StreamParams) {
    }

    fn is_active(&self) -> (r: bool) {
        true
    }

    fn block<F: Fn(Prim, Single, Single) -> Single>(&mut self, fpu: &F, x: &Vec<Single>, p: &StreamParams, out: &mut Vec<Single>, start: usize, end: usize) {
        let n = from_i32((end - start) as i32);
        let m = stream_steer(fpu, *p, x, n, self);
        stream_span(fpu, *p, m, self, out, start, end);
    }
}

/// Shoreline surf: two overlapping, slightly irregular wave cycles of swell, crash and foam.
#[derive(Clone, Copy, Debug, PartialEq, Eq, Structural)]
pub struct OceanParams {
    pub period: Single,
    pub wash: Single,
    pub irregular: Single,
    pub crash_level: Single,
    pub crash_hz: Single,
    pub foam_level: Single,
    pub rumble_level: Single,
    pub gain: Single,
}

impl OceanParams {
    pub open spec fn plain() -> OceanParams {
        OceanParams {
            period: Single::of(P7),
            wash: Single::of(P0_3),
            irregular: Single::of(P0_4),
            crash_level: Single::of(P0_7),
            crash_hz: Single::of(P1800),
            foam_level: Single::of(P0_4),
            rumble_level: Single::of(HALF),
            gain: Single::of(ONE),
        }
    }
}

impl Default for OceanParams {
    fn default() -> (r: OceanParams)
        ensures
            r == OceanParams::plain(),
    {
        OceanParams {
            period: Single::of(P7),
            wash: Single::of(P0_3),
            irregular: Single::of(P0_4),
            crash_level: Single::of(P0_7),
            crash_hz: Single::of(P1800),
            foam_level: Single::of(P0_4),
            rumble_level: Single::of(HALF),
            gain: Single::of(ONE),
        }
    }
}

/// Identifier of every tweakable value in [`OceanParams`].
#[derive(Clone, Copy, Debug, PartialEq, Eq, Structural)]
pub enum OceanParamId {
    Period,
    Wash,
    Irregular,
    CrashLevel,
    CrashHz,
    FoamLevel,
    RumbleLevel,
    Gain,
}

impl OceanParamId {
    /// Number of parameters.
    pub const COUNT: usize = 8;

    /// Every parameter, in table order.
    pub open spec fn all() -> Seq<OceanParamId> {
        seq![
            OceanParamId::Period,
            OceanParamId::Wash,
            OceanParamId::Irregular,
            OceanParamId::CrashLevel,
            OceanParamId::CrashHz,
            OceanParamId::FoamLevel,
            OceanParamId::RumbleLevel,
            OceanParamId::Gain,
        ]
    }

    /// Place in the table.
    pub open spec fn place(self) -> int {
        match self {
            OceanParamId::Period => 0,
            OceanParamId::Wash => 1,
            OceanParamId::Irregular => 2,
            OceanParamId::CrashLevel => 3,
            OceanParamId::CrashHz => 4,
            OceanParamId::FoamLevel => 5,
            OceanParamId::RumbleLevel => 6,
            OceanParamId::Gain => 7,
        }
    }

    pub open spec fn label(self) -> Seq<char> {
        match self {
            OceanParamId::Period => "waves/period_s"@,
            OceanParamId::Wash => "waves/background_wash"@,
            OceanParamId::Irregular => "waves/irregularity"@,
            OceanParamId::CrashLevel => "crash/level"@,
            OceanParamId::CrashHz => "crash/hz"@,
            OceanParamId::FoamLevel => "foam/level"@,
            OceanParamId::RumbleLevel => "rumble/level"@,
            OceanParamId::Gain => "master/gain"@,
        }
    }

    pub open spec fn range(self) -> ParamKind {
        match self {
            OceanParamId::Period => ParamKind::Float { min: Single::of(THREE), max: Single::of(P24), step: Single::of(P0_001) },
            OceanParamId::Wash => ParamKind::Float { min: Single::of(ZERO), max: Single::of(ONE), step: Single::of(P0_001) },
            OceanParamId::Irregular => ParamKind::Float { min: Single::of(ZERO), max: Single::of(ONE), step: Single::of(P0_001) },
            OceanParamId::CrashLevel => ParamKind::Float { min: Single::of(ZERO), max: Single::of(ONE), step: Single::of(P0_001) },
            OceanParamId::CrashHz => ParamKind::Exp { min: Single::of(P300), max: Single::of(P6000) },
            OceanParamId::FoamLevel => ParamKind::Float { min: Single::of(ZERO), max: Single::of(ONE), step: Single::of(P0_001) },
            OceanParamId::RumbleLevel => ParamKind::Float { min: Single::of(ZERO), max: Single::of(ONE), step: Single::of(P0_001) },
            OceanParamId::Gain => ParamKind::Float { min: Single::of(ZERO), max: Single::of(TWO), step: Single::of(P0_001) },
        }
    }

    /// The parameter at a place of the table, if there is one.
    pub fn from_index(i: usize) -> (r: Option<OceanParamId>)
        ensures
            r == if i < 8 {
                Some(OceanParamId::all()[i as int])
            } else {
                None
            },
    {
        if i < 8 {
            Some(OceanParamId::nth(i))
        } else {
            None
        }
    }

    /// The parameter at a place of the table.
    pub fn nth(i: usize) -> (r: OceanParamId)
        requires
            i < 8,
        ensures
            r == OceanParamId::all()[i as int],
            r.place() == i,
    {
        match i {
            0 => OceanParamId::Period,
            1 => OceanParamId::Wash,
            2 => OceanParamId::Irregular,
            3 => OceanParamId::CrashLevel,
            4 => OceanParamId::CrashHz,
            5 => OceanParamId::FoamLevel,
            6 => OceanParamId::RumbleLevel,
            _ => OceanParamId::Gain,
        }
    }

    pub fn index(self) -> (r: usize)
        ensures
            r == self.place(),
            r < 8,
    {
        match self {
            OceanParamId::Period => 0,
            OceanParamId::Wash => 1,
            OceanParamId::Irregular => 2,
            OceanParamId::CrashLevel => 3,
            OceanParamId::CrashHz => 4,
            OceanParamId::FoamLevel => 5,
            OceanParamId::RumbleLevel => 6,
            OceanParamId::Gain => 7,
        }
    }

    pub fn name(self) -> (r: &'static str)
        ensures
            r@ == self.label(),
    {
        match self {
            OceanParamId::Period => "waves/period_s",
            OceanParamId::Wash => "waves/background_wash",
            OceanParamId::Irregular => "waves/irregularity",
            OceanParamId::CrashLevel => "crash/level",
            OceanParamId::CrashHz => "crash/hz",
            OceanParamId::FoamLevel => "foam/level",
            OceanParamId::RumbleLevel => "rumble/level",
            OceanParamId::Gain => "master/gain",
        }
    }

    pub fn kind(self) -> (r: ParamKind)
        ensures
            r == self.range(),
            r.wf(),
    {
        match self {
            OceanParamId::Period => ParamKind::Float { min: Single::of(THREE), max: Single::of(P24), step: Single::of(P0_001) },
            OceanParamId::Wash => ParamKind::Float { min: Single::of(ZERO), max: Single::of(ONE), step: Single::of(P0_001) },
            OceanParamId::Irregular => ParamKind::Float { min: Single::of(ZERO), max: Single::of(ONE), step: Single::of(P0_001) },
            OceanParamId::CrashLevel => ParamKind::Float { min: Single::of(ZERO), max: Single::of(ONE), step: Single::of(P0_001) },
            OceanParamId::CrashHz => ParamKind::Exp { min: Single::of(P300), max: Single::of(P6000) },
            OceanParamId::FoamLevel => ParamKind::Float { min: Single::of(ZERO), max: Single::of(ONE), step: Single::of(P0_001) },
            OceanParamId::RumbleLevel => ParamKind::Float { min: Single::of(ZERO), max: Single::of(ONE), step: Single::of(P0_001) },
            OceanParamId::Gain => ParamKind::Float { min: Single::of(ZERO), max: Single::of(TWO), step: Single::of(P0_001) },
        }
    }

    /// The parameter with a name.
    pub fn from_name(name: &str) -> (r: Option<OceanParamId>)
        ensures
            match r {
                Some(id) => id.label() == name@,
                None => forall|id: OceanParamId| (#[trigger] id.label()) != name@,
            },
    {
        let mut i: usize = 0;
        while i < 8
            invariant
                i <= 8,
                forall|id: OceanParamId| id.place() < i ==> (#[trigger] id.label()) != name@,
            decreases 8 - i,
        {
            let id = OceanParamId::nth(i);
            if equal(id.name(), name) {
                return Some(id);
            }
            proof {
                assert forall|other: OceanParamId| other.place() < i + 1 implies (#[trigger] other.label()) != name@ by {
                    if other.place() == i {
                        assert(OceanParamId::all()[other.place()] == other);
                    }
                }
            }
            i = i + 1;
        }
        None
    }
}

impl OceanParams {
    /// Value of a parameter; names count by their index.
    pub open spec fn value(self, id: OceanParamId) -> Single {
        match id {
            OceanParamId::Period => self.period,
            OceanParamId::Wash => self.wash,
            OceanParamId::Irregular => self.irregular,
            OceanParamId::CrashLevel => self.crash_level,
            OceanParamId::CrashHz => self.crash_hz,
            OceanParamId::FoamLevel => self.foam_level,
            OceanParamId::RumbleLevel => self.rumble_level,
            OceanParamId::Gain => self.gain,
        }
    }

    /// With a parameter set to the nearest value it can take.
    pub open spec fn with(self, id: OceanParamId, v: Single) -> OceanParams {
        match id {
            OceanParamId::Period => OceanParams { period: id.range().clamped(v), ..self },
            OceanParamId::Wash => OceanParams { wash: id.range().clamped(v), ..self },
            OceanParamId::Irregular => OceanParams { irregular: id.range().clamped(v), ..self },
            OceanParamId::CrashLevel => OceanParams { crash_level: id.range().clamped(v), ..self },
            OceanParamId::CrashHz => OceanParams { crash_hz: id.range().clamped(v), ..self },
            OceanParamId::FoamLevel => OceanParams { foam_level: id.range().clamped(v), ..self },
            OceanParamId::RumbleLevel => OceanParams { rumble_level: id.range().clamped(v), ..self },
            OceanParamId::Gain => OceanParams { gain: id.range().clamped(v), ..self },
        }
    }

    pub fn get(&self, id: OceanParamId) -> (r: Single)
        ensures
            r == self.value(id),
    {
        match id {
            OceanParamId::Period => self.period,
            OceanParamId::Wash => self.wash,
            OceanParamId::Irregular => self.irregular,
            OceanParamId::CrashLevel => self.crash_level,
            OceanParamId::CrashHz => self.crash_hz,
            OceanParamId::FoamLevel => self.foam_level,
            OceanParamId::RumbleLevel => self.rumble_level,
            OceanParamId::Gain => self.gain,
        }
    }

    /// Set a parameter to the nearest value it can take; what is no number is ignored.
    pub fn set(&mut self, id: OceanParamId, v: Single)
        ensures
            *final(self) == if v.finite() {
                old(self).with(id, v)
            } else {
                *old(self)
            },
    {
        if !v.is_finite() {
            return;
        }
        match id {
            OceanParamId::Period => {
                self.period = id.kind().clamp(v);
            },
            OceanParamId::Wash => {
                self.wash = id.kind().clamp(v);
            },
            OceanParamId::Irregular => {
                self.irregular = id.kind().clamp(v);
            },
            OceanParamId::CrashLevel => {
                self.crash_level = id.kind().clamp(v);
            },
            OceanParamId::CrashHz => {
                self.crash_hz = id.kind().clamp(v);
            },
            OceanParamId::FoamLevel => {
                self.foam_level = id.kind().clamp(v);
            },
            OceanParamId::RumbleLevel => {
                self.rumble_level = id.kind().clamp(v);
            },
            OceanParamId::Gain => {
                self.gain = id.kind().clamp(v);
            },
        }
    }
}

/// A parameter that was set has the nearest value it can take.
pub proof fn lemma_oceanparams_set_get(p: OceanParams, id: OceanParamId, v: Single)
    requires
        v.finite(),
    ensures
        p.with(id, v).value(id) == id.range().clamped(v),
{
}


/// Setting a parameter leaves every other one what it was.
#[verifier::rlimit(30)]
pub proof fn lemma_oceanparams_set_keeps_others(p: OceanParams, id: OceanParamId, other: OceanParamId, v: Single)
    requires
        other != id,
    ensures
        p.with(id, v).value(other) == p.value(other),
{
}

/// Length and some letters of a name.
spec fn oceanparamid_sign(id: OceanParamId) -> (int, char) {
    match id {
        OceanParamId::Period => (14, 'w'),
        OceanParamId::Wash => (21, 'w'),
        OceanParamId::Irregular => (18, 'w'),
        OceanParamId::CrashLevel => (11, 'c'),
        OceanParamId::CrashHz => (8, 'c'),
        OceanParamId::FoamLevel => (10, 'f'),
        OceanParamId::RumbleLevel => (12, 'r'),
        OceanParamId::Gain => (11, 'm'),
    }
}

#[verifier::rlimit(60)]
proof fn lemma_oceanparamid_sign(id: OceanParamId)
    ensures
        id.label().len() == oceanparamid_sign(id).0,
        oceanparamid_sign(id).0 > 0 ==> id.label()[0] == oceanparamid_sign(id).1,
{
    reveal_strlit("waves/period_s");
    reveal_strlit("waves/background_wash");
    reveal_strlit("waves/irregularity");
    reveal_strlit("crash/level");
    reveal_strlit("crash/hz");
    reveal_strlit("foam/level");
    reveal_strlit("rumble/level");
    reveal_strlit("master/gain");
}

/// Names tell the parameters apart, so looking up a parameter's name gives the parameter.
pub proof fn lemma_oceanparamid_names_differ(a: OceanParamId, b: OceanParamId)
    requires
        a.label() == b.label(),
    ensures
        a == b,
{
    lemma_oceanparamid_sign(a);
    lemma_oceanparamid_sign(b);
}

impl Params for OceanParams {
    open spec fn plain_params() -> OceanParams {
        OceanParams::plain()
    }

    open spec fn param_count() -> nat {
        OceanParamId::COUNT as nat
    }

    open spec fn label_at(i: int) -> Seq<char> {
        OceanParamId::all()[i].label()
    }

    open spec fn range_at(i: int) -> ParamKind {
        OceanParamId::all()[i].range()
    }

    open spec fn value_at(self, i: int) -> Single {
        self.value(OceanParamId::all()[i])
    }

    open spec fn with_at(self, i: int, v: Single) -> OceanParams {
        self.with(OceanParamId::all()[i], v)
    }

    proof fn lemma_set_at_reads_back(self, i: int, v: Single) {
        lemma_oceanparams_set_get(self, OceanParamId::all()[i], v);
    }

    proof fn lemma_set_at_keeps_others(self, i: int, j: int, v: Single) {
        assert(OceanParamId::all()[i].place() == i);
        assert(OceanParamId::all()[j].place() == j);
        lemma_oceanparams_set_keeps_others(self, OceanParamId::all()[i], OceanParamId::all()[j], v);
    }

    fn default_params() -> (r: OceanParams) {
        OceanParams::default()
    }

    fn count() -> (r: usize) {
        OceanParamId::COUNT
    }

    fn name_at(i: usize) -> (r: &'static str) {
        OceanParamId::nth(i).name()
    }

    fn kind_at(i: usize) -> (r: ParamKind) {
        OceanParamId::nth(i).kind()
    }

    fn get_at(&self, i: usize) -> (r: Single) {
        self.get(OceanParamId::nth(i))
    }

    fn set_at(&mut self, i: usize, v: Single) {
        self.set(OceanParamId::nth(i), v);
    }
}

/// Swell builds slowly, breaks, then drains away.
pub open spec fn surge(f: Sums, phase: Single) -> Single {
    if phase.below(Single::of(P0_35)) {
        f(Prim::Pow, f(Prim::Div, phase, Single::of(P0_35)), Single::of(P2_5))
    } else {
        f(Prim::Exp, f(Prim::Mul, f(Prim::Sub, phase, Single::of(P0_35)).negated(), Single::of(P3_2)), Single::of(ZERO))
    }
}

/// Swell builds slowly, breaks, then drains away.
fn wave_env<F: Fn(Prim, Single, Single) -> Single>(fpu: &F, phase: Single) -> (r: Single)
    requires
        total(*fpu),
    ensures
        forall|f: Sums| #[trigger] meant(*fpu, f) ==> r == surge(f, phase),
{
    if phase.lt(Single::of(P0_35)) {
        fpu(Prim::Pow, fpu(Prim::Div, phase, Single::of(P0_35)), Single::of(P2_5))
    } else {
        fpu(Prim::Exp, fpu(Prim::Mul, fpu(Prim::Sub, phase, Single::of(P0_35)).neg(), Single::of(P3_2)), Single::of(ZERO))
    }
}

/// Period of wave `k` over the common one.
pub open spec fn wave_scale_at(k: int) -> Single {
    if k == 0 { Single::of(ONE) } else if k == 1 { Single::of(P1_37) } else { Single::of(P0_73) }
}

fn wave_scale(k: usize) -> (r: Single)
    ensures
        r == wave_scale_at(k as int),
{
    if k == 0 { Single::of(ONE) } else if k == 1 { Single::of(P1_37) } else { Single::of(P0_73) }
}

/// Share of wave `k`.
pub open spec fn wave_weight_at(k: int) -> Single {
    if k == 0 { Single::of(ONE) } else if k == 1 { Single::of(P0_6) } else { Single::of(P0_45) }
}

fn wave_weight(k: usize) -> (r: Single)
    ensures
        r == wave_weight_at(k as int),
{
    if k == 0 { Single::of(ONE) } else if k == 1 { Single::of(P0_6) } else { Single::of(P0_45) }
}

/// A wave on its way.
#[derive(Clone, Copy, Debug, PartialEq, Eq, Structural)]
pub struct Wave {
    pub phase: Single,
    pub jitter: Single,
}

impl Wave {
    /// Wave `k` at the start.
    pub open spec fn at(k: int) -> Wave {
        Wave { phase: if k == 0 { Single::of(P0_15) } else if k == 1 { Single::of(P0_6) } else { Single::of(P0_85) }, jitter: Single::of(ONE) }
    }

    fn start(k: usize) -> (r: Wave)
        ensures
            r == Wave::at(k as int),
    {
        Wave { phase: if k == 0 { Single::of(P0_15) } else if k == 1 { Single::of(P0_6) } else { Single::of(P0_85) }, jitter: Single::of(ONE) }
    }
}

/// Waves on a shore: swell, crash, hissing foam and low rumble.
pub struct Ocean {
    pub sr: Single,
    pub noise: Noise,
    pub brown: Brown,
    pub rng: Rng,
    pub waves: Vec<Wave>,
    pub crash: Svf,
    pub foam: Svf,
    pub rumble: Svf,
    pub far: OnePole,
}

/// A [`Ocean`] as a value.
#[verifier::ext_equal]
pub struct OceanView {
    pub sr: Single,
    pub noise: Noise,
    pub brown: Brown,
    pub rng: Rng,
    pub waves: Seq<Wave>,
    pub crash: Svf,
    pub foam: Svf,
    pub rumble: Svf,
    pub far: OnePole,
}

impl View for Ocean {
    type V = OceanView;

    open spec fn view(&self) -> OceanView {
        OceanView {
            sr: self.sr,
            noise: self.noise,
            brown: self.brown,
            rng: self.rng,
            waves: self.waves@,
            crash: self.crash,
            foam: self.foam,
            rumble: self.rumble,
            far: self.far,
        }
    }
}

impl Ocean {
    pub open spec fn valid(self) -> bool {
        &&& self.waves@.len() == 3
    }
}

/// Settings of a control block.
#[derive(Clone, Copy, Debug, PartialEq, Eq, Structural)]
pub struct OceanMix {
    pub far_coef: Single,
    pub crash: Single,
    pub foam: Single,
    pub rumble: Single,
    pub level: Single,
}

/// The first `k` waves moved on, and the swell and foam they make.
pub open spec fn ocean_waves_of(f: Sums, p: OceanParams, dt: Single, period: Single, s: OceanView, swell: Single, fizz: Single, k: nat) -> (OceanView, Single, Single)
    decreases k,
{
    if k == 0 {
        (s, swell, fizz)
    } else {
        let (s, swell, fizz) = ocean_waves_of(f, p, dt, period, s, swell, fizz, (k - 1) as nat);
        let k = k - 1;
        let scale = wave_scale_at(k);
        let weight = wave_weight_at(k);
        let jitter = s.waves[k].jitter;
        let phase = f(Prim::Add, s.waves[k].phase, f(Prim::Div, dt, f(Prim::Mul, f(Prim::Mul, period, scale), jitter)));
        let (s, phase, jitter) = if Single::of(ONE).at_most(phase) {
            let phase = f(Prim::Sub, phase, Single::of(ONE));
            let kick = crate::math::bipolar(s.rng.fraction());
            let s = OceanView { rng: s.rng.advanced(), ..s };
            let jitter = f(Prim::Add, Single::of(ONE), f(Prim::Mul, f(Prim::Mul, p.irregular, Single::of(HALF)), kick));
            (s, phase, jitter)
        } else {
            (s, phase, jitter)
        };
        let s = OceanView { waves: s.waves.update(k, Wave { phase, jitter }), ..s };
        let swell = f(Prim::Add, swell, f(Prim::Mul, weight, surge(f, phase)));
        let fizz = f(Prim::Add, fizz, f(Prim::Mul, weight, f(Prim::Pow, surge(f, f(Prim::Rem, f(Prim::Sub, phase, Single::of(P0_08)), Single::of(ONE))), Single::of(P0_7))));
        (s, swell, fizz)
    }
}

fn ocean_waves<F: Fn(Prim, Single, Single) -> Single>(fpu: &F, p: OceanParams, dt: Single, period: Single, s: &mut Ocean, swell0: Single, fizz0: Single) -> (r: (Single, Single))
    requires
        total(*fpu),
        old(s).valid(),
    ensures
        final(s).valid(),
        forall|f: Sums| #[trigger] meant(*fpu, f) ==> (final(s)@, r.0, r.1) == ocean_waves_of(f, p, dt, period, old(s)@, swell0, fizz0, 3),
{
    let mut swell = swell0;
    let mut fizz = fizz0;
    let mut k: usize = 0;
    while k < 3
        invariant
            k <= 3,
            total(*fpu),
            s.valid(),
            forall|f: Sums| #[trigger] meant(*fpu, f) ==> (s@, swell, fizz) == ocean_waves_of(f, p, dt, period, old(s)@, swell0, fizz0, k as nat),
        decreases 3 - k,
    {
        let scale = wave_scale(k);
        let weight = wave_weight(k);
        let mut jitter = s.waves[k].jitter;
        let mut phase = fpu(Prim::Add, s.waves[k].phase, fpu(Prim::Div, dt, fpu(Prim::Mul, fpu(Prim::Mul, period, scale), jitter)));
        if Single::of(ONE).le(phase) {
            phase = fpu(Prim::Sub, phase, Single::of(ONE));
            let kick = s.rng.next_bipolar();
            jitter = fpu(Prim::Add, Single::of(ONE), fpu(Prim::Mul, fpu(Prim::Mul, p.irregular, Single::of(HALF)), kick));
        }
        let value = Wave { phase, jitter };
        s.waves.set(k, value);
        swell = fpu(Prim::Add, swell, fpu(Prim::Mul, weight, wave_env(fpu, phase)));
        fizz = fpu(Prim::Add, fizz, fpu(Prim::Mul, weight, fpu(Prim::Pow, wave_env(fpu, fpu(Prim::Rem, fpu(Prim::Sub, phase, Single::of(P0_08)), Single::of(ONE))), Single::of(P0_7))));
        k = k + 1;
    }
    (swell, fizz)
}

/// The generator at the start of a control block of `n` samples with inputs `x`, and the settings.
pub open spec fn ocean_steered(f: Sums, p: OceanParams, x: Seq<Single>, n: Single, s: OceanView) -> (OceanView, OceanMix) {
    let sr = s.sr;
    let dt = f(Prim::Div, n, sr);
    let size = x[0];
    let distance = x[1];
    let period = f(Prim::Mul, p.period, f(Prim::Add, Single::of(P0_8), f(Prim::Mul, Single::of(HALF), size)));
    let swell = Single::of(ZERO);
    let fizz = Single::of(ZERO);
    let (s, swell, fizz) = ocean_waves_of(f, p, dt, period, s, swell, fizz, 3);
    let surf = f(Prim::Add, p.wash, f(Prim::Mul, f(Prim::Sub, Single::of(ONE), f(Prim::Mul, Single::of(HALF), p.wash)), swell)).smaller(Single::of(P1_3));
    let foaming = f(Prim::Add, f(Prim::Mul, p.wash, Single::of(P0_6)), fizz);
    let s = OceanView { crash: s.crash.tuned(f, FilterMode::LowPass, f(Prim::Add, Single::of(P250), f(Prim::Mul, p.crash_hz, surf)), Single::of(P0_2), sr), ..s };
    let s = OceanView { foam: s.foam.tuned(f, FilterMode::HighPass, Single::of(P2500), Single::of(P0_1), sr), ..s };
    let s = OceanView { rumble: s.rumble.tuned(f, FilterMode::LowPass, Single::of(P90), Single::of(P0_1), sr), ..s };
    let far_coef = crate::blocks::cutoff_coef(f, f(Prim::Add, Single::of(P16000), f(Prim::Mul, f(Prim::Sub, Single::of(P1500), Single::of(P16000)), distance)), sr);
    let crash = f(Prim::Mul, f(Prim::Mul, p.crash_level, surf), Single::of(P2_8));
    let foam = f(Prim::Mul, f(Prim::Mul, p.foam_level, foaming.smaller(Single::of(P1_3))), Single::of(P0_35));
    let rumble = f(Prim::Mul, f(Prim::Mul, p.rumble_level, surf), Single::of(P2_5));
    let level = f(Prim::Mul, f(Prim::Mul, f(Prim::Add, Single::of(P0_3), f(Prim::Mul, Single::of(P0_7), size)), f(Prim::Sub, Single::of(ONE), f(Prim::Mul, Single::of(HALF), distance))), p.gain);
    (s, OceanMix { far_coef, crash, foam, rumble, level })
}

fn ocean_steer<F: Fn(Prim, Single, Single) -> Single>(fpu: &F, p: OceanParams, x: &Vec<Single>, n: Single, s: &mut Ocean) -> (r: OceanMix)
    requires
        total(*fpu),
        x@.len() == 2,
        old(s).valid(),
    ensures
        final(s).valid(),
        forall|f: Sums| #[trigger] meant(*fpu, f) ==> (final(s)@, r) == ocean_steered(f, p, x@, n, old(s)@),
{
    let sr = s.sr;
    let dt = fpu(Prim::Div, n, sr);
    let size = x[0];
    let distance = x[1];
    let period = fpu(Prim::Mul, p.period, fpu(Prim::Add, Single::of(P0_8), fpu(Prim::Mul, Single::of(HALF), size)));
    let mut swell = Single::of(ZERO);
    let mut fizz = Single::of(ZERO);
    let sums = ocean_waves(fpu, p, dt, period, s, swell, fizz);
    swell = sums.0;
    fizz = sums.1;
    let surf = fpu(Prim::Add, p.wash, fpu(Prim::Mul, fpu(Prim::Sub, Single::of(ONE), fpu(Prim::Mul, Single::of(HALF), p.wash)), swell)).min(Single::of(P1_3));
    let foaming = fpu(Prim::Add, fpu(Prim::Mul, p.wash, Single::of(P0_6)), fizz);
    s.crash.set(fpu, FilterMode::LowPass, fpu(Prim::Add, Single::of(P250), fpu(Prim::Mul, p.crash_hz, surf)), Single::of(P0_2), sr);
    s.foam.set(fpu, FilterMode::HighPass, Single::of(P2500), Single::of(P0_1), sr);
    s.rumble.set(fpu, FilterMode::LowPass, Single::of(P90), Single::of(P0_1), sr);
    let far_coef = hz_coef(fpu, fpu(Prim::Add, Single::of(P16000), fpu(Prim::Mul, fpu(Prim::Sub, Single::of(P1500), Single::of(P16000)), distance)), sr);
    let crash = fpu(Prim::Mul, fpu(Prim::Mul, p.crash_level, surf), Single::of(P2_8));
    let foam = fpu(Prim::Mul, fpu(Prim::Mul, p.foam_level, foaming.min(Single::of(P1_3))), Single::of(P0_35));
    let rumble = fpu(Prim::Mul, fpu(Prim::Mul, p.rumble_level, surf), Single::of(P2_5));
    let level = fpu(Prim::Mul, fpu(Prim::Mul, fpu(Prim::Add, Single::of(P0_3), fpu(Prim::Mul, Single::of(P0_7), size)), fpu(Prim::Sub, Single::of(ONE), fpu(Prim::Mul, Single::of(HALF), distance))), p.gain);
    OceanMix { far_coef, crash, foam, rumble, level }
}

/// One sample; what was in its place is not heard.
pub open spec fn ocean_tick(f: Sums, p: OceanParams, m: OceanMix, s: OceanView, v: Single) -> (OceanView, Single) {
    let w = s.noise.draw();
    let s = OceanView { noise: Noise { rng: s.noise.rng.advanced(), ..s.noise }, ..s };
    let pk = s.noise.pink.output(f, s.noise.draw());
    let s = OceanView { noise: Noise { rng: s.noise.rng.advanced(), pink: s.noise.pink.fed(f, s.noise.draw()) }, ..s };
    let cr = s.crash.output(f, pk);
    let s = OceanView { crash: s.crash.fed(f, pk), ..s };
    let fo = s.foam.output(f, w);
    let s = OceanView { foam: s.foam.fed(f, w), ..s };
    let br = s.brown.sound(f, w);
    let s = OceanView { brown: Brown { y: s.brown.integrated(f, w) }, ..s };
    let ru = s.rumble.output(f, br);
    let s = OceanView { rumble: s.rumble.fed(f, br), ..s };
    let y = f(Prim::Add, f(Prim::Add, f(Prim::Mul, cr, m.crash), f(Prim::Mul, fo, m.foam)), f(Prim::Mul, ru, m.rumble));
    let heard = s.far.smoothed(f, y, m.far_coef);
    let s = OceanView { far: OnePole { y: s.far.smoothed(f, y, m.far_coef) }, ..s };
    (s, f(Prim::Mul, heard, m.level))
}

/// The same for a run of samples.
pub open spec fn ocean_run(f: Sums, p: OceanParams, m: OceanMix, s: OceanView, x: Seq<Single>) -> (OceanView, Seq<Single>)
    decreases x.len(),
{
    if x.len() == 0 {
        (s, seq![])
    } else {
        let (t, out) = ocean_run(f, p, m, s, x.drop_last());
        let (u, y) = ocean_tick(f, p, m, t, x.last());
        (u, out.push(y))
    }
}

fn ocean_sample<F: Fn(Prim, Single, Single) -> Single>(fpu: &F, p: OceanParams, m: OceanMix, s: &mut Ocean, v: Single) -> (y: Single)
    requires
        total(*fpu),
        old(s).valid(),
    ensures
        final(s).valid(),
        forall|f: Sums| #[trigger] meant(*fpu, f) ==> (final(s)@, y) == ocean_tick(f, p, m, old(s)@, v),
{
    let w = s.noise.white();
    let pk = s.noise.pink(fpu);
    let cr = s.crash.tick(fpu, pk);
    let fo = s.foam.tick(fpu, w);
    let br = s.brown.tick(fpu, w);
    let ru = s.rumble.tick(fpu, br);
    let y = fpu(Prim::Add, fpu(Prim::Add, fpu(Prim::Mul, cr, m.crash), fpu(Prim::Mul, fo, m.foam)), fpu(Prim::Mul, ru, m.rumble));
    let heard = s.far.lp(fpu, y, m.far_coef);
    fpu(Prim::Mul, heard, m.level)
}

fn ocean_span<F: Fn(Prim, Single, Single) -> Single>(fpu: &F, p: OceanParams, m: OceanMix, s: &mut Ocean, buf: &mut Vec<Single>, start: usize, end: usize)
    requires
        total(*fpu),
        start <= end <= old(buf)@.len(),
        old(s).valid(),
    ensures
        final(buf)@.len() == old(buf)@.len(),
        same_outside(old(buf)@, final(buf)@, start as int, end as int),
        final(s).valid(),
        forall|f: Sums| #[trigger] meant(*fpu, f) ==> (final(s)@, final(buf)@.subrange(start as int, end as int)) == ocean_run(
            f, p, m,
            old(s)@,
            old(buf)@.subrange(start as int, end as int),
        ),
{
    let mut i: usize = start;
    let ghost before = buf@;
    assert(before.subrange(start as int, start as int) =~= seq![]);
    while i < end
        invariant
            start <= i <= end <= buf@.len(),
            buf@.len() == before.len(),
            before == old(buf)@,
            same_outside(before, buf@, start as int, i as int),
            total(*fpu),
            s.valid(),
            forall|f: Sums| #[trigger] meant(*fpu, f) ==> (s@, buf@.subrange(start as int, i as int)) == ocean_run(
                f, p, m,
                old(s)@,
                before.subrange(start as int, i as int),
            ),
        decreases end - i,
    {
        let ghost last = buf@;
        let y = ocean_sample(fpu, p, m, s, buf[i]);
        buf.set(i, y);
        i = i + 1;
        assert(before.subrange(start as int, i as int).drop_last() =~= before.subrange(start as int, i - 1));
        assert(buf@.subrange(start as int, i as int) =~= last.subrange(start as int, i - 1).push(y));
    }
}

/// What the buffer held does not matter.
proof fn lemma_ocean_overwrites(f: Sums, p: OceanParams, m: OceanMix, s: OceanView, a: Seq<Single>, b: Seq<Single>)
    requires
        a.len() == b.len(),
    ensures
        ocean_run(f, p, m, s, a) == ocean_run(f, p, m, s, b),
        ocean_run(f, p, m, s, a).1.len() == a.len(),
    decreases a.len(),
{
    if a.len() > 0 {
        lemma_ocean_overwrites(f, p, m, s, a.drop_last(), b.drop_last());
    }
}

impl Generator for Ocean {
    type P = OceanParams;

    type State = OceanView;

    open spec fn about() -> ProfileView {
        ProfileView {
            name: "ocean"@,
            category: "nature"@,
            doc: "Waves on a shore: swell, crash, hissing foam and low rumble."@,
            smooth_secs: Single::of(P0_05),
            limit: true,
            one_shot: false,
        }
    }

    open spec fn input_list() -> Seq<InputView> {
        seq![
            InputView { name: "size"@, default: Single::of(HALF), doc: "Ripples to breakers: bigger waves are slower and louder"@ },
            InputView { name: "distance"@, default: Single::of(ZERO), doc: "0 = at the waterline, 1 = far off (muffled)"@ },
        ]
    }

    open spec fn preset_list() -> Seq<(Seq<char>, OceanParams)> {
        seq![
            ("Lake shore"@, OceanParams { period: Single::of(P4), wash: Single::of(P0_45), crash_level: Single::of(P0_4), crash_hz: Single::of(P2600), rumble_level: Single::of(P0_1), foam_level: Single::of(HALF), ..OceanParams::plain() }),
            ("Storm surf"@, OceanParams { period: Single::of(P12), crash_level: Single::of(ONE), crash_hz: Single::of(P1200), rumble_level: Single::of(P0_9), irregular: Single::of(P0_7), ..OceanParams::plain() }),
        ]
    }

    open spec fn wf(&self) -> bool {
        self.valid()
    }

    open spec fn state(&self) -> OceanView {
        self@
    }

    open spec fn fresh(f: Sums, sample_rate: Single) -> OceanView {
        OceanView {
            sr: sample_rate,
            noise: Noise::seeded_with(0x54_0001),
            brown: Brown { y: Single::of(ZERO) },
            rng: Rng::seeded_with(0x54_0002),
            waves: Seq::new(3, |k: int| Wave::at(k)),
            crash: Svf::silent(),
            foam: Svf::silent(),
            rumble: Svf::silent(),
            far: OnePole { y: Single::of(ZERO) },
        }
    }

    open spec fn snapped(s: OceanView, f: Sums, x: Seq<Single>, p: OceanParams) -> OceanView {
        s
    }

    open spec fn fired(s: OceanView, f: Sums, x: Seq<Single>, p: OceanParams) -> OceanView {
        s
    }

    open spec fn ringing(s: OceanView) -> bool {
        true
    }

    open spec fn played(s: OceanView, f: Sums, x: Seq<Single>, p: OceanParams, out: Seq<Single>) -> (OceanView, Seq<Single>) {
        let (t, m) = ocean_steered(f, p, x, crate::single::signed_integer(out.len() as int), s);
        ocean_run(f, p, m, t, out)
    }

    proof fn lemma_overwrites(s: OceanView, f: Sums, x: Seq<Single>, p: OceanParams, a: Seq<Single>, b: Seq<Single>) {
        let (t, m) = ocean_steered(f, p, x, crate::single::signed_integer(a.len() as int), s);
        lemma_ocean_overwrites(f, p, m, t, a, b);
    }

    fn profile() -> (r: Profile) {
        Profile {
            name: "ocean",
            category: "nature",
            doc: "Waves on a shore: swell, crash, hissing foam and low rumble.",
            smooth_secs: Single::of(P0_05),
            limit: true,
            one_shot: false,
        }
    }

    fn inputs() -> (r: Vec<InputSpec>) {
        let mut r: Vec<InputSpec> = Vec::new();
        r.push(InputSpec { name: "size", default: Single::of(HALF), doc: "Ripples to breakers: bigger waves are slower and louder" });
        r.push(InputSpec { name: "distance", default: Single::of(ZERO), doc: "0 = at the waterline, 1 = far off (muffled)" });
        r
    }

    fn presets() -> (r: Vec<(&'static str, OceanParams)>) {
        let mut r: Vec<(&'static str, OceanParams)> = Vec::new();
        r.push(("Lake shore", OceanParams { period: Single::of(P4), wash: Single::of(P0_45), crash_level: Single::of(P0_4), crash_hz: Single::of(P2600), rumble_level: Single::of(P0_1), foam_level: Single::of(HALF), ..OceanParams::default() }));
        r.push(("Storm surf", OceanParams { period: Single::of(P12), crash_level: Single::of(ONE), crash_hz: Single::of(P1200), rumble_level: Single::of(P0_9), irregular: Single::of(P0_7), ..OceanParams::default() }));
        r
    }

    fn new<F: Fn(Prim, Single, Single) -> Single>(fpu: &F, sample_rate: Single) -> (r: Ocean) {
        let mut waves: Vec<Wave> = Vec::new();
        while waves.len() < 3
            invariant
                waves@.len() <= 3,
                forall|k: int| 0 <= k < waves@.len() ==> #[trigger] waves@[k] == Wave::at(k),
            decreases 3 - waves@.len(),
        {
            let k = waves.len();
            waves.push(Wave::start(k));
        }
        let r = Ocean {
            sr: sample_rate,
            noise: Noise::new(0x54_0001),
            brown: Brown::default(),
            rng: Rng::new(0x54_0002),
            waves,
            crash: Svf::default(),
            foam: Svf::default(),
            rumble: Svf::default(),
            far: OnePole::default(),
        };
        assert(r@.waves =~= Seq::new(3, |k: int| Wave::at(k)));
        r
    }

    fn snap<F: Fn(Prim, Single, Single) -> Single>(&mut self, fpu: &F, x: &Vec<Single>, p: &OceanParams) {
    }

    fn trigger<F: Fn(Prim, Single, Single) -> Single>(&mut self, fpu: &F, x: &Vec<Single>, p: &OceanParams) {
    }

    fn is_active(&self) -> (r: bool) {
        true
    }

    fn block<F: Fn(Prim, Single, Single) -> Single>(&mut self, fpu: &F, x: &Vec<Single>, p: &OceanParams, out: &mut Vec<Single>, start: usize, end: usize) {
        let n = from_i32((end - start) as i32);
        let m = ocean_steer(fpu, *p, x, n, self);
        ocean_span(fpu, *p, m, self, out, start, end);
    }
}

} // verus!
