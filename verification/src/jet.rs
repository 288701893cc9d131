//! Procedural jet / turbine engine for vehicles.
//!
//! A continuous sound driven by game state each frame: `throttle`, `boost` (afterburner),
//! `speed` (airspeed, for wind) and `damage`. An internal RPM model with separate
//! spool-up / spool-down times gives the engine inertia so it never snaps.
//!
//! Layers (all procedural, no samples):
//! * turbine whine: detuned sine partials + sub-harmonic shaft tone, pitch tracks RPM
//! * core roar: pink noise through RPM-tracking resonant filters, turbulence AM, drive
//! * tube resonance: short RPM-modulated feedback comb (the "jet" timbre)
//! * intake hiss: high-passed white noise, level grows with the square of RPM
//! * afterburner: driven noise with a low thrum, gated by `boost`
//! * wind: band-passed noise, level grows with the square of speed
//! * damage: random sputter drop-outs
use vstd::prelude::*;

use crate::arith::{meant, total, Prim, Sums};
use crate::blocks::{BLOCK, LONGEST_LINE};
use crate::effects::{same_outside, Echo};
use crate::filter::{FilterMode, Svf};
use crate::math::{limit, soft_clip, Rng};
use crate::noise::Noise;
use crate::params::{ParamKind, Params};
use crate::single::{from_i32, from_size, Single, HALF, ONE, TAU, THREE, TWO, ZERO};
use crate::text::{equal, equal_ignoring_case};

verus! {

/// Pattern of -9.21.
pub const N9_21: u32 = 0xc113_5c29;

/// Pattern of -0.01.
pub const N0_01: u32 = 0xbc23_d70a;

/// Pattern of 0.001.
pub const P0_001: u32 = 0x3a83_126f;

/// Pattern of 0.004.
pub const P0_004: u32 = 0x3b83_126f;

/// Pattern of 0.01.
pub const P0_01: u32 = 0x3c23_d70a;

/// Pattern of 0.05.
pub const P0_05: u32 = 0x3d4c_cccd;

/// Pattern of 0.06.
pub const P0_06: u32 = 0x3d75_c28f;

/// Pattern of 0.08.
pub const P0_08: u32 = 0x3da3_d70a;

/// Pattern of 0.1.
pub const P0_1: u32 = 0x3dcc_cccd;

/// Pattern of 0.12.
pub const P0_12: u32 = 0x3df5_c28f;

/// Pattern of 0.14.
pub const P0_14: u32 = 0x3e0f_5c29;

/// Pattern of 0.15.
pub const P0_15: u32 = 0x3e19_999a;

/// Pattern of 0.17.
pub const P0_17: u32 = 0x3e2e_147b;

/// Pattern of 0.2.
pub const P0_2: u32 = 0x3e4c_cccd;

/// Pattern of 0.22.
pub const P0_22: u32 = 0x3e61_47ae;

/// Pattern of 0.25.
pub const P0_25: u32 = 0x3e80_0000;

/// Pattern of 0.28.
pub const P0_28: u32 = 0x3e8f_5c29;

/// Pattern of 0.3.
pub const P0_3: u32 = 0x3e99_999a;

/// Pattern of 0.31.
pub const P0_31: u32 = 0x3e9e_b852;

/// Pattern of 0.34.
pub const P0_34: u32 = 0x3eae_147b;

/// Pattern of 0.35.
pub const P0_35: u32 = 0x3eb3_3333;

/// Pattern of 0.4.
pub const P0_4: u32 = 0x3ecc_cccd;

/// Pattern of 0.45.
pub const P0_45: u32 = 0x3ee6_6666;

/// Pattern of 0.55.
pub const P0_55: u32 = 0x3f0c_cccd;

/// Pattern of 0.6.
pub const P0_6: u32 = 0x3f19_999a;

/// Pattern of 0.62.
pub const P0_62: u32 = 0x3f1e_b852;

/// Pattern of 0.65.
pub const P0_65: u32 = 0x3f26_6666;

/// Pattern of 0.7.
pub const P0_7: u32 = 0x3f33_3333;

/// Pattern of 0.75.
pub const P0_75: u32 = 0x3f40_0000;

/// Pattern of 0.8.
pub const P0_8: u32 = 0x3f4c_cccd;

/// Pattern of 0.85.
pub const P0_85: u32 = 0x3f59_999a;

/// Pattern of 0.9.
pub const P0_9: u32 = 0x3f66_6666;

/// Pattern of 0.95.
pub const P0_95: u32 = 0x3f73_3333;

/// Pattern of 0.98.
pub const P0_98: u32 = 0x3f7a_e148;

/// Pattern of 1.15.
pub const P1_15: u32 = 0x3f93_3333;

/// Pattern of 1.2.
pub const P1_2: u32 = 0x3f99_999a;

/// Pattern of 1.25.
pub const P1_25: u32 = 0x3fa0_0000;

/// Pattern of 1.4.
pub const P1_4: u32 = 0x3fb3_3333;

/// Pattern of 1.5.
pub const P1_5: u32 = 0x3fc0_0000;

/// Pattern of 1.6.
pub const P1_6: u32 = 0x3fcc_cccd;

/// Pattern of 1.8.
pub const P1_8: u32 = 0x3fe6_6666;

/// Pattern of 2.4.
pub const P2_4: u32 = 0x4019_999a;

/// Pattern of 2.5.
pub const P2_5: u32 = 0x4020_0000;

/// Pattern of 2.6.
pub const P2_6: u32 = 0x4026_6666;

/// Pattern of 2.8.
pub const P2_8: u32 = 0x4033_3333;

/// Pattern of 3.5.
pub const P3_5: u32 = 0x4060_0000;

/// Pattern of 3.6.
pub const P3_6: u32 = 0x4066_6666;

/// Pattern of 4.
pub const P4: u32 = 0x4080_0000;

/// Pattern of 5.
pub const P5: u32 = 0x40a0_0000;

/// Pattern of 6.
pub const P6: u32 = 0x40c0_0000;

/// Pattern of 7.
pub const P7: u32 = 0x40e0_0000;

/// Pattern of 7.5.
pub const P7_5: u32 = 0x40f0_0000;

/// Pattern of 9.
pub const P9: u32 = 0x4110_0000;

/// Pattern of 10.
pub const P10: u32 = 0x4120_0000;

/// Pattern of 14.
pub const P14: u32 = 0x4160_0000;

/// Pattern of 20.
pub const P20: u32 = 0x41a0_0000;

/// Pattern of 22.
pub const P22: u32 = 0x41b0_0000;

/// Pattern of 24.
pub const P24: u32 = 0x41c0_0000;

/// Pattern of 30.
pub const P30: u32 = 0x41f0_0000;

/// Pattern of 38.
pub const P38: u32 = 0x4218_0000;

/// Pattern of 50.
pub const P50: u32 = 0x4248_0000;

/// Pattern of 55.
pub const P55: u32 = 0x425c_0000;

/// Pattern of 60.
pub const P60: u32 = 0x4270_0000;

/// Pattern of 100.
pub const P100: u32 = 0x42c8_0000;

/// Pattern of 120.
pub const P120: u32 = 0x42f0_0000;

/// Pattern of 200.
pub const P200: u32 = 0x4348_0000;

/// Pattern of 250.
pub const P250: u32 = 0x437a_0000;

/// Pattern of 480.
pub const P480: u32 = 0x43f0_0000;

/// Pattern of 500.
pub const P500: u32 = 0x43fa_0000;

/// Pattern of 900.
pub const P900: u32 = 0x4461_0000;

/// Pattern of 1200.
pub const P1200: u32 = 0x4496_0000;

/// Pattern of 1400.
pub const P1400: u32 = 0x44af_0000;

/// Pattern of 1500.
pub const P1500: u32 = 0x44bb_8000;

/// Pattern of 2000.
pub const P2000: u32 = 0x44fa_0000;

/// Pattern of 2600.
pub const P2600: u32 = 0x4522_8000;

/// Pattern of 3400.
pub const P3400: u32 = 0x4554_8000;

/// Pattern of 4000.
pub const P4000: u32 = 0x457a_0000;

/// Pattern of 5000.
pub const P5000: u32 = 0x459c_4000;

/// Pattern of 5200.
pub const P5200: u32 = 0x45a2_8000;

/// Pattern of 6000.
pub const P6000: u32 = 0x45bb_8000;

/// Pattern of 6500.
pub const P6500: u32 = 0x45cb_2000;

/// Pattern of 7000.
pub const P7000: u32 = 0x45da_c000;

/// Pattern of 8000.
pub const P8000: u32 = 0x45fa_0000;

/// Pattern of 16000.
pub const P16000: u32 = 0x467a_0000;

/// Pattern of the longest tube delay supported in milliseconds (sizes the comb buffer at
/// construction).
pub const MAX_TUBE_MS: u32 = 0x41f0_0000;

#[derive(Clone, Copy, Debug, PartialEq, Eq, Structural)]
pub struct JetParams {
    /// Seconds for RPM to reach ~95% of a higher throttle.
    pub spool_up: Single,
    /// Seconds for RPM to fall to ~95% of the way to a lower throttle.
    pub spool_down: Single,
    /// RPM fraction at zero throttle.
    pub idle_rpm: Single,
    /// RPM multiplier at full boost (afterburner over-speed).
    pub boost_rpm: Single,

    /// Whine fundamental at RPM 1.0.
    pub whine_hz: Single,
    pub whine_level: Single,
    /// Detune between the two main partials, in cents (creates beating).
    pub whine_detune: Single,
    /// Level of the sub-harmonic shaft tone (one octave below).
    pub whine_shaft: Single,

    pub roar_level: Single,
    /// Roar low-pass cutoff at RPM 1.0 (tracks RPM over ±2 octaves).
    pub roar_hz: Single,
    pub roar_resonance: Single,
    /// Rate of the turbulence amplitude modulation in Hz.
    pub rumble_hz: Single,
    /// Depth of the turbulence modulation 0..1.
    pub rumble: Single,
    pub roar_drive: Single,

    /// Comb delay in milliseconds at idle (shortens as RPM rises).
    pub tube_ms: Single,
    pub tube_feedback: Single,
    pub tube_mix: Single,

    pub hiss_level: Single,
    pub hiss_hz: Single,

    pub burner_level: Single,
    pub burner_drive: Single,
    /// Afterburner low-frequency thrum rate in Hz.
    pub burner_thrum_hz: Single,

    pub wind_level: Single,
    /// Wind band-pass centre at speed 1.0.
    pub wind_hz: Single,

    /// Output gain (linear).
    pub gain: Single,
}

impl Default for JetParams {
    fn default() -> (r: JetParams)
        ensures
            r == JetPreset::Racer.character(),
    {
        JetPreset::Racer.params()
    }
}

/// Identifier of every tweakable value in [`JetParams`].
#[derive(Clone, Copy, Debug, PartialEq, Eq, Structural)]
pub enum JetParamId {
    SpoolUp,
    SpoolDown,
    IdleRpm,
    BoostRpm,
    WhineHz,
    WhineLevel,
    WhineDetune,
    WhineShaft,
    RoarLevel,
    RoarHz,
    RoarResonance,
    RumbleHz,
    Rumble,
    RoarDrive,
    TubeMs,
    TubeFeedback,
    TubeMix,
    HissLevel,
    HissHz,
    BurnerLevel,
    BurnerDrive,
    BurnerThrumHz,
    WindLevel,
    WindHz,
    Gain,
}

impl JetParamId {
    /// Number of parameters.
    pub const COUNT: usize = 25;

    /// Every parameter, in table order.
    pub open spec fn all() -> Seq<JetParamId> {
        seq![
            JetParamId::SpoolUp,
            JetParamId::SpoolDown,
            JetParamId::IdleRpm,
            JetParamId::BoostRpm,
            JetParamId::WhineHz,
            JetParamId::WhineLevel,
            JetParamId::WhineDetune,
            JetParamId::WhineShaft,
            JetParamId::RoarLevel,
            JetParamId::RoarHz,
            JetParamId::RoarResonance,
            JetParamId::RumbleHz,
            JetParamId::Rumble,
            JetParamId::RoarDrive,
            JetParamId::TubeMs,
            JetParamId::TubeFeedback,
            JetParamId::TubeMix,
            JetParamId::HissLevel,
            JetParamId::HissHz,
            JetParamId::BurnerLevel,
            JetParamId::BurnerDrive,
            JetParamId::BurnerThrumHz,
            JetParamId::WindLevel,
            JetParamId::WindHz,
            JetParamId::Gain,
        ]
    }

    /// Place in the table.
    pub open spec fn place(self) -> int {
        match self {
            JetParamId::SpoolUp => 0,
            JetParamId::SpoolDown => 1,
            JetParamId::IdleRpm => 2,
            JetParamId::BoostRpm => 3,
            JetParamId::WhineHz => 4,
            JetParamId::WhineLevel => 5,
            JetParamId::WhineDetune => 6,
            JetParamId::WhineShaft => 7,
            JetParamId::RoarLevel => 8,
            JetParamId::RoarHz => 9,
            JetParamId::RoarResonance => 10,
            JetParamId::RumbleHz => 11,
            JetParamId::Rumble => 12,
            JetParamId::RoarDrive => 13,
            JetParamId::TubeMs => 14,
            JetParamId::TubeFeedback => 15,
            JetParamId::TubeMix => 16,
            JetParamId::HissLevel => 17,
            JetParamId::HissHz => 18,
            JetParamId::BurnerLevel => 19,
            JetParamId::BurnerDrive => 20,
            JetParamId::BurnerThrumHz => 21,
            JetParamId::WindLevel => 22,
            JetParamId::WindHz => 23,
            JetParamId::Gain => 24,
        }
    }

    pub open spec fn label(self) -> Seq<char> {
        match self {
            JetParamId::SpoolUp => "spool/up"@,
            JetParamId::SpoolDown => "spool/down"@,
            JetParamId::IdleRpm => "spool/idle_rpm"@,
            JetParamId::BoostRpm => "spool/boost_rpm"@,
            JetParamId::WhineHz => "whine/hz"@,
            JetParamId::WhineLevel => "whine/level"@,
            JetParamId::WhineDetune => "whine/detune_cents"@,
            JetParamId::WhineShaft => "whine/shaft"@,
            JetParamId::RoarLevel => "roar/level"@,
            JetParamId::RoarHz => "roar/hz"@,
            JetParamId::RoarResonance => "roar/resonance"@,
            JetParamId::RumbleHz => "roar/rumble_hz"@,
            JetParamId::Rumble => "roar/rumble"@,
            JetParamId::RoarDrive => "roar/drive"@,
            JetParamId::TubeMs => "tube/ms"@,
            JetParamId::TubeFeedback => "tube/feedback"@,
            JetParamId::TubeMix => "tube/mix"@,
            JetParamId::HissLevel => "hiss/level"@,
            JetParamId::HissHz => "hiss/hz"@,
            JetParamId::BurnerLevel => "burner/level"@,
            JetParamId::BurnerDrive => "burner/drive"@,
            JetParamId::BurnerThrumHz => "burner/thrum_hz"@,
            JetParamId::WindLevel => "wind/level"@,
            JetParamId::WindHz => "wind/hz"@,
            JetParamId::Gain => "master/gain"@,
        }
    }

    pub open spec fn range(self) -> ParamKind {
        match self {
            JetParamId::SpoolUp => ParamKind::Float { min: Single::of(P0_05), max: Single::of(P10), step: Single::of(P0_01) },
            JetParamId::SpoolDown => ParamKind::Float { min: Single::of(P0_05), max: Single::of(P10), step: Single::of(P0_01) },
            JetParamId::IdleRpm => ParamKind::Float { min: Single::of(P0_05), max: Single::of(P0_9), step: Single::of(P0_01) },
            JetParamId::BoostRpm => ParamKind::Float { min: Single::of(ONE), max: Single::of(TWO), step: Single::of(P0_01) },
            JetParamId::WhineHz => ParamKind::Exp { min: Single::of(P100), max: Single::of(P8000) },
            JetParamId::WhineLevel => ParamKind::Float { min: Single::of(ZERO), max: Single::of(ONE), step: Single::of(P0_001) },
            JetParamId::WhineDetune => ParamKind::Float { min: Single::of(ZERO), max: Single::of(P50), step: Single::of(P0_1) },
            JetParamId::WhineShaft => ParamKind::Float { min: Single::of(ZERO), max: Single::of(ONE), step: Single::of(P0_001) },
            JetParamId::RoarLevel => ParamKind::Float { min: Single::of(ZERO), max: Single::of(ONE), step: Single::of(P0_001) },
            JetParamId::RoarHz => ParamKind::Exp { min: Single::of(P60), max: Single::of(P6000) },
            JetParamId::RoarResonance => ParamKind::Float { min: Single::of(ZERO), max: Single::of(P0_95), step: Single::of(P0_001) },
            JetParamId::RumbleHz => ParamKind::Float { min: Single::of(HALF), max: Single::of(P60), step: Single::of(P0_1) },
            JetParamId::Rumble => ParamKind::Float { min: Single::of(ZERO), max: Single::of(ONE), step: Single::of(P0_001) },
            JetParamId::RoarDrive => ParamKind::Float { min: Single::of(ZERO), max: Single::of(ONE), step: Single::of(P0_001) },
            JetParamId::TubeMs => ParamKind::Float { min: Single::of(HALF), max: Single::of(P30), step: Single::of(P0_01) },
            JetParamId::TubeFeedback => ParamKind::Float { min: Single::of(ZERO), max: Single::of(P0_9), step: Single::of(P0_001) },
            JetParamId::TubeMix => ParamKind::Float { min: Single::of(ZERO), max: Single::of(ONE), step: Single::of(P0_001) },
            JetParamId::HissLevel => ParamKind::Float { min: Single::of(ZERO), max: Single::of(ONE), step: Single::of(P0_001) },
            JetParamId::HissHz => ParamKind::Exp { min: Single::of(P500), max: Single::of(P16000) },
            JetParamId::BurnerLevel => ParamKind::Float { min: Single::of(ZERO), max: Single::of(ONE), step: Single::of(P0_001) },
            JetParamId::BurnerDrive => ParamKind::Float { min: Single::of(ZERO), max: Single::of(ONE), step: Single::of(P0_001) },
            JetParamId::BurnerThrumHz => ParamKind::Float { min: Single::of(P5), max: Single::of(P120), step: Single::of(P0_1) },
            JetParamId::WindLevel => ParamKind::Float { min: Single::of(ZERO), max: Single::of(ONE), step: Single::of(P0_001) },
            JetParamId::WindHz => ParamKind::Exp { min: Single::of(P200), max: Single::of(P8000) },
            JetParamId::Gain => ParamKind::Float { min: Single::of(ZERO), max: Single::of(TWO), step: Single::of(P0_001) },
        }
    }

    /// The parameter at a place of the table, if there is one.
    pub fn from_index(i: usize) -> (r: Option<JetParamId>)
        ensures
            r == if i < 25 {
                Some(JetParamId::all()[i as int])
            } else {
                None
            },
    {
        if i < 25 {
            Some(JetParamId::nth(i))
        } else {
            None
        }
    }

    /// The parameter at a place of the table.
    pub fn nth(i: usize) -> (r: JetParamId)
        requires
            i < 25,
        ensures
            r == JetParamId::all()[i as int],
            r.place() == i,
    {
        match i {
            0 => JetParamId::SpoolUp,
            1 => JetParamId::SpoolDown,
            2 => JetParamId::IdleRpm,
            3 => JetParamId::BoostRpm,
            4 => JetParamId::WhineHz,
            5 => JetParamId::WhineLevel,
            6 => JetParamId::WhineDetune,
            7 => JetParamId::WhineShaft,
            8 => JetParamId::RoarLevel,
            9 => JetParamId::RoarHz,
            10 => JetParamId::RoarResonance,
            11 => JetParamId::RumbleHz,
            12 => JetParamId::Rumble,
            13 => JetParamId::RoarDrive,
            14 => JetParamId::TubeMs,
            15 => JetParamId::TubeFeedback,
            16 => JetParamId::TubeMix,
            17 => JetParamId::HissLevel,
            18 => JetParamId::HissHz,
            19 => JetParamId::BurnerLevel,
            20 => JetParamId::BurnerDrive,
            21 => JetParamId::BurnerThrumHz,
            22 => JetParamId::WindLevel,
            23 => JetParamId::WindHz,
            _ => JetParamId::Gain,
        }
    }

    pub fn index(self) -> (r: usize)
        ensures
            r == self.place(),
            r < 25,
    {
        match self {
            JetParamId::SpoolUp => 0,
            JetParamId::SpoolDown => 1,
            JetParamId::IdleRpm => 2,
            JetParamId::BoostRpm => 3,
            JetParamId::WhineHz => 4,
            JetParamId::WhineLevel => 5,
            JetParamId::WhineDetune => 6,
            JetParamId::WhineShaft => 7,
            JetParamId::RoarLevel => 8,
            JetParamId::RoarHz => 9,
            JetParamId::RoarResonance => 10,
            JetParamId::RumbleHz => 11,
            JetParamId::Rumble => 12,
            JetParamId::RoarDrive => 13,
            JetParamId::TubeMs => 14,
            JetParamId::TubeFeedback => 15,
            JetParamId::TubeMix => 16,
            JetParamId::HissLevel => 17,
            JetParamId::HissHz => 18,
            JetParamId::BurnerLevel => 19,
            JetParamId::BurnerDrive => 20,
            JetParamId::BurnerThrumHz => 21,
            JetParamId::WindLevel => 22,
            JetParamId::WindHz => 23,
            JetParamId::Gain => 24,
        }
    }

    pub fn name(self) -> (r: &'static str)
        ensures
            r@ == self.label(),
    {
        match self {
            JetParamId::SpoolUp => "spool/up",
            JetParamId::SpoolDown => "spool/down",
            JetParamId::IdleRpm => "spool/idle_rpm",
            JetParamId::BoostRpm => "spool/boost_rpm",
            JetParamId::WhineHz => "whine/hz",
            JetParamId::WhineLevel => "whine/level",
            JetParamId::WhineDetune => "whine/detune_cents",
            JetParamId::WhineShaft => "whine/shaft",
            JetParamId::RoarLevel => "roar/level",
            JetParamId::RoarHz => "roar/hz",
            JetParamId::RoarResonance => "roar/resonance",
            JetParamId::RumbleHz => "roar/rumble_hz",
            JetParamId::Rumble => "roar/rumble",
            JetParamId::RoarDrive => "roar/drive",
            JetParamId::TubeMs => "tube/ms",
            JetParamId::TubeFeedback => "tube/feedback",
            JetParamId::TubeMix => "tube/mix",
            JetParamId::HissLevel => "hiss/level",
            JetParamId::HissHz => "hiss/hz",
            JetParamId::BurnerLevel => "burner/level",
            JetParamId::BurnerDrive => "burner/drive",
            JetParamId::BurnerThrumHz => "burner/thrum_hz",
            JetParamId::WindLevel => "wind/level",
            JetParamId::WindHz => "wind/hz",
            JetParamId::Gain => "master/gain",
        }
    }

    pub fn kind(self) -> (r: ParamKind)
        ensures
            r == self.range(),
            r.wf(),
    {
        match self {
            JetParamId::SpoolUp => ParamKind::Float { min: Single::of(P0_05), max: Single::of(P10), step: Single::of(P0_01) },
            JetParamId::SpoolDown => ParamKind::Float { min: Single::of(P0_05), max: Single::of(P10), step: Single::of(P0_01) },
            JetParamId::IdleRpm => ParamKind::Float { min: Single::of(P0_05), max: Single::of(P0_9), step: Single::of(P0_01) },
            JetParamId::BoostRpm => ParamKind::Float { min: Single::of(ONE), max: Single::of(TWO), step: Single::of(P0_01) },
            JetParamId::WhineHz => ParamKind::Exp { min: Single::of(P100), max: Single::of(P8000) },
            JetParamId::WhineLevel => ParamKind::Float { min: Single::of(ZERO), max: Single::of(ONE), step: Single::of(P0_001) },
            JetParamId::WhineDetune => ParamKind::Float { min: Single::of(ZERO), max: Single::of(P50), step: Single::of(P0_1) },
            JetParamId::WhineShaft => ParamKind::Float { min: Single::of(ZERO), max: Single::of(ONE), step: Single::of(P0_001) },
            JetParamId::RoarLevel => ParamKind::Float { min: Single::of(ZERO), max: Single::of(ONE), step: Single::of(P0_001) },
            JetParamId::RoarHz => ParamKind::Exp { min: Single::of(P60), max: Single::of(P6000) },
            JetParamId::RoarResonance => ParamKind::Float { min: Single::of(ZERO), max: Single::of(P0_95), step: Single::of(P0_001) },
            JetParamId::RumbleHz => ParamKind::Float { min: Single::of(HALF), max: Single::of(P60), step: Single::of(P0_1) },
            JetParamId::Rumble => ParamKind::Float { min: Single::of(ZERO), max: Single::of(ONE), step: Single::of(P0_001) },
            JetParamId::RoarDrive => ParamKind::Float { min: Single::of(ZERO), max: Single::of(ONE), step: Single::of(P0_001) },
            JetParamId::TubeMs => ParamKind::Float { min: Single::of(HALF), max: Single::of(P30), step: Single::of(P0_01) },
            JetParamId::TubeFeedback => ParamKind::Float { min: Single::of(ZERO), max: Single::of(P0_9), step: Single::of(P0_001) },
            JetParamId::TubeMix => ParamKind::Float { min: Single::of(ZERO), max: Single::of(ONE), step: Single::of(P0_001) },
            JetParamId::HissLevel => ParamKind::Float { min: Single::of(ZERO), max: Single::of(ONE), step: Single::of(P0_001) },
            JetParamId::HissHz => ParamKind::Exp { min: Single::of(P500), max: Single::of(P16000) },
            JetParamId::BurnerLevel => ParamKind::Float { min: Single::of(ZERO), max: Single::of(ONE), step: Single::of(P0_001) },
            JetParamId::BurnerDrive => ParamKind::Float { min: Single::of(ZERO), max: Single::of(ONE), step: Single::of(P0_001) },
            JetParamId::BurnerThrumHz => ParamKind::Float { min: Single::of(P5), max: Single::of(P120), step: Single::of(P0_1) },
            JetParamId::WindLevel => ParamKind::Float { min: Single::of(ZERO), max: Single::of(ONE), step: Single::of(P0_001) },
            JetParamId::WindHz => ParamKind::Exp { min: Single::of(P200), max: Single::of(P8000) },
            JetParamId::Gain => ParamKind::Float { min: Single::of(ZERO), max: Single::of(TWO), step: Single::of(P0_001) },
        }
    }

    /// The parameter with a name.
    pub fn from_name(name: &str) -> (r: Option<JetParamId>)
        ensures
            match r {
                Some(id) => id.label() == name@,
                None => forall|id: JetParamId| (#[trigger] id.label()) != name@,
            },
    {
        let mut i: usize = 0;
        while i < 25
            invariant
                i <= 25,
                forall|id: JetParamId| id.place() < i ==> (#[trigger] id.label()) != name@,
            decreases 25 - i,
        {
            let id = JetParamId::nth(i);
            if equal(id.name(), name) {
                return Some(id);
            }
            proof {
                assert forall|other: JetParamId| other.place() < i + 1 implies (#[trigger] other.label()) != name@ by {
                    if other.place() == i {
                        assert(JetParamId::all()[other.place()] == other);
                    }
                }
            }
            i = i + 1;
        }
        None
    }
}

impl JetParams {
    /// Value of a parameter; names count by their index.
    pub open spec fn value(self, id: JetParamId) -> Single {
        match id {
            JetParamId::SpoolUp => self.spool_up,
            JetParamId::SpoolDown => self.spool_down,
            JetParamId::IdleRpm => self.idle_rpm,
            JetParamId::BoostRpm => self.boost_rpm,
            JetParamId::WhineHz => self.whine_hz,
            JetParamId::WhineLevel => self.whine_level,
            JetParamId::WhineDetune => self.whine_detune,
            JetParamId::WhineShaft => self.whine_shaft,
            JetParamId::RoarLevel => self.roar_level,
            JetParamId::RoarHz => self.roar_hz,
            JetParamId::RoarResonance => self.roar_resonance,
            JetParamId::RumbleHz => self.rumble_hz,
            JetParamId::Rumble => self.rumble,
            JetParamId::RoarDrive => self.roar_drive,
            JetParamId::TubeMs => self.tube_ms,
            JetParamId::TubeFeedback => self.tube_feedback,
            JetParamId::TubeMix => self.tube_mix,
            JetParamId::HissLevel => self.hiss_level,
            JetParamId::HissHz => self.hiss_hz,
            JetParamId::BurnerLevel => self.burner_level,
            JetParamId::BurnerDrive => self.burner_drive,
            JetParamId::BurnerThrumHz => self.burner_thrum_hz,
            JetParamId::WindLevel => self.wind_level,
            JetParamId::WindHz => self.wind_hz,
            JetParamId::Gain => self.gain,
        }
    }

    /// With a parameter set to the nearest value it can take.
    pub open spec fn with(self, id: JetParamId, v: Single) -> JetParams {
        match id {
            JetParamId::SpoolUp => JetParams { spool_up: id.range().clamped(v), ..self },
            JetParamId::SpoolDown => JetParams { spool_down: id.range().clamped(v), ..self },
            JetParamId::IdleRpm => JetParams { idle_rpm: id.range().clamped(v), ..self },
            JetParamId::BoostRpm => JetParams { boost_rpm: id.range().clamped(v), ..self },
            JetParamId::WhineHz => JetParams { whine_hz: id.range().clamped(v), ..self },
            JetParamId::WhineLevel => JetParams { whine_level: id.range().clamped(v), ..self },
            JetParamId::WhineDetune => JetParams { whine_detune: id.range().clamped(v), ..self },
            JetParamId::WhineShaft => JetParams { whine_shaft: id.range().clamped(v), ..self },
            JetParamId::RoarLevel => JetParams { roar_level: id.range().clamped(v), ..self },
            JetParamId::RoarHz => JetParams { roar_hz: id.range().clamped(v), ..self },
            JetParamId::RoarResonance => JetParams { roar_resonance: id.range().clamped(v), ..self },
            JetParamId::RumbleHz => JetParams { rumble_hz: id.range().clamped(v), ..self },
            JetParamId::Rumble => JetParams { rumble: id.range().clamped(v), ..self },
            JetParamId::RoarDrive => JetParams { roar_drive: id.range().clamped(v), ..self },
            JetParamId::TubeMs => JetParams { tube_ms: id.range().clamped(v), ..self },
            JetParamId::TubeFeedback => JetParams { tube_feedback: id.range().clamped(v), ..self },
            JetParamId::TubeMix => JetParams { tube_mix: id.range().clamped(v), ..self },
            JetParamId::HissLevel => JetParams { hiss_level: id.range().clamped(v), ..self },
            JetParamId::HissHz => JetParams { hiss_hz: id.range().clamped(v), ..self },
            JetParamId::BurnerLevel => JetParams { burner_level: id.range().clamped(v), ..self },
            JetParamId::BurnerDrive => JetParams { burner_drive: id.range().clamped(v), ..self },
            JetParamId::BurnerThrumHz => JetParams { burner_thrum_hz: id.range().clamped(v), ..self },
            JetParamId::WindLevel => JetParams { wind_level: id.range().clamped(v), ..self },
            JetParamId::WindHz => JetParams { wind_hz: id.range().clamped(v), ..self },
            JetParamId::Gain => JetParams { gain: id.range().clamped(v), ..self },
        }
    }

    pub fn get(&self, id: JetParamId) -> (r: Single)
        ensures
            r == self.value(id),
    {
        match id {
            JetParamId::SpoolUp => self.spool_up,
            JetParamId::SpoolDown => self.spool_down,
            JetParamId::IdleRpm => self.idle_rpm,
            JetParamId::BoostRpm => self.boost_rpm,
            JetParamId::WhineHz => self.whine_hz,
            JetParamId::WhineLevel => self.whine_level,
            JetParamId::WhineDetune => self.whine_detune,
            JetParamId::WhineShaft => self.whine_shaft,
            JetParamId::RoarLevel => self.roar_level,
            JetParamId::RoarHz => self.roar_hz,
            JetParamId::RoarResonance => self.roar_resonance,
            JetParamId::RumbleHz => self.rumble_hz,
            JetParamId::Rumble => self.rumble,
            JetParamId::RoarDrive => self.roar_drive,
            JetParamId::TubeMs => self.tube_ms,
            JetParamId::TubeFeedback => self.tube_feedback,
            JetParamId::TubeMix => self.tube_mix,
            JetParamId::HissLevel => self.hiss_level,
            JetParamId::HissHz => self.hiss_hz,
            JetParamId::BurnerLevel => self.burner_level,
            JetParamId::BurnerDrive => self.burner_drive,
            JetParamId::BurnerThrumHz => self.burner_thrum_hz,
            JetParamId::WindLevel => self.wind_level,
            JetParamId::WindHz => self.wind_hz,
            JetParamId::Gain => self.gain,
        }
    }

    /// Set a parameter to the nearest value it can take; what is no number is ignored.
    pub fn set(&mut self, id: JetParamId, v: Single)
        ensures
            *final(self) == if v.finite() {
                old(self).with(id, v)
            } else {
                *old(self)
            },
    {
        if !v.is_finite() {
            return;
        }
        match id {
            JetParamId::SpoolUp => {
                self.spool_up = id.kind().clamp(v);
            },
            JetParamId::SpoolDown => {
                self.spool_down = id.kind().clamp(v);
            },
            JetParamId::IdleRpm => {
                self.idle_rpm = id.kind().clamp(v);
            },
            JetParamId::BoostRpm => {
                self.boost_rpm = id.kind().clamp(v);
            },
            JetParamId::WhineHz => {
                self.whine_hz = id.kind().clamp(v);
            },
            JetParamId::WhineLevel => {
                self.whine_level = id.kind().clamp(v);
            },
            JetParamId::WhineDetune => {
                self.whine_detune = id.kind().clamp(v);
            },
            JetParamId::WhineShaft => {
                self.whine_shaft = id.kind().clamp(v);
            },
            JetParamId::RoarLevel => {
                self.roar_level = id.kind().clamp(v);
            },
            JetParamId::RoarHz => {
                self.roar_hz = id.kind().clamp(v);
            },
            JetParamId::RoarResonance => {
                self.roar_resonance = id.kind().clamp(v);
            },
            JetParamId::RumbleHz => {
                self.rumble_hz = id.kind().clamp(v);
            },
            JetParamId::Rumble => {
                self.rumble = id.kind().clamp(v);
            },
            JetParamId::RoarDrive => {
                self.roar_drive = id.kind().clamp(v);
            },
            JetParamId::TubeMs => {
                self.tube_ms = id.kind().clamp(v);
            },
            JetParamId::TubeFeedback => {
                self.tube_feedback = id.kind().clamp(v);
            },
            JetParamId::TubeMix => {
                self.tube_mix = id.kind().clamp(v);
            },
            JetParamId::HissLevel => {
                self.hiss_level = id.kind().clamp(v);
            },
            JetParamId::HissHz => {
                self.hiss_hz = id.kind().clamp(v);
            },
            JetParamId::BurnerLevel => {
                self.burner_level = id.kind().clamp(v);
            },
            JetParamId::BurnerDrive => {
                self.burner_drive = id.kind().clamp(v);
            },
            JetParamId::BurnerThrumHz => {
                self.burner_thrum_hz = id.kind().clamp(v);
            },
            JetParamId::WindLevel => {
                self.wind_level = id.kind().clamp(v);
            },
            JetParamId::WindHz => {
                self.wind_hz = id.kind().clamp(v);
            },
            JetParamId::Gain => {
                self.gain = id.kind().clamp(v);
            },
        }
    }
}

/// A parameter that was set has the nearest value it can take.
pub proof fn lemma_jetparams_set_get(p: JetParams, id: JetParamId, v: Single)
    requires
        v.finite(),
    ensures
        p.with(id, v).value(id) == id.range().clamped(v),
{
}


/// Setting a parameter leaves every other one what it was.
#[verifier::rlimit(30)]
pub proof fn lemma_jetparams_set_keeps_others(p: JetParams, id: JetParamId, other: JetParamId, v: Single)
    requires
        other != id,
    ensures
        p.with(id, v).value(other) == p.value(other),
{
}

/// Length and some letters of a name.
spec fn jetparamid_sign(id: JetParamId) -> (int, char, char) {
    match id {
        JetParamId::SpoolUp => (8, 's', 'p'),
        JetParamId::SpoolDown => (10, 's', 'o'),
        JetParamId::IdleRpm => (14, 's', 'd'),
        JetParamId::BoostRpm => (15, 's', 'o'),
        JetParamId::WhineHz => (8, 'w', 'z'),
        JetParamId::WhineLevel => (11, 'w', 'e'),
        JetParamId::WhineDetune => (18, 'w', 'e'),
        JetParamId::WhineShaft => (11, 'w', 'h'),
        JetParamId::RoarLevel => (10, 'r', 'v'),
        JetParamId::RoarHz => (7, 'r', ' '),
        JetParamId::RoarResonance => (14, 'r', 's'),
        JetParamId::RumbleHz => (14, 'r', 'm'),
        JetParamId::Rumble => (11, 'r', 'm'),
        JetParamId::RoarDrive => (10, 'r', 'i'),
        JetParamId::TubeMs => (7, 't', ' '),
        JetParamId::TubeFeedback => (13, 't', 'e'),
        JetParamId::TubeMix => (8, 't', 'x'),
        JetParamId::HissLevel => (10, 'h', 'v'),
        JetParamId::HissHz => (7, 'h', ' '),
        JetParamId::BurnerLevel => (12, 'b', 'l'),
        JetParamId::BurnerDrive => (12, 'b', 'd'),
        JetParamId::BurnerThrumHz => (15, 'b', 't'),
        JetParamId::WindLevel => (10, 'w', 'v'),
        JetParamId::WindHz => (7, 'w', ' '),
        JetParamId::Gain => (11, 'm', 'g'),
    }
}

#[verifier::rlimit(60)]
proof fn lemma_jetparamid_sign(id: JetParamId)
    ensures
        id.label().len() == jetparamid_sign(id).0,
        jetparamid_sign(id).0 > 0 ==> id.label()[0] == jetparamid_sign(id).1,
        jetparamid_sign(id).0 > 7 ==> id.label()[7] == jetparamid_sign(id).2,
{
    reveal_strlit("spool/up");
    reveal_strlit("spool/down");
    reveal_strlit("spool/idle_rpm");
    reveal_strlit("spool/boost_rpm");
    reveal_strlit("whine/hz");
    reveal_strlit("whine/level");
    reveal_strlit("whine/detune_cents");
    reveal_strlit("whine/shaft");
    reveal_strlit("roar/level");
    reveal_strlit("roar/hz");
    reveal_strlit("roar/resonance");
    reveal_strlit("roar/rumble_hz");
    reveal_strlit("roar/rumble");
    reveal_strlit("roar/drive");
    reveal_strlit("tube/ms");
    reveal_strlit("tube/feedback");
    reveal_strlit("tube/mix");
    reveal_strlit("hiss/level");
    reveal_strlit("hiss/hz");
    reveal_strlit("burner/level");
    reveal_strlit("burner/drive");
    reveal_strlit("burner/thrum_hz");
    reveal_strlit("wind/level");
    reveal_strlit("wind/hz");
    reveal_strlit("master/gain");
}

/// Names tell the parameters apart, so looking up a parameter's name gives the parameter.
pub proof fn lemma_jetparamid_names_differ(a: JetParamId, b: JetParamId)
    requires
        a.label() == b.label(),
    ensures
        a == b,
{
    lemma_jetparamid_sign(a);
    lemma_jetparamid_sign(b);
}

/// Ready-made engine characters.
#[derive(Clone, Copy, Debug, PartialEq, Eq, Structural, Hash)]
pub enum JetPreset {
    /// Light, responsive racing turbine.
    Racer,
    /// Big slow-spooling engine with lots of low rumble.
    Heavy,
    /// Old-school whiny turbojet.
    Turbine,
    /// Exotic, hissy, almost tone-less ramjet.
    Scramjet,
}

impl JetPreset {
    /// Every variant, in index order.
    pub open spec fn all() -> Seq<JetPreset> {
        seq![
            JetPreset::Racer,
            JetPreset::Heavy,
            JetPreset::Turbine,
            JetPreset::Scramjet,
        ]
    }

    /// Position in [`JetPreset::all`].
    pub open spec fn position(self) -> int {
        match self {
            JetPreset::Racer => 0,
            JetPreset::Heavy => 1,
            JetPreset::Turbine => 2,
            JetPreset::Scramjet => 3,
        }
    }

    /// The published name.
    pub open spec fn label(self) -> Seq<char> {
        match self {
            JetPreset::Racer => "Racer"@,
            JetPreset::Heavy => "Heavy"@,
            JetPreset::Turbine => "Turbine"@,
            JetPreset::Scramjet => "Scramjet"@,
        }
    }

    /// The variant at an index; every index past the end means the last one.
    pub fn from_index(i: usize) -> (r: JetPreset)
        ensures
            r == JetPreset::all()[if i < 4 { i as int } else { 3 }],
    {
        match i {
            0 => JetPreset::Racer,
            1 => JetPreset::Heavy,
            2 => JetPreset::Turbine,
            _ => JetPreset::Scramjet,
        }
    }

    /// Index of the variant, the inverse of [`JetPreset::from_index`].
    pub fn index(self) -> (r: usize)
        ensures
            r == self.position(),
            r < 4,
            JetPreset::all()[r as int] == self,
    {
        match self {
            JetPreset::Racer => 0,
            JetPreset::Heavy => 1,
            JetPreset::Turbine => 2,
            JetPreset::Scramjet => 3,
        }
    }

    pub fn name(self) -> (r: &'static str)
        ensures
            r@ == self.label(),
    {
        match self {
            JetPreset::Racer => "Racer",
            JetPreset::Heavy => "Heavy",
            JetPreset::Turbine => "Turbine",
            JetPreset::Scramjet => "Scramjet",
        }
    }

    /// The variant with that name, whatever the case of its letters.
    pub fn from_name(name: &str) -> (r: Option<JetPreset>)
        ensures
            r matches Some(p) ==> crate::text::same_word(name@, p.label()),
            r is None ==> forall|p: JetPreset| !crate::text::same_word(name@, #[trigger] p.label()),
    {
        let mut i: usize = 0;
        while i < 4
            invariant
                i <= 4,
                forall|k: int| 0 <= k < i ==> !crate::text::same_word(name@, (#[trigger] JetPreset::all()[k]).label()),
            decreases 4 - i,
        {
            let p = JetPreset::from_index(i);
            if equal_ignoring_case(name, p.name()) {
                return Some(p);
            }
            i = i + 1;
        }
        proof {
            assert forall|p: JetPreset| !crate::text::same_word(name@, #[trigger] p.label()) by {
                assert(JetPreset::all()[p.position()] == p);
            }
        }
        None
    }

    /// Parameters of the racing turbine.
    pub open spec fn racer() -> JetParams {
        JetParams {
            spool_up: Single::of(P1_2),
            spool_down: Single::of(TWO),
            idle_rpm: Single::of(P0_28),
            boost_rpm: Single::of(P1_25),
            whine_hz: Single::of(P2600),
            whine_level: Single::of(P0_2),
            whine_detune: Single::of(P7),
            whine_shaft: Single::of(P0_35),
            roar_level: Single::of(P0_8),
            roar_hz: Single::of(P900),
            roar_resonance: Single::of(P0_45),
            rumble_hz: Single::of(P14),
            rumble: Single::of(HALF),
            roar_drive: Single::of(P0_35),
            tube_ms: Single::of(P3_6),
            tube_feedback: Single::of(P0_55),
            tube_mix: Single::of(HALF),
            hiss_level: Single::of(P0_25),
            hiss_hz: Single::of(P5000),
            burner_level: Single::of(P0_8),
            burner_drive: Single::of(P0_7),
            burner_thrum_hz: Single::of(P38),
            wind_level: Single::of(P0_4),
            wind_hz: Single::of(P1500),
            gain: Single::of(P0_7),
        }
    }

    /// Parameters of a preset.
    pub open spec fn character(self) -> JetParams {
        let racer = JetPreset::racer();
        match self {
            JetPreset::Racer => racer,
            JetPreset::Heavy => JetParams {
                spool_up: Single::of(P2_6),
                spool_down: Single::of(P3_5),
                idle_rpm: Single::of(P0_22),
                boost_rpm: Single::of(P1_15),
                whine_hz: Single::of(P1400),
                whine_level: Single::of(P0_14),
                whine_detune: Single::of(P4),
                whine_shaft: Single::of(HALF),
                roar_level: Single::of(P0_9),
                roar_hz: Single::of(P480),
                roar_resonance: Single::of(P0_6),
                rumble_hz: Single::of(P9),
                rumble: Single::of(P0_7),
                roar_drive: Single::of(HALF),
                tube_ms: Single::of(P7_5),
                tube_feedback: Single::of(P0_65),
                tube_mix: Single::of(P0_55),
                hiss_level: Single::of(P0_15),
                hiss_hz: Single::of(P4000),
                burner_thrum_hz: Single::of(P24),
                ..racer
            },
            JetPreset::Turbine => JetParams {
                spool_up: Single::of(P1_6),
                spool_down: Single::of(P2_4),
                idle_rpm: Single::of(P0_3),
                whine_hz: Single::of(P3400),
                whine_level: Single::of(P0_34),
                whine_detune: Single::of(P9),
                whine_shaft: Single::of(P0_3),
                roar_level: Single::of(P0_65),
                roar_hz: Single::of(P1400),
                roar_resonance: Single::of(P0_35),
                rumble: Single::of(P0_35),
                roar_drive: Single::of(P0_2),
                tube_ms: Single::of(P2_8),
                tube_feedback: Single::of(P0_45),
                hiss_level: Single::of(P0_35),
                hiss_hz: Single::of(P6500),
                ..racer
            },
            JetPreset::Scramjet => JetParams {
                spool_up: Single::of(P0_7),
                spool_down: Single::of(P1_2),
                idle_rpm: Single::of(P0_35),
                boost_rpm: Single::of(P1_4),
                whine_hz: Single::of(P5200),
                whine_level: Single::of(P0_06),
                whine_shaft: Single::of(ZERO),
                roar_level: Single::of(P0_85),
                roar_hz: Single::of(P2000),
                roar_resonance: Single::of(P0_3),
                rumble_hz: Single::of(P22),
                rumble: Single::of(P0_4),
                roar_drive: Single::of(P0_6),
                tube_ms: Single::of(P1_8),
                tube_feedback: Single::of(P0_75),
                tube_mix: Single::of(P0_6),
                hiss_level: Single::of(HALF),
                hiss_hz: Single::of(P7000),
                burner_level: Single::of(ONE),
                burner_drive: Single::of(P0_9),
                burner_thrum_hz: Single::of(P55),
                wind_level: Single::of(P0_6),
                ..racer
            },
        }
    }

    pub fn params(self) -> (r: JetParams)
        ensures
            r == self.character(),
    {
        let racer = JetParams {
            spool_up: Single::of(P1_2),
            spool_down: Single::of(TWO),
            idle_rpm: Single::of(P0_28),
            boost_rpm: Single::of(P1_25),
            whine_hz: Single::of(P2600),
            whine_level: Single::of(P0_2),
            whine_detune: Single::of(P7),
            whine_shaft: Single::of(P0_35),
            roar_level: Single::of(P0_8),
            roar_hz: Single::of(P900),
            roar_resonance: Single::of(P0_45),
            rumble_hz: Single::of(P14),
            rumble: Single::of(HALF),
            roar_drive: Single::of(P0_35),
            tube_ms: Single::of(P3_6),
            tube_feedback: Single::of(P0_55),
            tube_mix: Single::of(HALF),
            hiss_level: Single::of(P0_25),
            hiss_hz: Single::of(P5000),
            burner_level: Single::of(P0_8),
            burner_drive: Single::of(P0_7),
            burner_thrum_hz: Single::of(P38),
            wind_level: Single::of(P0_4),
            wind_hz: Single::of(P1500),
            gain: Single::of(P0_7),
        };
        match self {
            JetPreset::Racer => racer,
            JetPreset::Heavy => JetParams {
                spool_up: Single::of(P2_6),
                spool_down: Single::of(P3_5),
                idle_rpm: Single::of(P0_22),
                boost_rpm: Single::of(P1_15),
                whine_hz: Single::of(P1400),
                whine_level: Single::of(P0_14),
                whine_detune: Single::of(P4),
                whine_shaft: Single::of(HALF),
                roar_level: Single::of(P0_9),
                roar_hz: Single::of(P480),
                roar_resonance: Single::of(P0_6),
                rumble_hz: Single::of(P9),
                rumble: Single::of(P0_7),
                roar_drive: Single::of(HALF),
                tube_ms: Single::of(P7_5),
                tube_feedback: Single::of(P0_65),
                tube_mix: Single::of(P0_55),
                hiss_level: Single::of(P0_15),
                hiss_hz: Single::of(P4000),
                burner_thrum_hz: Single::of(P24),
                ..racer
            },
            JetPreset::Turbine => JetParams {
                spool_up: Single::of(P1_6),
                spool_down: Single::of(P2_4),
                idle_rpm: Single::of(P0_3),
                whine_hz: Single::of(P3400),
                whine_level: Single::of(P0_34),
                whine_detune: Single::of(P9),
                whine_shaft: Single::of(P0_3),
                roar_level: Single::of(P0_65),
                roar_hz: Single::of(P1400),
                roar_resonance: Single::of(P0_35),
                rumble: Single::of(P0_35),
                roar_drive: Single::of(P0_2),
                tube_ms: Single::of(P2_8),
                tube_feedback: Single::of(P0_45),
                hiss_level: Single::of(P0_35),
                hiss_hz: Single::of(P6500),
                ..racer
            },
            JetPreset::Scramjet => JetParams {
                spool_up: Single::of(P0_7),
                spool_down: Single::of(P1_2),
                idle_rpm: Single::of(P0_35),
                boost_rpm: Single::of(P1_4),
                whine_hz: Single::of(P5200),
                whine_level: Single::of(P0_06),
                whine_shaft: Single::of(ZERO),
                roar_level: Single::of(P0_85),
                roar_hz: Single::of(P2000),
                roar_resonance: Single::of(P0_3),
                rumble_hz: Single::of(P22),
                rumble: Single::of(P0_4),
                roar_drive: Single::of(P0_6),
                tube_ms: Single::of(P1_8),
                tube_feedback: Single::of(P0_75),
                tube_mix: Single::of(P0_6),
                hiss_level: Single::of(HALF),
                hiss_hz: Single::of(P7000),
                burner_level: Single::of(ONE),
                burner_drive: Single::of(P0_9),
                burner_thrum_hz: Single::of(P55),
                wind_level: Single::of(P0_6),
                ..racer
            },
        }
    }
}

/// Names tell the variants apart, whatever their case: each is found by its own name only.
pub proof fn lemma_jet_names_differ(a: JetPreset, b: JetPreset)
    requires
        crate::text::same_word(a.label(), b.label()),
    ensures
        a == b,
{
    reveal_strlit("Racer");
    reveal_strlit("Heavy");
    reveal_strlit("Turbine");
    reveal_strlit("Scramjet");
    if a != b {
        if a == JetPreset::Racer && b == JetPreset::Heavy {
            assert(crate::text::ascii_lower(a.label()[0]) != crate::text::ascii_lower(b.label()[0]));
        }
        if a == JetPreset::Heavy && b == JetPreset::Racer {
            assert(crate::text::ascii_lower(a.label()[0]) != crate::text::ascii_lower(b.label()[0]));
        }
        assert(a.label().len() == b.label().len());
    }
}


impl Params for JetParams {
    open spec fn plain_params() -> JetParams {
        JetPreset::Racer.character()
    }

    open spec fn param_count() -> nat {
        JetParamId::COUNT as nat
    }

    open spec fn label_at(i: int) -> Seq<char> {
        JetParamId::all()[i].label()
    }

    open spec fn range_at(i: int) -> ParamKind {
        JetParamId::all()[i].range()
    }

    open spec fn value_at(self, i: int) -> Single {
        self.value(JetParamId::all()[i])
    }

    open spec fn with_at(self, i: int, v: Single) -> JetParams {
        self.with(JetParamId::all()[i], v)
    }

    proof fn lemma_set_at_reads_back(self, i: int, v: Single) {
        lemma_jetparams_set_get(self, JetParamId::all()[i], v);
    }

    proof fn lemma_set_at_keeps_others(self, i: int, j: int, v: Single) {
        assert(JetParamId::all()[i].place() == i);
        assert(JetParamId::all()[j].place() == j);
        lemma_jetparams_set_keeps_others(self, JetParamId::all()[i], JetParamId::all()[j], v);
    }

    fn default_params() -> (r: JetParams) {
        JetParams::default()
    }

    fn count() -> (r: usize) {
        JetParamId::COUNT
    }

    fn name_at(i: usize) -> (r: &'static str) {
        JetParamId::nth(i).name()
    }

    fn kind_at(i: usize) -> (r: ParamKind) {
        JetParamId::nth(i).kind()
    }

    fn get_at(&self, i: usize) -> (r: Single) {
        self.get(JetParamId::nth(i))
    }

    fn set_at(&mut self, i: usize, v: Single) {
        self.set(JetParamId::nth(i), v);
    }
}

/// Game-thread to audio-thread messages for a [`JetEngine`].
#[derive(Clone, Copy, Debug, PartialEq, Eq, Structural)]
pub enum JetCommand {
    /// 0..1
    Throttle(Single),
    /// 0..1 afterburner amount.
    Boost(Single),
    /// 0..1 normalised airspeed (wind noise).
    Speed(Single),
    /// 0..1, adds random sputtering.
    Damage(Single),
    SetParams(JetParams),
    SetParam(JetParamId, Single),
    /// Extra gain multiplier 0..2.
    MasterGain(Single),
    /// Snap RPM to the current throttle target (e.g. spawning an already-running ship).
    SnapRpm,
}

/// A control between zero and one; what is no number counts as zero.
pub open spec fn control(v: Single) -> Single {
    if v.finite() {
        v.within(Single::of(ZERO), Single::of(ONE))
    } else {
        Single::of(ZERO)
    }
}

fn clamp01(v: Single) -> (r: Single)
    ensures
        r == control(v),
        Single::of(ZERO).at_most(r) && r.at_most(Single::of(ONE)),
{
    if v.is_finite() {
        v.clamp(Single::of(ZERO), Single::of(ONE))
    } else {
        Single::of(ZERO)
    }
}

/// Controls of the engine and what follows them at control rate.
#[derive(Clone, Copy, Debug, PartialEq, Eq, Structural)]
pub struct Cockpit {
    // Control targets from the game and their smoothed versions.
    pub throttle: Single,
    pub boost: Single,
    pub speed: Single,
    pub damage: Single,
    pub rpm: Single,
    pub boost_s: Single,
    pub speed_s: Single,
    pub master_gain: Single,
    pub jitter: Single,
    pub rng: Rng,
    // Turbulence
    pub rumble: Single,
    pub rumble_target: Single,
    pub rumble_phase: Single,
    // Damage sputter
    pub sputter_blocks: u32,
    pub sputter_gain: Single,
}

impl Cockpit {
    pub open spec fn idling(p: JetParams) -> Cockpit {
        let z = Single::of(ZERO);
        Cockpit {
            throttle: z,
            boost: z,
            speed: z,
            damage: z,
            rpm: p.idle_rpm,
            boost_s: z,
            speed_s: z,
            master_gain: Single::of(ONE),
            jitter: z,
            rng: Rng::seeded_with(0x1E7_0002),
            rumble: z,
            rumble_target: z,
            rumble_phase: z,
            sputter_blocks: 0,
            sputter_gain: Single::of(ONE),
        }
    }

    /// RPM the controls ask for.
    pub open spec fn goal(self, f: Sums, p: JetParams) -> Single {
        f(Prim::Mul, f(Prim::Add, p.idle_rpm, f(Prim::Mul, f(Prim::Sub, Single::of(ONE), p.idle_rpm), self.throttle)), f(Prim::Add, Single::of(ONE), f(Prim::Mul, f(Prim::Sub, p.boost_rpm, Single::of(ONE)), self.boost)))
    }

    fn rpm_target<F: Fn(Prim, Single, Single) -> Single>(&self, fpu: &F, p: &JetParams) -> (r: Single)
        requires
            total(*fpu),
        ensures
            forall|f: Sums| #[trigger] meant(*fpu, f) ==> r == self.goal(f, *p),
    {
        let base = fpu(Prim::Add, p.idle_rpm, fpu(Prim::Mul, fpu(Prim::Sub, Single::of(ONE), p.idle_rpm), self.throttle));
        fpu(Prim::Mul, base, fpu(Prim::Add, Single::of(ONE), fpu(Prim::Mul, fpu(Prim::Sub, p.boost_rpm, Single::of(ONE)), self.boost)))
    }

    /// At the RPM the controls ask for.
    pub open spec fn snapped(self, f: Sums, p: JetParams) -> Cockpit {
        Cockpit { rpm: self.goal(f, p), boost_s: self.boost, speed_s: self.speed, ..self }
    }

    /// RPM, boost and speed `dt` seconds later.
    pub open spec fn spooled(self, f: Sums, p: JetParams, dt: Single) -> Cockpit {
        let target = self.goal(f, p);
        let spool = if self.rpm.below(target) {
            p.spool_up
        } else {
            p.spool_down
        };
        let tau = f(Prim::Div, spool, Single::of(THREE));
        let ctl = f(Prim::Sub, Single::of(ONE), f(Prim::Exp, f(Prim::Div, dt.negated(), Single::of(P0_08)), Single::of(ZERO)));
        Cockpit {
            rpm: f(Prim::Add, self.rpm, f(Prim::Mul, f(Prim::Sub, target, self.rpm), f(Prim::Sub, Single::of(ONE), f(Prim::Exp, f(Prim::Div, dt.negated(), tau.larger(Single::of(P0_001))), Single::of(ZERO))))),
            boost_s: f(Prim::Add, self.boost_s, f(Prim::Mul, f(Prim::Sub, self.boost, self.boost_s), ctl)),
            speed_s: f(Prim::Add, self.speed_s, f(Prim::Mul, f(Prim::Sub, self.speed, self.speed_s), ctl)),
            ..self
        }
    }

    /// With the pitch wandered a step.
    pub open spec fn jittered(self, f: Sums) -> Cockpit {
        let draw = crate::math::bipolar(self.rng.fraction());
        Cockpit {
            jitter: f(Prim::Mul, f(Prim::Add, self.jitter, f(Prim::Mul, draw, Single::of(P0_004))).within(Single::of(N0_01), Single::of(P0_01)), Single::of(P0_98)),
            rng: self.rng.advanced(),
            ..self
        }
    }

    /// With the turbulence `dt` seconds later.
    pub open spec fn rumbled(self, f: Sums, p: JetParams, dt: Single) -> Cockpit {
        let phase = f(Prim::Add, self.rumble_phase, f(Prim::Mul, p.rumble_hz, dt));
        let a = if Single::of(ONE).at_most(phase) {
            Cockpit {
                rumble_phase: f(Prim::Sub, phase, f(Prim::Floor, phase, Single::of(ZERO))),
                rumble_target: crate::math::bipolar(self.rng.fraction()),
                rng: self.rng.advanced(),
                ..self
            }
        } else {
            Cockpit { rumble_phase: phase, ..self }
        };
        Cockpit { rumble: f(Prim::Add, a.rumble, f(Prim::Mul, f(Prim::Sub, a.rumble_target, a.rumble), f(Prim::Mul, f(Prim::Mul, dt, p.rumble_hz), Single::of(THREE)).smaller(Single::of(ONE)))), ..a }
    }

    /// With the drop-outs a block later.
    pub open spec fn sputtered(self, f: Sums) -> Cockpit {
        if self.sputter_blocks > 0 {
            Cockpit { sputter_blocks: (self.sputter_blocks - 1) as u32, ..self }
        } else if Single::of(ZERO).below(self.damage) {
            if crate::math::unipolar(self.rng.fraction()).below(f(Prim::Mul, f(Prim::Mul, self.damage, self.damage), Single::of(P0_12))) {
                let r1 = self.rng.advanced();
                let r2 = r1.advanced();
                Cockpit {
                    sputter_blocks: (2 + r2.state() % 6) as u32,
                    sputter_gain: crate::math::drawn_from(f, Single::of(P0_05), Single::of(P0_4), crate::math::unipolar(r2.fraction())),
                    rng: r2.advanced(),
                    ..self
                }
            } else {
                Cockpit { sputter_gain: Single::of(ONE), rng: self.rng.advanced(), ..self }
            }
        } else {
            Cockpit { sputter_gain: Single::of(ONE), ..self }
        }
    }

    /// The controls a block of `dt` seconds later.
    pub open spec fn later(self, f: Sums, p: JetParams, dt: Single) -> Cockpit {
        self.spooled(f, p, dt).jittered(f).rumbled(f, p, dt).sputtered(f)
    }

    fn advance<F: Fn(Prim, Single, Single) -> Single>(&mut self, fpu: &F, p: &JetParams, dt: Single)
        requires
            total(*fpu),
        ensures
            forall|f: Sums| #[trigger] meant(*fpu, f) ==> *final(self) == old(self).later(f, *p, dt),
    {
        let target = self.rpm_target(fpu, p);
        let spool = if self.rpm.lt(target) { p.spool_up } else { p.spool_down };
        let tau = fpu(Prim::Div, spool, Single::of(THREE));
        self.rpm = fpu(Prim::Add, self.rpm, fpu(Prim::Mul, fpu(Prim::Sub, target, self.rpm), fpu(Prim::Sub, Single::of(ONE), fpu(Prim::Exp, fpu(Prim::Div, dt.neg(), tau.max(Single::of(P0_001))), Single::of(ZERO)))));
        let ctl = fpu(Prim::Sub, Single::of(ONE), fpu(Prim::Exp, fpu(Prim::Div, dt.neg(), Single::of(P0_08)), Single::of(ZERO)));
        self.boost_s = fpu(Prim::Add, self.boost_s, fpu(Prim::Mul, fpu(Prim::Sub, self.boost, self.boost_s), ctl));
        self.speed_s = fpu(Prim::Add, self.speed_s, fpu(Prim::Mul, fpu(Prim::Sub, self.speed, self.speed_s), ctl));
        // Slow random walk on pitch for life.
        let draw = self.rng.next_bipolar();
        self.jitter = fpu(Prim::Mul, fpu(Prim::Add, self.jitter, fpu(Prim::Mul, draw, Single::of(P0_004))).clamp(Single::of(N0_01), Single::of(P0_01)), Single::of(P0_98));
        self.rumble_phase = fpu(Prim::Add, self.rumble_phase, fpu(Prim::Mul, p.rumble_hz, dt));
        if Single::of(ONE).le(self.rumble_phase) {
            self.rumble_phase = fpu(Prim::Sub, self.rumble_phase, fpu(Prim::Floor, self.rumble_phase, Single::of(ZERO)));
            self.rumble_target = self.rng.next_bipolar();
        }
        self.rumble = fpu(Prim::Add, self.rumble, fpu(Prim::Mul, fpu(Prim::Sub, self.rumble_target, self.rumble), fpu(Prim::Mul, fpu(Prim::Mul, dt, p.rumble_hz), Single::of(THREE)).min(Single::of(ONE))));
        // Damage sputter: random short drop-outs.
        if self.sputter_blocks > 0 {
            self.sputter_blocks = self.sputter_blocks - 1;
        } else {
            self.sputter_gain = Single::of(ONE);
            if Single::of(ZERO).lt(self.damage) && self.rng.chance(fpu(Prim::Mul, fpu(Prim::Mul, self.damage, self.damage), Single::of(P0_12))) {
                self.sputter_blocks = 2 + (self.rng.next_u32() % 6);
                self.sputter_gain = self.rng.range(fpu, Single::of(P0_05), Single::of(P0_4));
            }
        }
    }
}

/// Phase of a cycle a step later.
pub open spec fn stepped(f: Sums, phase: Single, inc: Single) -> Single {
    let next = f(Prim::Add, phase, inc);
    if Single::of(ONE).at_most(next) {
        f(Prim::Sub, next, Single::of(ONE))
    } else {
        next
    }
}

fn step_phase<F: Fn(Prim, Single, Single) -> Single>(fpu: &F, phase: Single, inc: Single) -> (r: Single)
    requires
        total(*fpu),
    ensures
        forall|f: Sums| #[trigger] meant(*fpu, f) ==> r == stepped(f, phase, inc),
{
    let next = fpu(Prim::Add, phase, inc);
    if Single::of(ONE).le(next) {
        fpu(Prim::Sub, next, Single::of(ONE))
    } else {
        next
    }
}

/// Phases of the four partials of the whine.
#[derive(Clone, Copy, Debug, PartialEq, Eq, Structural)]
pub struct Whine {
    pub a: Single,
    pub b: Single,
    pub c: Single,
    pub d: Single,
}

impl Whine {
    pub open spec fn moved(self, f: Sums, inc: Whine) -> Whine {
        Whine {
            a: stepped(f, self.a, inc.a),
            b: stepped(f, self.b, inc.b),
            c: stepped(f, self.c, inc.c),
            d: stepped(f, self.d, inc.d),
        }
    }

    /// Sum of the partials.
    pub open spec fn sound(self, f: Sums, shaft: Single) -> Single {
        let turn = Single::of(TAU);
        f(Prim::Add, f(Prim::Add, f(Prim::Add, f(Prim::Add, Single::of(ZERO), f(Prim::Mul, f(Prim::Sin, f(Prim::Mul, self.a, turn), Single::of(ZERO)), Single::of(ONE))), f(Prim::Mul, f(Prim::Sin, f(Prim::Mul, self.b, turn), Single::of(ZERO)), Single::of(P0_7))), f(Prim::Mul, f(Prim::Sin, f(Prim::Mul, self.c, turn), Single::of(ZERO)), Single::of(P0_3))), f(Prim::Mul, f(Prim::Sin, f(Prim::Mul, self.d, turn), Single::of(ZERO)), shaft))
    }

    fn next<F: Fn(Prim, Single, Single) -> Single>(&mut self, fpu: &F, inc: Whine, shaft: Single) -> (r: Single)
        requires
            total(*fpu),
        ensures
            forall|f: Sums| #[trigger] meant(*fpu, f) ==> r == old(self).sound(f, shaft) && *final(self) == old(self).moved(f, inc),
    {
        let turn = Single::of(TAU);
        let sum = fpu(Prim::Add, fpu(Prim::Add, fpu(Prim::Add, fpu(Prim::Add, Single::of(ZERO), fpu(Prim::Mul, fpu(Prim::Sin, fpu(Prim::Mul, self.a, turn), Single::of(ZERO)), Single::of(ONE))), fpu(Prim::Mul, fpu(Prim::Sin, fpu(Prim::Mul, self.b, turn), Single::of(ZERO)), Single::of(P0_7))), fpu(Prim::Mul, fpu(Prim::Sin, fpu(Prim::Mul, self.c, turn), Single::of(ZERO)), Single::of(P0_3))), fpu(Prim::Mul, fpu(Prim::Sin, fpu(Prim::Mul, self.d, turn), Single::of(ZERO)), shaft));
        self.a = step_phase(fpu, self.a, inc.a);
        self.b = step_phase(fpu, self.b, inc.b);
        self.c = step_phase(fpu, self.c, inc.c);
        self.d = step_phase(fpu, self.d, inc.d);
        sum
    }
}

/// Settings of a block.
#[derive(Clone, Copy, Debug, PartialEq, Eq, Structural)]
pub struct Mix {
    pub inc: Whine,
    pub whine_gain: Single,
    pub roar_gain: Single,
    pub drive: Single,
    pub drive_norm: Single,
    pub hiss_gain: Single,
    pub burner_gain: Single,
    pub burner_drive: Single,
    pub thrum_inc: Single,
    pub wind_gain: Single,
    pub tube_step: Single,
    pub out_gain: Single,
    pub peak_decay: Single,
}

/// What the engine plays with at audio rate, besides the tube.
#[derive(Clone, Copy, Debug, PartialEq, Eq, Structural)]
pub struct Layers {
    pub noise: Noise,
    pub whine: Whine,
    pub thrum_phase: Single,
    pub roar_lp: Svf,
    pub roar_bp: Svf,
    pub hiss_hp: Svf,
    pub burner_hp: Svf,
    pub wind_bp: Svf,
    pub tube_delay: Single,
    pub peak: Single,
}

pub struct Turbine {
    pub layers: Layers,
    pub tube: Echo,
}

#[verifier::ext_equal]
pub struct TurbineView {
    pub layers: Layers,
    /// What went through the tube, oldest first.
    pub tube: Seq<Single>,
}

impl View for Turbine {
    type V = TurbineView;

    open spec fn view(&self) -> TurbineView {
        TurbineView { layers: self.layers, tube: self.tube@ }
    }
}

impl Turbine {
    pub open spec fn wf(self) -> bool {
        self.tube.wf() && self.tube@.len() >= 8
    }
}

/// Whole samples of a delay, less than the tube holds.
pub open spec fn tube_index(d: Single, len: int) -> int {
    if d.whole() > len - 1 {
        len - 1
    } else {
        d.whole()
    }
}

/// Sample of the tube `d` back, interpolated.
pub open spec fn tube_tap(f: Sums, tube: Seq<Single>, d: Single) -> Single {
    let len = tube.len() as int;
    let di = tube_index(d, len);
    let whole = crate::single::sized(di as nat);
    let (x, y) = (tube[(len - di) % len], tube[len - 1 - di]);
    f(Prim::Add, x, f(Prim::Mul, f(Prim::Sub, y, x), f(Prim::Sub, d, whole)))
}

impl Turbine {
    fn tap<F: Fn(Prim, Single, Single) -> Single>(&self, fpu: &F, d: Single) -> (r: Single)
        requires
            total(*fpu),
            self.wf(),
        ensures
            forall|f: Sums| #[trigger] meant(*fpu, f) ==> r == tube_tap(f, self.tube@, d),
    {
        let len = self.tube.delay.len();
        let wanted: u64 = d.trunc();
        let di: usize = if wanted > (len - 1) as u64 { len - 1 } else { wanted as usize };
        let whole = from_size(di);
        let pos = self.tube.delay_pos;
        let i0: usize = if pos >= di { pos - di } else { pos + len - di };
        let i1: usize = if i0 == 0 { len - 1 } else { i0 - 1 };
        let (x, y) = (self.tube.delay[i0], self.tube.delay[i1]);
        proof {
            let l = len as int;
            if di == 0 {
                vstd::arithmetic::div_mod::lemma_mod_self_0(l);
            } else {
                vstd::arithmetic::div_mod::lemma_small_mod((l - di) as nat, l as nat);
            }
            assert(x == self.tube@[(l - di) % l]);
            assert(y == self.tube@[l - 1 - di]);
        }
        fpu(Prim::Add, x, fpu(Prim::Mul, fpu(Prim::Sub, y, x), fpu(Prim::Sub, d, whole)))
    }

    fn write(&mut self, v: Single)
        requires
            old(self).wf(),
        ensures
            final(self).wf(),
            final(self)@ == (TurbineView { tube: old(self)@.tube.drop_first().push(v), ..old(self)@ }),
    {
        let ghost past = self.tube@;
        let len = self.tube.delay.len();
        let pos = self.tube.delay_pos;
        self.tube.delay.set(pos, v);
        self.tube.delay_pos = if pos + 1 == len { 0 } else { pos + 1 };
        assert(self.tube@ =~= past.drop_first().push(v));
    }
}

/// One sample of the engine; what was in its place is not heard.
#[verifier::opaque]
pub open spec fn turbine_tick(f: Sums, p: JetParams, m: Mix, s: TurbineView, v: Single) -> (TurbineView, Single) {
    let l = s.layers;
    let white = l.noise.draw();
    let noise = Noise { rng: l.noise.rng.advanced(), ..l.noise };
    let pink = noise.pink.output(f, noise.draw());
    let whine = l.whine.sound(f, p.whine_shaft);
    let low = l.roar_lp.output(f, f(Prim::Mul, pink, Single::of(P2_5)));
    let mid = l.roar_bp.output(f, white);
    let body = f(Prim::Add, low, f(Prim::Mul, Single::of(HALF), mid));
    let roar = f(Prim::Mul, f(Prim::Mul, crate::math::saturated(f, f(Prim::Mul, body, m.drive)), m.drive_norm), m.roar_gain);
    let bus = f(Prim::Add, f(Prim::Mul, whine, m.whine_gain), roar);
    let tube_delay = f(Prim::Add, l.tube_delay, m.tube_step);
    let delayed = tube_tap(f, s.tube, tube_delay);
    let y = f(Prim::Add, bus, f(Prim::Mul, delayed, p.tube_feedback));
    let tubed = f(Prim::Add, bus, f(Prim::Mul, f(Prim::Sub, y, bus), p.tube_mix));
    let hissed = l.hiss_hp.output(f, white);
    let hiss = f(Prim::Mul, hissed, m.hiss_gain);
    let turn = Single::of(TAU);
    let thrum = f(Prim::Add, Single::of(P0_6), f(Prim::Mul, Single::of(P0_4), f(Prim::Sin, f(Prim::Mul, l.thrum_phase, turn), Single::of(ZERO))));
    let burned = l.burner_hp.output(f, white);
    let burner = f(Prim::Mul, f(Prim::Mul, crate::math::saturated(f, f(Prim::Mul, burned, m.burner_drive)), thrum), m.burner_gain);
    let blown = l.wind_bp.output(f, white);
    let wind = f(Prim::Mul, blown, m.wind_gain);
    let out = crate::math::limited(f, f(Prim::Mul, f(Prim::Add, f(Prim::Add, f(Prim::Add, tubed, hiss), burner), wind), m.out_gain));
    (
        TurbineView {
            layers: Layers {
                noise: Noise { rng: noise.rng.advanced(), pink: noise.pink.fed(f, noise.draw()) },
                whine: l.whine.moved(f, m.inc),
                thrum_phase: stepped(f, l.thrum_phase, m.thrum_inc),
                roar_lp: l.roar_lp.fed(f, f(Prim::Mul, pink, Single::of(P2_5))),
                roar_bp: l.roar_bp.fed(f, white),
                hiss_hp: l.hiss_hp.fed(f, white),
                burner_hp: l.burner_hp.fed(f, white),
                wind_bp: l.wind_bp.fed(f, white),
                tube_delay,
                peak: f(Prim::Mul, l.peak, m.peak_decay).larger(out.absolute()),
            },
            tube: s.tube.drop_first().push(y),
        },
        out,
    )
}

/// The same for a run of samples.
pub open spec fn turbine_run(f: Sums, p: JetParams, m: Mix, s: TurbineView, x: Seq<Single>) -> (TurbineView, Seq<Single>)
    decreases x.len(),
{
    if x.len() == 0 {
        (s, seq![])
    } else {
        let (t, out) = turbine_run(f, p, m, s, x.drop_last());
        let (u, y) = turbine_tick(f, p, m, t, x.last());
        (u, out.push(y))
    }
}

fn turbine_sample<F: Fn(Prim, Single, Single) -> Single>(fpu: &F, p: JetParams, m: Mix, s: &mut Turbine, v: Single) -> (y: Single)
    requires
        total(*fpu),
        old(s).wf(),
    ensures
        final(s).wf(),
        final(s)@.tube.len() == old(s)@.tube.len(),
        forall|f: Sums| #[trigger] meant(*fpu, f) ==> (final(s)@, y) == turbine_tick(f, p, m, old(s)@, v),
{
    proof {
        reveal(turbine_tick);
    }
    let white = s.layers.noise.white();
    let pink = s.layers.noise.pink(fpu);
    let whine = s.layers.whine.next(fpu, m.inc, p.whine_shaft);
    let low = s.layers.roar_lp.tick(fpu, fpu(Prim::Mul, pink, Single::of(P2_5)));
    let mid = s.layers.roar_bp.tick(fpu, white);
    let body = fpu(Prim::Add, low, fpu(Prim::Mul, Single::of(HALF), mid));
    let roar = fpu(Prim::Mul, fpu(Prim::Mul, soft_clip(fpu, fpu(Prim::Mul, body, m.drive)), m.drive_norm), m.roar_gain);
    let bus = fpu(Prim::Add, fpu(Prim::Mul, whine, m.whine_gain), roar);
    // Feedback comb with linear interpolation.
    s.layers.tube_delay = fpu(Prim::Add, s.layers.tube_delay, m.tube_step);
    let delayed = s.tap(fpu, s.layers.tube_delay);
    let y = fpu(Prim::Add, bus, fpu(Prim::Mul, delayed, p.tube_feedback));
    s.write(y);
    let tubed = fpu(Prim::Add, bus, fpu(Prim::Mul, fpu(Prim::Sub, y, bus), p.tube_mix));
    let hissed = s.layers.hiss_hp.tick(fpu, white);
    let hiss = fpu(Prim::Mul, hissed, m.hiss_gain);
    let turn = Single::of(TAU);
    let thrum = fpu(Prim::Add, Single::of(P0_6), fpu(Prim::Mul, Single::of(P0_4), fpu(Prim::Sin, fpu(Prim::Mul, s.layers.thrum_phase, turn), Single::of(ZERO))));
    s.layers.thrum_phase = step_phase(fpu, s.layers.thrum_phase, m.thrum_inc);
    let burned = s.layers.burner_hp.tick(fpu, white);
    let burner = fpu(Prim::Mul, fpu(Prim::Mul, soft_clip(fpu, fpu(Prim::Mul, burned, m.burner_drive)), thrum), m.burner_gain);
    let blown = s.layers.wind_bp.tick(fpu, white);
    let wind = fpu(Prim::Mul, blown, m.wind_gain);
    let out = limit(fpu, fpu(Prim::Mul, fpu(Prim::Add, fpu(Prim::Add, fpu(Prim::Add, tubed, hiss), burner), wind), m.out_gain));
    s.layers.peak = fpu(Prim::Mul, s.layers.peak, m.peak_decay).max(out.abs());
    out
}

fn turbine_span<F: Fn(Prim, Single, Single) -> Single>(fpu: &F, p: JetParams, m: Mix, s: &mut Turbine, buf: &mut Vec<Single>, start: usize, end: usize)
    requires
        total(*fpu),
        start <= end <= old(buf)@.len(),
        old(s).wf(),
    ensures
        final(buf)@.len() == old(buf)@.len(),
        same_outside(old(buf)@, final(buf)@, start as int, end as int),
        final(s).wf(),
        final(s)@.tube.len() == old(s)@.tube.len(),
        forall|f: Sums| #[trigger] meant(*fpu, f) ==> (final(s)@, final(buf)@.subrange(start as int, end as int)) == turbine_run(
            f, p, m,
            old(s)@,
            old(buf)@.subrange(start as int, end as int),
        ),
{
    let mut i: usize = start;
    let ghost before = buf@;
    assert(before.subrange(start as int, start as int) =~= seq![]);
    while i < end
        invariant
            start <= i <= end <= buf@.len(),
            buf@.len() == before.len(),
            before == old(buf)@,
            same_outside(before, buf@, start as int, i as int),
            total(*fpu),
            s.wf(),
            s@.tube.len() == old(s)@.tube.len(),
            forall|f: Sums| #[trigger] meant(*fpu, f) ==> (s@, buf@.subrange(start as int, i as int)) == turbine_run(
                f, p, m,
                old(s)@,
                before.subrange(start as int, i as int),
            ),
        decreases end - i,
    {
        let ghost last = buf@;
        let y = turbine_sample(fpu, p, m, s, buf[i]);
        buf.set(i, y);
        i = i + 1;
        assert(before.subrange(start as int, i as int).drop_last() =~= before.subrange(start as int, i - 1));
        assert(buf@.subrange(start as int, i as int) =~= last.subrange(start as int, i - 1).push(y));
    }
}

/// An engine as a value.
#[verifier::ext_equal]
pub struct JetView {
    pub p: JetParams,
    pub sr: Single,
    pub cockpit: Cockpit,
    pub turbine: TurbineView,
    pub peak_decay: Single,
}

/// Samples the tube of a rate holds.
pub open spec fn tube_length(f: Sums, sample_rate: Single) -> int {
    let longest = Single::of(MAX_TUBE_MS);
    let n = f(Prim::Mul, f(Prim::Mul, longest, Single::of(P0_001)), sample_rate).whole() + 4;
    if n < 8 {
        8
    } else if n > LONGEST_LINE {
        LONGEST_LINE as int
    } else {
        n
    }
}

/// Delay of the tube in samples.
pub open spec fn tube_target(f: Sums, p: JetParams, rpm: Single, sr: Single, len: int) -> Single {
    let longest = crate::single::sized((len - 3) as nat);
    f(Prim::Mul, f(Prim::Mul, f(Prim::Div, p.tube_ms, f(Prim::Add, Single::of(P0_6), f(Prim::Mul, Single::of(P0_4), rpm.smaller(Single::of(P1_5))))), Single::of(P0_001)), sr).within(Single::of(ONE), longest)
}

impl JetView {
    pub open spec fn started(f: Sums, sample_rate: Single, p: JetParams) -> JetView {
        JetView {
            p,
            sr: sample_rate,
            cockpit: Cockpit::idling(p),
            turbine: TurbineView {
                layers: Layers {
                    noise: Noise::seeded_with(0x1E7_0001),
                    whine: Whine { a: Single::of(ZERO), b: Single::of(P0_31), c: Single::of(P0_62), d: Single::of(P0_17) },
                    thrum_phase: Single::of(ZERO),
                    roar_lp: Svf::silent(),
                    roar_bp: Svf::silent(),
                    hiss_hp: Svf::silent(),
                    burner_hp: Svf::silent(),
                    wind_bp: Svf::silent(),
                    tube_delay: tube_target(f, p, p.idle_rpm, sample_rate, tube_length(f, sample_rate)),
                    peak: Single::of(ZERO),
                },
                tube: Seq::new(tube_length(f, sample_rate) as nat, |j: int| Single::of(ZERO)),
            },
            peak_decay: f(Prim::Exp, f(Prim::Div, Single::of(N9_21), f(Prim::Mul, Single::of(P0_25), sample_rate)), Single::of(ZERO)),
        }
    }

    /// After a command.
    pub open spec fn applied(self, f: Sums, cmd: JetCommand) -> JetView {
        let c = self.cockpit;
        match cmd {
            JetCommand::Throttle(v) => JetView { cockpit: Cockpit { throttle: control(v), ..c }, ..self },
            JetCommand::Boost(v) => JetView { cockpit: Cockpit { boost: control(v), ..c }, ..self },
            JetCommand::Speed(v) => JetView { cockpit: Cockpit { speed: control(v), ..c }, ..self },
            JetCommand::Damage(v) => JetView { cockpit: Cockpit { damage: control(v), ..c }, ..self },
            JetCommand::SetParams(p) => JetView { p, ..self },
            JetCommand::SetParam(id, v) => JetView {
                p: if v.finite() {
                    self.p.with(id, v)
                } else {
                    self.p
                },
                ..self
            },
            JetCommand::MasterGain(m) => JetView {
                cockpit: Cockpit {
                    master_gain: if m.finite() {
                        m.within(Single::of(ZERO), Single::of(TWO))
                    } else {
                        Single::of(ONE)
                    },
                    ..c
                },
                ..self
            },
            JetCommand::SnapRpm => JetView { cockpit: c.snapped(f, self.p), ..self },
        }
    }

    /// Settings of a block of `n` samples, from the controls within it.
    pub open spec fn mix(self, f: Sums, c: Cockpit, n: Single) -> Mix {
        let (p, sr, r) = (self.p, self.sr, c.rpm);
        let r1 = r.smaller(Single::of(ONE));
        let f0 = f(Prim::Mul, f(Prim::Mul, p.whine_hz, r), f(Prim::Add, Single::of(ONE), c.jitter)).within(Single::of(P20), f(Prim::Mul, sr, Single::of(P0_4)));
        let det = f(Prim::Exp2, f(Prim::Div, p.whine_detune, Single::of(P1200)), Single::of(ZERO));
        let am = f(Prim::Add, Single::of(ONE), f(Prim::Mul, f(Prim::Mul, p.rumble, Single::of(HALF)), c.rumble));
        let drive = f(Prim::Add, f(Prim::Add, Single::of(ONE), f(Prim::Mul, p.roar_drive, Single::of(THREE))), f(Prim::Mul, c.boost_s, Single::of(TWO)));
        let target = tube_target(f, p, r, sr, self.turbine.tube.len() as int);
        Mix {
            inc: Whine { a: f(Prim::Div, f0, sr), b: f(Prim::Div, f(Prim::Mul, f0, det), sr), c: f(Prim::Div, f(Prim::Mul, Single::of(TWO), f0), sr), d: f(Prim::Div, f(Prim::Mul, Single::of(HALF), f0), sr) },
            whine_gain: f(Prim::Mul, f(Prim::Mul, p.whine_level, f(Prim::Add, Single::of(P0_35), f(Prim::Mul, Single::of(P0_65), r1))), Single::of(HALF)),
            roar_gain: f(Prim::Mul, f(Prim::Mul, p.roar_level, f(Prim::Add, Single::of(P0_35), f(Prim::Mul, Single::of(P0_65), r1))), am),
            drive,
            drive_norm: f(Prim::Div, Single::of(P0_75), f(Prim::Add, Single::of(ONE), f(Prim::Mul, Single::of(P0_15), drive))),
            hiss_gain: f(Prim::Mul, f(Prim::Mul, f(Prim::Mul, p.hiss_level, r1), r1), Single::of(HALF)),
            burner_gain: f(Prim::Mul, f(Prim::Mul, p.burner_level, c.boost_s), Single::of(HALF)),
            burner_drive: f(Prim::Add, Single::of(ONE), f(Prim::Mul, p.burner_drive, Single::of(P6))),
            thrum_inc: f(Prim::Div, p.burner_thrum_hz, sr),
            wind_gain: f(Prim::Mul, f(Prim::Mul, f(Prim::Mul, p.wind_level, c.speed_s), c.speed_s), Single::of(P2_5)),
            tube_step: f(Prim::Div, f(Prim::Sub, target, self.turbine.layers.tube_delay), n),
            out_gain: f(Prim::Mul, f(Prim::Mul, p.gain, c.master_gain), c.sputter_gain),
            peak_decay: self.peak_decay,
        }
    }

    /// Filters of a block, from the controls within it.
    pub open spec fn tuned(self, f: Sums, c: Cockpit) -> Layers {
        let (p, sr, l) = (self.p, self.sr, self.turbine.layers);
        let cut = f(Prim::Mul, p.roar_hz, f(Prim::Exp2, f(Prim::Mul, Single::of(TWO), f(Prim::Sub, c.rpm, Single::of(ONE))), Single::of(ZERO)));
        Layers {
            roar_lp: l.roar_lp.tuned(f, FilterMode::LowPass, cut, p.roar_resonance, sr),
            roar_bp: l.roar_bp.tuned(f, FilterMode::BandPass, f(Prim::Mul, cut, Single::of(P2_5)), Single::of(P0_3), sr),
            hiss_hp: l.hiss_hp.tuned(f, FilterMode::HighPass, p.hiss_hz, Single::of(P0_1), sr),
            burner_hp: l.burner_hp.tuned(f, FilterMode::HighPass, Single::of(P250), Single::of(P0_2), sr),
            wind_bp: l.wind_bp.tuned(f, FilterMode::BandPass, f(Prim::Mul, p.wind_hz, f(Prim::Add, Single::of(HALF), f(Prim::Mul, Single::of(P0_9), c.speed_s))), Single::of(P0_25), sr),
            ..l
        }
    }

    /// The engine after a block of `x.len()` samples, and the block.
    #[verifier::opaque]
    pub open spec fn block(self, f: Sums, x: Seq<Single>) -> (JetView, Seq<Single>) {
        let n = crate::single::signed_integer(x.len() as int);
        let c = self.cockpit.later(f, self.p, f(Prim::Div, n, self.sr));
        let start = TurbineView { layers: self.tuned(f, c), ..self.turbine };
        let (t, out) = turbine_run(f, self.p, self.mix(f, c, n), start, x);
        let peak = if t.layers.peak.finite() {
            t.layers.peak
        } else {
            Single::of(ZERO)
        };
        let tube = if t.tube[0].finite() {
            t.tube
        } else {
            Seq::new(t.tube.len(), |j: int| Single::of(ZERO))
        };
        (JetView { cockpit: c, turbine: TurbineView { layers: Layers { peak, ..t.layers }, tube }, ..self }, out)
    }

    /// The engine after `n` samples, and the samples; `x` is what they replace.
    pub open spec fn rendered(self, f: Sums, x: Seq<Single>) -> (JetView, Seq<Single>)
        decreases x.len(),
    {
        if x.len() == 0 {
            (self, seq![])
        } else {
            let n: int = if x.len() < BLOCK { x.len() as int } else { BLOCK as int };
            let (s, head) = self.block(f, x.take(n));
            let (t, tail) = s.rendered(f, x.skip(n));
            (t, head + tail)
        }
    }
}

pub struct JetEngine {
    pub p: JetParams,
    pub sr: Single,
    pub cockpit: Cockpit,
    pub turbine: Turbine,
    pub peak_decay: Single,
}

impl View for JetEngine {
    type V = JetView;

    open spec fn view(&self) -> JetView {
        JetView { p: self.p, sr: self.sr, cockpit: self.cockpit, turbine: self.turbine@, peak_decay: self.peak_decay }
    }
}

fn tube_delay_samples<F: Fn(Prim, Single, Single) -> Single>(fpu: &F, p: &JetParams, rpm: Single, sr: Single, len: usize) -> (r: Single)
    requires
        total(*fpu),
        8 <= len <= LONGEST_LINE,
    ensures
        forall|f: Sums| #[trigger] meant(*fpu, f) ==> r == tube_target(f, *p, rpm, sr, len as int),
{
    let longest = from_size(len - 3);
    fpu(Prim::Mul, fpu(Prim::Mul, fpu(Prim::Div, p.tube_ms, fpu(Prim::Add, Single::of(P0_6), fpu(Prim::Mul, Single::of(P0_4), rpm.min(Single::of(P1_5))))), Single::of(P0_001)), sr).clamp(Single::of(ONE), longest)
}

impl JetEngine {
    pub open spec fn wf(self) -> bool {
        self.turbine.wf()
    }

    /// Allocates the comb buffer; construct on the game thread.
    pub fn new<F: Fn(Prim, Single, Single) -> Single>(fpu: &F, sample_rate: Single, params: JetParams) -> (r: JetEngine)
        requires
            total(*fpu),
        ensures
            r.wf(),
            forall|f: Sums| #[trigger] meant(*fpu, f) ==> r@ == JetView::started(f, sample_rate, params),
    {
        let longest = Single::of(MAX_TUBE_MS);
        let wanted: u64 = fpu(Prim::Mul, fpu(Prim::Mul, longest, Single::of(P0_001)), sample_rate).trunc();
        let len: usize = if wanted < 4 {
            8
        } else if wanted > (LONGEST_LINE - 4) as u64 {
            LONGEST_LINE
        } else {
            wanted as usize + 4
        };
        let mut tube: Vec<Single> = Vec::new();
        while tube.len() < len
            invariant
                tube@.len() <= len,
                forall|j: int| 0 <= j < tube@.len() ==> tube@[j] == Single::of(ZERO),
            decreases len - tube@.len(),
        {
            tube.push(Single::of(ZERO));
        }
        let z = Single::of(ZERO);
        let r = JetEngine {
            p: params,
            sr: sample_rate,
            cockpit: Cockpit {
                throttle: z,
                boost: z,
                speed: z,
                damage: z,
                rpm: params.idle_rpm,
                boost_s: z,
                speed_s: z,
                master_gain: Single::of(ONE),
                jitter: z,
                rng: Rng::new(0x1E7_0002),
                rumble: z,
                rumble_target: z,
                rumble_phase: z,
                sputter_blocks: 0,
                sputter_gain: Single::of(ONE),
            },
            turbine: Turbine {
                layers: Layers {
                    noise: Noise::new(0x1E7_0001),
                    whine: Whine { a: Single::of(ZERO), b: Single::of(P0_31), c: Single::of(P0_62), d: Single::of(P0_17) },
                    thrum_phase: z,
                    roar_lp: Svf::default(),
                    roar_bp: Svf::default(),
                    hiss_hp: Svf::default(),
                    burner_hp: Svf::default(),
                    wind_bp: Svf::default(),
                    tube_delay: tube_delay_samples(fpu, &params, params.idle_rpm, sample_rate, len),
                    peak: z,
                },
                tube: Echo { delay: tube, delay_pos: 0 },
            },
            peak_decay: fpu(Prim::Exp, fpu(Prim::Div, Single::of(N9_21), fpu(Prim::Mul, Single::of(P0_25), sample_rate)), Single::of(ZERO)),
        };
        assert(r@.turbine.tube =~= Seq::new(len as nat, |j: int| Single::of(ZERO)));
        r
    }

    pub fn sample_rate(&self) -> (r: Single)
        ensures
            r == self@.sr,
    {
        self.sr
    }

    pub fn params(&self) -> (r: &JetParams)
        ensures
            *r == self@.p,
    {
        &self.p
    }

    pub fn set_params(&mut self, p: JetParams)
        requires
            old(self).wf(),
        ensures
            final(self).wf(),
            forall|f: Sums| final(self)@ == #[trigger] old(self)@.applied(f, JetCommand::SetParams(p)),
    {
        self.p = p;
    }

    /// Current RPM fraction (idle_rpm..boost_rpm). Useful for UI gauges and rumble.
    pub fn rpm(&self) -> (r: Single)
        ensures
            r == self@.cockpit.rpm,
    {
        self.cockpit.rpm
    }

    pub fn throttle(&self) -> (r: Single)
        ensures
            r == self@.cockpit.throttle,
    {
        self.cockpit.throttle
    }

    pub fn set_throttle(&mut self, v: Single)
        requires
            old(self).wf(),
        ensures
            final(self).wf(),
            forall|f: Sums| final(self)@ == #[trigger] old(self)@.applied(f, JetCommand::Throttle(v)),
    {
        self.cockpit.throttle = clamp01(v);
    }

    pub fn set_boost(&mut self, v: Single)
        requires
            old(self).wf(),
        ensures
            final(self).wf(),
            forall|f: Sums| final(self)@ == #[trigger] old(self)@.applied(f, JetCommand::Boost(v)),
    {
        self.cockpit.boost = clamp01(v);
    }

    pub fn set_speed(&mut self, v: Single)
        requires
            old(self).wf(),
        ensures
            final(self).wf(),
            forall|f: Sums| final(self)@ == #[trigger] old(self)@.applied(f, JetCommand::Speed(v)),
    {
        self.cockpit.speed = clamp01(v);
    }

    pub fn set_damage(&mut self, v: Single)
        requires
            old(self).wf(),
        ensures
            final(self).wf(),
            forall|f: Sums| final(self)@ == #[trigger] old(self)@.applied(f, JetCommand::Damage(v)),
    {
        self.cockpit.damage = clamp01(v);
    }

    pub fn set_master_gain(&mut self, v: Single)
        requires
            old(self).wf(),
        ensures
            final(self).wf(),
            forall|f: Sums| final(self)@ == #[trigger] old(self)@.applied(f, JetCommand::MasterGain(v)),
    {
        self.cockpit.master_gain = if v.is_finite() { v.clamp(Single::of(ZERO), Single::of(TWO)) } else { Single::of(ONE) };
    }

    /// Jump RPM straight to the throttle target (no spool).
    pub fn snap_rpm<F: Fn(Prim, Single, Single) -> Single>(&mut self, fpu: &F)
        requires
            total(*fpu),
            old(self).wf(),
        ensures
            final(self).wf(),
            forall|f: Sums| #[trigger] meant(*fpu, f) ==> final(self)@ == old(self)@.applied(f, JetCommand::SnapRpm),
    {
        let p = self.p;
        self.cockpit.rpm = self.cockpit.rpm_target(fpu, &p);
        self.cockpit.boost_s = self.cockpit.boost;
        self.cockpit.speed_s = self.cockpit.speed;
    }

    /// Recent output peak 0..1, decays over ~250 ms.
    pub fn peak(&self) -> (r: Single)
        ensures
            r == self@.turbine.layers.peak,
    {
        self.turbine.layers.peak
    }

    pub fn apply<F: Fn(Prim, Single, Single) -> Single>(&mut self, fpu: &F, cmd: JetCommand)
        requires
            total(*fpu),
            old(self).wf(),
        ensures
            final(self).wf(),
            forall|f: Sums| #[trigger] meant(*fpu, f) ==> final(self)@ == old(self)@.applied(f, cmd),
    {
        match cmd {
            JetCommand::Throttle(v) => self.set_throttle(v),
            JetCommand::Boost(v) => self.set_boost(v),
            JetCommand::Speed(v) => self.set_speed(v),
            JetCommand::Damage(v) => self.set_damage(v),
            JetCommand::SetParams(p) => self.set_params(p),
            JetCommand::SetParam(id, v) => self.p.set(id, v),
            JetCommand::MasterGain(m) => self.set_master_gain(m),
            JetCommand::SnapRpm => self.snap_rpm(fpu),
        }
    }

    fn mix_block<F: Fn(Prim, Single, Single) -> Single>(&self, fpu: &F, n: Single) -> (r: Mix)
        requires
            total(*fpu),
            self.wf(),
        ensures
            forall|f: Sums| #[trigger] meant(*fpu, f) ==> r == self@.mix(f, self@.cockpit, n),
    {
        let (p, c) = (self.p, self.cockpit);
        let (sr, r) = (self.sr, c.rpm);
        let r1 = r.min(Single::of(ONE));
        let f0 = fpu(Prim::Mul, fpu(Prim::Mul, p.whine_hz, r), fpu(Prim::Add, Single::of(ONE), c.jitter)).clamp(Single::of(P20), fpu(Prim::Mul, sr, Single::of(P0_4)));
        let det = fpu(Prim::Exp2, fpu(Prim::Div, p.whine_detune, Single::of(P1200)), Single::of(ZERO));
        let am = fpu(Prim::Add, Single::of(ONE), fpu(Prim::Mul, fpu(Prim::Mul, p.rumble, Single::of(HALF)), c.rumble));
        let drive = fpu(Prim::Add, fpu(Prim::Add, Single::of(ONE), fpu(Prim::Mul, p.roar_drive, Single::of(THREE))), fpu(Prim::Mul, c.boost_s, Single::of(TWO)));
        let target = tube_delay_samples(fpu, &p, r, sr, self.turbine.tube.delay.len());
        Mix {
            inc: Whine { a: fpu(Prim::Div, f0, sr), b: fpu(Prim::Div, fpu(Prim::Mul, f0, det), sr), c: fpu(Prim::Div, fpu(Prim::Mul, Single::of(TWO), f0), sr), d: fpu(Prim::Div, fpu(Prim::Mul, Single::of(HALF), f0), sr) },
            whine_gain: fpu(Prim::Mul, fpu(Prim::Mul, p.whine_level, fpu(Prim::Add, Single::of(P0_35), fpu(Prim::Mul, Single::of(P0_65), r1))), Single::of(HALF)),
            roar_gain: fpu(Prim::Mul, fpu(Prim::Mul, p.roar_level, fpu(Prim::Add, Single::of(P0_35), fpu(Prim::Mul, Single::of(P0_65), r1))), am),
            drive,
            drive_norm: fpu(Prim::Div, Single::of(P0_75), fpu(Prim::Add, Single::of(ONE), fpu(Prim::Mul, Single::of(P0_15), drive))),
            hiss_gain: fpu(Prim::Mul, fpu(Prim::Mul, fpu(Prim::Mul, p.hiss_level, r1), r1), Single::of(HALF)),
            burner_gain: fpu(Prim::Mul, fpu(Prim::Mul, p.burner_level, c.boost_s), Single::of(HALF)),
            burner_drive: fpu(Prim::Add, Single::of(ONE), fpu(Prim::Mul, p.burner_drive, Single::of(P6))),
            thrum_inc: fpu(Prim::Div, p.burner_thrum_hz, sr),
            wind_gain: fpu(Prim::Mul, fpu(Prim::Mul, fpu(Prim::Mul, p.wind_level, c.speed_s), c.speed_s), Single::of(P2_5)),
            tube_step: fpu(Prim::Div, fpu(Prim::Sub, target, self.turbine.layers.tube_delay), n),
            out_gain: fpu(Prim::Mul, fpu(Prim::Mul, p.gain, c.master_gain), c.sputter_gain),
            peak_decay: self.peak_decay,
        }
    }

    fn tune_block<F: Fn(Prim, Single, Single) -> Single>(&mut self, fpu: &F)
        requires
            total(*fpu),
            old(self).wf(),
        ensures
            final(self).wf(),
            forall|f: Sums| #[trigger] meant(*fpu, f) ==> final(self)@ == (JetView {
                turbine: TurbineView { layers: old(self)@.tuned(f, old(self)@.cockpit), ..old(self)@.turbine },
                ..old(self)@
            }),
    {
        let (p, sr, c) = (self.p, self.sr, self.cockpit);
        // Roar: cutoff tracks RPM over +-2 octaves.
        let cut = fpu(Prim::Mul, p.roar_hz, fpu(Prim::Exp2, fpu(Prim::Mul, Single::of(TWO), fpu(Prim::Sub, c.rpm, Single::of(ONE))), Single::of(ZERO)));
        self.turbine.layers.roar_lp.set(fpu, FilterMode::LowPass, cut, p.roar_resonance, sr);
        self.turbine.layers.roar_bp.set(fpu, FilterMode::BandPass, fpu(Prim::Mul, cut, Single::of(P2_5)), Single::of(P0_3), sr);
        self.turbine.layers.hiss_hp.set(fpu, FilterMode::HighPass, p.hiss_hz, Single::of(P0_1), sr);
        self.turbine.layers.burner_hp.set(fpu, FilterMode::HighPass, Single::of(P250), Single::of(P0_2), sr);
        self.turbine.layers.wind_bp.set(fpu, FilterMode::BandPass, fpu(Prim::Mul, p.wind_hz, fpu(Prim::Add, Single::of(HALF), fpu(Prim::Mul, Single::of(P0_9), c.speed_s))), Single::of(P0_25), sr);
    }

    /// Render mono audio into `out`, overwriting it. Allocation free.
    pub fn render_mono<F: Fn(Prim, Single, Single) -> Single>(&mut self, fpu: &F, out: &mut Vec<Single>)
        requires
            total(*fpu),
            old(self).wf(),
        ensures
            final(self).wf(),
            final(out)@.len() == old(out)@.len(),
            forall|f: Sums| #[trigger] meant(*fpu, f) ==> (final(self)@, final(out)@) == old(self)@.rendered(f, old(out)@),
    {
        let len = out.len();
        let ghost x = out@;
        let mut at: usize = 0;
        assert(x.skip(0) =~= x);
        assert(out@.take(0) =~= seq![]);
        while at < len
            invariant
                total(*fpu),
                at <= len == out@.len() == x.len(),
                x == old(out)@,
                self.wf(),
                same_outside(x, out@, 0, at as int),
                forall|f: Sums| #[trigger] meant(*fpu, f) ==> old(self)@.rendered(f, x) == ({
                    let (t, tail) = self@.rendered(f, x.skip(at as int));
                    (t, out@.take(at as int) + tail)
                }),
            decreases len - at,
        {
            let next: usize = if len - at < BLOCK { len } else { at + BLOCK };
            let ghost rest = x.skip(at as int);
            let ghost done = out@.take(at as int);
            let ghost v = self@;
            assert(out@.subrange(at as int, next as int) =~= rest.take(next - at));
            assert(rest.skip(next - at) =~= x.skip(next as int));
            self.render_block(fpu, out, at, next);
            assert(out@.take(next as int) =~= done + out@.subrange(at as int, next as int));
            assert(forall|f: Sums| #[trigger] meant(*fpu, f) ==> ({
                let (w, tail) = self@.rendered(f, x.skip(next as int));
                &&& v.rendered(f, rest) == (w, out@.subrange(at as int, next as int) + tail)
                &&& done + (out@.subrange(at as int, next as int) + tail) =~= out@.take(next as int) + tail
            }));
            at = next;
        }
        assert(x.skip(at as int) =~= seq![]);
        assert(out@.take(at as int) + seq![] =~= out@);
    }

    /// Render one block into samples `start..end`, overwriting them.
    pub fn render_block<F: Fn(Prim, Single, Single) -> Single>(&mut self, fpu: &F, out: &mut Vec<Single>, start: usize, end: usize)
        requires
            total(*fpu),
            old(self).wf(),
            start < end <= old(out)@.len(),
            end - start <= BLOCK,
        ensures
            final(self).wf(),
            same_outside(old(out)@, final(out)@, start as int, end as int),
            forall|f: Sums| #[trigger] meant(*fpu, f) ==> (final(self)@, final(out)@.subrange(start as int, end as int)) == old(self)@.block(
                f,
                old(out)@.subrange(start as int, end as int),
            ),
    {
        proof {
            reveal(JetView::block);
        }
        let n = from_i32((end - start) as i32);
        let p = self.p;
        self.cockpit.advance(fpu, &p, fpu(Prim::Div, n, self.sr));
        let mix = self.mix_block(fpu, n);
        self.tune_block(fpu);
        turbine_span(fpu, p, mix, &mut self.turbine, out, start, end);
        if !self.turbine.layers.peak.is_finite() {
            self.turbine.layers.peak = Single::of(ZERO);
        }
        let pos = self.turbine.tube.delay_pos;
        let oldest = self.turbine.tube.delay[pos];
        assert(oldest == self.turbine@.tube[0]);
        if !oldest.is_finite() {
            self.silence_tube();
        }
    }

    fn silence_tube(&mut self)
        requires
            old(self).wf(),
        ensures
            final(self).wf(),
            final(self)@ == (JetView {
                turbine: TurbineView {
                    tube: Seq::new(old(self)@.turbine.tube.len(), |j: int| Single::of(ZERO)),
                    ..old(self)@.turbine
                },
                ..old(self)@
            }),
    {
        let len = self.turbine.tube.delay.len();
        let mut i: usize = 0;
        while i < len
            invariant
                i <= len,
                old(self).wf(),
                self.wf(),
                len == self.turbine.tube.delay@.len() == old(self).turbine.tube.delay@.len(),
                *self == (JetEngine { turbine: self.turbine, ..*old(self) }),
                self.turbine.layers == old(self).turbine.layers,
                self.turbine.tube.delay_pos == old(self).turbine.tube.delay_pos,
                forall|j: int| 0 <= j < i ==> self.turbine.tube.delay@[j] == Single::of(ZERO),
            decreases len - i,
        {
            self.turbine.tube.delay.set(i, Single::of(ZERO));
            i = i + 1;
        }
        assert(self.turbine.tube@ =~= Seq::new(len as nat, |j: int| Single::of(ZERO)));
    }
}

proof fn lemma_turbine_overwrites(f: Sums, p: JetParams, m: Mix, s: TurbineView, a: Seq<Single>, b: Seq<Single>)
    requires
        a.len() == b.len(),
    ensures
        turbine_run(f, p, m, s, a) == turbine_run(f, p, m, s, b),
        turbine_run(f, p, m, s, a).1.len() == a.len(),
    decreases a.len(),
{
    if a.len() > 0 {
        lemma_turbine_overwrites(f, p, m, s, a.drop_last(), b.drop_last());
        reveal(turbine_tick);
    }
}

/// A block is as long as what it replaces, and does not depend on that.
pub proof fn lemma_block_overwrites(s: JetView, f: Sums, x: Seq<Single>, y: Seq<Single>)
    requires
        x.len() == y.len(),
    ensures
        s.block(f, x) == s.block(f, y),
        s.block(f, x).1.len() == x.len(),
{
    reveal(JetView::block);
    let n = crate::single::signed_integer(x.len() as int);
    let c = s.cockpit.later(f, s.p, f(Prim::Div, n, s.sr));
    let start = TurbineView { layers: s.tuned(f, c), ..s.turbine };
    lemma_turbine_overwrites(f, s.p, s.mix(f, c, n), start, x, y);
}

/// Rendering overwrites: as many samples come as there is room for, and what the buffer held before
/// does not matter.
pub proof fn lemma_jet_overwrites(s: JetView, f: Sums, x: Seq<Single>, y: Seq<Single>)
    requires
        x.len() == y.len(),
    ensures
        s.rendered(f, x) == s.rendered(f, y),
        s.rendered(f, x).1.len() == x.len(),
    decreases x.len(),
{
    if x.len() > 0 {
        let n: int = if x.len() < BLOCK { x.len() as int } else { BLOCK as int };
        lemma_block_overwrites(s, f, x.take(n), y.take(n));
        lemma_jet_overwrites(s.block(f, x.take(n)).0, f, x.skip(n), y.skip(n));
    }
}

/// Rendering a number of whole blocks and then more gives what rendering at once gives.
pub proof fn lemma_jet_renders_in_parts(s: JetView, f: Sums, x: Seq<Single>, blocks: nat)
    requires
        blocks * BLOCK <= x.len(),
    ensures
        s.rendered(f, x) == ({
            let (t, head) = s.rendered(f, x.take((blocks * BLOCK) as int));
            let (u, tail) = t.rendered(f, x.skip((blocks * BLOCK) as int));
            (u, head + tail)
        }),
    decreases blocks,
{
    let m = (blocks * BLOCK) as int;
    if blocks == 0 {
        assert(x.skip(0) =~= x);
        assert(x.take(0) =~= seq![]);
        assert(Seq::<Single>::empty() + s.rendered(f, x).1 =~= s.rendered(f, x).1);
    } else {
        let b = BLOCK as int;
        let fewer = (blocks - 1) as nat;
        assert(m == fewer * BLOCK + b) by (nonlinear_arith)
            requires
                m == blocks * b,
                blocks == fewer + 1,
                b == BLOCK,
        ;
        let (a, first) = s.block(f, x.take(b));
        let rest = x.skip(b);
        lemma_jet_renders_in_parts(a, f, rest, fewer);
        assert(x.take(m).take(b) =~= x.take(b));
        assert(x.take(m).skip(b) =~= rest.take(m - b));
        assert(rest.skip(m - b) =~= x.skip(m));
        let (t, head) = a.rendered(f, rest.take(m - b));
        let (u, tail) = t.rendered(f, x.skip(m));
        assert(first + (head + tail) =~= (first + head) + tail);
    }
}

/// Snapping the RPM puts it where the controls ask for, and then it stays put by snapping again.
pub proof fn lemma_snap_is_settled(s: JetView, f: Sums)
    ensures
        s.applied(f, JetCommand::SnapRpm).cockpit.rpm == s.cockpit.goal(f, s.p),
        s.applied(f, JetCommand::SnapRpm).applied(f, JetCommand::SnapRpm) == s.applied(f, JetCommand::SnapRpm),
{
}

/// Share of the way to its target that a spool covers in `dt` seconds.
pub open spec fn spool_share(f: Sums, spool: Single, dt: Single) -> Single {
    let tau = f(Prim::Div, spool, Single::of(THREE)).larger(Single::of(P0_001));
    f(Prim::Sub, Single::of(ONE), f(Prim::Exp, f(Prim::Div, dt.negated(), tau), Single::of(ZERO)))
}

/// An RPM a block of `n` samples nearer to `goal`, spooling up or down.
pub open spec fn spun(f: Sums, p: JetParams, sr: Single, goal: Single, r: Single, n: int, up: bool) -> Single {
    let spool = if up { p.spool_up } else { p.spool_down };
    let share = spool_share(f, spool, f(Prim::Div, crate::single::signed_integer(n), sr));
    f(Prim::Add, r, f(Prim::Mul, f(Prim::Sub, goal, r), share))
}

/// Arithmetic in which no block carries the RPM past `goal`, as rounded arithmetic does not where a
/// block is short against the spool.
pub open spec fn spools_smoothly(f: Sums, p: JetParams, sr: Single, goal: Single) -> bool {
    forall|r: Single, n: int, up: bool|
        0 < n <= BLOCK && r.finite() ==> crate::math::on_the_way(r, goal, #[trigger] spun(f, p, sr, goal, r, n, up))
}

/// While the controls stay put, so does the RPM they ask for, and the RPM stays on the way there.
pub proof fn lemma_rpm_stays_on_its_way(s: JetView, f: Sums, x: Seq<Single>)
    requires
        s.cockpit.rpm.finite(),
        s.cockpit.goal(f, s.p).finite(),
        spools_smoothly(f, s.p, s.sr, s.cockpit.goal(f, s.p)),
    ensures
        s.rendered(f, x).0.cockpit.goal(f, s.p) == s.cockpit.goal(f, s.p),
        crate::math::on_the_way(s.cockpit.rpm, s.cockpit.goal(f, s.p), s.rendered(f, x).0.cockpit.rpm),
    decreases x.len(),
{
    if x.len() > 0 {
        let n: int = if x.len() < BLOCK { x.len() as int } else { BLOCK as int };
        let goal = s.cockpit.goal(f, s.p);
        let r = s.cockpit.rpm;
        let dt = f(Prim::Div, crate::single::signed_integer(n), s.sr);
        let up = r.below(goal);
        let next = spun(f, s.p, s.sr, goal, r, n, up);
        assert(crate::math::on_the_way(r, goal, next));
        let t = s.block(f, x.take(n)).0;
        assert(t.cockpit.rpm == next && t.cockpit.goal(f, s.p) == goal && t.p == s.p && t.sr == s.sr) by {
            reveal(JetView::block);
            assert(x.take(n).len() == n);
            assert(t.cockpit == s.cockpit.later(f, s.p, dt));
            let c = s.cockpit.spooled(f, s.p, dt);
            assert(c.rpm == next);
        }
        assert(next.finite());
        lemma_rpm_stays_on_its_way(t, f, x.skip(n));
    }
}

proof fn lemma_turbine_in_scale(f: Sums, p: JetParams, m: Mix, s: TurbineView, x: Seq<Single>, i: int)
    requires
        0 <= i < x.len(),
    ensures
        turbine_run(f, p, m, s, x).1.len() == x.len(),
        crate::math::never_loud(turbine_run(f, p, m, s, x).1[i]),
    decreases x.len(),
{
    reveal(turbine_tick);
    lemma_turbine_overwrites(f, p, m, s, x, x);
    lemma_turbine_overwrites(f, p, m, s, x.drop_last(), x.drop_last());
    if i < x.len() - 1 {
        lemma_turbine_in_scale(f, p, m, s, x.drop_last(), i);
    }
}

/// No number in a block of an engine is above full scale.
pub proof fn lemma_jet_block_in_scale(s: JetView, f: Sums, x: Seq<Single>, i: int)
    requires
        0 <= i < x.len(),
    ensures
        s.block(f, x).1.len() == x.len(),
        crate::math::never_loud(s.block(f, x).1[i]),
{
    lemma_block_overwrites(s, f, x, x);
    reveal(JetView::block);
    let n = crate::single::signed_integer(x.len() as int);
    let c = s.cockpit.later(f, s.p, f(Prim::Div, n, s.sr));
    lemma_turbine_in_scale(f, s.p, s.mix(f, c, n), TurbineView { layers: s.tuned(f, c), ..s.turbine }, x, i);
}

/// No number an engine renders is above full scale.
pub proof fn lemma_jet_in_scale(s: JetView, f: Sums, x: Seq<Single>, i: int)
    requires
        0 <= i < x.len(),
    ensures
        s.rendered(f, x).1.len() == x.len(),
        crate::math::never_loud(s.rendered(f, x).1[i]),
    decreases x.len(),
{
    let n: int = if x.len() < BLOCK { x.len() as int } else { BLOCK as int };
    let t = s.block(f, x.take(n)).0;
    lemma_block_overwrites(s, f, x.take(n), x.take(n));
    lemma_jet_overwrites(t, f, x.skip(n), x.skip(n));
    if i < n {
        lemma_jet_block_in_scale(s, f, x.take(n), i);
    } else {
        lemma_jet_in_scale(t, f, x.skip(n), i - n);
    }
}

/// The peak meter of an engine stays in [0, 1].
pub proof fn lemma_jet_peak_is_share(f: Sums, p: JetParams, m: Mix, s: TurbineView, x: Seq<Single>)
    requires
        crate::math::shares_multiply(f),
        crate::math::is_share(s.layers.peak),
        crate::math::is_share(m.peak_decay),
    ensures
        crate::math::is_share(turbine_run(f, p, m, s, x).0.layers.peak),
    decreases x.len(),
{
    reveal(turbine_tick);
    if x.len() > 0 {
        lemma_jet_peak_is_share(f, p, m, s, x.drop_last());
        let t = turbine_run(f, p, m, s, x.drop_last()).0;
        assert(crate::math::is_share(f(Prim::Mul, t.layers.peak, m.peak_decay)));
    }
}

} // verus!
