//! Vehicle and machine generators: jet, anti-grav hover, combustion engine, electric motor,
//! rotor.
use vstd::prelude::*;

use crate::arith::{meant, total, Prim, Sums};
use crate::blocks::{hz_coef, settle_coef, DelayLine, Dust, OnePole, Phasor, SlowNoise, LONGEST_LINE};
use crate::effects::same_outside;
use crate::filter::{FilterMode, Svf};
use crate::jet::{JetEngine, JetParams, JetPreset, JetView};
use crate::math::{soft_clip, Rng};
use crate::native::{Generator, InputSpec, InputView, Profile, ProfileView};
use crate::noise::Noise;
use crate::osc::{Oscillator, Waveform};
use crate::params::{bound, ParamKind, Params};
use crate::single::{from_i32, Single, HALF, ONE, TAU, THREE, TWO, ZERO};
use crate::text::equal;

verus! {

/// Pattern of 0.001.
pub const P0_001: u32 = 0x3a83_126f;

/// Pattern of 0.02.
pub const P0_02: u32 = 0x3ca3_d70a;

/// Pattern of 0.05.
pub const P0_05: u32 = 0x3d4c_cccd;

/// Pattern of 0.08.
pub const P0_08: u32 = 0x3da3_d70a;

/// Pattern of 0.1.
pub const P0_1: u32 = 0x3dcc_cccd;

/// Pattern of 0.15.
pub const P0_15: u32 = 0x3e19_999a;

/// Pattern of 0.17.
pub const P0_17: u32 = 0x3e2e_147b;

/// Pattern of 0.2.
pub const P0_2: u32 = 0x3e4c_cccd;

/// Pattern of 0.23.
pub const P0_23: u32 = 0x3e6b_851f;

/// Pattern of 0.25.
pub const P0_25: u32 = 0x3e80_0000;

/// Pattern of 0.3.
pub const P0_3: u32 = 0x3e99_999a;

/// Pattern of 0.35.
pub const P0_35: u32 = 0x3eb3_3333;

/// Pattern of 0.4.
pub const P0_4: u32 = 0x3ecc_cccd;

/// Pattern of 0.45.
pub const P0_45: u32 = 0x3ee6_6666;

/// Pattern of 0.55.
pub const P0_55: u32 = 0x3f0c_cccd;

/// Pattern of 0.6.
pub const P0_6: u32 = 0x3f19_999a;

/// Pattern of 0.65.
pub const P0_65: u32 = 0x3f26_6666;

/// Pattern of 0.7.
pub const P0_7: u32 = 0x3f33_3333;

/// Pattern of 0.72.
pub const P0_72: u32 = 0x3f38_51ec;

/// Pattern of 0.75.
pub const P0_75: u32 = 0x3f40_0000;

/// Pattern of 0.8.
pub const P0_8: u32 = 0x3f4c_cccd;

/// Pattern of 0.82.
pub const P0_82: u32 = 0x3f51_eb85;

/// Pattern of 0.85.
pub const P0_85: u32 = 0x3f59_999a;

/// Pattern of 0.9.
pub const P0_9: u32 = 0x3f66_6666;

/// Pattern of 0.95.
pub const P0_95: u32 = 0x3f73_3333;

/// Pattern of 1.1.
pub const P1_1: u32 = 0x3f8c_cccd;

/// Pattern of 1.2.
pub const P1_2: u32 = 0x3f99_999a;

/// Pattern of 1.3.
pub const P1_3: u32 = 0x3fa6_6666;

/// Pattern of 1.31.
pub const P1_31: u32 = 0x3fa7_ae14;

/// Pattern of 1.4.
pub const P1_4: u32 = 0x3fb3_3333;

/// Pattern of 1.5.
pub const P1_5: u32 = 0x3fc0_0000;

/// Pattern of 1.6.
pub const P1_6: u32 = 0x3fcc_cccd;

/// Pattern of 2.2.
pub const P2_2: u32 = 0x400c_cccd;

/// Pattern of 2.5.
pub const P2_5: u32 = 0x4020_0000;

/// Pattern of 2.8.
pub const P2_8: u32 = 0x4033_3333;

/// Pattern of 3.5.
pub const P3_5: u32 = 0x4060_0000;

/// Pattern of 4.
pub const P4: u32 = 0x4080_0000;

/// Pattern of 4.5.
pub const P4_5: u32 = 0x4090_0000;

/// Pattern of 5.
pub const P5: u32 = 0x40a0_0000;

/// Pattern of 6.
pub const P6: u32 = 0x40c0_0000;

/// Pattern of 7.3.
pub const P7_3: u32 = 0x40e9_999a;

/// Pattern of 8.
pub const P8: u32 = 0x4100_0000;

/// Pattern of 9.
pub const P9: u32 = 0x4110_0000;

/// Pattern of 9.1.
pub const P9_1: u32 = 0x4111_999a;

/// Pattern of 10.
pub const P10: u32 = 0x4120_0000;

/// Pattern of 12.
pub const P12: u32 = 0x4140_0000;

/// Pattern of 14.
pub const P14: u32 = 0x4160_0000;

/// Pattern of 16.
pub const P16: u32 = 0x4180_0000;

/// Pattern of 20.
pub const P20: u32 = 0x41a0_0000;

/// Pattern of 22.
pub const P22: u32 = 0x41b0_0000;

/// Pattern of 24.
pub const P24: u32 = 0x41c0_0000;

/// Pattern of 28.
pub const P28: u32 = 0x41e0_0000;

/// Pattern of 30.
pub const P30: u32 = 0x41f0_0000;

/// Pattern of 31.
pub const P31: u32 = 0x41f8_0000;

/// Pattern of 40.
pub const P40: u32 = 0x4220_0000;

/// Pattern of 41.
pub const P41: u32 = 0x4224_0000;

/// Pattern of 60.
pub const P60: u32 = 0x4270_0000;

/// Pattern of 62.
pub const P62: u32 = 0x4278_0000;

/// Pattern of 70.
pub const P70: u32 = 0x428c_0000;

/// Pattern of 95.
pub const P95: u32 = 0x42be_0000;

/// Pattern of 96.
pub const P96: u32 = 0x42c0_0000;

/// Pattern of 100.
pub const P100: u32 = 0x42c8_0000;

/// Pattern of 140.
pub const P140: u32 = 0x430c_0000;

/// Pattern of 160.
pub const P160: u32 = 0x4320_0000;

/// Pattern of 200.
pub const P200: u32 = 0x4348_0000;

/// Pattern of 210.
pub const P210: u32 = 0x4352_0000;

/// Pattern of 260.
pub const P260: u32 = 0x4382_0000;

/// Pattern of 300.
pub const P300: u32 = 0x4396_0000;

/// Pattern of 420.
pub const P420: u32 = 0x43d2_0000;

/// Pattern of 500.
pub const P500: u32 = 0x43fa_0000;

/// Pattern of 600.
pub const P600: u32 = 0x4416_0000;

/// Pattern of 650.
pub const P650: u32 = 0x4422_8000;

/// Pattern of 700.
pub const P700: u32 = 0x442f_0000;

/// Pattern of 800.
pub const P800: u32 = 0x4448_0000;

/// Pattern of 900.
pub const P900: u32 = 0x4461_0000;

/// Pattern of 1000.
pub const P1000: u32 = 0x447a_0000;

/// Pattern of 1200.
pub const P1200: u32 = 0x4496_0000;

/// Pattern of 1300.
pub const P1300: u32 = 0x44a2_8000;

/// Pattern of 1500.
pub const P1500: u32 = 0x44bb_8000;

/// Pattern of 1600.
pub const P1600: u32 = 0x44c8_0000;

/// Pattern of 2000.
pub const P2000: u32 = 0x44fa_0000;

/// Pattern of 2400.
pub const P2400: u32 = 0x4516_0000;

/// Pattern of 2500.
pub const P2500: u32 = 0x451c_4000;

/// Pattern of 2800.
pub const P2800: u32 = 0x452f_0000;

/// Pattern of 3000.
pub const P3000: u32 = 0x453b_8000;

/// Pattern of 3200.
pub const P3200: u32 = 0x4548_0000;

/// Pattern of 3600.
pub const P3600: u32 = 0x4561_0000;

/// Pattern of 4000.
pub const P4000: u32 = 0x457a_0000;

/// Pattern of 5200.
pub const P5200: u32 = 0x45a2_8000;

/// Pattern of 6200.
pub const P6200: u32 = 0x45c1_c000;

/// Pattern of 7000.
pub const P7000: u32 = 0x45da_c000;

/// Pattern of 8000.
pub const P8000: u32 = 0x45fa_0000;

/// Pattern of 9000.
pub const P9000: u32 = 0x460c_a000;

/// Pattern of 11000.
pub const P11000: u32 = 0x462b_e000;

/// Pattern of 12000.
pub const P12000: u32 = 0x463b_8000;

/// Pattern of 16000.
pub const P16000: u32 = 0x467a_0000;

/// A gentle start: nothing at zero, all from a twelfth on.
pub open spec fn faded_in(f: Sums, x: Single) -> Single {
    let t = f(Prim::Mul, x, Single::of(P12)).within(Single::of(ZERO), Single::of(ONE));
    f(Prim::Mul, f(Prim::Mul, t, t), f(Prim::Sub, Single::of(THREE), f(Prim::Mul, Single::of(TWO), t)))
}

fn fade_in<F: Fn(Prim, Single, Single) -> Single>(fpu: &F, x: Single) -> (r: Single)
    requires
        total(*fpu),
    ensures
        forall|f: Sums| #[trigger] meant(*fpu, f) ==> r == faded_in(f, x),
{
    let t = fpu(Prim::Mul, x, Single::of(P12)).clamp(Single::of(ZERO), Single::of(ONE));
    fpu(Prim::Mul, fpu(Prim::Mul, t, t), fpu(Prim::Sub, Single::of(THREE), fpu(Prim::Mul, Single::of(TWO), t)))
}

/// `y` moved toward `target` with separate rise/fall settle times.
pub open spec fn slewed(f: Sums, y: Single, target: Single, up: Single, down: Single, dt: Single) -> Single {
    let secs = if y.below(target) {
        up
    } else {
        down
    };
    f(Prim::Add, y, f(Prim::Mul, f(Prim::Sub, target, y), crate::blocks::settling(f, secs, dt)))
}

/// Move `y` toward `target` with separate rise/fall settle times.
fn slew<F: Fn(Prim, Single, Single) -> Single>(fpu: &F, y: Single, target: Single, up: Single, down: Single, dt: Single) -> (r: Single)
    requires
        total(*fpu),
    ensures
        forall|f: Sums| #[trigger] meant(*fpu, f) ==> r == slewed(f, y, target, up, down, dt),
{
    let secs = if y.lt(target) { up } else { down };
    fpu(Prim::Add, y, fpu(Prim::Mul, fpu(Prim::Sub, target, y), settle_coef(fpu, secs, dt)))
}

/// Turbine / jet engine. See [`crate::jet`] for the sound model.
pub struct Jet {
    pub engine: JetEngine,
}

/// The engine with its parameters and controls set.
pub open spec fn jet_driven(s: JetView, f: Sums, x: Seq<Single>, p: JetParams) -> JetView {
    s.applied(f, crate::jet::JetCommand::SetParams(p)).applied(f, crate::jet::JetCommand::Throttle(x[0])).applied(
        f,
        crate::jet::JetCommand::Boost(x[1]),
    ).applied(f, crate::jet::JetCommand::Speed(x[2]))
}

impl Generator for Jet {
    type P = JetParams;

    type State = JetView;

    open spec fn about() -> ProfileView {
        ProfileView {
            name: "jet"@,
            category: "vehicles"@,
            doc: "Turbine engine with spool inertia, afterburner, wind and damage sputter."@,
            smooth_secs: Single::of(ZERO),
            limit: false,
            one_shot: false,
        }
    }

    open spec fn input_list() -> Seq<InputView> {
        seq![
            InputView { name: "throttle"@, default: Single::of(ZERO), doc: "Engine throttle; RPM follows with spool inertia"@ },
            InputView { name: "boost"@, default: Single::of(ZERO), doc: "Afterburner amount"@ },
            InputView { name: "speed"@, default: Single::of(ZERO), doc: "Airspeed, drives the wind layer"@ },
            InputView { name: "damage"@, default: Single::of(ZERO), doc: "Random sputtering drop-outs"@ },
        ]
    }

    open spec fn preset_list() -> Seq<(Seq<char>, JetParams)> {
        seq![
            (JetPreset::Heavy.label(), JetPreset::Heavy.character()),
            (JetPreset::Turbine.label(), JetPreset::Turbine.character()),
            (JetPreset::Scramjet.label(), JetPreset::Scramjet.character()),
        ]
    }

    open spec fn wf(&self) -> bool {
        self.engine.wf()
    }

    open spec fn state(&self) -> JetView {
        self.engine@
    }

    open spec fn fresh(f: Sums, sample_rate: Single) -> JetView {
        JetView::started(f, sample_rate, JetPreset::Racer.character())
    }

    open spec fn snapped(s: JetView, f: Sums, x: Seq<Single>, p: JetParams) -> JetView {
        jet_driven(s, f, x, p).applied(f, crate::jet::JetCommand::SnapRpm)
    }

    open spec fn fired(s: JetView, f: Sums, x: Seq<Single>, p: JetParams) -> JetView {
        s
    }

    open spec fn ringing(s: JetView) -> bool {
        true
    }

    open spec fn played(s: JetView, f: Sums, x: Seq<Single>, p: JetParams, out: Seq<Single>) -> (JetView, Seq<Single>) {
        jet_driven(s, f, x, p).applied(f, crate::jet::JetCommand::Damage(x[3])).block(f, out)
    }

    proof fn lemma_overwrites(s: JetView, f: Sums, x: Seq<Single>, p: JetParams, a: Seq<Single>, b: Seq<Single>) {
        crate::jet::lemma_block_overwrites(
            jet_driven(s, f, x, p).applied(f, crate::jet::JetCommand::Damage(x[3])),
            f,
            a,
            b,
        );
    }

    fn profile() -> (r: Profile) {
        Profile {
            name: "jet",
            category: "vehicles",
            doc: "Turbine engine with spool inertia, afterburner, wind and damage sputter.",
            smooth_secs: Single::of(ZERO),
            limit: false,
            one_shot: false,
        }
    }

    fn inputs() -> (r: Vec<InputSpec>) {
        let z = Single::of(ZERO);
        let mut r: Vec<InputSpec> = Vec::new();
        r.push(InputSpec { name: "throttle", default: z, doc: "Engine throttle; RPM follows with spool inertia" });
        r.push(InputSpec { name: "boost", default: z, doc: "Afterburner amount" });
        r.push(InputSpec { name: "speed", default: z, doc: "Airspeed, drives the wind layer" });
        r.push(InputSpec { name: "damage", default: z, doc: "Random sputtering drop-outs" });
        r
    }

    fn presets() -> (r: Vec<(&'static str, JetParams)>) {
        let mut r: Vec<(&'static str, JetParams)> = Vec::new();
        r.push((JetPreset::Heavy.name(), JetPreset::Heavy.params()));
        r.push((JetPreset::Turbine.name(), JetPreset::Turbine.params()));
        r.push((JetPreset::Scramjet.name(), JetPreset::Scramjet.params()));
        r
    }

    fn new<F: Fn(Prim, Single, Single) -> Single>(fpu: &F, sample_rate: Single) -> (r: Jet) {
        Jet { engine: JetEngine::new(fpu, sample_rate, JetParams::default()) }
    }

    fn snap<F: Fn(Prim, Single, Single) -> Single>(&mut self, fpu: &F, x: &Vec<Single>, p: &JetParams) {
        self.engine.set_params(*p);
        self.engine.set_throttle(x[0]);
        self.engine.set_boost(x[1]);
        self.engine.set_speed(x[2]);
        self.engine.snap_rpm(fpu);
    }

    fn trigger<F: Fn(Prim, Single, Single) -> Single>(&mut self, fpu: &F, x: &Vec<Single>, p: &JetParams) {
    }

    fn is_active(&self) -> (r: bool) {
        true
    }

    fn block<F: Fn(Prim, Single, Single) -> Single>(&mut self, fpu: &F, x: &Vec<Single>, p: &JetParams, out: &mut Vec<Single>, start: usize, end: usize) {
        self.engine.set_params(*p);
        self.engine.set_throttle(x[0]);
        self.engine.set_boost(x[1]);
        self.engine.set_speed(x[2]);
        self.engine.set_damage(x[3]);
        self.engine.render_block(fpu, out, start, end);
    }
}

/// Anti-gravity field: pulsing detuned core hum, sub, airy shimmer through a slow flanger.
#[derive(Clone, Copy, Debug, PartialEq, Eq, Structural)]
pub struct HoverParams {
    pub base_hz: Single,
    pub detune: Single,
    pub core_level: Single,
    pub sub_level: Single,
    pub response: Single,
    pub pulse_hz: Single,
    pub pulse_depth: Single,
    pub shimmer_level: Single,
    pub shimmer_hz: Single,
    pub sweep_ms: Single,
    pub sweep_feedback: Single,
    pub strain_drive: Single,
    pub gain: Single,
}

impl HoverParams {
    pub open spec fn plain() -> HoverParams {
        HoverParams {
            base_hz: Single::of(P62),
            detune: Single::of(P9),
            core_level: Single::of(P0_7),
            sub_level: Single::of(HALF),
            response: Single::of(P0_35),
            pulse_hz: Single::of(P9),
            pulse_depth: Single::of(P0_35),
            shimmer_level: Single::of(P0_35),
            shimmer_hz: Single::of(P2400),
            sweep_ms: Single::of(P2_2),
            sweep_feedback: Single::of(P0_6),
            strain_drive: Single::of(P0_6),
            gain: Single::of(P0_9),
        }
    }
}

impl Default for HoverParams {
    fn default() -> (r: HoverParams)
        ensures
            r == HoverParams::plain(),
    {
        HoverParams {
            base_hz: Single::of(P62),
            detune: Single::of(P9),
            core_level: Single::of(P0_7),
            sub_level: Single::of(HALF),
            response: Single::of(P0_35),
            pulse_hz: Single::of(P9),
            pulse_depth: Single::of(P0_35),
            shimmer_level: Single::of(P0_35),
            shimmer_hz: Single::of(P2400),
            sweep_ms: Single::of(P2_2),
            sweep_feedback: Single::of(P0_6),
            strain_drive: Single::of(P0_6),
            gain: Single::of(P0_9),
        }
    }
}

/// Identifier of every tweakable value in [`HoverParams`].
#[derive(Clone, Copy, Debug, PartialEq, Eq, Structural)]
pub enum HoverParamId {
    BaseHz,
    Detune,
    CoreLevel,
    SubLevel,
    Response,
    PulseHz,
    PulseDepth,
    ShimmerLevel,
    ShimmerHz,
    SweepMs,
    SweepFeedback,
    StrainDrive,
    Gain,
}

impl HoverParamId {
    /// Number of parameters.
    pub const COUNT: usize = 13;

    /// Every parameter, in table order.
    pub open spec fn all() -> Seq<HoverParamId> {
        seq![
            HoverParamId::BaseHz,
            HoverParamId::Detune,
            HoverParamId::CoreLevel,
            HoverParamId::SubLevel,
            HoverParamId::Response,
            HoverParamId::PulseHz,
            HoverParamId::PulseDepth,
            HoverParamId::ShimmerLevel,
            HoverParamId::ShimmerHz,
            HoverParamId::SweepMs,
            HoverParamId::SweepFeedback,
            HoverParamId::StrainDrive,
            HoverParamId::Gain,
        ]
    }

    /// Place in the table.
    pub open spec fn place(self) -> int {
        match self {
            HoverParamId::BaseHz => 0,
            HoverParamId::Detune => 1,
            HoverParamId::CoreLevel => 2,
            HoverParamId::SubLevel => 3,
            HoverParamId::Response => 4,
            HoverParamId::PulseHz => 5,
            HoverParamId::PulseDepth => 6,
            HoverParamId::ShimmerLevel => 7,
            HoverParamId::ShimmerHz => 8,
            HoverParamId::SweepMs => 9,
            HoverParamId::SweepFeedback => 10,
            HoverParamId::StrainDrive => 11,
            HoverParamId::Gain => 12,
        }
    }

    pub open spec fn label(self) -> Seq<char> {
        match self {
            HoverParamId::BaseHz => "core/hz"@,
            HoverParamId::Detune => "core/detune_cents"@,
            HoverParamId::CoreLevel => "core/level"@,
            HoverParamId::SubLevel => "core/sub"@,
            HoverParamId::Response => "core/response"@,
            HoverParamId::PulseHz => "field/pulse_hz"@,
            HoverParamId::PulseDepth => "field/pulse_depth"@,
            HoverParamId::ShimmerLevel => "field/shimmer"@,
            HoverParamId::ShimmerHz => "field/shimmer_hz"@,
            HoverParamId::SweepMs => "field/sweep_ms"@,
            HoverParamId::SweepFeedback => "field/sweep_feedback"@,
            HoverParamId::StrainDrive => "strain/drive"@,
            HoverParamId::Gain => "master/gain"@,
        }
    }

    pub open spec fn range(self) -> ParamKind {
        match self {
            HoverParamId::BaseHz => ParamKind::Exp { min: Single::of(P30), max: Single::of(P200) },
            HoverParamId::Detune => ParamKind::Float { min: Single::of(ZERO), max: Single::of(P40), step: Single::of(P0_001) },
            HoverParamId::CoreLevel => ParamKind::Float { min: Single::of(ZERO), max: Single::of(ONE), step: Single::of(P0_001) },
            HoverParamId::SubLevel => ParamKind::Float { min: Single::of(ZERO), max: Single::of(ONE), step: Single::of(P0_001) },
            HoverParamId::Response => ParamKind::Float { min: Single::of(P0_02), max: Single::of(THREE), step: Single::of(P0_001) },
            HoverParamId::PulseHz => ParamKind::Float { min: Single::of(ONE), max: Single::of(P40), step: Single::of(P0_001) },
            HoverParamId::PulseDepth => ParamKind::Float { min: Single::of(ZERO), max: Single::of(ONE), step: Single::of(P0_001) },
            HoverParamId::ShimmerLevel => ParamKind::Float { min: Single::of(ZERO), max: Single::of(ONE), step: Single::of(P0_001) },
            HoverParamId::ShimmerHz => ParamKind::Exp { min: Single::of(P500), max: Single::of(P9000) },
            HoverParamId::SweepMs => ParamKind::Float { min: Single::of(P0_3), max: Single::of(P10), step: Single::of(P0_001) },
            HoverParamId::SweepFeedback => ParamKind::Float { min: Single::of(ZERO), max: Single::of(P0_9), step: Single::of(P0_001) },
            HoverParamId::StrainDrive => ParamKind::Float { min: Single::of(ZERO), max: Single::of(ONE), step: Single::of(P0_001) },
            HoverParamId::Gain => ParamKind::Float { min: Single::of(ZERO), max: Single::of(TWO), step: Single::of(P0_001) },
        }
    }

    /// The parameter at a place of the table, if there is one.
    pub fn from_index(i: usize) -> (r: Option<HoverParamId>)
        ensures
            r == if i < 13 {
                Some(HoverParamId::all()[i as int])
            } else {
                None
            },
    {
        if i < 13 {
            Some(HoverParamId::nth(i))
        } else {
            None
        }
    }

    /// The parameter at a place of the table.
    pub fn nth(i: usize) -> (r: HoverParamId)
        requires
            i < 13,
        ensures
            r == HoverParamId::all()[i as int],
            r.place() == i,
    {
        match i {
            0 => HoverParamId::BaseHz,
            1 => HoverParamId::Detune,
            2 => HoverParamId::CoreLevel,
            3 => HoverParamId::SubLevel,
            4 => HoverParamId::Response,
            5 => HoverParamId::PulseHz,
            6 => HoverParamId::PulseDepth,
            7 => HoverParamId::ShimmerLevel,
            8 => HoverParamId::ShimmerHz,
            9 => HoverParamId::SweepMs,
            10 => HoverParamId::SweepFeedback,
            11 => HoverParamId::StrainDrive,
            _ => HoverParamId::Gain,
        }
    }

    pub fn index(self) -> (r: usize)
        ensures
            r == self.place(),
            r < 13,
    {
        match self {
            HoverParamId::BaseHz => 0,
            HoverParamId::Detune => 1,
            HoverParamId::CoreLevel => 2,
            HoverParamId::SubLevel => 3,
            HoverParamId::Response => 4,
            HoverParamId::PulseHz => 5,
            HoverParamId::PulseDepth => 6,
            HoverParamId::ShimmerLevel => 7,
            HoverParamId::ShimmerHz => 8,
            HoverParamId::SweepMs => 9,
            HoverParamId::SweepFeedback => 10,
            HoverParamId::StrainDrive => 11,
            HoverParamId::Gain => 12,
        }
    }

    pub fn name(self) -> (r: &'static str)
        ensures
            r@ == self.label(),
    {
        match self {
            HoverParamId::BaseHz => "core/hz",
            HoverParamId::Detune => "core/detune_cents",
            HoverParamId::CoreLevel => "core/level",
            HoverParamId::SubLevel => "core/sub",
            HoverParamId::Response => "core/response",
            HoverParamId::PulseHz => "field/pulse_hz",
            HoverParamId::PulseDepth => "field/pulse_depth",
            HoverParamId::ShimmerLevel => "field/shimmer",
            HoverParamId::ShimmerHz => "field/shimmer_hz",
            HoverParamId::SweepMs => "field/sweep_ms",
            HoverParamId::SweepFeedback => "field/sweep_feedback",
            HoverParamId::StrainDrive => "strain/drive",
            HoverParamId::Gain => "master/gain",
        }
    }

    pub fn kind(self) -> (r: ParamKind)
        ensures
            r == self.range(),
            r.wf(),
    {
        match self {
            HoverParamId::BaseHz => ParamKind::Exp { min: Single::of(P30), max: Single::of(P200) },
            HoverParamId::Detune => ParamKind::Float { min: Single::of(ZERO), max: Single::of(P40), step: Single::of(P0_001) },
            HoverParamId::CoreLevel => ParamKind::Float { min: Single::of(ZERO), max: Single::of(ONE), step: Single::of(P0_001) },
            HoverParamId::SubLevel => ParamKind::Float { min: Single::of(ZERO), max: Single::of(ONE), step: Single::of(P0_001) },
            HoverParamId::Response => ParamKind::Float { min: Single::of(P0_02), max: Single::of(THREE), step: Single::of(P0_001) },
            HoverParamId::PulseHz => ParamKind::Float { min: Single::of(ONE), max: Single::of(P40), step: Single::of(P0_001) },
            HoverParamId::PulseDepth => ParamKind::Float { min: Single::of(ZERO), max: Single::of(ONE), step: Single::of(P0_001) },
            HoverParamId::ShimmerLevel => ParamKind::Float { min: Single::of(ZERO), max: Single::of(ONE), step: Single::of(P0_001) },
            HoverParamId::ShimmerHz => ParamKind::Exp { min: Single::of(P500), max: Single::of(P9000) },
            HoverParamId::SweepMs => ParamKind::Float { min: Single::of(P0_3), max: Single::of(P10), step: Single::of(P0_001) },
            HoverParamId::SweepFeedback => ParamKind::Float { min: Single::of(ZERO), max: Single::of(P0_9), step: Single::of(P0_001) },
            HoverParamId::StrainDrive => ParamKind::Float { min: Single::of(ZERO), max: Single::of(ONE), step: Single::of(P0_001) },
            HoverParamId::Gain => ParamKind::Float { min: Single::of(ZERO), max: Single::of(TWO), step: Single::of(P0_001) },
        }
    }

    /// The parameter with a name.
    pub fn from_name(name: &str) -> (r: Option<HoverParamId>)
        ensures
            match r {
                Some(id) => id.label() == name@,
                None => forall|id: HoverParamId| (#[trigger] id.label()) != name@,
            },
    {
        let mut i: usize = 0;
        while i < 13
            invariant
                i <= 13,
                forall|id: HoverParamId| id.place() < i ==> (#[trigger] id.label()) != name@,
            decreases 13 - i,
        {
            let id = HoverParamId::nth(i);
            if equal(id.name(), name) {
                return Some(id);
            }
            proof {
                assert forall|other: HoverParamId| other.place() < i + 1 implies (#[trigger] other.label()) != name@ by {
                    if other.place() == i {
                        assert(HoverParamId::all()[other.place()] == other);
                    }
                }
            }
            i = i + 1;
        }
        None
    }
}

impl HoverParams {
    /// Value of a parameter; names count by their index.
    pub open spec fn value(self, id: HoverParamId) -> Single {
        match id {
            HoverParamId::BaseHz => self.base_hz,
            HoverParamId::Detune => self.detune,
            HoverParamId::CoreLevel => self.core_level,
            HoverParamId::SubLevel => self.sub_level,
            HoverParamId::Response => self.response,
            HoverParamId::PulseHz => self.pulse_hz,
            HoverParamId::PulseDepth => self.pulse_depth,
            HoverParamId::ShimmerLevel => self.shimmer_level,
            HoverParamId::ShimmerHz => self.shimmer_hz,
            HoverParamId::SweepMs => self.sweep_ms,
            HoverParamId::SweepFeedback => self.sweep_feedback,
            HoverParamId::StrainDrive => self.strain_drive,
            HoverParamId::Gain => self.gain,
        }
    }

    /// With a parameter set to the nearest value it can take.
    pub open spec fn with(self, id: HoverParamId, v: Single) -> HoverParams {
        match id {
            HoverParamId::BaseHz => HoverParams { base_hz: id.range().clamped(v), ..self },
            HoverParamId::Detune => HoverParams { detune: id.range().clamped(v), ..self },
            HoverParamId::CoreLevel => HoverParams { core_level: id.range().clamped(v), ..self },
            HoverParamId::SubLevel => HoverParams { sub_level: id.range().clamped(v), ..self },
            HoverParamId::Response => HoverParams { response: id.range().clamped(v), ..self },
            HoverParamId::PulseHz => HoverParams { pulse_hz: id.range().clamped(v), ..self },
            HoverParamId::PulseDepth => HoverParams { pulse_depth: id.range().clamped(v), ..self },
            HoverParamId::ShimmerLevel => HoverParams { shimmer_level: id.range().clamped(v), ..self },
            HoverParamId::ShimmerHz => HoverParams { shimmer_hz: id.range().clamped(v), ..self },
            HoverParamId::SweepMs => HoverParams { sweep_ms: id.range().clamped(v), ..self },
            HoverParamId::SweepFeedback => HoverParams { sweep_feedback: id.range().clamped(v), ..self },
            HoverParamId::StrainDrive => HoverParams { strain_drive: id.range().clamped(v), ..self },
            HoverParamId::Gain => HoverParams { gain: id.range().clamped(v), ..self },
        }
    }

    pub fn get(&self, id: HoverParamId) -> (r: Single)
        ensures
            r == self.value(id),
    {
        match id {
            HoverParamId::BaseHz => self.base_hz,
            HoverParamId::Detune => self.detune,
            HoverParamId::CoreLevel => self.core_level,
            HoverParamId::SubLevel => self.sub_level,
            HoverParamId::Response => self.response,
            HoverParamId::PulseHz => self.pulse_hz,
            HoverParamId::PulseDepth => self.pulse_depth,
            HoverParamId::ShimmerLevel => self.shimmer_level,
            HoverParamId::ShimmerHz => self.shimmer_hz,
            HoverParamId::SweepMs => self.sweep_ms,
            HoverParamId::SweepFeedback => self.sweep_feedback,
            HoverParamId::StrainDrive => self.strain_drive,
            HoverParamId::Gain => self.gain,
        }
    }

    /// Set a parameter to the nearest value it can take; what is no number is ignored.
    pub fn set(&mut self, id: HoverParamId, v: Single)
        ensures
            *final(self) == if v.finite() {
                old(self).with(id, v)
            } else {
                *old(self)
            },
    {
        if !v.is_finite() {
            return;
        }
        match id {
            HoverParamId::BaseHz => {
                self.base_hz = id.kind().clamp(v);
            },
            HoverParamId::Detune => {
                self.detune = id.kind().clamp(v);
            },
            HoverParamId::CoreLevel => {
                self.core_level = id.kind().clamp(v);
            },
            HoverParamId::SubLevel => {
                self.sub_level = id.kind().clamp(v);
            },
            HoverParamId::Response => {
                self.response = id.kind().clamp(v);
            },
            HoverParamId::PulseHz => {
                self.pulse_hz = id.kind().clamp(v);
            },
            HoverParamId::PulseDepth => {
                self.pulse_depth = id.kind().clamp(v);
            },
            HoverParamId::ShimmerLevel => {
                self.shimmer_level = id.kind().clamp(v);
            },
            HoverParamId::ShimmerHz => {
                self.shimmer_hz = id.kind().clamp(v);
            },
            HoverParamId::SweepMs => {
                self.sweep_ms = id.kind().clamp(v);
            },
            HoverParamId::SweepFeedback => {
                self.sweep_feedback = id.kind().clamp(v);
            },
            HoverParamId::StrainDrive => {
                self.strain_drive = id.kind().clamp(v);
            },
            HoverParamId::Gain => {
                self.gain = id.kind().clamp(v);
            },
        }
    }
}

/// A parameter that was set has the nearest value it can take.
pub proof fn lemma_hoverparams_set_get(p: HoverParams, id: HoverParamId, v: Single)
    requires
        v.finite(),
    ensures
        p.with(id, v).value(id) == id.range().clamped(v),
{
}


/// Setting a parameter leaves every other one what it was.
#[verifier::rlimit(30)]
pub proof fn lemma_hoverparams_set_keeps_others(p: HoverParams, id: HoverParamId, other: HoverParamId, v: Single)
    requires
        other != id,
    ensures
        p.with(id, v).value(other) == p.value(other),
{
}

/// Length and some letters of a name.
spec fn hoverparamid_sign(id: HoverParamId) -> (int, char) {
    match id {
        HoverParamId::BaseHz => (7, 'z'),
        HoverParamId::Detune => (17, 'e'),
        HoverParamId::CoreLevel => (10, 'e'),
        HoverParamId::SubLevel => (8, 'u'),
        HoverParamId::Response => (13, 'e'),
        HoverParamId::PulseHz => (14, 'p'),
        HoverParamId::PulseDepth => (17, 'p'),
        HoverParamId::ShimmerLevel => (13, 's'),
        HoverParamId::ShimmerHz => (16, 's'),
        HoverParamId::SweepMs => (14, 's'),
        HoverParamId::SweepFeedback => (20, 's'),
        HoverParamId::StrainDrive => (12, '/'),
        HoverParamId::Gain => (11, '/'),
    }
}

#[verifier::rlimit(60)]
proof fn lemma_hoverparamid_sign(id: HoverParamId)
    ensures
        id.label().len() == hoverparamid_sign(id).0,
        hoverparamid_sign(id).0 > 6 ==> id.label()[6] == hoverparamid_sign(id).1,
{
    reveal_strlit("core/hz");
    reveal_strlit("core/detune_cents");
    reveal_strlit("core/level");
    reveal_strlit("core/sub");
    reveal_strlit("core/response");
    reveal_strlit("field/pulse_hz");
    reveal_strlit("field/pulse_depth");
    reveal_strlit("field/shimmer");
    reveal_strlit("field/shimmer_hz");
    reveal_strlit("field/sweep_ms");
    reveal_strlit("field/sweep_feedback");
    reveal_strlit("strain/drive");
    reveal_strlit("master/gain");
}

/// Names tell the parameters apart, so looking up a parameter's name gives the parameter.
pub proof fn lemma_hoverparamid_names_differ(a: HoverParamId, b: HoverParamId)
    requires
        a.label() == b.label(),
    ensures
        a == b,
{
    lemma_hoverparamid_sign(a);
    lemma_hoverparamid_sign(b);
}

impl Params for HoverParams {
    open spec fn plain_params() -> HoverParams {
        HoverParams::plain()
    }

    open spec fn param_count() -> nat {
        HoverParamId::COUNT as nat
    }

    open spec fn label_at(i: int) -> Seq<char> {
        HoverParamId::all()[i].label()
    }

    open spec fn range_at(i: int) -> ParamKind {
        HoverParamId::all()[i].range()
    }

    open spec fn value_at(self, i: int) -> Single {
        self.value(HoverParamId::all()[i])
    }

    open spec fn with_at(self, i: int, v: Single) -> HoverParams {
        self.with(HoverParamId::all()[i], v)
    }

    proof fn lemma_set_at_reads_back(self, i: int, v: Single) {
        lemma_hoverparams_set_get(self, HoverParamId::all()[i], v);
    }

    proof fn lemma_set_at_keeps_others(self, i: int, j: int, v: Single) {
        assert(HoverParamId::all()[i].place() == i);
        assert(HoverParamId::all()[j].place() == j);
        lemma_hoverparams_set_keeps_others(self, HoverParamId::all()[i], HoverParamId::all()[j], v);
    }

    fn default_params() -> (r: HoverParams) {
        HoverParams::default()
    }

    fn count() -> (r: usize) {
        HoverParamId::COUNT
    }

    fn name_at(i: usize) -> (r: &'static str) {
        HoverParamId::nth(i).name()
    }

    fn kind_at(i: usize) -> (r: ParamKind) {
        HoverParamId::nth(i).kind()
    }

    fn get_at(&self, i: usize) -> (r: Single) {
        self.get(HoverParamId::nth(i))
    }

    fn set_at(&mut self, i: usize, v: Single) {
        self.set(HoverParamId::nth(i), v);
    }
}

/// Samples the sweep line holds.
pub open spec fn sweep_room(f: Sums, sample_rate: Single) -> int {
    let n = f(Prim::Mul, Single::of(P0_02), sample_rate).whole();
    4 + if n < 4 {
        4
    } else if n > LONGEST_LINE {
        LONGEST_LINE as int
    } else {
        n
    }
}

/// Anti-gravity craft field: pulsing hum, sub and sweeping shimmer.
pub struct Hover {
    pub sr: Single,
    pub thrust: Single,
    pub osc0: Oscillator,
    pub osc1: Oscillator,
    pub sub: Phasor,
    pub pulse: Phasor,
    pub rough: Phasor,
    pub noise: Noise,
    pub core_lp: Svf,
    pub shimmer0: Svf,
    pub shimmer1: Svf,
    pub drift0: SlowNoise,
    pub drift1: SlowNoise,
    pub drift2: SlowNoise,
    pub sweep: DelayLine,
}

/// A [`Hover`] as a value.
#[verifier::ext_equal]
pub struct HoverView {
    pub sr: Single,
    pub thrust: Single,
    pub osc0: Oscillator,
    pub osc1: Oscillator,
    pub sub: Phasor,
    pub pulse: Phasor,
    pub rough: Phasor,
    pub noise: Noise,
    pub core_lp: Svf,
    pub shimmer0: Svf,
    pub shimmer1: Svf,
    pub drift0: SlowNoise,
    pub drift1: SlowNoise,
    pub drift2: SlowNoise,
    pub sweep: Seq<Single>,
}

impl View for Hover {
    type V = HoverView;

    open spec fn view(&self) -> HoverView {
        HoverView {
            sr: self.sr,
            thrust: self.thrust,
            osc0: self.osc0,
            osc1: self.osc1,
            sub: self.sub,
            pulse: self.pulse,
            rough: self.rough,
            noise: self.noise,
            core_lp: self.core_lp,
            shimmer0: self.shimmer0,
            shimmer1: self.shimmer1,
            drift0: self.drift0,
            drift1: self.drift1,
            drift2: self.drift2,
            sweep: self.sweep.history(),
        }
    }
}

impl Hover {
    pub open spec fn valid(self) -> bool {
        &&& self.sweep.wf()
    }
}

/// Settings of a control block.
#[derive(Clone, Copy, Debug, PartialEq, Eq, Structural)]
pub struct HoverMix {
    pub sr: Single,
    pub strain: Single,
    pub inc0: Single,
    pub inc1: Single,
    pub pulse_inc: Single,
    pub sub_gain: Single,
    pub shimmer_gain: Single,
    pub sweep: Single,
    pub drive: Single,
    pub level: Single,
}

/// The generator at the start of a control block of `n` samples with inputs `x`, and the settings.
pub open spec fn hover_steered(f: Sums, p: HoverParams, x: Seq<Single>, n: Single, s: HoverView) -> (HoverView, HoverMix) {
    let sr = s.sr;
    let dt = f(Prim::Div, n, sr);
    let s = HoverView { thrust: slewed(f, s.thrust, x[0], p.response, f(Prim::Mul, p.response, Single::of(P1_5)), dt), ..s };
    let t = s.thrust;
    let height = x[1];
    let strain = x[2];
    let hz = f(Prim::Mul, p.base_hz, f(Prim::Add, Single::of(ONE), f(Prim::Mul, Single::of(P0_9), t)));
    let inc0 = f(Prim::Div, hz, sr);
    let inc1 = f(Prim::Div, f(Prim::Mul, hz, f(Prim::Exp2, f(Prim::Div, p.detune, Single::of(P1200)), Single::of(ZERO))), sr);
    let s = HoverView { core_lp: s.core_lp.tuned(f, FilterMode::LowPass, f(Prim::Add, Single::of(P200), f(Prim::Mul, f(Prim::Mul, Single::of(P2500), t), t)), Single::of(P0_3), sr), ..s };
    let d0 = s.drift0.advanced(f, Single::of(P0_3), dt).level(f);
    let s = HoverView { drift0: s.drift0.advanced(f, Single::of(P0_3), dt), ..s };
    let d1 = s.drift1.advanced(f, Single::of(P0_23), dt).level(f);
    let s = HoverView { drift1: s.drift1.advanced(f, Single::of(P0_23), dt), ..s };
    let d2 = s.drift2.advanced(f, Single::of(P0_17), dt).level(f);
    let s = HoverView { drift2: s.drift2.advanced(f, Single::of(P0_17), dt), ..s };
    let s = HoverView { shimmer0: s.shimmer0.tuned(f, FilterMode::BandPass, f(Prim::Mul, p.shimmer_hz, f(Prim::Add, Single::of(ONE), f(Prim::Mul, Single::of(P0_3), d0))), Single::of(P0_9), sr), ..s };
    let s = HoverView { shimmer1: s.shimmer1.tuned(f, FilterMode::BandPass, f(Prim::Mul, f(Prim::Mul, p.shimmer_hz, Single::of(P1_5)), f(Prim::Add, Single::of(ONE), f(Prim::Mul, Single::of(P0_3), d1))), Single::of(P0_9), sr), ..s };
    let pulse_inc = f(Prim::Div, f(Prim::Mul, f(Prim::Mul, p.pulse_hz, f(Prim::Add, Single::of(P0_6), f(Prim::Mul, Single::of(P0_8), t))), f(Prim::Sub, Single::of(P1_3), f(Prim::Mul, Single::of(HALF), height))), sr);
    let sub_gain = f(Prim::Mul, p.sub_level, f(Prim::Add, Single::of(ONE), f(Prim::Mul, Single::of(P0_8), f(Prim::Sub, Single::of(ONE), height))));
    let shimmer_gain = f(Prim::Mul, f(Prim::Mul, p.shimmer_level, f(Prim::Add, Single::of(P0_2), f(Prim::Mul, Single::of(P0_8), t))), Single::of(P1_5));
    let sweep = f(Prim::Mul, f(Prim::Mul, f(Prim::Mul, p.sweep_ms, f(Prim::Add, Single::of(ONE), f(Prim::Mul, Single::of(HALF), d2))), Single::of(P0_001)), sr);
    let drive = f(Prim::Add, Single::of(ONE), f(Prim::Mul, f(Prim::Mul, strain, p.strain_drive), Single::of(P8)));
    let level = f(Prim::Mul, f(Prim::Mul, f(Prim::Add, Single::of(P0_25), f(Prim::Mul, Single::of(P0_75), t)), p.gain), Single::of(HALF));
    (s, HoverMix { sr, strain, inc0, inc1, pulse_inc, sub_gain, shimmer_gain, sweep, drive, level })
}

fn hover_steer<F: Fn(Prim, Single, Single) -> Single>(fpu: &F, p: HoverParams, x: &Vec<Single>, n: Single, s: &mut Hover) -> (r: HoverMix)
    requires
        total(*fpu),
        x@.len() == 3,
        old(s).valid(),
    ensures
        final(s).valid(),
        forall|f: Sums| #[trigger] meant(*fpu, f) ==> (final(s)@, r) == hover_steered(f, p, x@, n, old(s)@),
{
    let sr = s.sr;
    let dt = fpu(Prim::Div, n, sr);
    s.thrust = slew(fpu, s.thrust, x[0], p.response, fpu(Prim::Mul, p.response, Single::of(P1_5)), dt);
    let t = s.thrust;
    let height = x[1];
    let strain = x[2];
    let hz = fpu(Prim::Mul, p.base_hz, fpu(Prim::Add, Single::of(ONE), fpu(Prim::Mul, Single::of(P0_9), t)));
    let inc0 = fpu(Prim::Div, hz, sr);
    let inc1 = fpu(Prim::Div, fpu(Prim::Mul, hz, fpu(Prim::Exp2, fpu(Prim::Div, p.detune, Single::of(P1200)), Single::of(ZERO))), sr);
    s.core_lp.set(fpu, FilterMode::LowPass, fpu(Prim::Add, Single::of(P200), fpu(Prim::Mul, fpu(Prim::Mul, Single::of(P2500), t), t)), Single::of(P0_3), sr);
    let d0 = s.drift0.advance(fpu, Single::of(P0_3), dt);
    let d1 = s.drift1.advance(fpu, Single::of(P0_23), dt);
    let d2 = s.drift2.advance(fpu, Single::of(P0_17), dt);
    s.shimmer0.set(fpu, FilterMode::BandPass, fpu(Prim::Mul, p.shimmer_hz, fpu(Prim::Add, Single::of(ONE), fpu(Prim::Mul, Single::of(P0_3), d0))), Single::of(P0_9), sr);
    s.shimmer1.set(fpu, FilterMode::BandPass, fpu(Prim::Mul, fpu(Prim::Mul, p.shimmer_hz, Single::of(P1_5)), fpu(Prim::Add, Single::of(ONE), fpu(Prim::Mul, Single::of(P0_3), d1))), Single::of(P0_9), sr);
    let pulse_inc = fpu(Prim::Div, fpu(Prim::Mul, fpu(Prim::Mul, p.pulse_hz, fpu(Prim::Add, Single::of(P0_6), fpu(Prim::Mul, Single::of(P0_8), t))), fpu(Prim::Sub, Single::of(P1_3), fpu(Prim::Mul, Single::of(HALF), height))), sr);
    let sub_gain = fpu(Prim::Mul, p.sub_level, fpu(Prim::Add, Single::of(ONE), fpu(Prim::Mul, Single::of(P0_8), fpu(Prim::Sub, Single::of(ONE), height))));
    let shimmer_gain = fpu(Prim::Mul, fpu(Prim::Mul, p.shimmer_level, fpu(Prim::Add, Single::of(P0_2), fpu(Prim::Mul, Single::of(P0_8), t))), Single::of(P1_5));
    let sweep = fpu(Prim::Mul, fpu(Prim::Mul, fpu(Prim::Mul, p.sweep_ms, fpu(Prim::Add, Single::of(ONE), fpu(Prim::Mul, Single::of(HALF), d2))), Single::of(P0_001)), sr);
    let drive = fpu(Prim::Add, Single::of(ONE), fpu(Prim::Mul, fpu(Prim::Mul, strain, p.strain_drive), Single::of(P8)));
    let level = fpu(Prim::Mul, fpu(Prim::Mul, fpu(Prim::Add, Single::of(P0_25), fpu(Prim::Mul, Single::of(P0_75), t)), p.gain), Single::of(HALF));
    HoverMix { sr, strain, inc0, inc1, pulse_inc, sub_gain, shimmer_gain, sweep, drive, level }
}

/// One sample; what was in its place is not heard.
pub open spec fn hover_tick(f: Sums, p: HoverParams, m: HoverMix, s: HoverView, v: Single) -> (HoverView, Single) {
    let a = s.osc0.sample(f, Waveform::Saw, m.inc0, Single::of(HALF));
    let s = HoverView { osc0: s.osc0.moved(f, Waveform::Saw, m.inc0), ..s };
    let b = s.osc1.sample(f, Waveform::Saw, m.inc1, Single::of(HALF));
    let s = HoverView { osc1: s.osc1.moved(f, Waveform::Saw, m.inc1), ..s };
    let core = f(Prim::Add, a, b);
    let s = HoverView { sub: s.sub.moved(f, f(Prim::Mul, m.inc0, Single::of(HALF))), ..s };
    let s = HoverView { pulse: s.pulse.moved(f, m.pulse_inc), ..s };
    let s = HoverView { rough: s.rough.moved(f, f(Prim::Div, Single::of(P31), m.sr)), ..s };
    let am = f(Prim::Sub, Single::of(ONE), f(Prim::Mul, p.pulse_depth, f(Prim::Add, Single::of(HALF), f(Prim::Mul, Single::of(HALF), s.pulse.sine(f)))));
    let w = s.noise.draw();
    let s = HoverView { noise: Noise { rng: s.noise.rng.advanced(), ..s.noise }, ..s };
    let sh0 = s.shimmer0.output(f, w);
    let s = HoverView { shimmer0: s.shimmer0.fed(f, w), ..s };
    let sh1 = s.shimmer1.output(f, w);
    let s = HoverView { shimmer1: s.shimmer1.fed(f, w), ..s };
    let shimmer = f(Prim::Add, sh0, sh1);
    let low = s.core_lp.output(f, core);
    let s = HoverView { core_lp: s.core_lp.fed(f, core), ..s };
    let bus = f(Prim::Add, f(Prim::Mul, f(Prim::Add, f(Prim::Mul, f(Prim::Mul, low, Single::of(HALF)), p.core_level), f(Prim::Mul, s.sub.sine(f), m.sub_gain)), am), f(Prim::Mul, shimmer, m.shimmer_gain));
    let echo = crate::blocks::delayed(f, s.sweep, m.sweep);
    let y = f(Prim::Add, bus, f(Prim::Mul, echo, p.sweep_feedback));
    let s = HoverView { sweep: crate::blocks::remembered(s.sweep, y), ..s };
    let rough = f(Prim::Sub, Single::of(ONE), f(Prim::Mul, f(Prim::Mul, Single::of(P0_4), m.strain), f(Prim::Add, Single::of(HALF), f(Prim::Mul, Single::of(HALF), s.rough.sine(f)))));
    (s, f(Prim::Mul, f(Prim::Mul, f(Prim::Div, crate::math::saturated(f, f(Prim::Mul, y, m.drive)), f(Prim::Add, Single::of(ONE), f(Prim::Mul, Single::of(P0_25), f(Prim::Sub, m.drive, Single::of(ONE))))), rough), m.level))
}

/// The same for a run of samples.
pub open spec fn hover_run(f: Sums, p: HoverParams, m: HoverMix, s: HoverView, x: Seq<Single>) -> (HoverView, Seq<Single>)
    decreases x.len(),
{
    if x.len() == 0 {
        (s, seq![])
    } else {
        let (t, out) = hover_run(f, p, m, s, x.drop_last());
        let (u, y) = hover_tick(f, p, m, t, x.last());
        (u, out.push(y))
    }
}

fn hover_sample<F: Fn(Prim, Single, Single) -> Single>(fpu: &F, p: HoverParams, m: HoverMix, s: &mut Hover, v: Single) -> (y: Single)
    requires
        total(*fpu),
        old(s).valid(),
    ensures
        final(s).valid(),
        forall|f: Sums| #[trigger] meant(*fpu, f) ==> (final(s)@, y) == hover_tick(f, p, m, old(s)@, v),
{
    let a = s.osc0.next(fpu, Waveform::Saw, m.inc0, Single::of(HALF));
    let b = s.osc1.next(fpu, Waveform::Saw, m.inc1, Single::of(HALF));
    let core = fpu(Prim::Add, a, b);
    s.sub.tick(fpu, fpu(Prim::Mul, m.inc0, Single::of(HALF)));
    s.pulse.tick(fpu, m.pulse_inc);
    s.rough.tick(fpu, fpu(Prim::Div, Single::of(P31), m.sr));
    let am = fpu(Prim::Sub, Single::of(ONE), fpu(Prim::Mul, p.pulse_depth, fpu(Prim::Add, Single::of(HALF), fpu(Prim::Mul, Single::of(HALF), s.pulse.sin(fpu)))));
    let w = s.noise.white();
    let sh0 = s.shimmer0.tick(fpu, w);
    let sh1 = s.shimmer1.tick(fpu, w);
    let shimmer = fpu(Prim::Add, sh0, sh1);
    let low = s.core_lp.tick(fpu, core);
    let bus = fpu(Prim::Add, fpu(Prim::Mul, fpu(Prim::Add, fpu(Prim::Mul, fpu(Prim::Mul, low, Single::of(HALF)), p.core_level), fpu(Prim::Mul, s.sub.sin(fpu), m.sub_gain)), am), fpu(Prim::Mul, shimmer, m.shimmer_gain));
    let echo = s.sweep.read(fpu, m.sweep);
    let y = fpu(Prim::Add, bus, fpu(Prim::Mul, echo, p.sweep_feedback));
    s.sweep.write(y);
    let rough = fpu(Prim::Sub, Single::of(ONE), fpu(Prim::Mul, fpu(Prim::Mul, Single::of(P0_4), m.strain), fpu(Prim::Add, Single::of(HALF), fpu(Prim::Mul, Single::of(HALF), s.rough.sin(fpu)))));
    fpu(Prim::Mul, fpu(Prim::Mul, fpu(Prim::Div, soft_clip(fpu, fpu(Prim::Mul, y, m.drive)), fpu(Prim::Add, Single::of(ONE), fpu(Prim::Mul, Single::of(P0_25), fpu(Prim::Sub, m.drive, Single::of(ONE))))), rough), m.level)
}

fn hover_span<F: Fn(Prim, Single, Single) -> Single>(fpu: &F, p: HoverParams, m: HoverMix, s: &mut Hover, buf: &mut Vec<Single>, start: usize, end: usize)
    requires
        total(*fpu),
        start <= end <= old(buf)@.len(),
        old(s).valid(),
    ensures
        final(buf)@.len() == old(buf)@.len(),
        same_outside(old(buf)@, final(buf)@, start as int, end as int),
        final(s).valid(),
        forall|f: Sums| #[trigger] meant(*fpu, f) ==> (final(s)@, final(buf)@.subrange(start as int, end as int)) == hover_run(
            f, p, m,
            old(s)@,
            old(buf)@.subrange(start as int, end as int),
        ),
{
    let mut i: usize = start;
    let ghost before = buf@;
    assert(before.subrange(start as int, start as int) =~= seq![]);
    while i < end
        invariant
            start <= i <= end <= buf@.len(),
            buf@.len() == before.len(),
            before == old(buf)@,
            same_outside(before, buf@, start as int, i as int),
            total(*fpu),
            s.valid(),
            forall|f: Sums| #[trigger] meant(*fpu, f) ==> (s@, buf@.subrange(start as int, i as int)) == hover_run(
                f, p, m,
                old(s)@,
                before.subrange(start as int, i as int),
            ),
        decreases end - i,
    {
        let ghost last = buf@;
        let y = hover_sample(fpu, p, m, s, buf[i]);
        buf.set(i, y);
        i = i + 1;
        assert(before.subrange(start as int, i as int).drop_last() =~= before.subrange(start as int, i - 1));
        assert(buf@.subrange(start as int, i as int) =~= last.subrange(start as int, i - 1).push(y));
    }
}

/// What the buffer held does not matter.
proof fn lemma_hover_overwrites(f: Sums, p: HoverParams, m: HoverMix, s: HoverView, a: Seq<Single>, b: Seq<Single>)
    requires
        a.len() == b.len(),
    ensures
        hover_run(f, p, m, s, a) == hover_run(f, p, m, s, b),
        hover_run(f, p, m, s, a).1.len() == a.len(),
    decreases a.len(),
{
    if a.len() > 0 {
        lemma_hover_overwrites(f, p, m, s, a.drop_last(), b.drop_last());
    }
}

impl Generator for Hover {
    type P = HoverParams;

    type State = HoverView;

    open spec fn about() -> ProfileView {
        ProfileView {
            name: "hover"@,
            category: "vehicles"@,
            doc: "Anti-gravity craft field: pulsing hum, sub and sweeping shimmer."@,
            smooth_secs: Single::of(P0_05),
            limit: true,
            one_shot: false,
        }
    }

    open spec fn input_list() -> Seq<InputView> {
        seq![
            InputView { name: "thrust"@, default: Single::of(P0_3), doc: "Field power; raises pitch, brightness and pulse rate"@ },
            InputView { name: "height"@, default: Single::of(HALF), doc: "0 = hugging the ground (more sub, faster pulse)"@ },
            InputView { name: "strain"@, default: Single::of(ZERO), doc: "Overload growl, e.g. hard cornering or damage"@ },
        ]
    }

    open spec fn preset_list() -> Seq<(Seq<char>, HoverParams)> {
        seq![
            ("Heavy hauler"@, HoverParams { base_hz: Single::of(P41), pulse_hz: Single::of(P5), sub_level: Single::of(P0_8), shimmer_level: Single::of(P0_2), response: Single::of(P0_8), ..HoverParams::plain() }),
            ("Scout"@, HoverParams { base_hz: Single::of(P96), pulse_hz: Single::of(P16), shimmer_level: Single::of(P0_55), shimmer_hz: Single::of(P3600), response: Single::of(P0_15), ..HoverParams::plain() }),
        ]
    }

    open spec fn wf(&self) -> bool {
        self.valid()
    }

    open spec fn state(&self) -> HoverView {
        self@
    }

    open spec fn fresh(f: Sums, sample_rate: Single) -> HoverView {
        HoverView {
            sr: sample_rate,
            thrust: Single::of(ZERO),
            osc0: Oscillator::seeded_with(0x40_0001),
            osc1: Oscillator::seeded_with(0x40_0002),
            sub: Phasor::start(),
            pulse: Phasor::start(),
            rough: Phasor::start(),
            noise: Noise::seeded_with(0x40_0003),
            core_lp: Svf::silent(),
            shimmer0: Svf::silent(),
            shimmer1: Svf::silent(),
            drift0: SlowNoise::seeded_with(0x40_0004),
            drift1: SlowNoise::seeded_with(0x40_0005),
            drift2: SlowNoise::seeded_with(0x40_0006),
            sweep: crate::blocks::silence(sweep_room(f, sample_rate) as nat),
        }
    }

    open spec fn snapped(s: HoverView, f: Sums, x: Seq<Single>, p: HoverParams) -> HoverView {
        HoverView { thrust: x[0], ..s }
    }

    open spec fn fired(s: HoverView, f: Sums, x: Seq<Single>, p: HoverParams) -> HoverView {
        s
    }

    open spec fn ringing(s: HoverView) -> bool {
        true
    }

    open spec fn played(s: HoverView, f: Sums, x: Seq<Single>, p: HoverParams, out: Seq<Single>) -> (HoverView, Seq<Single>) {
        let (t, m) = hover_steered(f, p, x, crate::single::signed_integer(out.len() as int), s);
        hover_run(f, p, m, t, out)
    }

    proof fn lemma_overwrites(s: HoverView, f: Sums, x: Seq<Single>, p: HoverParams, a: Seq<Single>, b: Seq<Single>) {
        let (t, m) = hover_steered(f, p, x, crate::single::signed_integer(a.len() as int), s);
        lemma_hover_overwrites(f, p, m, t, a, b);
    }

    fn profile() -> (r: Profile) {
        Profile {
            name: "hover",
            category: "vehicles",
            doc: "Anti-gravity craft field: pulsing hum, sub and sweeping shimmer.",
            smooth_secs: Single::of(P0_05),
            limit: true,
            one_shot: false,
        }
    }

    fn inputs() -> (r: Vec<InputSpec>) {
        let mut r: Vec<InputSpec> = Vec::new();
        r.push(InputSpec { name: "thrust", default: Single::of(P0_3), doc: "Field power; raises pitch, brightness and pulse rate" });
        r.push(InputSpec { name: "height", default: Single::of(HALF), doc: "0 = hugging the ground (more sub, faster pulse)" });
        r.push(InputSpec { name: "strain", default: Single::of(ZERO), doc: "Overload growl, e.g. hard cornering or damage" });
        r
    }

    fn presets() -> (r: Vec<(&'static str, HoverParams)>) {
        let mut r: Vec<(&'static str, HoverParams)> = Vec::new();
        r.push(("Heavy hauler", HoverParams { base_hz: Single::of(P41), pulse_hz: Single::of(P5), sub_level: Single::of(P0_8), shimmer_level: Single::of(P0_2), response: Single::of(P0_8), ..HoverParams::default() }));
        r.push(("Scout", HoverParams { base_hz: Single::of(P96), pulse_hz: Single::of(P16), shimmer_level: Single::of(P0_55), shimmer_hz: Single::of(P3600), response: Single::of(P0_15), ..HoverParams::default() }));
        r
    }

    fn new<F: Fn(Prim, Single, Single) -> Single>(fpu: &F, sample_rate: Single) -> (r: Hover) {
        let wanted: u64 = fpu(Prim::Mul, Single::of(P0_02), sample_rate).trunc();
        let room: usize = if wanted > LONGEST_LINE as u64 { LONGEST_LINE } else { wanted as usize };
        let r = Hover {
            sr: sample_rate,
            thrust: Single::of(ZERO),
            osc0: Oscillator::new(0x40_0001),
            osc1: Oscillator::new(0x40_0002),
            sub: Phasor::default(),
            pulse: Phasor::default(),
            rough: Phasor::default(),
            noise: Noise::new(0x40_0003),
            core_lp: Svf::default(),
            shimmer0: Svf::default(),
            shimmer1: Svf::default(),
            drift0: SlowNoise::new(0x40_0004),
            drift1: SlowNoise::new(0x40_0005),
            drift2: SlowNoise::new(0x40_0006),
            sweep: DelayLine::new(room),
        };
        r
    }

    fn snap<F: Fn(Prim, Single, Single) -> Single>(&mut self, fpu: &F, x: &Vec<Single>, p: &HoverParams) {
        self.thrust = x[0];
    }

    fn trigger<F: Fn(Prim, Single, Single) -> Single>(&mut self, fpu: &F, x: &Vec<Single>, p: &HoverParams) {
    }

    fn is_active(&self) -> (r: bool) {
        true
    }

    fn block<F: Fn(Prim, Single, Single) -> Single>(&mut self, fpu: &F, x: &Vec<Single>, p: &HoverParams, out: &mut Vec<Single>, start: usize, end: usize) {
        let n = from_i32((end - start) as i32);
        let m = hover_steer(fpu, *p, x, n, self);
        hover_span(fpu, *p, m, self, out, start, end);
    }
}

/// Piston engine: per-cylinder firing pulses with combustion noise through exhaust resonances.
#[derive(Clone, Copy, Debug, PartialEq, Eq, Structural)]
pub struct CombustionParams {
    pub cylinders: Single,
    pub idle_rpm: Single,
    pub max_rpm: Single,
    pub rev_up: Single,
    pub rev_down: Single,
    pub roughness: Single,
    pub pulse_sharp: Single,
    pub noise_level: Single,
    pub exhaust_hz: Single,
    pub exhaust_res: Single,
    pub drive: Single,
    pub burble: Single,
    pub intake_level: Single,
    pub gain: Single,
}

impl CombustionParams {
    pub open spec fn plain() -> CombustionParams {
        CombustionParams {
            cylinders: Single::of(P4),
            idle_rpm: Single::of(P900),
            max_rpm: Single::of(P7000),
            rev_up: Single::of(P0_8),
            rev_down: Single::of(P1_6),
            roughness: Single::of(P0_3),
            pulse_sharp: Single::of(P8),
            noise_level: Single::of(P0_4),
            exhaust_hz: Single::of(P140),
            exhaust_res: Single::of(P0_7),
            drive: Single::of(P0_4),
            burble: Single::of(HALF),
            intake_level: Single::of(P0_3),
            gain: Single::of(P0_9),
        }
    }
}

impl Default for CombustionParams {
    fn default() -> (r: CombustionParams)
        ensures
            r == CombustionParams::plain(),
    {
        CombustionParams {
            cylinders: Single::of(P4),
            idle_rpm: Single::of(P900),
            max_rpm: Single::of(P7000),
            rev_up: Single::of(P0_8),
            rev_down: Single::of(P1_6),
            roughness: Single::of(P0_3),
            pulse_sharp: Single::of(P8),
            noise_level: Single::of(P0_4),
            exhaust_hz: Single::of(P140),
            exhaust_res: Single::of(P0_7),
            drive: Single::of(P0_4),
            burble: Single::of(HALF),
            intake_level: Single::of(P0_3),
            gain: Single::of(P0_9),
        }
    }
}

/// Identifier of every tweakable value in [`CombustionParams`].
#[derive(Clone, Copy, Debug, PartialEq, Eq, Structural)]
pub enum CombustionParamId {
    Cylinders,
    IdleRpm,
    MaxRpm,
    RevUp,
    RevDown,
    Roughness,
    PulseSharp,
    NoiseLevel,
    ExhaustHz,
    ExhaustRes,
    Drive,
    Burble,
    IntakeLevel,
    Gain,
}

impl CombustionParamId {
    /// Number of parameters.
    pub const COUNT: usize = 14;

    /// Every parameter, in table order.
    pub open spec fn all() -> Seq<CombustionParamId> {
        seq![
            CombustionParamId::Cylinders,
            CombustionParamId::IdleRpm,
            CombustionParamId::MaxRpm,
            CombustionParamId::RevUp,
            CombustionParamId::RevDown,
            CombustionParamId::Roughness,
            CombustionParamId::PulseSharp,
            CombustionParamId::NoiseLevel,
            CombustionParamId::ExhaustHz,
            CombustionParamId::ExhaustRes,
            CombustionParamId::Drive,
            CombustionParamId::Burble,
            CombustionParamId::IntakeLevel,
            CombustionParamId::Gain,
        ]
    }

    /// Place in the table.
    pub open spec fn place(self) -> int {
        match self {
            CombustionParamId::Cylinders => 0,
            CombustionParamId::IdleRpm => 1,
            CombustionParamId::MaxRpm => 2,
            CombustionParamId::RevUp => 3,
            CombustionParamId::RevDown => 4,
            CombustionParamId::Roughness => 5,
            CombustionParamId::PulseSharp => 6,
            CombustionParamId::NoiseLevel => 7,
            CombustionParamId::ExhaustHz => 8,
            CombustionParamId::ExhaustRes => 9,
            CombustionParamId::Drive => 10,
            CombustionParamId::Burble => 11,
            CombustionParamId::IntakeLevel => 12,
            CombustionParamId::Gain => 13,
        }
    }

    pub open spec fn label(self) -> Seq<char> {
        match self {
            CombustionParamId::Cylinders => "engine/cylinders"@,
            CombustionParamId::IdleRpm => "engine/idle_rpm"@,
            CombustionParamId::MaxRpm => "engine/max_rpm"@,
            CombustionParamId::RevUp => "engine/rev_up"@,
            CombustionParamId::RevDown => "engine/rev_down"@,
            CombustionParamId::Roughness => "engine/roughness"@,
            CombustionParamId::PulseSharp => "engine/pulse_sharpness"@,
            CombustionParamId::NoiseLevel => "engine/combustion_noise"@,
            CombustionParamId::ExhaustHz => "exhaust/hz"@,
            CombustionParamId::ExhaustRes => "exhaust/resonance"@,
            CombustionParamId::Drive => "exhaust/drive"@,
            CombustionParamId::Burble => "exhaust/overrun_burble"@,
            CombustionParamId::IntakeLevel => "intake/level"@,
            CombustionParamId::Gain => "master/gain"@,
        }
    }

    pub open spec fn range(self) -> ParamKind {
        match self {
            CombustionParamId::Cylinders => ParamKind::Int { min: 1, max: 12 },
            CombustionParamId::IdleRpm => ParamKind::Float { min: Single::of(P300), max: Single::of(P3000), step: Single::of(P0_001) },
            CombustionParamId::MaxRpm => ParamKind::Float { min: Single::of(P2000), max: Single::of(P16000), step: Single::of(P0_001) },
            CombustionParamId::RevUp => ParamKind::Float { min: Single::of(P0_05), max: Single::of(P6), step: Single::of(P0_001) },
            CombustionParamId::RevDown => ParamKind::Float { min: Single::of(P0_05), max: Single::of(P6), step: Single::of(P0_001) },
            CombustionParamId::Roughness => ParamKind::Float { min: Single::of(ZERO), max: Single::of(ONE), step: Single::of(P0_001) },
            CombustionParamId::PulseSharp => ParamKind::Float { min: Single::of(TWO), max: Single::of(P30), step: Single::of(P0_001) },
            CombustionParamId::NoiseLevel => ParamKind::Float { min: Single::of(ZERO), max: Single::of(ONE), step: Single::of(P0_001) },
            CombustionParamId::ExhaustHz => ParamKind::Exp { min: Single::of(P40), max: Single::of(P800) },
            CombustionParamId::ExhaustRes => ParamKind::Float { min: Single::of(ZERO), max: Single::of(P0_95), step: Single::of(P0_001) },
            CombustionParamId::Drive => ParamKind::Float { min: Single::of(ZERO), max: Single::of(ONE), step: Single::of(P0_001) },
            CombustionParamId::Burble => ParamKind::Float { min: Single::of(ZERO), max: Single::of(ONE), step: Single::of(P0_001) },
            CombustionParamId::IntakeLevel => ParamKind::Float { min: Single::of(ZERO), max: Single::of(ONE), step: Single::of(P0_001) },
            CombustionParamId::Gain => ParamKind::Float { min: Single::of(ZERO), max: Single::of(TWO), step: Single::of(P0_001) },
        }
    }

    /// The parameter at a place of the table, if there is one.
    pub fn from_index(i: usize) -> (r: Option<CombustionParamId>)
        ensures
            r == if i < 14 {
                Some(CombustionParamId::all()[i as int])
            } else {
                None
            },
    {
        if i < 14 {
            Some(CombustionParamId::nth(i))
        } else {
            None
        }
    }

    /// The parameter at a place of the table.
    pub fn nth(i: usize) -> (r: CombustionParamId)
        requires
            i < 14,
        ensures
            r == CombustionParamId::all()[i as int],
            r.place() == i,
    {
        match i {
            0 => CombustionParamId::Cylinders,
            1 => CombustionParamId::IdleRpm,
            2 => CombustionParamId::MaxRpm,
            3 => CombustionParamId::RevUp,
            4 => CombustionParamId::RevDown,
            5 => CombustionParamId::Roughness,
            6 => CombustionParamId::PulseSharp,
            7 => CombustionParamId::NoiseLevel,
            8 => CombustionParamId::ExhaustHz,
            9 => CombustionParamId::ExhaustRes,
            10 => CombustionParamId::Drive,
            11 => CombustionParamId::Burble,
            12 => CombustionParamId::IntakeLevel,
            _ => CombustionParamId::Gain,
        }
    }

    pub fn index(self) -> (r: usize)
        ensures
            r == self.place(),
            r < 14,
    {
        match self {
            CombustionParamId::Cylinders => 0,
            CombustionParamId::IdleRpm => 1,
            CombustionParamId::MaxRpm => 2,
            CombustionParamId::RevUp => 3,
            CombustionParamId::RevDown => 4,
            CombustionParamId::Roughness => 5,
            CombustionParamId::PulseSharp => 6,
            CombustionParamId::NoiseLevel => 7,
            CombustionParamId::ExhaustHz => 8,
            CombustionParamId::ExhaustRes => 9,
            CombustionParamId::Drive => 10,
            CombustionParamId::Burble => 11,
            CombustionParamId::IntakeLevel => 12,
            CombustionParamId::Gain => 13,
        }
    }

    pub fn name(self) -> (r: &'static str)
        ensures
            r@ == self.label(),
    {
        match self {
            CombustionParamId::Cylinders => "engine/cylinders",
            CombustionParamId::IdleRpm => "engine/idle_rpm",
            CombustionParamId::MaxRpm => "engine/max_rpm",
            CombustionParamId::RevUp => "engine/rev_up",
            CombustionParamId::RevDown => "engine/rev_down",
            CombustionParamId::Roughness => "engine/roughness",
            CombustionParamId::PulseSharp => "engine/pulse_sharpness",
            CombustionParamId::NoiseLevel => "engine/combustion_noise",
            CombustionParamId::ExhaustHz => "exhaust/hz",
            CombustionParamId::ExhaustRes => "exhaust/resonance",
            CombustionParamId::Drive => "exhaust/drive",
            CombustionParamId::Burble => "exhaust/overrun_burble",
            CombustionParamId::IntakeLevel => "intake/level",
            CombustionParamId::Gain => "master/gain",
        }
    }

    pub fn kind(self) -> (r: ParamKind)
        ensures
            r == self.range(),
            r.wf(),
    {
        match self {
            CombustionParamId::Cylinders => ParamKind::Int { min: 1, max: 12 },
            CombustionParamId::IdleRpm => ParamKind::Float { min: Single::of(P300), max: Single::of(P3000), step: Single::of(P0_001) },
            CombustionParamId::MaxRpm => ParamKind::Float { min: Single::of(P2000), max: Single::of(P16000), step: Single::of(P0_001) },
            CombustionParamId::RevUp => ParamKind::Float { min: Single::of(P0_05), max: Single::of(P6), step: Single::of(P0_001) },
            CombustionParamId::RevDown => ParamKind::Float { min: Single::of(P0_05), max: Single::of(P6), step: Single::of(P0_001) },
            CombustionParamId::Roughness => ParamKind::Float { min: Single::of(ZERO), max: Single::of(ONE), step: Single::of(P0_001) },
            CombustionParamId::PulseSharp => ParamKind::Float { min: Single::of(TWO), max: Single::of(P30), step: Single::of(P0_001) },
            CombustionParamId::NoiseLevel => ParamKind::Float { min: Single::of(ZERO), max: Single::of(ONE), step: Single::of(P0_001) },
            CombustionParamId::ExhaustHz => ParamKind::Exp { min: Single::of(P40), max: Single::of(P800) },
            CombustionParamId::ExhaustRes => ParamKind::Float { min: Single::of(ZERO), max: Single::of(P0_95), step: Single::of(P0_001) },
            CombustionParamId::Drive => ParamKind::Float { min: Single::of(ZERO), max: Single::of(ONE), step: Single::of(P0_001) },
            CombustionParamId::Burble => ParamKind::Float { min: Single::of(ZERO), max: Single::of(ONE), step: Single::of(P0_001) },
            CombustionParamId::IntakeLevel => ParamKind::Float { min: Single::of(ZERO), max: Single::of(ONE), step: Single::of(P0_001) },
            CombustionParamId::Gain => ParamKind::Float { min: Single::of(ZERO), max: Single::of(TWO), step: Single::of(P0_001) },
        }
    }

    /// The parameter with a name.
    pub fn from_name(name: &str) -> (r: Option<CombustionParamId>)
        ensures
            match r {
                Some(id) => id.label() == name@,
                None => forall|id: CombustionParamId| (#[trigger] id.label()) != name@,
            },
    {
        let mut i: usize = 0;
        while i < 14
            invariant
                i <= 14,
                forall|id: CombustionParamId| id.place() < i ==> (#[trigger] id.label()) != name@,
            decreases 14 - i,
        {
            let id = CombustionParamId::nth(i);
            if equal(id.name(), name) {
                return Some(id);
            }
            proof {
                assert forall|other: CombustionParamId| other.place() < i + 1 implies (#[trigger] other.label()) != name@ by {
                    if other.place() == i {
                        assert(CombustionParamId::all()[other.place()] == other);
                    }
                }
            }
            i = i + 1;
        }
        None
    }
}

impl CombustionParams {
    /// Value of a parameter; names count by their index.
    pub open spec fn value(self, id: CombustionParamId) -> Single {
        match id {
            CombustionParamId::Cylinders => self.cylinders,
            CombustionParamId::IdleRpm => self.idle_rpm,
            CombustionParamId::MaxRpm => self.max_rpm,
            CombustionParamId::RevUp => self.rev_up,
            CombustionParamId::RevDown => self.rev_down,
            CombustionParamId::Roughness => self.roughness,
            CombustionParamId::PulseSharp => self.pulse_sharp,
            CombustionParamId::NoiseLevel => self.noise_level,
            CombustionParamId::ExhaustHz => self.exhaust_hz,
            CombustionParamId::ExhaustRes => self.exhaust_res,
            CombustionParamId::Drive => self.drive,
            CombustionParamId::Burble => self.burble,
            CombustionParamId::IntakeLevel => self.intake_level,
            CombustionParamId::Gain => self.gain,
        }
    }

    /// With a parameter set to the nearest value it can take.
    pub open spec fn with(self, id: CombustionParamId, v: Single) -> CombustionParams {
        match id {
            CombustionParamId::Cylinders => CombustionParams { cylinders: id.range().clamped(v), ..self },
            CombustionParamId::IdleRpm => CombustionParams { idle_rpm: id.range().clamped(v), ..self },
            CombustionParamId::MaxRpm => CombustionParams { max_rpm: id.range().clamped(v), ..self },
            CombustionParamId::RevUp => CombustionParams { rev_up: id.range().clamped(v), ..self },
            CombustionParamId::RevDown => CombustionParams { rev_down: id.range().clamped(v), ..self },
            CombustionParamId::Roughness => CombustionParams { roughness: id.range().clamped(v), ..self },
            CombustionParamId::PulseSharp => CombustionParams { pulse_sharp: id.range().clamped(v), ..self },
            CombustionParamId::NoiseLevel => CombustionParams { noise_level: id.range().clamped(v), ..self },
            CombustionParamId::ExhaustHz => CombustionParams { exhaust_hz: id.range().clamped(v), ..self },
            CombustionParamId::ExhaustRes => CombustionParams { exhaust_res: id.range().clamped(v), ..self },
            CombustionParamId::Drive => CombustionParams { drive: id.range().clamped(v), ..self },
            CombustionParamId::Burble => CombustionParams { burble: id.range().clamped(v), ..self },
            CombustionParamId::IntakeLevel => CombustionParams { intake_level: id.range().clamped(v), ..self },
            CombustionParamId::Gain => CombustionParams { gain: id.range().clamped(v), ..self },
        }
    }

    pub fn get(&self, id: CombustionParamId) -> (r: Single)
        ensures
            r == self.value(id),
    {
        match id {
            CombustionParamId::Cylinders => self.cylinders,
            CombustionParamId::IdleRpm => self.idle_rpm,
            CombustionParamId::MaxRpm => self.max_rpm,
            CombustionParamId::RevUp => self.rev_up,
            CombustionParamId::RevDown => self.rev_down,
            CombustionParamId::Roughness => self.roughness,
            CombustionParamId::PulseSharp => self.pulse_sharp,
            CombustionParamId::NoiseLevel => self.noise_level,
            CombustionParamId::ExhaustHz => self.exhaust_hz,
            CombustionParamId::ExhaustRes => self.exhaust_res,
            CombustionParamId::Drive => self.drive,
            CombustionParamId::Burble => self.burble,
            CombustionParamId::IntakeLevel => self.intake_level,
            CombustionParamId::Gain => self.gain,
        }
    }

    /// Set a parameter to the nearest value it can take; what is no number is ignored.
    pub fn set(&mut self, id: CombustionParamId, v: Single)
        ensures
            *final(self) == if v.finite() {
                old(self).with(id, v)
            } else {
                *old(self)
            },
    {
        if !v.is_finite() {
            return;
        }
        match id {
            CombustionParamId::Cylinders => {
                self.cylinders = id.kind().clamp(v);
            },
            CombustionParamId::IdleRpm => {
                self.idle_rpm = id.kind().clamp(v);
            },
            CombustionParamId::MaxRpm => {
                self.max_rpm = id.kind().clamp(v);
            },
            CombustionParamId::RevUp => {
                self.rev_up = id.kind().clamp(v);
            },
            CombustionParamId::RevDown => {
                self.rev_down = id.kind().clamp(v);
            },
            CombustionParamId::Roughness => {
                self.roughness = id.kind().clamp(v);
            },
            CombustionParamId::PulseSharp => {
                self.pulse_sharp = id.kind().clamp(v);
            },
            CombustionParamId::NoiseLevel => {
                self.noise_level = id.kind().clamp(v);
            },
            CombustionParamId::ExhaustHz => {
                self.exhaust_hz = id.kind().clamp(v);
            },
            CombustionParamId::ExhaustRes => {
                self.exhaust_res = id.kind().clamp(v);
            },
            CombustionParamId::Drive => {
                self.drive = id.kind().clamp(v);
            },
            CombustionParamId::Burble => {
                self.burble = id.kind().clamp(v);
            },
            CombustionParamId::IntakeLevel => {
                self.intake_level = id.kind().clamp(v);
            },
            CombustionParamId::Gain => {
                self.gain = id.kind().clamp(v);
            },
        }
    }
}

/// A parameter that was set has the nearest value it can take.
pub proof fn lemma_combustionparams_set_get(p: CombustionParams, id: CombustionParamId, v: Single)
    requires
        v.finite(),
    ensures
        p.with(id, v).value(id) == id.range().clamped(v),
{
}


/// Setting a parameter leaves every other one what it was.
#[verifier::rlimit(30)]
pub proof fn lemma_combustionparams_set_keeps_others(p: CombustionParams, id: CombustionParamId, other: CombustionParamId, v: Single)
    requires
        other != id,
    ensures
        p.with(id, v).value(other) == p.value(other),
{
}

/// Length and some letters of a name.
spec fn combustionparamid_sign(id: CombustionParamId) -> (int, char) {
    match id {
        CombustionParamId::Cylinders => (16, 'c'),
        CombustionParamId::IdleRpm => (15, 'i'),
        CombustionParamId::MaxRpm => (14, 'm'),
        CombustionParamId::RevUp => (13, 'r'),
        CombustionParamId::RevDown => (15, 'r'),
        CombustionParamId::Roughness => (16, 'r'),
        CombustionParamId::PulseSharp => (22, 'p'),
        CombustionParamId::NoiseLevel => (23, 'c'),
        CombustionParamId::ExhaustHz => (10, '/'),
        CombustionParamId::ExhaustRes => (17, '/'),
        CombustionParamId::Drive => (13, '/'),
        CombustionParamId::Burble => (22, '/'),
        CombustionParamId::IntakeLevel => (12, 'l'),
        CombustionParamId::Gain => (11, 'g'),
    }
}

#[verifier::rlimit(60)]
proof fn lemma_combustionparamid_sign(id: CombustionParamId)
    ensures
        id.label().len() == combustionparamid_sign(id).0,
        combustionparamid_sign(id).0 > 7 ==> id.label()[7] == combustionparamid_sign(id).1,
{
    reveal_strlit("engine/cylinders");
    reveal_strlit("engine/idle_rpm");
    reveal_strlit("engine/max_rpm");
    reveal_strlit("engine/rev_up");
    reveal_strlit("engine/rev_down");
    reveal_strlit("engine/roughness");
    reveal_strlit("engine/pulse_sharpness");
    reveal_strlit("engine/combustion_noise");
    reveal_strlit("exhaust/hz");
    reveal_strlit("exhaust/resonance");
    reveal_strlit("exhaust/drive");
    reveal_strlit("exhaust/overrun_burble");
    reveal_strlit("intake/level");
    reveal_strlit("master/gain");
}

/// Names tell the parameters apart, so looking up a parameter's name gives the parameter.
pub proof fn lemma_combustionparamid_names_differ(a: CombustionParamId, b: CombustionParamId)
    requires
        a.label() == b.label(),
    ensures
        a == b,
{
    lemma_combustionparamid_sign(a);
    lemma_combustionparamid_sign(b);
}

impl Params for CombustionParams {
    open spec fn plain_params() -> CombustionParams {
        CombustionParams::plain()
    }

    open spec fn param_count() -> nat {
        CombustionParamId::COUNT as nat
    }

    open spec fn label_at(i: int) -> Seq<char> {
        CombustionParamId::all()[i].label()
    }

    open spec fn range_at(i: int) -> ParamKind {
        CombustionParamId::all()[i].range()
    }

    open spec fn value_at(self, i: int) -> Single {
        self.value(CombustionParamId::all()[i])
    }

    open spec fn with_at(self, i: int, v: Single) -> CombustionParams {
        self.with(CombustionParamId::all()[i], v)
    }

    proof fn lemma_set_at_reads_back(self, i: int, v: Single) {
        lemma_combustionparams_set_get(self, CombustionParamId::all()[i], v);
    }

    proof fn lemma_set_at_keeps_others(self, i: int, j: int, v: Single) {
        assert(CombustionParamId::all()[i].place() == i);
        assert(CombustionParamId::all()[j].place() == j);
        lemma_combustionparams_set_keeps_others(self, CombustionParamId::all()[i], CombustionParamId::all()[j], v);
    }

    fn default_params() -> (r: CombustionParams) {
        CombustionParams::default()
    }

    fn count() -> (r: usize) {
        CombustionParamId::COUNT
    }

    fn name_at(i: usize) -> (r: &'static str) {
        CombustionParamId::nth(i).name()
    }

    fn kind_at(i: usize) -> (r: ParamKind) {
        CombustionParamId::nth(i).kind()
    }

    fn get_at(&self, i: usize) -> (r: Single) {
        self.get(CombustionParamId::nth(i))
    }

    fn set_at(&mut self, i: usize, v: Single) {
        self.set(CombustionParamId::nth(i), v);
    }
}

/// Whole number of cylinders.
pub open spec fn cylinder_count(p: CombustionParams) -> int {
    crate::params::bounded(p.cylinders.nearest_int(), 1, 12)
}

fn count_cylinders(p: &CombustionParams) -> (r: usize)
    ensures
        r == cylinder_count(*p),
        1 <= r <= 12,
{
    bound(p.cylinders.round(), 1, 12) as usize
}

/// The generator of cylinder gains after `k` draws.
pub open spec fn cylinder_rng(k: nat) -> Rng
    decreases k,
{
    if k == 0 {
        Rng::seeded_with(0x41_0001)
    } else {
        cylinder_rng((k - 1) as nat).advanced()
    }
}

/// How strongly cylinder `k` fires.
pub open spec fn cylinder_gain(f: Sums, k: nat) -> Single {
    crate::math::drawn_from(f, Single::of(P0_72), Single::of(ONE), crate::math::unipolar(cylinder_rng(k).fraction()))
}

fn cylinder_gains<F: Fn(Prim, Single, Single) -> Single>(fpu: &F) -> (r: Vec<Single>)
    requires
        total(*fpu),
    ensures
        r@.len() == 12,
        forall|f: Sums| #[trigger] meant(*fpu, f) ==> r@ == Seq::new(12, |k: int| cylinder_gain(f, k as nat)),
{
    let mut rng = Rng::new(0x41_0001);
    let mut gains: Vec<Single> = Vec::new();
    while gains.len() < 12
        invariant
            total(*fpu),
            gains@.len() <= 12,
            rng == cylinder_rng(gains@.len()),
            forall|f: Sums| #[trigger] meant(*fpu, f) ==> forall|k: int| 0 <= k < gains@.len() ==> #[trigger] gains@[k] == cylinder_gain(f, k as nat),
        decreases 12 - gains@.len(),
    {
        let gain = rng.range(fpu, Single::of(P0_72), Single::of(ONE));
        gains.push(gain);
    }
    assert(forall|f: Sums| #[trigger] meant(*fpu, f) ==> gains@ =~= Seq::new(12, |k: int| cylinder_gain(f, k as nat)));
    gains
}

impl Combustion {
    /// Engine speed in RPM.
    pub open spec fn speed(f: Sums, rev: Single, p: CombustionParams) -> Single {
        f(Prim::Add, p.idle_rpm, f(Prim::Mul, f(Prim::Sub, p.max_rpm, p.idle_rpm), rev))
    }

    /// Current engine speed in RPM.
    pub fn rpm<F: Fn(Prim, Single, Single) -> Single>(&self, fpu: &F, p: &CombustionParams) -> (r: Single)
        requires
            total(*fpu),
        ensures
            forall|f: Sums| #[trigger] meant(*fpu, f) ==> r == Combustion::speed(f, self.rev, *p),
    {
        fpu(Prim::Add, p.idle_rpm, fpu(Prim::Mul, fpu(Prim::Sub, p.max_rpm, p.idle_rpm), self.rev))
    }
}

/// Piston engine: cylinders, rev inertia, exhaust resonance, overrun burble.
pub struct Combustion {
    pub sr: Single,
    pub rev: Single,
    pub fire: Phasor,
    pub cyl: usize,
    pub amp: Single,
    pub cyl_gain: Vec<Single>,
    pub noise: Noise,
    pub dust: Dust,
    pub dc: OnePole,
    pub exhaust0: Svf,
    pub exhaust1: Svf,
    pub body: OnePole,
    pub intake: Svf,
}

/// A [`Combustion`] as a value.
#[verifier::ext_equal]
pub struct CombustionView {
    pub sr: Single,
    pub rev: Single,
    pub fire: Phasor,
    pub cyl: usize,
    pub amp: Single,
    pub cyl_gain: Seq<Single>,
    pub noise: Noise,
    pub dust: Dust,
    pub dc: OnePole,
    pub exhaust0: Svf,
    pub exhaust1: Svf,
    pub body: OnePole,
    pub intake: Svf,
}

impl View for Combustion {
    type V = CombustionView;

    open spec fn view(&self) -> CombustionView {
        CombustionView {
            sr: self.sr,
            rev: self.rev,
            fire: self.fire,
            cyl: self.cyl,
            amp: self.amp,
            cyl_gain: self.cyl_gain@,
            noise: self.noise,
            dust: self.dust,
            dc: self.dc,
            exhaust0: self.exhaust0,
            exhaust1: self.exhaust1,
            body: self.body,
            intake: self.intake,
        }
    }
}

impl Combustion {
    pub open spec fn valid(self) -> bool {
        &&& self.cyl_gain@.len() == 12
        &&& self.cyl < 12
    }
}

/// Settings of a control block.
#[derive(Clone, Copy, Debug, PartialEq, Eq, Structural)]
pub struct CombustionMix {
    pub inc: Single,
    pub dc_coef: Single,
    pub body_coef: Single,
    pub pop_p: Single,
    pub drive: Single,
    pub intake_gain: Single,
    pub level: Single,
}

/// The generator at the start of a control block of `n` samples with inputs `x`, and the settings.
pub open spec fn combustion_steered(f: Sums, p: CombustionParams, x: Seq<Single>, n: Single, s: CombustionView) -> (CombustionView, CombustionMix) {
    let sr = s.sr;
    let dt = f(Prim::Div, n, sr);
    let throttle = x[0];
    let load = x[1];
    let s = CombustionView { rev: slewed(f, s.rev, throttle, p.rev_up, p.rev_down, dt), ..s };
    let rev = s.rev;
    let cylinders = crate::single::signed_integer(cylinder_count(p));
    let fire_hz = f(Prim::Mul, f(Prim::Mul, f(Prim::Div, f(Prim::Add, p.idle_rpm, f(Prim::Mul, f(Prim::Sub, p.max_rpm, p.idle_rpm), rev)), Single::of(P60)), cylinders), Single::of(HALF));
    let inc = f(Prim::Div, fire_hz, sr);
    let s = CombustionView { exhaust0: s.exhaust0.tuned(f, FilterMode::BandPass, f(Prim::Mul, p.exhaust_hz, f(Prim::Add, Single::of(P0_7), f(Prim::Mul, Single::of(P0_9), rev))), p.exhaust_res, sr), ..s };
    let s = CombustionView { exhaust1: s.exhaust1.tuned(f, FilterMode::BandPass, fire_hz.larger(f(Prim::Mul, p.exhaust_hz, Single::of(P1_5))), f(Prim::Mul, p.exhaust_res, Single::of(P0_8)), sr), ..s };
    let s = CombustionView { intake: s.intake.tuned(f, FilterMode::BandPass, f(Prim::Add, Single::of(P300), f(Prim::Mul, Single::of(P1500), rev)), Single::of(P0_4), sr), ..s };
    let dc_coef = crate::blocks::cutoff_coef(f, Single::of(P20), sr);
    let body_coef = crate::blocks::cutoff_coef(f, Single::of(P1200), sr);
    let overrun = f(Prim::Mul, f(Prim::Sub, f(Prim::Sub, rev, throttle), Single::of(P0_15)).larger(Single::of(ZERO)), p.burble);
    let pop_p = f(Prim::Div, f(Prim::Mul, Single::of(P40), overrun), sr);
    let drive = f(Prim::Add, Single::of(ONE), f(Prim::Mul, p.drive, Single::of(P5)));
    let intake_gain = f(Prim::Mul, f(Prim::Mul, p.intake_level, f(Prim::Add, Single::of(P0_2), f(Prim::Mul, Single::of(P0_8), throttle))), Single::of(P1_5));
    let level = f(Prim::Mul, f(Prim::Mul, f(Prim::Mul, f(Prim::Add, Single::of(P0_35), f(Prim::Mul, Single::of(P0_65), load.larger(f(Prim::Mul, throttle, Single::of(HALF))))), f(Prim::Add, Single::of(P0_7), f(Prim::Mul, Single::of(P0_6), rev))), p.gain), Single::of(P1_1));
    (s, CombustionMix { inc, dc_coef, body_coef, pop_p, drive, intake_gain, level })
}

fn combustion_steer<F: Fn(Prim, Single, Single) -> Single>(fpu: &F, p: CombustionParams, x: &Vec<Single>, n: Single, s: &mut Combustion) -> (r: CombustionMix)
    requires
        total(*fpu),
        x@.len() == 2,
        old(s).valid(),
    ensures
        final(s).valid(),
        forall|f: Sums| #[trigger] meant(*fpu, f) ==> (final(s)@, r) == combustion_steered(f, p, x@, n, old(s)@),
{
    let sr = s.sr;
    let dt = fpu(Prim::Div, n, sr);
    let throttle = x[0];
    let load = x[1];
    s.rev = slew(fpu, s.rev, throttle, p.rev_up, p.rev_down, dt);
    let rev = s.rev;
    let cylinders = from_i32(count_cylinders(&p) as i32);
    let fire_hz = fpu(Prim::Mul, fpu(Prim::Mul, fpu(Prim::Div, fpu(Prim::Add, p.idle_rpm, fpu(Prim::Mul, fpu(Prim::Sub, p.max_rpm, p.idle_rpm), rev)), Single::of(P60)), cylinders), Single::of(HALF));
    let inc = fpu(Prim::Div, fire_hz, sr);
    s.exhaust0.set(fpu, FilterMode::BandPass, fpu(Prim::Mul, p.exhaust_hz, fpu(Prim::Add, Single::of(P0_7), fpu(Prim::Mul, Single::of(P0_9), rev))), p.exhaust_res, sr);
    s.exhaust1.set(fpu, FilterMode::BandPass, fire_hz.max(fpu(Prim::Mul, p.exhaust_hz, Single::of(P1_5))), fpu(Prim::Mul, p.exhaust_res, Single::of(P0_8)), sr);
    s.intake.set(fpu, FilterMode::BandPass, fpu(Prim::Add, Single::of(P300), fpu(Prim::Mul, Single::of(P1500), rev)), Single::of(P0_4), sr);
    let dc_coef = hz_coef(fpu, Single::of(P20), sr);
    let body_coef = hz_coef(fpu, Single::of(P1200), sr);
    let overrun = fpu(Prim::Mul, fpu(Prim::Sub, fpu(Prim::Sub, rev, throttle), Single::of(P0_15)).max(Single::of(ZERO)), p.burble);
    let pop_p = fpu(Prim::Div, fpu(Prim::Mul, Single::of(P40), overrun), sr);
    let drive = fpu(Prim::Add, Single::of(ONE), fpu(Prim::Mul, p.drive, Single::of(P5)));
    let intake_gain = fpu(Prim::Mul, fpu(Prim::Mul, p.intake_level, fpu(Prim::Add, Single::of(P0_2), fpu(Prim::Mul, Single::of(P0_8), throttle))), Single::of(P1_5));
    let level = fpu(Prim::Mul, fpu(Prim::Mul, fpu(Prim::Mul, fpu(Prim::Add, Single::of(P0_35), fpu(Prim::Mul, Single::of(P0_65), load.max(fpu(Prim::Mul, throttle, Single::of(HALF))))), fpu(Prim::Add, Single::of(P0_7), fpu(Prim::Mul, Single::of(P0_6), rev))), p.gain), Single::of(P1_1));
    CombustionMix { inc, dc_coef, body_coef, pop_p, drive, intake_gain, level }
}

/// One sample; what was in its place is not heard.
pub open spec fn combustion_tick(f: Sums, p: CombustionParams, m: CombustionMix, s: CombustionView, v: Single) -> (CombustionView, Single) {
    let fires = s.fire.wraps(f, m.inc);
    let s = CombustionView { fire: s.fire.moved(f, m.inc), ..s };
    let s = if fires {
        let s = CombustionView { cyl: ((s.cyl + 1) % cylinder_count(p)) as usize, ..s };
        let kick = crate::math::bipolar(s.dust.rng.fraction());
        let s = CombustionView { dust: Dust { rng: s.dust.rng.advanced() }, ..s };
        let s = CombustionView { amp: f(Prim::Mul, s.cyl_gain[s.cyl as int], f(Prim::Add, Single::of(ONE), f(Prim::Mul, f(Prim::Mul, p.roughness, Single::of(HALF)), kick))), ..s };
        s
    } else {
        s
    };
    let pulse = f(Prim::Mul, s.amp, f(Prim::Exp, f(Prim::Mul, s.fire.phase.negated(), p.pulse_sharp), Single::of(ZERO)));
    let w = s.noise.draw();
    let s = CombustionView { noise: Noise { rng: s.noise.rng.advanced(), ..s.noise }, ..s };
    let pop = s.dust.impulse(f, m.pop_p);
    let s = CombustionView { dust: s.dust.ticked(m.pop_p), ..s };
    let bang = f(Prim::Add, f(Prim::Mul, pulse, f(Prim::Add, Single::of(P0_6), f(Prim::Mul, f(Prim::Mul, p.noise_level, Single::of(P1_5)), w))), f(Prim::Mul, pop, Single::of(P1_5)));
    let x0 = f(Prim::Sub, bang, s.dc.smoothed(f, bang, m.dc_coef));
    let s = CombustionView { dc: OnePole { y: s.dc.smoothed(f, bang, m.dc_coef) }, ..s };
    let e0 = s.exhaust0.output(f, x0);
    let s = CombustionView { exhaust0: s.exhaust0.fed(f, x0), ..s };
    let e1 = s.exhaust1.output(f, x0);
    let s = CombustionView { exhaust1: s.exhaust1.fed(f, x0), ..s };
    let low = s.body.smoothed(f, x0, m.body_coef);
    let s = CombustionView { body: OnePole { y: s.body.smoothed(f, x0, m.body_coef) }, ..s };
    let pipe = f(Prim::Add, f(Prim::Add, e0, f(Prim::Mul, Single::of(P0_8), e1)), f(Prim::Mul, Single::of(P0_35), low));
    let pk = s.noise.pink.output(f, s.noise.draw());
    let s = CombustionView { noise: Noise { rng: s.noise.rng.advanced(), pink: s.noise.pink.fed(f, s.noise.draw()) }, ..s };
    let drawn = s.intake.output(f, pk);
    let s = CombustionView { intake: s.intake.fed(f, pk), ..s };
    let intake = f(Prim::Mul, f(Prim::Mul, drawn, m.intake_gain), f(Prim::Add, Single::of(HALF), f(Prim::Mul, Single::of(HALF), pulse)));
    (s, f(Prim::Mul, f(Prim::Div, crate::math::saturated(f, f(Prim::Mul, f(Prim::Add, pipe, intake), m.drive)), f(Prim::Add, Single::of(ONE), f(Prim::Mul, Single::of(P0_2), f(Prim::Sub, m.drive, Single::of(ONE))))), m.level))
}

/// The same for a run of samples.
pub open spec fn combustion_run(f: Sums, p: CombustionParams, m: CombustionMix, s: CombustionView, x: Seq<Single>) -> (CombustionView, Seq<Single>)
    decreases x.len(),
{
    if x.len() == 0 {
        (s, seq![])
    } else {
        let (t, out) = combustion_run(f, p, m, s, x.drop_last());
        let (u, y) = combustion_tick(f, p, m, t, x.last());
        (u, out.push(y))
    }
}

fn combustion_sample<F: Fn(Prim, Single, Single) -> Single>(fpu: &F, p: CombustionParams, m: CombustionMix, s: &mut Combustion, v: Single) -> (y: Single)
    requires
        total(*fpu),
        old(s).valid(),
    ensures
        final(s).valid(),
        forall|f: Sums| #[trigger] meant(*fpu, f) ==> (final(s)@, y) == combustion_tick(f, p, m, old(s)@, v),
{
    let fires = s.fire.tick(fpu, m.inc);
    if fires {
        s.cyl = (s.cyl + 1) % count_cylinders(&p);
        let kick = s.dust.rng.next_bipolar();
        s.amp = fpu(Prim::Mul, s.cyl_gain[s.cyl], fpu(Prim::Add, Single::of(ONE), fpu(Prim::Mul, fpu(Prim::Mul, p.roughness, Single::of(HALF)), kick)));
    }
    let pulse = fpu(Prim::Mul, s.amp, fpu(Prim::Exp, fpu(Prim::Mul, s.fire.phase.neg(), p.pulse_sharp), Single::of(ZERO)));
    let w = s.noise.white();
    let pop = s.dust.tick(fpu, m.pop_p);
    let bang = fpu(Prim::Add, fpu(Prim::Mul, pulse, fpu(Prim::Add, Single::of(P0_6), fpu(Prim::Mul, fpu(Prim::Mul, p.noise_level, Single::of(P1_5)), w))), fpu(Prim::Mul, pop, Single::of(P1_5)));
    let x0 = s.dc.hp(fpu, bang, m.dc_coef);
    let e0 = s.exhaust0.tick(fpu, x0);
    let e1 = s.exhaust1.tick(fpu, x0);
    let low = s.body.lp(fpu, x0, m.body_coef);
    let pipe = fpu(Prim::Add, fpu(Prim::Add, e0, fpu(Prim::Mul, Single::of(P0_8), e1)), fpu(Prim::Mul, Single::of(P0_35), low));
    let pk = s.noise.pink(fpu);
    let drawn = s.intake.tick(fpu, pk);
    let intake = fpu(Prim::Mul, fpu(Prim::Mul, drawn, m.intake_gain), fpu(Prim::Add, Single::of(HALF), fpu(Prim::Mul, Single::of(HALF), pulse)));
    fpu(Prim::Mul, fpu(Prim::Div, soft_clip(fpu, fpu(Prim::Mul, fpu(Prim::Add, pipe, intake), m.drive)), fpu(Prim::Add, Single::of(ONE), fpu(Prim::Mul, Single::of(P0_2), fpu(Prim::Sub, m.drive, Single::of(ONE))))), m.level)
}

fn combustion_span<F: Fn(Prim, Single, Single) -> Single>(fpu: &F, p: CombustionParams, m: CombustionMix, s: &mut Combustion, buf: &mut Vec<Single>, start: usize, end: usize)
    requires
        total(*fpu),
        start <= end <= old(buf)@.len(),
        old(s).valid(),
    ensures
        final(buf)@.len() == old(buf)@.len(),
        same_outside(old(buf)@, final(buf)@, start as int, end as int),
        final(s).valid(),
        forall|f: Sums| #[trigger] meant(*fpu, f) ==> (final(s)@, final(buf)@.subrange(start as int, end as int)) == combustion_run(
            f, p, m,
            old(s)@,
            old(buf)@.subrange(start as int, end as int),
        ),
{
    let mut i: usize = start;
    let ghost before = buf@;
    assert(before.subrange(start as int, start as int) =~= seq![]);
    while i < end
        invariant
            start <= i <= end <= buf@.len(),
            buf@.len() == before.len(),
            before == old(buf)@,
            same_outside(before, buf@, start as int, i as int),
            total(*fpu),
            s.valid(),
            forall|f: Sums| #[trigger] meant(*fpu, f) ==> (s@, buf@.subrange(start as int, i as int)) == combustion_run(
                f, p, m,
                old(s)@,
                before.subrange(start as int, i as int),
            ),
        decreases end - i,
    {
        let ghost last = buf@;
        let y = combustion_sample(fpu, p, m, s, buf[i]);
        buf.set(i, y);
        i = i + 1;
        assert(before.subrange(start as int, i as int).drop_last() =~= before.subrange(start as int, i - 1));
        assert(buf@.subrange(start as int, i as int) =~= last.subrange(start as int, i - 1).push(y));
    }
}

/// What the buffer held does not matter.
proof fn lemma_combustion_overwrites(f: Sums, p: CombustionParams, m: CombustionMix, s: CombustionView, a: Seq<Single>, b: Seq<Single>)
    requires
        a.len() == b.len(),
    ensures
        combustion_run(f, p, m, s, a) == combustion_run(f, p, m, s, b),
        combustion_run(f, p, m, s, a).1.len() == a.len(),
    decreases a.len(),
{
    if a.len() > 0 {
        lemma_combustion_overwrites(f, p, m, s, a.drop_last(), b.drop_last());
    }
}

impl Generator for Combustion {
    type P = CombustionParams;

    type State = CombustionView;

    open spec fn about() -> ProfileView {
        ProfileView {
            name: "combustion"@,
            category: "vehicles"@,
            doc: "Piston engine: cylinders, rev inertia, exhaust resonance, overrun burble."@,
            smooth_secs: Single::of(P0_05),
            limit: true,
            one_shot: false,
        }
    }

    open spec fn input_list() -> Seq<InputView> {
        seq![
            InputView { name: "throttle"@, default: Single::of(ZERO), doc: "Revs follow with rev_up / rev_down inertia"@ },
            InputView { name: "load"@, default: Single::of(P0_3), doc: "Engine load: louder, fuller, more intake"@ },
        ]
    }

    open spec fn preset_list() -> Seq<(Seq<char>, CombustionParams)> {
        seq![
            ("V8 muscle"@, CombustionParams { cylinders: Single::of(P8), idle_rpm: Single::of(P700), max_rpm: Single::of(P6200), exhaust_hz: Single::of(P95), exhaust_res: Single::of(P0_8), roughness: Single::of(P0_45), drive: Single::of(P0_6), ..CombustionParams::plain() }),
            ("Motorbike"@, CombustionParams { cylinders: Single::of(TWO), idle_rpm: Single::of(P1300), max_rpm: Single::of(P11000), rev_up: Single::of(P0_4), rev_down: Single::of(P0_9), exhaust_hz: Single::of(P210), pulse_sharp: Single::of(P12), ..CombustionParams::plain() }),
            ("Diesel truck"@, CombustionParams { cylinders: Single::of(P6), idle_rpm: Single::of(P600), max_rpm: Single::of(P2800), rev_up: Single::of(P2_2), rev_down: Single::of(P2_8), exhaust_hz: Single::of(P70), noise_level: Single::of(P0_7), roughness: Single::of(HALF), burble: Single::of(P0_1), ..CombustionParams::plain() }),
            ("Lawnmower"@, CombustionParams { cylinders: Single::of(ONE), idle_rpm: Single::of(P1600), max_rpm: Single::of(P3600), exhaust_hz: Single::of(P260), exhaust_res: Single::of(HALF), roughness: Single::of(P0_6), noise_level: Single::of(P0_6), gain: Single::of(P1_4), ..CombustionParams::plain() }),
        ]
    }

    open spec fn wf(&self) -> bool {
        self.valid()
    }

    open spec fn state(&self) -> CombustionView {
        self@
    }

    open spec fn fresh(f: Sums, sample_rate: Single) -> CombustionView {
        CombustionView {
            sr: sample_rate,
            rev: Single::of(ZERO),
            fire: Phasor::start(),
            cyl: 0,
            amp: Single::of(ONE),
            cyl_gain: Seq::new(12, |k: int| cylinder_gain(f, k as nat)),
            noise: Noise::seeded_with(0x41_0002),
            dust: Dust { rng: Rng::seeded_with(0x41_0003) },
            dc: OnePole { y: Single::of(ZERO) },
            exhaust0: Svf::silent(),
            exhaust1: Svf::silent(),
            body: OnePole { y: Single::of(ZERO) },
            intake: Svf::silent(),
        }
    }

    open spec fn snapped(s: CombustionView, f: Sums, x: Seq<Single>, p: CombustionParams) -> CombustionView {
        CombustionView { rev: x[0], ..s }
    }

    open spec fn fired(s: CombustionView, f: Sums, x: Seq<Single>, p: CombustionParams) -> CombustionView {
        s
    }

    open spec fn ringing(s: CombustionView) -> bool {
        true
    }

    open spec fn played(s: CombustionView, f: Sums, x: Seq<Single>, p: CombustionParams, out: Seq<Single>) -> (CombustionView, Seq<Single>) {
        let (t, m) = combustion_steered(f, p, x, crate::single::signed_integer(out.len() as int), s);
        combustion_run(f, p, m, t, out)
    }

    proof fn lemma_overwrites(s: CombustionView, f: Sums, x: Seq<Single>, p: CombustionParams, a: Seq<Single>, b: Seq<Single>) {
        let (t, m) = combustion_steered(f, p, x, crate::single::signed_integer(a.len() as int), s);
        lemma_combustion_overwrites(f, p, m, t, a, b);
    }

    fn profile() -> (r: Profile) {
        Profile {
            name: "combustion",
            category: "vehicles",
            doc: "Piston engine: cylinders, rev inertia, exhaust resonance, overrun burble.",
            smooth_secs: Single::of(P0_05),
            limit: true,
            one_shot: false,
        }
    }

    fn inputs() -> (r: Vec<InputSpec>) {
        let mut r: Vec<InputSpec> = Vec::new();
        r.push(InputSpec { name: "throttle", default: Single::of(ZERO), doc: "Revs follow with rev_up / rev_down inertia" });
        r.push(InputSpec { name: "load", default: Single::of(P0_3), doc: "Engine load: louder, fuller, more intake" });
        r
    }

    fn presets() -> (r: Vec<(&'static str, CombustionParams)>) {
        let mut r: Vec<(&'static str, CombustionParams)> = Vec::new();
        r.push(("V8 muscle", CombustionParams { cylinders: Single::of(P8), idle_rpm: Single::of(P700), max_rpm: Single::of(P6200), exhaust_hz: Single::of(P95), exhaust_res: Single::of(P0_8), roughness: Single::of(P0_45), drive: Single::of(P0_6), ..CombustionParams::default() }));
        r.push(("Motorbike", CombustionParams { cylinders: Single::of(TWO), idle_rpm: Single::of(P1300), max_rpm: Single::of(P11000), rev_up: Single::of(P0_4), rev_down: Single::of(P0_9), exhaust_hz: Single::of(P210), pulse_sharp: Single::of(P12), ..CombustionParams::default() }));
        r.push(("Diesel truck", CombustionParams { cylinders: Single::of(P6), idle_rpm: Single::of(P600), max_rpm: Single::of(P2800), rev_up: Single::of(P2_2), rev_down: Single::of(P2_8), exhaust_hz: Single::of(P70), noise_level: Single::of(P0_7), roughness: Single::of(HALF), burble: Single::of(P0_1), ..CombustionParams::default() }));
        r.push(("Lawnmower", CombustionParams { cylinders: Single::of(ONE), idle_rpm: Single::of(P1600), max_rpm: Single::of(P3600), exhaust_hz: Single::of(P260), exhaust_res: Single::of(HALF), roughness: Single::of(P0_6), noise_level: Single::of(P0_6), gain: Single::of(P1_4), ..CombustionParams::default() }));
        r
    }

    fn new<F: Fn(Prim, Single, Single) -> Single>(fpu: &F, sample_rate: Single) -> (r: Combustion) {
        let cyl_gain = cylinder_gains(fpu);
        let r = Combustion {
            sr: sample_rate,
            rev: Single::of(ZERO),
            fire: Phasor::default(),
            cyl: 0,
            amp: Single::of(ONE),
            cyl_gain,
            noise: Noise::new(0x41_0002),
            dust: Dust::new(0x41_0003),
            dc: OnePole::default(),
            exhaust0: Svf::default(),
            exhaust1: Svf::default(),
            body: OnePole::default(),
            intake: Svf::default(),
        };
        r
    }

    fn snap<F: Fn(Prim, Single, Single) -> Single>(&mut self, fpu: &F, x: &Vec<Single>, p: &CombustionParams) {
        self.rev = x[0];
    }

    fn trigger<F: Fn(Prim, Single, Single) -> Single>(&mut self, fpu: &F, x: &Vec<Single>, p: &CombustionParams) {
    }

    fn is_active(&self) -> (r: bool) {
        true
    }

    fn block<F: Fn(Prim, Single, Single) -> Single>(&mut self, fpu: &F, x: &Vec<Single>, p: &CombustionParams, out: &mut Vec<Single>, start: usize, end: usize) {
        let n = from_i32((end - start) as i32);
        let m = combustion_steer(fpu, *p, x, n, self);
        combustion_span(fpu, *p, m, self, out, start, end);
    }
}

/// Electric motor: harmonic whine, PWM inverter tone with sidebands, gear mesh noise.
#[derive(Clone, Copy, Debug, PartialEq, Eq, Structural)]
pub struct MotorParams {
    pub max_hz: Single,
    pub spin_up: Single,
    pub spin_down: Single,
    pub whine_level: Single,
    pub harmonics: Single,
    pub pwm_hz: Single,
    pub pwm_level: Single,
    pub gear_ratio: Single,
    pub gear_level: Single,
    pub gain: Single,
}

impl MotorParams {
    pub open spec fn plain() -> MotorParams {
        MotorParams {
            max_hz: Single::of(P420),
            spin_up: Single::of(P0_6),
            spin_down: Single::of(P1_2),
            whine_level: Single::of(HALF),
            harmonics: Single::of(HALF),
            pwm_hz: Single::of(P5200),
            pwm_level: Single::of(P0_15),
            gear_ratio: Single::of(P7_3),
            gear_level: Single::of(P0_3),
            gain: Single::of(P0_9),
        }
    }
}

impl Default for MotorParams {
    fn default() -> (r: MotorParams)
        ensures
            r == MotorParams::plain(),
    {
        MotorParams {
            max_hz: Single::of(P420),
            spin_up: Single::of(P0_6),
            spin_down: Single::of(P1_2),
            whine_level: Single::of(HALF),
            harmonics: Single::of(HALF),
            pwm_hz: Single::of(P5200),
            pwm_level: Single::of(P0_15),
            gear_ratio: Single::of(P7_3),
            gear_level: Single::of(P0_3),
            gain: Single::of(P0_9),
        }
    }
}

/// Identifier of every tweakable value in [`MotorParams`].
#[derive(Clone, Copy, Debug, PartialEq, Eq, Structural)]
pub enum MotorParamId {
    MaxHz,
    SpinUp,
    SpinDown,
    WhineLevel,
    Harmonics,
    PwmHz,
    PwmLevel,
    GearRatio,
    GearLevel,
    Gain,
}

impl MotorParamId {
    /// Number of parameters.
    pub const COUNT: usize = 10;

    /// Every parameter, in table order.
    pub open spec fn all() -> Seq<MotorParamId> {
        seq![
            MotorParamId::MaxHz,
            MotorParamId::SpinUp,
            MotorParamId::SpinDown,
            MotorParamId::WhineLevel,
            MotorParamId::Harmonics,
            MotorParamId::PwmHz,
            MotorParamId::PwmLevel,
            MotorParamId::GearRatio,
            MotorParamId::GearLevel,
            MotorParamId::Gain,
        ]
    }

    /// Place in the table.
    pub open spec fn place(self) -> int {
        match self {
            MotorParamId::MaxHz => 0,
            MotorParamId::SpinUp => 1,
            MotorParamId::SpinDown => 2,
            MotorParamId::WhineLevel => 3,
            MotorParamId::Harmonics => 4,
            MotorParamId::PwmHz => 5,
            MotorParamId::PwmLevel => 6,
            MotorParamId::GearRatio => 7,
            MotorParamId::GearLevel => 8,
            MotorParamId::Gain => 9,
        }
    }

    pub open spec fn label(self) -> Seq<char> {
        match self {
            MotorParamId::MaxHz => "motor/max_hz"@,
            MotorParamId::SpinUp => "motor/spin_up"@,
            MotorParamId::SpinDown => "motor/spin_down"@,
            MotorParamId::WhineLevel => "motor/whine"@,
            MotorParamId::Harmonics => "motor/harmonics"@,
            MotorParamId::PwmHz => "inverter/hz"@,
            MotorParamId::PwmLevel => "inverter/level"@,
            MotorParamId::GearRatio => "gears/ratio"@,
            MotorParamId::GearLevel => "gears/level"@,
            MotorParamId::Gain => "master/gain"@,
        }
    }

    pub open spec fn range(self) -> ParamKind {
        match self {
            MotorParamId::MaxHz => ParamKind::Exp { min: Single::of(P40), max: Single::of(P2500) },
            MotorParamId::SpinUp => ParamKind::Float { min: Single::of(P0_02), max: Single::of(P6), step: Single::of(P0_001) },
            MotorParamId::SpinDown => ParamKind::Float { min: Single::of(P0_02), max: Single::of(P6), step: Single::of(P0_001) },
            MotorParamId::WhineLevel => ParamKind::Float { min: Single::of(ZERO), max: Single::of(ONE), step: Single::of(P0_001) },
            MotorParamId::Harmonics => ParamKind::Float { min: Single::of(ZERO), max: Single::of(ONE), step: Single::of(P0_001) },
            MotorParamId::PwmHz => ParamKind::Exp { min: Single::of(P1000), max: Single::of(P12000) },
            MotorParamId::PwmLevel => ParamKind::Float { min: Single::of(ZERO), max: Single::of(ONE), step: Single::of(P0_001) },
            MotorParamId::GearRatio => ParamKind::Float { min: Single::of(ONE), max: Single::of(P24), step: Single::of(P0_001) },
            MotorParamId::GearLevel => ParamKind::Float { min: Single::of(ZERO), max: Single::of(ONE), step: Single::of(P0_001) },
            MotorParamId::Gain => ParamKind::Float { min: Single::of(ZERO), max: Single::of(TWO), step: Single::of(P0_001) },
        }
    }

    /// The parameter at a place of the table, if there is one.
    pub fn from_index(i: usize) -> (r: Option<MotorParamId>)
        ensures
            r == if i < 10 {
                Some(MotorParamId::all()[i as int])
            } else {
                None
            },
    {
        if i < 10 {
            Some(MotorParamId::nth(i))
        } else {
            None
        }
    }

    /// The parameter at a place of the table.
    pub fn nth(i: usize) -> (r: MotorParamId)
        requires
            i < 10,
        ensures
            r == MotorParamId::all()[i as int],
            r.place() == i,
    {
        match i {
            0 => MotorParamId::MaxHz,
            1 => MotorParamId::SpinUp,
            2 => MotorParamId::SpinDown,
            3 => MotorParamId::WhineLevel,
            4 => MotorParamId::Harmonics,
            5 => MotorParamId::PwmHz,
            6 => MotorParamId::PwmLevel,
            7 => MotorParamId::GearRatio,
            8 => MotorParamId::GearLevel,
            _ => MotorParamId::Gain,
        }
    }

    pub fn index(self) -> (r: usize)
        ensures
            r == self.place(),
            r < 10,
    {
        match self {
            MotorParamId::MaxHz => 0,
            MotorParamId::SpinUp => 1,
            MotorParamId::SpinDown => 2,
            MotorParamId::WhineLevel => 3,
            MotorParamId::Harmonics => 4,
            MotorParamId::PwmHz => 5,
            MotorParamId::PwmLevel => 6,
            MotorParamId::GearRatio => 7,
            MotorParamId::GearLevel => 8,
            MotorParamId::Gain => 9,
        }
    }

    pub fn name(self) -> (r: &'static str)
        ensures
            r@ == self.label(),
    {
        match self {
            MotorParamId::MaxHz => "motor/max_hz",
            MotorParamId::SpinUp => "motor/spin_up",
            MotorParamId::SpinDown => "motor/spin_down",
            MotorParamId::WhineLevel => "motor/whine",
            MotorParamId::Harmonics => "motor/harmonics",
            MotorParamId::PwmHz => "inverter/hz",
            MotorParamId::PwmLevel => "inverter/level",
            MotorParamId::GearRatio => "gears/ratio",
            MotorParamId::GearLevel => "gears/level",
            MotorParamId::Gain => "master/gain",
        }
    }

    pub fn kind(self) -> (r: ParamKind)
        ensures
            r == self.range(),
            r.wf(),
    {
        match self {
            MotorParamId::MaxHz => ParamKind::Exp { min: Single::of(P40), max: Single::of(P2500) },
            MotorParamId::SpinUp => ParamKind::Float { min: Single::of(P0_02), max: Single::of(P6), step: Single::of(P0_001) },
            MotorParamId::SpinDown => ParamKind::Float { min: Single::of(P0_02), max: Single::of(P6), step: Single::of(P0_001) },
            MotorParamId::WhineLevel => ParamKind::Float { min: Single::of(ZERO), max: Single::of(ONE), step: Single::of(P0_001) },
            MotorParamId::Harmonics => ParamKind::Float { min: Single::of(ZERO), max: Single::of(ONE), step: Single::of(P0_001) },
            MotorParamId::PwmHz => ParamKind::Exp { min: Single::of(P1000), max: Single::of(P12000) },
            MotorParamId::PwmLevel => ParamKind::Float { min: Single::of(ZERO), max: Single::of(ONE), step: Single::of(P0_001) },
            MotorParamId::GearRatio => ParamKind::Float { min: Single::of(ONE), max: Single::of(P24), step: Single::of(P0_001) },
            MotorParamId::GearLevel => ParamKind::Float { min: Single::of(ZERO), max: Single::of(ONE), step: Single::of(P0_001) },
            MotorParamId::Gain => ParamKind::Float { min: Single::of(ZERO), max: Single::of(TWO), step: Single::of(P0_001) },
        }
    }

    /// The parameter with a name.
    pub fn from_name(name: &str) -> (r: Option<MotorParamId>)
        ensures
            match r {
                Some(id) => id.label() == name@,
                None => forall|id: MotorParamId| (#[trigger] id.label()) != name@,
            },
    {
        let mut i: usize = 0;
        while i < 10
            invariant
                i <= 10,
                forall|id: MotorParamId| id.place() < i ==> (#[trigger] id.label()) != name@,
            decreases 10 - i,
        {
            let id = MotorParamId::nth(i);
            if equal(id.name(), name) {
                return Some(id);
            }
            proof {
                assert forall|other: MotorParamId| other.place() < i + 1 implies (#[trigger] other.label()) != name@ by {
                    if other.place() == i {
                        assert(MotorParamId::all()[other.place()] == other);
                    }
                }
            }
            i = i + 1;
        }
        None
    }
}

impl MotorParams {
    /// Value of a parameter; names count by their index.
    pub open spec fn value(self, id: MotorParamId) -> Single {
        match id {
            MotorParamId::MaxHz => self.max_hz,
            MotorParamId::SpinUp => self.spin_up,
            MotorParamId::SpinDown => self.spin_down,
            MotorParamId::WhineLevel => self.whine_level,
            MotorParamId::Harmonics => self.harmonics,
            MotorParamId::PwmHz => self.pwm_hz,
            MotorParamId::PwmLevel => self.pwm_level,
            MotorParamId::GearRatio => self.gear_ratio,
            MotorParamId::GearLevel => self.gear_level,
            MotorParamId::Gain => self.gain,
        }
    }

    /// With a parameter set to the nearest value it can take.
    pub open spec fn with(self, id: MotorParamId, v: Single) -> MotorParams {
        match id {
            MotorParamId::MaxHz => MotorParams { max_hz: id.range().clamped(v), ..self },
            MotorParamId::SpinUp => MotorParams { spin_up: id.range().clamped(v), ..self },
            MotorParamId::SpinDown => MotorParams { spin_down: id.range().clamped(v), ..self },
            MotorParamId::WhineLevel => MotorParams { whine_level: id.range().clamped(v), ..self },
            MotorParamId::Harmonics => MotorParams { harmonics: id.range().clamped(v), ..self },
            MotorParamId::PwmHz => MotorParams { pwm_hz: id.range().clamped(v), ..self },
            MotorParamId::PwmLevel => MotorParams { pwm_level: id.range().clamped(v), ..self },
            MotorParamId::GearRatio => MotorParams { gear_ratio: id.range().clamped(v), ..self },
            MotorParamId::GearLevel => MotorParams { gear_level: id.range().clamped(v), ..self },
            MotorParamId::Gain => MotorParams { gain: id.range().clamped(v), ..self },
        }
    }

    pub fn get(&self, id: MotorParamId) -> (r: Single)
        ensures
            r == self.value(id),
    {
        match id {
            MotorParamId::MaxHz => self.max_hz,
            MotorParamId::SpinUp => self.spin_up,
            MotorParamId::SpinDown => self.spin_down,
            MotorParamId::WhineLevel => self.whine_level,
            MotorParamId::Harmonics => self.harmonics,
            MotorParamId::PwmHz => self.pwm_hz,
            MotorParamId::PwmLevel => self.pwm_level,
            MotorParamId::GearRatio => self.gear_ratio,
            MotorParamId::GearLevel => self.gear_level,
            MotorParamId::Gain => self.gain,
        }
    }

    /// Set a parameter to the nearest value it can take; what is no number is ignored.
    pub fn set(&mut self, id: MotorParamId, v: Single)
        ensures
            *final(self) == if v.finite() {
                old(self).with(id, v)
            } else {
                *old(self)
            },
    {
        if !v.is_finite() {
            return;
        }
        match id {
            MotorParamId::MaxHz => {
                self.max_hz = id.kind().clamp(v);
            },
            MotorParamId::SpinUp => {
                self.spin_up = id.kind().clamp(v);
            },
            MotorParamId::SpinDown => {
                self.spin_down = id.kind().clamp(v);
            },
            MotorParamId::WhineLevel => {
                self.whine_level = id.kind().clamp(v);
            },
            MotorParamId::Harmonics => {
                self.harmonics = id.kind().clamp(v);
            },
            MotorParamId::PwmHz => {
                self.pwm_hz = id.kind().clamp(v);
            },
            MotorParamId::PwmLevel => {
                self.pwm_level = id.kind().clamp(v);
            },
            MotorParamId::GearRatio => {
                self.gear_ratio = id.kind().clamp(v);
            },
            MotorParamId::GearLevel => {
                self.gear_level = id.kind().clamp(v);
            },
            MotorParamId::Gain => {
                self.gain = id.kind().clamp(v);
            },
        }
    }
}

/// A parameter that was set has the nearest value it can take.
pub proof fn lemma_motorparams_set_get(p: MotorParams, id: MotorParamId, v: Single)
    requires
        v.finite(),
    ensures
        p.with(id, v).value(id) == id.range().clamped(v),
{
}


/// Setting a parameter leaves every other one what it was.
#[verifier::rlimit(30)]
pub proof fn lemma_motorparams_set_keeps_others(p: MotorParams, id: MotorParamId, other: MotorParamId, v: Single)
    requires
        other != id,
    ensures
        p.with(id, v).value(other) == p.value(other),
{
}

/// Length and some letters of a name.
spec fn motorparamid_sign(id: MotorParamId) -> (int, char) {
    match id {
        MotorParamId::MaxHz => (12, 'm'),
        MotorParamId::SpinUp => (13, 's'),
        MotorParamId::SpinDown => (15, 's'),
        MotorParamId::WhineLevel => (11, 'w'),
        MotorParamId::Harmonics => (15, 'h'),
        MotorParamId::PwmHz => (11, 'e'),
        MotorParamId::PwmLevel => (14, 'e'),
        MotorParamId::GearRatio => (11, 'r'),
        MotorParamId::GearLevel => (11, 'l'),
        MotorParamId::Gain => (11, '/'),
    }
}

#[verifier::rlimit(60)]
proof fn lemma_motorparamid_sign(id: MotorParamId)
    ensures
        id.label().len() == motorparamid_sign(id).0,
        motorparamid_sign(id).0 > 6 ==> id.label()[6] == motorparamid_sign(id).1,
{
    reveal_strlit("motor/max_hz");
    reveal_strlit("motor/spin_up");
    reveal_strlit("motor/spin_down");
    reveal_strlit("motor/whine");
    reveal_strlit("motor/harmonics");
    reveal_strlit("inverter/hz");
    reveal_strlit("inverter/level");
    reveal_strlit("gears/ratio");
    reveal_strlit("gears/level");
    reveal_strlit("master/gain");
}

/// Names tell the parameters apart, so looking up a parameter's name gives the parameter.
pub proof fn lemma_motorparamid_names_differ(a: MotorParamId, b: MotorParamId)
    requires
        a.label() == b.label(),
    ensures
        a == b,
{
    lemma_motorparamid_sign(a);
    lemma_motorparamid_sign(b);
}

impl Params for MotorParams {
    open spec fn plain_params() -> MotorParams {
        MotorParams::plain()
    }

    open spec fn param_count() -> nat {
        MotorParamId::COUNT as nat
    }

    open spec fn label_at(i: int) -> Seq<char> {
        MotorParamId::all()[i].label()
    }

    open spec fn range_at(i: int) -> ParamKind {
        MotorParamId::all()[i].range()
    }

    open spec fn value_at(self, i: int) -> Single {
        self.value(MotorParamId::all()[i])
    }

    open spec fn with_at(self, i: int, v: Single) -> MotorParams {
        self.with(MotorParamId::all()[i], v)
    }

    proof fn lemma_set_at_reads_back(self, i: int, v: Single) {
        lemma_motorparams_set_get(self, MotorParamId::all()[i], v);
    }

    proof fn lemma_set_at_keeps_others(self, i: int, j: int, v: Single) {
        assert(MotorParamId::all()[i].place() == i);
        assert(MotorParamId::all()[j].place() == j);
        lemma_motorparams_set_keeps_others(self, MotorParamId::all()[i], MotorParamId::all()[j], v);
    }

    fn default_params() -> (r: MotorParams) {
        MotorParams::default()
    }

    fn count() -> (r: usize) {
        MotorParamId::COUNT
    }

    fn name_at(i: usize) -> (r: &'static str) {
        MotorParamId::nth(i).name()
    }

    fn kind_at(i: usize) -> (r: ParamKind) {
        MotorParamId::nth(i).kind()
    }

    fn get_at(&self, i: usize) -> (r: Single) {
        self.get(MotorParamId::nth(i))
    }

    fn set_at(&mut self, i: usize, v: Single) {
        self.set(MotorParamId::nth(i), v);
    }
}

/// Harmonics of the whine.
pub open spec fn order_at(k: int) -> Single {
    if k == 0 { Single::of(ONE) } else if k == 1 { Single::of(TWO) } else if k == 2 { Single::of(THREE) } else if k == 3 { Single::of(P4) } else { Single::of(P6) }
}

fn order(k: usize) -> (r: Single)
    ensures
        r == order_at(k as int),
{
    if k == 0 { Single::of(ONE) } else if k == 1 { Single::of(TWO) } else if k == 2 { Single::of(THREE) } else if k == 3 { Single::of(P4) } else { Single::of(P6) }
}

/// Electric motor or servo: whine harmonics, inverter tone, gear mesh.
pub struct Motor {
    pub sr: Single,
    pub spin: Single,
    pub rotor: Phasor,
    pub pwm: Phasor,
    pub noise: Noise,
    pub gear: Svf,
    pub amps: Vec<Single>,
}

/// A [`Motor`] as a value.
#[verifier::ext_equal]
pub struct MotorView {
    pub sr: Single,
    pub spin: Single,
    pub rotor: Phasor,
    pub pwm: Phasor,
    pub noise: Noise,
    pub gear: Svf,
    pub amps: Seq<Single>,
}

impl View for Motor {
    type V = MotorView;

    open spec fn view(&self) -> MotorView {
        MotorView {
            sr: self.sr,
            spin: self.spin,
            rotor: self.rotor,
            pwm: self.pwm,
            noise: self.noise,
            gear: self.gear,
            amps: self.amps@,
        }
    }
}

impl Motor {
    pub open spec fn valid(self) -> bool {
        &&& self.amps@.len() == 5
    }
}

/// Settings of a control block.
#[derive(Clone, Copy, Debug, PartialEq, Eq, Structural)]
pub struct MotorMix {
    pub gear_gain: Single,
    pub pwm_gain: Single,
    pub level: Single,
    pub inc: Single,
    pub pwm_inc: Single,
}

/// Levels of the first `k` partials; those that would alias are dropped.
pub open spec fn motor_amps_of(f: Sums, hz: Single, sr: Single, slope: Single, s: MotorView, k: nat) -> MotorView
    decreases k,
{
    if k == 0 {
        s
    } else {
        let s = motor_amps_of(f, hz, sr, slope, s, (k - 1) as nat);
        let k = k - 1;
        let h = order_at(k);
        let s = MotorView { amps: s.amps.update(k, (if f(Prim::Mul, hz, h).below(f(Prim::Mul, sr, Single::of(P0_45))) { f(Prim::Pow, h, slope.negated()) } else { Single::of(ZERO) })), ..s };
        s
    }
}

fn motor_amps<F: Fn(Prim, Single, Single) -> Single>(fpu: &F, hz: Single, sr: Single, slope: Single, s: &mut Motor)
    requires
        total(*fpu),
        old(s).valid(),
    ensures
        final(s).valid(),
        forall|f: Sums| #[trigger] meant(*fpu, f) ==> final(s)@ == motor_amps_of(f, hz, sr, slope, old(s)@, 5),
{
    let mut k: usize = 0;
    while k < 5
        invariant
            k <= 5,
            total(*fpu),
            s.valid(),
            forall|f: Sums| #[trigger] meant(*fpu, f) ==> s@ == motor_amps_of(f, hz, sr, slope, old(s)@, k as nat),
        decreases 5 - k,
    {
        let h = order(k);
        let value = (if fpu(Prim::Mul, hz, h).lt(fpu(Prim::Mul, sr, Single::of(P0_45))) { fpu(Prim::Pow, h, slope.neg()) } else { Single::of(ZERO) });
        s.amps.set(k, value);
        k = k + 1;
    }
}

/// The generator at the start of a control block of `n` samples with inputs `x`, and the settings.
pub open spec fn motor_steered(f: Sums, p: MotorParams, x: Seq<Single>, n: Single, s: MotorView) -> (MotorView, MotorMix) {
    let sr = s.sr;
    let dt = f(Prim::Div, n, sr);
    let s = MotorView { spin: slewed(f, s.spin, x[0], p.spin_up, p.spin_down, dt), ..s };
    let spin = s.spin;
    let load = x[1];
    let hz = f(Prim::Mul, p.max_hz, spin);
    let slope = f(Prim::Sub, Single::of(TWO), f(Prim::Mul, Single::of(P1_5), p.harmonics));
    let s = motor_amps_of(f, hz, sr, slope, s, 5);
    let s = MotorView { gear: s.gear.tuned(f, FilterMode::BandPass, f(Prim::Mul, hz, p.gear_ratio).within(Single::of(P40), f(Prim::Mul, sr, Single::of(P0_4))), Single::of(P0_85), sr), ..s };
    let gear_gain = f(Prim::Mul, f(Prim::Mul, p.gear_level, f(Prim::Add, Single::of(P0_3), f(Prim::Mul, Single::of(P0_7), load))), Single::of(TWO));
    let pwm_gain = f(Prim::Mul, p.pwm_level, f(Prim::Add, Single::of(P0_3), f(Prim::Mul, Single::of(P0_7), load)));
    let level = f(Prim::Mul, f(Prim::Mul, f(Prim::Mul, f(Prim::Mul, faded_in(f, spin), f(Prim::Sqrt, spin, Single::of(ZERO))), f(Prim::Add, Single::of(P0_3), f(Prim::Mul, Single::of(P0_7), load))), p.gain), Single::of(P2_5));
    let inc = f(Prim::Div, hz, sr);
    let pwm_inc = f(Prim::Div, p.pwm_hz, sr);
    (s, MotorMix { gear_gain, pwm_gain, level, inc, pwm_inc })
}

fn motor_steer<F: Fn(Prim, Single, Single) -> Single>(fpu: &F, p: MotorParams, x: &Vec<Single>, n: Single, s: &mut Motor) -> (r: MotorMix)
    requires
        total(*fpu),
        x@.len() == 2,
        old(s).valid(),
    ensures
        final(s).valid(),
        forall|f: Sums| #[trigger] meant(*fpu, f) ==> (final(s)@, r) == motor_steered(f, p, x@, n, old(s)@),
{
    let sr = s.sr;
    let dt = fpu(Prim::Div, n, sr);
    s.spin = slew(fpu, s.spin, x[0], p.spin_up, p.spin_down, dt);
    let spin = s.spin;
    let load = x[1];
    let hz = fpu(Prim::Mul, p.max_hz, spin);
    let slope = fpu(Prim::Sub, Single::of(TWO), fpu(Prim::Mul, Single::of(P1_5), p.harmonics));
    motor_amps(fpu, hz, sr, slope, s);
    s.gear.set(fpu, FilterMode::BandPass, fpu(Prim::Mul, hz, p.gear_ratio).clamp(Single::of(P40), fpu(Prim::Mul, sr, Single::of(P0_4))), Single::of(P0_85), sr);
    let gear_gain = fpu(Prim::Mul, fpu(Prim::Mul, p.gear_level, fpu(Prim::Add, Single::of(P0_3), fpu(Prim::Mul, Single::of(P0_7), load))), Single::of(TWO));
    let pwm_gain = fpu(Prim::Mul, p.pwm_level, fpu(Prim::Add, Single::of(P0_3), fpu(Prim::Mul, Single::of(P0_7), load)));
    let level = fpu(Prim::Mul, fpu(Prim::Mul, fpu(Prim::Mul, fpu(Prim::Mul, fade_in(fpu, spin), fpu(Prim::Sqrt, spin, Single::of(ZERO))), fpu(Prim::Add, Single::of(P0_3), fpu(Prim::Mul, Single::of(P0_7), load))), p.gain), Single::of(P2_5));
    let inc = fpu(Prim::Div, hz, sr);
    let pwm_inc = fpu(Prim::Div, p.pwm_hz, sr);
    MotorMix { gear_gain, pwm_gain, level, inc, pwm_inc }
}

/// Sum of the first `k` partials.
pub open spec fn motor_whine_of(f: Sums, ph: Single, s: MotorView, whine: Single, k: nat) -> (MotorView, Single)
    decreases k,
{
    if k == 0 {
        (s, whine)
    } else {
        let (s, whine) = motor_whine_of(f, ph, s, whine, (k - 1) as nat);
        let k = k - 1;
        let h = order_at(k);
        let whine = f(Prim::Add, whine, f(Prim::Mul, s.amps[k], f(Prim::Sin, f(Prim::Mul, ph, h), Single::of(ZERO))));
        (s, whine)
    }
}

fn motor_whine<F: Fn(Prim, Single, Single) -> Single>(fpu: &F, ph: Single, s: &mut Motor, whine0: Single) -> (r: Single)
    requires
        total(*fpu),
        old(s).valid(),
    ensures
        final(s).valid(),
        forall|f: Sums| #[trigger] meant(*fpu, f) ==> (final(s)@, r) == motor_whine_of(f, ph, old(s)@, whine0, 5),
{
    let mut whine = whine0;
    let mut k: usize = 0;
    while k < 5
        invariant
            k <= 5,
            total(*fpu),
            s.valid(),
            forall|f: Sums| #[trigger] meant(*fpu, f) ==> (s@, whine) == motor_whine_of(f, ph, old(s)@, whine0, k as nat),
        decreases 5 - k,
    {
        let h = order(k);
        whine = fpu(Prim::Add, whine, fpu(Prim::Mul, s.amps[k], fpu(Prim::Sin, fpu(Prim::Mul, ph, h), Single::of(ZERO))));
        k = k + 1;
    }
    whine
}

/// One sample; what was in its place is not heard.
pub open spec fn motor_tick(f: Sums, p: MotorParams, m: MotorMix, s: MotorView, v: Single) -> (MotorView, Single) {
    let s = MotorView { rotor: s.rotor.moved(f, m.inc), ..s };
    let s = MotorView { pwm: s.pwm.moved(f, m.pwm_inc), ..s };
    let ph = f(Prim::Mul, s.rotor.phase, Single::of(TAU));
    let whine = Single::of(ZERO);
    let (s, whine) = motor_whine_of(f, ph, s, whine, 5);
    let pwm = f(Prim::Mul, s.pwm.sine(f), f(Prim::Add, Single::of(ONE), f(Prim::Mul, Single::of(HALF), f(Prim::Sin, ph, Single::of(ZERO)))));
    let pk = s.noise.pink.output(f, s.noise.draw());
    let s = MotorView { noise: Noise { rng: s.noise.rng.advanced(), pink: s.noise.pink.fed(f, s.noise.draw()) }, ..s };
    let gear = s.gear.output(f, pk);
    let s = MotorView { gear: s.gear.fed(f, pk), ..s };
    (s, f(Prim::Mul, f(Prim::Add, f(Prim::Add, f(Prim::Mul, f(Prim::Mul, whine, Single::of(HALF)), p.whine_level), f(Prim::Mul, pwm, m.pwm_gain)), f(Prim::Mul, gear, m.gear_gain)), m.level))
}

/// The same for a run of samples.
pub open spec fn motor_run(f: Sums, p: MotorParams, m: MotorMix, s: MotorView, x: Seq<Single>) -> (MotorView, Seq<Single>)
    decreases x.len(),
{
    if x.len() == 0 {
        (s, seq![])
    } else {
        let (t, out) = motor_run(f, p, m, s, x.drop_last());
        let (u, y) = motor_tick(f, p, m, t, x.last());
        (u, out.push(y))
    }
}

fn motor_sample<F: Fn(Prim, Single, Single) -> Single>(fpu: &F, p: MotorParams, m: MotorMix, s: &mut Motor, v: Single) -> (y: Single)
    requires
        total(*fpu),
        old(s).valid(),
    ensures
        final(s).valid(),
        forall|f: Sums| #[trigger] meant(*fpu, f) ==> (final(s)@, y) == motor_tick(f, p, m, old(s)@, v),
{
    s.rotor.tick(fpu, m.inc);
    s.pwm.tick(fpu, m.pwm_inc);
    let ph = fpu(Prim::Mul, s.rotor.phase, Single::of(TAU));
    let mut whine = Single::of(ZERO);
    whine = motor_whine(fpu, ph, s, whine);
    let pwm = fpu(Prim::Mul, s.pwm.sin(fpu), fpu(Prim::Add, Single::of(ONE), fpu(Prim::Mul, Single::of(HALF), fpu(Prim::Sin, ph, Single::of(ZERO)))));
    let pk = s.noise.pink(fpu);
    let gear = s.gear.tick(fpu, pk);
    fpu(Prim::Mul, fpu(Prim::Add, fpu(Prim::Add, fpu(Prim::Mul, fpu(Prim::Mul, whine, Single::of(HALF)), p.whine_level), fpu(Prim::Mul, pwm, m.pwm_gain)), fpu(Prim::Mul, gear, m.gear_gain)), m.level)
}

fn motor_span<F: Fn(Prim, Single, Single) -> Single>(fpu: &F, p: MotorParams, m: MotorMix, s: &mut Motor, buf: &mut Vec<Single>, start: usize, end: usize)
    requires
        total(*fpu),
        start <= end <= old(buf)@.len(),
        old(s).valid(),
    ensures
        final(buf)@.len() == old(buf)@.len(),
        same_outside(old(buf)@, final(buf)@, start as int, end as int),
        final(s).valid(),
        forall|f: Sums| #[trigger] meant(*fpu, f) ==> (final(s)@, final(buf)@.subrange(start as int, end as int)) == motor_run(
            f, p, m,
            old(s)@,
            old(buf)@.subrange(start as int, end as int),
        ),
{
    let mut i: usize = start;
    let ghost before = buf@;
    assert(before.subrange(start as int, start as int) =~= seq![]);
    while i < end
        invariant
            start <= i <= end <= buf@.len(),
            buf@.len() == before.len(),
            before == old(buf)@,
            same_outside(before, buf@, start as int, i as int),
            total(*fpu),
            s.valid(),
            forall|f: Sums| #[trigger] meant(*fpu, f) ==> (s@, buf@.subrange(start as int, i as int)) == motor_run(
                f, p, m,
                old(s)@,
                before.subrange(start as int, i as int),
            ),
        decreases end - i,
    {
        let ghost last = buf@;
        let y = motor_sample(fpu, p, m, s, buf[i]);
        buf.set(i, y);
        i = i + 1;
        assert(before.subrange(start as int, i as int).drop_last() =~= before.subrange(start as int, i - 1));
        assert(buf@.subrange(start as int, i as int) =~= last.subrange(start as int, i - 1).push(y));
    }
}

/// What the buffer held does not matter.
proof fn lemma_motor_overwrites(f: Sums, p: MotorParams, m: MotorMix, s: MotorView, a: Seq<Single>, b: Seq<Single>)
    requires
        a.len() == b.len(),
    ensures
        motor_run(f, p, m, s, a) == motor_run(f, p, m, s, b),
        motor_run(f, p, m, s, a).1.len() == a.len(),
    decreases a.len(),
{
    if a.len() > 0 {
        lemma_motor_overwrites(f, p, m, s, a.drop_last(), b.drop_last());
    }
}

impl Generator for Motor {
    type P = MotorParams;

    type State = MotorView;

    open spec fn about() -> ProfileView {
        ProfileView {
            name: "motor"@,
            category: "vehicles"@,
            doc: "Electric motor or servo: whine harmonics, inverter tone, gear mesh."@,
            smooth_secs: Single::of(P0_05),
            limit: true,
            one_shot: false,
        }
    }

    open spec fn input_list() -> Seq<InputView> {
        seq![
            InputView { name: "speed"@, default: Single::of(ZERO), doc: "Target speed; the rotor follows with spin inertia"@ },
            InputView { name: "load"@, default: Single::of(P0_3), doc: "Torque demand: louder, more gear and inverter noise"@ },
        ]
    }

    open spec fn preset_list() -> Seq<(Seq<char>, MotorParams)> {
        seq![
            ("Servo"@, MotorParams { max_hz: Single::of(P900), spin_up: Single::of(P0_08), spin_down: Single::of(P0_1), gear_ratio: Single::of(P14), gear_level: Single::of(P0_6), pwm_level: Single::of(P0_05), ..MotorParams::plain() }),
            ("EV drivetrain"@, MotorParams { max_hz: Single::of(P650), spin_up: Single::of(P2_5), spin_down: Single::of(P3_5), pwm_hz: Single::of(P8000), pwm_level: Single::of(P0_25), gear_ratio: Single::of(P9_1), ..MotorParams::plain() }),
            ("Drone prop"@, MotorParams { max_hz: Single::of(P260), spin_up: Single::of(P0_2), spin_down: Single::of(P0_35), harmonics: Single::of(P0_9), gear_level: Single::of(ZERO), pwm_level: Single::of(P0_1), ..MotorParams::plain() }),
        ]
    }

    open spec fn wf(&self) -> bool {
        self.valid()
    }

    open spec fn state(&self) -> MotorView {
        self@
    }

    open spec fn fresh(f: Sums, sample_rate: Single) -> MotorView {
        MotorView {
            sr: sample_rate,
            spin: Single::of(ZERO),
            rotor: Phasor::start(),
            pwm: Phasor::start(),
            noise: Noise::seeded_with(0x42_0001),
            gear: Svf::silent(),
            amps: Seq::new(5, |k: int| Single::of(ZERO)),
        }
    }

    open spec fn snapped(s: MotorView, f: Sums, x: Seq<Single>, p: MotorParams) -> MotorView {
        MotorView { spin: x[0], ..s }
    }

    open spec fn fired(s: MotorView, f: Sums, x: Seq<Single>, p: MotorParams) -> MotorView {
        s
    }

    open spec fn ringing(s: MotorView) -> bool {
        true
    }

    open spec fn played(s: MotorView, f: Sums, x: Seq<Single>, p: MotorParams, out: Seq<Single>) -> (MotorView, Seq<Single>) {
        let (t, m) = motor_steered(f, p, x, crate::single::signed_integer(out.len() as int), s);
        motor_run(f, p, m, t, out)
    }

    proof fn lemma_overwrites(s: MotorView, f: Sums, x: Seq<Single>, p: MotorParams, a: Seq<Single>, b: Seq<Single>) {
        let (t, m) = motor_steered(f, p, x, crate::single::signed_integer(a.len() as int), s);
        lemma_motor_overwrites(f, p, m, t, a, b);
    }

    fn profile() -> (r: Profile) {
        Profile {
            name: "motor",
            category: "vehicles",
            doc: "Electric motor or servo: whine harmonics, inverter tone, gear mesh.",
            smooth_secs: Single::of(P0_05),
            limit: true,
            one_shot: false,
        }
    }

    fn inputs() -> (r: Vec<InputSpec>) {
        let mut r: Vec<InputSpec> = Vec::new();
        r.push(InputSpec { name: "speed", default: Single::of(ZERO), doc: "Target speed; the rotor follows with spin inertia" });
        r.push(InputSpec { name: "load", default: Single::of(P0_3), doc: "Torque demand: louder, more gear and inverter noise" });
        r
    }

    fn presets() -> (r: Vec<(&'static str, MotorParams)>) {
        let mut r: Vec<(&'static str, MotorParams)> = Vec::new();
        r.push(("Servo", MotorParams { max_hz: Single::of(P900), spin_up: Single::of(P0_08), spin_down: Single::of(P0_1), gear_ratio: Single::of(P14), gear_level: Single::of(P0_6), pwm_level: Single::of(P0_05), ..MotorParams::default() }));
        r.push(("EV drivetrain", MotorParams { max_hz: Single::of(P650), spin_up: Single::of(P2_5), spin_down: Single::of(P3_5), pwm_hz: Single::of(P8000), pwm_level: Single::of(P0_25), gear_ratio: Single::of(P9_1), ..MotorParams::default() }));
        r.push(("Drone prop", MotorParams { max_hz: Single::of(P260), spin_up: Single::of(P0_2), spin_down: Single::of(P0_35), harmonics: Single::of(P0_9), gear_level: Single::of(ZERO), pwm_level: Single::of(P0_1), ..MotorParams::default() }));
        r
    }

    fn new<F: Fn(Prim, Single, Single) -> Single>(fpu: &F, sample_rate: Single) -> (r: Motor) {
        let mut amps: Vec<Single> = Vec::new();
        while amps.len() < 5
            invariant
                amps@.len() <= 5,
                forall|k: int| 0 <= k < amps@.len() ==> #[trigger] amps@[k] == Single::of(ZERO),
            decreases 5 - amps@.len(),
        {
            let k = amps.len();
            amps.push(Single::of(ZERO));
        }
        let r = Motor {
            sr: sample_rate,
            spin: Single::of(ZERO),
            rotor: Phasor::default(),
            pwm: Phasor::default(),
            noise: Noise::new(0x42_0001),
            gear: Svf::default(),
            amps,
        };
        assert(r@.amps =~= Seq::new(5, |k: int| Single::of(ZERO)));
        r
    }

    fn snap<F: Fn(Prim, Single, Single) -> Single>(&mut self, fpu: &F, x: &Vec<Single>, p: &MotorParams) {
        self.spin = x[0];
    }

    fn trigger<F: Fn(Prim, Single, Single) -> Single>(&mut self, fpu: &F, x: &Vec<Single>, p: &MotorParams) {
    }

    fn is_active(&self) -> (r: bool) {
        true
    }

    fn block<F: Fn(Prim, Single, Single) -> Single>(&mut self, fpu: &F, x: &Vec<Single>, p: &MotorParams, out: &mut Vec<Single>, start: usize, end: usize) {
        let n = from_i32((end - start) as i32);
        let m = motor_steer(fpu, *p, x, n, self);
        motor_span(fpu, *p, m, self, out, start, end);
    }
}

/// Rotor: blade-pass thump, chopped downwash noise and a turbine whine.
#[derive(Clone, Copy, Debug, PartialEq, Eq, Structural)]
pub struct RotorParams {
    pub blades: Single,
    pub max_bpf: Single,
    pub spin_up: Single,
    pub spin_down: Single,
    pub sharp: Single,
    pub thump_level: Single,
    pub chop: Single,
    pub wash_level: Single,
    pub wash_hz: Single,
    pub turbine_level: Single,
    pub turbine_hz: Single,
    pub gain: Single,
}

impl RotorParams {
    pub open spec fn plain() -> RotorParams {
        RotorParams {
            blades: Single::of(THREE),
            max_bpf: Single::of(P22),
            spin_up: Single::of(THREE),
            spin_down: Single::of(P5),
            sharp: Single::of(THREE),
            thump_level: Single::of(P0_7),
            chop: Single::of(P0_75),
            wash_level: Single::of(P0_6),
            wash_hz: Single::of(P500),
            turbine_level: Single::of(P0_15),
            turbine_hz: Single::of(P3200),
            gain: Single::of(P0_9),
        }
    }
}

impl Default for RotorParams {
    fn default() -> (r: RotorParams)
        ensures
            r == RotorParams::plain(),
    {
        RotorParams {
            blades: Single::of(THREE),
            max_bpf: Single::of(P22),
            spin_up: Single::of(THREE),
            spin_down: Single::of(P5),
            sharp: Single::of(THREE),
            thump_level: Single::of(P0_7),
            chop: Single::of(P0_75),
            wash_level: Single::of(P0_6),
            wash_hz: Single::of(P500),
            turbine_level: Single::of(P0_15),
            turbine_hz: Single::of(P3200),
            gain: Single::of(P0_9),
        }
    }
}

/// Identifier of every tweakable value in [`RotorParams`].
#[derive(Clone, Copy, Debug, PartialEq, Eq, Structural)]
pub enum RotorParamId {
    Blades,
    MaxBpf,
    SpinUp,
    SpinDown,
    Sharp,
    ThumpLevel,
    Chop,
    WashLevel,
    WashHz,
    TurbineLevel,
    TurbineHz,
    Gain,
}

impl RotorParamId {
    /// Number of parameters.
    pub const COUNT: usize = 12;

    /// Every parameter, in table order.
    pub open spec fn all() -> Seq<RotorParamId> {
        seq![
            RotorParamId::Blades,
            RotorParamId::MaxBpf,
            RotorParamId::SpinUp,
            RotorParamId::SpinDown,
            RotorParamId::Sharp,
            RotorParamId::ThumpLevel,
            RotorParamId::Chop,
            RotorParamId::WashLevel,
            RotorParamId::WashHz,
            RotorParamId::TurbineLevel,
            RotorParamId::TurbineHz,
            RotorParamId::Gain,
        ]
    }

    /// Place in the table.
    pub open spec fn place(self) -> int {
        match self {
            RotorParamId::Blades => 0,
            RotorParamId::MaxBpf => 1,
            RotorParamId::SpinUp => 2,
            RotorParamId::SpinDown => 3,
            RotorParamId::Sharp => 4,
            RotorParamId::ThumpLevel => 5,
            RotorParamId::Chop => 6,
            RotorParamId::WashLevel => 7,
            RotorParamId::WashHz => 8,
            RotorParamId::TurbineLevel => 9,
            RotorParamId::TurbineHz => 10,
            RotorParamId::Gain => 11,
        }
    }

    pub open spec fn label(self) -> Seq<char> {
        match self {
            RotorParamId::Blades => "rotor/blades"@,
            RotorParamId::MaxBpf => "rotor/max_blade_hz"@,
            RotorParamId::SpinUp => "rotor/spin_up"@,
            RotorParamId::SpinDown => "rotor/spin_down"@,
            RotorParamId::Sharp => "rotor/sharpness"@,
            RotorParamId::ThumpLevel => "rotor/thump"@,
            RotorParamId::Chop => "wash/chop"@,
            RotorParamId::WashLevel => "wash/level"@,
            RotorParamId::WashHz => "wash/hz"@,
            RotorParamId::TurbineLevel => "turbine/level"@,
            RotorParamId::TurbineHz => "turbine/hz"@,
            RotorParamId::Gain => "master/gain"@,
        }
    }

    pub open spec fn range(self) -> ParamKind {
        match self {
            RotorParamId::Blades => ParamKind::Int { min: 2, max: 8 },
            RotorParamId::MaxBpf => ParamKind::Exp { min: Single::of(P4), max: Single::of(P160) },
            RotorParamId::SpinUp => ParamKind::Float { min: Single::of(P0_1), max: Single::of(P12), step: Single::of(P0_001) },
            RotorParamId::SpinDown => ParamKind::Float { min: Single::of(P0_1), max: Single::of(P12), step: Single::of(P0_001) },
            RotorParamId::Sharp => ParamKind::Float { min: Single::of(ONE), max: Single::of(P8), step: Single::of(P0_001) },
            RotorParamId::ThumpLevel => ParamKind::Float { min: Single::of(ZERO), max: Single::of(ONE), step: Single::of(P0_001) },
            RotorParamId::Chop => ParamKind::Float { min: Single::of(ZERO), max: Single::of(ONE), step: Single::of(P0_001) },
            RotorParamId::WashLevel => ParamKind::Float { min: Single::of(ZERO), max: Single::of(ONE), step: Single::of(P0_001) },
            RotorParamId::WashHz => ParamKind::Exp { min: Single::of(P100), max: Single::of(P4000) },
            RotorParamId::TurbineLevel => ParamKind::Float { min: Single::of(ZERO), max: Single::of(ONE), step: Single::of(P0_001) },
            RotorParamId::TurbineHz => ParamKind::Exp { min: Single::of(P500), max: Single::of(P9000) },
            RotorParamId::Gain => ParamKind::Float { min: Single::of(ZERO), max: Single::of(TWO), step: Single::of(P0_001) },
        }
    }

    /// The parameter at a place of the table, if there is one.
    pub fn from_index(i: usize) -> (r: Option<RotorParamId>)
        ensures
            r == if i < 12 {
                Some(RotorParamId::all()[i as int])
            } else {
                None
            },
    {
        if i < 12 {
            Some(RotorParamId::nth(i))
        } else {
            None
        }
    }

    /// The parameter at a place of the table.
    pub fn nth(i: usize) -> (r: RotorParamId)
        requires
            i < 12,
        ensures
            r == RotorParamId::all()[i as int],
            r.place() == i,
    {
        match i {
            0 => RotorParamId::Blades,
            1 => RotorParamId::MaxBpf,
            2 => RotorParamId::SpinUp,
            3 => RotorParamId::SpinDown,
            4 => RotorParamId::Sharp,
            5 => RotorParamId::ThumpLevel,
            6 => RotorParamId::Chop,
            7 => RotorParamId::WashLevel,
            8 => RotorParamId::WashHz,
            9 => RotorParamId::TurbineLevel,
            10 => RotorParamId::TurbineHz,
            _ => RotorParamId::Gain,
        }
    }

    pub fn index(self) -> (r: usize)
        ensures
            r == self.place(),
            r < 12,
    {
        match self {
            RotorParamId::Blades => 0,
            RotorParamId::MaxBpf => 1,
            RotorParamId::SpinUp => 2,
            RotorParamId::SpinDown => 3,
            RotorParamId::Sharp => 4,
            RotorParamId::ThumpLevel => 5,
            RotorParamId::Chop => 6,
            RotorParamId::WashLevel => 7,
            RotorParamId::WashHz => 8,
            RotorParamId::TurbineLevel => 9,
            RotorParamId::TurbineHz => 10,
            RotorParamId::Gain => 11,
        }
    }

    pub fn name(self) -> (r: &'static str)
        ensures
            r@ == self.label(),
    {
        match self {
            RotorParamId::Blades => "rotor/blades",
            RotorParamId::MaxBpf => "rotor/max_blade_hz",
            RotorParamId::SpinUp => "rotor/spin_up",
            RotorParamId::SpinDown => "rotor/spin_down",
            RotorParamId::Sharp => "rotor/sharpness",
            RotorParamId::ThumpLevel => "rotor/thump",
            RotorParamId::Chop => "wash/chop",
            RotorParamId::WashLevel => "wash/level",
            RotorParamId::WashHz => "wash/hz",
            RotorParamId::TurbineLevel => "turbine/level",
            RotorParamId::TurbineHz => "turbine/hz",
            RotorParamId::Gain => "master/gain",
        }
    }

    pub fn kind(self) -> (r: ParamKind)
        ensures
            r == self.range(),
            r.wf(),
    {
        match self {
            RotorParamId::Blades => ParamKind::Int { min: 2, max: 8 },
            RotorParamId::MaxBpf => ParamKind::Exp { min: Single::of(P4), max: Single::of(P160) },
            RotorParamId::SpinUp => ParamKind::Float { min: Single::of(P0_1), max: Single::of(P12), step: Single::of(P0_001) },
            RotorParamId::SpinDown => ParamKind::Float { min: Single::of(P0_1), max: Single::of(P12), step: Single::of(P0_001) },
            RotorParamId::Sharp => ParamKind::Float { min: Single::of(ONE), max: Single::of(P8), step: Single::of(P0_001) },
            RotorParamId::ThumpLevel => ParamKind::Float { min: Single::of(ZERO), max: Single::of(ONE), step: Single::of(P0_001) },
            RotorParamId::Chop => ParamKind::Float { min: Single::of(ZERO), max: Single::of(ONE), step: Single::of(P0_001) },
            RotorParamId::WashLevel => ParamKind::Float { min: Single::of(ZERO), max: Single::of(ONE), step: Single::of(P0_001) },
            RotorParamId::WashHz => ParamKind::Exp { min: Single::of(P100), max: Single::of(P4000) },
            RotorParamId::TurbineLevel => ParamKind::Float { min: Single::of(ZERO), max: Single::of(ONE), step: Single::of(P0_001) },
            RotorParamId::TurbineHz => ParamKind::Exp { min: Single::of(P500), max: Single::of(P9000) },
            RotorParamId::Gain => ParamKind::Float { min: Single::of(ZERO), max: Single::of(TWO), step: Single::of(P0_001) },
        }
    }

    /// The parameter with a name.
    pub fn from_name(name: &str) -> (r: Option<RotorParamId>)
        ensures
            match r {
                Some(id) => id.label() == name@,
                None => forall|id: RotorParamId| (#[trigger] id.label()) != name@,
            },
    {
        let mut i: usize = 0;
        while i < 12
            invariant
                i <= 12,
                forall|id: RotorParamId| id.place() < i ==> (#[trigger] id.label()) != name@,
            decreases 12 - i,
        {
            let id = RotorParamId::nth(i);
            if equal(id.name(), name) {
                return Some(id);
            }
            proof {
                assert forall|other: RotorParamId| other.place() < i + 1 implies (#[trigger] other.label()) != name@ by {
                    if other.place() == i {
                        assert(RotorParamId::all()[other.place()] == other);
                    }
                }
            }
            i = i + 1;
        }
        None
    }
}

impl RotorParams {
    /// Value of a parameter; names count by their index.
    pub open spec fn value(self, id: RotorParamId) -> Single {
        match id {
            RotorParamId::Blades => self.blades,
            RotorParamId::MaxBpf => self.max_bpf,
            RotorParamId::SpinUp => self.spin_up,
            RotorParamId::SpinDown => self.spin_down,
            RotorParamId::Sharp => self.sharp,
            RotorParamId::ThumpLevel => self.thump_level,
            RotorParamId::Chop => self.chop,
            RotorParamId::WashLevel => self.wash_level,
            RotorParamId::WashHz => self.wash_hz,
            RotorParamId::TurbineLevel => self.turbine_level,
            RotorParamId::TurbineHz => self.turbine_hz,
            RotorParamId::Gain => self.gain,
        }
    }

    /// With a parameter set to the nearest value it can take.
    pub open spec fn with(self, id: RotorParamId, v: Single) -> RotorParams {
        match id {
            RotorParamId::Blades => RotorParams { blades: id.range().clamped(v), ..self },
            RotorParamId::MaxBpf => RotorParams { max_bpf: id.range().clamped(v), ..self },
            RotorParamId::SpinUp => RotorParams { spin_up: id.range().clamped(v), ..self },
            RotorParamId::SpinDown => RotorParams { spin_down: id.range().clamped(v), ..self },
            RotorParamId::Sharp => RotorParams { sharp: id.range().clamped(v), ..self },
            RotorParamId::ThumpLevel => RotorParams { thump_level: id.range().clamped(v), ..self },
            RotorParamId::Chop => RotorParams { chop: id.range().clamped(v), ..self },
            RotorParamId::WashLevel => RotorParams { wash_level: id.range().clamped(v), ..self },
            RotorParamId::WashHz => RotorParams { wash_hz: id.range().clamped(v), ..self },
            RotorParamId::TurbineLevel => RotorParams { turbine_level: id.range().clamped(v), ..self },
            RotorParamId::TurbineHz => RotorParams { turbine_hz: id.range().clamped(v), ..self },
            RotorParamId::Gain => RotorParams { gain: id.range().clamped(v), ..self },
        }
    }

    pub fn get(&self, id: RotorParamId) -> (r: Single)
        ensures
            r == self.value(id),
    {
        match id {
            RotorParamId::Blades => self.blades,
            RotorParamId::MaxBpf => self.max_bpf,
            RotorParamId::SpinUp => self.spin_up,
            RotorParamId::SpinDown => self.spin_down,
            RotorParamId::Sharp => self.sharp,
            RotorParamId::ThumpLevel => self.thump_level,
            RotorParamId::Chop => self.chop,
            RotorParamId::WashLevel => self.wash_level,
            RotorParamId::WashHz => self.wash_hz,
            RotorParamId::TurbineLevel => self.turbine_level,
            RotorParamId::TurbineHz => self.turbine_hz,
            RotorParamId::Gain => self.gain,
        }
    }

    /// Set a parameter to the nearest value it can take; what is no number is ignored.
    pub fn set(&mut self, id: RotorParamId, v: Single)
        ensures
            *final(self) == if v.finite() {
                old(self).with(id, v)
            } else {
                *old(self)
            },
    {
        if !v.is_finite() {
            return;
        }
        match id {
            RotorParamId::Blades => {
                self.blades = id.kind().clamp(v);
            },
            RotorParamId::MaxBpf => {
                self.max_bpf = id.kind().clamp(v);
            },
            RotorParamId::SpinUp => {
                self.spin_up = id.kind().clamp(v);
            },
            RotorParamId::SpinDown => {
                self.spin_down = id.kind().clamp(v);
            },
            RotorParamId::Sharp => {
                self.sharp = id.kind().clamp(v);
            },
            RotorParamId::ThumpLevel => {
                self.thump_level = id.kind().clamp(v);
            },
            RotorParamId::Chop => {
                self.chop = id.kind().clamp(v);
            },
            RotorParamId::WashLevel => {
                self.wash_level = id.kind().clamp(v);
            },
            RotorParamId::WashHz => {
                self.wash_hz = id.kind().clamp(v);
            },
            RotorParamId::TurbineLevel => {
                self.turbine_level = id.kind().clamp(v);
            },
            RotorParamId::TurbineHz => {
                self.turbine_hz = id.kind().clamp(v);
            },
            RotorParamId::Gain => {
                self.gain = id.kind().clamp(v);
            },
        }
    }
}

/// A parameter that was set has the nearest value it can take.
pub proof fn lemma_rotorparams_set_get(p: RotorParams, id: RotorParamId, v: Single)
    requires
        v.finite(),
    ensures
        p.with(id, v).value(id) == id.range().clamped(v),
{
}


/// Setting a parameter leaves every other one what it was.
#[verifier::rlimit(30)]
pub proof fn lemma_rotorparams_set_keeps_others(p: RotorParams, id: RotorParamId, other: RotorParamId, v: Single)
    requires
        other != id,
    ensures
        p.with(id, v).value(other) == p.value(other),
{
}

/// Length and some letters of a name.
spec fn rotorparamid_sign(id: RotorParamId) -> (int, char) {
    match id {
        RotorParamId::Blades => (12, 'l'),
        RotorParamId::MaxBpf => (18, 'a'),
        RotorParamId::SpinUp => (13, 'p'),
        RotorParamId::SpinDown => (15, 'p'),
        RotorParamId::Sharp => (15, 'h'),
        RotorParamId::ThumpLevel => (11, 'h'),
        RotorParamId::Chop => (9, 'o'),
        RotorParamId::WashLevel => (10, 'v'),
        RotorParamId::WashHz => (7, ' '),
        RotorParamId::TurbineLevel => (13, '/'),
        RotorParamId::TurbineHz => (10, '/'),
        RotorParamId::Gain => (11, 'g'),
    }
}

#[verifier::rlimit(60)]
proof fn lemma_rotorparamid_sign(id: RotorParamId)
    ensures
        id.label().len() == rotorparamid_sign(id).0,
        rotorparamid_sign(id).0 > 7 ==> id.label()[7] == rotorparamid_sign(id).1,
{
    reveal_strlit("rotor/blades");
    reveal_strlit("rotor/max_blade_hz");
    reveal_strlit("rotor/spin_up");
    reveal_strlit("rotor/spin_down");
    reveal_strlit("rotor/sharpness");
    reveal_strlit("rotor/thump");
    reveal_strlit("wash/chop");
    reveal_strlit("wash/level");
    reveal_strlit("wash/hz");
    reveal_strlit("turbine/level");
    reveal_strlit("turbine/hz");
    reveal_strlit("master/gain");
}

/// Names tell the parameters apart, so looking up a parameter's name gives the parameter.
pub proof fn lemma_rotorparamid_names_differ(a: RotorParamId, b: RotorParamId)
    requires
        a.label() == b.label(),
    ensures
        a == b,
{
    lemma_rotorparamid_sign(a);
    lemma_rotorparamid_sign(b);
}

impl Params for RotorParams {
    open spec fn plain_params() -> RotorParams {
        RotorParams::plain()
    }

    open spec fn param_count() -> nat {
        RotorParamId::COUNT as nat
    }

    open spec fn label_at(i: int) -> Seq<char> {
        RotorParamId::all()[i].label()
    }

    open spec fn range_at(i: int) -> ParamKind {
        RotorParamId::all()[i].range()
    }

    open spec fn value_at(self, i: int) -> Single {
        self.value(RotorParamId::all()[i])
    }

    open spec fn with_at(self, i: int, v: Single) -> RotorParams {
        self.with(RotorParamId::all()[i], v)
    }

    proof fn lemma_set_at_reads_back(self, i: int, v: Single) {
        lemma_rotorparams_set_get(self, RotorParamId::all()[i], v);
    }

    proof fn lemma_set_at_keeps_others(self, i: int, j: int, v: Single) {
        assert(RotorParamId::all()[i].place() == i);
        assert(RotorParamId::all()[j].place() == j);
        lemma_rotorparams_set_keeps_others(self, RotorParamId::all()[i], RotorParamId::all()[j], v);
    }

    fn default_params() -> (r: RotorParams) {
        RotorParams::default()
    }

    fn count() -> (r: usize) {
        RotorParamId::COUNT
    }

    fn name_at(i: usize) -> (r: &'static str) {
        RotorParamId::nth(i).name()
    }

    fn kind_at(i: usize) -> (r: ParamKind) {
        RotorParamId::nth(i).kind()
    }

    fn get_at(&self, i: usize) -> (r: Single) {
        self.get(RotorParamId::nth(i))
    }

    fn set_at(&mut self, i: usize, v: Single) {
        self.set(RotorParamId::nth(i), v);
    }
}

/// Whole number of blades.
pub open spec fn blade_count(p: RotorParams) -> int {
    crate::params::bounded(p.blades.nearest_int(), 2, 8)
}

/// The blade after another.
pub open spec fn next_blade(blade: int, p: RotorParams) -> int {
    if blade >= usize::MAX {
        0
    } else {
        (blade + 1) % blade_count(p)
    }
}

fn step_blade(blade: usize, p: &RotorParams) -> (r: usize)
    ensures
        r == next_blade(blade as int, *p),
{
    let count = bound(p.blades.round(), 2, 8) as usize;
    if blade == usize::MAX {
        0
    } else {
        (blade + 1) % count
    }
}

/// Helicopter, propeller or fan: blade thump, chopped wash, turbine whine.
#[derive(Clone, Copy, Debug, PartialEq, Eq, Structural)]
pub struct Rotor {
    pub sr: Single,
    pub spin: Single,
    pub passing: Phasor,
    pub blade: usize,
    pub blade_amp: Single,
    pub turbine0: Phasor,
    pub turbine1: Phasor,
    pub noise: Noise,
    pub thump: Svf,
    pub wash: Svf,
}

/// Settings of a control block.
#[derive(Clone, Copy, Debug, PartialEq, Eq, Structural)]
pub struct RotorMix {
    pub thump_gain: Single,
    pub wash_gain: Single,
    pub turbine_gain: Single,
    pub inc: Single,
    pub t_inc: Single,
    pub level: Single,
}

/// The generator at the start of a control block of `n` samples with inputs `x`, and the settings.
pub open spec fn rotor_steered(f: Sums, p: RotorParams, x: Seq<Single>, n: Single, s: Rotor) -> (Rotor, RotorMix) {
    let sr = s.sr;
    let dt = f(Prim::Div, n, sr);
    let s = Rotor { spin: slewed(f, s.spin, x[0], p.spin_up, p.spin_down, dt), ..s };
    let spin = s.spin;
    let load = x[1];
    let bpf = f(Prim::Mul, p.max_bpf, spin);
    let s = Rotor { thump: s.thump.tuned(f, FilterMode::LowPass, f(Prim::Add, f(Prim::Mul, bpf, Single::of(P4)), Single::of(P40)), Single::of(P0_2), sr), ..s };
    let s = Rotor { wash: s.wash.tuned(f, FilterMode::BandPass, f(Prim::Mul, p.wash_hz, f(Prim::Add, Single::of(P0_7), f(Prim::Mul, Single::of(P0_6), spin))), Single::of(P0_3), sr), ..s };
    let thump_gain = f(Prim::Mul, f(Prim::Mul, p.thump_level, f(Prim::Add, Single::of(HALF), f(Prim::Mul, Single::of(HALF), load))), Single::of(TWO));
    let wash_gain = f(Prim::Mul, p.wash_level, Single::of(P2_5));
    let turbine_gain = f(Prim::Mul, f(Prim::Mul, p.turbine_level, spin), Single::of(HALF));
    let inc = f(Prim::Div, bpf, sr);
    let t_inc = f(Prim::Div, f(Prim::Mul, p.turbine_hz, spin), sr);
    let level = f(Prim::Mul, f(Prim::Mul, f(Prim::Mul, faded_in(f, spin), f(Prim::Add, Single::of(P0_3), f(Prim::Mul, Single::of(P0_7), spin))), p.gain), Single::of(P0_65));
    (s, RotorMix { thump_gain, wash_gain, turbine_gain, inc, t_inc, level })
}

fn rotor_steer<F: Fn(Prim, Single, Single) -> Single>(fpu: &F, p: RotorParams, x: &Vec<Single>, n: Single, s: &mut Rotor) -> (r: RotorMix)
    requires
        total(*fpu),
        x@.len() == 2,
    ensures
        forall|f: Sums| #[trigger] meant(*fpu, f) ==> (*final(s), r) == rotor_steered(f, p, x@, n, *old(s)),
{
    let sr = s.sr;
    let dt = fpu(Prim::Div, n, sr);
    s.spin = slew(fpu, s.spin, x[0], p.spin_up, p.spin_down, dt);
    let spin = s.spin;
    let load = x[1];
    let bpf = fpu(Prim::Mul, p.max_bpf, spin);
    s.thump.set(fpu, FilterMode::LowPass, fpu(Prim::Add, fpu(Prim::Mul, bpf, Single::of(P4)), Single::of(P40)), Single::of(P0_2), sr);
    s.wash.set(fpu, FilterMode::BandPass, fpu(Prim::Mul, p.wash_hz, fpu(Prim::Add, Single::of(P0_7), fpu(Prim::Mul, Single::of(P0_6), spin))), Single::of(P0_3), sr);
    let thump_gain = fpu(Prim::Mul, fpu(Prim::Mul, p.thump_level, fpu(Prim::Add, Single::of(HALF), fpu(Prim::Mul, Single::of(HALF), load))), Single::of(TWO));
    let wash_gain = fpu(Prim::Mul, p.wash_level, Single::of(P2_5));
    let turbine_gain = fpu(Prim::Mul, fpu(Prim::Mul, p.turbine_level, spin), Single::of(HALF));
    let inc = fpu(Prim::Div, bpf, sr);
    let t_inc = fpu(Prim::Div, fpu(Prim::Mul, p.turbine_hz, spin), sr);
    let level = fpu(Prim::Mul, fpu(Prim::Mul, fpu(Prim::Mul, fade_in(fpu, spin), fpu(Prim::Add, Single::of(P0_3), fpu(Prim::Mul, Single::of(P0_7), spin))), p.gain), Single::of(P0_65));
    RotorMix { thump_gain, wash_gain, turbine_gain, inc, t_inc, level }
}

/// One sample; what was in its place is not heard.
pub open spec fn rotor_tick(f: Sums, p: RotorParams, m: RotorMix, s: Rotor, v: Single) -> (Rotor, Single) {
    let passed = s.passing.wraps(f, m.inc);
    let s = Rotor { passing: s.passing.moved(f, m.inc), ..s };
    let s = if passed {
        let s = Rotor { blade: next_blade(s.blade as int, p) as usize, ..s };
        let s = Rotor { blade_amp: (if s.blade == 0 { Single::of(P0_82) } else { Single::of(ONE) }), ..s };
        s
    } else {
        s
    };
    let s = Rotor { turbine0: s.turbine0.moved(f, m.t_inc), ..s };
    let s = Rotor { turbine1: s.turbine1.moved(f, f(Prim::Mul, m.t_inc, Single::of(P1_31))), ..s };
    let env = f(Prim::Mul, f(Prim::Pow, f(Prim::Add, Single::of(HALF), f(Prim::Mul, Single::of(HALF), f(Prim::Cos, f(Prim::Mul, s.passing.phase, Single::of(TAU)), Single::of(ZERO)))), p.sharp), s.blade_amp);
    let low = s.thump.output(f, f(Prim::Sub, env, Single::of(P0_3)));
    let s = Rotor { thump: s.thump.fed(f, f(Prim::Sub, env, Single::of(P0_3))), ..s };
    let thump = f(Prim::Add, low, f(Prim::Mul, Single::of(P0_3), s.passing.sine(f)));
    let pk = s.noise.pink.output(f, s.noise.draw());
    let s = Rotor { noise: Noise { rng: s.noise.rng.advanced(), pink: s.noise.pink.fed(f, s.noise.draw()) }, ..s };
    let washed = s.wash.output(f, pk);
    let s = Rotor { wash: s.wash.fed(f, pk), ..s };
    let wash = f(Prim::Mul, washed, f(Prim::Add, f(Prim::Sub, Single::of(ONE), p.chop), f(Prim::Mul, p.chop, env)));
    let turbine = f(Prim::Add, s.turbine0.sine(f), f(Prim::Mul, Single::of(HALF), s.turbine1.sine(f)));
    (s, f(Prim::Mul, f(Prim::Add, f(Prim::Add, f(Prim::Mul, thump, m.thump_gain), f(Prim::Mul, wash, m.wash_gain)), f(Prim::Mul, turbine, m.turbine_gain)), m.level))
}

/// The same for a run of samples.
pub open spec fn rotor_run(f: Sums, p: RotorParams, m: RotorMix, s: Rotor, x: Seq<Single>) -> (Rotor, Seq<Single>)
    decreases x.len(),
{
    if x.len() == 0 {
        (s, seq![])
    } else {
        let (t, out) = rotor_run(f, p, m, s, x.drop_last());
        let (u, y) = rotor_tick(f, p, m, t, x.last());
        (u, out.push(y))
    }
}

fn rotor_sample<F: Fn(Prim, Single, Single) -> Single>(fpu: &F, p: RotorParams, m: RotorMix, s: &mut Rotor, v: Single) -> (y: Single)
    requires
        total(*fpu),
    ensures
        forall|f: Sums| #[trigger] meant(*fpu, f) ==> (*final(s), y) == rotor_tick(f, p, m, *old(s), v),
{
    let passed = s.passing.tick(fpu, m.inc);
    if passed {
        s.blade = step_blade(s.blade, &p);
        s.blade_amp = (if s.blade == 0 { Single::of(P0_82) } else { Single::of(ONE) });
    }
    s.turbine0.tick(fpu, m.t_inc);
    s.turbine1.tick(fpu, fpu(Prim::Mul, m.t_inc, Single::of(P1_31)));
    let env = fpu(Prim::Mul, fpu(Prim::Pow, fpu(Prim::Add, Single::of(HALF), fpu(Prim::Mul, Single::of(HALF), fpu(Prim::Cos, fpu(Prim::Mul, s.passing.phase, Single::of(TAU)), Single::of(ZERO)))), p.sharp), s.blade_amp);
    let low = s.thump.tick(fpu, fpu(Prim::Sub, env, Single::of(P0_3)));
    let thump = fpu(Prim::Add, low, fpu(Prim::Mul, Single::of(P0_3), s.passing.sin(fpu)));
    let pk = s.noise.pink(fpu);
    let washed = s.wash.tick(fpu, pk);
    let wash = fpu(Prim::Mul, washed, fpu(Prim::Add, fpu(Prim::Sub, Single::of(ONE), p.chop), fpu(Prim::Mul, p.chop, env)));
    let turbine = fpu(Prim::Add, s.turbine0.sin(fpu), fpu(Prim::Mul, Single::of(HALF), s.turbine1.sin(fpu)));
    fpu(Prim::Mul, fpu(Prim::Add, fpu(Prim::Add, fpu(Prim::Mul, thump, m.thump_gain), fpu(Prim::Mul, wash, m.wash_gain)), fpu(Prim::Mul, turbine, m.turbine_gain)), m.level)
}

fn rotor_span<F: Fn(Prim, Single, Single) -> Single>(fpu: &F, p: RotorParams, m: RotorMix, s: &mut Rotor, buf: &mut Vec<Single>, start: usize, end: usize)
    requires
        total(*fpu),
        start <= end <= old(buf)@.len(),
    ensures
        final(buf)@.len() == old(buf)@.len(),
        same_outside(old(buf)@, final(buf)@, start as int, end as int),
        forall|f: Sums| #[trigger] meant(*fpu, f) ==> (*final(s), final(buf)@.subrange(start as int, end as int)) == rotor_run(
            f, p, m,
            *old(s),
            old(buf)@.subrange(start as int, end as int),
        ),
{
    let mut i: usize = start;
    let ghost before = buf@;
    assert(before.subrange(start as int, start as int) =~= seq![]);
    while i < end
        invariant
            start <= i <= end <= buf@.len(),
            buf@.len() == before.len(),
            before == old(buf)@,
            same_outside(before, buf@, start as int, i as int),
            total(*fpu),
            forall|f: Sums| #[trigger] meant(*fpu, f) ==> (*s, buf@.subrange(start as int, i as int)) == rotor_run(
                f, p, m,
                *old(s),
                before.subrange(start as int, i as int),
            ),
        decreases end - i,
    {
        let ghost last = buf@;
        let y = rotor_sample(fpu, p, m, s, buf[i]);
        buf.set(i, y);
        i = i + 1;
        assert(before.subrange(start as int, i as int).drop_last() =~= before.subrange(start as int, i - 1));
        assert(buf@.subrange(start as int, i as int) =~= last.subrange(start as int, i - 1).push(y));
    }
}

/// What the buffer held does not matter.
proof fn lemma_rotor_overwrites(f: Sums, p: RotorParams, m: RotorMix, s: Rotor, a: Seq<Single>, b: Seq<Single>)
    requires
        a.len() == b.len(),
    ensures
        rotor_run(f, p, m, s, a) == rotor_run(f, p, m, s, b),
        rotor_run(f, p, m, s, a).1.len() == a.len(),
    decreases a.len(),
{
    if a.len() > 0 {
        lemma_rotor_overwrites(f, p, m, s, a.drop_last(), b.drop_last());
    }
}

impl Generator for Rotor {
    type P = RotorParams;

    type State = Rotor;

    open spec fn about() -> ProfileView {
        ProfileView {
            name: "rotor"@,
            category: "vehicles"@,
            doc: "Helicopter, propeller or fan: blade thump, chopped wash, turbine whine."@,
            smooth_secs: Single::of(P0_05),
            limit: true,
            one_shot: false,
        }
    }

    open spec fn input_list() -> Seq<InputView> {
        seq![
            InputView { name: "rpm"@, default: Single::of(ZERO), doc: "Rotor speed target; follows with spin inertia"@ },
            InputView { name: "load"@, default: Single::of(HALF), doc: "Blade pitch / lift: heavier thump"@ },
        ]
    }

    open spec fn preset_list() -> Seq<(Seq<char>, RotorParams)> {
        seq![
            ("Attack chopper"@, RotorParams { blades: Single::of(P4), max_bpf: Single::of(P28), sharp: Single::of(P4_5), thump_level: Single::of(P0_9), turbine_level: Single::of(P0_25), ..RotorParams::plain() }),
            ("Propeller plane"@, RotorParams { blades: Single::of(THREE), max_bpf: Single::of(P95), spin_up: Single::of(P1_5), spin_down: Single::of(P2_5), sharp: Single::of(P1_6), wash_hz: Single::of(P900), turbine_level: Single::of(ZERO), ..RotorParams::plain() }),
            ("Ceiling fan"@, RotorParams { blades: Single::of(P4), max_bpf: Single::of(P9), spin_up: Single::of(P6), spin_down: Single::of(P9), thump_level: Single::of(P0_25), wash_level: Single::of(P0_35), wash_hz: Single::of(P300), turbine_level: Single::of(ZERO), ..RotorParams::plain() }),
        ]
    }

    open spec fn wf(&self) -> bool {
        true
    }

    open spec fn state(&self) -> Rotor {
        *self
    }

    open spec fn fresh(f: Sums, sample_rate: Single) -> Rotor {
        Rotor {
            sr: sample_rate,
            spin: Single::of(ZERO),
            passing: Phasor::start(),
            blade: 0,
            blade_amp: Single::of(ONE),
            turbine0: Phasor::start(),
            turbine1: Phasor::start(),
            noise: Noise::seeded_with(0x43_0001),
            thump: Svf::silent(),
            wash: Svf::silent(),
        }
    }

    open spec fn snapped(s: Rotor, f: Sums, x: Seq<Single>, p: RotorParams) -> Rotor {
        Rotor { spin: x[0], ..s }
    }

    open spec fn fired(s: Rotor, f: Sums, x: Seq<Single>, p: RotorParams) -> Rotor {
        s
    }

    open spec fn ringing(s: Rotor) -> bool {
        true
    }

    open spec fn played(s: Rotor, f: Sums, x: Seq<Single>, p: RotorParams, out: Seq<Single>) -> (Rotor, Seq<Single>) {
        let (t, m) = rotor_steered(f, p, x, crate::single::signed_integer(out.len() as int), s);
        rotor_run(f, p, m, t, out)
    }

    proof fn lemma_overwrites(s: Rotor, f: Sums, x: Seq<Single>, p: RotorParams, a: Seq<Single>, b: Seq<Single>) {
        let (t, m) = rotor_steered(f, p, x, crate::single::signed_integer(a.len() as int), s);
        lemma_rotor_overwrites(f, p, m, t, a, b);
    }

    fn profile() -> (r: Profile) {
        Profile {
            name: "rotor",
            category: "vehicles",
            doc: "Helicopter, propeller or fan: blade thump, chopped wash, turbine whine.",
            smooth_secs: Single::of(P0_05),
            limit: true,
            one_shot: false,
        }
    }

    fn inputs() -> (r: Vec<InputSpec>) {
        let mut r: Vec<InputSpec> = Vec::new();
        r.push(InputSpec { name: "rpm", default: Single::of(ZERO), doc: "Rotor speed target; follows with spin inertia" });
        r.push(InputSpec { name: "load", default: Single::of(HALF), doc: "Blade pitch / lift: heavier thump" });
        r
    }

    fn presets() -> (r: Vec<(&'static str, RotorParams)>) {
        let mut r: Vec<(&'static str, RotorParams)> = Vec::new();
        r.push(("Attack chopper", RotorParams { blades: Single::of(P4), max_bpf: Single::of(P28), sharp: Single::of(P4_5), thump_level: Single::of(P0_9), turbine_level: Single::of(P0_25), ..RotorParams::default() }));
        r.push(("Propeller plane", RotorParams { blades: Single::of(THREE), max_bpf: Single::of(P95), spin_up: Single::of(P1_5), spin_down: Single::of(P2_5), sharp: Single::of(P1_6), wash_hz: Single::of(P900), turbine_level: Single::of(ZERO), ..RotorParams::default() }));
        r.push(("Ceiling fan", RotorParams { blades: Single::of(P4), max_bpf: Single::of(P9), spin_up: Single::of(P6), spin_down: Single::of(P9), thump_level: Single::of(P0_25), wash_level: Single::of(P0_35), wash_hz: Single::of(P300), turbine_level: Single::of(ZERO), ..RotorParams::default() }));
        r
    }

    fn new<F: Fn(Prim, Single, Single) -> Single>(fpu: &F, sample_rate: Single) -> (r: Rotor) {
        let r = Rotor {
            sr: sample_rate,
            spin: Single::of(ZERO),
            passing: Phasor::default(),
            blade: 0,
            blade_amp: Single::of(ONE),
            turbine0: Phasor::default(),
            turbine1: Phasor::default(),
            noise: Noise::new(0x43_0001),
            thump: Svf::default(),
            wash: Svf::default(),
        };
        r
    }

    fn snap<F: Fn(Prim, Single, Single) -> Single>(&mut self, fpu: &F, x: &Vec<Single>, p: &RotorParams) {
        self.spin = x[0];
    }

    fn trigger<F: Fn(Prim, Single, Single) -> Single>(&mut self, fpu: &F, x: &Vec<Single>, p: &RotorParams) {
    }

    fn is_active(&self) -> (r: bool) {
        true
    }

    fn block<F: Fn(Prim, Single, Single) -> Single>(&mut self, fpu: &F, x: &Vec<Single>, p: &RotorParams, out: &mut Vec<Single>, start: usize, end: usize) {
        let n = from_i32((end - start) as i32);
        let m = rotor_steer(fpu, *p, x, n, self);
        rotor_span(fpu, *p, m, self, out, start, end);
    }
}

/// The jet limits its own blocks.
pub proof fn lemma_jet_limits_itself(f: Sums)
    ensures
        crate::native::is_limited::<Jet>(f),
{
    assert forall|g: JetView, u: Seq<Single>, p: JetParams, x: Seq<Single>, j: int|
        0 <= j < Jet::played(g, f, u, p, x).1.len() implies crate::math::never_loud(#[trigger] Jet::played(g, f, u, p, x).1[j]) by {
        let s = jet_driven(g, f, u, p).applied(f, crate::jet::JetCommand::Damage(u[3]));
        crate::jet::lemma_block_overwrites(s, f, x, x);
        crate::jet::lemma_jet_block_in_scale(s, f, x, j);
    }
}

} // verus!
