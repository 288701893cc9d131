//! sfxr/bfxr-style procedural sound effect generators.
//!
//! Each preset returns a randomised [`Patch`] for a given seed; the same seed always yields
//! the same sound, so games can store just `(preset, seed)`.
use vstd::prelude::*;

use crate::arith::{meant, total, Prim, Sums};
use crate::filter::FilterMode;
use crate::lfo::LfoParams;
use crate::math::Rng;
use crate::osc::Waveform;
use crate::params::ParamKind;
use crate::patch::{FilterParams, FxParams, OscParams, ParamId, Patch, PitchParams};
use crate::single::{from_i32, Single, HALF, ONE, THREE, TWO, ZERO};
use crate::text::equal_ignoring_case;

verus! {

/// Pattern of -24.
pub const N24: u32 = 0xc1c0_0000;

/// Pattern of -12.
pub const N12: u32 = 0xc140_0000;

/// Pattern of -1.5.
pub const N1_5: u32 = 0xbfc0_0000;

/// Pattern of -1.
pub const N1: u32 = 0xbf80_0000;

/// Pattern of 0.01.
pub const P0_01: u32 = 0x3c23_d70a;

/// Pattern of 0.02.
pub const P0_02: u32 = 0x3ca3_d70a;

/// Pattern of 0.03.
pub const P0_03: u32 = 0x3cf5_c28f;

/// Pattern of 0.04.
pub const P0_04: u32 = 0x3d23_d70a;

/// Pattern of 0.05.
pub const P0_05: u32 = 0x3d4c_cccd;

/// Pattern of 0.08.
pub const P0_08: u32 = 0x3da3_d70a;

/// Pattern of 0.1.
pub const P0_1: u32 = 0x3dcc_cccd;

/// Pattern of 0.15.
pub const P0_15: u32 = 0x3e19_999a;

/// Pattern of 0.2.
pub const P0_2: u32 = 0x3e4c_cccd;

/// Pattern of 0.25.
pub const P0_25: u32 = 0x3e80_0000;

/// Pattern of 0.3.
pub const P0_3: u32 = 0x3e99_999a;

/// Pattern of 0.4.
pub const P0_4: u32 = 0x3ecc_cccd;

/// Pattern of 0.45.
pub const P0_45: u32 = 0x3ee6_6666;

/// Pattern of 0.6.
pub const P0_6: u32 = 0x3f19_999a;

/// Pattern of 0.7.
pub const P0_7: u32 = 0x3f33_3333;

/// Pattern of 0.8.
pub const P0_8: u32 = 0x3f4c_cccd;

/// Pattern of 0.9.
pub const P0_9: u32 = 0x3f66_6666;

/// Pattern of 0.999.
pub const P0_999: u32 = 0x3f7f_be77;

/// Pattern of 1.5.
pub const P1_5: u32 = 0x3fc0_0000;

/// Pattern of 4.
pub const P4: u32 = 0x4080_0000;

/// Pattern of 5.
pub const P5: u32 = 0x40a0_0000;

/// Pattern of 6.
pub const P6: u32 = 0x40c0_0000;

/// Pattern of 7.
pub const P7: u32 = 0x40e0_0000;

/// Pattern of 8.
pub const P8: u32 = 0x4100_0000;

/// Pattern of 10.
pub const P10: u32 = 0x4120_0000;

/// Pattern of 12.
pub const P12: u32 = 0x4140_0000;

/// Pattern of 16.
pub const P16: u32 = 0x4180_0000;

/// Pattern of 20.
pub const P20: u32 = 0x41a0_0000;

/// Pattern of 25.
pub const P25: u32 = 0x41c8_0000;

/// Pattern of 30.
pub const P30: u32 = 0x41f0_0000;

/// Pattern of 40.
pub const P40: u32 = 0x4220_0000;

/// Pattern of 45.
pub const P45: u32 = 0x4234_0000;

/// Pattern of 55.
pub const P55: u32 = 0x425c_0000;

/// Pattern of 60.
pub const P60: u32 = 0x4270_0000;

/// Pattern of 70.
pub const P70: u32 = 0x428c_0000;

/// Pattern of 72.
pub const P72: u32 = 0x4290_0000;

/// Pattern of 76.
pub const P76: u32 = 0x4298_0000;

/// Pattern of 78.
pub const P78: u32 = 0x429c_0000;

/// Pattern of 80.
pub const P80: u32 = 0x42a0_0000;

/// Pattern of 96.
pub const P96: u32 = 0x42c0_0000;

/// Pattern of 100.
pub const P100: u32 = 0x42c8_0000;

/// Pattern of 120.
pub const P120: u32 = 0x42f0_0000;

/// Pattern of 160.
pub const P160: u32 = 0x4320_0000;

/// Pattern of 300.
pub const P300: u32 = 0x4396_0000;

/// Pattern of 400.
pub const P400: u32 = 0x43c8_0000;

/// Pattern of 600.
pub const P600: u32 = 0x4416_0000;

/// Pattern of 800.
pub const P800: u32 = 0x4448_0000;

/// Pattern of 1500.
pub const P1500: u32 = 0x44bb_8000;

/// Pattern of 2000.
pub const P2000: u32 = 0x44fa_0000;

/// Pattern of 5000.
pub const P5000: u32 = 0x459c_4000;

/// Pattern of 8000.
pub const P8000: u32 = 0x45fa_0000;

/// Families of sound effects.
#[derive(Clone, Copy, Debug, PartialEq, Eq, Structural, Hash)]
pub enum SfxPreset {
    Pickup,
    Laser,
    Explosion,
    PowerUp,
    Hit,
    Jump,
    Blip,
    Arrow,
    Shoot,
    Throw,
    Random,
}

impl SfxPreset {
    /// Number of variants.
    pub const COUNT: usize = 11;

    /// Every variant, in index order.
    pub open spec fn all() -> Seq<SfxPreset> {
        seq![
            SfxPreset::Pickup,
            SfxPreset::Laser,
            SfxPreset::Explosion,
            SfxPreset::PowerUp,
            SfxPreset::Hit,
            SfxPreset::Jump,
            SfxPreset::Blip,
            SfxPreset::Arrow,
            SfxPreset::Shoot,
            SfxPreset::Throw,
            SfxPreset::Random,
        ]
    }

    /// Position in [`SfxPreset::all`].
    pub open spec fn position(self) -> int {
        match self {
            SfxPreset::Pickup => 0,
            SfxPreset::Laser => 1,
            SfxPreset::Explosion => 2,
            SfxPreset::PowerUp => 3,
            SfxPreset::Hit => 4,
            SfxPreset::Jump => 5,
            SfxPreset::Blip => 6,
            SfxPreset::Arrow => 7,
            SfxPreset::Shoot => 8,
            SfxPreset::Throw => 9,
            SfxPreset::Random => 10,
        }
    }

    /// The published name.
    pub open spec fn label(self) -> Seq<char> {
        match self {
            SfxPreset::Pickup => "Pickup"@,
            SfxPreset::Laser => "Laser"@,
            SfxPreset::Explosion => "Explosion"@,
            SfxPreset::PowerUp => "PowerUp"@,
            SfxPreset::Hit => "Hit"@,
            SfxPreset::Jump => "Jump"@,
            SfxPreset::Blip => "Blip"@,
            SfxPreset::Arrow => "Arrow"@,
            SfxPreset::Shoot => "Shoot"@,
            SfxPreset::Throw => "Throw"@,
            SfxPreset::Random => "Random"@,
        }
    }

    /// The variant at an index; every index past the end means the last one.
    pub fn from_index(i: usize) -> (r: SfxPreset)
        ensures
            r == SfxPreset::all()[if i < SfxPreset::COUNT { i as int } else { SfxPreset::COUNT - 1 }],
    {
        match i {
            0 => SfxPreset::Pickup,
            1 => SfxPreset::Laser,
            2 => SfxPreset::Explosion,
            3 => SfxPreset::PowerUp,
            4 => SfxPreset::Hit,
            5 => SfxPreset::Jump,
            6 => SfxPreset::Blip,
            7 => SfxPreset::Arrow,
            8 => SfxPreset::Shoot,
            9 => SfxPreset::Throw,
            _ => SfxPreset::Random,
        }
    }

    /// Index of the variant, the inverse of [`SfxPreset::from_index`].
    pub fn index(self) -> (r: usize)
        ensures
            r == self.position(),
            r < SfxPreset::COUNT,
            SfxPreset::all()[r as int] == self,
    {
        match self {
            SfxPreset::Pickup => 0,
            SfxPreset::Laser => 1,
            SfxPreset::Explosion => 2,
            SfxPreset::PowerUp => 3,
            SfxPreset::Hit => 4,
            SfxPreset::Jump => 5,
            SfxPreset::Blip => 6,
            SfxPreset::Arrow => 7,
            SfxPreset::Shoot => 8,
            SfxPreset::Throw => 9,
            SfxPreset::Random => 10,
        }
    }

    pub fn name(self) -> (r: &'static str)
        ensures
            r@ == self.label(),
    {
        match self {
            SfxPreset::Pickup => "Pickup",
            SfxPreset::Laser => "Laser",
            SfxPreset::Explosion => "Explosion",
            SfxPreset::PowerUp => "PowerUp",
            SfxPreset::Hit => "Hit",
            SfxPreset::Jump => "Jump",
            SfxPreset::Blip => "Blip",
            SfxPreset::Arrow => "Arrow",
            SfxPreset::Shoot => "Shoot",
            SfxPreset::Throw => "Throw",
            SfxPreset::Random => "Random",
        }
    }

    /// The variant with that name, whatever the case of its letters.
    pub fn from_name(name: &str) -> (r: Option<SfxPreset>)
        ensures
            r matches Some(p) ==> crate::text::same_word(name@, p.label()),
            r is None ==> forall|p: SfxPreset| !crate::text::same_word(name@, #[trigger] p.label()),
    {
        let mut i: usize = 0;
        while i < SfxPreset::COUNT
            invariant
                i <= SfxPreset::COUNT,
                forall|k: int| 0 <= k < i ==> !crate::text::same_word(name@, (#[trigger] SfxPreset::all()[k]).label()),
            decreases SfxPreset::COUNT - i,
        {
            let p = SfxPreset::from_index(i);
            if equal_ignoring_case(name, p.name()) {
                return Some(p);
            }
            i = i + 1;
        }
        proof {
            assert forall|p: SfxPreset| !crate::text::same_word(name@, #[trigger] p.label()) by {
                assert(SfxPreset::all()[p.position()] == p);
            }
        }
        None
    }

    /// The patch a seed makes.
    pub open spec fn generated(self, f: Sums, seed: u32) -> Patch {
        let r = Rng::seeded_with(seed ^ ((self.position() + 1) as u32).wrapping_mul(0x9E37_79B9));
        match self {
            SfxPreset::Pickup => picked_up(f, r),
            SfxPreset::Laser => lasered(f, r),
            SfxPreset::Explosion => exploded(f, r),
            SfxPreset::PowerUp => powered_up(f, r),
            SfxPreset::Hit => knocked(f, r),
            SfxPreset::Jump => jumped(f, r),
            SfxPreset::Blip => blipped(f, r),
            SfxPreset::Arrow => loosed(f, r),
            SfxPreset::Shoot => fired(f, r),
            SfxPreset::Throw => thrown(f, r),
            SfxPreset::Random => randomised(f, r),
        }
    }

    /// Generate a randomised patch for this preset.
    pub fn generate<F: Fn(Prim, Single, Single) -> Single>(self, fpu: &F, seed: u32) -> (r: Patch)
        requires
            total(*fpu),
        ensures
            forall|f: Sums| #[trigger] meant(*fpu, f) ==> r == self.generated(f, seed),
    {
        let mut rng = Rng::new(seed ^ (self.index() as u32 + 1).wrapping_mul(0x9E37_79B9));
        match self {
            SfxPreset::Pickup => pickup(fpu, &mut rng),
            SfxPreset::Laser => laser(fpu, &mut rng),
            SfxPreset::Explosion => explosion(fpu, &mut rng),
            SfxPreset::PowerUp => power_up(fpu, &mut rng),
            SfxPreset::Hit => hit(fpu, &mut rng),
            SfxPreset::Jump => jump(fpu, &mut rng),
            SfxPreset::Blip => blip(fpu, &mut rng),
            SfxPreset::Arrow => arrow(fpu, &mut rng),
            SfxPreset::Shoot => shoot(fpu, &mut rng),
            SfxPreset::Throw => throw(fpu, &mut rng),
            SfxPreset::Random => random(fpu, &mut rng),
        }
    }
}

/// Names tell the variants apart, whatever their case: each is found by its own name only.
pub proof fn lemma_sfx_names_differ(a: SfxPreset, b: SfxPreset)
    requires
        crate::text::same_word(a.label(), b.label()),
    ensures
        a == b,
{
    reveal_strlit("Pickup");
    reveal_strlit("Laser");
    reveal_strlit("Explosion");
    reveal_strlit("PowerUp");
    reveal_strlit("Hit");
    reveal_strlit("Jump");
    reveal_strlit("Blip");
    reveal_strlit("Arrow");
    reveal_strlit("Shoot");
    reveal_strlit("Throw");
    reveal_strlit("Random");
    if a != b {
        assert(a.label().len() == b.label().len());
        assert(crate::text::ascii_lower(a.label()[0]) == crate::text::ascii_lower(b.label()[0]));
    }
}

/// A number drawn between two.
pub open spec fn drawn(f: Sums, lo: Single, hi: Single, r: Rng) -> Single {
    crate::math::drawn_from(f, lo, hi, crate::math::unipolar(r.fraction()))
}

/// A draw that succeeds with a probability.
pub open spec fn luck(p: Single, r: Rng) -> bool {
    crate::math::unipolar(r.fraction()).below(p)
}

/// A patch of one oscillator without filter.
pub open spec fn blank(wave: Waveform, note: Single) -> Patch {
    let p = Patch::plain();
    Patch {
        osc1: OscParams { wave, level: Single::of(ONE), ..p.osc1 },
        filter: FilterParams { mode: FilterMode::Off, ..p.filter },
        polyphony: 4,
        base_note: note,
        gain: Single::of(P0_6),
        ..p
    }
}

/// Blank one-shot starting point: single oscillator, filter off, mono.
fn base(wave: Waveform, note: Single) -> (r: Patch)
    ensures
        r == blank(wave, note),
{
    let mut p = Patch::default();
    p.osc1.wave = wave;
    p.osc1.level = Single::of(ONE);
    p.filter.mode = FilterMode::Off;
    p.polyphony = 4;
    p.base_note = note;
    p.gain = Single::of(P0_6);
    p
}

/// A bright coin sound.
#[verifier::opaque]
pub open spec fn picked_up(f: Sums, r: Rng) -> Patch {
    let p = blank(Waveform::Square, drawn(f, Single::of(P78), Single::of(P96), r));
    let r = r.advanced();
    let lucky = luck(Single::of(HALF), r);
    let r = r.advanced();
    let (p, r) = if lucky {
        let p = Patch { osc1: OscParams { wave: Waveform::Pulse, ..p.osc1 }, ..p };
        let p = Patch { osc1: OscParams { pulse_width: drawn(f, Single::of(P0_2), Single::of(HALF), r), ..p.osc1 }, ..p };
        let r = r.advanced();
        (p, r)
    } else {
        (p, r)
    };
    let attack = Single::of(ZERO);
    let sustain = drawn(f, Single::of(P0_02), Single::of(P0_1), r);
    let r = r.advanced();
    let decay = drawn(f, Single::of(P0_15), Single::of(P0_45), r);
    let r = r.advanced();
    let p = p.with_sfx_envelope(f, attack, sustain, decay);
    let lucky = luck(Single::of(P0_6), r);
    let r = r.advanced();
    let (p, r) = if lucky {
        let p = Patch { pitch: PitchParams { arp_time: drawn(f, Single::of(P0_04), Single::of(P0_1), r), ..p.pitch }, ..p };
        let r = r.advanced();
        let k = r.advanced().state() % 5;
        let r = r.advanced();
        let p = Patch { pitch: PitchParams { arp_semitones: if k == 0 { Single::of(THREE) } else if k == 1 { Single::of(P4) } else if k == 2 { Single::of(P5) } else if k == 3 { Single::of(P7) } else { Single::of(P12) }, ..p.pitch }, ..p };
        (p, r)
    } else {
        (p, r)
    };
    p
}

fn pickup<F: Fn(Prim, Single, Single) -> Single>(fpu: &F, rng: &mut Rng) -> (r: Patch)
    requires
        total(*fpu),
    ensures
        forall|f: Sums| #[trigger] meant(*fpu, f) ==> r == picked_up(f, *old(rng)),
{
    proof {
        reveal(picked_up);
    }
    let note = rng.range(fpu, Single::of(P78), Single::of(P96));
    let mut p = base(Waveform::Square, note);
    if rng.chance(Single::of(HALF)) {
        p.osc1.wave = Waveform::Pulse;
        p.osc1.pulse_width = rng.range(fpu, Single::of(P0_2), Single::of(HALF));
    }
    let attack = Single::of(ZERO);
    let sustain = rng.range(fpu, Single::of(P0_02), Single::of(P0_1));
    let decay = rng.range(fpu, Single::of(P0_15), Single::of(P0_45));
    p.set_sfx_envelope(fpu, attack, sustain, decay);
    if rng.chance(Single::of(P0_6)) {
        p.pitch.arp_time = rng.range(fpu, Single::of(P0_04), Single::of(P0_1));
        let k: u32 = rng.next_u32() % 5;
        p.pitch.arp_semitones = if k == 0 { Single::of(THREE) } else if k == 1 { Single::of(P4) } else if k == 2 { Single::of(P5) } else if k == 3 { Single::of(P7) } else { Single::of(P12) };
    }
    p
}

/// A falling zap.
#[verifier::opaque]
pub open spec fn lasered(f: Sums, r: Rng) -> Patch {
    let k = r.advanced().state() % 4;
    let r = r.advanced();
    let wave = if k == 0 { Waveform::Square } else if k == 1 { Waveform::Saw } else if k == 2 { Waveform::Sine } else { Waveform::Pulse };
    let p = blank(wave, drawn(f, Single::of(P60), Single::of(P96), r));
    let r = r.advanced();
    let p = Patch { osc1: OscParams { pulse_width: drawn(f, Single::of(P0_1), Single::of(HALF), r), ..p.osc1 }, ..p };
    let r = r.advanced();
    let p = Patch { osc1: OscParams { pulse_width_sweep: drawn(f, Single::of(N1), Single::of(ZERO), r), ..p.osc1 }, ..p };
    let r = r.advanced();
    let p = Patch { pitch: PitchParams { slide: drawn(f, Single::of(P40), Single::of(P160), r).negated(), ..p.pitch }, ..p };
    let r = r.advanced();
    let lucky = luck(Single::of(P0_3), r);
    let r = r.advanced();
    let (p, r) = if lucky {
        let p = Patch { pitch: PitchParams { slide_accel: drawn(f, Single::of(P100), Single::of(P600), r).negated(), ..p.pitch }, ..p };
        let r = r.advanced();
        (p, r)
    } else {
        (p, r)
    };
    let attack = Single::of(ZERO);
    let sustain = drawn(f, Single::of(P0_03), Single::of(P0_15), r);
    let r = r.advanced();
    let decay = drawn(f, Single::of(P0_05), Single::of(P0_3), r);
    let r = r.advanced();
    let p = p.with_sfx_envelope(f, attack, sustain, decay);
    let lucky = luck(Single::of(P0_4), r);
    let r = r.advanced();
    let (p, r) = if lucky {
        let p = Patch { filter: FilterParams { mode: FilterMode::HighPass, ..p.filter }, ..p };
        let p = Patch { filter: FilterParams { cutoff_hz: drawn(f, Single::of(P100), Single::of(P1500), r), ..p.filter }, ..p };
        let r = r.advanced();
        let p = Patch { filter: FilterParams { resonance: drawn(f, Single::of(ZERO), Single::of(HALF), r), ..p.filter }, ..p };
        let r = r.advanced();
        (p, r)
    } else {
        (p, r)
    };
    let lucky = luck(Single::of(P0_3), r);
    let r = r.advanced();
    let (p, r) = if lucky {
        let p = Patch { osc2: OscParams { wave: p.osc1.wave, ..p.osc2 }, ..p };
        let p = Patch { osc2: OscParams { level: Single::of(HALF), ..p.osc2 }, ..p };
        let p = Patch { osc2: OscParams { detune_cents: drawn(f, Single::of(P5), Single::of(P25), r), ..p.osc2 }, ..p };
        let r = r.advanced();
        (p, r)
    } else {
        (p, r)
    };
    p
}

fn laser<F: Fn(Prim, Single, Single) -> Single>(fpu: &F, rng: &mut Rng) -> (r: Patch)
    requires
        total(*fpu),
    ensures
        forall|f: Sums| #[trigger] meant(*fpu, f) ==> r == lasered(f, *old(rng)),
{
    proof {
        reveal(lasered);
    }
    let k: u32 = rng.next_u32() % 4;
    let wave = if k == 0 { Waveform::Square } else if k == 1 { Waveform::Saw } else if k == 2 { Waveform::Sine } else { Waveform::Pulse };
    let note = rng.range(fpu, Single::of(P60), Single::of(P96));
    let mut p = base(wave, note);
    p.osc1.pulse_width = rng.range(fpu, Single::of(P0_1), Single::of(HALF));
    p.osc1.pulse_width_sweep = rng.range(fpu, Single::of(N1), Single::of(ZERO));
    p.pitch.slide = rng.range(fpu, Single::of(P40), Single::of(P160)).neg();
    if rng.chance(Single::of(P0_3)) {
        p.pitch.slide_accel = rng.range(fpu, Single::of(P100), Single::of(P600)).neg();
    }
    let attack = Single::of(ZERO);
    let sustain = rng.range(fpu, Single::of(P0_03), Single::of(P0_15));
    let decay = rng.range(fpu, Single::of(P0_05), Single::of(P0_3));
    p.set_sfx_envelope(fpu, attack, sustain, decay);
    if rng.chance(Single::of(P0_4)) {
        p.filter.mode = FilterMode::HighPass;
        p.filter.cutoff_hz = rng.range(fpu, Single::of(P100), Single::of(P1500));
        p.filter.resonance = rng.range(fpu, Single::of(ZERO), Single::of(HALF));
    }
    if rng.chance(Single::of(P0_3)) {
        p.osc2.wave = p.osc1.wave;
        p.osc2.level = Single::of(HALF);
        p.osc2.detune_cents = rng.range(fpu, Single::of(P5), Single::of(P25));
    }
    p
}

/// Noise that falls, sometimes over a thump.
#[verifier::opaque]
pub open spec fn exploded(f: Sums, r: Rng) -> Patch {
    let wave = if luck(Single::of(HALF), r) { Waveform::WhiteNoise } else { Waveform::PinkNoise };
    let r = r.advanced();
    let p = blank(wave, Single::of(P60));
    let attack = drawn(f, Single::of(ZERO), Single::of(P0_01), r);
    let r = r.advanced();
    let sustain = drawn(f, Single::of(P0_05), Single::of(P0_3), r);
    let r = r.advanced();
    let decay = drawn(f, Single::of(P0_3), Single::of(P0_9), r);
    let r = r.advanced();
    let p = p.with_sfx_envelope(f, attack, sustain, decay);
    let p = Patch { filter: FilterParams { mode: FilterMode::LowPass, ..p.filter }, ..p };
    let p = Patch { filter: FilterParams { cutoff_hz: drawn(f, Single::of(P800), Single::of(P5000), r), ..p.filter }, ..p };
    let r = r.advanced();
    let p = Patch { filter: FilterParams { resonance: drawn(f, Single::of(P0_1), Single::of(P0_6), r), ..p.filter }, ..p };
    let r = r.advanced();
    let p = Patch { filter: FilterParams { sweep: drawn(f, Single::of(ONE), Single::of(P6), r).negated(), ..p.filter }, ..p };
    let r = r.advanced();
    let lucky = luck(Single::of(HALF), r);
    let r = r.advanced();
    let (p, r) = if lucky {
        let p = Patch { fx: FxParams { drive: drawn(f, Single::of(P0_2), Single::of(P0_7), r), ..p.fx }, ..p };
        let r = r.advanced();
        (p, r)
    } else {
        (p, r)
    };
    let lucky = luck(Single::of(P0_3), r);
    let r = r.advanced();
    let (p, r) = if lucky {
        let p = Patch { fx: FxParams { downsample: drawn(f, Single::of(TWO), Single::of(P8), r), ..p.fx }, ..p };
        let r = r.advanced();
        (p, r)
    } else {
        (p, r)
    };
    let lucky = luck(Single::of(P0_3), r);
    let r = r.advanced();
    let (p, r) = if lucky {
        let p = Patch { lfo: LfoParams { amp: drawn(f, Single::of(P0_3), Single::of(P0_8), r), ..p.lfo }, ..p };
        let r = r.advanced();
        let p = Patch { lfo: LfoParams { rate_hz: drawn(f, Single::of(P8), Single::of(P30), r), ..p.lfo }, ..p };
        let r = r.advanced();
        (p, r)
    } else {
        (p, r)
    };
    let lucky = luck(Single::of(HALF), r);
    let r = r.advanced();
    let (p, r) = if lucky {
        let p = Patch { osc2: OscParams { wave: Waveform::Sine, ..p.osc2 }, ..p };
        let p = Patch { osc2: OscParams { level: drawn(f, Single::of(P0_3), Single::of(P0_8), r), ..p.osc2 }, ..p };
        let r = r.advanced();
        let p = Patch { osc2: OscParams { semitones: drawn(f, Single::of(N24), Single::of(N12), r), ..p.osc2 }, ..p };
        let r = r.advanced();
        let p = Patch { pitch: PitchParams { slide: drawn(f, Single::of(P20), Single::of(P80), r).negated(), ..p.pitch }, ..p };
        let r = r.advanced();
        (p, r)
    } else {
        (p, r)
    };
    let p = Patch { gain: Single::of(P0_7), ..p };
    p
}

fn explosion<F: Fn(Prim, Single, Single) -> Single>(fpu: &F, rng: &mut Rng) -> (r: Patch)
    requires
        total(*fpu),
    ensures
        forall|f: Sums| #[trigger] meant(*fpu, f) ==> r == exploded(f, *old(rng)),
{
    proof {
        reveal(exploded);
    }
    let wave = if rng.chance(Single::of(HALF)) { Waveform::WhiteNoise } else { Waveform::PinkNoise };
    let mut p = base(wave, Single::of(P60));
    let attack = rng.range(fpu, Single::of(ZERO), Single::of(P0_01));
    let sustain = rng.range(fpu, Single::of(P0_05), Single::of(P0_3));
    let decay = rng.range(fpu, Single::of(P0_3), Single::of(P0_9));
    p.set_sfx_envelope(fpu, attack, sustain, decay);
    p.filter.mode = FilterMode::LowPass;
    p.filter.cutoff_hz = rng.range(fpu, Single::of(P800), Single::of(P5000));
    p.filter.resonance = rng.range(fpu, Single::of(P0_1), Single::of(P0_6));
    p.filter.sweep = rng.range(fpu, Single::of(ONE), Single::of(P6)).neg();
    if rng.chance(Single::of(HALF)) {
        p.fx.drive = rng.range(fpu, Single::of(P0_2), Single::of(P0_7));
    }
    if rng.chance(Single::of(P0_3)) {
        p.fx.downsample = rng.range(fpu, Single::of(TWO), Single::of(P8));
    }
    if rng.chance(Single::of(P0_3)) {
        p.lfo.amp = rng.range(fpu, Single::of(P0_3), Single::of(P0_8));
        p.lfo.rate_hz = rng.range(fpu, Single::of(P8), Single::of(P30));
    }
    if rng.chance(Single::of(HALF)) {
        p.osc2.wave = Waveform::Sine;
        p.osc2.level = rng.range(fpu, Single::of(P0_3), Single::of(P0_8));
        p.osc2.semitones = rng.range(fpu, Single::of(N24), Single::of(N12));
        p.pitch.slide = rng.range(fpu, Single::of(P20), Single::of(P80)).neg();
    }
    p.gain = Single::of(P0_7);
    p
}

/// A rising tone.
#[verifier::opaque]
pub open spec fn powered_up(f: Sums, r: Rng) -> Patch {
    let wave = if luck(Single::of(HALF), r) { Waveform::Saw } else { Waveform::Square };
    let r = r.advanced();
    let p = blank(wave, drawn(f, Single::of(P55), Single::of(P76), r));
    let r = r.advanced();
    let lucky = luck(Single::of(HALF), r);
    let r = r.advanced();
    let (p, r) = if lucky {
        let p = Patch { pitch: PitchParams { slide: drawn(f, Single::of(P20), Single::of(P70), r), ..p.pitch }, ..p };
        let r = r.advanced();
        let p = Patch { pitch: PitchParams { slide_accel: drawn(f, Single::of(ZERO), Single::of(P120), r), ..p.pitch }, ..p };
        let r = r.advanced();
        (p, r)
    } else {
        let p = Patch { pitch: PitchParams { slide: drawn(f, Single::of(P10), Single::of(P40), r), ..p.pitch }, ..p };
        let r = r.advanced();
        let p = Patch { pitch: PitchParams { vibrato_rate: drawn(f, Single::of(P6), Single::of(P16), r), ..p.pitch }, ..p };
        let r = r.advanced();
        let p = Patch { pitch: PitchParams { vibrato_depth: drawn(f, Single::of(HALF), Single::of(THREE), r), ..p.pitch }, ..p };
        let r = r.advanced();
        (p, r)
    };
    let lucky = luck(Single::of(HALF), r);
    let r = r.advanced();
    let (p, r) = if lucky {
        let p = Patch { pitch: PitchParams { arp_time: drawn(f, Single::of(P0_1), Single::of(P0_25), r), ..p.pitch }, ..p };
        let r = r.advanced();
        let k = r.advanced().state() % 3;
        let r = r.advanced();
        let p = Patch { pitch: PitchParams { arp_semitones: if k == 0 { Single::of(P5) } else if k == 1 { Single::of(P7) } else { Single::of(P12) }, ..p.pitch }, ..p };
        (p, r)
    } else {
        (p, r)
    };
    let attack = Single::of(ZERO);
    let sustain = drawn(f, Single::of(P0_2), Single::of(P0_45), r);
    let r = r.advanced();
    let decay = drawn(f, Single::of(P0_15), Single::of(P0_45), r);
    let r = r.advanced();
    let p = p.with_sfx_envelope(f, attack, sustain, decay);
    p
}

fn power_up<F: Fn(Prim, Single, Single) -> Single>(fpu: &F, rng: &mut Rng) -> (r: Patch)
    requires
        total(*fpu),
    ensures
        forall|f: Sums| #[trigger] meant(*fpu, f) ==> r == powered_up(f, *old(rng)),
{
    proof {
        reveal(powered_up);
    }
    let wave = if rng.chance(Single::of(HALF)) { Waveform::Saw } else { Waveform::Square };
    let note = rng.range(fpu, Single::of(P55), Single::of(P76));
    let mut p = base(wave, note);
    if rng.chance(Single::of(HALF)) {
        p.pitch.slide = rng.range(fpu, Single::of(P20), Single::of(P70));
        p.pitch.slide_accel = rng.range(fpu, Single::of(ZERO), Single::of(P120));
    } else {
        p.pitch.slide = rng.range(fpu, Single::of(P10), Single::of(P40));
        p.pitch.vibrato_rate = rng.range(fpu, Single::of(P6), Single::of(P16));
        p.pitch.vibrato_depth = rng.range(fpu, Single::of(HALF), Single::of(THREE));
    }
    if rng.chance(Single::of(HALF)) {
        p.pitch.arp_time = rng.range(fpu, Single::of(P0_1), Single::of(P0_25));
        let k: u32 = rng.next_u32() % 3;
        p.pitch.arp_semitones = if k == 0 { Single::of(P5) } else if k == 1 { Single::of(P7) } else { Single::of(P12) };
    }
    let attack = Single::of(ZERO);
    let sustain = rng.range(fpu, Single::of(P0_2), Single::of(P0_45));
    let decay = rng.range(fpu, Single::of(P0_15), Single::of(P0_45));
    p.set_sfx_envelope(fpu, attack, sustain, decay);
    p
}

/// A short falling knock.
#[verifier::opaque]
pub open spec fn knocked(f: Sums, r: Rng) -> Patch {
    let k = r.advanced().state() % 3;
    let r = r.advanced();
    let wave = if k == 0 { Waveform::WhiteNoise } else if k == 1 { Waveform::Square } else { Waveform::Saw };
    let p = blank(wave, drawn(f, Single::of(P45), Single::of(P70), r));
    let r = r.advanced();
    let p = Patch { pitch: PitchParams { slide: drawn(f, Single::of(P120), Single::of(P300), r).negated(), ..p.pitch }, ..p };
    let r = r.advanced();
    let attack = Single::of(ZERO);
    let sustain = drawn(f, Single::of(P0_01), Single::of(P0_08), r);
    let r = r.advanced();
    let decay = drawn(f, Single::of(P0_08), Single::of(P0_25), r);
    let r = r.advanced();
    let p = p.with_sfx_envelope(f, attack, sustain, decay);
    let lucky = luck(Single::of(HALF), r);
    let r = r.advanced();
    let (p, r) = if lucky {
        let p = Patch { filter: FilterParams { mode: FilterMode::HighPass, ..p.filter }, ..p };
        let p = Patch { filter: FilterParams { cutoff_hz: drawn(f, Single::of(P100), Single::of(P800), r), ..p.filter }, ..p };
        let r = r.advanced();
        (p, r)
    } else {
        (p, r)
    };
    let lucky = wave != Waveform::WhiteNoise && luck(Single::of(HALF), r);
    let r = if wave != Waveform::WhiteNoise { r.advanced() } else { r };
    let (p, r) = if lucky {
        let p = Patch { osc2: OscParams { wave: Waveform::WhiteNoise, ..p.osc2 }, ..p };
        let p = Patch { osc2: OscParams { level: drawn(f, Single::of(P0_3), Single::of(P0_7), r), ..p.osc2 }, ..p };
        let r = r.advanced();
        (p, r)
    } else {
        (p, r)
    };
    let p = Patch { fx: FxParams { drive: drawn(f, Single::of(ZERO), Single::of(P0_4), r), ..p.fx }, ..p };
    let r = r.advanced();
    p
}

fn hit<F: Fn(Prim, Single, Single) -> Single>(fpu: &F, rng: &mut Rng) -> (r: Patch)
    requires
        total(*fpu),
    ensures
        forall|f: Sums| #[trigger] meant(*fpu, f) ==> r == knocked(f, *old(rng)),
{
    proof {
        reveal(knocked);
    }
    let k: u32 = rng.next_u32() % 3;
    let wave = if k == 0 { Waveform::WhiteNoise } else if k == 1 { Waveform::Square } else { Waveform::Saw };
    let note = rng.range(fpu, Single::of(P45), Single::of(P70));
    let mut p = base(wave, note);
    p.pitch.slide = rng.range(fpu, Single::of(P120), Single::of(P300)).neg();
    let attack = Single::of(ZERO);
    let sustain = rng.range(fpu, Single::of(P0_01), Single::of(P0_08));
    let decay = rng.range(fpu, Single::of(P0_08), Single::of(P0_25));
    p.set_sfx_envelope(fpu, attack, sustain, decay);
    if rng.chance(Single::of(HALF)) {
        p.filter.mode = FilterMode::HighPass;
        p.filter.cutoff_hz = rng.range(fpu, Single::of(P100), Single::of(P800));
    }
    if wave != Waveform::WhiteNoise && rng.chance(Single::of(HALF)) {
        p.osc2.wave = Waveform::WhiteNoise;
        p.osc2.level = rng.range(fpu, Single::of(P0_3), Single::of(P0_7));
    }
    p.fx.drive = rng.range(fpu, Single::of(ZERO), Single::of(P0_4));
    p
}

/// A rising hop.
#[verifier::opaque]
pub open spec fn jumped(f: Sums, r: Rng) -> Patch {
    let p = blank(Waveform::Pulse, drawn(f, Single::of(P55), Single::of(P72), r));
    let r = r.advanced();
    let p = Patch { osc1: OscParams { pulse_width: drawn(f, Single::of(P0_25), Single::of(P0_6), r), ..p.osc1 }, ..p };
    let r = r.advanced();
    let p = Patch { pitch: PitchParams { slide: drawn(f, Single::of(P30), Single::of(P80), r), ..p.pitch }, ..p };
    let r = r.advanced();
    let attack = Single::of(ZERO);
    let sustain = drawn(f, Single::of(P0_1), Single::of(P0_3), r);
    let r = r.advanced();
    let decay = drawn(f, Single::of(P0_1), Single::of(P0_25), r);
    let r = r.advanced();
    let p = p.with_sfx_envelope(f, attack, sustain, decay);
    let lucky = luck(Single::of(P0_3), r);
    let r = r.advanced();
    let (p, r) = if lucky {
        let p = Patch { filter: FilterParams { mode: FilterMode::HighPass, ..p.filter }, ..p };
        let p = Patch { filter: FilterParams { cutoff_hz: drawn(f, Single::of(P100), Single::of(P600), r), ..p.filter }, ..p };
        let r = r.advanced();
        (p, r)
    } else {
        (p, r)
    };
    let lucky = luck(Single::of(P0_3), r);
    let r = r.advanced();
    let (p, r) = if lucky {
        let p = Patch { filter: FilterParams { mode: FilterMode::LowPass, ..p.filter }, ..p };
        let p = Patch { filter: FilterParams { cutoff_hz: drawn(f, Single::of(P2000), Single::of(P8000), r), ..p.filter }, ..p };
        let r = r.advanced();
        (p, r)
    } else {
        (p, r)
    };
    p
}

fn jump<F: Fn(Prim, Single, Single) -> Single>(fpu: &F, rng: &mut Rng) -> (r: Patch)
    requires
        total(*fpu),
    ensures
        forall|f: Sums| #[trigger] meant(*fpu, f) ==> r == jumped(f, *old(rng)),
{
    proof {
        reveal(jumped);
    }
    let note = rng.range(fpu, Single::of(P55), Single::of(P72));
    let mut p = base(Waveform::Pulse, note);
    p.osc1.pulse_width = rng.range(fpu, Single::of(P0_25), Single::of(P0_6));
    p.pitch.slide = rng.range(fpu, Single::of(P30), Single::of(P80));
    let attack = Single::of(ZERO);
    let sustain = rng.range(fpu, Single::of(P0_1), Single::of(P0_3));
    let decay = rng.range(fpu, Single::of(P0_1), Single::of(P0_25));
    p.set_sfx_envelope(fpu, attack, sustain, decay);
    if rng.chance(Single::of(P0_3)) {
        p.filter.mode = FilterMode::HighPass;
        p.filter.cutoff_hz = rng.range(fpu, Single::of(P100), Single::of(P600));
    }
    if rng.chance(Single::of(P0_3)) {
        p.filter.mode = FilterMode::LowPass;
        p.filter.cutoff_hz = rng.range(fpu, Single::of(P2000), Single::of(P8000));
    }
    p
}

/// A menu blip.
#[verifier::opaque]
pub open spec fn blipped(f: Sums, r: Rng) -> Patch {
    let wave = if luck(Single::of(HALF), r) { Waveform::Square } else { Waveform::Saw };
    let r = r.advanced();
    let p = blank(wave, drawn(f, Single::of(P72), Single::of(P96), r));
    let r = r.advanced();
    let p = Patch { osc1: OscParams { pulse_width: drawn(f, Single::of(P0_2), Single::of(HALF), r), ..p.osc1 }, ..p };
    let r = r.advanced();
    let attack = Single::of(ZERO);
    let sustain = drawn(f, Single::of(P0_01), Single::of(P0_08), r);
    let r = r.advanced();
    let decay = drawn(f, Single::of(P0_02), Single::of(P0_1), r);
    let r = r.advanced();
    let p = p.with_sfx_envelope(f, attack, sustain, decay);
    let p = Patch { filter: FilterParams { mode: FilterMode::HighPass, ..p.filter }, ..p };
    let p = Patch { filter: FilterParams { cutoff_hz: drawn(f, Single::of(P100), Single::of(P400), r), ..p.filter }, ..p };
    let r = r.advanced();
    p
}

fn blip<F: Fn(Prim, Single, Single) -> Single>(fpu: &F, rng: &mut Rng) -> (r: Patch)
    requires
        total(*fpu),
    ensures
        forall|f: Sums| #[trigger] meant(*fpu, f) ==> r == blipped(f, *old(rng)),
{
    proof {
        reveal(blipped);
    }
    let wave = if rng.chance(Single::of(HALF)) { Waveform::Square } else { Waveform::Saw };
    let note = rng.range(fpu, Single::of(P72), Single::of(P96));
    let mut p = base(wave, note);
    p.osc1.pulse_width = rng.range(fpu, Single::of(P0_2), Single::of(HALF));
    let attack = Single::of(ZERO);
    let sustain = rng.range(fpu, Single::of(P0_01), Single::of(P0_08));
    let decay = rng.range(fpu, Single::of(P0_02), Single::of(P0_1));
    p.set_sfx_envelope(fpu, attack, sustain, decay);
    p.filter.mode = FilterMode::HighPass;
    p.filter.cutoff_hz = rng.range(fpu, Single::of(P100), Single::of(P400));
    p
}

/// An arrow loosed: the hiss of the shaft over the twang of the string.
#[verifier::opaque]
pub open spec fn loosed(f: Sums, r: Rng) -> Patch {
    let p = blank(Waveform::WhiteNoise, drawn(f, Single::of(P45), Single::of(P60), r));
    let r = r.advanced();
    let p = Patch {
        filter: FilterParams {
            mode: FilterMode::HighPass,
            cutoff_hz: drawn(f, Single::of(P800), Single::of(P2000), r),
            resonance: drawn(f, Single::of(ZERO), Single::of(HALF), r.advanced()),
            ..p.filter
        },
        ..p
    };
    let r = r.advanced().advanced();
    let p = Patch {
        osc2: OscParams { wave: Waveform::Triangle, level: drawn(f, Single::of(P0_3), Single::of(P0_7), r), ..p.osc2 },
        pitch: PitchParams { slide: drawn(f, Single::of(P30), Single::of(P80), r.advanced()).negated(), ..p.pitch },
        ..p
    };
    let r = r.advanced().advanced();
    let attack = Single::of(ZERO);
    let sustain = drawn(f, Single::of(P0_02), Single::of(P0_08), r);
    let r = r.advanced();
    let decay = drawn(f, Single::of(P0_1), Single::of(P0_3), r);
    p.with_sfx_envelope(f, attack, sustain, decay)
}

fn arrow<F: Fn(Prim, Single, Single) -> Single>(fpu: &F, rng: &mut Rng) -> (r: Patch)
    requires
        total(*fpu),
    ensures
        forall|f: Sums| #[trigger] meant(*fpu, f) ==> r == loosed(f, *old(rng)),
{
    proof {
        reveal(loosed);
    }
    let note = rng.range(fpu, Single::of(P45), Single::of(P60));
    let mut p = base(Waveform::WhiteNoise, note);
    p.filter.mode = FilterMode::HighPass;
    p.filter.cutoff_hz = rng.range(fpu, Single::of(P800), Single::of(P2000));
    p.filter.resonance = rng.range(fpu, Single::of(ZERO), Single::of(HALF));
    p.osc2.wave = Waveform::Triangle;
    p.osc2.level = rng.range(fpu, Single::of(P0_3), Single::of(P0_7));
    p.pitch.slide = rng.range(fpu, Single::of(P30), Single::of(P80)).neg();
    let attack = Single::of(ZERO);
    let sustain = rng.range(fpu, Single::of(P0_02), Single::of(P0_08));
    let decay = rng.range(fpu, Single::of(P0_1), Single::of(P0_3));
    p.set_sfx_envelope(fpu, attack, sustain, decay);
    p
}

/// A shot: a burst of noise over a tone that drops away.
#[verifier::opaque]
pub open spec fn fired(f: Sums, r: Rng) -> Patch {
    let p = blank(Waveform::WhiteNoise, drawn(f, Single::of(P45), Single::of(P70), r));
    let r = r.advanced();
    let p = Patch {
        osc2: OscParams { wave: Waveform::Square, level: drawn(f, Single::of(P0_4), Single::of(P0_8), r), ..p.osc2 },
        pitch: PitchParams { slide: drawn(f, Single::of(P120), Single::of(P300), r.advanced()).negated(), ..p.pitch },
        ..p
    };
    let r = r.advanced().advanced();
    let p = Patch {
        filter: FilterParams {
            mode: FilterMode::LowPass,
            cutoff_hz: drawn(f, Single::of(P2000), Single::of(P8000), r),
            resonance: drawn(f, Single::of(ZERO), Single::of(P0_3), r.advanced()),
            ..p.filter
        },
        ..p
    };
    let r = r.advanced().advanced();
    let attack = Single::of(ZERO);
    let sustain = drawn(f, Single::of(P0_01), Single::of(P0_05), r);
    let r = r.advanced();
    let decay = drawn(f, Single::of(P0_1), Single::of(P0_3), r);
    let r = r.advanced();
    let p = p.with_sfx_envelope(f, attack, sustain, decay);
    Patch { fx: FxParams { drive: drawn(f, Single::of(P0_2), Single::of(P0_6), r), ..p.fx }, ..p }
}

fn shoot<F: Fn(Prim, Single, Single) -> Single>(fpu: &F, rng: &mut Rng) -> (r: Patch)
    requires
        total(*fpu),
    ensures
        forall|f: Sums| #[trigger] meant(*fpu, f) ==> r == fired(f, *old(rng)),
{
    proof {
        reveal(fired);
    }
    let note = rng.range(fpu, Single::of(P45), Single::of(P70));
    let mut p = base(Waveform::WhiteNoise, note);
    p.osc2.wave = Waveform::Square;
    p.osc2.level = rng.range(fpu, Single::of(P0_4), Single::of(P0_8));
    p.pitch.slide = rng.range(fpu, Single::of(P120), Single::of(P300)).neg();
    p.filter.mode = FilterMode::LowPass;
    p.filter.cutoff_hz = rng.range(fpu, Single::of(P2000), Single::of(P8000));
    p.filter.resonance = rng.range(fpu, Single::of(ZERO), Single::of(P0_3));
    let attack = Single::of(ZERO);
    let sustain = rng.range(fpu, Single::of(P0_01), Single::of(P0_05));
    let decay = rng.range(fpu, Single::of(P0_1), Single::of(P0_3));
    p.set_sfx_envelope(fpu, attack, sustain, decay);
    p.fx.drive = rng.range(fpu, Single::of(P0_2), Single::of(P0_6));
    p
}

/// A throw: a band of noise that swells and rises.
#[verifier::opaque]
pub open spec fn thrown(f: Sums, r: Rng) -> Patch {
    let p = blank(Waveform::WhiteNoise, drawn(f, Single::of(P55), Single::of(P72), r));
    let r = r.advanced();
    let p = Patch {
        filter: FilterParams {
            mode: FilterMode::BandPass,
            cutoff_hz: drawn(f, Single::of(P400), Single::of(P1500), r),
            resonance: drawn(f, Single::of(P0_2), Single::of(P0_6), r.advanced()),
            sweep: drawn(f, Single::of(ONE), Single::of(P5), r.advanced().advanced()),
            ..p.filter
        },
        ..p
    };
    let r = r.advanced().advanced().advanced();
    let attack = drawn(f, Single::of(P0_03), Single::of(P0_1), r);
    let r = r.advanced();
    let sustain = drawn(f, Single::of(P0_02), Single::of(P0_1), r);
    let r = r.advanced();
    let decay = drawn(f, Single::of(P0_1), Single::of(P0_3), r);
    p.with_sfx_envelope(f, attack, sustain, decay)
}

fn throw<F: Fn(Prim, Single, Single) -> Single>(fpu: &F, rng: &mut Rng) -> (r: Patch)
    requires
        total(*fpu),
    ensures
        forall|f: Sums| #[trigger] meant(*fpu, f) ==> r == thrown(f, *old(rng)),
{
    proof {
        reveal(thrown);
    }
    let note = rng.range(fpu, Single::of(P55), Single::of(P72));
    let mut p = base(Waveform::WhiteNoise, note);
    p.filter.mode = FilterMode::BandPass;
    p.filter.cutoff_hz = rng.range(fpu, Single::of(P400), Single::of(P1500));
    p.filter.resonance = rng.range(fpu, Single::of(P0_2), Single::of(P0_6));
    p.filter.sweep = rng.range(fpu, Single::of(ONE), Single::of(P5));
    let attack = rng.range(fpu, Single::of(P0_03), Single::of(P0_1));
    let sustain = rng.range(fpu, Single::of(P0_02), Single::of(P0_1));
    let decay = rng.range(fpu, Single::of(P0_1), Single::of(P0_3));
    p.set_sfx_envelope(fpu, attack, sustain, decay);
    p
}

/// A value drawn from a range.
pub open spec fn drawn_value(f: Sums, kind: ParamKind, r: Rng) -> Single {
    let t = crate::math::unipolar(r.fraction());
    match kind {
        ParamKind::Float { min, max, .. } => f(Prim::Add, min, f(Prim::Mul, f(Prim::Mul, f(Prim::Sub, max, min), t), t)),
        ParamKind::Exp { min, max } => f(Prim::Mul, min, f(Prim::Pow, f(Prim::Div, max, min), t)),
        ParamKind::Int { min, max } => {
            let (lo, hi) = (crate::single::signed_integer(min as int), crate::single::signed_integer(max as int));
            let v = drawn(f, lo, f(Prim::Add, hi, Single::of(P0_999)), r);
            f(Prim::Floor, v, Single::of(ZERO))
        },
        ParamKind::Enum(names) => crate::single::signed_integer((r.advanced().state() as int) % (names.labels().len() as int)),
    }
}

fn random_value<F: Fn(Prim, Single, Single) -> Single>(fpu: &F, rng: &mut Rng, kind: ParamKind) -> (r: Single)
    requires
        total(*fpu),
        kind.wf(),
    ensures
        *final(rng) == old(rng).advanced(),
        forall|f: Sums| #[trigger] meant(*fpu, f) ==> r == drawn_value(f, kind, *old(rng)),
{
    match kind {
        ParamKind::Float { min, max, .. } => {
            // Bias towards the low end so extreme values are rare.
            let t = rng.next_f32();
            fpu(Prim::Add, min, fpu(Prim::Mul, fpu(Prim::Mul, fpu(Prim::Sub, max, min), t), t))
        },
        ParamKind::Exp { min, max } => {
            let t = rng.next_f32();
            fpu(Prim::Mul, min, fpu(Prim::Pow, fpu(Prim::Div, max, min), t))
        },
        ParamKind::Int { min, max } => {
            let (lo, hi) = (from_i32(min), from_i32(max));
            let v = rng.range(fpu, lo, fpu(Prim::Add, hi, Single::of(P0_999)));
            fpu(Prim::Floor, v, Single::of(ZERO))
        },
        ParamKind::Enum(names) => {
            let count = names.count();
            let k: usize = rng.next_u32() as usize % count;
            from_i32(k as i32)
        },
    }
}

/// Random patches keep the loudness of the blank one.
pub open spec fn settled(id: ParamId) -> bool {
    id == ParamId::Gain || id == ParamId::Polyphony || id == ParamId::VelocitySens
}

/// A patch with the first `k` parameters drawn, and the generator after that.
pub open spec fn scrambled(f: Sums, p: Patch, r: Rng, k: nat) -> (Patch, Rng)
    decreases k,
{
    if k == 0 {
        (p, r)
    } else {
        let (q, s) = scrambled(f, p, r, (k - 1) as nat);
        let id = ParamId::all()[k - 1];
        if settled(id) {
            (q, s)
        } else {
            let v = drawn_value(f, id.range(), s);
            (if v.finite() {
                q.with(id, v)
            } else {
                q
            }, s.advanced())
        }
    }
}

fn scramble<F: Fn(Prim, Single, Single) -> Single>(fpu: &F, rng: &mut Rng, p: &mut Patch)
    requires
        total(*fpu),
    ensures
        forall|f: Sums| #[trigger] meant(*fpu, f) ==> (*final(p), *final(rng)) == scrambled(f, *old(p), *old(rng), ParamId::COUNT as nat),
{
    let mut k: usize = 0;
    while k < ParamId::COUNT
        invariant
            k <= ParamId::COUNT,
            total(*fpu),
            forall|f: Sums| #[trigger] meant(*fpu, f) ==> (*p, *rng) == scrambled(f, *old(p), *old(rng), k as nat),
        decreases ParamId::COUNT - k,
    {
        let id = ParamId::nth(k);
        k = k + 1;
        if id == ParamId::Gain || id == ParamId::Polyphony || id == ParamId::VelocitySens {
            continue;
        }
        let v = random_value(fpu, rng, id.kind());
        p.set(id, v);
    }
}

/// Every parameter drawn at random, kept audible and short.
#[verifier::opaque]
pub open spec fn randomised(f: Sums, r: Rng) -> Patch {
    let (p, r) = scrambled(f, blank(Waveform::Square, Single::of(P60)), r, ParamId::COUNT as nat);
    let p = Patch {
        osc1: OscParams { level: Single::of(ONE), ..p.osc1 },
        base_note: drawn(f, Single::of(P40), Single::of(P96), r),
        ..p
    };
    let r = r.advanced();
    let attack = drawn(f, Single::of(ZERO), Single::of(P0_05), r);
    let r = r.advanced();
    let sustain = drawn(f, Single::of(P0_02), Single::of(P0_4), r);
    let r = r.advanced();
    let decay = drawn(f, Single::of(P0_05), Single::of(P0_6), r);
    let r = r.advanced();
    let p = p.with_sfx_envelope(f, attack, sustain, decay);
    let p = Patch {
        fx: FxParams {
            delay_mix: f(Prim::Mul, p.fx.delay_mix, Single::of(HALF)),
            delay_feedback: p.fx.delay_feedback.smaller(Single::of(HALF)),
            delay_time: p.fx.delay_time.smaller(Single::of(P0_3)),
            ..p.fx
        },
        ..p
    };
    if p.filter.mode != FilterMode::Off && luck(Single::of(HALF), r) {
        Patch { filter: FilterParams { mode: FilterMode::Off, ..p.filter }, ..p }
    } else {
        p
    }
}

fn random<F: Fn(Prim, Single, Single) -> Single>(fpu: &F, rng: &mut Rng) -> (r: Patch)
    requires
        total(*fpu),
    ensures
        forall|f: Sums| #[trigger] meant(*fpu, f) ==> r == randomised(f, *old(rng)),
{
    proof {
        reveal(randomised);
    }
    let mut p = base(Waveform::Square, Single::of(P60));
    scramble(fpu, rng, &mut p);
    // Keep it a one-shot and audible.
    p.osc1.level = Single::of(ONE);
    p.base_note = rng.range(fpu, Single::of(P40), Single::of(P96));
    let attack = rng.range(fpu, Single::of(ZERO), Single::of(P0_05));
    let sustain = rng.range(fpu, Single::of(P0_02), Single::of(P0_4));
    let decay = rng.range(fpu, Single::of(P0_05), Single::of(P0_6));
    p.set_sfx_envelope(fpu, attack, sustain, decay);
    // Long feedback tails would keep a one-shot alive for many seconds.
    p.fx.delay_mix = fpu(Prim::Mul, p.fx.delay_mix, Single::of(HALF));
    p.fx.delay_feedback = p.fx.delay_feedback.min(Single::of(HALF));
    p.fx.delay_time = p.fx.delay_time.min(Single::of(P0_3));
    if p.filter.mode != FilterMode::Off && rng.chance(Single::of(HALF)) {
        p.filter.mode = FilterMode::Off;
    }
    p
}

/// A value moved a little, and the generator after that.
pub open spec fn nudged(f: Sums, kind: ParamKind, v: Single, amount: Single, r: Rng) -> (Single, Rng) {
    let t = crate::math::bipolar(r.fraction());
    match kind {
        ParamKind::Float { min, max, .. } => (f(Prim::Add, v, f(Prim::Mul, f(Prim::Mul, f(Prim::Mul, f(Prim::Sub, max, min), amount), Single::of(P0_1)), t)), r.advanced()),
        ParamKind::Exp { .. } => (f(Prim::Mul, v, f(Prim::Add, Single::of(ONE), f(Prim::Mul, f(Prim::Mul, amount, Single::of(HALF)), t))), r.advanced()),
        _ => {
            if luck(f(Prim::Mul, amount, Single::of(P0_2)), r) {
                let step = drawn(f, Single::of(N1_5), Single::of(P1_5), r.advanced());
                (f(Prim::Add, v, f(Prim::Round, step, Single::of(ZERO))), r.advanced().advanced())
            } else {
                (v, r.advanced())
            }
        },
    }
}

fn nudge<F: Fn(Prim, Single, Single) -> Single>(fpu: &F, rng: &mut Rng, kind: ParamKind, v: Single, amount: Single) -> (r: Single)
    requires
        total(*fpu),
    ensures
        forall|f: Sums| #[trigger] meant(*fpu, f) ==> (r, *final(rng)) == nudged(f, kind, v, amount, *old(rng)),
{
    match kind {
        ParamKind::Float { min, max, .. } => {
            let t = rng.next_bipolar();
            fpu(Prim::Add, v, fpu(Prim::Mul, fpu(Prim::Mul, fpu(Prim::Mul, fpu(Prim::Sub, max, min), amount), Single::of(P0_1)), t))
        },
        ParamKind::Exp { .. } => {
            let t = rng.next_bipolar();
            fpu(Prim::Mul, v, fpu(Prim::Add, Single::of(ONE), fpu(Prim::Mul, fpu(Prim::Mul, amount, Single::of(HALF)), t)))
        },
        _ => {
            if rng.chance(fpu(Prim::Mul, amount, Single::of(P0_2))) {
                let step = rng.range(fpu, Single::of(N1_5), Single::of(P1_5));
                fpu(Prim::Add, v, fpu(Prim::Round, step, Single::of(ZERO)))
            } else {
                v
            }
        },
    }
}

/// A value lies within a share of a parameter's range of another one. No share is near nothing.
pub open spec fn near(f: Sums, kind: ParamKind, v: Single, amount: Single, goal: Single) -> bool {
    let reach = f(Prim::Mul, f(Prim::Sub, kind.extent().1, kind.extent().0), amount);
    Single::of(ZERO).below(amount) && f(Prim::Sub, v, reach).at_most(goal) && goal.at_most(f(Prim::Add, v, reach))
}

fn is_near<F: Fn(Prim, Single, Single) -> Single>(fpu: &F, kind: ParamKind, v: Single, amount: Single, goal: Single) -> (r: bool)
    requires
        total(*fpu),
        kind.wf(),
    ensures
        forall|f: Sums| #[trigger] meant(*fpu, f) ==> r == near(f, kind, v, amount, goal),
{
    let (min, max, _) = kind.limits();
    let reach = fpu(Prim::Mul, fpu(Prim::Sub, max, min), amount);
    let (lo, hi) = (fpu(Prim::Sub, v, reach), fpu(Prim::Add, v, reach));
    Single::of(ZERO).lt(amount) && lo.le(goal) && goal.le(hi)
}

/// A patch with the first `k` parameters moved a little, and the generator after that.
pub open spec fn mutated(f: Sums, p: Patch, r: Rng, amount: Single, k: nat) -> (Patch, Rng)
    decreases k,
{
    if k == 0 {
        (p, r)
    } else {
        let (q, s) = mutated(f, p, r, amount, (k - 1) as nat);
        let id = ParamId::all()[k - 1];
        if id == ParamId::Gain || id == ParamId::Polyphony {
            (q, s)
        } else if !luck(Single::of(HALF), s) {
            (q, s.advanced())
        } else {
            let (v, t) = nudged(f, id.range(), q.value(id), amount, s.advanced());
            (if v.finite() && near(f, id.range(), q.value(id), amount, id.range().clamped(v)) {
                q.with(id, v)
            } else {
                q
            }, t)
        }
    }
}

/// Randomly perturb every parameter of `patch` by up to `amount` (0..1) of its range: a step that
/// would lead further is not taken.
/// Useful for "mutate" buttons and per-instance variation of a sound effect.
pub fn mutate<F: Fn(Prim, Single, Single) -> Single>(fpu: &F, patch: &mut Patch, rng: &mut Rng, amount: Single)
    requires
        total(*fpu),
    ensures
        forall|f: Sums| #[trigger] meant(*fpu, f) ==> (*final(patch), *final(rng)) == mutated(f, *old(patch), *old(rng), amount.within(Single::of(ZERO), Single::of(ONE)), ParamId::COUNT as nat),
{
    let amount = amount.clamp(Single::of(ZERO), Single::of(ONE));
    let mut k: usize = 0;
    while k < ParamId::COUNT
        invariant
            k <= ParamId::COUNT,
            total(*fpu),
            forall|f: Sums| #[trigger] meant(*fpu, f) ==> (*patch, *rng) == mutated(f, *old(patch), *old(rng), amount, k as nat),
        decreases ParamId::COUNT - k,
    {
        let id = ParamId::nth(k);
        k = k + 1;
        if id == ParamId::Gain || id == ParamId::Polyphony || !rng.chance(Single::of(HALF)) {
            continue;
        }
        let v = patch.get(id);
        let kind = id.kind();
        let nv = nudge(fpu, rng, kind, v, amount);
        if nv.is_finite() && is_near(fpu, kind, v, amount, kind.clamp(nv)) {
            patch.set(id, nv);
        }
    }
}

/// Every parameter has a value it can take.
pub open spec fn in_range(p: Patch) -> bool {
    forall|id: ParamId| id.range().admits(#[trigger] p.value(id))
}

/// A mutation moves every parameter by no more than its share of the parameter's range, and those
/// that were not reached yet not at all.
pub proof fn lemma_mutation_is_bounded(f: Sums, p: Patch, r: Rng, amount: Single, k: nat, id: ParamId)
    requires
        k <= ParamId::COUNT,
    ensures
        ({
            let v = mutated(f, p, r, amount, k).0.value(id);
            v == p.value(id) || id.place() < k && near(f, id.range(), p.value(id), amount, v)
        }),
    decreases k,
{
    if k > 0 {
        lemma_mutation_is_bounded(f, p, r, amount, (k - 1) as nat, id);
        let (q, s) = mutated(f, p, r, amount, (k - 1) as nat);
        let at = ParamId::all()[k - 1];
        let v = nudged(f, at.range(), q.value(at), amount, s.advanced()).0;
        crate::patch::lemma_param_places(k - 1);
        if v.finite() {
            if at == id {
                crate::patch::lemma_patch_set_get(q, at, v);
            } else {
                crate::patch::lemma_patch_set_keeps_others(q, at, id, v);
            }
        }
    }
}

/// A mutation by nothing changes nothing.
pub proof fn lemma_mutation_by_nothing(f: Sums, p: Patch, r: Rng, amount: Single, k: nat)
    requires
        amount.at_most(Single::of(ZERO)),
    ensures
        mutated(f, p, r, amount, k).0 == p,
    decreases k,
{
    if k > 0 {
        lemma_mutation_by_nothing(f, p, r, amount, (k - 1) as nat);
    }
}

/// A mutation leaves gain and polyphony alone and every parameter at a value it can take.
pub proof fn lemma_mutation_stays_in_range(f: Sums, p: Patch, r: Rng, amount: Single, k: nat)
    requires
        in_range(p),
        k <= ParamId::COUNT,
    ensures
        in_range(mutated(f, p, r, amount, k).0),
        mutated(f, p, r, amount, k).0.gain == p.gain,
        mutated(f, p, r, amount, k).0.polyphony == p.polyphony,
    decreases k,
{
    if k > 0 {
        lemma_mutation_stays_in_range(f, p, r, amount, (k - 1) as nat);
        let (q, s) = mutated(f, p, r, amount, (k - 1) as nat);
        let id = ParamId::all()[k - 1];
        let v = nudged(f, id.range(), q.value(id), amount, s.advanced()).0;
        if id != ParamId::Gain && id != ParamId::Polyphony && v.finite() {
            let after = q.with(id, v);
            crate::patch::lemma_patch_set_get(q, id, v);
            crate::patch::lemma_patch_set_keeps_others(q, id, ParamId::Gain, v);
            crate::patch::lemma_patch_set_keeps_others(q, id, ParamId::Polyphony, v);
            assert forall|other: ParamId| other.range().admits(#[trigger] after.value(other)) by {
                if other == id {
                    crate::params::lemma_clamped_admitted(id.range(), v);
                } else {
                    crate::patch::lemma_patch_set_keeps_others(q, id, other, v);
                    assert(other.range().admits(q.value(other)));
                }
            }
        }
    }
}

/// Arithmetic in which adding a positive number to one that is not negative gives a positive one.
pub open spec fn sums_are_positive(f: Sums) -> bool {
    forall|a: Single, b: Single|
        Single::of(ZERO).at_most(a) && Single::of(ZERO).below(b) ==> Single::of(ZERO).below(#[trigger] f(Prim::Add, a, b))
}

/// A patch of four voices at full level that lasts for some time.
pub open spec fn is_brief(f: Sums, p: Patch) -> bool {
    &&& p.amp_env.sustain == Single::of(ONE)
    &&& p.polyphony == 4
    &&& sums_are_positive(f) ==> Single::of(ZERO).below(p.duration)
}

proof fn lemma_picked_up_is_brief(f: Sums, r: Rng)
    ensures
        is_brief(f, picked_up(f, r)),
{
    reveal(picked_up);
}

proof fn lemma_lasered_is_brief(f: Sums, r: Rng)
    ensures
        is_brief(f, lasered(f, r)),
{
    reveal(lasered);
}

proof fn lemma_exploded_is_brief(f: Sums, r: Rng)
    ensures
        is_brief(f, exploded(f, r)),
{
    reveal(exploded);
}

proof fn lemma_powered_up_is_brief(f: Sums, r: Rng)
    ensures
        is_brief(f, powered_up(f, r)),
{
    reveal(powered_up);
}

proof fn lemma_knocked_is_brief(f: Sums, r: Rng)
    ensures
        is_brief(f, knocked(f, r)),
{
    reveal(knocked);
}

proof fn lemma_jumped_is_brief(f: Sums, r: Rng)
    ensures
        is_brief(f, jumped(f, r)),
{
    reveal(jumped);
}

proof fn lemma_blipped_is_brief(f: Sums, r: Rng)
    ensures
        is_brief(f, blipped(f, r)),
{
    reveal(blipped);
}

proof fn lemma_loosed_is_brief(f: Sums, r: Rng)
    ensures
        is_brief(f, loosed(f, r)),
{
    reveal(loosed);
}

proof fn lemma_fired_is_brief(f: Sums, r: Rng)
    ensures
        is_brief(f, fired(f, r)),
{
    reveal(fired);
}

proof fn lemma_thrown_is_brief(f: Sums, r: Rng)
    ensures
        is_brief(f, thrown(f, r)),
{
    reveal(thrown);
}

proof fn lemma_scrambling_keeps_voices(f: Sums, p: Patch, r: Rng, k: nat)
    requires
        k <= ParamId::COUNT,
    ensures
        scrambled(f, p, r, k).0.polyphony == p.polyphony,
    decreases k,
{
    if k > 0 {
        lemma_scrambling_keeps_voices(f, p, r, (k - 1) as nat);
        let (q, s) = scrambled(f, p, r, (k - 1) as nat);
        let id = ParamId::all()[k - 1];
        let v = drawn_value(f, id.range(), s);
        if !settled(id) && v.finite() {
            crate::patch::lemma_patch_set_keeps_others(q, id, ParamId::Polyphony, v);
        }
    }
}

proof fn lemma_randomised_is_brief(f: Sums, r: Rng)
    ensures
        is_brief(f, randomised(f, r)),
{
    reveal(randomised);
    lemma_scrambling_keeps_voices(f, blank(Waveform::Square, Single::of(P60)), r, ParamId::COUNT as nat);
}

/// Every generated patch is a one-shot: it holds four voices at full level, lasts for some time and
/// has a length. The same seed gives the same patch, since the patch is a function of it.
pub proof fn lemma_sfx_are_one_shots(preset: SfxPreset, f: Sums, seed: u32)
    ensures
        preset.generated(f, seed).amp_env.sustain == Single::of(ONE),
        preset.generated(f, seed).polyphony == 4,
        sums_are_positive(f) ==> Single::of(ZERO).below(preset.generated(f, seed).duration) && preset.generated(f, seed).length(f) is Some,
{
    let r = Rng::seeded_with(seed ^ ((preset.position() + 1) as u32).wrapping_mul(0x9E37_79B9));
    match preset {
        SfxPreset::Pickup => lemma_picked_up_is_brief(f, r),
        SfxPreset::Laser => lemma_lasered_is_brief(f, r),
        SfxPreset::Explosion => lemma_exploded_is_brief(f, r),
        SfxPreset::PowerUp => lemma_powered_up_is_brief(f, r),
        SfxPreset::Hit => lemma_knocked_is_brief(f, r),
        SfxPreset::Jump => lemma_jumped_is_brief(f, r),
        SfxPreset::Blip => lemma_blipped_is_brief(f, r),
        SfxPreset::Arrow => lemma_loosed_is_brief(f, r),
        SfxPreset::Shoot => lemma_fired_is_brief(f, r),
        SfxPreset::Throw => lemma_thrown_is_brief(f, r),
        SfxPreset::Random => lemma_randomised_is_brief(f, r),
    }
}

} // verus!
