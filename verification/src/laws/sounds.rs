//! What the sound effect presets sound like, and how values are drawn.
use vstd::prelude::*;

use crate::arith::{Prim, Sums};
use crate::filter::FilterMode;
use crate::math::Rng;
use crate::osc::Waveform;
use crate::params::ParamKind;
use crate::patch::Patch;
use crate::sfx::{P0_1, P0_15, P0_2, P0_3, P0_45, P0_9, P40, P55, P60, P72, P76, P78, P96};
use crate::single::{Single, HALF, ONE, ZERO};

verus! {

/// A random value starts at the lower bound and rises with the fraction that is drawn; drawn from [0, 1) it is the
/// fraction itself.
pub proof fn lemma_draws(f: Sums, lo: Single, hi: Single, t: Single, u: Single)
    requires
        crate::rounding::faithful(f),
        crate::math::in_cycle(t) && crate::math::in_cycle(u) && t.at_most(u),
        crate::rounding::under(lo, 20) && crate::rounding::under(hi, 20),
        lo.below(hi),
    ensures
        t.zero() ==> crate::rounding::same(crate::math::drawn_from(f, lo, hi, t), lo),
        crate::rounding::same(crate::math::drawn_from(f, Single::of(ZERO), Single::of(ONE), t), t),
        crate::math::between(f, lo, hi, t).at_most(crate::math::between(f, lo, hi, u)),
        lo.at_most(crate::math::drawn_from(f, lo, hi, t)) && crate::math::drawn_from(f, lo, hi, t).below(hi),
{
    let zero = Single::of(ZERO);
    let span = f(Prim::Sub, hi, lo);
    assert(crate::rounding::under(span, 21));
    assert(f(Prim::Sub, lo, lo).at_most(span));
    let (a, b) = (f(Prim::Mul, span, t), f(Prim::Mul, span, u));
    assert(a.at_most(b));
    assert(crate::rounding::under(t, 0) && crate::rounding::under(u, 0));
    assert(crate::rounding::under(a, 21) && crate::rounding::under(b, 21));
    assert(f(Prim::Add, lo, a).at_most(f(Prim::Add, lo, b)));
    assert(f(Prim::Sub, Single::of(ONE), zero) == Single::of(ONE));
}

/// A coin is high and short, and where it jumps it jumps up.
pub proof fn lemma_pickup(f: Sums, r: Rng)
    ensures
        ({
            let p = crate::sfx::picked_up(f, r);
            &&& p.osc1.wave == Waveform::Square || p.osc1.wave == Waveform::Pulse
            &&& Single::of(P78).at_most(p.base_note) && p.base_note.below(Single::of(P96))
            &&& Single::of(ZERO).at_most(p.pitch.arp_semitones)
            &&& p.pitch.slide.zero()
            &&& Single::of(P0_15).at_most(p.amp_env.release) && p.amp_env.release.below(Single::of(P0_45))
            &&& p.amp_env.attack.zero()
        }),
{
    reveal(crate::sfx::picked_up);
}

/// A laser falls.
pub proof fn lemma_laser(f: Sums, r: Rng)
    ensures
        ({
            let p = crate::sfx::lasered(f, r);
            &&& p.pitch.slide.at_most(Single::of(P40).negated())
            &&& p.pitch.slide_accel.at_most(Single::of(ZERO))
            &&& p.osc1.wave != Waveform::WhiteNoise && p.osc1.wave != Waveform::PinkNoise
            &&& Single::of(P60).at_most(p.base_note) && p.base_note.below(Single::of(P96))
            &&& p.amp_env.attack.zero()
        }),
{
    reveal(crate::sfx::lasered);
}

/// An explosion is noise behind a low-pass that closes.
pub proof fn lemma_explosion(f: Sums, r: Rng)
    ensures
        ({
            let p = crate::sfx::exploded(f, r);
            &&& p.osc1.wave == Waveform::WhiteNoise || p.osc1.wave == Waveform::PinkNoise
            &&& p.filter.mode == FilterMode::LowPass
            &&& p.filter.sweep.at_most(Single::of(ONE).negated())
            &&& p.pitch.slide.at_most(Single::of(ZERO))
            &&& Single::of(P0_3).at_most(p.amp_env.release) && p.amp_env.release.below(Single::of(P0_9))
        }),
{
    reveal(crate::sfx::exploded);
}

/// A power-up rises.
pub proof fn lemma_power_up(f: Sums, r: Rng)
    ensures
        ({
            let p = crate::sfx::powered_up(f, r);
            &&& Single::of(ZERO).below(p.pitch.slide)
            &&& Single::of(ZERO).at_most(p.pitch.slide_accel)
            &&& Single::of(ZERO).at_most(p.pitch.arp_semitones)
            &&& p.osc1.wave == Waveform::Saw || p.osc1.wave == Waveform::Square
            &&& Single::of(P55).at_most(p.base_note) && p.base_note.below(Single::of(P76))
        }),
{
    reveal(crate::sfx::powered_up);
}

/// A hit drops at once.
pub proof fn lemma_hit(f: Sums, r: Rng)
    ensures
        ({
            let p = crate::sfx::knocked(f, r);
            &&& p.pitch.slide.below(Single::of(P96).negated())
            &&& p.amp_env.attack.zero()
            &&& p.filter.mode == FilterMode::Off || p.filter.mode == FilterMode::HighPass
            &&& p.osc1.wave == Waveform::WhiteNoise || p.osc1.wave == Waveform::Square || p.osc1.wave == Waveform::Saw
        }),
{
    reveal(crate::sfx::knocked);
}

/// A jump rises.
pub proof fn lemma_jump(f: Sums, r: Rng)
    ensures
        ({
            let p = crate::sfx::jumped(f, r);
            &&& Single::of(ZERO).below(p.pitch.slide)
            &&& p.osc1.wave == Waveform::Pulse
            &&& Single::of(P55).at_most(p.base_note) && p.base_note.below(Single::of(P72))
        }),
{
    reveal(crate::sfx::jumped);
}

/// A blip is short, high and steady.
pub proof fn lemma_blip(f: Sums, r: Rng)
    ensures
        ({
            let p = crate::sfx::blipped(f, r);
            &&& p.pitch.slide.zero() && p.pitch.arp_semitones.zero()
            &&& p.filter.mode == FilterMode::HighPass
            &&& p.amp_env.release.below(Single::of(P0_1))
            &&& Single::of(P72).at_most(p.base_note) && p.base_note.below(Single::of(P96))
        }),
{
    reveal(crate::sfx::blipped);
}

/// An arrow is noise without lows over a tone that falls.
pub proof fn lemma_arrow(f: Sums, r: Rng)
    ensures
        ({
            let p = crate::sfx::loosed(f, r);
            &&& p.osc1.wave == Waveform::WhiteNoise && p.osc2.wave == Waveform::Triangle
            &&& p.filter.mode == FilterMode::HighPass
            &&& p.pitch.slide.below(Single::of(ZERO))
            &&& Single::of(ZERO).below(p.osc2.level)
        }),
{
    reveal(crate::sfx::loosed);
}

/// A shot is driven noise over a tone that falls, behind a low-pass.
pub proof fn lemma_shoot(f: Sums, r: Rng)
    ensures
        ({
            let p = crate::sfx::fired(f, r);
            &&& p.osc1.wave == Waveform::WhiteNoise && p.osc2.wave == Waveform::Square
            &&& p.filter.mode == FilterMode::LowPass
            &&& p.pitch.slide.below(Single::of(P96).negated())
            &&& Single::of(P0_2).at_most(p.fx.drive)
        }),
{
    reveal(crate::sfx::fired);
}

/// A throw is a whoosh: noise that swells through a band-pass that opens.
pub proof fn lemma_throw(f: Sums, r: Rng)
    ensures
        ({
            let p = crate::sfx::thrown(f, r);
            &&& p.osc1.wave == Waveform::WhiteNoise
            &&& p.filter.mode == FilterMode::BandPass
            &&& Single::of(ONE).at_most(p.filter.sweep)
            &&& Single::of(ZERO).below(p.amp_env.attack)
        }),
{
    reveal(crate::sfx::thrown);
}

/// A random effect is heard, and its echoes are kept short.
pub proof fn lemma_random(f: Sums, r: Rng)
    ensures
        ({
            let p = crate::sfx::randomised(f, r);
            &&& p.osc1.level == Single::of(ONE)
            &&& !p.fx.delay_feedback.nan() ==> p.fx.delay_feedback.at_most(Single::of(HALF))
            &&& !p.fx.delay_time.nan() ==> p.fx.delay_time.at_most(Single::of(P0_3))
            &&& Single::of(P40).at_most(p.base_note) && p.base_note.below(Single::of(P96))
        }),
{
    reveal(crate::sfx::randomised);
}

/// How far a mutation moves a value: a value on a linear scale by up to a tenth of the range, one on an exponential
/// scale by up to half of itself, by as much as the amount says; by nothing where the amount is nothing.
pub proof fn lemma_nudges(f: Sums, v: Single, amount: Single, step: Single, r: Rng)
    requires
        crate::rounding::unit_exact(f),
        crate::rounding::modest(v),
        amount.finite(),
    ensures
        amount == Single::of(ONE) && v.zero() ==> crate::rounding::same(
            crate::sfx::nudged(f, ParamKind::Float { min: Single::of(ZERO), max: Single::of(ONE), step }, v, amount, r).0,
            f(Prim::Mul, Single::of(P0_1), crate::math::bipolar(r.fraction())),
        ),
        amount.zero() ==> crate::rounding::same(crate::sfx::nudged(f, ParamKind::Float { min: Single::of(ZERO), max: Single::of(ONE), step }, v, amount, r).0, v),
        amount.zero() ==> crate::rounding::same(crate::sfx::nudged(f, ParamKind::Exp { min: Single::of(ONE), max: Single::of(P40) }, v, amount, r).0, v),
        amount == Single::of(ONE) && v == Single::of(ONE) ==> crate::sfx::nudged(f, ParamKind::Exp { min: Single::of(ONE), max: Single::of(P40) }, v, amount, r).0
            == f(Prim::Add, Single::of(ONE), f(Prim::Mul, Single::of(HALF), crate::math::bipolar(r.fraction()))),
        crate::sfx::nudged(f, ParamKind::Exp { min: Single::of(ONE), max: Single::of(P40) }, v, amount, r).1 == r.advanced(),
{
    crate::math::lemma_fraction_bits(r);
    crate::math::lemma_fraction_held(r.fraction());
    let t = crate::math::bipolar(r.fraction());
    let (zero, one, half) = (Single::of(ZERO), Single::of(ONE), Single::of(HALF));
    assert(f(Prim::Sub, one, zero) == one);
    let tenth = f(Prim::Mul, Single::of(P0_1), t);
    assert(tenth.finite());
    let share = f(Prim::Mul, half, t);
    assert(share.finite());
    assert(crate::rounding::modest(share));
    assert(f(Prim::Add, one, share).finite());
    if amount.zero() {
        assert(f(Prim::Mul, one, amount).zero() || one.nan());
        assert(f(Prim::Mul, f(Prim::Mul, f(Prim::Mul, one, amount), Single::of(P0_1)), t).zero());
        assert(f(Prim::Mul, f(Prim::Mul, amount, half), t).zero());
    }
}

/// How long a one-shot is: its duration and its release where nothing echoes.
pub proof fn lemma_length(f: Sums, p: Patch)
    requires
        crate::rounding::unit_exact(f),
        p.fx.delay_time.zero(),
        crate::rounding::modest(p.duration) && crate::rounding::modest(p.amp_env.release),
    ensures
        Single::of(ZERO).below(p.duration) ==> p.length(f) is Some && crate::rounding::same(
            p.length(f)->0,
            f(Prim::Add, p.duration, p.amp_env.release),
        ),
        Single::of(ZERO).below(p.duration) && p.amp_env.release.zero() ==> p.length(f) == Some(p.duration),
        !Single::of(ZERO).below(p.duration) && Single::of(ZERO).below(p.amp_env.sustain) ==> p.length(f) is None,
{
    assert(f(Prim::Add, p.duration, p.amp_env.release).finite());
}

/// The envelope of an effect: it holds at full level for its attack and its sustain, and its decay is a release.
pub proof fn lemma_sfx_envelope(p: Patch, f: Sums, attack: Single, sustain: Single, decay: Single)
    requires
        crate::rounding::unit_exact(f),
        !sustain.nan() && !attack.nan(),
    ensures
        ({
            let q = p.with_sfx_envelope(f, attack, sustain, decay);
            &&& q.amp_env.attack == attack && q.amp_env.release == decay && q.amp_env.sustain == Single::of(ONE)
            &&& attack.zero() ==> crate::rounding::same(q.duration, sustain)
            &&& sustain.zero() ==> crate::rounding::same(q.duration, attack)
        }),
{
}

} // verus!
