//! What oscillators, envelopes, filters and noise sources do.
use vstd::prelude::*;

use crate::arith::{Prim, Sums};
use crate::env::{Adsr, AdsrParams, Stage};
use crate::filter::{FilterMode, Svf};
use crate::lfo::{Lfo, LfoWave};
use crate::noise::Pink;
use crate::osc::{Oscillator, Waveform};
use crate::single::{Single, HALF, ONE, TWO, ZERO};

verus! {

/// Each time of an envelope is its own: what is set for one stage does not change another.
pub proof fn lemma_stages_are_separate(e: Adsr, f: Sums, p: AdsrParams, q: AdsrParams, sample_rate: Single)
    ensures
        p.attack == q.attack ==> e.triggered(f, p, sample_rate).attack_inc == e.triggered(f, q, sample_rate).attack_inc,
        p.decay == q.decay ==> e.triggered(f, p, sample_rate).decay_coef == e.triggered(f, q, sample_rate).decay_coef,
        p.release == q.release ==> e.triggered(f, p, sample_rate).release_coef == e.triggered(f, q, sample_rate).release_coef,
        p.sustain == q.sustain ==> e.triggered(f, p, sample_rate).sustain == e.triggered(f, q, sample_rate).sustain,
        crate::math::is_share(p.sustain) ==> e.triggered(f, p, sample_rate).sustain == p.sustain,
{
}

/// Stages without a duration take one sample: the attack reaches the peak, the decay the sustain
/// level, and the release silence.
pub proof fn lemma_instant_stages(e: Adsr, f: Sums, p: AdsrParams, sample_rate: Single)
    requires
        crate::rounding::unit_exact(f),
        crate::rounding::keeps_order(f),
        e.proper(),
    ensures
        p.attack.at_most(Single::of(ZERO)) ==> ({
            let t = e.triggered(f, p, sample_rate).ticked(f);
            t.level == Single::of(ONE) && t.stage == Stage::Decay
        }),
        p.decay.at_most(Single::of(ZERO)) ==> ({
            let t = (Adsr { level: Single::of(ONE), stage: Stage::Decay, ..e.triggered(f, p, sample_rate) }).ticked(f);
            &&& t.level == t.sustain
            &&& t.stage == Stage::Sustain || (t.stage == Stage::Idle && t.sustain.zero())
        }),
        p.release.at_most(Single::of(ZERO)) ==> ({
            let t = e.triggered(f, p, sample_rate).released().ticked(f);
            t.level == Single::of(ZERO) && t.stage == Stage::Idle
        }),
{
    let (zero, one) = (Single::of(ZERO), Single::of(ONE));
    let t = e.triggered(f, p, sample_rate);
    if p.attack.at_most(zero) {
        assert(f(Prim::Add, zero, one) == one);
        assert(f(Prim::Add, zero, one).at_most(f(Prim::Add, e.level, one)));
    }
    if p.decay.at_most(zero) {
        let s = t.sustain;
        let back = f(Prim::Add, one, f(Prim::Sub, s, one));
        assert(f(Prim::Sub, s, one).finite());
        assert(f(Prim::Mul, f(Prim::Sub, s, one), one) == f(Prim::Sub, s, one));
        assert(f(Prim::Sub, back, s).at_most(Single::of(crate::rounding::FINE)));
        assert(f(Prim::Sub, s, one).at_most(f(Prim::Sub, one, one)));
        assert(f(Prim::Sub, zero, one).at_most(f(Prim::Sub, s, one)));
        assert(f(Prim::Add, one, one.negated()).at_most(back));
        assert(back.at_most(f(Prim::Add, one, f(Prim::Sub, one, one))));
        assert(crate::rounding::same(crate::env::held(back), back));
        if back.zero() {
            assert(s.zero() || !s.zero());
            assert(f(Prim::Sub, back, s).at_most(Single::of(crate::rounding::FINE)));
            assert(f(Prim::Sub, crate::env::held(back), s).at_most(zero) || s.zero());
            if !s.zero() {
                assert(crate::rounding::same(f(Prim::Sub, crate::env::held(back), s), s.negated()));
            }
        }
        assert(f(Prim::Sub, crate::env::held(back), s).below(Single::of(crate::env::P0_0001)));
    }
    if p.release.at_most(zero) {
        assert(f(Prim::Mul, e.level, one) == e.level);
        assert(f(Prim::Sub, e.level, e.level).zero());
    }
}

/// The level never falls while the attack runs, and never rises while decay and release run towards
/// a level below.
pub proof fn lemma_envelope_directions(e: Adsr, f: Sums)
    requires
        crate::rounding::unit_exact(f),
        crate::rounding::keeps_order(f),
        e.proper(),
        Single::of(ZERO).at_most(e.attack_inc) && e.attack_inc.finite(),
        crate::math::is_share(e.decay_coef),
        crate::math::is_share(e.release_coef),
    ensures
        e.stage == Stage::Attack ==> e.level.at_most(e.ticked(f).level),
        e.stage == Stage::Decay && e.sustain.at_most(e.level) ==> e.ticked(f).level.at_most(e.level),
        e.stage == Stage::Release ==> e.ticked(f).level.at_most(e.level),
        e.stage == Stage::Sustain ==> e.ticked(f).level == e.level,
{
    let zero = Single::of(ZERO);
    if e.stage == Stage::Attack {
        assert(f(Prim::Add, e.level, zero).at_most(f(Prim::Add, e.level, e.attack_inc)));
    }
    if e.stage == Stage::Decay && e.sustain.at_most(e.level) {
        let gap = f(Prim::Sub, e.sustain, e.level);
        assert(gap.at_most(f(Prim::Sub, e.level, e.level)));
        assert(gap.finite());
        let step = f(Prim::Mul, gap, e.decay_coef);
        assert(step.at_most(f(Prim::Mul, zero, e.decay_coef)));
        assert(f(Prim::Add, e.level, step).at_most(f(Prim::Add, e.level, zero)));
    }
    if e.stage == Stage::Release {
        let step = f(Prim::Mul, e.level, e.release_coef);
        assert(f(Prim::Mul, e.level, zero).at_most(step));
        assert(f(Prim::Sub, e.level, step).at_most(f(Prim::Sub, e.level, zero)));
    }
}

/// Longer times make slower stages.
pub proof fn lemma_longer_is_slower(e: Adsr, f: Sums, p: AdsrParams, q: AdsrParams, sample_rate: Single)
    requires
        crate::rounding::unit_exact(f),
        crate::rounding::keeps_order(f),
        crate::rounding::exponentials_rise(f),
        Single::of(ZERO).below(p.attack) && p.attack.at_most(q.attack),
        Single::of(ZERO).below(p.decay) && p.decay.at_most(q.decay),
        Single::of(ZERO).below(p.release) && p.release.at_most(q.release),
        q.attack.finite() && q.decay.finite() && q.release.finite(),
        Single::of(ONE).at_most(sample_rate) && sample_rate.finite(),
        f(Prim::Mul, q.attack, sample_rate).finite(),
        f(Prim::Mul, q.decay, sample_rate).finite(),
        f(Prim::Mul, q.release, sample_rate).finite(),
    ensures
        e.triggered(f, q, sample_rate).attack_inc.at_most(e.triggered(f, p, sample_rate).attack_inc),
        e.triggered(f, q, sample_rate).decay_coef.at_most(e.triggered(f, p, sample_rate).decay_coef),
        e.triggered(f, q, sample_rate).release_coef.at_most(e.triggered(f, p, sample_rate).release_coef),
{
    let one = Single::of(ONE);
    assert(f(Prim::Mul, p.attack, one).at_most(f(Prim::Mul, p.attack, sample_rate)));
    assert(f(Prim::Mul, p.attack, sample_rate).at_most(f(Prim::Mul, q.attack, sample_rate)));
    assert(f(Prim::Div, one, f(Prim::Mul, q.attack, sample_rate)).at_most(f(Prim::Div, one, f(Prim::Mul, p.attack, sample_rate))));
    lemma_smoothing_slows(f, p.decay, q.decay, sample_rate);
    lemma_smoothing_slows(f, p.release, q.release, sample_rate);
}

/// A one-pole filter that takes longer takes smaller steps; one that takes no time takes the whole.
pub proof fn lemma_smoothing_slows(f: Sums, s: Single, t: Single, sample_rate: Single)
    requires
        crate::rounding::unit_exact(f),
        crate::rounding::keeps_order(f),
        crate::rounding::exponentials_rise(f),
        Single::of(ZERO).below(s) && s.at_most(t) && t.finite(),
        Single::of(ONE).at_most(sample_rate) && sample_rate.finite(),
        f(Prim::Mul, t, sample_rate).finite(),
    ensures
        crate::math::smoothing(f, t, sample_rate).at_most(crate::math::smoothing(f, s, sample_rate)),
        crate::math::is_share(crate::math::smoothing(f, s, sample_rate)),
        crate::math::smoothing(f, Single::of(ZERO), sample_rate) == Single::of(ONE),
{
    let (zero, one, settle) = (Single::of(ZERO), Single::of(ONE), Single::of(crate::math::SETTLE));
    assert(f(Prim::Mul, s, one).at_most(f(Prim::Mul, s, sample_rate)));
    let (m, n) = (f(Prim::Mul, s, sample_rate), f(Prim::Mul, t, sample_rate));
    assert(m.at_most(n));
    let (x, y) = (f(Prim::Div, settle, m), f(Prim::Div, settle, n));
    assert(x.at_most(y));
    assert(x.at_most(f(Prim::Div, zero, m)));
    assert(y.at_most(f(Prim::Div, zero, n)));
    let (a, b) = (f(Prim::Exp, x, x), f(Prim::Exp, y, y));
    assert(a.at_most(b));
    assert(b.at_most(f(Prim::Exp, zero, zero)));
    assert(a.finite() && b.finite());
    assert(f(Prim::Sub, one, b).at_most(f(Prim::Sub, one, a)));
    assert(f(Prim::Sub, one, a).at_most(f(Prim::Sub, one, zero)));
    assert(f(Prim::Sub, one, one).at_most(f(Prim::Sub, one, a)));
}

/// The low frequency oscillator starts its waves where they start: the sine at zero and the triangle
/// and the sawtooth at the bottom; the triangle is at the top in the middle of the cycle, where the
/// sawtooth passes zero.
pub proof fn lemma_lfo_shapes(f: Sums, held: Single)
    requires
        crate::rounding::unit_exact(f),
        crate::rounding::small_exact(f),
    ensures
        Lfo::shape(f, LfoWave::Sine, Single::of(ZERO), held).zero(),
        Lfo::shape(f, LfoWave::Triangle, Single::of(ZERO), held) == Single::of(ONE).negated(),
        Lfo::shape(f, LfoWave::Triangle, Single::of(HALF), held) == Single::of(ONE),
        Lfo::shape(f, LfoWave::Saw, Single::of(ZERO), held) == Single::of(ONE).negated(),
        Lfo::shape(f, LfoWave::Saw, Single::of(HALF), held).zero(),
        forall|t: Single| #[trigger] crate::math::in_cycle(t) ==> Lfo::shape(f, LfoWave::Square, t, held) == (if t.below(Single::of(HALF)) {
            Single::of(ONE)
        } else {
            Single::of(ONE).negated()
        }),
        forall|t: Single| #[trigger] Lfo::shape(f, LfoWave::SampleHold, t, held) == held,
{
    let (zero, half, one) = (Single::of(ZERO), Single::of(HALF), Single::of(ONE));
    assert(crate::rounding::same(f(Prim::Sub, zero, half), half.negated()));
    assert(half.negated().absolute() == half);
    assert(f(Prim::Sub, half, half).zero());
    assert(f(Prim::Sub, half, half).absolute().zero());
    assert(f(Prim::Sub, one, one).zero());
    assert(crate::rounding::same(f(Prim::Sub, f(Prim::Mul, Single::of(TWO), zero), one), one.negated()));
}

/// The triangle of the low frequency oscillator rises in the first half of the cycle and falls in
/// the second; the sawtooth rises all the way.
pub proof fn lemma_lfo_slopes(f: Sums, held: Single, t: Single, u: Single)
    requires
        crate::rounding::unit_exact(f),
        crate::rounding::keeps_order(f),
        crate::math::in_cycle(t),
        crate::math::in_cycle(u),
        t.at_most(u),
        f(Prim::Mul, Single::of(crate::lfo::P4), Single::of(ONE)).finite(),
    ensures
        u.at_most(Single::of(HALF)) ==> Lfo::shape(f, LfoWave::Triangle, t, held).at_most(
            Lfo::shape(f, LfoWave::Triangle, u, held),
        ),
        Single::of(HALF).at_most(t) ==> Lfo::shape(f, LfoWave::Triangle, u, held).at_most(
            Lfo::shape(f, LfoWave::Triangle, t, held),
        ),
        Lfo::shape(f, LfoWave::Saw, t, held).at_most(Lfo::shape(f, LfoWave::Saw, u, held)),
{
    let (zero, half, one, four) = (Single::of(ZERO), Single::of(HALF), Single::of(ONE), Single::of(crate::lfo::P4));
    let (a, b) = (f(Prim::Sub, t, half), f(Prim::Sub, u, half));
    assert(a.at_most(b));
    assert(f(Prim::Sub, half, half).zero());
    lemma_distance(f, t);
    lemma_distance(f, u);
    let (x, y) = (f(Prim::Mul, four, a.absolute()), f(Prim::Mul, four, b.absolute()));
    assert(x.finite() && y.finite());
    if u.at_most(half) {
        assert(b.at_most(f(Prim::Sub, half, half)));
        assert(b.absolute().at_most(a.absolute()));
        assert(y.at_most(x));
        assert(f(Prim::Sub, one, x).at_most(f(Prim::Sub, one, y)));
    }
    if half.at_most(t) {
        assert(f(Prim::Sub, half, half).at_most(a));
        assert(a.absolute().at_most(b.absolute()));
        assert(x.at_most(y));
        assert(f(Prim::Sub, one, y).at_most(f(Prim::Sub, one, x)));
    }
    assert(f(Prim::Mul, Single::of(TWO), t).at_most(f(Prim::Mul, Single::of(TWO), u)));
}

/// A phase is within one of the middle of its cycle.
proof fn lemma_distance(f: Sums, t: Single)
    requires
        crate::rounding::unit_exact(f),
        crate::rounding::keeps_order(f),
        crate::math::in_cycle(t),
    ensures
        f(Prim::Sub, t, Single::of(HALF)).absolute().at_most(Single::of(ONE)),
        crate::rounding::modest(t),
{
    let (zero, half, one) = (Single::of(ZERO), Single::of(HALF), Single::of(ONE));
    assert(f(Prim::Sub, t, half).at_most(f(Prim::Sub, t, zero)));
    assert(f(Prim::Sub, zero, half).at_most(f(Prim::Sub, t, half)));
    assert(crate::rounding::same(f(Prim::Sub, zero, half), half.negated()));
}

/// A low frequency oscillator that stands still stays at its phase, and only sample and hold draws
/// random numbers, once a cycle.
pub proof fn lemma_lfo_draws_once_a_cycle(l: Lfo, f: Sums, wave: LfoWave, rate: Single, dt: Single)
    requires
        crate::rounding::unit_exact(f),
        crate::math::in_cycle(l.phase),
    ensures
        wave != LfoWave::SampleHold ==> l.advanced(f, wave, rate, dt).rng == l.rng && l.advanced(f, wave, rate, dt).held == l.held,
        rate.zero() && dt.finite() ==> crate::rounding::same(l.advanced(f, wave, rate, dt).phase, l.phase) && l.advanced(f, wave, rate, dt).held
            == l.held,
        dt.zero() && rate.finite() ==> crate::rounding::same(l.advanced(f, wave, rate, dt).phase, l.phase),
        wave == LfoWave::SampleHold ==> l.advanced(f, wave, rate, dt).value == crate::math::swung(l.advanced(f, wave, rate, dt).held),
{
}

/// An oscillator at phase zero: the sine is at zero, the triangle at the top, the sawtooth at the
/// bottom; in the middle of the cycle the triangle is at the bottom. (The increment is zero, so that
/// no edge is near.)
pub proof fn lemma_waves_start(o: Oscillator, f: Sums, pw: Single)
    requires
        crate::rounding::unit_exact(f),
        crate::rounding::small_exact(f),
    ensures
        o.phase == Single::of(ZERO) ==> {
            &&& o.sample(f, Waveform::Sine, Single::of(ZERO), pw).zero()
            &&& o.sample(f, Waveform::Triangle, Single::of(ZERO), pw) == Single::of(ONE)
            &&& o.sample(f, Waveform::Saw, Single::of(ZERO), pw) == Single::of(ONE).negated()
        },
        o.phase == Single::of(HALF) ==> {
            &&& o.sample(f, Waveform::Triangle, Single::of(ZERO), pw) == Single::of(ONE).negated()
            &&& o.sample(f, Waveform::Saw, Single::of(ZERO), pw).zero()
        },
{
    let (zero, half, one) = (Single::of(ZERO), Single::of(HALF), Single::of(ONE));
    assert(crate::rounding::same(f(Prim::Sub, zero, half), half.negated()));
    assert(half.negated().absolute() == half);
    assert(f(Prim::Sub, half, half).zero());
    assert(f(Prim::Sub, half, half).absolute().zero());
    assert(f(Prim::Sub, one, one).zero());
    let bottom = f(Prim::Sub, f(Prim::Mul, Single::of(TWO), zero), one);
    assert(crate::rounding::same(bottom, one.negated()));
    assert(f(Prim::Mul, Single::of(crate::osc::P4), f(Prim::Sub, half, half).absolute()).zero());
    if o.phase == zero || o.phase == half {
        assert(f(Prim::Sub, one, zero) == one);
        assert(crate::osc::residual(f, o.phase, zero.smaller(half)) == zero);
    }
}

/// Away from its edges a square is at the top in the first half of the cycle and at the bottom in
/// the second, and a pulse of half the cycle is a square. A wider pulse stays at the top longer.
pub proof fn lemma_square_halves(o: Oscillator, f: Sums, pw: Single)
    requires
        crate::rounding::unit_exact(f),
        crate::rounding::small_exact(f),
        crate::math::in_cycle(o.phase),
        forall|x: Single| crate::math::in_cycle(#[trigger] f(Prim::Rem, x, Single::of(ONE))),
    ensures
        o.sample(f, Waveform::Square, Single::of(ZERO), pw) == (if o.phase.below(Single::of(HALF)) {
            Single::of(ONE)
        } else {
            Single::of(ONE).negated()
        }),
        pw == Single::of(HALF) ==> o.sample(f, Waveform::Pulse, Single::of(ZERO), pw) == o.sample(
            f,
            Waveform::Square,
            Single::of(ZERO),
            pw,
        ),
{
    let (zero, half, one) = (Single::of(ZERO), Single::of(HALF), Single::of(ONE));
    let d = zero.smaller(half);
    assert(f(Prim::Sub, one, zero) == one);
    assert(forall|t: Single| #[trigger] crate::math::in_cycle(t) ==> crate::osc::residual(f, t, d) == zero);
    assert(crate::math::in_cycle(f(Prim::Rem, f(Prim::Add, o.phase, half), one)));
    assert(crate::math::in_cycle(f(Prim::Rem, f(Prim::Sub, f(Prim::Add, o.phase, one), half), one)));
    assert(f(Prim::Mul, Single::of(TWO), half) == one);
    assert(f(Prim::Sub, one, one).zero());
}

/// Away from its edges a pulse is higher before the end of its width than after it.
pub proof fn lemma_pulse_width(o: Oscillator, q: Oscillator, f: Sums, pw: Single)
    requires
        crate::rounding::unit_exact(f),
        crate::rounding::keeps_order(f),
        crate::math::in_cycle(o.phase),
        crate::math::in_cycle(q.phase),
        Single::of(crate::osc::P0_02).at_most(pw) && pw.at_most(Single::of(crate::osc::P0_98)),
        o.phase.below(pw),
        pw.at_most(q.phase),
        forall|x: Single| crate::math::in_cycle(#[trigger] f(Prim::Rem, x, Single::of(ONE))),
    ensures
        q.sample(f, Waveform::Pulse, Single::of(ZERO), pw).at_most(o.sample(f, Waveform::Pulse, Single::of(ZERO), pw)),
{
    let (zero, half, one) = (Single::of(ZERO), Single::of(HALF), Single::of(ONE));
    let d = zero.smaller(half);
    assert(f(Prim::Sub, one, zero) == one);
    assert(forall|t: Single| #[trigger] crate::math::in_cycle(t) ==> crate::osc::residual(f, t, d) == zero);
    assert(crate::math::in_cycle(f(Prim::Rem, f(Prim::Sub, f(Prim::Add, o.phase, one), pw), one)));
    assert(crate::math::in_cycle(f(Prim::Rem, f(Prim::Sub, f(Prim::Add, q.phase, one), pw), one)));
    let top = f(Prim::Mul, Single::of(TWO), pw);
    assert(crate::rounding::modest(pw));
    assert(top == f(Prim::Add, pw, pw));
    assert(top.finite());
    assert(f(Prim::Mul, Single::of(TWO), pw).at_most(f(Prim::Mul, Single::of(TWO), one)));
    assert(f(Prim::Mul, Single::of(TWO), one) == Single::of(TWO));
    let off = f(Prim::Sub, top, one);
    assert(crate::rounding::modest(top) && crate::rounding::modest(one));
    assert(off.finite());
}

/// The phase moves by the increment, at most half a cycle a sample, and wraps by one. Only noise
/// draws from the noise source, and noise does not listen to the phase.
pub proof fn lemma_phase_moves(o: Oscillator, q: Oscillator, f: Sums, wave: Waveform, dt: Single, e: Single, pw: Single)
    requires
        crate::rounding::unit_exact(f),
        crate::math::in_cycle(o.phase),
    ensures
        dt.zero() ==> crate::rounding::same(o.moved(f, wave, dt).phase, o.phase),
        Single::of(HALF).at_most(dt) && Single::of(HALF).at_most(e) ==> o.moved(f, wave, dt) == o.moved(f, wave, e),
        wave != Waveform::WhiteNoise && wave != Waveform::PinkNoise ==> o.moved(f, wave, dt).noise == o.noise,
        (wave == Waveform::WhiteNoise || wave == Waveform::PinkNoise) && q.noise == o.noise ==> q.sample(f, wave, e, pw) == o.sample(
            f,
            wave,
            dt,
            pw,
        ),
        wave == Waveform::WhiteNoise ==> crate::math::in_swing(o.sample(f, wave, dt, pw)),
{
    crate::math::lemma_fraction_bits(o.noise.rng);
    crate::math::lemma_fraction_held(o.noise.rng.fraction());
}

/// The filter at rest on a constant signal: the low-pass and the notch pass it, the high-pass and the
/// band-pass block it, and the filter stays as it is.
pub proof fn lemma_filter_at_rest(s: Svf, f: Sums, v: Single)
    requires
        crate::rounding::unit_exact(f),
        crate::rounding::modest(v),
        s.ic1eq.zero(),
        crate::rounding::same(s.ic2eq, v),
        s.a1.finite() && s.a2.finite() && s.a3.finite() && s.k.finite(),
    ensures
        s.mode == FilterMode::LowPass ==> crate::rounding::same(s.output(f, v), v),
        s.mode == FilterMode::Notch ==> crate::rounding::same(s.output(f, v), v),
        s.mode == FilterMode::HighPass ==> s.output(f, v).zero(),
        s.mode == FilterMode::BandPass ==> s.output(f, v).zero(),
        s.mode == FilterMode::Off ==> s.output(f, v) == v,
        s.fed(f, v).ic1eq.zero(),
        crate::rounding::same(s.fed(f, v).ic2eq, v),
{
    let v3 = f(Prim::Sub, v, s.ic2eq);
    assert(v3.zero()) by {
        if v.zero() {
            assert(crate::rounding::same(f(Prim::Sub, v, s.ic2eq), v));
        } else {
            assert(f(Prim::Sub, v, v).zero());
        }
    }
    assert(s.band(f, v).zero());
    let low = s.low(f, v);
    assert(crate::rounding::same(low, v));
    assert(f(Prim::Mul, s.k, s.band(f, v)).zero());
    let rest = f(Prim::Sub, v, f(Prim::Mul, s.k, s.band(f, v)));
    assert(crate::rounding::same(rest, v));
    assert(f(Prim::Sub, rest, low).zero()) by {
        if v.zero() {
            assert(crate::rounding::same(f(Prim::Sub, rest, low), rest));
        } else {
            assert(f(Prim::Sub, v, v).zero());
        }
    }
    assert(f(Prim::Mul, Single::of(TWO), s.band(f, v)).zero());
    assert(crate::rounding::same(f(Prim::Sub, f(Prim::Mul, Single::of(TWO), low), s.ic2eq), v)) by {
        if v.zero() {
            assert(f(Prim::Mul, Single::of(TWO), low).zero());
        } else {
            assert(low == v && s.ic2eq == v);
        }
    }
}

/// The first sample of a sound through a filter at rest: the band-pass gives the second coefficient
/// of it and the low-pass the third; what the notch lets through and the low-pass does not is what
/// the high-pass gives.
pub proof fn lemma_filter_first_sample(s: Svf, f: Sums, v: Single)
    requires
        crate::rounding::unit_exact(f),
        crate::rounding::modest(v),
        s.ic1eq.zero(),
        s.ic2eq.zero(),
        s.a1.finite() && s.a2.finite() && s.a3.finite(),
    ensures
        v == Single::of(ONE) ==> crate::rounding::same((Svf { mode: FilterMode::BandPass, ..s }).output(f, v), s.a2),
        v == Single::of(ONE) ==> crate::rounding::same((Svf { mode: FilterMode::LowPass, ..s }).output(f, v), s.a3),
        (Svf { mode: FilterMode::HighPass, ..s }).output(f, v) == f(
            Prim::Sub,
            (Svf { mode: FilterMode::Notch, ..s }).output(f, v),
            (Svf { mode: FilterMode::LowPass, ..s }).output(f, v),
        ),
        v.zero() ==> (Svf { mode: FilterMode::LowPass, ..s }).output(f, v).zero() && (Svf {
            mode: FilterMode::BandPass,
            ..s
        }).output(f, v).zero(),
{
}

/// Tuning: a cutoff below 10 Hz or above 0.45 of the sample rate counts as that bound, a resonance
/// outside [0, 1] as the nearest bound, more resonance means less damping, and no resonance a damping
/// of two. The coefficients are a share of the input, the same times `g`, and times `g` again.
pub proof fn lemma_filter_tuning(s: Svf, f: Sums, mode: FilterMode, hz: Single, r: Single, q: Single, sample_rate: Single)
    requires
        crate::rounding::unit_exact(f),
        crate::rounding::keeps_order(f),
        Single::of(crate::filter::P10).at_most(f(Prim::Mul, sample_rate, Single::of(crate::filter::P0_45))),
    ensures
        hz.at_most(Single::of(crate::filter::P10)) ==> s.tuned(f, mode, hz, r, sample_rate) == s.tuned(
            f,
            mode,
            Single::of(crate::filter::P10),
            r,
            sample_rate,
        ),
        f(Prim::Mul, sample_rate, Single::of(crate::filter::P0_45)).below(hz) ==> s.tuned(f, mode, hz, r, sample_rate) == s.tuned(
            f,
            mode,
            f(Prim::Mul, sample_rate, Single::of(crate::filter::P0_45)),
            r,
            sample_rate,
        ),
        r.zero() ==> s.tuned(f, mode, hz, r, sample_rate).k == Single::of(TWO),
        crate::math::is_share(r) && crate::math::is_share(q) && r.at_most(q) ==> s.tuned(f, mode, hz, q, sample_rate).k.at_most(
            s.tuned(f, mode, hz, r, sample_rate).k,
        ),
        Single::of(ONE).below(r) ==> s.tuned(f, mode, hz, r, sample_rate) == s.tuned(f, mode, hz, Single::of(ONE), sample_rate),
        s.tuned(f, mode, hz, r, sample_rate).mode == mode,
        s.ic1eq.zero() && s.ic2eq.zero() ==> s.tuned(f, mode, hz, r, sample_rate).ic1eq.zero() && s.tuned(
            f,
            mode,
            hz,
            r,
            sample_rate,
        ).ic2eq.zero(),
{
    let scale = Single::of(crate::filter::P1_98);
    if crate::math::is_share(r) && crate::math::is_share(q) && r.at_most(q) {
        let (x, y) = (f(Prim::Mul, scale, r), f(Prim::Mul, scale, q));
        assert(x.at_most(y));
        assert(x.finite() && y.finite());
        assert(f(Prim::Sub, Single::of(TWO), y).at_most(f(Prim::Sub, Single::of(TWO), x)));
    }
    if hz.at_most(Single::of(crate::filter::P10)) {
        assert(hz.within(Single::of(crate::filter::P10), f(Prim::Mul, sample_rate, Single::of(crate::filter::P0_45))) == Single::of(
            crate::filter::P10,
        ));
    }
}

/// Pink noise is made of white noise alone: a bank that has heard nothing and hears nothing gives
/// nothing and stays silent.
pub proof fn lemma_pink_is_fed(f: Sums, p: Pink, white: Single)
    requires
        crate::rounding::unit_exact(f),
        white.zero(),
        p == Pink::silent(),
    ensures
        p.output(f, white).zero(),
        p.fed(f, white).b0.zero() && p.fed(f, white).b1.zero() && p.fed(f, white).b2.zero() && p.fed(f, white).b3.zero()
            && p.fed(f, white).b4.zero() && p.fed(f, white).b5.zero() && p.fed(f, white).b6.zero(),
{
}

} // verus!
