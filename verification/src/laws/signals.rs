//! What happens to single samples: sources, banks of filters, sums, meters and rooms.
use vstd::prelude::*;

use crate::arith::{Prim, Sums};
use crate::blocks::Brown;
use crate::filter::Svf;
use crate::generators::fx::{SpaceMix, SpaceView};
use crate::graph::assemble::Color;
use crate::graph::node::{BankView, NoiseNode, OscNode};
use crate::jet::{Cockpit, JetParams, N0_01, P0_01, P0_98, P1_5};
use crate::osc::Waveform;
use crate::patch::OscParams;
use crate::single::{Single, HALF, ONE, TWO, ZERO};
use crate::synth::SynthView;
use crate::voice::{Tone, P0_02};

verus! {

/// An oscillator turns by an increment that grows by its step; a sine is at rest where a cycle starts, and other
/// waves are those of its oscillator.
pub proof fn lemma_oscillator_node(f: Sums, step: Single, width: Single, s: OscNode, v: Single)
    requires
        crate::rounding::unit_exact(f),
        !s.dt.nan(),
    ensures
        ({
            let (t, y) = crate::graph::node::osc_tick(f, step, width, s, v);
            &&& step.zero() ==> crate::rounding::same(t.dt, s.dt)
            &&& s.dt.zero() && !step.nan() ==> crate::rounding::same(t.dt, step)
            &&& s.wave == Waveform::Sine && t.phase.zero() ==> y.zero()
            &&& s.wave == Waveform::Sine ==> t.osc == s.osc
            &&& s.wave != Waveform::Sine ==> y == s.osc.sample(f, s.wave, t.dt, width) && t.osc == s.osc.moved(f, s.wave, t.dt)
            &&& t.wave == s.wave
        }),
{
}

/// Noise of every colour is made of one white sample: white noise is that sample, pink and brown noise filter it,
/// and none of them disturbs the filter of another.
pub proof fn lemma_noise_node(f: Sums, s: NoiseNode, v: Single)
    ensures
        ({
            let (t, y) = crate::graph::node::noise_tick(f, s, v);
            &&& t.noise.rng == s.noise.rng.advanced() && t.color == s.color
            &&& s.color == Color::White ==> y == s.noise.draw() && t.brown == s.brown && t.noise.pink == s.noise.pink
            &&& s.color == Color::Pink ==> t.brown == s.brown && t.noise.pink == s.noise.pink.fed(f, s.noise.draw())
            &&& s.color == Color::Brown ==> t.noise.pink == s.noise.pink && y == s.brown.sound(f, s.noise.draw()) && t.brown.y
                == s.brown.integrated(f, s.noise.draw())
        }),
{
}

/// Brown noise follows white noise and leaks away without it.
pub proof fn lemma_brown_noise(f: Sums, b: Brown, w: Single, u: Single)
    requires
        crate::rounding::faithful(f),
        crate::rounding::under(b.y, 10) && crate::rounding::under(w, 10) && crate::rounding::under(u, 10),
        w.at_most(u),
    ensures
        b.integrated(f, w).at_most(b.integrated(f, u)),
        b.y.zero() && w.zero() ==> b.integrated(f, w).zero(),
        w.zero() && Single::of(ZERO).at_most(b.y) ==> b.integrated(f, w).at_most(b.y),
        Single::of(ZERO).at_most(w) && Single::of(ZERO).at_most(b.y) ==> Single::of(ZERO).at_most(b.integrated(f, w)),
{
    let (input, leak, zero) = (Single::of(crate::blocks::BROWN_IN), Single::of(crate::blocks::BROWN_LEAK), Single::of(ZERO));
    assert(crate::rounding::under(input, 0));
    let (a, c) = (f(Prim::Mul, input, w), f(Prim::Mul, input, u));
    assert(a.at_most(c));
    assert(crate::rounding::under(a, 10) && crate::rounding::under(c, 10));
    let (p, q) = (f(Prim::Add, b.y, a), f(Prim::Add, b.y, c));
    assert(p.at_most(q));
    assert(crate::rounding::under(p, 11) && crate::rounding::under(q, 11));
    assert(f(Prim::Div, p, leak).at_most(f(Prim::Div, q, leak)));
    if w.zero() {
        assert(a.zero());
        assert(crate::rounding::same(p, b.y));
        if zero.at_most(b.y) && !b.y.zero() {
            assert(f(Prim::Div, b.y, leak).at_most(f(Prim::Div, b.y, Single::of(ONE))));
        }
    }
    if zero.at_most(w) && zero.at_most(b.y) {
        assert(f(Prim::Mul, input, zero).at_most(a));
        assert(f(Prim::Add, zero, zero).at_most(f(Prim::Add, b.y, zero)));
        assert(f(Prim::Add, b.y, zero).at_most(f(Prim::Add, b.y, a)));
        assert(f(Prim::Div, zero, leak).at_most(f(Prim::Div, p, leak)));
    }
}

/// What filter `j` of a bank is fed: the sample, or nothing where another one is picked.
pub open spec fn share_of(v: Single, pick: Option<int>, j: int) -> Single {
    if pick is None || pick == Some(j) {
        v
    } else {
        Single::of(ZERO)
    }
}

/// A bank adds up its filters: where all but one are silent, that one is heard; each of them has been fed its share.
pub proof fn lemma_bank_adds_up(f: Sums, filters: Seq<Svf>, v: Single, pick: Option<int>, k: nat, i: int)
    requires
        crate::rounding::unit_exact(f),
        0 <= i < filters.len() && k <= filters.len(),
        forall|j: int|
            0 <= j < filters.len() && j != i ==> (#[trigger] filters[j]).output(f, share_of(v, pick, j)).zero(),
        !filters[i].output(f, share_of(v, pick, i)).nan(),
    ensures
        k <= i ==> crate::graph::node::fed_bank(f, filters, v, pick, k).1.zero(),
        k > i ==> crate::rounding::same(crate::graph::node::fed_bank(f, filters, v, pick, k).1, filters[i].output(f, share_of(v, pick, i))),
        crate::graph::node::fed_bank(f, filters, v, pick, k).0.len() == filters.len(),
        forall|j: int| 0 <= j < k ==> (#[trigger] crate::graph::node::fed_bank(f, filters, v, pick, k).0[j]) == filters[j].fed(f, share_of(v, pick, j)),
    decreases k,
{
    if k > 0 {
        lemma_bank_adds_up(f, filters, v, pick, (k - 1) as nat, i);
        assert(k - 1 != i ==> filters[k - 1].output(f, share_of(v, pick, k - 1)).zero());
    }
}

/// A bank that is not random scales the sum of all of its filters; a random one strikes one of them and detunes it
/// only where there is a spread.
pub proof fn lemma_banks(f: Sums, scale: Single, resonance: Single, norm: Single, sr: Single, s: BankView, v: Single)
    requires
        crate::rounding::unit_exact(f),
    ensures
        ({
            let (t, y) = crate::graph::node::bank_tick(f, scale, resonance, norm, sr, s, v);
            &&& !s.random && norm == Single::of(ONE) && !crate::graph::node::fed_bank(f, s.filters, v, None, s.filters.len()).1.nan() ==> y == crate::graph::node::fed_bank(
                f,
                s.filters,
                v,
                None,
                s.filters.len(),
            ).1
            &&& !s.random ==> t.rng == s.rng
            &&& s.random && v.zero() ==> t.rng == s.rng
            &&& s.random && !v.zero() && !Single::of(ZERO).below(s.spread) ==> t.rng == s.rng.advanced() && (t.filters, y) == crate::graph::node::fed_bank(
                f,
                s.filters,
                v,
                Some(crate::graph::node::struck(s)),
                s.filters.len(),
            )
            &&& t.freqs == s.freqs && t.spread == s.spread && t.random == s.random
        }),
{
}

/// A block that is added at a settled gain: at one it is added as it is, at none it adds nothing.
pub proof fn lemma_adding(f: Sums, dst: Seq<Single>, buf: Seq<Single>, from: Single, step: Single, j: int)
    requires
        crate::rounding::unit_exact(f),
        0 <= j < dst.len() && dst.len() == buf.len(),
        crate::rounding::modest(dst[j]) && crate::rounding::modest(buf[j]),
        step.zero(),
    ensures
        crate::graph::run::added(f, dst, buf, from, step).len() == dst.len(),
        from == Single::of(ONE) ==> crate::graph::run::added(f, dst, buf, from, step)[j] == f(Prim::Add, dst[j], buf[j]),
        from == Single::of(ONE) && dst[j].zero() ==> crate::rounding::same(crate::graph::run::added(f, dst, buf, from, step)[j], buf[j]),
        from.zero() ==> crate::rounding::same(crate::graph::run::added(f, dst, buf, from, step)[j], dst[j]),
{
    if !from.nan() {
        lemma_settled_ramp(f, from, step, (j + 1) as nat);
    }
}

/// A ramp without a step stays where it is.
proof fn lemma_settled_ramp(f: Sums, from: Single, step: Single, j: nat)
    requires
        crate::rounding::unit_exact(f),
        step.zero() && !from.nan(),
    ensures
        crate::rounding::same(crate::graph::run::ramp(f, from, step, j), from),
    decreases j,
{
    if j > 0 {
        lemma_settled_ramp(f, from, step, (j - 1) as nat);
    }
}

/// The last stage of the output: what is not a number becomes silence, what is passes or is limited, and the meter
/// shows the largest sample or what is left of a larger one.
pub proof fn lemma_meter(f: Sums, on: bool, decay: Single, s: Single, v: Single)
    requires
        crate::rounding::unit_exact(f),
        !s.nan(),
    ensures
        ({
            let (peak, y) = crate::native::meter_tick(f, on, decay, s, v);
            &&& !v.finite() ==> y == Single::of(ZERO)
            &&& v.finite() && !on ==> y == v
            &&& v.finite() && on ==> y.absolute().at_most(Single::of(ONE))
            &&& v.finite() && v.absolute().at_most(Single::of(crate::math::LIMIT_KNEE)) ==> y == v
            &&& y.absolute().at_most(peak)
            &&& decay == Single::of(ONE) ==> s.at_most(peak)
            &&& peak == y.absolute() || peak == f(Prim::Mul, s, decay)
        }),
{
    crate::math::lemma_limiter_is_gentle(f, v);
    assert(!crate::math::limited(f, v).nan() || v.nan());
}

/// Meters fall more slowly, sample by sample, where there are more samples in a second, and never rise by
/// themselves; the meter of the synthesizer and that of a graph fall alike.
pub proof fn lemma_meters_fall(f: Sums, s: SynthView, sr: Single, more: Single)
    requires
        crate::rounding::faithful(f),
        crate::rounding::exponentials_rise(f),
        Single::of(ONE).at_most(sr) && sr.at_most(more) && crate::rounding::under(more, 20),
    ensures
        crate::graph::model::meter_decay(f, sr).at_most(crate::graph::model::meter_decay(f, more)),
        crate::graph::model::meter_decay(f, sr).at_most(Single::of(ONE)),
        s.retuned(f, sr).peak_decay == crate::graph::model::meter_decay(f, sr),
{
    let (quarter, fall, zero, one) = (Single::of(crate::rounding::QUARTER), Single::of(crate::graph::model::N9_21), Single::of(ZERO), Single::of(ONE));
    let (a, b) = (f(Prim::Mul, quarter, sr), f(Prim::Mul, quarter, more));
    assert(f(Prim::Mul, quarter, one) == quarter);
    assert(quarter.at_most(a));
    assert(a.at_most(b));
    assert(crate::rounding::under(quarter, 0) && crate::rounding::under(b, 20));
    let (x, y) = (f(Prim::Div, fall, a), f(Prim::Div, fall, b));
    assert(x.at_most(y));
    assert(f(Prim::Div, fall, a).at_most(f(Prim::Div, zero, a)));
    assert(f(Prim::Div, zero, a).zero());
    assert(f(Prim::Exp, zero, zero) == one);
    assert(f(Prim::Exp, x, zero).at_most(f(Prim::Exp, zero, zero)));
}

/// A synthesizer takes the rate it is given, and at the rate of its effects it keeps them.
pub proof fn lemma_retuning(f: Sums, s: SynthView, sr: Single)
    requires
        crate::rounding::unit_exact(f),
        s.fx.sample_rate.finite(),
    ensures
        s.retuned(f, sr).sample_rate == sr,
        sr == s.fx.sample_rate ==> s.retuned(f, sr).fx == (SynthView { fx: s.fx, ..s }).panicked().fx,
{
}

/// A tube sounds higher, that is shorter, with the RPM, and lower with its length.
pub proof fn lemma_tube_pitch(f: Sums, p: JetParams, q: JetParams, rpm: Single, more: Single, sr: Single, len: int)
    requires
        crate::rounding::faithful(f),
        Single::of(ZERO).at_most(rpm) && rpm.at_most(more) && crate::rounding::under(more, 4),
        Single::of(ZERO).at_most(p.tube_ms) && p.tube_ms.at_most(q.tube_ms) && crate::rounding::under(q.tube_ms, 20),
        Single::of(ZERO).at_most(sr) && crate::rounding::under(sr, 20),
        crate::rounding::under(f(Prim::Div, q.tube_ms, tube_factor(f, rpm)), 30),
    ensures
        crate::jet::tube_target(f, p, rpm, sr, len).at_most(crate::jet::tube_target(f, q, rpm, sr, len)) || crate::single::sized((len - 3) as nat).below(Single::of(ONE)) || crate::single::sized((len - 3) as nat).nan(),
        crate::jet::tube_target(f, p, more, sr, len).at_most(crate::jet::tube_target(f, p, rpm, sr, len)) || crate::single::sized((len - 3) as nat).below(Single::of(ONE)) || crate::single::sized((len - 3) as nat).nan(),
{
    let (zero, milli) = (Single::of(ZERO), Single::of(crate::jet::P0_001));
    let (c, d) = (tube_factor(f, rpm), tube_factor(f, more));
    let (base, slope) = (Single::of(crate::jet::P0_6), Single::of(crate::jet::P0_4));
    let (x, y) = (rpm.smaller(Single::of(P1_5)), more.smaller(Single::of(P1_5)));
    assert(x.at_most(y));
    assert(crate::rounding::under(y, 1) && crate::rounding::under(x, 1) && crate::rounding::under(slope, 0) && crate::rounding::under(base, 1));
    assert(f(Prim::Mul, slope, x).at_most(f(Prim::Mul, slope, y)));
    assert(crate::rounding::under(f(Prim::Mul, slope, x), 1) && crate::rounding::under(f(Prim::Mul, slope, y), 1));
    assert(f(Prim::Mul, slope, zero).at_most(f(Prim::Mul, slope, x)));
    assert(f(Prim::Add, base, zero).at_most(f(Prim::Add, base, f(Prim::Mul, slope, x))));
    assert(c.at_most(d));
    assert(base.at_most(c));
    assert(crate::rounding::under(d, 2));
    let (t, u, w) = (f(Prim::Div, p.tube_ms, c), f(Prim::Div, q.tube_ms, c), f(Prim::Div, p.tube_ms, d));
    assert(t.at_most(u));
    assert(w.at_most(t));
    assert(f(Prim::Div, zero, d).at_most(w));
    assert(f(Prim::Div, zero, d).zero());
    assert(zero.at_most(w) && crate::rounding::under(t, 30) && crate::rounding::under(w, 30));
    lemma_scaled_rises(f, t, u, milli, sr);
    lemma_scaled_rises(f, w, t, milli, sr);
}

/// What the length of a tube is divided by.
pub open spec fn tube_factor(f: Sums, rpm: Single) -> Single {
    f(Prim::Add, Single::of(crate::jet::P0_6), f(Prim::Mul, Single::of(crate::jet::P0_4), rpm.smaller(Single::of(P1_5))))
}

/// Scaling twice by what is not negative keeps the order.
proof fn lemma_scaled_rises(f: Sums, a: Single, b: Single, c: Single, d: Single)
    requires
        crate::rounding::faithful(f),
        Single::of(ZERO).at_most(a) && a.at_most(b) && crate::rounding::under(b, 30),
        Single::of(ZERO).at_most(c) && crate::rounding::under(c, 0),
        Single::of(ZERO).at_most(d) && crate::rounding::under(d, 20),
    ensures
        f(Prim::Mul, f(Prim::Mul, a, c), d).at_most(f(Prim::Mul, f(Prim::Mul, b, c), d)),
{
    assert(crate::rounding::under(a, 30));
    assert(f(Prim::Mul, a, c).at_most(f(Prim::Mul, b, c)));
    assert(crate::rounding::under(f(Prim::Mul, a, c), 30) && crate::rounding::under(f(Prim::Mul, b, c), 30));
}

/// The pitch of a jet wanders within bounds, and falls back to where it belongs.
pub proof fn lemma_wandering(c: Cockpit, f: Sums)
    requires
        crate::rounding::unit_exact(f),
        crate::rounding::modest(c.jitter),
        !f(Prim::Add, c.jitter, f(Prim::Mul, crate::math::bipolar(c.rng.fraction()), Single::of(crate::jet::P0_004))).nan(),
    ensures
        c.jittered(f).jitter.absolute().at_most(Single::of(P0_01)),
        f(Prim::Mul, crate::math::bipolar(c.rng.fraction()), Single::of(crate::jet::P0_004)).zero() && c.jitter.absolute().at_most(Single::of(P0_01))
            ==> c.jittered(f).jitter.absolute().at_most(c.jitter.absolute()),
        c.jittered(f).rng == c.rng.advanced(),
{
    let x = f(Prim::Add, c.jitter, f(Prim::Mul, crate::math::bipolar(c.rng.fraction()), Single::of(crate::jet::P0_004)));
    let y = x.within(Single::of(N0_01), Single::of(P0_01));
    assert(y.absolute().at_most(Single::of(P0_01)));
    assert(f(Prim::Mul, y, Single::of(P0_98)).magnitude() <= y.magnitude());
}

/// Turbulence without a rate stands still; with one it heads for a new target once a cycle.
pub proof fn lemma_turbulence(c: Cockpit, f: Sums, p: JetParams, dt: Single)
    requires
        crate::rounding::unit_exact(f),
        crate::rounding::modest(c.rumble) && crate::rounding::modest(c.rumble_target) && c.rumble_phase.finite(),
        dt.finite(),
    ensures
        p.rumble_hz.zero() && c.rumble_phase.below(Single::of(ONE)) ==> crate::rounding::same(c.rumbled(f, p, dt).rumble, c.rumble) && crate::rounding::same(
            c.rumbled(f, p, dt).rumble_phase,
            c.rumble_phase,
        ),
        ({
            let phase = f(Prim::Add, c.rumble_phase, f(Prim::Mul, p.rumble_hz, dt));
            &&& phase.below(Single::of(ONE)) ==> c.rumbled(f, p, dt).rumble_target == c.rumble_target && c.rumbled(f, p, dt).rng == c.rng
            &&& Single::of(ONE).at_most(phase) ==> c.rumbled(f, p, dt).rng == c.rng.advanced() && c.rumbled(f, p, dt).rumble_target == crate::math::bipolar(
                c.rng.fraction(),
            )
        }),
        c.rumble == c.rumble_target && f(Prim::Mul, f(Prim::Mul, dt, p.rumble_hz), Single::of(crate::single::THREE)).finite() && f(
            Prim::Add,
            c.rumble_phase,
            f(Prim::Mul, p.rumble_hz, dt),
        ).below(Single::of(ONE)) ==> crate::rounding::same(
            c.rumbled(f, p, dt).rumble,
            c.rumble,
        ),
{
    let share = f(Prim::Mul, f(Prim::Mul, dt, p.rumble_hz), Single::of(crate::single::THREE)).smaller(Single::of(ONE));
    if p.rumble_hz.zero() {
        assert(share.zero());
        assert(f(Prim::Sub, c.rumble_target, c.rumble).finite());
    }
    assert(!share.nan());
    assert(c.rumble == c.rumble_target && share.finite() ==> f(Prim::Mul, f(Prim::Sub, c.rumble_target, c.rumble), share).zero());
}

/// A deck at double speed sounds an octave higher, at its own speed as it is, and standing still as it is too.
pub proof fn lemma_transposition(f: Sums, scale: Single)
    requires
        crate::rounding::unit_exact(f),
        crate::rounding::small_exact(f),
        f(Prim::Sub, Single::of(HALF), Single::of(ONE)) == Single::of(HALF).negated(),
        f(Prim::Log2, Single::of(TWO), Single::of(ZERO)) == Single::of(ONE),
        f(Prim::Log2, Single::of(HALF), Single::of(ZERO)) == Single::of(ONE).negated(),
        crate::rounding::signs_multiply(f),
    ensures
        crate::deck::transposition(f, Single::of(TWO)) == Single::of(crate::deck::P12),
        crate::deck::transposition(f, Single::of(HALF)) == Single::of(crate::deck::P12).negated(),
        crate::deck::transposition(f, Single::of(ONE)).zero(),
        scale.at_most(Single::of(ZERO)) ==> crate::deck::transposition(f, scale).zero(),
{
    let (one, half, two, oct) = (Single::of(ONE), Single::of(HALF), Single::of(TWO), Single::of(crate::deck::P12));
    assert(f(Prim::Sub, one, one).zero());
    assert(f(Prim::Mul, oct, one) == oct);
    assert(f(Prim::Mul, oct, one.negated()) == f(Prim::Mul, oct, one).negated());
    assert(half.negated().absolute() == half);
    assert(f(Prim::Sub, two, one) == one);
}

/// An event at a whole second is due after that many times the sample rate; one at the start is due at once.
pub proof fn lemma_due(f: Sums, sr: Single)
    requires
        crate::rounding::unit_exact(f),
        sr.finite(),
    ensures
        crate::render::due_at(f, sr, Single::of(ZERO)) == 0,
        crate::render::due_at(f, sr, Single::of(ONE)) == sr.whole(),
{
    let start = f(Prim::Mul, Single::of(ZERO), sr);
    assert(start.zero());
    assert(start.magnitude() / 0x0080_0000 == 0 && start.magnitude() % 0x0080_0000 == 0);
    vstd::arithmetic::power2::lemma_pow2_pos(149);
}

/// Energy adds up squares: there is none in silence, and never less of it with another sample.
pub proof fn lemma_energy(f: Sums, samples: Seq<Single>, x: Single)
    requires
        crate::rounding::faithful(f),
        crate::render::energy(f, samples).finite(),
        crate::rounding::under(x, 20),
    ensures
        samples.len() == 0 ==> crate::render::energy(f, samples).zero() && crate::rounding::same(crate::render::energy(f, samples.push(x)), f(Prim::Mul, x, x)),
        x.zero() ==> crate::rounding::same(crate::render::energy(f, samples.push(x)), crate::render::energy(f, samples)),
        Single::of(ZERO).at_most(f(Prim::Mul, x, x)) ==> crate::render::energy(f, samples).at_most(crate::render::energy(f, samples.push(x))),
{
    assert(samples.push(x).drop_last() =~= samples);
    let (e, zero) = (crate::render::energy(f, samples), Single::of(ZERO));
    let square = f(Prim::Mul, x, x);
    assert(crate::rounding::under(square, 40));
    assert(crate::render::energy(f, samples.push(x)) == f(Prim::Add, e, square));
    if zero.at_most(square) {
        assert(f(Prim::Add, e, zero).at_most(f(Prim::Add, e, square)));
    }
}

/// A sound near by and out of doors is heard as it is.
pub proof fn lemma_out_of_doors(f: Sums, m: SpaceMix, s: SpaceView, v: Single)
    requires
        crate::rounding::unit_exact(f),
        m.send.zero() && m.dry == Single::of(ONE) && m.far == Single::of(ONE),
        s.far0.y.zero() && s.far1.y.zero(),
        ({
            let near = near_by(f, m, v);
            &&& near.finite() && !near.absolute().below(Single::of(crate::blocks::SILENCE))
            &&& crate::graph::node::reverb_tick(f, m.low, m.keep, m.damp, Single::of(ONE), s.reverb, near).1.finite()
        }),
    ensures
        crate::generators::fx::space_tick(f, m, s, v).1 == near_by(f, m, v),
        crate::generators::fx::space_tick(f, m, s, v).0.far0.y == near_by(f, m, v),
{
    let near = near_by(f, m, v);
    assert(s.far0.smoothed(f, near, m.far) == near);
    assert(s.far1.smoothed(f, near, m.far) == near);
    let wet = crate::graph::node::reverb_tick(f, m.low, m.keep, m.damp, Single::of(ONE), s.reverb, near).1;
    assert(f(Prim::Mul, wet, m.send).zero());
    assert(f(Prim::Add, near, f(Prim::Mul, wet, m.send)) == near);
}

/// The softly limited sound at its source.
pub open spec fn near_by(f: Sums, m: SpaceMix, v: Single) -> Single {
    f(
        Prim::Div,
        crate::math::saturated(f, f(Prim::Mul, v, m.master)),
        f(Prim::Add, Single::of(ONE), f(Prim::Mul, Single::of(crate::generators::fx::P0_2), m.master)),
    )
}

/// A tone that is where it should be keeps its pitch, and a pulse that is not swept or wobbled keeps its width.
pub proof fn lemma_steady_course(t: Tone, f: Sums, o: OscParams, note: Single, time: Single, wobble: Single, sample_rate: Single, n: Single)
    requires
        crate::rounding::unit_exact(f),
        Tone::pitched(o),
        time.finite() && n.finite() && !n.zero(),
    ensures
        ({
            let c = t.course(f, o, note, time, wobble, sample_rate, n);
            &&& o.pulse_width_sweep.zero() && wobble.zero() && Single::of(P0_02).at_most(o.pulse_width) && o.pulse_width.at_most(
                Single::of(crate::voice::P0_98),
            ) ==> c.pw == o.pulse_width
            &&& Tone::goal(f, o, note, sample_rate).finite() && t.aimed(f, o, note, sample_rate).dt == Tone::goal(f, o, note, sample_rate)
                ==> c.step.zero()
        }),
{
    if o.pulse_width_sweep.zero() {
        assert(f(Prim::Mul, o.pulse_width_sweep, time).zero());
    }
}

} // verus!
