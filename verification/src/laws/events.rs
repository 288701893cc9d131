//! What power, distance and the macro parameters of an event do.
use vstd::prelude::*;

use crate::arith::{Prim, Sums};
use crate::generators::fx::{FxParams, FxView, Lane, Layer, LayerMix, Scene, Strand, P0_16, P0_2, P0_22, P0_25, P0_3, P0_4, P0_6, P0_7, P0_75, P0_8, P12, P18000, P1_2, P400, P8};
use crate::single::{Single, HALF, ONE, TWO, ZERO};

verus! {

/// A stronger event is no softer, a more distant one no louder; the gain multiplies both, and a game that
/// turns it down to nothing hears nothing.
pub proof fn lemma_power_and_distance(s: FxView, t: FxView, f: Sums, p: FxParams, reverb: Single, rt: Single)
    requires
        crate::rounding::faithful(f),
        crate::laws::engines::ordinary(p.gain),
        crate::math::is_share(s.power) && crate::math::is_share(t.power) && s.power.at_most(t.power),
        crate::math::is_share(s.distance) && crate::math::is_share(t.distance) && t.distance.at_most(s.distance),
    ensures
        s.space_mix(f, p, reverb, rt).dry.at_most(t.space_mix(f, p, reverb, rt).dry),
        p.gain.zero() ==> s.space_mix(f, p, reverb, rt).dry.zero(),
{
    let (zero, one, part) = (Single::of(ZERO), Single::of(ONE), Single::of(P0_75));
    crate::rounding::lemma_shares_rise(s.power, t.power);
    crate::rounding::lemma_line_rises(f, Single::of(P0_25), part, s.power, t.power, 0);
    let (a, b) = (f(Prim::Add, Single::of(P0_25), f(Prim::Mul, part, s.power)), f(Prim::Add, Single::of(P0_25), f(Prim::Mul, part, t.power)));
    let (da, db) = (f(Prim::Mul, part, s.distance), f(Prim::Mul, part, t.distance));
    assert(db.at_most(da));
    assert(da.at_most(f(Prim::Mul, part, one)));
    assert(f(Prim::Mul, part, zero).at_most(db));
    let (fa, fb) = (f(Prim::Sub, one, da), f(Prim::Sub, one, db));
    assert(fa.at_most(fb));
    assert(f(Prim::Sub, one, one).at_most(fa));
    assert(fb.at_most(f(Prim::Sub, one, zero)));
    assert(crate::rounding::rising(fa, fb, 0));
    crate::rounding::lemma_product_rises(f, a, b, fa, fb, 1, 0);
    crate::rounding::lemma_level(p.gain, 20);
    crate::rounding::lemma_product_rises(f, f(Prim::Mul, a, fa), f(Prim::Mul, b, fb), p.gain, p.gain, 1, 20);
}

/// Distance dulls: point blank the air lets everything through up to its highest cutoff, and from afar no more than
/// that.
pub proof fn lemma_distance_dulls(s: FxView, t: FxView, f: Sums, p: FxParams, reverb: Single, rt: Single)
    requires
        crate::rounding::faithful(f),
        crate::rounding::exponentials_rise(f),
        s.sr == t.sr && Single::of(ZERO).below(s.sr) && s.sr.finite(),
        s.distance == Single::of(ONE),
        t.distance.zero(),
        crate::rounding::under(f(Prim::Div, Single::of(P400), Single::of(P18000)), 0),
    ensures
        s.space_mix(f, p, reverb, rt).far.at_most(t.space_mix(f, p, reverb, rt).far),
        t.space_mix(f, p, reverb, rt).far == crate::blocks::cutoff_coef(f, Single::of(P18000), t.sr),
        s.space_mix(f, p, reverb, rt).damp.at_most(t.space_mix(f, p, reverb, rt).damp),
{
    let (one, open) = (Single::of(ONE), Single::of(P18000));
    let q = f(Prim::Div, Single::of(P400), open);
    assert(f(Prim::Pow, q, one) == q);
    assert(q.at_most(f(Prim::Div, open, open)));
    assert(f(Prim::Div, open, open) == one);
    assert(f(Prim::Mul, open, q).at_most(f(Prim::Mul, open, one)));
    assert(crate::rounding::under(open, 15) && crate::rounding::under(q, 0));
    assert(crate::rounding::under(f(Prim::Mul, open, q), 15));
    crate::rounding::lemma_under_more(open, 15, 20);
    crate::rounding::lemma_under_more(f(Prim::Mul, open, q), 15, 20);
    crate::laws::weather::lemma_cutoff_rises(f, f(Prim::Mul, open, q), open, s.sr);
    let (zero, base, slope, most) = (Single::of(ZERO), Single::of(crate::generators::fx::P0_35), Single::of(P0_4), Single::of(crate::generators::fx::P0_9));
    let (da, db) = (f(Prim::Add, base, f(Prim::Mul, slope, s.distance)), f(Prim::Add, base, f(Prim::Mul, slope, t.distance)));
    assert(f(Prim::Mul, slope, t.distance).at_most(f(Prim::Mul, slope, s.distance)));
    assert(crate::rounding::under(slope, 0) && crate::rounding::under(base, 0) && crate::rounding::under(s.distance, 0) && crate::rounding::under(t.distance, 0));
    assert(crate::rounding::under(f(Prim::Mul, slope, s.distance), 0) && crate::rounding::under(f(Prim::Mul, slope, t.distance), 0));
    assert(db.at_most(da));
    let (wa, wb) = (da.within(zero, one), db.within(zero, one));
    assert(wb.at_most(wa));
    assert(crate::math::is_share(wa) && crate::math::is_share(wb));
    assert(f(Prim::Mul, most, wb).at_most(f(Prim::Mul, most, wa)));
    assert(f(Prim::Sub, one, f(Prim::Mul, most, wa)).at_most(f(Prim::Sub, one, f(Prim::Mul, most, wb))));
}

/// The room: none where the recipe has none or the space is turned off, and no less of it from afar. Without punch the
/// whole is not driven.
pub proof fn lemma_room(s: FxView, t: FxView, f: Sums, p: FxParams, reverb: Single, rt: Single)
    requires
        crate::rounding::faithful(f),
        crate::laws::engines::ordinary(reverb) && crate::laws::engines::ordinary(p.space),
        crate::math::is_share(s.distance) && crate::math::is_share(t.distance) && s.distance.at_most(t.distance),
    ensures
        p.space.zero() ==> s.space_mix(f, p, reverb, rt).send.zero(),
        reverb.zero() ==> s.space_mix(f, p, reverb, rt).send.zero(),
        s.space_mix(f, p, reverb, rt).send.at_most(t.space_mix(f, p, reverb, rt).send),
        p.punch.zero() ==> s.space_mix(f, p, reverb, rt).master == Single::of(ONE),
{
    let (one, two) = (Single::of(ONE), Single::of(TWO));
    crate::rounding::lemma_shares_rise(s.distance, t.distance);
    crate::rounding::lemma_line_rises(f, one, two, s.distance, t.distance, 1);
    let (a, b) = (f(Prim::Add, one, f(Prim::Mul, two, s.distance)), f(Prim::Add, one, f(Prim::Mul, two, t.distance)));
    crate::rounding::lemma_level(reverb, 20);
    crate::rounding::lemma_level(two, 1);
    crate::rounding::lemma_level(p.space, 20);
    crate::rounding::lemma_product_rises(f, reverb, reverb, two, two, 20, 1);
    let room = f(Prim::Mul, reverb, two);
    crate::rounding::lemma_product_rises(f, room, room, p.space, p.space, 21, 20);
    crate::rounding::lemma_product_rises(f, f(Prim::Mul, room, p.space), f(Prim::Mul, room, p.space), a, b, 41, 2);
}

/// A room rings no shorter where the tail is longer, and not at all where the recipe has no time for it.
pub proof fn lemma_tail(s: FxView, f: Sums, p: FxParams, q: FxParams, size: Single, secs: Single)
    requires
        crate::rounding::faithful(f),
        crate::math::is_share(p.tail) && crate::math::is_share(q.tail) && p.tail.at_most(q.tail),
        crate::laws::engines::ordinary(secs) && crate::laws::engines::ordinary(size),
    ensures
        s.ring(f, p, size, secs).at_most(s.ring(f, q, size, secs)),
        secs.zero() ==> s.ring(f, p, size, secs).zero(),
{
    crate::rounding::lemma_shares_rise(p.tail, q.tail);
    crate::rounding::lemma_line_rises(f, Single::of(P0_4), Single::of(P1_2), p.tail, q.tail, 1);
    let (a, b) = (f(Prim::Add, Single::of(P0_4), f(Prim::Mul, Single::of(P1_2), p.tail)), f(Prim::Add, Single::of(P0_4), f(Prim::Mul, Single::of(P1_2), q.tail)));
    crate::rounding::lemma_level(secs, 20);
    crate::rounding::lemma_product_rises(f, secs, secs, a, b, 20, 2);
    let most = size.smaller(Single::of(TWO));
    crate::rounding::lemma_level(Single::of(P0_6), 0);
    crate::rounding::lemma_level(most, 1);
    crate::rounding::lemma_product_rises(f, Single::of(P0_6), Single::of(P0_6), most, most, 0, 1);
    crate::rounding::lemma_level(Single::of(P0_7), 1);
    crate::rounding::lemma_sum_rises(f, Single::of(P0_7), Single::of(P0_7), f(Prim::Mul, Single::of(P0_6), most), f(Prim::Mul, Single::of(P0_6), most), 1);
    let wide = f(Prim::Add, Single::of(P0_7), f(Prim::Mul, Single::of(P0_6), most));
    crate::rounding::lemma_product_rises(f, f(Prim::Mul, secs, a), f(Prim::Mul, secs, b), wide, wide, 22, 2);
}

/// A bigger or stronger event lasts no shorter, a brighter or stronger one is no duller, and one of middling brightness
/// at full power is as bright as designed.
pub proof fn lemma_scene(s: FxView, t: FxView, f: Sums, p: FxParams, q: FxParams)
    requires
        crate::rounding::faithful(f),
        crate::rounding::exponentials_rise(f),
        crate::math::is_share(s.power) && crate::math::is_share(t.power) && s.power.at_most(t.power),
        crate::laws::engines::ordinary(p.size) && crate::laws::engines::ordinary(q.size) && p.size.at_most(q.size),
        crate::math::is_share(p.brightness) && crate::math::is_share(q.brightness) && p.brightness.at_most(q.brightness),
    ensures
        s.scene(f, p).size.at_most(t.scene(f, q).size),
        s.scene(f, p).bright.at_most(t.scene(f, q).bright),
        s.power == Single::of(ONE) && p.brightness == Single::of(HALF) ==> s.scene(f, p).bright == Single::of(ONE),
{
    let (half, one, two, slope) = (Single::of(HALF), Single::of(ONE), Single::of(TWO), Single::of(P0_8));
    crate::rounding::lemma_shares_rise(s.power, t.power);
    crate::rounding::lemma_line_rises(f, Single::of(P0_7), Single::of(P0_3), s.power, t.power, 0);
    let (a, b) = (f(Prim::Add, Single::of(P0_7), f(Prim::Mul, Single::of(P0_3), s.power)), f(Prim::Add, Single::of(P0_7), f(Prim::Mul, Single::of(P0_3), t.power)));
    assert(crate::rounding::rising(p.size, q.size, 20));
    crate::rounding::lemma_product_rises(f, p.size, q.size, a, b, 20, 1);
    let (ba, bb) = (f(Prim::Sub, p.brightness, half), f(Prim::Sub, q.brightness, half));
    assert(ba.at_most(bb));
    assert(crate::rounding::under(p.brightness, 0) && crate::rounding::under(q.brightness, 0) && crate::rounding::under(half, 0));
    assert(crate::rounding::under(ba, 1) && crate::rounding::under(bb, 1));
    let (ca, cb) = (f(Prim::Mul, two, ba), f(Prim::Mul, two, bb));
    assert(ca.at_most(cb));
    assert(crate::rounding::under(two, 1));
    assert(crate::rounding::under(ca, 2) && crate::rounding::under(cb, 2));
    let (pa, pb) = (f(Prim::Sub, s.power, one), f(Prim::Sub, t.power, one));
    assert(pa.at_most(pb));
    assert(crate::rounding::under(s.power, 0) && crate::rounding::under(t.power, 0) && crate::rounding::under(one, 0));
    assert(crate::rounding::under(pa, 1) && crate::rounding::under(pb, 1));
    let (qa, qb) = (f(Prim::Mul, slope, pa), f(Prim::Mul, slope, pb));
    assert(qa.at_most(qb));
    assert(crate::rounding::under(slope, 0));
    assert(crate::rounding::under(qa, 1) && crate::rounding::under(qb, 1));
    assert(f(Prim::Add, ca, qa).at_most(f(Prim::Add, cb, qa)));
    assert(f(Prim::Add, cb, qa).at_most(f(Prim::Add, cb, qb)));
    assert(f(Prim::Sub, half, half).zero() && f(Prim::Sub, one, one).zero());
}

/// The pitch of an event of its own size: as designed without transposition, and an octave higher twelve semitones up.
pub proof fn lemma_event_pitch(s: FxView, f: Sums, p: FxParams)
    requires
        crate::rounding::unit_exact(f),
        s.scene(f, p).size == Single::of(ONE),
        f(Prim::Sqrt, Single::of(ONE), Single::of(ZERO)) == Single::of(ONE),
        !f(Prim::Exp2, Single::of(ONE), Single::of(ZERO)).nan(),
    ensures
        p.pitch.zero() ==> s.scene(f, p).tune == Single::of(ONE),
        p.pitch == Single::of(P12) ==> s.scene(f, p).tune == f(Prim::Exp2, Single::of(ONE), Single::of(ZERO)),
{
    assert(f(Prim::Div, Single::of(P12), Single::of(P12)) == Single::of(ONE));
}

/// A layer that is fired without variation is the layer of the recipe: its pitch, timing and level are not re-rolled;
/// it starts after its delay, which the size stretches.
pub proof fn lemma_layer_as_designed(f: Sums, l: Layer, p: FxParams, lane: Lane, r: crate::math::Rng)
    requires
        crate::rounding::unit_exact(f),
        l.vary.finite() && p.variation.finite(),
        p.variation.zero(),
        l.delay.finite(),
    ensures
        crate::generators::fx::lane_fired(f, l, p, lane, r).on,
        crate::generators::fx::lane_fired(f, l, p, lane, r).pitch == Single::of(ONE),
        crate::generators::fx::lane_fired(f, l, p, lane, r).time == Single::of(ONE),
        crate::generators::fx::lane_fired(f, l, p, lane, r).level == Single::of(ONE),
        p.size == Single::of(ONE) ==> crate::generators::fx::lane_fired(f, l, p, lane, r).t == l.delay.negated(),
        l.delay.zero() && p.size.finite() ==> crate::generators::fx::lane_fired(f, l, p, lane, r).t.zero(),
{
    let v = f(Prim::Mul, f(Prim::Mul, p.variation, Single::of(TWO)), l.vary);
    assert(f(Prim::Mul, p.variation, Single::of(TWO)).zero());
    assert(v.zero());
    let (r1, r2) = (r.advanced(), r.advanced().advanced());
    crate::math::lemma_fraction_bits(r);
    crate::math::lemma_fraction_bits(r1);
    crate::math::lemma_fraction_bits(r2);
    crate::math::lemma_fraction_held(r.fraction());
    crate::math::lemma_fraction_held(r1.fraction());
    crate::math::lemma_fraction_held(r2.fraction());
    assert(f(Prim::Mul, f(Prim::Mul, v, Single::of(P0_16)), crate::math::bipolar(r.fraction())).zero());
    assert(f(Prim::Mul, f(Prim::Mul, v, Single::of(P0_22)), crate::math::bipolar(r1.fraction())).zero());
    assert(f(Prim::Mul, f(Prim::Mul, v, Single::of(P0_2)), crate::math::bipolar(r2.fraction())).zero());
}

/// A layer within an event of its own size: it has the times and the level of the recipe, and a tone that does not glide
/// or has not begun to has the pitch it starts with.
pub proof fn lemma_layer_settings(f: Sums, l: Layer, p: FxParams, c: Scene, lane: Lane)
    requires
        crate::rounding::unit_exact(f),
        c.size == Single::of(ONE) && c.tune == Single::of(ONE),
        lane.time == Single::of(ONE) && lane.level == Single::of(ONE) && lane.pitch == Single::of(ONE),
        l.attack.finite() && l.hold.finite() && l.level.finite() && crate::rounding::modest(l.f0) && crate::rounding::modest(l.f1) && l.glide.finite() && l.drive.finite(),
        p.punch.finite() && crate::rounding::modest(p.punch),
    ensures
        crate::generators::fx::layer_mix(f, l, p, c, lane).attack == l.attack,
        crate::generators::fx::layer_mix(f, l, p, c, lane).hold == l.hold,
        crate::generators::fx::layer_mix(f, l, p, c, lane).level == l.level,
        l.decay.finite() && Single::of(crate::generators::fx::P0_001).at_most(l.decay) ==> crate::generators::fx::layer_mix(f, l, p, c, lane).decay == l.decay,
        l.f1.zero() && (!Single::of(ZERO).below(l.glide) || lane.t.at_most(Single::of(ZERO))) && Single::of(
            crate::generators::fx::P18,
        ).at_most(l.f0) && l.f0.at_most(f(Prim::Mul, c.sr, Single::of(crate::generators::fx::P0_45))) ==> crate::generators::fx::layer_mix(f, l, p, c, lane).hz
            == l.f0,
        l.f0 == l.f1 && !l.f0.zero() && !Single::of(ZERO).below(l.glide) && Single::of(crate::generators::fx::P18).at_most(l.f0)
            && l.f0.at_most(f(Prim::Mul, c.sr, Single::of(crate::generators::fx::P0_45))) ==> crate::generators::fx::layer_mix(f, l, p, c, lane).hz == l.f0,
        l.drive.zero() ==> crate::generators::fx::layer_mix(f, l, p, c, lane).drive == Single::of(ONE),
{
    let one = Single::of(ONE);
    let scale = f(Prim::Mul, c.size, lane.time);
    assert(scale == one);
    let t_mid = lane.t.larger(Single::of(ZERO));
    if lane.t.at_most(Single::of(ZERO)) && Single::of(ZERO).below(l.glide) {
        assert(t_mid.zero());
        assert(t_mid.negated().zero());
        assert(f(Prim::Mul, l.glide, scale) == l.glide);
        assert(f(Prim::Div, t_mid.negated(), l.glide).zero());
    }
    let span = f(Prim::Sub, l.f0, l.f1);
    assert(span.finite());
    if l.f0 == l.f1 {
        assert(f(Prim::Sub, l.f0, l.f0).zero());
    }
    if l.drive.zero() {
        let hard = f(Prim::Add, Single::of(HALF), p.punch);
        assert(hard.finite());
        assert(f(Prim::Mul, f(Prim::Mul, l.drive, hard), Single::of(P8)).zero());
    }
}

/// A layer is not heard before it starts: while its clock is below zero it adds nothing and only its clock runs.
pub proof fn lemma_layer_waits(f: Sums, l: Layer, m: LayerMix, s: Strand, v: Single)
    requires
        f(Prim::Add, s.lane.t, m.dt).below(Single::of(ZERO)),
    ensures
        crate::generators::fx::strand_tick(f, l, m, s, v).1 == v,
        crate::generators::fx::strand_tick(f, l, m, s, v).0 == (Strand { lane: Lane { t: f(Prim::Add, s.lane.t, m.dt), ..s.lane }, ..s }),
{
    reveal(crate::generators::fx::strand_tick);
}

} // verus!
