//! What the inputs of wind, rain, fire, streams and the sea do.
use vstd::prelude::*;

use crate::arith::{Prim, Sums};
use crate::generators::nature::{Fire, FireParams, OceanParams, OceanView, RainParams, RainView, StreamParams, StreamView, Wind, WindParams, P0_1, P0_15, P0_2, P0_3, P0_35, P0_45, P0_7, P0_85, P0_9, P1200, P1500, P16000, P18000, P1_3, P1_5, P1_6, P2_4};
use crate::single::{Single, HALF, ONE, THREE, ZERO};

verus! {

/// A one-pole filter with a higher cutoff takes no smaller steps, and one without a cutoff none.
pub proof fn lemma_cutoff_rises(f: Sums, a: Single, b: Single, sr: Single)
    requires
        crate::rounding::faithful(f),
        crate::rounding::exponentials_rise(f),
        a.at_most(b),
        crate::rounding::under(a, 20) && crate::rounding::under(b, 20),
        Single::of(ZERO).below(sr) && sr.finite(),
    ensures
        crate::blocks::cutoff_coef(f, a, sr).at_most(crate::blocks::cutoff_coef(f, b, sr)),
        b.at_most(Single::of(ZERO)) ==> crate::blocks::cutoff_coef(f, b, sr).zero(),
{
    let (zero, one) = (Single::of(ZERO), Single::of(ONE));
    let turn = Single::of(crate::single::TAU).negated();
    let (x, y) = (a.larger(zero), b.larger(zero));
    assert(x.at_most(y));
    assert(x.finite() && y.finite());
    let (p, q) = (f(Prim::Mul, turn, x), f(Prim::Mul, turn, y));
    assert(turn.at_most(zero));
    assert(q.at_most(p));
    assert(crate::rounding::under(turn, 3) && crate::rounding::under(x, 20) && crate::rounding::under(y, 20));
    assert(crate::rounding::under(p, 23) && crate::rounding::under(q, 23));
    let (s, t) = (f(Prim::Div, p, sr), f(Prim::Div, q, sr));
    assert(t.at_most(s));
    assert(p.at_most(f(Prim::Mul, turn, zero)));
    assert(s.at_most(f(Prim::Div, zero, sr)));
    let (c, d) = (f(Prim::Exp, s, s), f(Prim::Exp, t, t));
    assert(d.at_most(c));
    assert(c.at_most(f(Prim::Exp, zero, zero)));
    assert(f(Prim::Sub, one, c).at_most(f(Prim::Sub, one, d)));
    assert(f(Prim::Sub, one, one).zero());
}

/// Strength of the wind in a control block.
spec fn strength(f: Sums, p: WindParams, x: Seq<Single>, n: Single, s: Wind) -> Single {
    let gust = s.gust.advanced(f, p.gust_rate, f(Prim::Div, n, s.sr)).level(f);
    f(
        Prim::Mul,
        x[0],
        f(Prim::Add, Single::of(ONE), f(Prim::Mul, f(Prim::Mul, x[1], Single::of(crate::generators::nature::P0_8)), gust)),
    ).within(Single::of(ZERO), Single::of(P1_3))
}

proof fn lemma_wind_parts(f: Sums, p: WindParams, x: Seq<Single>, n: Single, s: Wind)
    ensures
        ({
            let m = crate::generators::nature::wind_steered(f, p, x, n, s).1;
            let v = strength(f, p, x, n, s);
            let t = f(Prim::Mul, f(Prim::Sub, v, Single::of(P0_45)), Single::of(THREE)).within(Single::of(ZERO), Single::of(ONE));
            &&& m.level == f(Prim::Mul, f(Prim::Pow, v, Single::of(P1_5)), p.gain)
            &&& m.hiss == f(Prim::Mul, f(Prim::Mul, p.hiss_level, Single::of(P0_45)), v)
            &&& m.whistle_gain == f(Prim::Mul, f(Prim::Mul, f(Prim::Mul, p.whistle_level, t), t), Single::of(crate::generators::nature::P0_12))
        }),
{
}

/// Without gusts the strength of the wind is its input.
proof fn lemma_steady(f: Sums, p: WindParams, x: Seq<Single>, n: Single, s: Wind)
    requires
        crate::rounding::faithful(f),
        crate::math::is_share(x[0]),
        x[1].zero(),
    ensures
        crate::rounding::same(strength(f, p, x, n, s), x[0]),
{
    let gust = s.gust.advanced(f, p.gust_rate, f(Prim::Div, n, s.sr)).level(f);
    assert(crate::math::in_swing(gust));
    assert(gust.finite());
    let z = f(Prim::Mul, f(Prim::Mul, x[1], Single::of(crate::generators::nature::P0_8)), gust);
    assert(z.zero());
    assert(f(Prim::Add, Single::of(ONE), z) == Single::of(ONE));
}

/// A calm is silent, whatever the gusts would do; a steady wind at full strength is as loud as its gain.
pub proof fn lemma_calm_and_storm(f: Sums, p: WindParams, x: Seq<Single>, n: Single, s: Wind)
    requires
        crate::rounding::faithful(f),
        crate::rounding::powers_rise(f),
        crate::laws::engines::ordinary(p.gain) && crate::laws::engines::ordinary(p.hiss_level),
        crate::math::is_share(x[0]),
        x[0].zero() && crate::math::is_share(x[1]) || x[1].zero(),
    ensures
        x[0].zero() ==> crate::generators::nature::wind_steered(f, p, x, n, s).1.level.zero() && crate::generators::nature::wind_steered(f, p, x, n, s).1.hiss.zero(),
        x[0] == Single::of(ONE) ==> crate::generators::nature::wind_steered(f, p, x, n, s).1.level == p.gain,
{
    lemma_wind_parts(f, p, x, n, s);
    let v = strength(f, p, x, n, s);
    if x[0].zero() {
        let gust = s.gust.advanced(f, p.gust_rate, f(Prim::Div, n, s.sr)).level(f);
        assert(crate::math::in_swing(gust));
        assert(crate::rounding::under(gust, 0) && crate::rounding::under(x[1], 0) && crate::rounding::under(Single::of(crate::generators::nature::P0_8), 0));
        let a = f(Prim::Mul, x[1], Single::of(crate::generators::nature::P0_8));
        assert(crate::rounding::under(a, 0));
        let b = f(Prim::Mul, a, gust);
        assert(crate::rounding::under(b, 0));
        assert(crate::rounding::under(Single::of(ONE), 0));
        assert(crate::rounding::under(f(Prim::Add, Single::of(ONE), b), 1));
        assert(v.zero());
        assert(f(Prim::Pow, v, Single::of(P1_5)).zero());
        crate::rounding::lemma_level(p.hiss_level, 20);
        crate::rounding::lemma_level(Single::of(P0_45), 0);
        crate::rounding::lemma_product_rises(f, p.hiss_level, p.hiss_level, Single::of(P0_45), Single::of(P0_45), 20, 0);
    } else {
        lemma_steady(f, p, x, n, s);
    }
}

/// A stronger steady wind is no softer and hisses no softer.
#[verifier::spinoff_prover]
pub proof fn lemma_stronger_wind(f: Sums, p: WindParams, x: Seq<Single>, y: Seq<Single>, n: Single, s: Wind, t: Wind)
    requires
        crate::rounding::faithful(f),
        crate::rounding::powers_rise(f),
        crate::laws::engines::ordinary(p.gain) && crate::laws::engines::ordinary(p.hiss_level),
        crate::math::is_share(x[0]) && crate::math::is_share(y[0]) && x[0].at_most(y[0]),
        x[1].zero() && y[1].zero(),
    ensures
        crate::generators::nature::wind_steered(f, p, x, n, s).1.level.at_most(crate::generators::nature::wind_steered(f, p, y, n, t).1.level),
        crate::generators::nature::wind_steered(f, p, x, n, s).1.hiss.at_most(crate::generators::nature::wind_steered(f, p, y, n, t).1.hiss),
{
    lemma_wind_parts(f, p, x, n, s);
    lemma_wind_parts(f, p, y, n, t);
    lemma_steady(f, p, x, n, s);
    lemma_steady(f, p, y, n, t);
    lemma_louder(f, p, strength(f, p, x, n, s), strength(f, p, y, n, t));
}

proof fn lemma_louder(f: Sums, p: WindParams, a: Single, b: Single)
    requires
        crate::rounding::faithful(f),
        crate::rounding::powers_rise(f),
        crate::laws::engines::ordinary(p.gain) && crate::laws::engines::ordinary(p.hiss_level),
        crate::math::is_share(a) && crate::math::is_share(b) && a.at_most(b),
    ensures
        f(Prim::Mul, f(Prim::Pow, a, Single::of(P1_5)), p.gain).at_most(f(Prim::Mul, f(Prim::Pow, b, Single::of(P1_5)), p.gain)),
        f(Prim::Mul, f(Prim::Mul, p.hiss_level, Single::of(P0_45)), a).at_most(
            f(Prim::Mul, f(Prim::Mul, p.hiss_level, Single::of(P0_45)), b),
        ),
{
    let (zero, one) = (Single::of(ZERO), Single::of(ONE));
    crate::rounding::lemma_shares_rise(a, b);
    let (pa, pb) = (f(Prim::Pow, a, Single::of(P1_5)), f(Prim::Pow, b, Single::of(P1_5)));
    assert(pa.at_most(pb));
    assert(f(Prim::Pow, zero, Single::of(P1_5)).at_most(pa));
    assert(pb.at_most(f(Prim::Pow, one, Single::of(P1_5))));
    assert(crate::rounding::rising(pa, pb, 0));
    crate::rounding::lemma_level(p.gain, 20);
    crate::rounding::lemma_product_rises(f, pa, pb, p.gain, p.gain, 0, 20);
    let quiet = f(Prim::Mul, p.hiss_level, Single::of(P0_45));
    crate::rounding::lemma_level(p.hiss_level, 20);
    crate::rounding::lemma_level(Single::of(P0_45), 0);
    crate::rounding::lemma_product_rises(f, p.hiss_level, p.hiss_level, Single::of(P0_45), Single::of(P0_45), 20, 0);
    crate::rounding::lemma_product_rises(f, quiet, quiet, a, b, 20, 0);
}

/// Only a strong wind whistles.
#[verifier::spinoff_prover]
pub proof fn lemma_weak_wind_does_not_whistle(f: Sums, p: WindParams, x: Seq<Single>, n: Single, s: Wind)
    requires
        crate::rounding::faithful(f),
        crate::laws::engines::ordinary(p.whistle_level),
        crate::math::is_share(x[0]),
        x[1].zero(),
        x[0].at_most(Single::of(P0_45)),
    ensures
        crate::generators::nature::wind_steered(f, p, x, n, s).1.whistle_gain.zero(),
{
    lemma_wind_parts(f, p, x, n, s);
    lemma_steady(f, p, x, n, s);
    let (zero, one, edge) = (Single::of(ZERO), Single::of(ONE), Single::of(P0_45));
    let v = strength(f, p, x, n, s);
    let over = f(Prim::Sub, v, edge);
    assert(crate::rounding::under(v, 0) && crate::rounding::under(edge, 0));
    assert(crate::rounding::under(over, 1));
    assert(over.at_most(f(Prim::Sub, edge, edge)));
    assert(f(Prim::Sub, edge, edge).zero());
    assert(f(Prim::Mul, over, Single::of(THREE)).at_most(f(Prim::Mul, zero, Single::of(THREE))));
    let w = f(Prim::Mul, over, Single::of(THREE)).within(zero, one);
    assert(w.zero());
    assert(f(Prim::Mul, p.whistle_level, w).zero());
}

/// Rain: none is silent; heavier rain falls no more rarely and hisses no softer; only under a shelter does it
/// patter on a roof, and a shelter dulls the open air.
pub proof fn lemma_rain_inputs(f: Sums, p: RainParams, x: Seq<Single>, y: Seq<Single>, n: Single, s: RainView, t: RainView)
    requires
        crate::rounding::faithful(f),
        crate::rounding::powers_rise(f),
        crate::laws::engines::ordinary(p.density) && crate::laws::engines::ordinary(p.bed_level),
        crate::math::is_share(x[0]) && crate::math::is_share(y[0]) && x[0].at_most(y[0]),
        crate::math::is_share(x[1]) && crate::math::is_share(y[1]) && x[1].at_most(y[1]),
        s.sr == t.sr && Single::of(ZERO).below(s.sr) && s.sr.finite(),
    ensures
        x[0].zero() ==> crate::generators::nature::rain_steered(f, p, x, n, s).1.drop_p.zero() && crate::generators::nature::rain_steered(f, p, x, n, s).1.patter_p.zero() && crate::generators::nature::rain_steered(
            f,
            p,
            x,
            n,
            s,
        ).1.bed_gain.zero(),
        crate::generators::nature::rain_steered(f, p, x, n, s).1.drop_p.at_most(crate::generators::nature::rain_steered(f, p, y, n, t).1.drop_p),
        crate::generators::nature::rain_steered(f, p, x, n, s).1.bed_gain.at_most(crate::generators::nature::rain_steered(f, p, y, n, t).1.bed_gain),
        crate::generators::nature::rain_steered(f, p, x, n, s).1.patter_p.at_most(crate::generators::nature::rain_steered(f, p, y, n, t).1.patter_p),
        x[1].zero() ==> crate::generators::nature::rain_steered(f, p, x, n, s).1.patter_p.zero(),
{
    let (zero, one) = (Single::of(ZERO), Single::of(ONE));
    let (a, b) = (x[0], y[0]);
    crate::rounding::lemma_shares_rise(a, b);
    crate::rounding::lemma_shares_rise(x[1], y[1]);
    crate::rounding::lemma_level(p.density, 20);
    crate::rounding::lemma_product_rises(f, p.density, p.density, a, b, 20, 0);
    crate::rounding::lemma_product_rises(f, f(Prim::Mul, p.density, a), f(Prim::Mul, p.density, b), a, b, 20, 0);
    crate::rounding::lemma_level(Single::of(P0_2), 0);
    let base = f(Prim::Mul, p.density, Single::of(P0_2));
    crate::rounding::lemma_product_rises(f, p.density, p.density, Single::of(P0_2), Single::of(P0_2), 20, 0);
    crate::rounding::lemma_product_rises(f, base, base, a, b, 20, 0);
    crate::rounding::lemma_product_rises(f, f(Prim::Mul, base, a), f(Prim::Mul, base, b), a, b, 20, 0);
    crate::rounding::lemma_product_rises(f, f(Prim::Mul, f(Prim::Mul, base, a), a), f(Prim::Mul, f(Prim::Mul, base, b), b), x[1], y[1], 20, 0);
    let (pa, pb) = (f(Prim::Pow, a, Single::of(P1_5)), f(Prim::Pow, b, Single::of(P1_5)));
    assert(pa.at_most(pb));
    assert(f(Prim::Pow, zero, Single::of(P1_5)).at_most(pa));
    assert(pb.at_most(f(Prim::Pow, one, Single::of(P1_5))));
    assert(crate::rounding::rising(pa, pb, 0));
    crate::rounding::lemma_level(p.bed_level, 20);
    crate::rounding::lemma_product_rises(f, p.bed_level, p.bed_level, pa, pb, 20, 0);
    crate::rounding::lemma_level(Single::of(P1_6), 1);
    crate::rounding::lemma_product_rises(f, f(Prim::Mul, p.bed_level, pa), f(Prim::Mul, p.bed_level, pb), Single::of(P1_6), Single::of(P1_6), 20, 1);
}

/// Under a shelter the rain outside is no brighter.
pub proof fn lemma_shelter_dulls(f: Sums, p: RainParams, x: Seq<Single>, y: Seq<Single>, n: Single, s: RainView, t: RainView)
    requires
        crate::rounding::faithful(f),
        crate::rounding::exponentials_rise(f),
        crate::math::is_share(x[1]) && crate::math::is_share(y[1]) && x[1].at_most(y[1]),
        s.sr == t.sr && Single::of(ZERO).below(s.sr) && s.sr.finite(),
    ensures
        crate::generators::nature::rain_steered(f, p, y, n, t).1.air_coef.at_most(crate::generators::nature::rain_steered(f, p, x, n, s).1.air_coef),
{
    lemma_cutoff_falls(f, Single::of(P18000), Single::of(P1200), x[1], y[1], s.sr);
}

/// A cutoff that moves from a higher to a lower one falls.
pub proof fn lemma_cutoff_falls(f: Sums, high: Single, low: Single, t: Single, u: Single, sr: Single)
    requires
        crate::rounding::faithful(f),
        crate::rounding::exponentials_rise(f),
        crate::math::is_share(t) && crate::math::is_share(u) && t.at_most(u),
        Single::of(ZERO).at_most(low) && low.at_most(high) && crate::rounding::under(high, 17),
        Single::of(ZERO).below(sr) && sr.finite(),
    ensures
        crate::blocks::cutoff_coef(f, f(Prim::Add, high, f(Prim::Mul, f(Prim::Sub, low, high), u)), sr).at_most(
            crate::blocks::cutoff_coef(f, f(Prim::Add, high, f(Prim::Mul, f(Prim::Sub, low, high), t)), sr),
        ),
{
    let way = f(Prim::Sub, low, high);
    assert(way.at_most(f(Prim::Sub, high, high)));
    assert(way.at_most(Single::of(ZERO)));
    assert(crate::rounding::under(low, 17));
    assert(crate::rounding::under(way, 18));
    let (a, b) = (f(Prim::Mul, way, t), f(Prim::Mul, way, u));
    assert(b.at_most(a));
    assert(crate::rounding::under(t, 0) && crate::rounding::under(u, 0));
    assert(crate::rounding::under(a, 18) && crate::rounding::under(b, 18));
    assert(f(Prim::Add, high, b).at_most(f(Prim::Add, high, a)));
    assert(crate::rounding::under(high, 18));
    assert(crate::rounding::under(f(Prim::Add, high, a), 19) && crate::rounding::under(f(Prim::Add, high, b), 19));
    crate::rounding::lemma_under_more(f(Prim::Add, high, a), 19, 20);
    crate::rounding::lemma_under_more(f(Prim::Add, high, b), 19, 20);
    lemma_cutoff_rises(f, f(Prim::Add, high, b), f(Prim::Add, high, a), sr);
}

/// Fire: a fire that has gone out neither roars nor hisses; a larger one crackles no more rarely, and without a
/// flutter it roars and hisses no softer.
pub proof fn lemma_fire_inputs(f: Sums, p: FireParams, x: Seq<Single>, y: Seq<Single>, n: Single, s: Fire, t: Fire)
    requires
        crate::rounding::faithful(f),
        crate::rounding::small_exact(f),
        crate::laws::engines::ordinary(p.crackle_rate) && crate::laws::engines::ordinary(p.roar_level) && crate::laws::engines::ordinary(p.hiss_level),
        crate::math::is_share(x[0]) && crate::math::is_share(y[0]) && x[0].at_most(y[0]),
        p.flutter.zero(),
        s.sr == t.sr && Single::of(ZERO).below(s.sr) && s.sr.finite(),
    ensures
        x[0].zero() ==> crate::generators::nature::fire_steered(f, p, x, n, s).1.roar_gain.zero() && crate::generators::nature::fire_steered(f, p, x, n, s).1.hiss_gain.zero(),
        crate::generators::nature::fire_steered(f, p, x, n, s).1.crackle_p.at_most(crate::generators::nature::fire_steered(f, p, y, n, t).1.crackle_p),
        crate::generators::nature::fire_steered(f, p, x, n, s).1.roar_gain.at_most(crate::generators::nature::fire_steered(f, p, y, n, t).1.roar_gain),
        crate::generators::nature::fire_steered(f, p, x, n, s).1.hiss_gain.at_most(crate::generators::nature::fire_steered(f, p, y, n, t).1.hiss_gain),
        p.crackle_rate.zero() ==> crate::generators::nature::fire_steered(f, p, x, n, s).1.crackle_p.zero(),
{
    let one = Single::of(ONE);
    let (a, b) = (x[0], y[0]);
    crate::rounding::lemma_shares_rise(a, b);
    lemma_unfluttered(f, p, x, n, s);
    lemma_unfluttered(f, p, y, n, t);
    crate::rounding::lemma_line_rises(f, Single::of(P0_15), Single::of(P0_85), a, b, 0);
    let (ca, cb) = (f(Prim::Add, Single::of(P0_15), f(Prim::Mul, Single::of(P0_85), a)), f(Prim::Add, Single::of(P0_15), f(Prim::Mul, Single::of(P0_85), b)));
    crate::rounding::lemma_level(p.crackle_rate, 20);
    crate::rounding::lemma_product_rises(f, p.crackle_rate, p.crackle_rate, ca, cb, 20, 1);
    crate::rounding::lemma_level(p.roar_level, 20);
    crate::rounding::lemma_product_rises(f, p.roar_level, p.roar_level, a, b, 20, 0);
    crate::rounding::lemma_level(Single::of(crate::generators::nature::P2_5), 2);
    crate::rounding::lemma_product_rises(f, f(Prim::Mul, p.roar_level, a), f(Prim::Mul, p.roar_level, b), Single::of(crate::generators::nature::P2_5), Single::of(crate::generators::nature::P2_5), 20, 2);
    crate::rounding::lemma_level(p.hiss_level, 20);
    crate::rounding::lemma_level(Single::of(P0_2), 0);
    let base = f(Prim::Mul, p.hiss_level, Single::of(P0_2));
    crate::rounding::lemma_product_rises(f, p.hiss_level, p.hiss_level, Single::of(P0_2), Single::of(P0_2), 20, 0);
    crate::rounding::lemma_product_rises(f, base, base, a, b, 20, 0);
    assert(f(Prim::Mul, Single::of(HALF), one) == Single::of(HALF));
}

/// Without flutter nothing flutters.
proof fn lemma_unfluttered(f: Sums, p: FireParams, x: Seq<Single>, n: Single, s: Fire)
    requires
        crate::rounding::faithful(f),
        p.flutter.zero(),
    ensures
        ({
            let wave = s.flutter.advanced(
                f,
                f(Prim::Add, Single::of(crate::generators::nature::P5), f(Prim::Mul, Single::of(crate::generators::nature::P10), x[1])),
                f(Prim::Div, n, s.sr),
            ).level(f);
            f(Prim::Add, Single::of(ONE), f(Prim::Mul, f(Prim::Mul, p.flutter, Single::of(crate::generators::nature::P0_6)), wave)) == Single::of(ONE)
        }),
{
    let wave = s.flutter.advanced(
        f,
        f(Prim::Add, Single::of(crate::generators::nature::P5), f(Prim::Mul, Single::of(crate::generators::nature::P10), x[1])),
        f(Prim::Div, n, s.sr),
    ).level(f);
    assert(crate::math::in_swing(wave));
    assert(wave.finite());
    assert(f(Prim::Mul, f(Prim::Mul, p.flutter, Single::of(crate::generators::nature::P0_6)), wave).zero());
}

/// A stream that flows more bubbles no more rarely and washes no softer, and larger water has no higher bubbles.
pub proof fn lemma_stream_inputs(f: Sums, p: StreamParams, x: Seq<Single>, y: Seq<Single>, n: Single, s: StreamView, t: StreamView)
    requires
        crate::rounding::faithful(f),
        crate::rounding::powers_rise(f),
        crate::rounding::exponentials_rise(f),
        crate::laws::engines::ordinary(p.bubble_rate) && crate::laws::engines::ordinary(p.wash_level) && crate::laws::engines::ordinary(p.bubble_hz),
        crate::math::is_share(x[0]) && crate::math::is_share(y[0]) && x[0].at_most(y[0]),
        crate::math::is_share(x[1]) && crate::math::is_share(y[1]) && y[1].at_most(x[1]),
        s.sr == t.sr && Single::of(ZERO).below(s.sr) && s.sr.finite(),
    ensures
        crate::generators::nature::stream_steered(f, p, x, n, s).1.bubble_p.at_most(crate::generators::nature::stream_steered(f, p, y, n, t).1.bubble_p),
        crate::generators::nature::stream_steered(f, p, x, n, s).1.wash_gain.at_most(crate::generators::nature::stream_steered(f, p, y, n, t).1.wash_gain),
        crate::generators::nature::stream_steered(f, p, x, n, s).1.centre.at_most(crate::generators::nature::stream_steered(f, p, y, n, t).1.centre),
        y[1].zero() ==> crate::generators::nature::stream_steered(f, p, y, n, t).1.centre == p.bubble_hz,
{
    let (zero, one) = (Single::of(ZERO), Single::of(ONE));
    let (a, b) = (x[0], y[0]);
    crate::rounding::lemma_shares_rise(a, b);
    let (pa, pb) = (f(Prim::Pow, a, Single::of(P1_5)), f(Prim::Pow, b, Single::of(P1_5)));
    assert(pa.at_most(pb));
    assert(f(Prim::Pow, zero, Single::of(P1_5)).at_most(pa));
    assert(pb.at_most(f(Prim::Pow, one, Single::of(P1_5))));
    assert(crate::rounding::rising(pa, pb, 0));
    crate::rounding::lemma_line_rises(f, Single::of(P0_1), Single::of(P0_9), pa, pb, 0);
    let (ca, cb) = (f(Prim::Add, Single::of(P0_1), f(Prim::Mul, Single::of(P0_9), pa)), f(Prim::Add, Single::of(P0_1), f(Prim::Mul, Single::of(P0_9), pb)));
    crate::rounding::lemma_level(p.bubble_rate, 20);
    crate::rounding::lemma_product_rises(f, p.bubble_rate, p.bubble_rate, ca, cb, 20, 1);
    crate::rounding::lemma_line_rises(f, Single::of(P0_3), Single::of(P0_7), a, b, 0);
    let (wa, wb) = (f(Prim::Add, Single::of(P0_3), f(Prim::Mul, Single::of(P0_7), a)), f(Prim::Add, Single::of(P0_3), f(Prim::Mul, Single::of(P0_7), b)));
    crate::rounding::lemma_level(p.wash_level, 20);
    crate::rounding::lemma_product_rises(f, p.wash_level, p.wash_level, wa, wb, 20, 1);
    crate::rounding::lemma_level(Single::of(P2_4), 2);
    crate::rounding::lemma_product_rises(f, f(Prim::Mul, p.wash_level, wa), f(Prim::Mul, p.wash_level, wb), Single::of(P2_4), Single::of(P2_4), 21, 2);
    let down = Single::of(crate::generators::nature::N1_5);
    assert(down.at_most(zero));
    let (ea, eb) = (f(Prim::Mul, down, x[1]), f(Prim::Mul, down, y[1]));
    assert(ea.at_most(eb));
    assert(eb.at_most(f(Prim::Mul, down, zero)));
    let (ra, rb) = (f(Prim::Exp2, ea, zero), f(Prim::Exp2, eb, zero));
    assert(ra.at_most(rb));
    assert(rb.at_most(f(Prim::Exp2, zero, zero)));
    assert(crate::rounding::rising(ra, rb, 0));
    crate::rounding::lemma_level(p.bubble_hz, 20);
    crate::rounding::lemma_product_rises(f, p.bubble_hz, p.bubble_hz, ra, rb, 20, 0);
}

/// The surge of a wave: it starts at nothing, builds up to all at its break and drains away from there.
pub proof fn lemma_surge(f: Sums, a: Single, b: Single)
    requires
        crate::rounding::faithful(f),
        crate::rounding::powers_rise(f),
        crate::rounding::exponentials_rise(f),
        crate::math::in_cycle(a) && crate::math::in_cycle(b) && a.at_most(b),
    ensures
        a.zero() ==> crate::generators::nature::surge(f, a).zero(),
        crate::generators::nature::surge(f, Single::of(P0_35)) == Single::of(ONE),
        b.below(Single::of(P0_35)) ==> crate::generators::nature::surge(f, a).at_most(crate::generators::nature::surge(f, b)),
        Single::of(P0_35).at_most(a) ==> crate::generators::nature::surge(f, b).at_most(crate::generators::nature::surge(f, a)),
{
    let (zero, crest) = (Single::of(ZERO), Single::of(P0_35));
    let (da, db) = (f(Prim::Div, a, crest), f(Prim::Div, b, crest));
    assert(da.at_most(db));
    assert(f(Prim::Div, zero, crest).at_most(da));
    assert(f(Prim::Sub, crest, crest).zero());
    assert(f(Prim::Sub, crest, crest).negated().zero());
    let (ga, gb) = (f(Prim::Sub, a, crest), f(Prim::Sub, b, crest));
    assert(ga.at_most(gb));
    assert(crate::rounding::modest(a) && crate::rounding::modest(b) && crate::rounding::modest(crest));
    assert(ga.finite() && gb.finite());
    let pace = Single::of(crate::generators::nature::P3_2);
    assert(gb.negated().at_most(ga.negated()));
    assert(f(Prim::Mul, gb.negated(), pace).at_most(f(Prim::Mul, ga.negated(), pace)));
}

/// The sea: larger waves are no softer, and distance makes them no louder and no brighter.
pub proof fn lemma_ocean_inputs(f: Sums, p: OceanParams, x: Seq<Single>, y: Seq<Single>, n: Single, s: OceanView, t: OceanView)
    requires
        crate::rounding::faithful(f),
        crate::rounding::exponentials_rise(f),
        crate::laws::engines::ordinary(p.gain),
        crate::math::is_share(x[0]) && crate::math::is_share(y[0]) && x[0].at_most(y[0]),
        crate::math::is_share(x[1]) && crate::math::is_share(y[1]) && y[1].at_most(x[1]),
        s.sr == t.sr && Single::of(ZERO).below(s.sr) && s.sr.finite(),
    ensures
        crate::generators::nature::ocean_steered(f, p, x, n, s).1.level.at_most(crate::generators::nature::ocean_steered(f, p, y, n, t).1.level),
        crate::generators::nature::ocean_steered(f, p, x, n, s).1.far_coef.at_most(crate::generators::nature::ocean_steered(f, p, y, n, t).1.far_coef),
        p.gain.zero() ==> crate::generators::nature::ocean_steered(f, p, x, n, s).1.level.zero(),
{
    let (zero, half, one) = (Single::of(ZERO), Single::of(HALF), Single::of(ONE));
    let (a, b) = (x[0], y[0]);
    crate::rounding::lemma_shares_rise(a, b);
    crate::rounding::lemma_line_rises(f, Single::of(P0_3), Single::of(P0_7), a, b, 0);
    let (la, lb) = (f(Prim::Add, Single::of(P0_3), f(Prim::Mul, Single::of(P0_7), a)), f(Prim::Add, Single::of(P0_3), f(Prim::Mul, Single::of(P0_7), b)));
    let (ha, hb) = (f(Prim::Mul, half, x[1]), f(Prim::Mul, half, y[1]));
    assert(hb.at_most(ha));
    assert(ha.at_most(f(Prim::Mul, half, one)));
    assert(f(Prim::Mul, half, zero).at_most(hb));
    let (fa, fb) = (f(Prim::Sub, one, ha), f(Prim::Sub, one, hb));
    assert(fa.at_most(fb));
    assert(f(Prim::Sub, one, one).at_most(fa)) by {
        assert(ha.at_most(one));
    }
    assert(fb.at_most(f(Prim::Sub, one, zero)));
    assert(crate::rounding::rising(fa, fb, 0));
    crate::rounding::lemma_product_rises(f, la, lb, fa, fb, 1, 0);
    crate::rounding::lemma_level(p.gain, 20);
    crate::rounding::lemma_product_rises(f, f(Prim::Mul, la, fa), f(Prim::Mul, lb, fb), p.gain, p.gain, 1, 20);
    lemma_cutoff_falls(f, Single::of(P16000), Single::of(P1500), y[1], x[1], s.sr);
}

} // verus!
