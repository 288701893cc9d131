//! What the inputs of machines, drones, crowds, radios and sirens do.
use vstd::prelude::*;

use crate::arith::{Prim, Sums};
use crate::generators::ambient::{CrowdParams, CrowdView, DroneParams, DroneView, ElectricParams, ElectricView, Radio, RadioParams, Siren, SirenParams, P0_15, P0_3, P0_4, P0_6, P0_7, P0_85, P1_5, P300, P6000};
use crate::single::{Single, HALF, ONE, THREE, TWO, ZERO};

verus! {

/// Electricity: without power it is silent and at full power as loud as its gain; a stable one neither arcs nor
/// flickers, and one without buzz is not driven.
pub proof fn lemma_electric_inputs(f: Sums, p: ElectricParams, x: Seq<Single>, y: Seq<Single>, n: Single, s: ElectricView, t: ElectricView)
    requires
        crate::rounding::faithful(f),
        crate::laws::engines::ordinary(p.gain) && crate::laws::engines::ordinary(p.arc_rate) && crate::laws::engines::ordinary(p.hum_level) && crate::math::is_share(p.flicker),
        crate::math::is_share(x[0]) && crate::math::is_share(y[0]) && x[0].at_most(y[0]),
        crate::math::is_share(x[1]) && crate::math::is_share(y[1]) && x[1].at_most(y[1]),
        s.sr == t.sr && Single::of(ZERO).below(s.sr) && s.sr.finite(),
    ensures
        x[0].zero() ==> crate::generators::ambient::electric_steered(f, p, x, n, s).1.level.zero(),
        x[0] == Single::of(ONE) ==> crate::generators::ambient::electric_steered(f, p, x, n, s).1.level == p.gain,
        crate::generators::ambient::electric_steered(f, p, x, n, s).1.level.at_most(crate::generators::ambient::electric_steered(f, p, y, n, t).1.level),
        x[1].zero() ==> crate::generators::ambient::electric_steered(f, p, x, n, s).1.arc_p.zero(),
        crate::generators::ambient::electric_steered(f, p, x, n, s).1.arc_p.at_most(crate::generators::ambient::electric_steered(f, p, y, n, t).1.arc_p),
        p.buzz.zero() ==> crate::generators::ambient::electric_steered(f, p, x, n, s).1.drive == Single::of(ONE),
        p.buzz.zero() && x[1].zero() ==> crate::generators::ambient::electric_steered(f, p, x, n, s).1.hum_gain == p.hum_level,
{
    lemma_electric_amps(f, f(Prim::Sub, Single::of(crate::generators::ambient::P2_2), f(Prim::Mul, Single::of(crate::generators::ambient::P1_6), p.brightness)), s, 7);
    lemma_electric_amps(f, f(Prim::Sub, Single::of(crate::generators::ambient::P2_2), f(Prim::Mul, Single::of(crate::generators::ambient::P1_6), p.brightness)), t, 7);
    crate::rounding::lemma_shares_rise(x[0], y[0]);
    crate::rounding::lemma_shares_rise(x[1], y[1]);
    crate::rounding::lemma_level(p.gain, 20);
    crate::rounding::lemma_product_rises(f, x[0], y[0], p.gain, p.gain, 0, 20);
    crate::rounding::lemma_level(p.arc_rate, 20);
    crate::rounding::lemma_product_rises(f, p.arc_rate, p.arc_rate, x[1], y[1], 20, 0);
    crate::rounding::lemma_product_rises(f, f(Prim::Mul, p.arc_rate, x[1]), f(Prim::Mul, p.arc_rate, y[1]), x[1], y[1], 20, 0);
    let one = Single::of(ONE);
    let slope = f(Prim::Sub, Single::of(crate::generators::ambient::P2_2), f(Prim::Mul, Single::of(crate::generators::ambient::P1_6), p.brightness));
    let wave = crate::generators::ambient::electric_amps_of(f, slope, s, 7).flick.advanced(f, Single::of(crate::generators::ambient::P18), f(Prim::Div, n, s.sr)).level(f);
    assert(crate::math::in_swing(wave));
    assert(crate::rounding::under(wave, 0) && crate::rounding::under(Single::of(HALF), 0));
    assert(crate::rounding::under(f(Prim::Mul, Single::of(HALF), wave), 0));
    assert(crate::rounding::under(f(Prim::Add, Single::of(HALF), f(Prim::Mul, Single::of(HALF), wave)), 1));
    if x[1].zero() {
        assert(f(Prim::Mul, p.flicker, x[1]).zero());
    }
    if p.buzz.zero() {
        assert(f(Prim::Add, one, f(Prim::Mul, p.buzz, Single::of(TWO))) == one);
    }
}

proof fn lemma_electric_amps(f: Sums, slope: Single, s: ElectricView, k: nat)
    ensures
        crate::generators::ambient::electric_amps_of(f, slope, s, k).sr == s.sr,
        crate::generators::ambient::electric_amps_of(f, slope, s, k).flick == s.flick,
    decreases k,
{
    if k > 0 {
        lemma_electric_amps(f, slope, s, (k - 1) as nat);
    }
}

/// A drone without tension neither trembles nor breathes; darkness brings up its sub and takes away its
/// brightness.
pub proof fn lemma_drone_inputs(f: Sums, p: DroneParams, x: Seq<Single>, y: Seq<Single>, n: Single, s: DroneView, t: DroneView)
    requires
        crate::rounding::faithful(f),
        crate::rounding::exponentials_rise(f),
        crate::laws::engines::ordinary(p.sub_level) && crate::laws::engines::ordinary(p.air_level),
        crate::math::is_share(x[0]) && crate::math::is_share(y[0]) && x[0].at_most(y[0]),
        crate::math::is_share(x[1]) && crate::math::is_share(y[1]) && x[1].at_most(y[1]),
        s.sr == t.sr && Single::of(ZERO).below(s.sr) && s.sr.finite(),
    ensures
        x[0].zero() ==> crate::generators::ambient::drone_steered(f, p, x, n, s).1.trem_depth.zero() && crate::generators::ambient::drone_steered(f, p, x, n, s).1.air_gain.zero(),
        crate::generators::ambient::drone_steered(f, p, x, n, s).1.trem_depth.at_most(crate::generators::ambient::drone_steered(f, p, y, n, t).1.trem_depth),
        crate::generators::ambient::drone_steered(f, p, x, n, s).1.air_gain.at_most(crate::generators::ambient::drone_steered(f, p, y, n, t).1.air_gain),
        crate::generators::ambient::drone_steered(f, p, x, n, s).1.sub_gain.at_most(crate::generators::ambient::drone_steered(f, p, y, n, t).1.sub_gain),
        crate::generators::ambient::drone_steered(f, p, y, n, t).1.dark_coef.at_most(crate::generators::ambient::drone_steered(f, p, x, n, s).1.dark_coef),
        p.drive.zero() ==> crate::generators::ambient::drone_steered(f, p, x, n, s).1.drive == Single::of(ONE),
{
    let half = Single::of(HALF);
    crate::rounding::lemma_shares_rise(x[0], y[0]);
    crate::rounding::lemma_shares_rise(x[1], y[1]);
    crate::rounding::lemma_level(Single::of(P0_3), 0);
    crate::rounding::lemma_product_rises(f, Single::of(P0_3), Single::of(P0_3), x[0], y[0], 0, 0);
    crate::rounding::lemma_level(p.air_level, 20);
    crate::rounding::lemma_product_rises(f, p.air_level, p.air_level, x[0], y[0], 20, 0);
    crate::rounding::lemma_level(Single::of(P1_5), 1);
    crate::rounding::lemma_product_rises(f, f(Prim::Mul, p.air_level, x[0]), f(Prim::Mul, p.air_level, y[0]), Single::of(P1_5), Single::of(P1_5), 20, 1);
    crate::rounding::lemma_line_rises(f, half, half, x[1], y[1], 0);
    let (a, b) = (f(Prim::Add, half, f(Prim::Mul, half, x[1])), f(Prim::Add, half, f(Prim::Mul, half, y[1])));
    crate::rounding::lemma_level(p.sub_level, 20);
    crate::rounding::lemma_product_rises(f, p.sub_level, p.sub_level, a, b, 20, 1);
    crate::laws::weather::lemma_cutoff_falls(f, Single::of(P6000), Single::of(P300), x[1], y[1], s.sr);
}

/// A crowd that is not excited neither cheers nor roars, one that is more excited roars no softer, and a larger
/// one is no softer.
pub proof fn lemma_crowd_inputs(f: Sums, p: CrowdParams, x: Seq<Single>, y: Seq<Single>, n: Single, s: CrowdView, t: CrowdView)
    requires
        crate::rounding::faithful(f),
        crate::laws::engines::ordinary(p.cheer_level) && crate::laws::engines::ordinary(p.roar_level) && crate::laws::engines::ordinary(p.gain),
        crate::math::is_share(x[0]) && crate::math::is_share(y[0]) && x[0].at_most(y[0]),
        crate::math::is_share(x[1]) && crate::math::is_share(y[1]) && x[1].at_most(y[1]),
    ensures
        x[1].zero() ==> crate::generators::ambient::crowd_steered(f, p, x, n, s).1.roar_gain.zero() && crate::generators::ambient::crowd_steered(f, p, x, n, s).1.cheer_gain.zero(),
        crate::generators::ambient::crowd_steered(f, p, x, n, s).1.roar_gain.at_most(crate::generators::ambient::crowd_steered(f, p, y, n, t).1.roar_gain),
        crate::generators::ambient::crowd_steered(f, p, x, n, s).1.level.at_most(crate::generators::ambient::crowd_steered(f, p, y, n, t).1.level),
        p.gain.zero() ==> crate::generators::ambient::crowd_steered(f, p, x, n, s).1.level.zero(),
{
    crate::rounding::lemma_shares_rise(x[0], y[0]);
    crate::rounding::lemma_shares_rise(x[1], y[1]);
    crate::rounding::lemma_level(p.roar_level, 20);
    crate::rounding::lemma_product_rises(f, p.roar_level, p.roar_level, x[1], y[1], 20, 0);
    crate::rounding::lemma_level(Single::of(TWO), 1);
    crate::rounding::lemma_product_rises(f, f(Prim::Mul, p.roar_level, x[1]), f(Prim::Mul, p.roar_level, y[1]), Single::of(TWO), Single::of(TWO), 20, 1);
    crate::rounding::lemma_line_rises(f, Single::of(P0_4), Single::of(P0_6), x[0], y[0], 0);
    let (a, b) = (f(Prim::Add, Single::of(P0_4), f(Prim::Mul, Single::of(P0_6), x[0])), f(Prim::Add, Single::of(P0_4), f(Prim::Mul, Single::of(P0_6), y[0])));
    crate::rounding::lemma_level(p.gain, 20);
    crate::rounding::lemma_product_rises(f, a, b, p.gain, p.gain, 1, 20);
    let crowd = crate::generators::ambient::crowd_voices_of(f, p, x[1], f(Prim::Div, n, s.sr), x[0], s.sr, s, 8);
    let swell = crowd.cheer_swell.advanced(f, Single::of(P0_6), f(Prim::Div, n, s.sr)).level(f);
    assert(crate::math::in_swing(swell));
    assert(crate::rounding::under(swell, 0) && crate::rounding::under(Single::of(P0_3), 0) && crate::rounding::under(Single::of(P0_7), 0));
    assert(crate::rounding::under(f(Prim::Mul, Single::of(P0_3), swell), 0));
    assert(crate::rounding::under(f(Prim::Add, Single::of(P0_7), f(Prim::Mul, Single::of(P0_3), swell)), 1));
    if x[1].zero() {
        assert(f(Prim::Mul, p.cheer_level, x[1]).zero());
    }
}

/// A radio without interference neither whistles nor hums, more of it hisses no less, and one without activity
/// does not click.
pub proof fn lemma_radio_inputs(f: Sums, p: RadioParams, x: Seq<Single>, y: Seq<Single>, n: Single, s: Radio, t: Radio)
    requires
        crate::rounding::faithful(f),
        crate::laws::engines::ordinary(p.hiss_level) && crate::laws::engines::ordinary(p.click_rate) && crate::laws::engines::ordinary(p.whistle_level) && crate::laws::engines::ordinary(p.hum_level),
        crate::math::is_share(x[0]) && crate::math::is_share(y[0]) && x[0].at_most(y[0]),
        crate::math::is_share(x[1]) && crate::math::is_share(y[1]) && x[1].at_most(y[1]),
        s.sr == t.sr && Single::of(ZERO).below(s.sr) && s.sr.finite(),
    ensures
        x[0].zero() ==> crate::generators::ambient::radio_steered(f, p, x, n, s).1.whistle_gain.zero() && crate::generators::ambient::radio_steered(f, p, x, n, s).1.hum_gain.zero(),
        crate::generators::ambient::radio_steered(f, p, x, n, s).1.hum_gain.at_most(crate::generators::ambient::radio_steered(f, p, y, n, t).1.hum_gain),
        x[0] == Single::of(ONE) ==> crate::generators::ambient::radio_steered(f, p, x, n, s).1.hum_gain == p.hum_level,
        x[1].zero() ==> crate::generators::ambient::radio_steered(f, p, x, n, s).1.click_p.zero(),
        crate::generators::ambient::radio_steered(f, p, x, n, s).1.click_p.at_most(crate::generators::ambient::radio_steered(f, p, y, n, t).1.click_p),
        p.hiss_level.zero() ==> crate::generators::ambient::radio_steered(f, p, x, n, s).1.hiss_gain.zero(),
{
    crate::rounding::lemma_shares_rise(x[0], y[0]);
    crate::rounding::lemma_shares_rise(x[1], y[1]);
    crate::rounding::lemma_level(p.hum_level, 20);
    crate::rounding::lemma_product_rises(f, p.hum_level, p.hum_level, x[0], y[0], 20, 0);
    crate::rounding::lemma_level(p.click_rate, 20);
    crate::rounding::lemma_product_rises(f, p.click_rate, p.click_rate, x[1], y[1], 20, 0);
    crate::rounding::lemma_product_rises(f, f(Prim::Mul, p.click_rate, x[1]), f(Prim::Mul, p.click_rate, y[1]), x[1], y[1], 20, 0);
    let dt = f(Prim::Div, n, s.sr);
    let swell = s.swell.advanced(f, Single::of(P1_5), dt).level(f);
    let fade = s.fade.advanced(f, f(Prim::Mul, p.drift, Single::of(P0_7)), dt).level(f);
    assert(crate::math::in_swing(swell) && crate::math::in_swing(fade));
    assert(crate::rounding::under(swell, 0) && crate::rounding::under(Single::of(P0_3), 0) && crate::rounding::under(Single::of(P0_7), 0));
    assert(crate::rounding::under(f(Prim::Mul, Single::of(P0_3), swell), 0));
    assert(crate::rounding::under(f(Prim::Add, Single::of(P0_7), f(Prim::Mul, Single::of(P0_3), swell)), 1));
    crate::rounding::lemma_shares_rise(x[0], x[0]);
    crate::rounding::lemma_line_rises(f, Single::of(P0_15), Single::of(P0_85), x[0], x[0], 0);
    if x[0].zero() {
        assert(f(Prim::Mul, p.whistle_level, x[0]).zero());
        assert(fade.larger(Single::of(ZERO)).finite());
    }
    if p.hiss_level.zero() {
        let a = f(Prim::Add, Single::of(P0_15), f(Prim::Mul, Single::of(P0_85), x[0]));
        assert(f(Prim::Mul, p.hiss_level, a).zero());
    }
}

/// A more urgent siren turns no slower, and one without urgency at its own rate; its second voice is heard where
/// it has two.
pub proof fn lemma_siren_inputs(f: Sums, p: SirenParams, x: Seq<Single>, y: Seq<Single>, n: Single, s: Siren, t: Siren)
    requires
        crate::rounding::faithful(f),
        crate::laws::engines::ordinary(p.rate),
        crate::math::is_share(x[1]) && crate::math::is_share(y[1]) && x[1].at_most(y[1]),
        s.sr == t.sr && Single::of(ZERO).below(s.sr) && s.sr.finite(),
    ensures
        crate::generators::ambient::siren_steered(f, p, x, n, s).1.lfo_inc.at_most(crate::generators::ambient::siren_steered(f, p, y, n, t).1.lfo_inc),
        x[1].zero() ==> crate::generators::ambient::siren_steered(f, p, x, n, s).1.lfo_inc == f(Prim::Div, p.rate, s.sr),
        crate::generators::ambient::siren_steered(f, p, x, n, s).1.active == x[0],
        p.voices == Single::of(TWO) ==> crate::generators::ambient::siren_steered(f, p, x, n, s).1.second == Single::of(ONE),
        p.voices == Single::of(ONE) ==> crate::generators::ambient::siren_steered(f, p, x, n, s).1.second == Single::of(ZERO),
{
    crate::rounding::lemma_shares_rise(x[1], y[1]);
    crate::rounding::lemma_line_rises(f, Single::of(ONE), Single::of(THREE), x[1], y[1], 2);
    let (a, b) = (f(Prim::Add, Single::of(ONE), f(Prim::Mul, Single::of(THREE), x[1])), f(Prim::Add, Single::of(ONE), f(Prim::Mul, Single::of(THREE), y[1])));
    crate::rounding::lemma_level(p.rate, 20);
    crate::rounding::lemma_product_rises(f, p.rate, p.rate, a, b, 20, 3);
}

/// The sweeps of a siren: a wail rises from the bottom to the top in the middle of its cycle and falls back, a yelp
/// rises all the way, two tones take half the cycle each, and a pulse stays at the top and is heard in the first half
/// only; no other is ever silent.
pub proof fn lemma_siren_sweeps(f: Sums, p: SirenParams, ph: Single)
    requires
        crate::rounding::unit_exact(f),
        crate::rounding::small_exact(f),
        crate::math::in_cycle(ph),
    ensures
        p.mode.nearest_int() == 0 && ph == Single::of(ZERO) ==> crate::generators::ambient::siren_shape(f, p, ph).zero(),
        p.mode.nearest_int() == 0 && ph == Single::of(HALF) ==> crate::generators::ambient::siren_shape(f, p, ph) == Single::of(ONE),
        p.mode.nearest_int() == 1 ==> crate::generators::ambient::siren_shape(f, p, ph) == ph,
        p.mode.nearest_int() == 2 && ph.below(Single::of(HALF)) ==> crate::generators::ambient::siren_shape(f, p, ph).zero(),
        p.mode.nearest_int() == 2 && Single::of(HALF).at_most(ph) ==> crate::generators::ambient::siren_shape(f, p, ph) == Single::of(ONE),
        p.mode.nearest_int() == 3 ==> crate::generators::ambient::siren_shape(f, p, ph) == Single::of(ONE),
        p.mode.nearest_int() < 3 ==> crate::generators::ambient::siren_gate(p, ph) == Single::of(ONE),
        p.mode.nearest_int() == 3 && ph.below(Single::of(HALF)) ==> crate::generators::ambient::siren_gate(p, ph) == Single::of(ONE),
        p.mode.nearest_int() == 3 && Single::of(HALF).at_most(ph) ==> crate::generators::ambient::siren_gate(p, ph).zero(),
{
    let (zero, one) = (Single::of(ZERO), Single::of(ONE));
    let bottom = f(Prim::Sub, f(Prim::Mul, Single::of(TWO), zero), one);
    assert(crate::rounding::same(bottom, one.negated()));
    assert(bottom.absolute() == one);
    assert(f(Prim::Sub, one, one).zero());
    assert(f(Prim::Sub, one, one).absolute().zero());
}

} // verus!
