//! What the controls of the jet engine do.
use vstd::prelude::*;

use crate::arith::{Prim, Sums};
use crate::filter::FilterMode;
use crate::jet::{Cockpit, JetCommand, JetParams, JetView, P0_001, P0_05, P0_08, P0_4, P1200, P20, P2_5};
use crate::rounding::WHOLE_LIMIT;
use crate::single::{Single, HALF, ONE, THREE, TWO, ZERO};

verus! {

/// The RPM the controls ask for: the idle RPM without throttle and boost, one at full throttle, and
/// the boosted RPM at full throttle and full boost. Boost multiplies the idle RPM too.
pub proof fn lemma_rpm_asked_for(c: Cockpit, f: Sums, p: JetParams)
    requires
        crate::rounding::unit_exact(f),
        crate::math::is_share(p.idle_rpm),
        Single::of(HALF).at_most(p.boost_rpm),
        p.boost_rpm.at_most(Single::of(WHOLE_LIMIT)),
    ensures
        c.throttle.zero() && c.boost.zero() ==> crate::rounding::same(c.goal(f, p), p.idle_rpm),
        c.throttle == Single::of(ONE) && c.boost.zero() ==> c.goal(f, p) == Single::of(ONE),
        c.throttle == Single::of(ONE) && c.boost == Single::of(ONE) ==> c.goal(f, p) == p.boost_rpm,
{
    let one = Single::of(ONE);
    let left = f(Prim::Sub, one, p.idle_rpm);
    let more = f(Prim::Sub, p.boost_rpm, one);
    assert(f(Prim::Add, p.idle_rpm, left) == one);
    assert(f(Prim::Add, one, more) == p.boost_rpm);
    assert(left.finite() && more.finite());
    assert(f(Prim::Mul, left, one) == left);
    assert(f(Prim::Mul, more, one) == more);
}

/// More throttle or more boost never asks for a lower RPM.
pub proof fn lemma_rpm_follows_controls(c: Cockpit, d: Cockpit, f: Sums, p: JetParams)
    requires
        crate::rounding::unit_exact(f),
        crate::rounding::keeps_order(f),
        crate::math::is_share(p.idle_rpm),
        Single::of(ONE).at_most(p.boost_rpm),
        p.boost_rpm.at_most(Single::of(WHOLE_LIMIT)),
        crate::math::is_share(c.throttle) && crate::math::is_share(d.throttle),
        crate::math::is_share(c.boost) && crate::math::is_share(d.boost),
        c.throttle.at_most(d.throttle),
        c.boost.at_most(d.boost),
    ensures
        c.goal(f, p).at_most(d.goal(f, p)),
{
    let (zero, one) = (Single::of(ZERO), Single::of(ONE));
    let left = f(Prim::Sub, one, p.idle_rpm);
    let more = f(Prim::Sub, p.boost_rpm, one);
    assert(left.finite() && more.finite());
    assert(f(Prim::Sub, one, one).at_most(left));
    assert(f(Prim::Sub, one, one).at_most(more));
    let (a, b) = (f(Prim::Mul, left, c.throttle), f(Prim::Mul, left, d.throttle));
    assert(a.at_most(b));
    assert(f(Prim::Mul, left, zero).at_most(a));
    let (base_c, base_d) = (f(Prim::Add, p.idle_rpm, a), f(Prim::Add, p.idle_rpm, b));
    assert(left.at_most(f(Prim::Sub, one, zero)));
    assert(crate::rounding::modest(left));
    assert(base_c.finite() && base_d.finite());
    assert(base_c.at_most(base_d));
    assert(f(Prim::Add, p.idle_rpm, f(Prim::Mul, left, zero)).at_most(base_c));
    let (s, t) = (f(Prim::Mul, more, c.boost), f(Prim::Mul, more, d.boost));
    assert(s.at_most(t));
    assert(f(Prim::Mul, more, zero).at_most(s));
    assert(more.at_most(f(Prim::Sub, p.boost_rpm, zero)));
    assert(crate::rounding::modest(more));
    let (up_c, up_d) = (f(Prim::Add, one, s), f(Prim::Add, one, t));
    assert(up_c.finite() && up_d.finite());
    assert(up_c.at_most(up_d));
    assert(f(Prim::Add, one, f(Prim::Mul, more, zero)).at_most(up_c));
    assert(f(Prim::Mul, base_c, up_c).at_most(f(Prim::Mul, base_d, up_c)));
    assert(f(Prim::Mul, base_d, up_c).at_most(f(Prim::Mul, base_d, up_d)));
}

/// A control of the game moves its own target and nothing else: what it is set to is kept within
/// [0, 1], and what is no number is zero.
pub proof fn lemma_controls_are_separate(s: JetView, f: Sums, v: Single)
    ensures
        ({
            let t = s.applied(f, JetCommand::Throttle(v));
            &&& t.cockpit.throttle == crate::jet::control(v)
            &&& t == (JetView { cockpit: Cockpit { throttle: t.cockpit.throttle, ..s.cockpit }, ..s })
        }),
        ({
            let t = s.applied(f, JetCommand::Boost(v));
            &&& t.cockpit.boost == crate::jet::control(v)
            &&& t == (JetView { cockpit: Cockpit { boost: t.cockpit.boost, ..s.cockpit }, ..s })
        }),
        ({
            let t = s.applied(f, JetCommand::Speed(v));
            &&& t.cockpit.speed == crate::jet::control(v)
            &&& t == (JetView { cockpit: Cockpit { speed: t.cockpit.speed, ..s.cockpit }, ..s })
        }),
        ({
            let t = s.applied(f, JetCommand::Damage(v));
            &&& t.cockpit.damage == crate::jet::control(v)
            &&& t == (JetView { cockpit: Cockpit { damage: t.cockpit.damage, ..s.cockpit }, ..s })
        }),
        ({
            let t = s.applied(f, JetCommand::MasterGain(v));
            &&& Single::of(ZERO).at_most(v) && v.at_most(Single::of(TWO)) ==> t.cockpit.master_gain == v
            &&& !v.finite() ==> t.cockpit.master_gain == Single::of(ONE)
            &&& Single::of(ZERO).at_most(t.cockpit.master_gain) && t.cockpit.master_gain.at_most(Single::of(TWO))
            &&& t == (JetView { cockpit: Cockpit { master_gain: t.cockpit.master_gain, ..s.cockpit }, ..s })
        }),
        crate::math::is_share(crate::jet::control(v)),
        crate::math::is_share(v) ==> crate::jet::control(v) == v,
        v.finite() && v.negative() && !v.zero() ==> crate::jet::control(v) == Single::of(ZERO),
        v.finite() && Single::of(ONE).below(v) ==> crate::jet::control(v) == Single::of(ONE),
        !v.finite() ==> crate::jet::control(v) == Single::of(ZERO),
{
}

/// The engine speeds up at the pace of its spool-up time, whatever its spool-down time, and slows
/// down at the pace of the latter, whatever the former. While no time passes nothing moves.
pub proof fn lemma_spools_are_separate(c: Cockpit, f: Sums, p: JetParams, q: JetParams, dt: Single)
    requires
        q.idle_rpm == p.idle_rpm && q.boost_rpm == p.boost_rpm,
    ensures
        c.rpm.below(c.goal(f, p)) && q.spool_up == p.spool_up ==> c.spooled(f, q, dt) == c.spooled(f, p, dt),
        !c.rpm.below(c.goal(f, p)) && q.spool_down == p.spool_down ==> c.spooled(f, q, dt) == c.spooled(f, p, dt),
{
}

/// While no time passes the RPM, the boost and the speed stay where they are.
pub proof fn lemma_spooling_takes_time(c: Cockpit, f: Sums, p: JetParams, dt: Single)
    requires
        crate::rounding::unit_exact(f),
        dt.zero(),
        crate::rounding::modest(c.rpm) && crate::rounding::modest(c.goal(f, p)),
        crate::math::is_share(c.boost) && crate::math::is_share(c.boost_s),
        crate::math::is_share(c.speed) && crate::math::is_share(c.speed_s),
    ensures
        crate::rounding::same(c.spooled(f, p, dt).rpm, c.rpm),
        crate::rounding::same(c.spooled(f, p, dt).boost_s, c.boost_s),
        crate::rounding::same(c.spooled(f, p, dt).speed_s, c.speed_s),
{
    let (zero, one) = (Single::of(ZERO), Single::of(ONE));
    assert(dt.negated().zero());
    let spool = if c.rpm.below(c.goal(f, p)) { p.spool_up } else { p.spool_down };
    let tau = f(Prim::Div, spool, Single::of(THREE)).larger(Single::of(P0_001));
    assert(!tau.nan() && !tau.zero());
    assert(f(Prim::Div, dt.negated(), tau).zero());
    assert(f(Prim::Div, dt.negated(), Single::of(P0_08)).zero());
    assert(f(Prim::Sub, one, one).zero());
}

/// Without boost the afterburner is silent and without speed there is no wind; at full boost the
/// afterburner has half its level, and the output has the gain of the engine times the master gain.
/// A layer whose level is zero is silent.
pub proof fn lemma_layers_follow_controls(s: JetView, f: Sums, c: Cockpit, n: Single)
    requires
        crate::rounding::unit_exact(f),
        s.p.burner_level.finite() && s.p.wind_level.finite() && s.p.hiss_level.finite() && s.p.whine_level.finite()
            && s.p.roar_level.finite() && s.p.gain.finite(),
        c.boost_s.finite() && c.speed_s.finite(),
    ensures
        c.boost_s.zero() ==> s.mix(f, c, n).burner_gain.zero(),
        c.boost_s == Single::of(ONE) ==> s.mix(f, c, n).burner_gain == f(Prim::Mul, s.p.burner_level, Single::of(HALF)),
        c.speed_s.zero() ==> s.mix(f, c, n).wind_gain.zero(),
        c.speed_s == Single::of(ONE) ==> s.mix(f, c, n).wind_gain == f(Prim::Mul, s.p.wind_level, Single::of(P2_5)),
        c.rpm == Single::of(ONE) ==> s.mix(f, c, n).hiss_gain == f(Prim::Mul, s.p.hiss_level, Single::of(HALF)),
        c.rpm.zero() ==> s.mix(f, c, n).hiss_gain.zero(),
        c.master_gain == Single::of(ONE) && c.sputter_gain == Single::of(ONE) ==> s.mix(f, c, n).out_gain == s.p.gain,
        c.master_gain.zero() ==> s.mix(f, c, n).out_gain.zero() || !c.sputter_gain.finite(),
        s.p.burner_level.zero() ==> s.mix(f, c, n).burner_gain.zero(),
        s.p.wind_level.zero() ==> s.mix(f, c, n).wind_gain.zero(),
        s.p.hiss_level.zero() && c.rpm.finite() ==> s.mix(f, c, n).hiss_gain.zero(),
{
    let b = f(Prim::Mul, s.p.burner_level, c.boost_s);
    let w = f(Prim::Mul, s.p.wind_level, c.speed_s);
    let r1 = c.rpm.smaller(Single::of(ONE));
    let h = f(Prim::Mul, s.p.hiss_level, r1);
    if c.master_gain.zero() && c.sputter_gain.finite() {
        assert(f(Prim::Mul, s.p.gain, c.master_gain).zero());
    }
}

/// The pitch and the tone follow the RPM: at an RPM of one and without jitter the whine has its own
/// frequency, its second partial an octave more and its fourth half, and the roar its own cutoff.
pub proof fn lemma_tone_follows_rpm(s: JetView, f: Sums, c: Cockpit, n: Single)
    requires
        crate::rounding::unit_exact(f),
        c.rpm == Single::of(ONE),
        c.jitter.zero(),
        s.p.whine_hz.finite() && s.p.roar_hz.finite(),
        Single::of(P20).at_most(s.p.whine_hz),
        s.p.whine_hz.at_most(f(Prim::Mul, s.sr, Single::of(P0_4))),
    ensures
        s.mix(f, c, n).inc.a == f(Prim::Div, s.p.whine_hz, s.sr),
        s.p.whine_detune.zero() ==> s.mix(f, c, n).inc.b == s.mix(f, c, n).inc.a,
        crate::rounding::modest(s.p.whine_hz) ==> s.mix(f, c, n).inc.c == f(
            Prim::Div,
            f(Prim::Add, s.p.whine_hz, s.p.whine_hz),
            s.sr,
        ),
        s.tuned(f, c).roar_lp == s.turbine.layers.roar_lp.tuned(f, FilterMode::LowPass, s.p.roar_hz, s.p.roar_resonance, s.sr),
{
    let one = Single::of(ONE);
    assert(f(Prim::Add, one, c.jitter) == one);
    assert(f(Prim::Mul, s.p.whine_hz, one) == s.p.whine_hz);
    assert(f(Prim::Sub, one, one).zero());
    assert(f(Prim::Mul, Single::of(TWO), f(Prim::Sub, one, one)).zero());
    if s.p.whine_detune.zero() {
        assert(f(Prim::Div, s.p.whine_detune, Single::of(P1200)).zero());
    }
}

/// An engine without damage never drops out: once a running drop-out is over its gain is one.
pub proof fn lemma_undamaged_runs_smoothly(c: Cockpit, f: Sums)
    requires
        c.damage.zero(),
    ensures
        c.sputter_blocks == 0 ==> c.sputtered(f).sputter_gain == Single::of(ONE) && c.sputtered(f).sputter_blocks == 0,
        c.sputter_blocks > 0 ==> c.sputtered(f).sputter_blocks == c.sputter_blocks - 1,
{
}

/// A drop-out lasts two to seven blocks at a gain of 0.05 to 0.4, and only damage starts one.
pub proof fn lemma_dropouts_are_short(c: Cockpit, f: Sums)
    ensures
        c.sputter_blocks == 0 ==> ({
            let d = c.sputtered(f);
            ||| d.sputter_blocks == 0 && d.sputter_gain == Single::of(ONE)
            ||| 2 <= d.sputter_blocks <= 7 && Single::of(P0_05).at_most(d.sputter_gain) && d.sputter_gain.below(Single::of(P0_4))
                && Single::of(ZERO).below(c.damage)
        }),
        c.sputter_blocks > 0 ==> c.sputtered(f).sputter_gain == c.sputter_gain,
{
}

/// What went into the tube comes out of it after its delay: a whole number of samples `k` back is
/// the sample that was written `k` writes ago.
pub proof fn lemma_tube_gives_back(f: Sums, tube: Seq<Single>, k: int)
    requires
        crate::rounding::unit_exact(f),
        1 <= k < tube.len(),
        k <= 0x0100_0000,
        forall|j: int| 0 <= j < tube.len() ==> crate::rounding::modest(#[trigger] tube[j]),
    ensures
        crate::rounding::same(crate::jet::tube_tap(f, tube, crate::single::sized(k as nat)), tube[tube.len() - k]),
{
    let d = crate::single::sized(k as nat);
    crate::rounding::lemma_whole_number(k);
    let len = tube.len() as int;
    vstd::arithmetic::div_mod::lemma_small_mod((len - k) as nat, len as nat);
    let (x, y) = (tube[len - k], tube[len - 1 - k]);
    assert(crate::rounding::modest(x) && crate::rounding::modest(y));
    assert(f(Prim::Sub, d, d).zero());
    assert(f(Prim::Mul, f(Prim::Sub, y, x), f(Prim::Sub, d, d)).zero());
}

} // verus!
