//! What the inputs of the engines do: hover craft, combustion engine, motor and rotor.
use vstd::prelude::*;

use crate::arith::{Prim, Sums};
use crate::generators::vehicles::{Combustion, CombustionParams, CombustionView, HoverParams, HoverView, MotorParams, MotorView, Rotor, RotorParams, P0_15, P0_2, P0_25, P0_3, P0_35, P0_6, P0_65, P0_7, P0_75, P0_8, P0_9, P12, P1_1, P1_5, P2_5, P60};
use crate::single::{Single, HALF, ONE, THREE, TWO, ZERO};

verus! {

/// A parameter or a rate of ordinary size that is not negative.
pub open spec fn ordinary(x: Single) -> bool {
    Single::of(ZERO).at_most(x) && crate::rounding::under(x, 20)
}

/// An engine rises at the pace of its time up, whatever its time down, and falls at the pace of the
/// latter; one that is where it should be stays.
pub proof fn lemma_engine_paces(f: Sums, y: Single, target: Single, up: Single, down: Single, other: Single, dt: Single)
    requires
        crate::rounding::unit_exact(f),
        crate::rounding::modest(y),
        crate::rounding::modest(target),
    ensures
        y.below(target) ==> crate::generators::vehicles::slewed(f, y, target, up, down, dt) == crate::generators::vehicles::slewed(f, y, target, up, other, dt),
        !y.below(target) ==> crate::generators::vehicles::slewed(f, y, target, up, down, dt) == crate::generators::vehicles::slewed(f, y, target, other, down, dt),
        y == target && crate::blocks::settling(f, down, dt).finite() ==> crate::rounding::same(crate::generators::vehicles::slewed(f, y, target, up, down, dt), target),
        y.zero() && up.at_most(Single::of(ZERO)) && y.below(target) ==> crate::generators::vehicles::slewed(f, y, target, up, down, dt) == target,
        crate::math::is_share(y) && target == Single::of(ONE) && y.below(target) && up.at_most(Single::of(ZERO)) ==> crate::generators::vehicles::slewed(
            f,
            y,
            target,
            up,
            down,
            dt,
        ) == target,
{
    let gap = f(Prim::Sub, target, y);
    assert(gap.finite());
    assert(f(Prim::Mul, gap, Single::of(ONE)) == gap);
    if y == target {
        assert(f(Prim::Sub, y, y).zero());
    }
}

/// The gentle start of motors and rotors: silence at a standstill, everything from a twelfth of full
/// speed on.
pub proof fn lemma_gentle_start(f: Sums, x: Single)
    requires
        crate::rounding::unit_exact(f),
        crate::rounding::small_exact(f),
        crate::math::is_share(x),
    ensures
        x.zero() ==> crate::generators::vehicles::faded_in(f, x).zero(),
        Single::of(ONE).at_most(f(Prim::Mul, x, Single::of(P12))) ==> crate::generators::vehicles::faded_in(f, x) == Single::of(ONE),
        crate::generators::vehicles::faded_in(f, Single::of(ONE)) == Single::of(ONE),
{
    let (zero, one, two, three) = (Single::of(ZERO), Single::of(ONE), Single::of(TWO), Single::of(THREE));
    assert(f(Prim::Mul, one, Single::of(P12)) == Single::of(P12));
    let t = f(Prim::Mul, x, Single::of(P12)).within(zero, one);
    if x.zero() {
        assert(t.zero());
        assert(f(Prim::Mul, two, t).zero());
        assert(f(Prim::Sub, three, f(Prim::Mul, two, t)) == three);
    }
    assert(f(Prim::Mul, two, one) == two);
    assert(f(Prim::Sub, three, two) == one);
}

/// A hover craft with more thrust sounds no lower and no softer.
pub proof fn lemma_hover_thrust(f: Sums, p: HoverParams, x: Seq<Single>, y: Seq<Single>, n: Single, s: HoverView, t: HoverView)
    requires
        crate::rounding::faithful(f),
        ordinary(p.base_hz) && ordinary(p.gain) && ordinary(p.shimmer_level),
        s.sr == t.sr && Single::of(ZERO).below(s.sr) && s.sr.finite(),
        crate::math::is_share(crate::generators::vehicles::hover_steered(f, p, x, n, s).0.thrust),
        crate::math::is_share(crate::generators::vehicles::hover_steered(f, p, y, n, t).0.thrust),
        crate::generators::vehicles::hover_steered(f, p, x, n, s).0.thrust.at_most(crate::generators::vehicles::hover_steered(f, p, y, n, t).0.thrust),
    ensures
        crate::generators::vehicles::hover_steered(f, p, x, n, s).1.inc0.at_most(crate::generators::vehicles::hover_steered(f, p, y, n, t).1.inc0),
        crate::generators::vehicles::hover_steered(f, p, x, n, s).1.level.at_most(crate::generators::vehicles::hover_steered(f, p, y, n, t).1.level),
        crate::generators::vehicles::hover_steered(f, p, x, n, s).1.shimmer_gain.at_most(crate::generators::vehicles::hover_steered(f, p, y, n, t).1.shimmer_gain),
{
    let (a, b) = (crate::generators::vehicles::hover_steered(f, p, x, n, s).0.thrust, crate::generators::vehicles::hover_steered(f, p, y, n, t).0.thrust);
    crate::rounding::lemma_shares_rise(a, b);
    crate::rounding::lemma_line_rises(f, Single::of(ONE), Single::of(P0_9), a, b, 0);
    crate::rounding::lemma_level(p.base_hz, 20);
    let (ha, hb) = (f(Prim::Add, Single::of(ONE), f(Prim::Mul, Single::of(P0_9), a)), f(Prim::Add, Single::of(ONE), f(Prim::Mul, Single::of(P0_9), b)));
    crate::rounding::lemma_product_rises(f, p.base_hz, p.base_hz, ha, hb, 20, 1);
    crate::rounding::lemma_line_rises(f, Single::of(P0_25), Single::of(P0_75), a, b, 0);
    let (la, lb) = (f(Prim::Add, Single::of(P0_25), f(Prim::Mul, Single::of(P0_75), a)), f(Prim::Add, Single::of(P0_25), f(Prim::Mul, Single::of(P0_75), b)));
    crate::rounding::lemma_level(p.gain, 20);
    crate::rounding::lemma_product_rises(f, la, lb, p.gain, p.gain, 1, 20);
    crate::rounding::lemma_level(Single::of(HALF), 0);
    crate::rounding::lemma_product_rises(f, f(Prim::Mul, la, p.gain), f(Prim::Mul, lb, p.gain), Single::of(HALF), Single::of(HALF), 21, 0);
    crate::rounding::lemma_line_rises(f, Single::of(P0_2), Single::of(P0_8), a, b, 0);
    let (sa, sb) = (f(Prim::Add, Single::of(P0_2), f(Prim::Mul, Single::of(P0_8), a)), f(Prim::Add, Single::of(P0_2), f(Prim::Mul, Single::of(P0_8), b)));
    crate::rounding::lemma_level(p.shimmer_level, 20);
    crate::rounding::lemma_product_rises(f, p.shimmer_level, p.shimmer_level, sa, sb, 20, 1);
    crate::rounding::lemma_level(Single::of(P1_5), 1);
    crate::rounding::lemma_product_rises(f, f(Prim::Mul, p.shimmer_level, sa), f(Prim::Mul, p.shimmer_level, sb), Single::of(P1_5), Single::of(P1_5), 21, 1);
}

/// The higher a hover craft is, the less of its sub is heard; without strain it is not driven; a craft
/// without gain is silent.
pub proof fn lemma_hover_height(f: Sums, p: HoverParams, x: Seq<Single>, y: Seq<Single>, n: Single, s: HoverView)
    requires
        crate::rounding::faithful(f),
        ordinary(p.sub_level) && ordinary(p.strain_drive),
        crate::math::is_share(x[1]) && crate::math::is_share(y[1]) && x[1].at_most(y[1]),
        crate::math::is_share(crate::generators::vehicles::hover_steered(f, p, x, n, s).0.thrust),
    ensures
        crate::generators::vehicles::hover_steered(f, p, y, n, s).1.sub_gain.at_most(crate::generators::vehicles::hover_steered(f, p, x, n, s).1.sub_gain),
        x[2].zero() ==> crate::generators::vehicles::hover_steered(f, p, x, n, s).1.drive == Single::of(ONE),
        p.gain.zero() ==> crate::generators::vehicles::hover_steered(f, p, x, n, s).1.level.zero(),
        p.sub_level.zero() ==> crate::generators::vehicles::hover_steered(f, p, x, n, s).1.sub_gain.zero(),
{
    let (zero, one) = (Single::of(ZERO), Single::of(ONE));
    let (a, b) = (f(Prim::Sub, one, y[1]), f(Prim::Sub, one, x[1]));
    assert(a.at_most(b));
    assert(f(Prim::Sub, one, one).at_most(a));
    assert(b.at_most(f(Prim::Sub, one, zero)));
    assert(crate::rounding::rising(a, b, 0));
    crate::rounding::lemma_line_rises(f, one, Single::of(P0_8), a, b, 0);
    let (ga, gb) = (f(Prim::Add, one, f(Prim::Mul, Single::of(P0_8), a)), f(Prim::Add, one, f(Prim::Mul, Single::of(P0_8), b)));
    crate::rounding::lemma_level(p.sub_level, 20);
    crate::rounding::lemma_product_rises(f, p.sub_level, p.sub_level, ga, gb, 20, 1);
    let t = crate::generators::vehicles::hover_steered(f, p, x, n, s).0.thrust;
    crate::rounding::lemma_shares_rise(t, t);
    crate::rounding::lemma_line_rises(f, Single::of(P0_25), Single::of(P0_75), t, t, 0);
    assert(gb.finite());
}

/// A combustion engine idles at its idle speed and revs up to its top speed.
pub proof fn lemma_combustion_speed(f: Sums, p: CombustionParams, rev: Single, more: Single)
    requires
        crate::rounding::faithful(f),
        ordinary(p.idle_rpm) && ordinary(p.max_rpm),
        p.idle_rpm.at_most(p.max_rpm),
        crate::math::is_share(rev) && crate::math::is_share(more) && rev.at_most(more),
    ensures
        rev.zero() ==> crate::rounding::same(Combustion::speed(f, rev, p), p.idle_rpm),
        rev == Single::of(ONE) ==> Combustion::speed(f, rev, p) == f(Prim::Add, p.idle_rpm, f(Prim::Sub, p.max_rpm, p.idle_rpm)),
        p.idle_rpm.zero() && rev == Single::of(ONE) ==> crate::rounding::same(Combustion::speed(f, rev, p), p.max_rpm),
        p.idle_rpm == p.max_rpm ==> crate::rounding::same(Combustion::speed(f, rev, p), p.max_rpm),
        Combustion::speed(f, rev, p).at_most(Combustion::speed(f, more, p)),
{
    let span = f(Prim::Sub, p.max_rpm, p.idle_rpm);
    assert(f(Prim::Sub, p.idle_rpm, p.idle_rpm).at_most(span));
    assert(span.at_most(f(Prim::Sub, p.max_rpm, Single::of(ZERO))));
    crate::rounding::lemma_shares_rise(rev, more);
    assert(crate::rounding::under(span, 20));
    crate::rounding::lemma_line_rises(f, p.idle_rpm, span, rev, more, 20);
    if p.idle_rpm == p.max_rpm {
        assert(f(Prim::Sub, p.max_rpm, p.max_rpm).zero());
    }
}

/// An engine with more revs and load is no softer, one with more throttle draws no less air, and it only
/// pops when its revs are above its throttle.
pub proof fn lemma_combustion_inputs(f: Sums, p: CombustionParams, x: Seq<Single>, y: Seq<Single>, n: Single, s: CombustionView, t: CombustionView)
    requires
        crate::rounding::faithful(f),
        ordinary(p.gain) && ordinary(p.intake_level) && ordinary(p.burble),
        crate::math::is_share(x[0]) && crate::math::is_share(y[0]) && x[0].at_most(y[0]),
        crate::math::is_share(x[1]) && crate::math::is_share(y[1]) && x[1].at_most(y[1]),
        Single::of(ZERO).below(s.sr) && s.sr.finite(),
        crate::math::is_share(crate::generators::vehicles::combustion_steered(f, p, x, n, s).0.rev),
        crate::math::is_share(crate::generators::vehicles::combustion_steered(f, p, y, n, t).0.rev),
        crate::generators::vehicles::combustion_steered(f, p, x, n, s).0.rev.at_most(crate::generators::vehicles::combustion_steered(f, p, y, n, t).0.rev),
    ensures
        crate::generators::vehicles::combustion_steered(f, p, x, n, s).1.level.at_most(crate::generators::vehicles::combustion_steered(f, p, y, n, t).1.level),
        crate::generators::vehicles::combustion_steered(f, p, x, n, s).1.intake_gain.at_most(crate::generators::vehicles::combustion_steered(f, p, y, n, t).1.intake_gain),
        crate::generators::vehicles::combustion_steered(f, p, x, n, s).0.rev.at_most(x[0]) ==> crate::generators::vehicles::combustion_steered(f, p, x, n, s).1.pop_p.zero(),
        p.burble.zero() ==> crate::generators::vehicles::combustion_steered(f, p, x, n, s).1.pop_p.zero(),
        p.drive.zero() ==> crate::generators::vehicles::combustion_steered(f, p, x, n, s).1.drive == Single::of(ONE),
{
    let (zero, half) = (Single::of(ZERO), Single::of(HALF));
    let (a, b) = (crate::generators::vehicles::combustion_steered(f, p, x, n, s).0.rev, crate::generators::vehicles::combustion_steered(f, p, y, n, t).0.rev);
    crate::rounding::lemma_shares_rise(a, b);
    crate::rounding::lemma_shares_rise(x[0], y[0]);
    crate::rounding::lemma_shares_rise(x[1], y[1]);
    crate::rounding::lemma_level(half, 0);
    crate::rounding::lemma_product_rises(f, x[0], y[0], half, half, 0, 0);
    let (ta, tb) = (f(Prim::Mul, x[0], half), f(Prim::Mul, y[0], half));
    let (ka, kb) = (x[1].larger(ta), y[1].larger(tb));
    assert(crate::rounding::rising(ka, kb, 0));
    crate::rounding::lemma_line_rises(f, Single::of(P0_35), Single::of(P0_65), ka, kb, 0);
    crate::rounding::lemma_line_rises(f, Single::of(P0_7), Single::of(P0_6), a, b, 0);
    let (la, lb) = (f(Prim::Add, Single::of(P0_35), f(Prim::Mul, Single::of(P0_65), ka)), f(Prim::Add, Single::of(P0_35), f(Prim::Mul, Single::of(P0_65), kb)));
    let (ra, rb) = (f(Prim::Add, Single::of(P0_7), f(Prim::Mul, Single::of(P0_6), a)), f(Prim::Add, Single::of(P0_7), f(Prim::Mul, Single::of(P0_6), b)));
    crate::rounding::lemma_product_rises(f, la, lb, ra, rb, 1, 1);
    crate::rounding::lemma_level(p.gain, 20);
    crate::rounding::lemma_product_rises(f, f(Prim::Mul, la, ra), f(Prim::Mul, lb, rb), p.gain, p.gain, 2, 20);
    crate::rounding::lemma_level(Single::of(P1_1), 1);
    crate::rounding::lemma_product_rises(f, f(Prim::Mul, f(Prim::Mul, la, ra), p.gain), f(Prim::Mul, f(Prim::Mul, lb, rb), p.gain), Single::of(P1_1), Single::of(P1_1), 22, 1);
    crate::rounding::lemma_line_rises(f, Single::of(P0_2), Single::of(P0_8), x[0], y[0], 0);
    let (ia, ib) = (f(Prim::Add, Single::of(P0_2), f(Prim::Mul, Single::of(P0_8), x[0])), f(Prim::Add, Single::of(P0_2), f(Prim::Mul, Single::of(P0_8), y[0])));
    crate::rounding::lemma_level(p.intake_level, 20);
    crate::rounding::lemma_product_rises(f, p.intake_level, p.intake_level, ia, ib, 20, 1);
    crate::rounding::lemma_level(Single::of(P1_5), 1);
    crate::rounding::lemma_product_rises(f, f(Prim::Mul, p.intake_level, ia), f(Prim::Mul, p.intake_level, ib), Single::of(P1_5), Single::of(P1_5), 21, 1);
    let over = f(Prim::Sub, f(Prim::Sub, a, x[0]), Single::of(P0_15));
    assert(crate::rounding::under(a, 0) && crate::rounding::under(x[0], 0));
    assert(crate::rounding::under(f(Prim::Sub, a, x[0]), 1));
    assert(crate::rounding::under(Single::of(P0_15), 1));
    assert(crate::rounding::under(over, 2));
    assert(over.larger(zero).finite());
    if a.at_most(x[0]) {
        assert(f(Prim::Sub, a, x[0]).at_most(f(Prim::Sub, x[0], x[0])));
        assert(f(Prim::Sub, x[0], x[0]).zero());
        assert(over.at_most(f(Prim::Sub, zero, Single::of(P0_15))));
        assert(over.larger(zero).zero());
    }
}

/// The firing rate of an engine: half its cylinders fire every turn, so that at sixty turns a minute two
/// cylinders fire once a second, and engines with more cylinders fire no more rarely.
pub proof fn lemma_firing_rate(f: Sums, p: CombustionParams, q: CombustionParams, x: Seq<Single>, n: Single, s: CombustionView)
    requires
        crate::rounding::faithful(f),
        crate::rounding::small_exact(f),
        ordinary(p.idle_rpm),
        p.max_rpm == p.idle_rpm,
        q == (CombustionParams { cylinders: q.cylinders, ..p }),
        crate::generators::vehicles::cylinder_count(p) <= crate::generators::vehicles::cylinder_count(q),
        crate::math::is_share(crate::generators::vehicles::combustion_steered(f, p, x, n, s).0.rev),
        Single::of(ZERO).below(s.sr) && s.sr.finite(),
        crate::rounding::under(f(Prim::Div, p.idle_rpm, Single::of(P60)), 20),
        crate::rounding::under(f(Prim::Div, Single::of(ZERO), Single::of(P60)), 20),
    ensures
        crate::generators::vehicles::combustion_steered(f, p, x, n, s).1.inc.at_most(crate::generators::vehicles::combustion_steered(f, q, x, n, s).1.inc),
        p.idle_rpm == Single::of(P60) && crate::generators::vehicles::cylinder_count(p) == 2 ==> crate::generators::vehicles::combustion_steered(f, p, x, n, s).1.inc == f(
            Prim::Div,
            Single::of(ONE),
            s.sr,
        ),
{
    let (zero, half, one) = (Single::of(ZERO), Single::of(HALF), Single::of(ONE));
    let rev = crate::generators::vehicles::combustion_steered(f, p, x, n, s).0.rev;
    assert(crate::generators::vehicles::combustion_steered(f, q, x, n, s).0.rev == rev);
    let span = f(Prim::Sub, p.max_rpm, p.idle_rpm);
    assert(span.zero());
    let rpm = f(Prim::Add, p.idle_rpm, f(Prim::Mul, span, rev));
    assert(crate::rounding::same(rpm, p.idle_rpm));
    let turns = f(Prim::Div, rpm, Single::of(P60));
    assert(f(Prim::Div, zero, Single::of(P60)).zero());
    assert(turns.zero() || rpm == p.idle_rpm);
    assert(f(Prim::Div, zero, Single::of(P60)).at_most(f(Prim::Div, p.idle_rpm, Single::of(P60))));
    assert(crate::rounding::rising(turns, turns, 20));
    let (a, b) = (crate::single::signed_integer(crate::generators::vehicles::cylinder_count(p)), crate::single::signed_integer(crate::generators::vehicles::cylinder_count(q)));
    crate::rounding::lemma_whole_number(crate::generators::vehicles::cylinder_count(p));
    crate::rounding::lemma_whole_number(crate::generators::vehicles::cylinder_count(q));
    crate::rounding::lemma_whole_order(crate::generators::vehicles::cylinder_count(p), crate::generators::vehicles::cylinder_count(q));
    crate::rounding::lemma_whole_order(crate::generators::vehicles::cylinder_count(q), 12);
    lemma_sixteen(b, crate::generators::vehicles::cylinder_count(q));
    assert(crate::rounding::rising(a, b, 4));
    crate::rounding::lemma_product_rises(f, turns, turns, a, b, 20, 4);
    crate::rounding::lemma_level(half, 0);
    crate::rounding::lemma_product_rises(f, f(Prim::Mul, turns, a), f(Prim::Mul, turns, b), half, half, 24, 0);
    assert(f(Prim::Div, Single::of(P60), Single::of(P60)) == one);
    if crate::generators::vehicles::cylinder_count(p) == 2 {
        lemma_two();
    }
}

/// Whole numbers up to twelve are below sixteen.
proof fn lemma_sixteen(b: Single, k: int)
    requires
        1 <= k <= 12,
        b == crate::single::signed_integer(k),
    ensures
        crate::rounding::under(b, 4),
        b.finite(),
        Single::of(ZERO).at_most(b),
{
    let top = Single::of(0x4180_0000);
    vstd::arithmetic::power2::lemma2_to64();
    vstd::arithmetic::power2::lemma_pow2_adds(19, 130);
    vstd::arithmetic::power2::lemma_pow2_pos(149);
    assert(top.magnitude() / 0x0080_0000 == 131);
    assert(top.magnitude() % 0x0080_0000 == 0);
    assert(top.units() == 0x0080_0000 * vstd::arithmetic::power2::pow2(130));
    crate::single::lemma_integer_held(k);
    let u = crate::single::unit() as int;
    assert(top.value() == 16 * u);
    assert(k * u <= 16 * u) by (nonlinear_arith)
        requires
            k <= 16,
            u > 0,
    ;
    assert(0 <= k * u) by (nonlinear_arith)
        requires
            0 <= k,
            u > 0,
    ;
    assert(Single::of(ZERO).value() == 0);
    crate::single::lemma_order_is_value_order(b, top);
    crate::single::lemma_order_is_value_order(Single::of(ZERO), b);
}

proof fn lemma_two()
    ensures
        crate::single::signed_integer(2) == Single::of(TWO),
{
    vstd::arithmetic::power2::lemma2_to64();
    vstd::arithmetic::power2::lemma_pow2_adds(1, 149);
    vstd::arithmetic::power2::lemma_pow2_adds(23, 127);
    vstd::arithmetic::power2::lemma_pow2_pos(149);
    assert(Single::of(TWO).magnitude() / 0x0080_0000 == 128);
    assert(Single::of(TWO).magnitude() % 0x0080_0000 == 0);
    crate::single::lemma_with_value(Single::of(TWO));
}

/// A motor at a standstill is silent and has no pitch, at full speed it has its top pitch, and under load it
/// is no softer.
pub proof fn lemma_motor_inputs(f: Sums, p: MotorParams, x: Seq<Single>, y: Seq<Single>, n: Single, s: MotorView)
    requires
        crate::rounding::faithful(f),
        crate::rounding::small_exact(f),
        ordinary(p.gain) && ordinary(p.gear_level) && ordinary(p.pwm_level) && ordinary(p.max_hz),
        x[0] == y[0],
        crate::math::is_share(x[1]) && crate::math::is_share(y[1]) && x[1].at_most(y[1]),
        crate::math::is_share(crate::generators::vehicles::motor_steered(f, p, x, n, s).0.spin),
        crate::generators::vehicles::motor_steered(f, p, x, n, s).0.spin.zero() || crate::generators::vehicles::motor_steered(f, p, x, n, s).0.spin == Single::of(ONE),
        forall|z: Single, w: Single| z.zero() ==> (#[trigger] f(Prim::Sqrt, z, w)).zero(),
        forall|w: Single| #[trigger] f(Prim::Sqrt, Single::of(ONE), w) == Single::of(ONE),
        Single::of(ZERO).below(s.sr) && s.sr.finite(),
    ensures
        crate::generators::vehicles::motor_steered(f, p, x, n, s).0.spin.zero() ==> crate::generators::vehicles::motor_steered(f, p, x, n, s).1.level.zero() && crate::generators::vehicles::motor_steered(
            f,
            p,
            x,
            n,
            s,
        ).1.inc.zero(),
        crate::generators::vehicles::motor_steered(f, p, x, n, s).0.spin == Single::of(ONE) ==> crate::generators::vehicles::motor_steered(f, p, x, n, s).1.inc == f(Prim::Div, p.max_hz, s.sr),
        crate::generators::vehicles::motor_steered(f, p, x, n, s).1.level.at_most(crate::generators::vehicles::motor_steered(f, p, y, n, s).1.level),
        crate::generators::vehicles::motor_steered(f, p, x, n, s).1.gear_gain.at_most(crate::generators::vehicles::motor_steered(f, p, y, n, s).1.gear_gain),
        crate::generators::vehicles::motor_steered(f, p, x, n, s).1.pwm_gain.at_most(crate::generators::vehicles::motor_steered(f, p, y, n, s).1.pwm_gain),
{
    let dt = f(Prim::Div, n, s.sr);
    let spin = crate::generators::vehicles::slewed(f, s.spin, x[0], p.spin_up, p.spin_down, dt);
    lemma_amps_keep_rest(f, f(Prim::Mul, p.max_hz, spin), s.sr, f(Prim::Sub, Single::of(TWO), f(Prim::Mul, Single::of(P1_5), p.harmonics)), MotorView { spin, ..s }, 5);
    lemma_gentle_start(f, spin);
    crate::rounding::lemma_shares_rise(x[1], y[1]);
    crate::rounding::lemma_line_rises(f, Single::of(P0_3), Single::of(P0_7), x[1], y[1], 0);
    let (a, b) = (f(Prim::Add, Single::of(P0_3), f(Prim::Mul, Single::of(P0_7), x[1])), f(Prim::Add, Single::of(P0_3), f(Prim::Mul, Single::of(P0_7), y[1])));
    let start = f(Prim::Mul, crate::generators::vehicles::faded_in(f, spin), f(Prim::Sqrt, spin, Single::of(ZERO)));
    assert(crate::rounding::same(start, spin));
    assert(crate::rounding::rising(start, start, 0));
    crate::rounding::lemma_product_rises(f, start, start, a, b, 0, 1);
    crate::rounding::lemma_level(p.gain, 20);
    crate::rounding::lemma_product_rises(f, f(Prim::Mul, start, a), f(Prim::Mul, start, b), p.gain, p.gain, 1, 20);
    crate::rounding::lemma_level(Single::of(P2_5), 2);
    crate::rounding::lemma_product_rises(f, f(Prim::Mul, f(Prim::Mul, start, a), p.gain), f(Prim::Mul, f(Prim::Mul, start, b), p.gain), Single::of(P2_5), Single::of(P2_5), 21, 2);
    crate::rounding::lemma_level(p.gear_level, 20);
    crate::rounding::lemma_product_rises(f, p.gear_level, p.gear_level, a, b, 20, 1);
    crate::rounding::lemma_level(Single::of(TWO), 1);
    crate::rounding::lemma_product_rises(f, f(Prim::Mul, p.gear_level, a), f(Prim::Mul, p.gear_level, b), Single::of(TWO), Single::of(TWO), 21, 1);
    crate::rounding::lemma_level(p.pwm_level, 20);
    crate::rounding::lemma_product_rises(f, p.pwm_level, p.pwm_level, a, b, 20, 1);
    if spin.zero() {
        assert(start.zero());
        assert(f(Prim::Mul, start, a).zero());
    }
}

proof fn lemma_amps_keep_rest(f: Sums, hz: Single, sr: Single, slope: Single, s: MotorView, k: nat)
    ensures
        crate::generators::vehicles::motor_amps_of(f, hz, sr, slope, s, k).spin == s.spin,
        crate::generators::vehicles::motor_amps_of(f, hz, sr, slope, s, k).sr == s.sr,
    decreases k,
{
    if k > 0 {
        lemma_amps_keep_rest(f, hz, sr, slope, s, (k - 1) as nat);
    }
}

/// A rotor at a standstill is silent and its blades pass no more, at full speed they pass at their top rate, and
/// under load they thump no softer.
pub proof fn lemma_rotor_inputs(f: Sums, p: RotorParams, x: Seq<Single>, y: Seq<Single>, n: Single, s: Rotor)
    requires
        crate::rounding::faithful(f),
        crate::rounding::small_exact(f),
        ordinary(p.gain) && ordinary(p.thump_level) && ordinary(p.max_bpf) && ordinary(p.turbine_hz) && ordinary(p.turbine_level),
        crate::math::is_share(x[1]) && crate::math::is_share(y[1]) && x[1].at_most(y[1]),
        crate::math::is_share(crate::generators::vehicles::rotor_steered(f, p, x, n, s).0.spin),
        Single::of(ZERO).below(s.sr) && s.sr.finite(),
    ensures
        crate::generators::vehicles::rotor_steered(f, p, x, n, s).0.spin.zero() ==> crate::generators::vehicles::rotor_steered(f, p, x, n, s).1.level.zero() && crate::generators::vehicles::rotor_steered(
            f,
            p,
            x,
            n,
            s,
        ).1.inc.zero() && crate::generators::vehicles::rotor_steered(f, p, x, n, s).1.turbine_gain.zero(),
        crate::generators::vehicles::rotor_steered(f, p, x, n, s).0.spin == Single::of(ONE) ==> crate::generators::vehicles::rotor_steered(f, p, x, n, s).1.inc == f(
            Prim::Div,
            p.max_bpf,
            s.sr,
        ) && crate::generators::vehicles::rotor_steered(f, p, x, n, s).1.t_inc == f(Prim::Div, p.turbine_hz, s.sr),
        crate::generators::vehicles::rotor_steered(f, p, x, n, s).1.thump_gain.at_most(crate::generators::vehicles::rotor_steered(f, p, y, n, s).1.thump_gain),
{
    let spin = crate::generators::vehicles::rotor_steered(f, p, x, n, s).0.spin;
    lemma_gentle_start(f, spin);
    let half = Single::of(HALF);
    crate::rounding::lemma_shares_rise(x[1], y[1]);
    crate::rounding::lemma_line_rises(f, half, half, x[1], y[1], 0);
    let (a, b) = (f(Prim::Add, half, f(Prim::Mul, half, x[1])), f(Prim::Add, half, f(Prim::Mul, half, y[1])));
    crate::rounding::lemma_level(p.thump_level, 20);
    crate::rounding::lemma_product_rises(f, p.thump_level, p.thump_level, a, b, 20, 1);
    crate::rounding::lemma_level(Single::of(TWO), 1);
    crate::rounding::lemma_product_rises(f, f(Prim::Mul, p.thump_level, a), f(Prim::Mul, p.thump_level, b), Single::of(TWO), Single::of(TWO), 21, 1);
    crate::rounding::lemma_shares_rise(spin, spin);
    crate::rounding::lemma_line_rises(f, Single::of(P0_3), Single::of(P0_7), spin, spin, 0);
}

/// The blades of a rotor take turns, and the first of them is the weaker one that makes it limp.
pub proof fn lemma_blades_take_turns(blade: int, p: RotorParams)
    requires
        0 <= blade < usize::MAX,
    ensures
        2 <= crate::generators::vehicles::blade_count(p) <= 8,
        0 <= crate::generators::vehicles::next_blade(blade, p) < crate::generators::vehicles::blade_count(p),
        blade + 1 < crate::generators::vehicles::blade_count(p) ==> crate::generators::vehicles::next_blade(blade, p) == blade + 1,
        blade + 1 == crate::generators::vehicles::blade_count(p) ==> crate::generators::vehicles::next_blade(blade, p) == 0,
{
    if blade + 1 < crate::generators::vehicles::blade_count(p) {
        vstd::arithmetic::div_mod::lemma_small_mod((blade + 1) as nat, crate::generators::vehicles::blade_count(p) as nat);
    } else if blade + 1 == crate::generators::vehicles::blade_count(p) {
        vstd::arithmetic::div_mod::lemma_mod_self_0(crate::generators::vehicles::blade_count(p));
    }
}

} // verus!
