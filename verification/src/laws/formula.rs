//! What formulas, inputs and the wiring of a model file do.
use vstd::prelude::*;

use crate::arith::{Prim, Sums};
use crate::filter::FilterMode;
use crate::graph::assemble::{Binding, Color};
use crate::graph::expr::{ExprState, LN_FLOOR};
use crate::graph::assemble::Plan;
use crate::graph::grammar::{Bin, Func, Op, StFn, F1, F2, F3};
use crate::graph::library::NodeType;
use crate::graph::run::{INPUT_OFF, P1000000};
use crate::graph::spec::NodeSpec;
use crate::graph::node::KindView;
use crate::graph::wiring::Source;
use crate::math::{A4_HZ, A4_NOTE, DECADE_DB, TEN};
use crate::osc::Waveform;
use crate::single::{Single, HALF, ONE, THREE, TWO, ZERO};

verus! {

/// The operators of formulas: what is added can be taken away, a product with one and a quotient by one
/// are the number itself, a number over itself is one, a power of zero is one and of one the number, and
/// a comparison is one where it holds and zero where it does not.
pub proof fn lemma_operators(f: Sums, a: Single, b: Single)
    requires
        crate::rounding::unit_exact(f),
        a.finite(),
        !a.zero(),
        b.finite(),
    ensures
        crate::graph::expr::bin_value(f, Bin::Add, a, Single::of(ZERO)) == a,
        crate::graph::expr::bin_value(f, Bin::Add, a, a.negated()).zero(),
        crate::graph::expr::bin_value(f, Bin::Sub, a, Single::of(ZERO)) == a,
        crate::graph::expr::bin_value(f, Bin::Sub, a, a).zero(),
        crate::graph::expr::bin_value(f, Bin::Mul, a, Single::of(ONE)) == a,
        crate::graph::expr::bin_value(f, Bin::Mul, a, Single::of(ZERO)).zero(),
        crate::graph::expr::bin_value(f, Bin::Div, a, Single::of(ONE)) == a,
        crate::graph::expr::bin_value(f, Bin::Div, a, a) == Single::of(ONE),
        crate::graph::expr::bin_value(f, Bin::Pow, a, Single::of(ZERO)) == Single::of(ONE),
        crate::graph::expr::bin_value(f, Bin::Pow, a, Single::of(ONE)) == a,
        crate::graph::expr::bin_value(f, Bin::Lt, a, b) == crate::graph::expr::bin_value(f, Bin::Gt, b, a),
        a.below(b) ==> crate::graph::expr::bin_value(f, Bin::Lt, a, b) == Single::of(ONE) && crate::graph::expr::bin_value(f, Bin::Gt, a, b) == Single::of(ZERO),
        b.at_most(a) ==> crate::graph::expr::bin_value(f, Bin::Lt, a, b) == Single::of(ZERO),
{
}

/// The operands of a step are taken in the order they are written in.
pub proof fn lemma_operands_in_order(f: Sums, op: Bin, func: F2, a: Single, b: Single, c: Single, third: F3, vars: Seq<Single>, states: Seq<ExprState>, dt: Single)
    ensures
        crate::graph::expr::op_value(f, Op::Bin(op), seq![a, b], vars, states, dt) == (crate::graph::expr::bin_value(f, op, a, b), states),
        crate::graph::expr::op_value(f, Op::Call(Func::F2(func)), seq![a, b], vars, states, dt) == (crate::graph::expr::two_value(f, func, a, b), states),
        crate::graph::expr::op_value(f, Op::Call(Func::F3(third)), seq![a, b, c], vars, states, dt) == (crate::graph::expr::three_value(f, third, a, b, c), states),
        crate::graph::expr::op_value(f, Op::Neg, seq![a], vars, states, dt) == (a.negated(), states),
        crate::graph::expr::op_value(f, Op::Const(a), seq![], vars, states, dt) == (a, states),
{
    reveal(crate::graph::expr::op_value);
}

/// The functions of one argument where their value is known: of zero, of one, of a negative number, and
/// of the note and the level that gains and frequencies are counted from.
pub proof fn lemma_functions_of_one(f: Sums, a: Single)
    requires
        crate::rounding::unit_exact(f),
        a.finite(),
    ensures
        crate::graph::expr::one_value(f, F1::Abs, a).order() >= 0,
        crate::graph::expr::one_value(f, F1::Abs, a) == a || crate::graph::expr::one_value(f, F1::Abs, a) == a.negated(),
        a.negative() ==> crate::graph::expr::one_value(f, F1::Sqrt, a) == crate::graph::expr::one_value(f, F1::Sqrt, Single::of(ZERO)) || a.zero(),
        a.zero() ==> crate::graph::expr::one_value(f, F1::Exp, a) == Single::of(ONE),
        a.zero() ==> crate::graph::expr::one_value(f, F1::Exp2, a) == Single::of(ONE),
        crate::rounding::whole_exact(f) ==> crate::graph::expr::one_value(f, F1::Exp2, crate::single::signed_integer(3)) == crate::rounding::power_of_two(3),
        a.at_most(Single::of(LN_FLOOR)) ==> crate::graph::expr::one_value(f, F1::Ln, a) == crate::graph::expr::one_value(f, F1::Ln, Single::of(LN_FLOOR)),
        a.zero() ==> crate::graph::expr::one_value(f, F1::Sin, a).zero(),
        a.zero() ==> crate::graph::expr::one_value(f, F1::Cos, a) == Single::of(ONE),
        a.zero() ==> crate::graph::expr::one_value(f, F1::Floor, a).zero(),
        a.zero() ==> crate::graph::expr::one_value(f, F1::Db, a) == Single::of(ONE),
        crate::graph::expr::one_value(f, F1::Db, Single::of(DECADE_DB)) == Single::of(TEN),
        crate::graph::expr::one_value(f, F1::Midi, Single::of(A4_NOTE)) == Single::of(A4_HZ),
{
    assert(f(Prim::Sub, Single::of(A4_NOTE), Single::of(A4_NOTE)).zero());
    assert(f(Prim::Div, Single::of(DECADE_DB), Single::of(DECADE_DB)) == Single::of(ONE));
}

/// The smaller, the larger and the clamped number: each is one of the arguments, on the right side of the
/// others.
pub proof fn lemma_min_max_clamp(f: Sums, a: Single, b: Single, c: Single)
    requires
        !a.nan() && !b.nan() && !c.nan(),
    ensures
        crate::graph::expr::two_value(f, F2::Min, a, b).at_most(a) && crate::graph::expr::two_value(f, F2::Min, a, b).at_most(b),
        crate::graph::expr::two_value(f, F2::Min, a, b) == a || crate::graph::expr::two_value(f, F2::Min, a, b) == b,
        a.at_most(crate::graph::expr::two_value(f, F2::Max, a, b)) && b.at_most(crate::graph::expr::two_value(f, F2::Max, a, b)),
        crate::graph::expr::two_value(f, F2::Max, a, b) == a || crate::graph::expr::two_value(f, F2::Max, a, b) == b,
        b.at_most(c) ==> b.at_most(crate::graph::expr::three_value(f, F3::Clamp, a, b, c)) && crate::graph::expr::three_value(f, F3::Clamp, a, b, c).at_most(c),
        b.at_most(a) && a.at_most(c) ==> crate::graph::expr::three_value(f, F3::Clamp, a, b, c) == a,
        a.below(b) && b.at_most(c) ==> crate::graph::expr::three_value(f, F3::Clamp, a, b, c) == b,
        c.below(a) && b.at_most(c) ==> crate::graph::expr::three_value(f, F3::Clamp, a, b, c) == c,
{
}

/// The choice takes its second argument where the first is above one half, as every comparison that holds
/// is, and its third otherwise; the point between two numbers is the first at zero and moves by their
/// difference at one.
pub proof fn lemma_select_and_lerp(f: Sums, a: Single, b: Single, c: Single)
    requires
        crate::rounding::unit_exact(f),
        crate::rounding::modest(a) && crate::rounding::modest(b),
    ensures
        crate::graph::expr::three_value(f, F3::Select, crate::graph::expr::truth(true), b, c) == b,
        crate::graph::expr::three_value(f, F3::Select, crate::graph::expr::truth(false), b, c) == c,
        crate::rounding::same(crate::graph::expr::three_value(f, F3::Lerp, a, b, Single::of(ZERO)), a),
        crate::graph::expr::three_value(f, F3::Lerp, a, b, Single::of(ONE)) == f(Prim::Add, a, f(Prim::Sub, b, a)),
        a.zero() ==> crate::rounding::same(crate::graph::expr::three_value(f, F3::Lerp, a, b, Single::of(ONE)), b),
        a == b && c.finite() ==> crate::rounding::same(crate::graph::expr::three_value(f, F3::Lerp, a, b, c), a),
{
    assert(f(Prim::Sub, b, a).finite());
    if a == b {
        assert(f(Prim::Sub, a, a).zero());
    }
}

/// The smooth step is zero up to its start and one from its end on.
pub proof fn lemma_smoothstep_ends(f: Sums, a: Single, b: Single, c: Single)
    requires
        crate::rounding::unit_exact(f),
        crate::rounding::small_exact(f),
        crate::rounding::keeps_order(f),
        crate::rounding::modest(a) && crate::rounding::modest(b) && crate::rounding::modest(c),
        a.below(b),
        Single::of(ZERO).below(f(Prim::Sub, b, a)),
    ensures
        c.at_most(a) ==> crate::graph::expr::three_value(f, F3::Smoothstep, a, b, c).zero(),
        b.at_most(c) ==> crate::graph::expr::three_value(f, F3::Smoothstep, a, b, c) == Single::of(ONE),
{
    let (zero, one, two, three) = (Single::of(ZERO), Single::of(ONE), Single::of(TWO), Single::of(THREE));
    let span = f(Prim::Sub, b, a);
    let gone = f(Prim::Sub, c, a);
    assert(span.finite() && gone.finite());
    let q = f(Prim::Div, gone, span);
    if c.at_most(a) {
        assert(gone.at_most(f(Prim::Sub, a, a)));
        assert(f(Prim::Sub, a, a).zero());
        assert(q.at_most(f(Prim::Div, zero, span)));
        assert(q.at_most(zero));
        let t = q.within(zero, one);
        assert(t.zero());
        assert(f(Prim::Mul, t, t).zero());
        assert(f(Prim::Mul, two, t).zero());
        assert(f(Prim::Sub, three, f(Prim::Mul, two, t)) == three);
    }
    if b.at_most(c) {
        assert(span.at_most(gone));
        assert(f(Prim::Div, span, span).at_most(q));
        assert(f(Prim::Div, span, span) == one);
        let t = q.within(zero, one);
        assert(t.order() == one.order());
        assert(t == one);
        assert(f(Prim::Mul, two, one) == two);
        assert(f(Prim::Sub, three, two) == one);
    }
}

/// A slew rises at the pace of its second argument, whatever the third, and falls at the pace of the
/// third, whatever the second; a lag knows one pace. Without a time either jumps.
pub proof fn lemma_paces_are_separate(f: Sums, y: Single, x: Single, up: Single, down: Single, other: Single, dt: Single, vars: Seq<Single>, states: Seq<ExprState>, slot: int)
    requires
        0 <= slot < states.len(),
        slot <= 0xffff,
        states[slot] == (ExprState::Follow { y, init: true }),
    ensures
        ({
            let call = Op::Call(Func::St(StFn::Slew, slot as u16));
            &&& y.below(x) ==> crate::graph::expr::op_value(f, call, seq![x, up, down], vars, states, dt) == crate::graph::expr::op_value(f, call, seq![x, up, other], vars, states, dt)
            &&& !y.below(x) ==> crate::graph::expr::op_value(f, call, seq![x, up, down], vars, states, dt) == crate::graph::expr::op_value(f, call, seq![x, other, down], vars, states, dt)
        }),
        crate::graph::expr::op_value(f, Op::Call(Func::St(StFn::Slew, slot as u16)), seq![x, up, up], vars, states, dt) == crate::graph::expr::op_value(
            f,
            Op::Call(Func::St(StFn::Lag, slot as u16)),
            seq![x, up],
            vars,
            states,
            dt,
        ),
{
    reveal(crate::graph::expr::op_value);
}

/// Followers that take no time are at their target after one step, up to the rounding of the way there;
/// while no time passes they stay.
pub proof fn lemma_followers_take_time(f: Sums, func: StFn, y: Single, x: Single, secs: Single, dt: Single)
    requires
        crate::rounding::unit_exact(f),
        func == StFn::Slew || func == StFn::Lag,
        crate::rounding::modest(x) && crate::rounding::modest(y),
    ensures
        secs.at_most(Single::of(ZERO)) ==> crate::graph::expr::stepped(f, func, ExprState::Follow { y, init: true }, x, secs, secs, dt).1 == f(
            Prim::Add,
            y,
            f(Prim::Sub, x, y),
        ),
        secs.at_most(Single::of(ZERO)) && y.zero() ==> crate::rounding::same(crate::graph::expr::stepped(f, func, ExprState::Follow { y, init: true }, x, secs, secs, dt).1, x),
        Single::of(ZERO).below(secs) && dt.zero() ==> crate::rounding::same(crate::graph::expr::stepped(f, func, ExprState::Follow { y, init: true }, x, secs, secs, dt).1, y),
        x == y && crate::blocks::settling(f, secs, dt).finite() ==> crate::rounding::same(crate::graph::expr::stepped(f, func, ExprState::Follow { y, init: true }, x, secs, secs, dt).1, y),
{
    let one = Single::of(ONE);
    assert(f(Prim::Sub, x, y).finite());
    assert(f(Prim::Sub, one, one).zero());
    if Single::of(ZERO).below(secs) && dt.zero() {
        let e = f(Prim::Mul, Single::of(crate::blocks::SETTLE_95), dt);
        assert(e.zero());
        assert(f(Prim::Div, e, secs).zero());
        assert(crate::blocks::settling(f, secs, dt).zero());
    }
    if x == y {
        assert(f(Prim::Sub, x, x).zero());
    }
}

/// Oscillators that stand still: the sine starts at zero and the ramp at zero, a held random value stays
/// until its cycle is over, and the first evaluation draws one.
pub proof fn lemma_modulators_at_rest(f: Sums, slot: int, a: Single, b: Single, rate: Single, dt: Single, phase: Single, value: Single, rng: crate::math::Rng)
    requires
        crate::rounding::unit_exact(f),
        rate.at_most(Single::of(ZERO)),
        dt.finite(),
        crate::math::in_cycle(phase),
        forall|z: Single, y: Single| z.zero() ==> (#[trigger] f(Prim::Fract, z, y)).zero(),
    ensures
        crate::graph::expr::stepped(f, StFn::Lfo, crate::graph::expr::fresh(StFn::Lfo, slot), a, b, rate, dt).1.zero(),
        crate::graph::expr::stepped(f, StFn::Ramp, crate::graph::expr::fresh(StFn::Ramp, slot), a, b, rate, dt).1.zero(),
        crate::graph::expr::stepped(f, StFn::Sh, ExprState::Sh { phase, value, rng }, a, b, rate, dt).1 == value,
        crate::graph::expr::stepped(f, StFn::Sh, crate::graph::expr::fresh(StFn::Sh, slot), a, b, rate, dt).1 == crate::math::bipolar(
            crate::math::Rng::seeded_with(crate::graph::expr::state_seed(slot)).fraction(),
        ),
{
    let inc = f(Prim::Mul, rate.larger(Single::of(ZERO)), dt);
    assert(rate.larger(Single::of(ZERO)).zero());
    assert(inc.zero());
    assert(f(Prim::Add, Single::of(ZERO), inc).zero());
    assert(f(Prim::Add, Single::of(ONE), inc) == Single::of(ONE));
}

/// Smooth noise moves from one target to the next: at a target it is there.
pub proof fn lemma_noise_meets_targets(f: Sums, n: crate::blocks::SlowNoise)
    requires
        crate::rounding::unit_exact(f),
        crate::rounding::small_exact(f),
        n.phase.zero(),
        crate::math::in_swing(n.a) && crate::math::in_swing(n.b),
    ensures
        crate::rounding::same(n.level(f), n.a),
{
    let half = Single::of(HALF);
    let x = f(Prim::Mul, n.phase, Single::of(crate::single::PI));
    assert(x.zero());
    assert(f(Prim::Cos, x, x) == Single::of(ONE));
    assert(f(Prim::Sub, half, half).zero());
    assert(crate::rounding::modest(n.a) && crate::rounding::modest(n.b));
    assert(f(Prim::Sub, n.b, n.a).finite());
}

/// An input without a settling time is at its target after one block, up to the rounding of the way there;
/// one that is there stays; and inputs leave everything else in the table alone.
pub proof fn lemma_inputs_settle(f: Sums, vars: Seq<Single>, target: Seq<Single>, secs: Seq<Single>, dt: Single, k: nat, i: int)
    requires
        crate::rounding::unit_exact(f),
        k <= target.len() == secs.len(),
        INPUT_OFF + target.len() <= vars.len(),
        0 <= i < vars.len(),
    ensures
        crate::graph::run::smoothed(f, vars, target, secs, dt, k).len() == vars.len(),
        !(INPUT_OFF <= i < INPUT_OFF + k) ==> crate::graph::run::smoothed(f, vars, target, secs, dt, k)[i] == vars[i],
        INPUT_OFF <= i < INPUT_OFF + k && crate::rounding::modest(vars[i]) && crate::rounding::modest(target[i - INPUT_OFF]) ==> {
            let t = target[i - INPUT_OFF];
            let s = secs[i - INPUT_OFF];
            let v = crate::graph::run::smoothed(f, vars, target, secs, dt, k)[i];
            &&& s.at_most(Single::of(ZERO)) ==> v == f(Prim::Add, vars[i], f(Prim::Sub, t, vars[i]))
            &&& s.at_most(Single::of(ZERO)) && vars[i].zero() ==> crate::rounding::same(v, t)
            &&& s.at_most(Single::of(ZERO)) && t == Single::of(ONE) && crate::math::is_share(vars[i]) ==> v == t
            &&& vars[i] == t && crate::blocks::settling(f, s, dt).finite() ==> crate::rounding::same(v, t)
        },
    decreases k,
{
    if k > 0 {
        lemma_inputs_settle(f, vars, target, secs, dt, (k - 1) as nat, i);
        if i == INPUT_OFF + k - 1 && crate::rounding::modest(vars[i]) && crate::rounding::modest(target[k - 1]) {
            let (v, t) = (vars[i], target[k - 1]);
            let gap = f(Prim::Sub, t, v);
            assert(gap.finite());
            assert(f(Prim::Mul, gap, Single::of(ONE)) == gap);
            if v == t {
                assert(f(Prim::Sub, t, t).zero());
            }
        }
    }
}

/// What a game sets an input to is kept within [0, 1]; what is no number is zero.
pub proof fn lemma_input_value(v: Single)
    ensures
        crate::math::is_share(crate::graph::model::input_value(v)),
        crate::math::is_share(v) ==> crate::graph::model::input_value(v) == v,
        v.finite() && Single::of(ONE).below(v) ==> crate::graph::model::input_value(v) == Single::of(ONE),
        v.finite() && v.below(Single::of(ZERO)) ==> crate::graph::model::input_value(v) == Single::of(ZERO),
        !v.finite() ==> crate::graph::model::input_value(v) == Single::of(ZERO),
{
}

/// A ramp that takes no step stays.
proof fn lemma_ramp_stays(f: Sums, from: Single, step: Single, j: nat)
    requires
        crate::rounding::unit_exact(f),
        step.zero(),
        !from.nan(),
    ensures
        crate::rounding::same(crate::graph::run::ramp(f, from, step, j), from),
        !from.zero() ==> crate::graph::run::ramp(f, from, step, j) == from,
    decreases j,
{
    if j > 0 {
        lemma_ramp_stays(f, from, step, (j - 1) as nat);
    }
}

/// A node sums its sources: one source at a gain of one is passed on, a second one at that gain is added to
/// it, and a source without gain is not heard. (The gains have settled.)
pub proof fn lemma_sources_are_summed(f: Sums, sources: Seq<Source>, bufs: Seq<Seq<Single>>, n: nat, programs: Seq<Seq<Op>>, vars: Seq<Single>, states: Seq<ExprState>, dt: Single, k: nat, g: Single, i: int)
    requires
        crate::rounding::unit_exact(f),
        0 < k <= sources.len(),
        0 < n <= 0x0100_0000,
        0 <= i < n,
        sources[k - 1].gain == Binding::Const(g),
        g.finite(),
        sources[k - 1].last == g || !sources[k - 1].last.finite(),
        0 <= sources[k - 1].node < bufs.len(),
        bufs[sources[k - 1].node as int].len() == n,
        bufs[sources[k - 1].node as int][i].finite(),
    ensures
        ({
            let before = crate::graph::run::gathered(f, sources, bufs, n, programs, vars, states, dt, (k - 1) as nat).sum;
            let after = crate::graph::run::gathered(f, sources, bufs, n, programs, vars, states, dt, k).sum;
            let heard = bufs[sources[k - 1].node as int][i];
            &&& after.len() == before.len()
            &&& i < before.len() && g == Single::of(ONE) ==> after[i] == f(Prim::Add, before[i], heard)
            &&& i < before.len() && g == Single::of(ONE) && before[i].zero() ==> crate::rounding::same(after[i], heard)
            &&& i < before.len() && g.zero() && !before[i].nan() ==> crate::rounding::same(after[i], before[i])
        }),
{
    let before = crate::graph::run::gathered(f, sources, bufs, n, programs, vars, states, dt, (k - 1) as nat).sum;
    crate::laws::node::lemma_settled_step(f, g, n);
    let step = crate::graph::node::block_step(f, g, g, n);
    if i < before.len() {
        lemma_ramp_stays(f, g, step, (i + 1) as nat);
    }
}

/// A node that gets out of hand falls silent; one that does not is heard as it is.
pub proof fn lemma_guard(kind: KindView, out: Seq<Single>)
    requires
        out.len() > 0,
    ensures
        !out.last().finite() ==> crate::graph::run::guarded(kind, out).1 == crate::blocks::silence(out.len()),
        Single::of(P1000000).below(out.last().absolute()) ==> crate::graph::run::guarded(kind, out).1 == crate::blocks::silence(out.len()),
        out.last().finite() && out.last().absolute().at_most(Single::of(P1000000)) ==> crate::graph::run::guarded(kind, out) == (kind, out),
{
}

/// What the types of nodes are: a delay is an echo and a comb is not, a lowpass keeps the lows and a highpass
/// the highs, and every oscillator has the wave of its name.
pub proof fn lemma_node_types(n: NodeSpec)
    ensures
        crate::graph::assemble::planned(NodeType::Delay, n) matches Ok(plan) ==> plan is Comb && plan->echo,
        crate::graph::assemble::planned(NodeType::Comb, n) matches Ok(plan) ==> plan is Comb && !plan->echo,
        crate::graph::assemble::planned(NodeType::Lowpass, n) == Ok::<Plan, Seq<char>>(Plan::OnePole { high: false }),
        crate::graph::assemble::planned(NodeType::Highpass, n) == Ok::<Plan, Seq<char>>(Plan::OnePole { high: true }),
        crate::graph::assemble::planned(NodeType::Sine, n) == Ok::<Plan, Seq<char>>(Plan::Osc(Waveform::Sine)),
        crate::graph::assemble::planned(NodeType::Saw, n) == Ok::<Plan, Seq<char>>(Plan::Osc(Waveform::Saw)),
        crate::graph::assemble::planned(NodeType::Tri, n) == Ok::<Plan, Seq<char>>(Plan::Osc(Waveform::Triangle)),
        crate::graph::assemble::planned(NodeType::Pulse, n) == Ok::<Plan, Seq<char>>(Plan::Osc(Waveform::Pulse)),
        NodeType::Delay.label() == "delay"@ && NodeType::Comb.label() == "comb"@,
        NodeType::Lowpass.label() == "lowpass"@ && NodeType::Highpass.label() == "highpass"@,
        NodeType::Sine.label() == "sine"@ && NodeType::Saw.label() == "saw"@ && NodeType::Tri.label() == "tri"@
            && NodeType::Pulse.label() == "pulse"@,
        crate::graph::assemble::mode("lowpass"@) == Some(FilterMode::LowPass),
        crate::graph::assemble::color("white"@) == Some(Color::White),
{
    reveal(crate::graph::assemble::planned);
}

/// The arguments of nodes that may be left out: a comb is mixed in fully and an echo by three tenths, a
/// pulse is a square, a crusher keeps every sample, resonators keep their frequencies, and a room is mixed
/// in by three tenths.
pub proof fn lemma_node_defaults()
    ensures
        NodeType::Comb.takes()[1] == ("feedback"@, Some(Single::of(0x3f00_0000))),
        NodeType::Comb.takes()[2] == ("mix"@, Some(Single::of(0x3f80_0000))),
        NodeType::Delay.takes()[1] == ("feedback"@, Some(Single::of(0x3e99_999a))),
        NodeType::Delay.takes()[2] == ("mix"@, Some(Single::of(0x3e99_999a))),
        NodeType::Pulse.takes()[1] == ("width"@, Some(Single::of(0x3f00_0000))),
        NodeType::Svf.takes()[1] == ("resonance"@, Some(Single::of(0x3e4c_cccd))),
        NodeType::Resonators.takes()[0] == ("resonance"@, Some(Single::of(0x3f73_3333))),
        NodeType::Resonators.takes()[1] == ("scale"@, Some(Single::of(0x3f80_0000))),
        NodeType::Decay.takes()[0] == ("ms"@, Some(Single::of(0x40a0_0000))),
        NodeType::Drive.takes()[0] == ("amount"@, Some(Single::of(0x3f00_0000))),
        NodeType::Crush.takes()[0] == ("bits"@, Some(Single::of(0x4100_0000))),
        NodeType::Crush.takes()[1] == ("downsample"@, Some(Single::of(0x3f80_0000))),
        NodeType::Reverb.takes()[0] == ("time"@, Some(Single::of(0x3f99_999a))),
        NodeType::Reverb.takes()[1] == ("mix"@, Some(Single::of(0x3e99_999a))),
        NodeType::Reverb.takes()[2] == ("damping"@, Some(Single::of(0x3ecc_cccd))),
{
}

} // verus!
