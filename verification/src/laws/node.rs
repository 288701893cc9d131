//! What the nodes of a model do to a signal.
use vstd::prelude::*;

use crate::arith::{Prim, Sums};
use crate::blocks::OnePole;
use crate::graph::node::{CombView, CrushNode, KindView, ReverbView, RoomView, P0_001};
use crate::single::{Single, ONE, ZERO};

verus! {

/// Samples far from overflow.
pub open spec fn all_modest(x: Seq<Single>) -> bool {
    forall|i: int| 0 <= i < x.len() ==> crate::rounding::modest(#[trigger] x[i])
}

/// Two runs of samples are the same, number by number.
pub open spec fn same_samples(x: Seq<Single>, y: Seq<Single>) -> bool {
    x.len() == y.len() && forall|i: int| 0 <= i < x.len() ==> crate::rounding::same(#[trigger] x[i], y[i])
}

/// Read a whole number of samples back, a line gives the sample that was written so many writes
/// ago.
pub proof fn lemma_line_gives_back(f: Sums, history: Seq<Single>, k: int)
    requires
        crate::rounding::unit_exact(f),
        all_modest(history),
        1 <= k <= history.len() - 3 <= 0x0100_0000,
    ensures
        crate::rounding::same(crate::blocks::delayed(f, history, crate::single::sized(k as nat)), history[k - 1]),
{
    let d = crate::single::sized(k as nat);
    crate::rounding::lemma_whole_number(k);
    crate::rounding::lemma_whole_number(history.len() - 3);
    crate::rounding::lemma_whole_order(k, history.len() - 3);
    let (a, b) = (crate::blocks::tap(history, k), crate::blocks::tap(history, k + 1));
    assert(a == history[k - 1] && b == history[k]);
    assert(f(Prim::Sub, b, a).finite());
    assert(f(Prim::Sub, d, d).zero());
}

/// One sample of an echo: with no mix it passes its input, and all wet it gives what was written its
/// delay ago. What it writes is its input where nothing is fed back.
pub proof fn lemma_echo_mix(f: Sums, feedback: Single, mix: Single, s: CombView, v: Single, k: int, step: Single)
    requires
        crate::rounding::unit_exact(f),
        all_modest(s.history),
        crate::rounding::modest(v),
        1 <= k <= s.history.len() - 3 <= 0x0100_0000,
        s.delay == crate::single::sized(k as nat),
        step.zero(),
    ensures
        mix.zero() ==> crate::rounding::same(crate::graph::node::comb_tick(f, step, feedback, mix, true, s, v).1, v),
        mix == Single::of(ONE) ==> crate::rounding::same(crate::graph::node::comb_tick(f, step, feedback, mix, true, s, v).1, s.history[k - 1]),
        feedback.zero() ==> crate::rounding::same(crate::graph::node::comb_tick(f, step, feedback, mix, true, s, v).0.history[0], v),
        crate::graph::node::comb_tick(f, step, feedback, mix, true, s, v).0.delay == s.delay,
        crate::graph::node::comb_tick(f, step, feedback, mix, true, s, v).0.history.len() == s.history.len(),
        forall|j: int|
            1 <= j < s.history.len() ==> #[trigger] crate::graph::node::comb_tick(f, step, feedback, mix, true, s, v).0.history[j] == s.history[j - 1],
{
    lemma_line_gives_back(f, s.history, k);
    crate::rounding::lemma_whole_number(k);
    assert(f(Prim::Add, s.delay, step) == s.delay);
    let wet = crate::blocks::delayed(f, s.history, s.delay);
    assert(crate::rounding::modest(s.history[k - 1]));
    assert(crate::rounding::modest(wet));
    let one = Single::of(ONE);
    assert(f(Prim::Sub, one, one).zero());
    assert(mix.zero() ==> f(Prim::Sub, one, mix) == one);
}

/// One sample of a comb: with no mix it passes its input, and fully mixed it gives what it writes,
/// which is its input and what was written its delay ago times the feedback.
pub proof fn lemma_comb_mix(f: Sums, feedback: Single, mix: Single, s: CombView, v: Single, k: int, step: Single)
    requires
        crate::rounding::unit_exact(f),
        all_modest(s.history),
        crate::rounding::modest(v),
        1 <= k <= s.history.len() - 3 <= 0x0100_0000,
        s.delay == crate::single::sized(k as nat),
        step.zero(),
        crate::math::is_share(feedback),
    ensures
        mix.zero() ==> crate::rounding::same(crate::graph::node::comb_tick(f, step, feedback, mix, false, s, v).1, v),
        mix == Single::of(ONE) && v.zero() && feedback == Single::of(ONE) ==> crate::rounding::same(
            crate::graph::node::comb_tick(f, step, feedback, mix, false, s, v).1,
            s.history[k - 1],
        ),
        feedback.zero() && crate::math::is_share(mix) ==> crate::rounding::same(crate::graph::node::comb_tick(f, step, feedback, mix, false, s, v).1, v),
        v.zero() && feedback == Single::of(ONE) ==> crate::rounding::same(crate::graph::node::comb_tick(f, step, feedback, mix, false, s, v).0.history[0], s.history[k - 1]),
{
    lemma_line_gives_back(f, s.history, k);
    crate::rounding::lemma_whole_number(k);
    assert(f(Prim::Add, s.delay, step) == s.delay);
    let wet = crate::blocks::delayed(f, s.history, s.delay);
    assert(crate::rounding::modest(s.history[k - 1]));
    assert(crate::rounding::modest(wet));
    let fed = f(Prim::Mul, wet, feedback);
    assert(crate::rounding::modest(fed));
    let y = f(Prim::Add, v, fed);
    assert(y.finite());
    if mix.zero() {
        assert(f(Prim::Mul, f(Prim::Sub, y, v), mix).zero() || !f(Prim::Sub, y, v).finite());
        lemma_difference_is_finite(f, v, fed);
    }
    if feedback.zero() {
        assert(fed.zero());
        assert(crate::rounding::same(y, v));
        assert(crate::rounding::modest(y));
        assert(f(Prim::Sub, y, v).zero());
    }
    if v.zero() && feedback == Single::of(ONE) {
        assert(fed == wet);
        assert(crate::rounding::same(y, wet));
        assert(crate::rounding::modest(y));
        assert(crate::rounding::same(f(Prim::Sub, y, v), y));
    }
}

/// What is added to a modest number can be taken from the sum without overflow.
proof fn lemma_difference_is_finite(f: Sums, v: Single, w: Single)
    requires
        crate::rounding::unit_exact(f),
        crate::rounding::modest(v),
        crate::rounding::modest(w),
    ensures
        f(Prim::Sub, f(Prim::Add, v, w), v).finite(),
{
}

/// An echo that feeds nothing back, over a run of samples: dry it passes them, all wet it gives each
/// of them its delay later.
pub proof fn lemma_echo_delays(f: Sums, mix: Single, feedback: Single, s: CombView, x: Seq<Single>, k: int, step: Single)
    requires
        crate::rounding::unit_exact(f),
        all_modest(s.history),
        all_modest(x),
        1 <= k <= s.history.len() - 3 <= 0x0100_0000,
        s.delay == crate::single::sized(k as nat),
        step.zero(),
        feedback.zero(),
    ensures
        ({
            let (t, out) = crate::graph::node::comb_run(f, step, feedback, mix, true, s, x);
            &&& out.len() == x.len()
            &&& mix.zero() ==> same_samples(out, x)
            &&& mix == Single::of(ONE) ==> forall|i: int| k <= i < x.len() ==> crate::rounding::same(#[trigger] out[i], x[i - k])
            &&& t.delay == s.delay
            &&& t.history.len() == s.history.len()
            &&& all_modest(t.history)
            &&& forall|j: int| 0 <= j < x.len() && j < s.history.len() ==> crate::rounding::same(#[trigger] t.history[j], x[x.len() - 1 - j])
        }),
    decreases x.len(),
{
    if x.len() > 0 {
        let y = x.drop_last();
        assert(all_modest(y)) by {
            assert forall|i: int| 0 <= i < y.len() implies crate::rounding::modest(#[trigger] y[i]) by {
                assert(y[i] == x[i]);
            }
        }
        lemma_echo_delays(f, mix, feedback, s, y, k, step);
        let (t, out) = crate::graph::node::comb_run(f, step, feedback, mix, true, s, y);
        let v = x.last();
        assert(crate::rounding::modest(v));
        lemma_echo_mix(f, feedback, mix, t, v, k, step);
        let (u, z) = crate::graph::node::comb_tick(f, step, feedback, mix, true, t, v);
        assert(all_modest(u.history)) by {
            assert forall|j: int| 0 <= j < u.history.len() implies crate::rounding::modest(#[trigger] u.history[j]) by {
                if j == 0 {
                    assert(crate::rounding::same(u.history[0], v));
                } else {
                    assert(u.history[j] == t.history[j - 1]);
                }
            }
        }
        assert forall|j: int| 0 <= j < x.len() && j < s.history.len() implies crate::rounding::same(
            #[trigger] u.history[j],
            x[x.len() - 1 - j],
        ) by {
            if j > 0 {
                assert(u.history[j] == t.history[j - 1]);
                assert(crate::rounding::same(t.history[j - 1], y[y.len() - 1 - (j - 1)]));
            }
        }
        let all = crate::graph::node::comb_run(f, step, feedback, mix, true, s, x).1;
        assert(all == out.push(z));
        if mix.zero() {
            assert forall|i: int| 0 <= i < x.len() implies crate::rounding::same(#[trigger] all[i], x[i]) by {
                if i < y.len() {
                    assert(crate::rounding::same(out[i], y[i]));
                }
            }
        }
        if mix == Single::of(ONE) {
            assert forall|i: int| k <= i < x.len() implies crate::rounding::same(#[trigger] all[i], x[i - k]) by {
                if i < y.len() {
                    assert(crate::rounding::same(out[i], y[i - k]));
                } else {
                    assert(crate::rounding::same(t.history[k - 1], y[y.len() - 1 - (k - 1)]));
                }
            }
        }
    }
}

/// A delay node whose delay has settled at a whole number of samples and that feeds nothing back:
/// without mix it passes its input, and with all of it, it gives its input that many samples later.
pub proof fn lemma_delay_node(f: Sums, s: CombView, pv: Seq<Single>, x: Seq<Single>, by: Seq<Single>, sr: Single, k: int)
    requires
        crate::rounding::unit_exact(f),
        all_modest(s.history),
        all_modest(x),
        0 < x.len() <= 0x0100_0000,
        1 <= k <= s.history.len() - 3 <= 0x0100_0000,
        s.delay == crate::single::sized(k as nat),
        f(Prim::Mul, f(Prim::Mul, pv[0], Single::of(P0_001)), sr) == s.delay,
        pv[1].zero(),
    ensures
        ({
            let out = crate::graph::node::processed(f, KindView::Comb { node: s, echo: true }, pv, x, by, sr).1;
            &&& out.len() == x.len()
            &&& pv[2].zero() ==> same_samples(out, x)
            &&& pv[2] == Single::of(ONE) ==> forall|i: int| k <= i < x.len() ==> crate::rounding::same(#[trigger] out[i], x[i - k])
        }),
{
    crate::rounding::lemma_whole_number(k);
    crate::rounding::lemma_whole_number(s.history.len() - 3);
    crate::rounding::lemma_whole_order(k, s.history.len() - 3);
    lemma_settled_step(f, s.delay, x.len());
    let step = crate::graph::node::block_step(f, s.delay, s.delay, x.len());
    let feedback = pv[1].within(Single::of(ZERO), Single::of(crate::graph::node::P0_97));
    let mix = pv[2].within(Single::of(ZERO), Single::of(ONE));
    assert(feedback.zero());
    lemma_echo_delays(f, mix, feedback, s, x, k, step);
}

/// A value that is where it should be takes no step.
pub proof fn lemma_settled_step(f: Sums, v: Single, n: nat)
    requires
        crate::rounding::unit_exact(f),
        v.finite(),
        0 < n <= 0x0100_0000,
    ensures
        crate::graph::node::block_step(f, v, v, n).zero(),
{
    crate::rounding::lemma_whole_number(n as int);
    let count = crate::single::integer(n);
    assert(count == crate::single::sized(n));
    assert(f(Prim::Sub, v, v).zero());
}

/// A gain that has settled multiplies every sample: a gain of one passes them, one of zero is
/// silence.
pub proof fn lemma_gain_node(f: Sums, g: Single, pv: Seq<Single>, x: Seq<Single>, by: Seq<Single>, sr: Single)
    requires
        crate::rounding::unit_exact(f),
        all_modest(x),
        g.finite(),
        pv[0] == g,
        0 < x.len() <= 0x0100_0000,
    ensures
        ({
            let out = crate::graph::node::processed(f, KindView::Gain(g), pv, x, by, sr).1;
            &&& out.len() == x.len()
            &&& !g.zero() ==> forall|i: int| 0 <= i < x.len() ==> #[trigger] out[i] == f(Prim::Mul, x[i], g)
            &&& g == Single::of(ONE) ==> out == x
            &&& g.zero() ==> forall|i: int| 0 <= i < x.len() ==> (#[trigger] out[i]).zero()
        }),
{
    lemma_settled_step(f, g, x.len());
    let step = crate::graph::node::block_step(f, g, g, x.len());
    lemma_gain_settled(f, step, g, x);
    if g == Single::of(ONE) {
        assert forall|i: int| 0 <= i < x.len() implies #[trigger] crate::graph::node::gain_run(f, step, g, x).1[i] == x[i] by {
            assert(crate::rounding::modest(x[i]));
        }
        assert(crate::graph::node::gain_run(f, step, g, x).1 =~= x);
    }
}

proof fn lemma_gain_settled(f: Sums, step: Single, g: Single, x: Seq<Single>)
    requires
        crate::rounding::unit_exact(f),
        all_modest(x),
        g.finite(),
        step.zero(),
    ensures
        crate::graph::node::gain_run(f, step, g, x).1.len() == x.len(),
        crate::rounding::same(crate::graph::node::gain_run(f, step, g, x).0, g),
        !g.zero() ==> forall|i: int| 0 <= i < x.len() ==> #[trigger] crate::graph::node::gain_run(f, step, g, x).1[i] == f(Prim::Mul, x[i], g),
        g.zero() ==> forall|i: int| 0 <= i < x.len() ==> (#[trigger] crate::graph::node::gain_run(f, step, g, x).1[i]).zero(),
    decreases x.len(),
{
    if x.len() > 0 {
        let y = x.drop_last();
        assert(all_modest(y)) by {
            assert forall|i: int| 0 <= i < y.len() implies crate::rounding::modest(#[trigger] y[i]) by {
                assert(y[i] == x[i]);
            }
        }
        lemma_gain_settled(f, step, g, y);
        let (t, out) = crate::graph::node::gain_run(f, step, g, y);
        assert(crate::rounding::modest(x.last()));
        assert(crate::rounding::same(f(Prim::Add, t, step), t));
        assert forall|i: int| 0 <= i < x.len() && !g.zero() implies #[trigger] crate::graph::node::gain_run(f, step, g, x).1[i] == f(
            Prim::Mul,
            x[i],
            g,
        ) by {
            if i < y.len() {
                assert(crate::graph::node::gain_run(f, step, g, x).1[i] == out[i]);
            }
        }
        assert forall|i: int| 0 <= i < x.len() && g.zero() implies (#[trigger] crate::graph::node::gain_run(f, step, g, x).1[i]).zero() by {
            if i < y.len() {
                assert(crate::graph::node::gain_run(f, step, g, x).1[i] == out[i]);
            }
        }
    }
}

/// A constant that has settled is heard in every sample.
pub proof fn lemma_dc_node(f: Sums, g: Single, pv: Seq<Single>, x: Seq<Single>, by: Seq<Single>, sr: Single)
    requires
        crate::rounding::unit_exact(f),
        g.finite(),
        pv[0] == g,
        0 < x.len() <= 0x0100_0000,
    ensures
        ({
            let out = crate::graph::node::processed(f, KindView::Dc(g), pv, x, by, sr).1;
            out.len() == x.len() && forall|i: int| 0 <= i < x.len() ==> crate::rounding::same(#[trigger] out[i], g)
        }),
{
    lemma_settled_step(f, g, x.len());
    lemma_dc_settled(f, crate::graph::node::block_step(f, g, g, x.len()), g, x);
}

proof fn lemma_dc_settled(f: Sums, step: Single, g: Single, x: Seq<Single>)
    requires
        crate::rounding::unit_exact(f),
        g.finite(),
        step.zero(),
    ensures
        crate::graph::node::dc_run(f, step, g, x).1.len() == x.len(),
        crate::rounding::same(crate::graph::node::dc_run(f, step, g, x).0, g),
        forall|i: int| 0 <= i < x.len() ==> crate::rounding::same(#[trigger] crate::graph::node::dc_run(f, step, g, x).1[i], g),
    decreases x.len(),
{
    if x.len() > 0 {
        let y = x.drop_last();
        lemma_dc_settled(f, step, g, y);
        let (t, out) = crate::graph::node::dc_run(f, step, g, y);
        assert forall|i: int| 0 <= i < x.len() implies crate::rounding::same(#[trigger] crate::graph::node::dc_run(f, step, g, x).1[i], g) by {
            if i < y.len() {
                assert(crate::graph::node::dc_run(f, step, g, x).1[i] == out[i]);
            }
        }
    }
}

/// Nodes whose value was never set, or was snapped, start at it: the first block after a snap is
/// that of a node that has long been there.
pub proof fn lemma_snapped_nodes_jump(f: Sums, g: Single, s: CombView, echo: bool, pv: Seq<Single>, x: Seq<Single>, by: Seq<Single>, sr: Single)
    requires
        pv[0].finite(),
    ensures
        crate::graph::node::processed(f, crate::graph::node::snapped_kind(KindView::Gain(g)), pv, x, by, sr) == crate::graph::node::processed(f, KindView::Gain(pv[0]), pv, x, by, sr),
        crate::graph::node::processed(f, crate::graph::node::snapped_kind(KindView::Dc(g)), pv, x, by, sr) == crate::graph::node::processed(f, KindView::Dc(pv[0]), pv, x, by, sr),
        crate::graph::node::processed(f, KindView::Gain(g), pv, x, by, sr).0 == KindView::Gain(pv[0]),
        crate::graph::node::processed(f, KindView::Dc(g), pv, x, by, sr).0 == KindView::Dc(pv[0]),
{
}

/// A product node multiplies its inputs sample by sample: by one it passes them, by zero it is
/// silent, and it does not matter which input is which where products commute.
pub proof fn lemma_mul_node(f: Sums, pv: Seq<Single>, x: Seq<Single>, by: Seq<Single>, sr: Single, i: int)
    requires
        crate::rounding::unit_exact(f),
        all_modest(x),
        by.len() == x.len(),
        0 <= i < x.len(),
    ensures
        ({
            let out = crate::graph::node::processed(f, KindView::Mul, pv, x, by, sr).1;
            &&& out.len() == x.len()
            &&& by[i] == Single::of(ONE) ==> out[i] == x[i]
            &&& by[i].zero() ==> out[i].zero()
            &&& x[i].zero() && by[i].finite() ==> out[i].zero()
            &&& x[i] == Single::of(ONE) && by[i].finite() ==> out[i] == by[i]
        }),
        crate::graph::node::processed(f, KindView::Mix, pv, x, by, sr).1 == x,
{
    assert(crate::rounding::modest(x[i]));
}

/// The envelope of a decay node is never below its input, and never above both its input and what
/// it was: it jumps up and falls.
pub proof fn lemma_decay_node(f: Sums, c: Single, s: Single, v: Single)
    requires
        crate::rounding::stays_finite(f),
        crate::math::is_share(c),
        s.finite() && !s.negative(),
        v.finite(),
    ensures
        v.absolute().at_most(crate::graph::node::decay_tick(f, c, s, v).1),
        crate::graph::node::decay_tick(f, c, s, v).1.absolute().at_most(s.larger(v.absolute())),
        crate::graph::node::decay_tick(f, c, s, v).0 == crate::graph::node::decay_tick(f, c, s, v).1,
        crate::rounding::one_is_neutral(f) && c == Single::of(ONE) ==> crate::graph::node::decay_tick(f, c, s, v).1 == s.larger(v.absolute()),
        crate::rounding::zero_is_neutral(f) && c.zero() ==> crate::rounding::same(crate::graph::node::decay_tick(f, c, s, v).1, v.absolute()),
{
}

/// A crusher that keeps every sample makes of each sample the nearest of its levels, whatever came
/// before; one that holds repeats the sample it holds.
pub proof fn lemma_crush_node(f: Sums, levels: Single, down: Single, s: CrushNode, v: Single)
    requires
        crate::rounding::unit_exact(f),
        s.count.zero(),
    ensures
        down == Single::of(ONE) ==> crate::graph::node::crush_tick(f, levels, down, s, v).0.hold == v && crate::graph::node::crush_tick(f, levels, down, s, v).0.count.zero(),
        Single::of(ONE).below(down) ==> crate::graph::node::crush_tick(f, levels, down, s, v).0.hold == s.hold,
        levels == Single::of(ONE) && down == Single::of(ONE) && !v.nan() && !f(Prim::Round, v, Single::of(ZERO)).nan()
            ==> crate::graph::node::crush_tick(f, levels, down, s, v).1 == f(Prim::Round, v, Single::of(ZERO)),
        down == Single::of(ONE) && v.zero() && levels.finite() && !levels.zero() ==> crate::graph::node::crush_tick(f, levels, down, s, v).1.zero(),
{
    let one = Single::of(ONE);
    assert(f(Prim::Add, s.count, one) == one);
    assert(f(Prim::Sub, one, one).zero());
}

/// One bit is one level on either side, and no fewer than one sample is kept of each.
pub proof fn lemma_crush_arguments(f: Sums, s: CrushNode, pv: Seq<Single>, x: Seq<Single>, by: Seq<Single>, sr: Single)
    requires
        crate::rounding::unit_exact(f),
        pv[0] == Single::of(ONE),
        pv[1].at_most(Single::of(ONE)),
    ensures
        crate::graph::node::processed(f, KindView::Crush(s), pv, x, by, sr) == ({
            let (t, out) = crate::graph::node::crush_run(f, Single::of(ONE), Single::of(ONE), s, x);
            (KindView::Crush(t), out)
        }),
{
    let one = Single::of(ONE);
    assert(f(Prim::Sub, one, one).zero());
}

/// A drive of nothing only saturates.
pub proof fn lemma_drive_node(f: Sums, pv: Seq<Single>, x: Seq<Single>, by: Seq<Single>, sr: Single)
    requires
        crate::rounding::unit_exact(f),
        all_modest(x),
        pv[0].zero(),
        forall|v: Single| v.finite() ==> !(#[trigger] crate::math::saturated(f, v)).nan(),
    ensures
        ({
            let out = crate::graph::node::processed(f, KindView::Drive, pv, x, by, sr).1;
            out.len() == x.len() && forall|i: int| 0 <= i < x.len() ==> #[trigger] out[i] == crate::math::saturated(f, x[i])
        }),
{
    let one = Single::of(ONE);
    let a = pv[0].within(Single::of(ZERO), one);
    let (pre, post) = (
        f(Prim::Add, one, f(Prim::Mul, a, Single::of(crate::graph::node::P15))),
        f(Prim::Sub, one, f(Prim::Mul, Single::of(crate::single::HALF), a)),
    );
    assert(pre == one && post == one);
    lemma_undriven(f, x);
}

proof fn lemma_undriven(f: Sums, x: Seq<Single>)
    requires
        crate::rounding::unit_exact(f),
        all_modest(x),
        forall|v: Single| v.finite() ==> !(#[trigger] crate::math::saturated(f, v)).nan(),
    ensures
        crate::graph::node::drive_run(f, Single::of(ONE), Single::of(ONE), (), x).1.len() == x.len(),
        forall|i: int|
            0 <= i < x.len() ==> #[trigger] crate::graph::node::drive_run(f, Single::of(ONE), Single::of(ONE), (), x).1[i] == crate::math::saturated(f, x[i]),
    decreases x.len(),
{
    if x.len() > 0 {
        let y = x.drop_last();
        assert(all_modest(y)) by {
            assert forall|i: int| 0 <= i < y.len() implies crate::rounding::modest(#[trigger] y[i]) by {
                assert(y[i] == x[i]);
            }
        }
        lemma_undriven(f, y);
        let out = crate::graph::node::drive_run(f, Single::of(ONE), Single::of(ONE), (), y).1;
        assert(crate::rounding::modest(x.last()));
        assert forall|i: int| 0 <= i < x.len() implies #[trigger] crate::graph::node::drive_run(f, Single::of(ONE), Single::of(ONE), (), x).1[i]
            == crate::math::saturated(f, x[i]) by {
            if i < y.len() {
                assert(crate::graph::node::drive_run(f, Single::of(ONE), Single::of(ONE), (), x).1[i] == out[i]);
            }
        }
    }
}

/// Dust that never falls is silent.
pub proof fn lemma_no_dust(f: Sums, s: crate::blocks::Dust, p: Single, v: Single)
    requires
        p.at_most(Single::of(ZERO)),
    ensures
        crate::graph::node::dust_tick(f, p, s, v).1 == Single::of(ZERO),
{
    crate::math::lemma_fraction_bits(s.rng);
    crate::math::lemma_fraction_held(s.rng.fraction());
}

/// Every impulse of dust is from 0.3 up to one, and where no impulse falls there is silence.
pub proof fn lemma_dust_in_range(f: Sums, s: crate::blocks::Dust, p: Single, v: Single)
    ensures
        ({
            let y = crate::graph::node::dust_tick(f, p, s, v).1;
            y == Single::of(ZERO) || (Single::of(crate::blocks::DUST_LOW).at_most(y) && y.below(Single::of(ONE)))
        }),
{
}

/// A room that is not mixed in is not heard; fully mixed, a room that has heard nothing gives
/// nothing back yet.
pub proof fn lemma_reverb_mix(f: Sums, low: Single, keep: Single, coef: Single, mix: Single, s: ReverbView, v: Single)
    requires
        crate::rounding::unit_exact(f),
        crate::rounding::modest(v),
        quiet_room(s.a) && quiet_room(s.b) && quiet_room(s.c) && quiet_room(s.d),
        coef.finite(),
    ensures
        mix.zero() ==> crate::rounding::same(crate::graph::node::reverb_tick(f, low, keep, coef, mix, s, v).1, v),
        mix == Single::of(ONE) ==> crate::graph::node::reverb_tick(f, low, keep, coef, mix, s, v).1.zero(),
{
    let one = Single::of(ONE);
    let x = f(Prim::Mul, f(Prim::Sub, v, s.send.smoothed(f, v, low)), Single::of(crate::graph::node::P0_25));
    lemma_quiet_room(f, keep, coef, s.a, x);
    lemma_quiet_room(f, keep, coef, s.b, x);
    lemma_quiet_room(f, keep, coef, s.c, x);
    lemma_quiet_room(f, keep, coef, s.d, x);
    assert(f(Prim::Sub, one, one).zero());
    assert(mix.zero() ==> f(Prim::Sub, one, mix) == one);
}

/// A room that has heard nothing.
pub open spec fn quiet_room(s: RoomView) -> bool {
    &&& 4 <= s.history.len() <= 0x0100_0000
    &&& s.history == crate::blocks::silence(s.history.len())
    &&& s.damp.y.zero()
}

/// A room that has heard nothing gives nothing, and remembers what it is given.
pub proof fn lemma_quiet_room(f: Sums, keep: Single, coef: Single, s: RoomView, v: Single)
    requires
        crate::rounding::unit_exact(f),
        quiet_room(s),
        coef.finite(),
    ensures
        crate::graph::node::room_tick(f, keep, coef, s, v).1.zero(),
        keep.finite() && crate::rounding::modest(v) ==> crate::rounding::same(crate::graph::node::room_tick(f, keep, coef, s, v).0.history[0], v),
{
    let k = s.history.len() - 3;
    assert(all_modest(s.history));
    crate::rounding::lemma_whole_number(k);
    lemma_line_gives_back(f, s.history, k);
    let heard = crate::blocks::delayed(f, s.history, crate::blocks::longest_delay(s.history));
    assert(heard.zero());
    assert(f(Prim::Sub, heard, s.damp.y).zero());
    assert(s.damp.smoothed(f, heard, coef).zero());
}

/// A one-pole filter that has settled on a constant passes it low and blocks it high.
pub proof fn lemma_pole_at_rest(f: Sums, coef: Single, s: OnePole, v: Single)
    requires
        crate::rounding::unit_exact(f),
        v.finite(),
        coef.finite(),
        s.y == v,
        !v.absolute().below(Single::of(crate::blocks::SILENCE)),
    ensures
        crate::graph::node::pole_tick(f, false, coef, s, v) == (s, v),
        crate::graph::node::pole_tick(f, true, coef, s, v).0 == s,
        crate::graph::node::pole_tick(f, true, coef, s, v).1.zero(),
{
    assert(f(Prim::Sub, v, v).zero());
    assert(f(Prim::Mul, f(Prim::Sub, v, v), coef).zero());
}

/// What a one-pole filter passes high is what it does not pass low; with a coefficient of one it
/// passes everything low, with one of zero it stays where it is.
pub proof fn lemma_pole_splits(f: Sums, coef: Single, s: OnePole, v: Single)
    requires
        crate::rounding::unit_exact(f),
        crate::rounding::modest(v),
        crate::rounding::modest(s.y),
        !s.y.absolute().below(Single::of(crate::blocks::SILENCE)),
    ensures
        crate::graph::node::pole_tick(f, true, coef, s, v).1 == f(Prim::Sub, v, crate::graph::node::pole_tick(f, false, coef, s, v).1),
        crate::graph::node::pole_tick(f, true, coef, s, v).0 == crate::graph::node::pole_tick(f, false, coef, s, v).0,
        coef.zero() ==> crate::graph::node::pole_tick(f, false, coef, s, v).1 == s.y,
{
}

} // verus!
