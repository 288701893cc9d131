//! Control values and samples of a running model, block by block.
use vstd::prelude::*;

use crate::arith::{meant, total, Prim, Sums};
use crate::blocks::settle_coef;
use crate::graph::assemble::{codes, Binding};
use crate::graph::expr::{ExprState, Program};
use crate::graph::grammar::Op;
use crate::graph::node::{process, KindView};
use crate::graph::wiring::{Node, NodeView, Source};
use crate::math::limit;
use crate::single::{exact, Single, ZERO};

verus! {

/// Pattern of 1000000.
pub const P1000000: u32 = 0x4974_2400;

/// First slot of the inputs in the value table: before them are the sample rate, the seconds since
/// the trigger and the random number of the trigger.
pub const INPUT_OFF: usize = 3;

/// Programs that all run on a value table and a list of states.
pub open spec fn programs_wf(programs: Seq<Program>, vars: nat, states: nat) -> bool {
    forall|i: int| 0 <= i < programs.len() ==> crate::graph::expr::runs((#[trigger] programs[i]).ops@, vars, states)
}

/// The value table after the first `k` inputs have moved towards their targets.
pub open spec fn smoothed(f: Sums, vars: Seq<Single>, target: Seq<Single>, secs: Seq<Single>, dt: Single, k: nat) -> Seq<Single>
    decreases k,
{
    if k == 0 {
        vars
    } else {
        let before = smoothed(f, vars, target, secs, dt, (k - 1) as nat);
        let (v, t, s) = (vars[INPUT_OFF + k - 1], target[k - 1], secs[k - 1]);
        before.update(INPUT_OFF + k - 1, f(Prim::Add, v, f(Prim::Mul, f(Prim::Sub, t, v), crate::blocks::settling(f, s, dt))))
    }
}

pub fn smooth_inputs<F: Fn(Prim, Single, Single) -> Single>(fpu: &F, vars: &mut Vec<Single>, target: &Vec<Single>, secs: &Vec<Single>, dt: Single)
    requires
        total(*fpu),
        target@.len() == secs@.len(),
        INPUT_OFF + target@.len() <= old(vars)@.len(),
    ensures
        final(vars)@.len() == old(vars)@.len(),
        forall|f: Sums| #[trigger] meant(*fpu, f) ==> final(vars)@ == smoothed(f, old(vars)@, target@, secs@, dt, target@.len()),
{
    let count = vars.len();
    let mut k: usize = 0;
    while k < target.len()
        invariant
            k <= target@.len() == secs@.len(),
            total(*fpu),
            vars@.len() == old(vars)@.len() == count,
            INPUT_OFF + target@.len() <= vars@.len(),
            forall|j: int| INPUT_OFF + k <= j < vars@.len() ==> #[trigger] vars@[j] == old(vars)@[j],
            forall|f: Sums| #[trigger] meant(*fpu, f) ==> vars@ == smoothed(f, old(vars)@, target@, secs@, dt, k as nat),
        decreases target@.len() - k,
    {
        let (v, t, s) = (vars[INPUT_OFF + k], target[k], secs[k]);
        vars.set(INPUT_OFF + k, fpu(Prim::Add, v, fpu(Prim::Mul, fpu(Prim::Sub, t, v), settle_coef(fpu, s, dt))));
        k = k + 1;
    }
}

/// Value table and states after the first `k` signals.
pub open spec fn signalled(
    f: Sums,
    programs: Seq<Seq<Op>>,
    signals: Seq<(usize, usize)>,
    vars: Seq<Single>,
    states: Seq<ExprState>,
    dt: Single,
    k: nat,
) -> (Seq<Single>, Seq<ExprState>)
    decreases k,
{
    if k == 0 {
        (vars, states)
    } else {
        let (v, s) = signalled(f, programs, signals, vars, states, dt, (k - 1) as nat);
        let (prog, slot) = signals[k - 1];
        let ops = programs[prog as int];
        (
            v.update(slot as int, crate::graph::expr::result(f, ops, v, s, dt)),
            crate::graph::expr::ran(f, ops, ops.len(), v, s, dt).states,
        )
    }
}

/// Every signal has a program, and a slot in the value table.
pub open spec fn signals_wf(signals: Seq<(usize, usize)>, programs: nat, vars: nat) -> bool {
    forall|k: int| 0 <= k < signals.len() ==> (#[trigger] signals[k]).0 < programs && signals[k].1 < vars
}

pub fn run_signals<F: Fn(Prim, Single, Single) -> Single>(
    fpu: &F,
    programs: &Vec<Program>,
    signals: &Vec<(usize, usize)>,
    vars: &mut Vec<Single>,
    states: &mut Vec<ExprState>,
    dt: Single,
)
    requires
        total(*fpu),
        programs_wf(programs@, old(vars)@.len(), old(states)@.len()),
        signals_wf(signals@, programs@.len(), old(vars)@.len()),
    ensures
        final(vars)@.len() == old(vars)@.len(),
        final(states)@.len() == old(states)@.len(),
        forall|f: Sums| #[trigger] meant(*fpu, f) ==> (final(vars)@, final(states)@) == signalled(
            f,
            codes(programs@),
            signals@,
            old(vars)@,
            old(states)@,
            dt,
            signals@.len(),
        ),
{
    let mut k: usize = 0;
    while k < signals.len()
        invariant
            k <= signals@.len(),
            total(*fpu),
            vars@.len() == old(vars)@.len(),
            states@.len() == old(states)@.len(),
            programs_wf(programs@, vars@.len(), states@.len()),
            signals_wf(signals@, programs@.len(), vars@.len()),
            forall|f: Sums| #[trigger] meant(*fpu, f) ==> (vars@, states@) == signalled(
                f,
                codes(programs@),
                signals@,
                old(vars)@,
                old(states)@,
                dt,
                k as nat,
            ),
        decreases signals@.len() - k,
    {
        let (prog, slot) = signals[k];
        assert(signals@[k as int].0 < programs@.len());
        assert(codes(programs@)[prog as int] == programs@[prog as int].ops@);
        let v = programs[prog].eval(fpu, vars, states, dt);
        vars.set(slot, v);
        k = k + 1;
    }
}

/// Value of a binding, and the states it leaves.
pub open spec fn value(f: Sums, b: Binding, programs: Seq<Seq<Op>>, vars: Seq<Single>, states: Seq<ExprState>, dt: Single) -> (
    Single,
    Seq<ExprState>,
) {
    match b {
        Binding::Const(c) => (c, states),
        Binding::Prog(i) => {
            let ops = programs[i as int];
            (
                crate::graph::expr::result(f, ops, vars, states, dt),
                crate::graph::expr::ran(f, ops, ops.len(), vars, states, dt).states,
            )
        },
    }
}

fn evaluate<F: Fn(Prim, Single, Single) -> Single>(
    fpu: &F,
    b: Binding,
    programs: &Vec<Program>,
    vars: &Vec<Single>,
    states: &mut Vec<ExprState>,
    dt: Single,
) -> (r: Single)
    requires
        total(*fpu),
        b.wf(programs@.len()),
        programs_wf(programs@, vars@.len(), old(states)@.len()),
    ensures
        final(states)@.len() == old(states)@.len(),
        forall|f: Sums| #[trigger] meant(*fpu, f) ==> (r, final(states)@) == value(f, b, codes(programs@), vars@, old(states)@, dt),
{
    match b {
        Binding::Const(c) => c,
        Binding::Prog(i) => {
            assert(codes(programs@)[i as int] == programs@[i as int].ops@);
            programs[i].eval(fpu, vars, states, dt)
        },
    }
}

/// The arguments of a node after the first `k`, the rest zero, and the states they leave.
pub open spec fn arguments(
    f: Sums,
    params: Seq<Binding>,
    programs: Seq<Seq<Op>>,
    vars: Seq<Single>,
    states: Seq<ExprState>,
    dt: Single,
    k: nat,
) -> (Seq<Single>, Seq<ExprState>)
    decreases k,
{
    if k == 0 {
        (crate::blocks::silence(4), states)
    } else {
        let (pv, s) = arguments(f, params, programs, vars, states, dt, (k - 1) as nat);
        let (v, t) = value(f, params[k - 1], programs, vars, s, dt);
        (pv.update(k - 1, v), t)
    }
}

fn evaluate_all<F: Fn(Prim, Single, Single) -> Single>(
    fpu: &F,
    params: &Vec<Binding>,
    programs: &Vec<Program>,
    vars: &Vec<Single>,
    states: &mut Vec<ExprState>,
    dt: Single,
    pv: &mut Vec<Single>,
)
    requires
        total(*fpu),
        params@.len() <= 3,
        forall|i: int| 0 <= i < params@.len() ==> (#[trigger] params@[i]).wf(programs@.len()),
        programs_wf(programs@, vars@.len(), old(states)@.len()),
    ensures
        final(states)@.len() == old(states)@.len(),
        final(pv)@.len() == 4,
        forall|f: Sums| #[trigger] meant(*fpu, f) ==> (final(pv)@, final(states)@) == arguments(
            f,
            params@,
            codes(programs@),
            vars@,
            old(states)@,
            dt,
            params@.len(),
        ),
{
    zero_block(pv, 4);
    let mut k: usize = 0;
    while k < params.len()
        invariant
            k <= params@.len() <= 3,
            total(*fpu),
            forall|i: int| 0 <= i < params@.len() ==> (#[trigger] params@[i]).wf(programs@.len()),
            states@.len() == old(states)@.len(),
            programs_wf(programs@, vars@.len(), states@.len()),
            pv@.len() == 4,
            forall|f: Sums| #[trigger] meant(*fpu, f) ==> (pv@, states@) == arguments(f, params@, codes(programs@), vars@, old(states)@, dt, k as nat),
        decreases params@.len() - k,
    {
        let v = evaluate(fpu, params[k], programs, vars, states, dt);
        pv.set(k, v);
        k = k + 1;
    }
}

fn zero_block(out: &mut Vec<Single>, n: usize)
    ensures
        final(out)@ == crate::blocks::silence(n as nat),
{
    out.clear();
    let mut i: usize = 0;
    while i < n
        invariant
            i <= n,
            out@ == crate::blocks::silence(i as nat),
        decreases n - i,
    {
        out.push(Single::of(ZERO));
        i = i + 1;
        assert(out@ =~= crate::blocks::silence(i as nat));
    }
}

/// A gain after `j` steps.
pub open spec fn ramp(f: Sums, from: Single, step: Single, j: nat) -> Single
    decreases j,
{
    if j == 0 {
        from
    } else {
        f(Prim::Add, ramp(f, from, step, (j - 1) as nat), step)
    }
}

/// A block with another added to it at a ramped gain.
pub open spec fn added(f: Sums, dst: Seq<Single>, buf: Seq<Single>, from: Single, step: Single) -> Seq<Single> {
    Seq::new(dst.len(), |j: int| f(Prim::Add, dst[j], f(Prim::Mul, buf[j], ramp(f, from, step, (j + 1) as nat))))
}

fn add_block<F: Fn(Prim, Single, Single) -> Single>(fpu: &F, dst: &mut Vec<Single>, buf: &Vec<Single>, from: Single, step: Single)
    requires
        total(*fpu),
        old(dst)@.len() == buf@.len(),
    ensures
        final(dst)@.len() == old(dst)@.len(),
        forall|f: Sums| #[trigger] meant(*fpu, f) ==> final(dst)@ == added(f, old(dst)@, buf@, from, step),
{
    let mut g = from;
    let mut j: usize = 0;
    while j < dst.len()
        invariant
            j <= dst@.len() == buf@.len() == old(dst)@.len(),
            total(*fpu),
            forall|k: int| j <= k < dst@.len() ==> #[trigger] dst@[k] == old(dst)@[k],
            forall|f: Sums| #[trigger] meant(*fpu, f) ==> g == ramp(f, from, step, j as nat) && forall|k: int|
                0 <= k < j ==> #[trigger] dst@[k] == added(f, old(dst)@, buf@, from, step)[k],
        decreases dst@.len() - j,
    {
        g = fpu(Prim::Add, g, step);
        let y = fpu(Prim::Add, dst[j], fpu(Prim::Mul, buf[j], g));
        dst.set(j, y);
        j = j + 1;
    }
    proof {
        assert forall|f: Sums| #[trigger] meant(*fpu, f) implies dst@ == added(f, old(dst)@, buf@, from, step) by {
            assert(dst@ =~= added(f, old(dst)@, buf@, from, step));
        }
    }
}

/// What the sources of a node sum up to.
pub struct Gathered {
    pub sources: Seq<Source>,
    pub sum: Seq<Single>,
    pub states: Seq<ExprState>,
}

/// The sum of the first `k` sources, each gain ramped across the block.
pub open spec fn gathered(
    f: Sums,
    sources: Seq<Source>,
    bufs: Seq<Seq<Single>>,
    n: nat,
    programs: Seq<Seq<Op>>,
    vars: Seq<Single>,
    states: Seq<ExprState>,
    dt: Single,
    k: nat,
) -> Gathered
    decreases k,
{
    if k == 0 {
        Gathered { sources, sum: crate::blocks::silence(n), states }
    } else {
        let before = gathered(f, sources, bufs, n, programs, vars, states, dt, (k - 1) as nat);
        let src = sources[k - 1];
        let (target, left) = value(f, src.gain, programs, vars, before.states, dt);
        let from = crate::graph::node::settled(src.last, target);
        Gathered {
            sources: before.sources.update(k - 1, Source { last: target, ..src }),
            sum: added(
                f,
                before.sum,
                bufs[src.node as int],
                from,
                crate::graph::node::block_step(f, target, from, n),
            ),
            states: left,
        }
    }
}

/// The views of a list of blocks.
pub open spec fn block_views(bufs: Seq<Vec<Single>>) -> Seq<Seq<Single>> {
    Seq::new(bufs.len(), |i: int| bufs[i]@)
}

/// Sum `sources` into `dst`, ramping each gain across the block to avoid zipper noise.
fn gather<F: Fn(Prim, Single, Single) -> Single>(
    fpu: &F,
    sources: &mut Vec<Source>,
    bufs: &Vec<Vec<Single>>,
    n: usize,
    programs: &Vec<Program>,
    vars: &Vec<Single>,
    states: &mut Vec<ExprState>,
    dt: Single,
    dst: &mut Vec<Single>,
    Ghost(place): Ghost<int>,
)
    requires
        total(*fpu),
        n <= 0x0100_0000,
        crate::graph::wiring::sources_wf(old(sources)@, place, programs@.len()),
        place <= bufs@.len(),
        forall|i: int| 0 <= i < place ==> (#[trigger] bufs@[i])@.len() == n,
        programs_wf(programs@, vars@.len(), old(states)@.len()),
    ensures
        final(states)@.len() == old(states)@.len(),
        final(dst)@.len() == n,
        crate::graph::wiring::sources_wf(final(sources)@, place, programs@.len()),
        forall|f: Sums| #[trigger] meant(*fpu, f) ==> (Gathered { sources: final(sources)@, sum: final(dst)@, states: final(states)@ }) == gathered(
            f,
            old(sources)@,
            block_views(bufs@),
            n as nat,
            codes(programs@),
            vars@,
            old(states)@,
            dt,
            old(sources)@.len(),
        ),
{
    zero_block(dst, n);
    let mut k: usize = 0;
    while k < sources.len()
        invariant
            k <= sources@.len() == old(sources)@.len(),
            n <= 0x0100_0000,
            total(*fpu),
            crate::graph::wiring::sources_wf(old(sources)@, place, programs@.len()),
            crate::graph::wiring::sources_wf(sources@, place, programs@.len()),
            place <= bufs@.len(),
            forall|i: int| 0 <= i < place ==> (#[trigger] bufs@[i])@.len() == n,
            states@.len() == old(states)@.len(),
            programs_wf(programs@, vars@.len(), states@.len()),
            dst@.len() == n,
            forall|j: int| k <= j < sources@.len() ==> #[trigger] sources@[j] == old(sources)@[j],
            forall|f: Sums| #[trigger] meant(*fpu, f) ==> (Gathered { sources: sources@, sum: dst@, states: states@ }) == gathered(
                f,
                old(sources)@,
                block_views(bufs@),
                n as nat,
                codes(programs@),
                vars@,
                old(states)@,
                dt,
                k as nat,
            ),
        decreases sources@.len() - k,
    {
        let src = sources[k];
        assert(sources@[k as int].node < place);
        assert(bufs@[src.node as int]@.len() == n);
        assert(block_views(bufs@)[src.node as int] == bufs@[src.node as int]@);
        let target = evaluate(fpu, src.gain, programs, vars, states, dt);
        let from = if src.last.is_finite() {
            src.last
        } else {
            target
        };
        let step = fpu(Prim::Div, fpu(Prim::Sub, target, from), exact(n as u32, 0));
        add_block(fpu, dst, &bufs[src.node], from, step);
        sources.set(k, Source { node: src.node, gain: src.gain, last: target });
        k = k + 1;
    }
}

/// Memory and output of a node that may have blown up: it falls silent and forgets.
pub open spec fn guarded(kind: KindView, out: Seq<Single>) -> (KindView, Seq<Single>) {
    let last = out.last();
    if out.len() > 0 && (!last.finite() || Single::of(P1000000).below(last.absolute())) {
        (crate::graph::node::recovered(kind), crate::blocks::silence(out.len()))
    } else {
        (kind, out)
    }
}

/// Nodes, blocks and states after the first nodes of a graph.
pub struct Played {
    pub nodes: Seq<NodeView>,
    pub bufs: Seq<Seq<Single>>,
    pub states: Seq<ExprState>,
}

/// One node of a graph played for a block, `bufs` being what the nodes before it gave.
pub open spec fn played_node(
    f: Sums,
    node: NodeView,
    bufs: Seq<Seq<Single>>,
    programs: Seq<Seq<Op>>,
    vars: Seq<Single>,
    states: Seq<ExprState>,
    dt: Single,
    sr: Single,
    n: nat,
) -> (NodeView, Seq<Single>, Seq<ExprState>) {
    let (pv, s) = arguments(f, node.params, programs, vars, states, dt, node.params.len());
    let a = gathered(f, node.inputs, bufs, n, programs, vars, s, dt, node.inputs.len());
    let b = gathered(f, node.by, bufs, n, programs, vars, a.states, dt, node.by.len());
    let (kind, out) = crate::graph::node::processed(f, node.kind, pv, a.sum, b.sum, sr);
    let (kept, heard) = guarded(kind, out);
    (NodeView { kind: kept, inputs: a.sources, by: b.sources, ..node }, heard, b.states)
}

/// The first `k` nodes of a graph played for a block.
pub open spec fn played(
    f: Sums,
    nodes: Seq<NodeView>,
    programs: Seq<Seq<Op>>,
    vars: Seq<Single>,
    states: Seq<ExprState>,
    dt: Single,
    sr: Single,
    n: nat,
    k: nat,
) -> Played
    decreases k,
{
    if k == 0 {
        Played { nodes, bufs: seq![], states }
    } else {
        let before = played(f, nodes, programs, vars, states, dt, sr, n, (k - 1) as nat);
        let (node, out, left) = played_node(f, nodes[k - 1], before.bufs, programs, vars, before.states, dt, sr, n);
        Played { nodes: before.nodes.update(k - 1, node), bufs: before.bufs.push(out), states: left }
    }
}

/// Buffers that every node needs while it is played.
#[derive(Debug)]
pub struct Scratch {
    pub pv: Vec<Single>,
    pub x: Vec<Single>,
    pub by: Vec<Single>,
}

/// Play one node; `place` is its position.
fn play_node<F: Fn(Prim, Single, Single) -> Single>(
    fpu: &F,
    node: &mut Node,
    bufs: &Vec<Vec<Single>>,
    programs: &Vec<Program>,
    vars: &Vec<Single>,
    states: &mut Vec<ExprState>,
    dt: Single,
    sr: Single,
    n: usize,
    scratch: &mut Scratch,
    out: &mut Vec<Single>,
    Ghost(place): Ghost<int>,
)
    requires
        total(*fpu),
        n <= 0x0100_0000,
        old(node).wf(place, programs@.len()),
        place <= bufs@.len(),
        forall|i: int| 0 <= i < place ==> (#[trigger] bufs@[i])@.len() == n,
        programs_wf(programs@, vars@.len(), old(states)@.len()),
    ensures
        final(node).wf(place, programs@.len()),
        final(states)@.len() == old(states)@.len(),
        final(out)@.len() == n,
        forall|f: Sums| #[trigger] meant(*fpu, f) ==> (final(node)@, final(out)@, final(states)@) == played_node(
            f,
            old(node)@,
            block_views(bufs@),
            codes(programs@),
            vars@,
            old(states)@,
            dt,
            sr,
            n as nat,
        ),
{
    evaluate_all(fpu, &node.params, programs, vars, states, dt, &mut scratch.pv);
    gather(fpu, &mut node.inputs, bufs, n, programs, vars, states, dt, &mut scratch.x, Ghost(place));
    gather(fpu, &mut node.by, bufs, n, programs, vars, states, dt, &mut scratch.by, Ghost(place));
    process(fpu, &mut node.kind, &scratch.pv, &scratch.x, &scratch.by, out, sr);
    // A filter that blew up would otherwise stay poisoned forever.
    if n > 0 {
        let last = out[n - 1];
        if !last.is_finite() || Single::of(P1000000).lt(last.abs()) {
            zero_block(out, n);
            node.kind.reset();
        }
    }
}

/// What a list of blocks holds up to a place.
pub open spec fn first_blocks(bufs: Seq<Vec<Single>>, k: int) -> Seq<Seq<Single>> {
    Seq::new(k as nat, |i: int| bufs[i]@)
}

/// Sources look no further than the blocks before a node.
proof fn lemma_gathered_alike(
    f: Sums,
    sources: Seq<Source>,
    a: Seq<Seq<Single>>,
    b: Seq<Seq<Single>>,
    n: nat,
    programs: Seq<Seq<Op>>,
    vars: Seq<Single>,
    states: Seq<ExprState>,
    dt: Single,
    k: nat,
    place: int,
    count: nat,
)
    requires
        crate::graph::wiring::sources_wf(sources, place, count),
        k <= sources.len(),
        place <= a.len(),
        place <= b.len(),
        forall|i: int| 0 <= i < place ==> #[trigger] a[i] == b[i],
    ensures
        gathered(f, sources, a, n, programs, vars, states, dt, k) == gathered(f, sources, b, n, programs, vars, states, dt, k),
    decreases k,
{
    if k > 0 {
        lemma_gathered_alike(f, sources, a, b, n, programs, vars, states, dt, (k - 1) as nat, place, count);
        assert(sources[k - 1].node < place);
        assert(a[sources[k - 1].node as int] == b[sources[k - 1].node as int]);
    }
}

pub fn play_nodes<F: Fn(Prim, Single, Single) -> Single>(
    fpu: &F,
    nodes: &mut Vec<Node>,
    bufs: &mut Vec<Vec<Single>>,
    programs: &Vec<Program>,
    vars: &Vec<Single>,
    states: &mut Vec<ExprState>,
    dt: Single,
    sr: Single,
    n: usize,
    scratch: &mut Scratch,
)
    requires
        total(*fpu),
        n <= 0x0100_0000,
        crate::graph::wiring::nodes_wf(old(nodes)@, programs@.len()),
        old(bufs)@.len() == old(nodes)@.len(),
        programs_wf(programs@, vars@.len(), old(states)@.len()),
    ensures
        final(nodes)@.len() == old(nodes)@.len(),
        final(bufs)@.len() == old(bufs)@.len(),
        crate::graph::wiring::nodes_wf(final(nodes)@, programs@.len()),
        final(states)@.len() == old(states)@.len(),
        forall|i: int| 0 <= i < final(bufs)@.len() ==> (#[trigger] final(bufs)@[i])@.len() == n,
        forall|f: Sums| #[trigger] meant(*fpu, f) ==> (Played {
            nodes: crate::graph::wiring::node_views(final(nodes)@),
            bufs: block_views(final(bufs)@),
            states: final(states)@,
        }) == played(
            f,
            crate::graph::wiring::node_views(old(nodes)@),
            codes(programs@),
            vars@,
            old(states)@,
            dt,
            sr,
            n as nat,
            old(nodes)@.len(),
        ),
{
    let ghost start = crate::graph::wiring::node_views(nodes@);
    let mut k: usize = 0;
    assert(first_blocks(bufs@, 0) =~= seq![]);
    while k < nodes.len()
        invariant
            k <= nodes@.len() == old(nodes)@.len() == bufs@.len() == old(bufs)@.len(),
            start == crate::graph::wiring::node_views(old(nodes)@),
            n <= 0x0100_0000,
            total(*fpu),
            crate::graph::wiring::nodes_wf(nodes@, programs@.len()),
            states@.len() == old(states)@.len(),
            programs_wf(programs@, vars@.len(), states@.len()),
            forall|i: int| 0 <= i < k ==> (#[trigger] bufs@[i])@.len() == n,
            forall|i: int| k <= i < nodes@.len() ==> #[trigger] nodes@[i] == old(nodes)@[i],
            forall|f: Sums| #[trigger] meant(*fpu, f) ==> (Played {
                nodes: crate::graph::wiring::node_views(nodes@),
                bufs: first_blocks(bufs@, k as int),
                states: states@,
            }) == played(f, start, codes(programs@), vars@, old(states)@, dt, sr, n as nat, k as nat),
        decreases nodes@.len() - k,
    {
        let ghost (nodes0, bufs0, states0) = (nodes@, bufs@, states@);
        let mut out: Vec<Single> = Vec::new();
        std::mem::swap(&mut out, &mut bufs[k]);
        let ghost bufs1 = bufs@;
        assert(nodes@[k as int].wf(k as int, programs@.len()));
        play_node(fpu, &mut nodes[k], bufs, programs, vars, states, dt, sr, n, scratch, &mut out, Ghost(k as int));
        bufs.set(k, out);
        proof {
            assert forall|i: int| 0 <= i < nodes@.len() implies (#[trigger] nodes@[i]).wf(i, programs@.len()) by {
                if i != k {
                    assert(nodes0[i].wf(i, programs@.len()));
                }
            }
            assert forall|f: Sums| #[trigger] meant(*fpu, f) implies (Played {
                nodes: crate::graph::wiring::node_views(nodes@),
                bufs: first_blocks(bufs@, k + 1),
                states: states@,
            }) == played(f, start, codes(programs@), vars@, old(states)@, dt, sr, n as nat, (k + 1) as nat) by {
                let before = played(f, start, codes(programs@), vars@, old(states)@, dt, sr, n as nat, k as nat);
                let node = nodes0[k as int];
                let count = programs@.len();
                assert(start[k as int] == node@);
                let (pv, s) = arguments(f, node@.params, codes(programs@), vars@, states0, dt, node@.params.len());
                let a = gathered(f, node@.inputs, before.bufs, n as nat, codes(programs@), vars@, s, dt, node@.inputs.len());
                lemma_gathered_alike(
                    f,
                    node@.inputs,
                    block_views(bufs1),
                    before.bufs,
                    n as nat,
                    codes(programs@),
                    vars@,
                    s,
                    dt,
                    node@.inputs.len(),
                    k as int,
                    count,
                );
                lemma_gathered_alike(
                    f,
                    node@.by,
                    block_views(bufs1),
                    before.bufs,
                    n as nat,
                    codes(programs@),
                    vars@,
                    a.states,
                    dt,
                    node@.by.len(),
                    k as int,
                    count,
                );
                assert(first_blocks(bufs@, k + 1) =~= before.bufs.push(bufs@[k as int]@));
                assert(crate::graph::wiring::node_views(nodes@) =~= before.nodes.update(k as int, nodes@[k as int]@));
            }
        }
        k = k + 1;
    }
    assert(first_blocks(bufs@, k as int) =~= block_views(bufs@));
}

/// A sample as it leaves a model: limited, and silence where it is no number.
pub open spec fn finished(f: Sums, s: Single) -> Single {
    if s.finite() {
        crate::math::limited(f, s)
    } else {
        Single::of(ZERO)
    }
}

/// The peak meter after the first `k` samples.
pub open spec fn metered(f: Sums, peak: Single, decay: Single, out: Seq<Single>, k: nat) -> Single
    decreases k,
{
    if k == 0 {
        peak
    } else {
        let before = metered(f, peak, decay, out, (k - 1) as nat);
        f(Prim::Mul, before, decay).larger(out[k - 1].absolute())
    }
}

/// The output of a block.
pub open spec fn finished_block(f: Sums, buf: Seq<Single>) -> Seq<Single> {
    Seq::new(buf.len(), |i: int| finished(f, buf[i]))
}

/// Write a block out from position `from` on, and return the peak meter.
pub fn finish_block<F: Fn(Prim, Single, Single) -> Single>(fpu: &F, buf: &Vec<Single>, out: &mut Vec<Single>, from: usize, peak: Single, decay: Single) -> (r: Single)
    requires
        total(*fpu),
        from + buf@.len() <= old(out)@.len(),
    ensures
        final(out)@.len() == old(out)@.len(),
        forall|i: int| 0 <= i < from || from + buf@.len() <= i < old(out)@.len() ==> #[trigger] final(out)@[i] == old(out)@[i],
        forall|f: Sums| #[trigger] meant(*fpu, f) ==> final(out)@.subrange(from as int, from + buf@.len()) == finished_block(f, buf@) && r == metered(
            f,
            peak,
            decay,
            finished_block(f, buf@),
            buf@.len(),
        ),
{
    let count = out.len();
    let mut level = peak;
    let mut i: usize = 0;
    while i < buf.len()
        invariant
            i <= buf@.len(),
            total(*fpu),
            from + buf@.len() <= out@.len() == old(out)@.len() == count,
            forall|j: int| 0 <= j < from || from + i <= j < out@.len() ==> #[trigger] out@[j] == old(out)@[j],
            forall|f: Sums| #[trigger] meant(*fpu, f) ==> level == metered(f, peak, decay, finished_block(f, buf@), i as nat) && forall|j: int|
                from <= j < from + i ==> #[trigger] out@[j] == finished(f, buf@[j - from]),
        decreases buf@.len() - i,
    {
        let s = buf[i];
        let y = if s.is_finite() {
            limit(fpu, s)
        } else {
            Single::of(ZERO)
        };
        out.set(from + i, y);
        level = fpu(Prim::Mul, level, decay).max(y.abs());
        i = i + 1;
    }
    proof {
        assert forall|f: Sums| #[trigger] meant(*fpu, f) implies out@.subrange(from as int, from + buf@.len())
            == finished_block(f, buf@) by {
            assert(out@.subrange(from as int, from + buf@.len()) =~= finished_block(f, buf@));
        }
    }
    level
}

/// What leaves a model is a number within full scale, whatever its nodes made of it.
pub proof fn lemma_finished_in_scale(f: Sums, s: Single)
    ensures
        crate::math::in_scale(finished(f, s)),
{
}

/// The peak meter stays in [0, 1] where the samples are within full scale.
pub proof fn lemma_metered_is_share(f: Sums, peak: Single, decay: Single, out: Seq<Single>, k: nat)
    requires
        crate::math::shares_multiply(f),
        crate::math::is_share(peak),
        crate::math::is_share(decay),
        k <= out.len(),
        forall|i: int| 0 <= i < out.len() ==> crate::math::in_scale(#[trigger] out[i]),
    ensures
        crate::math::is_share(metered(f, peak, decay, out, k)),
    decreases k,
{
    if k > 0 {
        lemma_metered_is_share(f, peak, decay, out, (k - 1) as nat);
        assert(crate::math::in_scale(out[k - 1]));
        assert(crate::math::is_share(f(Prim::Mul, metered(f, peak, decay, out, (k - 1) as nat), decay)));
    }
}

} // verus!
