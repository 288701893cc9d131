//! What a formula computes, and that its program computes it.
use vstd::prelude::*;

use crate::arith::{Numerals, Sums};
use crate::graph::expr::{ExprState, Machine};
use crate::graph::grammar::{Env, Func, Op, Scope, Tree};
use crate::single::{Single, TAU, ZERO};

verus! {

/// Value of a tree, its operands worked out from left to right, and the states it leaves.
pub open spec fn meaning(
    f: Sums,
    g: Numerals,
    scope: Scope,
    tree: Tree,
    vars: Seq<Single>,
    states: Seq<ExprState>,
    dt: Single,
) -> (Single, Seq<ExprState>)
    decreases tree,
{
    match tree {
        Tree::Num(text) => (g(text), states),
        Tree::Pi => (Single::of(crate::single::PI), states),
        Tree::Tau => (Single::of(TAU), states),
        Tree::Var(name) => (vars[scope.slot(name).unwrap()], states),
        Tree::Neg(a) => {
            let (x, s) = meaning(f, g, scope, *a, vars, states, dt);
            (x.negated(), s)
        },
        Tree::Bin(op, a, b) => {
            let (x, s) = meaning(f, g, scope, *a, vars, states, dt);
            let (y, t) = meaning(f, g, scope, *b, vars, s, dt);
            (crate::graph::expr::bin_value(f, op, x, y), t)
        },
        Tree::Call(func, list) => {
            let (x, s) = meanings(f, g, scope, list, vars, states, dt);
            crate::graph::expr::op_value(f, Op::Call(func), x, vars, s, dt)
        },
    }
}

pub open spec fn meanings(
    f: Sums,
    g: Numerals,
    scope: Scope,
    list: Seq<Tree>,
    vars: Seq<Single>,
    states: Seq<ExprState>,
    dt: Single,
) -> (Seq<Single>, Seq<ExprState>)
    decreases list,
{
    if list.len() == 0 {
        (seq![], states)
    } else {
        let (x, s) = meanings(f, g, scope, list.drop_last(), vars, states, dt);
        let (y, t) = meaning(f, g, scope, list.last(), vars, s, dt);
        (x.push(y), t)
    }
}

/// A run depends on the steps taken only.
proof fn lemma_ran_prefix(f: Sums, p: Seq<Op>, q: Seq<Op>, n: nat, vars: Seq<Single>, states: Seq<ExprState>, dt: Single)
    requires
        n <= p.len(),
        n <= q.len(),
        forall|k: int| 0 <= k < n ==> p[k] == q[k],
    ensures
        crate::graph::expr::ran(f, p, n, vars, states, dt) == crate::graph::expr::ran(f, q, n, vars, states, dt),
    decreases n,
{
    if n > 0 {
        lemma_ran_prefix(f, p, q, (n - 1) as nat, vars, states, dt);
    }
}

/// One step more.
proof fn lemma_ran_push(f: Sums, p: Seq<Op>, op: Op, vars: Seq<Single>, states: Seq<ExprState>, dt: Single)
    ensures
        crate::graph::expr::ran(f, p.push(op), p.len() + 1, vars, states, dt) == crate::graph::expr::ran(f, p, p.len(), vars, states, dt).after(f, op, vars, dt),
{
    lemma_ran_prefix(f, p, p.push(op), p.len(), vars, states, dt);
}

/// The code of a tree leaves its value on the stack and nothing else.
proof fn lemma_code_means(
    f: Sums,
    g: Numerals,
    scope: Scope,
    slots: nat,
    tree: Tree,
    pre: Seq<Op>,
    vars: Seq<Single>,
    states: Seq<ExprState>,
    dt: Single,
)
    requires
        crate::graph::grammar::regular(scope, slots, tree),
        scope.fits(),
    ensures
        ({
            let all = pre + crate::graph::grammar::emit(g, scope, tree);
            let m = crate::graph::expr::ran(f, pre, pre.len(), vars, states, dt);
            let (x, s) = meaning(f, g, scope, tree, vars, m.states, dt);
            crate::graph::expr::ran(f, all, all.len(), vars, states, dt) == (Machine { stack: m.stack.push(x), states: s })
        }),
    decreases tree,
{
    reveal(crate::graph::expr::op_value);
    let code = crate::graph::grammar::emit(g, scope, tree);
    let all = pre + code;
    let m = crate::graph::expr::ran(f, pre, pre.len(), vars, states, dt);
    let (x, s) = meaning(f, g, scope, tree, vars, m.states, dt);
    match tree {
        Tree::Num(_) | Tree::Pi | Tree::Tau | Tree::Var(_) => {
            if let Tree::Var(name) = tree {
                scope.lemma_slot(name);
            }
            let op = code[0];
            assert(all =~= pre.push(op));
            lemma_ran_push(f, pre, op, vars, states, dt);
            assert(m.stack.subrange(0, m.stack.len() as int) =~= m.stack);
        },
        Tree::Neg(a) => {
            lemma_code_means(f, g, scope, slots, *a, pre, vars, states, dt);
            let one = pre + crate::graph::grammar::emit(g, scope, *a);
            assert(all =~= one.push(Op::Neg));
            lemma_ran_push(f, one, Op::Neg, vars, states, dt);
            let n = crate::graph::expr::ran(f, one, one.len(), vars, states, dt);
            assert(n.stack.subrange(0, m.stack.len() as int) =~= m.stack);
        },
        Tree::Bin(op, a, b) => {
            lemma_code_means(f, g, scope, slots, *a, pre, vars, states, dt);
            let one = pre + crate::graph::grammar::emit(g, scope, *a);
            lemma_code_means(f, g, scope, slots, *b, one, vars, states, dt);
            let two = one + crate::graph::grammar::emit(g, scope, *b);
            assert(all =~= two.push(Op::Bin(op)));
            lemma_ran_push(f, two, Op::Bin(op), vars, states, dt);
            let n = crate::graph::expr::ran(f, two, two.len(), vars, states, dt);
            assert(n.stack.subrange(0, m.stack.len() as int) =~= m.stack);
        },
        Tree::Call(func, list) => {
            lemma_code_means_all(f, g, scope, slots, list, pre, vars, states, dt);
            let one = pre + crate::graph::grammar::emit_all(g, scope, list);
            assert(all =~= one.push(Op::Call(func)));
            lemma_ran_push(f, one, Op::Call(func), vars, states, dt);
            let n = crate::graph::expr::ran(f, one, one.len(), vars, states, dt);
            let (xs, _) = meanings(f, g, scope, list, vars, m.states, dt);
            assert(n.stack.subrange(0, m.stack.len() as int) =~= m.stack);
            assert(n.stack.subrange(m.stack.len() as int, n.stack.len() as int) =~= xs);
        },
    }
}

proof fn lemma_code_means_all(
    f: Sums,
    g: Numerals,
    scope: Scope,
    slots: nat,
    list: Seq<Tree>,
    pre: Seq<Op>,
    vars: Seq<Single>,
    states: Seq<ExprState>,
    dt: Single,
)
    requires
        crate::graph::grammar::regular_all(scope, slots, list),
        scope.fits(),
    ensures
        ({
            let all = pre + crate::graph::grammar::emit_all(g, scope, list);
            let m = crate::graph::expr::ran(f, pre, pre.len(), vars, states, dt);
            let (xs, s) = meanings(f, g, scope, list, vars, m.states, dt);
            &&& crate::graph::expr::ran(f, all, all.len(), vars, states, dt) == (Machine { stack: m.stack + xs, states: s })
            &&& xs.len() == list.len()
        }),
    decreases list,
{
    let all = pre + crate::graph::grammar::emit_all(g, scope, list);
    let m = crate::graph::expr::ran(f, pre, pre.len(), vars, states, dt);
    let (xs, s) = meanings(f, g, scope, list, vars, m.states, dt);
    if list.len() == 0 {
        assert(all =~= pre);
        assert(m.stack + xs =~= m.stack);
    } else {
        lemma_code_means_all(f, g, scope, slots, list.drop_last(), pre, vars, states, dt);
        let one = pre + crate::graph::grammar::emit_all(g, scope, list.drop_last());
        lemma_code_means(f, g, scope, slots, list.last(), one, vars, states, dt);
        assert(all =~= one + crate::graph::grammar::emit(g, scope, list.last()));
        let (ys, _) = meanings(f, g, scope, list.drop_last(), vars, m.states, dt);
        assert((m.stack + ys).push(xs.last()) =~= m.stack + xs);
    }
}

/// Running the code of a formula gives the value of the formula and moves its states as the
/// formula says.
pub proof fn lemma_code_computes_formula(
    f: Sums,
    g: Numerals,
    env: Env,
    src: Seq<char>,
    vars: Seq<Single>,
    states: Seq<ExprState>,
    dt: Single,
)
    requires
        env.scope.fits(),
        crate::graph::grammar::formula(env, src) is Parsed,
    ensures
        ({
            let tree = crate::graph::grammar::formula(env, src)->tree;
            let code = crate::graph::grammar::emit(g, env.scope, tree);
            let (x, s) = meaning(f, g, env.scope, tree, vars, states, dt);
            &&& crate::graph::expr::result(f, code, vars, states, dt) == crate::graph::expr::sanitised(x)
            &&& crate::graph::expr::ran(f, code, code.len(), vars, states, dt).states == s
        }),
{
    let toks = crate::graph::token::words(src)->Ok_0;
    crate::graph::grammar::lemma_compare(env, toks, 0, seq![]);
    let tree = crate::graph::grammar::formula(env, src)->tree;
    let calls = crate::graph::grammar::formula(env, src)->Parsed_calls;
    let none: Seq<Op> = seq![];
    lemma_code_means(f, g, env.scope, env.base + calls.len(), tree, none, vars, states, dt);
    assert(none + crate::graph::grammar::emit(g, env.scope, tree) =~= crate::graph::grammar::emit(g, env.scope, tree));
}

/// A fixed program does not look at its surroundings.
proof fn lemma_fixed_runs_alike(f: Sums, ops: Seq<Op>, n: nat, vars: Seq<Single>, states: Seq<ExprState>, dt: Single)
    requires
        crate::graph::formula::fixed(ops),
        n <= ops.len(),
    ensures
        crate::graph::expr::ran(f, ops, n, vars, states, dt).stack == crate::graph::expr::ran(f, ops, n, seq![], seq![], Single::of(ZERO)).stack,
        crate::graph::expr::ran(f, ops, n, vars, states, dt).states == states,
    decreases n,
{
    reveal(crate::graph::expr::op_value);
    if n > 0 {
        lemma_fixed_runs_alike(f, ops, (n - 1) as nat, vars, states, dt);
        let op = ops[n - 1];
        assert(!(op is Var) && !(op matches Op::Call(Func::St(..))));
    }
}

/// Folding a program into a constant changes neither its result nor any state.
pub proof fn lemma_folding_keeps_result(f: Sums, ops: Seq<Op>, vars: Seq<Single>, states: Seq<ExprState>, dt: Single)
    ensures
        ({
            let short = crate::graph::formula::folded(f, ops);
            &&& crate::graph::expr::result(f, short, vars, states, dt) == crate::graph::expr::result(f, ops, vars, states, dt)
            &&& crate::graph::expr::ran(f, short, short.len(), vars, states, dt).states == crate::graph::expr::ran(f, ops, ops.len(), vars, states, dt).states
        }),
{
    reveal(crate::graph::expr::op_value);
    if crate::graph::formula::fixed(ops) {
        lemma_fixed_runs_alike(f, ops, ops.len(), vars, states, dt);
        let short = crate::graph::formula::folded(f, ops);
        reveal_with_fuel(crate::graph::expr::ran, 2);
        let start = Machine { stack: seq![], states };
        assert(crate::graph::expr::ran(f, short, 1, vars, states, dt) == start.after(f, short[0], vars, dt));
        assert(start.after(f, short[0], vars, dt).stack[0] == crate::graph::expr::result(f, ops, seq![], seq![], Single::of(ZERO)));
    }
}

} // verus!
