//! From the text of a formula to a program.
use vstd::prelude::*;

use crate::arith::{meant, reads, reads_all, total, Numerals, Prim, Sums};
use crate::graph::expr::{ExprState, Program};
use crate::graph::grammar::{Env, Func, Op, Outcome, Scope, StFn, MAX_STACK};
use crate::graph::parse::{Code, Context, ExprError, NameTable};
use crate::graph::token::tokenize;
use crate::single::{Single, ZERO};

verus! {

/// States of calls that were never evaluated, the first of them in slot `base`.
pub open spec fn fresh_states(base: nat, calls: Seq<StFn>) -> Seq<ExprState> {
    Seq::new(calls.len(), |i: int| crate::graph::expr::fresh(calls[i], base + i))
}

/// A program that reads neither variables nor states.
pub open spec fn fixed(ops: Seq<Op>) -> bool {
    forall|k: int| 0 <= k < ops.len() ==> !((#[trigger] ops[k]) is Var) && !(ops[k] matches Op::Call(Func::St(..)))
}

/// A fixed program is replaced by its result.
pub open spec fn folded(f: Sums, ops: Seq<Op>) -> Seq<Op> {
    if fixed(ops) {
        seq![Op::Const(crate::graph::expr::result(f, ops, seq![], seq![], Single::of(ZERO)))]
    } else {
        ops
    }
}

/// Parse a formula into code, and say how deep its stack gets where that is too deep.
fn read_code<N: Fn(&String) -> Single>(src: &str, table: NameTable<'_>, base: usize, number: &N) -> (r: (
    Result<(), ExprError>,
    Code,
))
    requires
        table.scope().fits(),
        reads_all(*number),
        exists|g: Numerals| reads(*number, g),
    ensures
        base + r.1.calls@.len() <= 0xffff || r.1.calls@.len() == 0,
        match (r.0, crate::graph::grammar::formula(Env { scope: table.scope(), base: base as nat }, src@)) {
            (Ok(_), Outcome::Parsed { tree, at: _, calls }) => {
                &&& r.1.calls@ == calls
                &&& crate::graph::parse::texts(r.1.seen@) == crate::graph::grammar::names(tree)
                &&& crate::graph::expr::runs(r.1.ops@, table.scope().size(), base as nat + calls.len())
                &&& forall|g: Numerals| #[trigger]
                    reads(*number, g) ==> r.1.ops@ == crate::graph::grammar::emit(g, table.scope(), tree)
            },
            (Err(e), Outcome::Failed { fault, calls }) => e@ == fault && r.1.calls@ == calls,
            _ => false,
        },
{
    let mut code = Code { ops: Vec::new(), seen: Vec::new(), calls: Vec::new() };
    let ghost env = Env { scope: table.scope(), base: base as nat };
    let toks = match tokenize(src) {
        Ok(toks) => toks,
        Err(e) => return (Err(ExprError::Lex(e)), code),
    };
    if toks.len() == 0 {
        return (Err(ExprError::Empty), code);
    }
    let cx = Context { toks: &toks, table, base, number };
    let ghost empty = code;
    let ghost words = cx.words();
    proof {
        crate::graph::grammar::lemma_compare(env, words, 0, seq![]);
    }
    assert(empty.calls@ =~= seq![] && empty.ops@ =~= seq![] && empty.seen@ =~= seq![]);
    let at = match cx.compare(0, &mut code) {
        Ok(at) => at,
        Err(e) => return (Err(e), code),
    };
    if at != toks.len() {
        let tok = crate::graph::parse::copy(&toks[at]);
        return (Err(ExprError::Unexpected(tok)), code);
    }
    let ghost tree = crate::graph::grammar::compare(env, words, 0, seq![])->tree;
    let ghost slots = (base + code.calls@.len()) as nat;
    proof {
        let g = choose|g: Numerals| reads(*number, g);
        let none: Seq<Op> = seq![];
        crate::graph::grammar::lemma_emit(g, table.scope(), slots, tree, none);
        assert(cx.grown(empty, code, tree));
        assert(reads(*cx.number, g));
        assert(code.ops@ == empty.ops@ + crate::graph::grammar::emit(g, cx.table.scope(), tree));
        assert(none + crate::graph::grammar::emit(g, table.scope(), tree) =~= code.ops@);
        assert(crate::graph::grammar::grounded(code.ops@, 0, 0, table.scope(), slots));
        assert forall|h: Numerals| #[trigger] reads(*number, h) implies code.ops@
            == crate::graph::grammar::emit(h, table.scope(), tree) by {
            assert(reads(*cx.number, h));
            assert(code.ops@ == empty.ops@ + crate::graph::grammar::emit(h, cx.table.scope(), tree));
            assert(code.ops@ =~= crate::graph::grammar::emit(h, table.scope(), tree));
        }
        assert(crate::graph::parse::texts(code.seen@) =~= crate::graph::grammar::names(tree));
    }
    let max = stack_needed(&code.ops);
    if max > MAX_STACK {
        return (Err(ExprError::TooDeep(max)), code);
    }
    proof {
        assert forall|k: int| 0 <= k < code.ops@.len() implies #[trigger] crate::graph::expr::steps(
            code.ops@,
            k,
            table.scope().size(),
            slots,
        ) by {
            crate::graph::grammar::lemma_deepest(code.ops@, (k + 1) as nat, code.ops@.len());
        }
    }
    (Ok(()), code)
}

/// Most stack slots in use at once.
fn stack_needed(ops: &Vec<Op>) -> (r: usize)
    requires
        forall|k: int| 0 <= k < ops@.len() ==> (#[trigger] ops@[k]).takes() <= crate::graph::grammar::depth(ops@, k as nat),
    ensures
        r == crate::graph::grammar::deepest(ops@, ops@.len()),
{
    let mut depth: usize = 0;
    let mut max: usize = 0;
    let mut i: usize = 0;
    while i < ops.len()
        invariant
            i <= ops@.len(),
            depth <= i,
            forall|k: int|
                0 <= k < ops@.len() ==> (#[trigger] ops@[k]).takes() <= crate::graph::grammar::depth(ops@, k as nat),
            depth == crate::graph::grammar::depth(ops@, i as nat),
            max == crate::graph::grammar::deepest(ops@, i as nat),
        decreases ops@.len() - i,
    {
        assert(ops@[i as int].takes() <= crate::graph::grammar::depth(ops@, i as nat));
        depth = depth - ops[i].arity() + 1;
        i = i + 1;
        if depth > max {
            max = depth;
        }
    }
    max
}

fn is_fixed(ops: &Vec<Op>) -> (r: bool)
    ensures
        r == fixed(ops@),
{
    let mut i: usize = 0;
    while i < ops.len()
        invariant
            i <= ops@.len(),
            forall|k: int| 0 <= k < i ==> !((#[trigger] ops@[k]) is Var) && !(ops@[k] matches Op::Call(Func::St(..))),
        decreases ops@.len() - i,
    {
        match ops[i] {
            Op::Var(_) | Op::Call(Func::St(..)) => {
                return false;
            },
            _ => {},
        }
        i = i + 1;
    }
    true
}

/// Collapse a program with no variables or state into a single constant.
fn fold_constant<A: Fn(Prim, Single, Single) -> Single>(
    a: &A,
    ops: Vec<Op>,
    Ghost(vars): Ghost<nat>,
    Ghost(slots): Ghost<nat>,
) -> (r: Vec<Op>)
    requires
        total(*a),
        crate::graph::expr::runs(ops@, vars, slots),
    ensures
        crate::graph::expr::runs(r@, vars, slots),
        !fixed(ops@) ==> r@ == ops@,
        fixed(ops@) ==> r@.len() == 1 && r@[0] is Const,
        forall|f: Sums| #[trigger] meant(*a, f) ==> r@ == folded(f, ops@),
{
    if !is_fixed(&ops) {
        return ops;
    }
    let program = Program { ops };
    let vars_read: Vec<Single> = Vec::new();
    let mut no_states: Vec<ExprState> = Vec::new();
    let ghost ops0 = program.ops@;
    assert(crate::graph::expr::runs(ops0, 0, 0)) by {
        assert forall|k: int| 0 <= k < ops0.len() implies #[trigger] crate::graph::expr::steps(ops0, k, 0, 0) by {
            assert(crate::graph::expr::steps(ops0, k, vars, slots));
        }
    }
    let v = program.eval(a, &vars_read, &mut no_states, Single::of(ZERO));
    let mut r: Vec<Op> = Vec::new();
    r.push(Op::Const(v));
    proof {
        assert(vars_read@ =~= seq![]);
        assert forall|f: Sums| #[trigger] meant(*a, f) implies r@ == folded(f, ops0) by {
            assert(r@ =~= folded(f, ops0));
        }
        reveal_with_fuel(crate::graph::grammar::depth, 2);
    }
    r
}

/// Append the states of calls that were never evaluated.
fn append_states(states: &mut Vec<ExprState>, calls: &Vec<StFn>)
    requires
        old(states)@.len() + calls@.len() <= 0xffff || calls@.len() == 0,
    ensures
        final(states)@ == old(states)@ + fresh_states(old(states)@.len(), calls@),
{
    let base = states.len();
    let mut i: usize = 0;
    while i < calls.len()
        invariant
            i <= calls@.len(),
            base == old(states)@.len(),
            base + calls@.len() <= 0xffff || calls@.len() == 0,
            states@ == old(states)@ + fresh_states(base as nat, calls@).take(i as int),
        decreases calls@.len() - i,
    {
        states.push(ExprState::new(calls[i], base + i));
        i = i + 1;
        assert(fresh_states(base as nat, calls@).take(i as int) =~= fresh_states(base as nat, calls@).take(i - 1).push(
            crate::graph::expr::fresh(calls@[i - 1], base + i - 1),
        ));
    }
    assert(fresh_states(base as nat, calls@).take(i as int) =~= fresh_states(base as nat, calls@));
}

/// Compile `src`. The table maps a variable name to its slot in the value table, `number` reads a
/// number as written; stateful calls append their state to `states`, also where the formula turns
/// out to be none.
pub fn compile<N: Fn(&String) -> Single, A: Fn(Prim, Single, Single) -> Single>(
    src: &str,
    table: NameTable<'_>,
    states: &mut Vec<ExprState>,
    number: &N,
    a: &A,
) -> (r: Result<Program, ExprError>)
    requires
        table.scope().fits(),
        reads_all(*number),
        exists|g: Numerals| reads(*number, g),
        total(*a),
    ensures
        match (r, crate::graph::grammar::formula(Env { scope: table.scope(), base: old(states)@.len() }, src@)) {
            (Ok(p), Outcome::Parsed { tree, at: _, calls }) => {
                &&& final(states)@ == old(states)@ + fresh_states(old(states)@.len(), calls)
                &&& crate::graph::expr::runs(p.ops@, table.scope().size(), final(states)@.len())
                &&& forall|g: Numerals, f: Sums| #[trigger]
                    reads(*number, g) && #[trigger] meant(*a, f) ==> p.ops@ == folded(
                        f,
                        crate::graph::grammar::emit(g, table.scope(), tree),
                    )
            },
            (Err(e), Outcome::Failed { fault, calls }) => {
                &&& e@ == fault
                &&& final(states)@ == old(states)@ + fresh_states(old(states)@.len(), calls)
            },
            _ => false,
        },
{
    let (read, code) = read_code(src, table, states.len(), number);
    append_states(states, &code.calls);
    match read {
        Err(e) => Err(e),
        Ok(()) => {
            let ops = fold_constant(a, code.ops, Ghost(table.scope().size()), Ghost(states@.len()));
            Ok(Program { ops })
        },
    }
}

/// Names of the variables an expression reads (for dependency ordering): those in its text that are
/// neither constants nor called, in their order, repeats kept.
pub fn variables(src: &str) -> (r: Result<Vec<String>, ExprError>)
    ensures
        match (r, crate::graph::grammar::formula(Env { scope: Scope::Any, base: 0 }, src@)) {
            (Ok(list), Outcome::Parsed { tree, at: _, calls: _ }) => {
                &&& crate::graph::parse::texts(list@) == crate::graph::grammar::names(tree)
                &&& crate::graph::token::words(src@) matches Ok(toks) && crate::graph::parse::texts(list@)
                    == crate::graph::grammar::mentioned(toks, 0, toks.len() as int)
            },
            (Err(e), Outcome::Failed { fault, calls: _ }) => e@ == fault,
            _ => false,
        },
{
    let nothing = |_text: &String| -> (v: Single)
        ensures
            v == Single::of(ZERO),
        { Single::of(ZERO) };
    proof {
        let g: Numerals = |_text: Seq<char>| Single::of(ZERO);
        assert(reads(nothing, g));
        crate::graph::grammar::lemma_formula_names(Env { scope: Scope::Any, base: 0 }, src@);
    }
    let (read, code) = read_code(src, NameTable::Any, 0, &nothing);
    match read {
        Err(e) => Err(e),
        Ok(()) => Ok(code.seen),
    }
}

} // verus!
