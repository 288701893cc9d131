//! Tiny expression language for control-rate formulas in model files.
//!
//! `"roar_hz * exp2(2 * (rpm - 1))"` is parsed once into a postfix [`Program`] and evaluated
//! once per control block with a fixed-size stack: no allocation, no recursion at run time.
//!
//! Operators: `+ - * / ^ < >` and unary minus. Pure functions: `abs sqrt exp exp2 ln sin cos
//! floor db midi min max pow clamp lerp select smoothstep`. Stateful functions keep their own
//! state per call site: `slew(x, up_s, down_s)`, `lag(x, secs)`, `noise(rate_hz)` (smooth
//! random -1..1), `sh(rate_hz)` (stepped random), `lfo(rate_hz)` (sine), `ramp(rate_hz)` (0..1).
use vstd::prelude::*;

use crate::arith::{meant, total, Prim, Sums};
use crate::blocks::{settle_coef, SlowNoise};
use crate::graph::grammar::{Bin, Func, Op, StFn, F1, F2, F3, MAX_STACK};
use crate::math::{cycle, db_to_gain, lerp, midi_to_hz, swing, Rng};
use crate::single::{Single, HALF, ONE, TAU, THREE, TWO, ZERO};

verus! {

/// Pattern of 1e-30: the smallest number `ln` is taken of.
pub const LN_FLOOR: u32 = 0x0da2_4260;

/// What a stateful call remembers.
#[derive(Clone, Copy, Debug, PartialEq, Eq, Structural)]
pub enum ExprState {
    Follow { y: Single, init: bool },
    Noise(SlowNoise),
    Sh { phase: Single, value: Single, rng: Rng },
    Phase(Single),
}

/// Seed of the state in a slot.
pub open spec fn state_seed(slot: int) -> u32 {
    (0x7a11_0000 + slot * 7919) as u32
}

/// State of a call that was never evaluated.
pub open spec fn fresh(func: StFn, slot: int) -> ExprState {
    match func {
        StFn::Slew | StFn::Lag => ExprState::Follow { y: Single::of(ZERO), init: false },
        StFn::Noise => ExprState::Noise(SlowNoise::seeded_with(state_seed(slot))),
        StFn::Sh => ExprState::Sh {
            phase: Single::of(ONE),
            value: Single::of(ZERO),
            rng: Rng::seeded_with(state_seed(slot)),
        },
        StFn::Lfo | StFn::Ramp => ExprState::Phase(Single::of(ZERO)),
    }
}

impl ExprState {
    pub open spec fn snapped(self) -> ExprState {
        match self {
            ExprState::Follow { y, init: _ } => ExprState::Follow { y, init: false },
            other => other,
        }
    }

    pub fn new(func: StFn, slot: usize) -> (r: ExprState)
        requires
            slot < 0xffff,
        ensures
            r == fresh(func, slot as int),
    {
        let seed: u32 = 0x7a11_0000 + slot as u32 * 7919;
        match func {
            StFn::Slew | StFn::Lag => ExprState::Follow { y: Single::of(ZERO), init: false },
            StFn::Noise => ExprState::Noise(SlowNoise::new(seed)),
            StFn::Sh => ExprState::Sh { phase: Single::of(ONE), value: Single::of(ZERO), rng: Rng::new(seed) },
            StFn::Lfo | StFn::Ramp => ExprState::Phase(Single::of(ZERO)),
        }
    }

    /// Forget smoothing history so the next evaluation jumps to its target.
    pub fn snap(&mut self)
        ensures
            *final(self) == old(self).snapped(),
    {
        let was = *self;
        if let ExprState::Follow { y, init: _ } = was {
            *self = ExprState::Follow { y, init: false };
        }
    }
}

/// One where a comparison holds, zero where it does not.
pub open spec fn truth(holds: bool) -> Single {
    if holds {
        Single::of(ONE)
    } else {
        Single::of(ZERO)
    }
}

pub open spec fn bin_value(f: Sums, op: Bin, a: Single, b: Single) -> Single {
    match op {
        Bin::Add => f(Prim::Add, a, b),
        Bin::Sub => f(Prim::Sub, a, b),
        Bin::Mul => f(Prim::Mul, a, b),
        Bin::Div => f(Prim::Div, a, b),
        Bin::Pow => f(Prim::Pow, a, b),
        Bin::Lt => truth(a.below(b)),
        Bin::Gt => truth(b.below(a)),
    }
}

pub open spec fn one_value(f: Sums, func: F1, a: Single) -> Single {
    match func {
        F1::Abs => a.absolute(),
        F1::Sqrt => f(Prim::Sqrt, a.larger(Single::of(ZERO)), a.larger(Single::of(ZERO))),
        F1::Exp => f(Prim::Exp, a, a),
        F1::Exp2 => f(Prim::Exp2, a, a),
        F1::Ln => f(Prim::Ln, a.larger(Single::of(LN_FLOOR)), a.larger(Single::of(LN_FLOOR))),
        F1::Sin => f(Prim::Sin, a, a),
        F1::Cos => f(Prim::Cos, a, a),
        F1::Floor => f(Prim::Floor, a, a),
        F1::Db => crate::math::gain(f, a),
        F1::Midi => crate::math::note_hz(f, a),
    }
}

pub open spec fn two_value(f: Sums, func: F2, a: Single, b: Single) -> Single {
    match func {
        F2::Min => a.smaller(b),
        F2::Max => a.larger(b),
        F2::Pow => f(Prim::Pow, a, b),
    }
}

/// The smooth step from `a` to `b` at `c`.
pub open spec fn smoothstep(f: Sums, a: Single, b: Single, c: Single) -> Single {
    let t = f(Prim::Div, f(Prim::Sub, c, a), f(Prim::Sub, b, a)).within(Single::of(ZERO), Single::of(ONE));
    f(
        Prim::Mul,
        f(Prim::Mul, t, t),
        f(Prim::Sub, Single::of(THREE), f(Prim::Mul, Single::of(TWO), t)),
    )
}

pub open spec fn three_value(f: Sums, func: F3, a: Single, b: Single, c: Single) -> Single {
    match func {
        F3::Clamp => a.larger(b).smaller(c),
        F3::Lerp => crate::math::between(f, a, b, c),
        F3::Select => if Single::of(HALF).below(a) {
            b
        } else {
            c
        },
        F3::Smoothstep => smoothstep(f, a, b, c),
    }
}

/// State and value of a stateful call after `dt` seconds. A call with fewer than three arguments
/// repeats its last one; a state of another kind of call is left alone and gives zero.
pub open spec fn stepped(f: Sums, func: StFn, state: ExprState, a: Single, b: Single, c: Single, dt: Single) -> (
    ExprState,
    Single,
) {
    let inc = f(Prim::Mul, c.larger(Single::of(ZERO)), dt);
    match (func, state) {
        (StFn::Slew, ExprState::Follow { y, init }) | (StFn::Lag, ExprState::Follow { y, init }) => {
            let secs = if func == StFn::Lag || y.below(a) {
                b
            } else {
                c
            };
            let next = if init {
                f(Prim::Add, y, f(Prim::Mul, f(Prim::Sub, a, y), crate::blocks::settling(f, secs, dt)))
            } else {
                a
            };
            (ExprState::Follow { y: next, init: true }, next)
        },
        (StFn::Noise, ExprState::Noise(n)) => (ExprState::Noise(n.advanced(f, c, dt)), n.advanced(f, c, dt).level(f)),
        (StFn::Sh, ExprState::Sh { phase, value, rng }) => {
            let moved = f(Prim::Add, phase, inc);
            if Single::of(ONE).at_most(moved) {
                let drawn = crate::math::bipolar(rng.fraction());
                (
                    ExprState::Sh {
                        phase: f(Prim::Sub, moved, f(Prim::Floor, moved, moved)),
                        value: drawn,
                        rng: rng.advanced(),
                    },
                    drawn,
                )
            } else {
                (ExprState::Sh { phase: moved, value, rng }, value)
            }
        },
        (StFn::Lfo, ExprState::Phase(p)) => {
            let moved = f(Prim::Add, p, inc);
            let phase = f(Prim::Fract, moved, moved);
            let x = f(Prim::Mul, phase, Single::of(TAU));
            (ExprState::Phase(phase), crate::math::swung(f(Prim::Sin, x, x)))
        },
        (StFn::Ramp, ExprState::Phase(p)) => {
            let moved = f(Prim::Add, p, inc);
            let phase = crate::math::cycled(f(Prim::Fract, moved, moved));
            (ExprState::Phase(phase), phase)
        },
        _ => (state, Single::of(ZERO)),
    }
}

/// Value of one step on its operands, and the states it leaves.
#[verifier::opaque]
pub open spec fn op_value(f: Sums, op: Op, x: Seq<Single>, vars: Seq<Single>, states: Seq<ExprState>, dt: Single) -> (
    Single,
    Seq<ExprState>,
) {
    match op {
        Op::Const(c) => (c, states),
        Op::Var(i) => (vars[i as int], states),
        Op::Neg => (x[0].negated(), states),
        Op::Bin(op) => (bin_value(f, op, x[0], x[1]), states),
        Op::Call(Func::F1(func)) => (one_value(f, func, x[0]), states),
        Op::Call(Func::F2(func)) => (two_value(f, func, x[0], x[1]), states),
        Op::Call(Func::F3(func)) => (three_value(f, func, x[0], x[1], x[2]), states),
        Op::Call(Func::St(func, slot)) => {
            let second = if x.len() > 1 {
                x[1]
            } else {
                x[0]
            };
            let (state, value) = stepped(f, func, states[slot as int], x[0], second, x.last(), dt);
            (value, states.update(slot as int, state))
        },
    }
}

/// A program in the middle of its run.
pub struct Machine {
    pub stack: Seq<Single>,
    pub states: Seq<ExprState>,
}

impl Machine {
    pub open spec fn after(self, f: Sums, op: Op, vars: Seq<Single>, dt: Single) -> Machine {
        let rest = self.stack.len() - op.takes();
        let (value, states) = op_value(f, op, self.stack.subrange(rest, self.stack.len() as int), vars, self.states, dt);
        Machine { stack: self.stack.subrange(0, rest).push(value), states }
    }
}

/// The machine after the first `n` steps.
pub open spec fn ran(f: Sums, ops: Seq<Op>, n: nat, vars: Seq<Single>, states: Seq<ExprState>, dt: Single) -> Machine
    decreases n,
{
    if n == 0 {
        Machine { stack: seq![], states }
    } else {
        ran(f, ops, (n - 1) as nat, vars, states, dt).after(f, ops[n - 1], vars, dt)
    }
}

/// What is no number counts as zero.
pub open spec fn sanitised(v: Single) -> Single {
    if v.finite() {
        v
    } else {
        Single::of(ZERO)
    }
}

/// Result of a program.
pub open spec fn result(f: Sums, ops: Seq<Op>, vars: Seq<Single>, states: Seq<ExprState>, dt: Single) -> Single {
    sanitised(ran(f, ops, ops.len(), vars, states, dt).stack[0])
}

/// A step finds its variable and its state.
pub open spec fn reaches(op: Op, vars: nat, states: nat) -> bool {
    match op {
        Op::Var(i) => i < vars,
        Op::Call(Func::St(_, slot)) => slot < states,
        _ => true,
    }
}

/// Step `k` finds its operands, its variable and its state, and room for its value.
pub open spec fn steps(ops: Seq<Op>, k: int, vars: nat, states: nat) -> bool {
    &&& ops[k].takes() <= crate::graph::grammar::depth(ops, k as nat)
    &&& crate::graph::grammar::depth(ops, (k + 1) as nat) <= MAX_STACK
    &&& reaches(ops[k], vars, states)
}

/// Every step of a program can be taken, and the last leaves a value.
pub open spec fn runs(ops: Seq<Op>, vars: nat, states: nat) -> bool {
    &&& crate::graph::grammar::depth(ops, ops.len()) >= 1
    &&& forall|k: int| 0 <= k < ops.len() ==> #[trigger] steps(ops, k, vars, states)
}

fn bin_single<A: Fn(Prim, Single, Single) -> Single>(a: &A, op: Bin, x: Single, y: Single) -> (r: Single)
    requires
        total(*a),
    ensures
        forall|f: Sums| #[trigger] meant(*a, f) ==> r == bin_value(f, op, x, y),
{
    match op {
        Bin::Add => a(Prim::Add, x, y),
        Bin::Sub => a(Prim::Sub, x, y),
        Bin::Mul => a(Prim::Mul, x, y),
        Bin::Div => a(Prim::Div, x, y),
        Bin::Pow => a(Prim::Pow, x, y),
        Bin::Lt => Single::of(if x.lt(y) { ONE } else { ZERO }),
        Bin::Gt => Single::of(if y.lt(x) { ONE } else { ZERO }),
    }
}

fn one_single<A: Fn(Prim, Single, Single) -> Single>(a: &A, func: F1, x: Single) -> (r: Single)
    requires
        total(*a),
    ensures
        forall|f: Sums| #[trigger] meant(*a, f) ==> r == one_value(f, func, x),
{
    match func {
        F1::Abs => x.abs(),
        F1::Sqrt => a(Prim::Sqrt, x.max(Single::of(ZERO)), x.max(Single::of(ZERO))),
        F1::Exp => a(Prim::Exp, x, x),
        F1::Exp2 => a(Prim::Exp2, x, x),
        F1::Ln => a(Prim::Ln, x.max(Single::of(LN_FLOOR)), x.max(Single::of(LN_FLOOR))),
        F1::Sin => a(Prim::Sin, x, x),
        F1::Cos => a(Prim::Cos, x, x),
        F1::Floor => a(Prim::Floor, x, x),
        F1::Db => db_to_gain(a, x),
        F1::Midi => midi_to_hz(a, x),
    }
}

fn two_single<A: Fn(Prim, Single, Single) -> Single>(a: &A, func: F2, x: Single, y: Single) -> (r: Single)
    requires
        total(*a),
    ensures
        forall|f: Sums| #[trigger] meant(*a, f) ==> r == two_value(f, func, x, y),
{
    match func {
        F2::Min => x.min(y),
        F2::Max => x.max(y),
        F2::Pow => a(Prim::Pow, x, y),
    }
}

fn three_single<A: Fn(Prim, Single, Single) -> Single>(a: &A, func: F3, x: Single, y: Single, z: Single) -> (r: Single)
    requires
        total(*a),
    ensures
        forall|f: Sums| #[trigger] meant(*a, f) ==> r == three_value(f, func, x, y, z),
{
    match func {
        F3::Clamp => x.max(y).min(z),
        F3::Lerp => lerp(a, x, y, z),
        F3::Select => if Single::of(HALF).lt(x) {
            y
        } else {
            z
        },
        F3::Smoothstep => {
            let t = a(Prim::Div, a(Prim::Sub, z, x), a(Prim::Sub, y, x)).clamp(Single::of(ZERO), Single::of(ONE));
            a(Prim::Mul, a(Prim::Mul, t, t), a(Prim::Sub, Single::of(THREE), a(Prim::Mul, Single::of(TWO), t)))
        },
    }
}

/// Advance a stateful call by `dt` seconds.
fn step<A: Fn(Prim, Single, Single) -> Single>(
    a: &A,
    func: StFn,
    state: ExprState,
    x: Single,
    y: Single,
    z: Single,
    dt: Single,
) -> (r: (ExprState, Single))
    requires
        total(*a),
    ensures
        forall|f: Sums| #[trigger] meant(*a, f) ==> r == stepped(f, func, state, x, y, z, dt),
{
    match (func, state) {
        (StFn::Slew, ExprState::Follow { y: level, init }) | (StFn::Lag, ExprState::Follow { y: level, init }) => {
            let next = if init {
                // slew(x, up, down) chooses by direction; lag(x, secs) knows one time only.
                let secs = if func == StFn::Lag || level.lt(x) {
                    y
                } else {
                    z
                };
                let coef = settle_coef(a, secs, dt);
                a(Prim::Add, level, a(Prim::Mul, a(Prim::Sub, x, level), coef))
            } else {
                x
            };
            (ExprState::Follow { y: next, init: true }, next)
        },
        (StFn::Noise, ExprState::Noise(n)) => {
            let mut noise = n;
            let value = noise.advance(a, z, dt);
            (ExprState::Noise(noise), value)
        },
        (StFn::Sh, ExprState::Sh { phase, value, rng }) => {
            let moved = a(Prim::Add, phase, a(Prim::Mul, z.max(Single::of(ZERO)), dt));
            if Single::of(ONE).le(moved) {
                let mut stream = rng;
                let drawn = stream.next_bipolar();
                let phase = a(Prim::Sub, moved, a(Prim::Floor, moved, moved));
                (ExprState::Sh { phase, value: drawn, rng: stream }, drawn)
            } else {
                (ExprState::Sh { phase: moved, value, rng }, value)
            }
        },
        (StFn::Lfo, ExprState::Phase(p)) => {
            let moved = a(Prim::Add, p, a(Prim::Mul, z.max(Single::of(ZERO)), dt));
            let phase = a(Prim::Fract, moved, moved);
            let angle = a(Prim::Mul, phase, Single::of(TAU));
            (ExprState::Phase(phase), swing(a(Prim::Sin, angle, angle)))
        },
        (StFn::Ramp, ExprState::Phase(p)) => {
            let moved = a(Prim::Add, p, a(Prim::Mul, z.max(Single::of(ZERO)), dt));
            let phase = cycle(a(Prim::Fract, moved, moved));
            (ExprState::Phase(phase), phase)
        },
        _ => (state, Single::of(ZERO)),
    }
}

/// The operands of a step that takes `k` of them; the last is always the third.
pub open spec fn operands(k: nat, x: Single, y: Single, z: Single) -> Seq<Single> {
    if k == 0 {
        seq![]
    } else if k == 1 {
        seq![z]
    } else if k == 2 {
        seq![x, z]
    } else {
        seq![x, y, z]
    }
}

/// Take one step on its operands. Missing operands repeat the last one.
fn operate<A: Fn(Prim, Single, Single) -> Single>(
    a: &A,
    op: Op,
    x: Single,
    y: Single,
    z: Single,
    vars: &Vec<Single>,
    states: &mut Vec<ExprState>,
    dt: Single,
) -> (r: Single)
    requires
        total(*a),
        reaches(op, vars@.len(), old(states)@.len()),
        op.takes() == 1 ==> x == z && y == z,
        op.takes() == 2 ==> y == z,
        op.takes() <= 3,
    ensures
        final(states)@.len() == old(states)@.len(),
        forall|f: Sums| #[trigger]
            meant(*a, f) ==> op_value(f, op, operands(op.takes(), x, y, z), vars@, old(states)@, dt) == (
                r,
                final(states)@,
            ),
{
    reveal(op_value);
    match op {
        Op::Const(c) => c,
        Op::Var(v) => vars[v as usize],
        Op::Neg => x.neg(),
        Op::Bin(op) => bin_single(a, op, x, y),
        Op::Call(Func::F1(func)) => one_single(a, func, x),
        Op::Call(Func::F2(func)) => two_single(a, func, x, y),
        Op::Call(Func::F3(func)) => three_single(a, func, x, y, z),
        Op::Call(Func::St(func, slot)) => {
            let (state, value) = step(a, func, states[slot as usize], x, y, z, dt);
            states.set(slot as usize, state);
            value
        },
    }
}

/// A formula in executable form.
#[derive(Debug)]
pub struct Program {
    pub ops: Vec<Op>,
}

impl Program {
    /// A constant program's value, if it is one.
    pub fn as_const(&self) -> (r: Option<Single>)
        ensures
            match r {
                Some(c) => self.ops@ == seq![Op::Const(c)],
                None => forall|c: Single| self.ops@ != #[trigger] seq![Op::Const(c)],
            },
    {
        if self.ops.len() == 1 {
            if let Op::Const(c) = self.ops[0] {
                assert(self.ops@ =~= seq![Op::Const(c)]);
                return Some(c);
            }
        }
        proof {
            assert forall|c: Single| self.ops@ != #[trigger] seq![Op::Const(c)] by {
                assert(seq![Op::Const(c)][0] == Op::Const(c));
            }
        }
        None
    }

    /// Run the program on a table of variables, its states moving on by `dt` seconds.
    pub fn eval<A: Fn(Prim, Single, Single) -> Single>(
        &self,
        a: &A,
        vars: &Vec<Single>,
        states: &mut Vec<ExprState>,
        dt: Single,
    ) -> (r: Single)
        requires
            total(*a),
            runs(self.ops@, vars@.len(), old(states)@.len()),
        ensures
            final(states)@.len() == old(states)@.len(),
            r.finite(),
            forall|f: Sums| #[trigger]
                meant(*a, f) ==> {
                    &&& r == result(f, self.ops@, vars@, old(states)@, dt)
                    &&& final(states)@ == ran(f, self.ops@, self.ops@.len(), vars@, old(states)@, dt).states
                },
    {
        let mut st: [Single; MAX_STACK] = [Single::of(ZERO); 24];
        let mut n: usize = 0;
        let mut i: usize = 0;
        let ghost mut held: Seq<Single> = seq![];
        while i < self.ops.len()
            invariant
                total(*a),
                i <= self.ops@.len(),
                runs(self.ops@, vars@.len(), old(states)@.len()),
                states@.len() == old(states)@.len(),
                n == crate::graph::grammar::depth(self.ops@, i as nat),
                n <= MAX_STACK,
                st@.len() == MAX_STACK,
                held == st@.subrange(0, n as int),
                forall|f: Sums| #[trigger]
                    meant(*a, f) ==> ran(f, self.ops@, i as nat, vars@, old(states)@, dt) == (Machine {
                        stack: held,
                        states: states@,
                    }),
            decreases self.ops@.len() - i,
        {
            let op = self.ops[i];
            assert(steps(self.ops@, i as int, vars@.len(), old(states)@.len()));
            let k = op.arity();
            let base = n - k;
            let ghost x = held.subrange(base as int, n as int);
            let x0 = if k > 0 { st[base] } else { Single::of(ZERO) };
            let x1 = if k > 1 { st[base + 1] } else { x0 };
            let x2 = if k > 0 { st[n - 1] } else { x0 };
            assert(x =~= operands(k as nat, x0, x1, x2));
            let value = operate(a, op, x0, x1, x2, vars, states, dt);
            assert(held.subrange(0, base as int) =~= st@.subrange(0, base as int));
            st[base] = value;
            n = base + 1;
            proof {
                held = held.subrange(0, base as int).push(value);
                assert(held =~= st@.subrange(0, n as int));
            }
            i = i + 1;
        }
        assert(held[0] == st@[0]);
        let v = st[0];
        if v.is_finite() {
            v
        } else {
            Single::of(ZERO)
        }
    }
}

/// After a snap, and at their first evaluation, `slew` and `lag` jump to their target.
pub proof fn lemma_followers_jump(f: Sums, func: StFn, state: ExprState, slot: int, a: Single, b: Single, c: Single, dt: Single)
    requires
        func == StFn::Slew || func == StFn::Lag,
        state is Follow,
    ensures
        stepped(f, func, state.snapped(), a, b, c, dt) == (ExprState::Follow { y: a, init: true }, a),
        stepped(f, func, fresh(func, slot), a, b, c, dt) == (ExprState::Follow { y: a, init: true }, a),
{
}

/// `noise` and `lfo` stay in [-1, 1], `ramp` in [0, 1).
pub proof fn lemma_modulators_in_range(f: Sums, func: StFn, state: ExprState, a: Single, b: Single, c: Single, dt: Single)
    ensures
        func == StFn::Noise || func == StFn::Lfo ==> crate::math::in_swing(stepped(f, func, state, a, b, c, dt).1),
        func == StFn::Ramp ==> crate::math::in_cycle(stepped(f, func, state, a, b, c, dt).1),
{
}

/// A follower after a number of evaluations with the same target and times.
pub open spec fn followed(f: Sums, func: StFn, state: ExprState, a: Single, b: Single, c: Single, dt: Single, k: nat) -> ExprState
    decreases k,
{
    if k == 0 {
        state
    } else {
        followed(f, func, stepped(f, func, state, a, b, c, dt).0, a, b, c, dt, (k - 1) as nat)
    }
}

/// A level a step of `dt` seconds nearer to its target.
pub open spec fn eased(f: Sums, y: Single, target: Single, secs: Single, dt: Single) -> Single {
    f(Prim::Add, y, f(Prim::Mul, f(Prim::Sub, target, y), crate::blocks::settling(f, secs, dt)))
}

/// Arithmetic in which no step carries a level past its target, as rounded arithmetic does not where
/// a step is short against the time it settles in.
pub open spec fn eases_smoothly(f: Sums, target: Single, secs: Single, dt: Single) -> bool {
    forall|y: Single| y.finite() ==> crate::math::on_the_way(y, target, #[trigger] eased(f, y, target, secs, dt))
}

/// While their target stays put, `slew` and `lag` stay on the way there and never pass it.
pub proof fn lemma_followers_stay_on_their_way(f: Sums, func: StFn, y: Single, a: Single, b: Single, c: Single, dt: Single, k: nat)
    requires
        func == StFn::Slew || func == StFn::Lag,
        y.finite(),
        a.finite(),
        eases_smoothly(f, a, b, dt),
        eases_smoothly(f, a, c, dt),
    ensures
        followed(f, func, ExprState::Follow { y, init: true }, a, b, c, dt, k) matches ExprState::Follow { y: z, init: true }
            && crate::math::on_the_way(y, a, z),
    decreases k,
{
    if k > 0 {
        let secs = if func == StFn::Lag || y.below(a) {
            b
        } else {
            c
        };
        let z = eased(f, y, a, secs, dt);
        assert(crate::math::on_the_way(y, a, z));
        assert(stepped(f, func, ExprState::Follow { y, init: true }, a, b, c, dt).0 == (ExprState::Follow { y: z, init: true }));
        lemma_followers_stay_on_their_way(f, func, z, a, b, c, dt, (k - 1) as nat);
    }
}

} // verus!
