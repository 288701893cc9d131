//! Grammar of the formula language: the tree a formula stands for, and the code it becomes.
//!
//! ```text
//! compare := sum [('<' | '>') sum]
//! sum     := product (('+' | '-') product)*
//! product := unary (('*' | '/') unary)*
//! unary   := '-' unary | atom ['^' unary]
//! atom    := number | name | name '(' [compare (',' compare)*] ')' | '(' compare ')'
//! ```
use vstd::prelude::*;

use crate::arith::Numerals;
use crate::graph::token::{LexFault, Lexeme};
use crate::single::{Single, PI, TAU};

verus! {

/// Functions of one number.
#[derive(Clone, Copy, Debug, PartialEq, Eq, Structural)]
pub enum F1 {
    Abs,
    Sqrt,
    Exp,
    Exp2,
    Ln,
    Sin,
    Cos,
    Floor,
    Db,
    Midi,
}

/// Functions of two numbers.
#[derive(Clone, Copy, Debug, PartialEq, Eq, Structural)]
pub enum F2 {
    Min,
    Max,
    Pow,
}

/// Functions of three numbers.
#[derive(Clone, Copy, Debug, PartialEq, Eq, Structural)]
pub enum F3 {
    Clamp,
    Lerp,
    Select,
    Smoothstep,
}

/// Functions that keep a state per call.
#[derive(Clone, Copy, Debug, PartialEq, Eq, Structural)]
pub enum StFn {
    Slew,
    Lag,
    Noise,
    Sh,
    Lfo,
    Ramp,
}

/// Operators with two operands.
#[derive(Clone, Copy, Debug, PartialEq, Eq, Structural)]
pub enum Bin {
    Add,
    Sub,
    Mul,
    Div,
    Pow,
    Lt,
    Gt,
}

/// A function, with the number of its state where it keeps one.
#[derive(Clone, Copy, Debug, PartialEq, Eq, Structural)]
pub enum Func {
    F1(F1),
    F2(F2),
    F3(F3),
    St(StFn, u16),
}

/// One step of a program: push a number, or replace the topmost numbers of the stack by one.
#[derive(Clone, Copy, Debug, PartialEq, Eq, Structural)]
pub enum Op {
    Const(Single),
    Var(u16),
    Neg,
    Bin(Bin),
    Call(Func),
}

impl StFn {
    pub open spec fn takes(self) -> nat {
        match self {
            StFn::Slew => 3,
            StFn::Lag => 2,
            _ => 1,
        }
    }

    pub fn arity(self) -> (r: usize)
        ensures
            r == self.takes(),
    {
        match self {
            StFn::Slew => 3,
            StFn::Lag => 2,
            _ => 1,
        }
    }
}

impl Func {
    pub open spec fn takes(self) -> nat {
        match self {
            Func::F1(_) => 1,
            Func::F2(_) => 2,
            Func::F3(_) => 3,
            Func::St(f, _) => f.takes(),
        }
    }

    pub fn arity(self) -> (r: usize)
        ensures
            r == self.takes(),
            1 <= r <= 3,
    {
        match self {
            Func::F1(_) => 1,
            Func::F2(_) => 2,
            Func::F3(_) => 3,
            Func::St(f, _) => f.arity(),
        }
    }
}

impl Op {
    /// Numbers the step takes off the stack.
    pub open spec fn takes(self) -> nat {
        match self {
            Op::Const(_) | Op::Var(_) => 0,
            Op::Neg => 1,
            Op::Bin(_) => 2,
            Op::Call(func) => func.takes(),
        }
    }

    pub fn arity(self) -> (r: usize)
        ensures
            r == self.takes(),
            r <= 3,
    {
        match self {
            Op::Const(_) | Op::Var(_) => 0,
            Op::Neg => 1,
            Op::Bin(_) => 2,
            Op::Call(func) => func.arity(),
        }
    }
}

/// What a formula says.
pub enum Tree {
    /// A number, as written.
    Num(Seq<char>),
    Pi,
    Tau,
    Var(Seq<char>),
    Neg(Box<Tree>),
    Bin(Bin, Box<Tree>, Box<Tree>),
    Call(Func, Seq<Tree>),
}

/// Why a text is no formula.
pub enum Fault {
    Lex(LexFault),
    Empty,
    End,
    Unexpected(Lexeme),
    MissingParen,
    UnknownName(Seq<char>),
    UnknownFunction(Seq<char>),
    Arity { name: Seq<char>, takes: nat, got: nat },
    TooManyStates,
    TooDeep(nat),
}

/// The names a formula may use: all, each standing for slot 0, or those of a list, each standing
/// for its position.
pub enum Scope {
    Any,
    Names(Seq<Seq<char>>),
}

impl Scope {
    pub open spec fn slot(self, name: Seq<char>) -> Option<int> {
        match self {
            Scope::Any => Some(0),
            Scope::Names(names) => first_of(names, name),
        }
    }

    /// Number of slots names may stand for.
    pub open spec fn size(self) -> nat {
        match self {
            Scope::Any => 1,
            Scope::Names(names) => names.len(),
        }
    }

    /// A name in scope has a slot.
    pub proof fn lemma_slot(self, name: Seq<char>)
        requires
            self.slot(name) is Some,
            self.fits(),
        ensures
            0 <= self.slot(name).unwrap() < self.size(),
            self.slot(name).unwrap() as u16 == self.slot(name).unwrap(),
            self matches Scope::Names(names) ==> names[self.slot(name).unwrap()] == name,
    {
        if let Scope::Names(names) = self {
            lemma_has_first(names, name, names.len() as int);
        }
    }

    /// No list has more names than there are slots.
    pub open spec fn fits(self) -> bool {
        self matches Scope::Names(names) ==> names.len() <= 0x1_0000
    }
}

/// First position of an item.
pub open spec fn first_of(names: Seq<Seq<char>>, name: Seq<char>) -> Option<int> {
    if names.contains(name) {
        Some(choose|i: int| 0 <= i < names.len() && names[i] == name && forall|k: int| 0 <= k < i ==> names[k] != name)
    } else {
        None
    }
}

proof fn lemma_has_first(names: Seq<Seq<char>>, name: Seq<char>, n: int)
    requires
        0 <= n <= names.len(),
        exists|i: int| 0 <= i < n && names[i] == name,
    ensures
        exists|i: int| 0 <= i < names.len() && names[i] == name && forall|k: int| 0 <= k < i ==> names[k] != name,
    decreases n,
{
    let i = choose|i: int| 0 <= i < n && names[i] == name;
    if exists|k: int| 0 <= k < i && names[k] == name {
        lemma_has_first(names, name, i);
    } else {
        assert(names[i] == name && forall|k: int| 0 <= k < i ==> names[k] != name);
    }
}

/// Where there is a first position, the item is there.
pub proof fn lemma_first_found(names: Seq<Seq<char>>, name: Seq<char>)
    ensures
        match first_of(names, name) {
            Some(i) => 0 <= i < names.len() && names[i] == name,
            None => !names.contains(name),
        },
{
    if names.contains(name) {
        lemma_has_first(names, name, names.len() as int);
    }
}

/// The first position is the one with no equal item before it.
pub proof fn lemma_first_of(names: Seq<Seq<char>>, name: Seq<char>, i: int)
    requires
        0 <= i < names.len(),
        names[i] == name,
        forall|k: int| 0 <= k < i ==> names[k] != name,
    ensures
        first_of(names, name) == Some(i),
{
    let j = choose|j: int| 0 <= j < names.len() && names[j] == name && forall|k: int| 0 <= k < j ==> names[k] != name;
    assert(names[j] == name && !(i < j) && !(j < i));
}

/// What a formula is read in: the names, and the number of states that exist already.
pub struct Env {
    pub scope: Scope,
    pub base: nat,
}

/// What is read at one place: a tree, the place after it and the stateful calls so far, or a fault.
pub enum Outcome {
    Parsed { tree: Tree, at: int, calls: Seq<StFn> },
    Failed { fault: Fault, calls: Seq<StFn> },
}

/// What a list of arguments is read as.
pub enum Arguments {
    Listed { list: Seq<Tree>, at: int, calls: Seq<StFn> },
    Failed { fault: Fault, calls: Seq<StFn> },
}

/// The function with a name; one that keeps a state gets the state `slot`.
pub open spec fn builtin(name: Seq<char>, slot: int) -> Option<Func> {
    if name == "abs"@ {
        Some(Func::F1(F1::Abs))
    } else if name == "sqrt"@ {
        Some(Func::F1(F1::Sqrt))
    } else if name == "exp"@ {
        Some(Func::F1(F1::Exp))
    } else if name == "exp2"@ {
        Some(Func::F1(F1::Exp2))
    } else if name == "ln"@ {
        Some(Func::F1(F1::Ln))
    } else if name == "sin"@ {
        Some(Func::F1(F1::Sin))
    } else if name == "cos"@ {
        Some(Func::F1(F1::Cos))
    } else if name == "floor"@ {
        Some(Func::F1(F1::Floor))
    } else if name == "db"@ {
        Some(Func::F1(F1::Db))
    } else if name == "midi"@ {
        Some(Func::F1(F1::Midi))
    } else if name == "min"@ {
        Some(Func::F2(F2::Min))
    } else if name == "max"@ {
        Some(Func::F2(F2::Max))
    } else if name == "pow"@ {
        Some(Func::F2(F2::Pow))
    } else if name == "clamp"@ {
        Some(Func::F3(F3::Clamp))
    } else if name == "lerp"@ {
        Some(Func::F3(F3::Lerp))
    } else if name == "select"@ {
        Some(Func::F3(F3::Select))
    } else if name == "smoothstep"@ {
        Some(Func::F3(F3::Smoothstep))
    } else if name == "slew"@ {
        Some(Func::St(StFn::Slew, slot as u16))
    } else if name == "lag"@ {
        Some(Func::St(StFn::Lag, slot as u16))
    } else if name == "noise"@ {
        Some(Func::St(StFn::Noise, slot as u16))
    } else if name == "sh"@ {
        Some(Func::St(StFn::Sh, slot as u16))
    } else if name == "lfo"@ {
        Some(Func::St(StFn::Lfo, slot as u16))
    } else if name == "ramp"@ {
        Some(Func::St(StFn::Ramp, slot as u16))
    } else {
        None
    }
}

pub open spec fn op_at(toks: Seq<Lexeme>, at: int) -> Option<char> {
    if 0 <= at < toks.len() && toks[at] is Op {
        Some(toks[at]->Op_0)
    } else {
        None
    }
}

pub open spec fn word_at(toks: Seq<Lexeme>, at: int, word: Lexeme) -> bool {
    0 <= at < toks.len() && toks[at] == word
}

pub open spec fn comparing(c: char) -> Option<Bin> {
    if c == '<' {
        Some(Bin::Lt)
    } else if c == '>' {
        Some(Bin::Gt)
    } else {
        None
    }
}

pub open spec fn adding(c: char) -> Option<Bin> {
    if c == '+' {
        Some(Bin::Add)
    } else if c == '-' {
        Some(Bin::Sub)
    } else {
        None
    }
}

pub open spec fn multiplying(c: char) -> Option<Bin> {
    if c == '*' {
        Some(Bin::Mul)
    } else if c == '/' {
        Some(Bin::Div)
    } else {
        None
    }
}

/// The operator of a family at one place.
pub open spec fn bin_at(toks: Seq<Lexeme>, at: int, family: spec_fn(char) -> Option<Bin>) -> Option<Bin> {
    match op_at(toks, at) {
        Some(c) => family(c),
        None => None,
    }
}

pub open spec fn compare(env: Env, toks: Seq<Lexeme>, at: int, calls: Seq<StFn>) -> Outcome
    decreases toks.len() - at, 5int,
{
    match sum(env, toks, at, calls) {
        Outcome::Parsed { tree: a, at: p, calls: c } if at < p <= toks.len() => match bin_at(
            toks,
            p,
            |c: char| comparing(c),
        ) {
            Some(op) => match sum(env, toks, p + 1, c) {
                Outcome::Parsed { tree: b, at: q, calls: d } => Outcome::Parsed {
                    tree: Tree::Bin(op, Box::new(a), Box::new(b)),
                    at: q,
                    calls: d,
                },
                failed => failed,
            },
            None => Outcome::Parsed { tree: a, at: p, calls: c },
        },
        failed => failed,
    }
}

pub open spec fn sum(env: Env, toks: Seq<Lexeme>, at: int, calls: Seq<StFn>) -> Outcome
    decreases toks.len() - at, 4int,
{
    match product(env, toks, at, calls) {
        Outcome::Parsed { tree, at: p, calls: c } if at < p <= toks.len() => more_terms(env, toks, tree, p, c),
        failed => failed,
    }
}

/// A sum so far, and what is added to it.
pub open spec fn more_terms(env: Env, toks: Seq<Lexeme>, left: Tree, at: int, calls: Seq<StFn>) -> Outcome
    decreases toks.len() - at, 0int,
{
    match bin_at(toks, at, |c: char| adding(c)) {
        Some(op) => match product(env, toks, at + 1, calls) {
            Outcome::Parsed { tree, at: p, calls: c } if at < p <= toks.len() => more_terms(
                env,
                toks,
                Tree::Bin(op, Box::new(left), Box::new(tree)),
                p,
                c,
            ),
            failed => failed,
        },
        None => Outcome::Parsed { tree: left, at, calls },
    }
}

pub open spec fn product(env: Env, toks: Seq<Lexeme>, at: int, calls: Seq<StFn>) -> Outcome
    decreases toks.len() - at, 3int,
{
    match unary(env, toks, at, calls) {
        Outcome::Parsed { tree, at: p, calls: c } if at < p <= toks.len() => more_factors(env, toks, tree, p, c),
        failed => failed,
    }
}

/// A product so far, and its further factors.
pub open spec fn more_factors(env: Env, toks: Seq<Lexeme>, left: Tree, at: int, calls: Seq<StFn>) -> Outcome
    decreases toks.len() - at, 0int,
{
    match bin_at(toks, at, |c: char| multiplying(c)) {
        Some(op) => match unary(env, toks, at + 1, calls) {
            Outcome::Parsed { tree, at: p, calls: c } if at < p <= toks.len() => more_factors(
                env,
                toks,
                Tree::Bin(op, Box::new(left), Box::new(tree)),
                p,
                c,
            ),
            failed => failed,
        },
        None => Outcome::Parsed { tree: left, at, calls },
    }
}

pub open spec fn unary(env: Env, toks: Seq<Lexeme>, at: int, calls: Seq<StFn>) -> Outcome
    decreases toks.len() - at, 2int,
{
    if op_at(toks, at) == Some('-') {
        match unary(env, toks, at + 1, calls) {
            Outcome::Parsed { tree, at: p, calls: c } => Outcome::Parsed {
                tree: Tree::Neg(Box::new(tree)),
                at: p,
                calls: c,
            },
            failed => failed,
        }
    } else {
        match atom(env, toks, at, calls) {
            Outcome::Parsed { tree: a, at: p, calls: c } if at < p <= toks.len() && op_at(toks, p) == Some('^') => {
                match unary(env, toks, p + 1, c) {
                    Outcome::Parsed { tree: b, at: q, calls: d } => Outcome::Parsed {
                        tree: Tree::Bin(Bin::Pow, Box::new(a), Box::new(b)),
                        at: q,
                        calls: d,
                    },
                    failed => failed,
                }
            },
            done => done,
        }
    }
}

pub open spec fn atom(env: Env, toks: Seq<Lexeme>, at: int, calls: Seq<StFn>) -> Outcome
    decreases toks.len() - at, 1int,
{
    if !(0 <= at < toks.len()) {
        Outcome::Failed { fault: Fault::End, calls }
    } else {
        match toks[at] {
            Lexeme::Num(text) => Outcome::Parsed { tree: Tree::Num(text), at: at + 1, calls },
            Lexeme::LParen => match compare(env, toks, at + 1, calls) {
                Outcome::Parsed { tree, at: p, calls: c } => if word_at(toks, p, Lexeme::RParen) {
                    Outcome::Parsed { tree, at: p + 1, calls: c }
                } else {
                    Outcome::Failed { fault: Fault::MissingParen, calls: c }
                },
                failed => failed,
            },
            Lexeme::Ident(name) => if word_at(toks, at + 1, Lexeme::LParen) {
                call(env, toks, name, at + 2, calls)
            } else if named(name) is Var && env.scope.slot(name) is None {
                Outcome::Failed { fault: Fault::UnknownName(name), calls }
            } else {
                Outcome::Parsed { tree: named(name), at: at + 1, calls }
            },
            other => Outcome::Failed { fault: Fault::Unexpected(other), calls },
        }
    }
}

/// A name by itself: one of two constants or a variable.
pub open spec fn named(name: Seq<char>) -> Tree {
    if name == "pi"@ {
        Tree::Pi
    } else if name == "tau"@ {
        Tree::Tau
    } else {
        Tree::Var(name)
    }
}

/// A call from its first argument on.
pub open spec fn call(env: Env, toks: Seq<Lexeme>, name: Seq<char>, at: int, calls: Seq<StFn>) -> Outcome
    decreases toks.len() - at, 7int,
{
    let read = if word_at(toks, at, Lexeme::RParen) {
        Arguments::Listed { list: seq![], at, calls }
    } else {
        arguments(env, toks, seq![], at, calls)
    };
    match read {
        Arguments::Listed { list, at: p, calls: c } => if word_at(toks, p, Lexeme::RParen) {
            closed_call(env, name, list, p + 1, c)
        } else {
            Outcome::Failed { fault: Fault::MissingParen, calls: c }
        },
        Arguments::Failed { fault, calls: c } => Outcome::Failed { fault, calls: c },
    }
}

/// Arguments so far, and those that follow.
pub open spec fn arguments(env: Env, toks: Seq<Lexeme>, list: Seq<Tree>, at: int, calls: Seq<StFn>) -> Arguments
    decreases toks.len() - at, 6int,
{
    match compare(env, toks, at, calls) {
        Outcome::Parsed { tree, at: p, calls: c } => if at <= p && word_at(toks, p, Lexeme::Comma) {
            arguments(env, toks, list.push(tree), p + 1, c)
        } else {
            Arguments::Listed { list: list.push(tree), at: p, calls: c }
        },
        Outcome::Failed { fault, calls: c } => Arguments::Failed { fault, calls: c },
    }
}

/// A call with all its arguments. A stateful function gets the next state before its arguments
/// are counted.
pub open spec fn closed_call(env: Env, name: Seq<char>, list: Seq<Tree>, at: int, calls: Seq<StFn>) -> Outcome {
    let slot: int = (env.base + calls.len()) as int;
    match builtin(name, slot) {
        None => Outcome::Failed { fault: Fault::UnknownFunction(name), calls },
        Some(func) => {
            let made = match func {
                Func::St(f, _) => calls.push(f),
                _ => calls,
            };
            if func is St && slot >= 0xffff {
                Outcome::Failed { fault: Fault::TooManyStates, calls }
            } else if list.len() != func.takes() {
                Outcome::Failed { fault: Fault::Arity { name, takes: func.takes(), got: list.len() }, calls: made }
            } else {
                Outcome::Parsed { tree: Tree::Call(func, list), at, calls: made }
            }
        },
    }
}

/// The variables of a tree, as often as it reads them, from left to right.
pub open spec fn names(tree: Tree) -> Seq<Seq<char>>
    decreases tree,
{
    match tree {
        Tree::Num(_) | Tree::Pi | Tree::Tau => seq![],
        Tree::Var(name) => seq![name],
        Tree::Neg(a) => names(*a),
        Tree::Bin(_, a, b) => names(*a) + names(*b),
        Tree::Call(_, list) => names_all(list),
    }
}

pub open spec fn names_all(list: Seq<Tree>) -> Seq<Seq<char>>
    decreases list,
{
    if list.len() == 0 {
        seq![]
    } else {
        names_all(list.drop_last()) + names(list.last())
    }
}

/// Postfix code of a tree: operands first, then what joins them.
pub open spec fn emit(g: Numerals, scope: Scope, tree: Tree) -> Seq<Op>
    decreases tree,
{
    match tree {
        Tree::Num(text) => seq![Op::Const(g(text))],
        Tree::Pi => seq![Op::Const(Single::of(PI))],
        Tree::Tau => seq![Op::Const(Single::of(TAU))],
        Tree::Var(name) => match scope.slot(name) {
            Some(i) => seq![Op::Var(i as u16)],
            None => seq![],
        },
        Tree::Neg(a) => emit(g, scope, *a).push(Op::Neg),
        Tree::Bin(op, a, b) => (emit(g, scope, *a) + emit(g, scope, *b)).push(Op::Bin(op)),
        Tree::Call(func, list) => emit_all(g, scope, list).push(Op::Call(func)),
    }
}

pub open spec fn emit_all(g: Numerals, scope: Scope, list: Seq<Tree>) -> Seq<Op>
    decreases list,
{
    if list.len() == 0 {
        seq![]
    } else {
        emit_all(g, scope, list.drop_last()) + emit(g, scope, list.last())
    }
}

/// Stack slots in use after the first `n` steps.
pub open spec fn depth(ops: Seq<Op>, n: nat) -> int
    decreases n,
{
    if n == 0 {
        0
    } else {
        depth(ops, (n - 1) as nat) + 1 - ops[n - 1].takes()
    }
}

/// Most stack slots in use after any of the first `n` steps.
pub open spec fn deepest(ops: Seq<Op>, n: nat) -> int
    decreases n,
{
    if n == 0 {
        0
    } else {
        let before = deepest(ops, (n - 1) as nat);
        if depth(ops, n) > before {
            depth(ops, n)
        } else {
            before
        }
    }
}

/// Stack slots a tree needs: its operands are held while those after them are worked out.
pub open spec fn needs(tree: Tree) -> int
    decreases tree,
{
    match tree {
        Tree::Num(_) | Tree::Pi | Tree::Tau | Tree::Var(_) => 1,
        Tree::Neg(a) => needs(*a),
        Tree::Bin(_, a, b) => if needs(*a) > 1 + needs(*b) {
            needs(*a)
        } else {
            1 + needs(*b)
        },
        Tree::Call(_, list) => needs_all(list),
    }
}

pub open spec fn needs_all(list: Seq<Tree>) -> int
    decreases list,
{
    if list.len() == 0 {
        0
    } else {
        let before = needs_all(list.drop_last());
        let last = list.len() - 1 + needs(list.last());
        if before > last {
            before
        } else {
            last
        }
    }
}

/// Variables are in scope, calls have as many arguments as their functions take, and their states
/// are among the first `slots`.
pub open spec fn regular(scope: Scope, slots: nat, tree: Tree) -> bool
    decreases tree,
{
    match tree {
        Tree::Num(_) | Tree::Pi | Tree::Tau => true,
        Tree::Var(name) => scope.slot(name) is Some,
        Tree::Neg(a) => regular(scope, slots, *a),
        Tree::Bin(_, a, b) => regular(scope, slots, *a) && regular(scope, slots, *b),
        Tree::Call(func, list) => {
            &&& list.len() == func.takes()
            &&& func matches Func::St(_, slot) ==> slot < slots
            &&& regular_all(scope, slots, list)
        },
    }
}

pub open spec fn regular_all(scope: Scope, slots: nat, list: Seq<Tree>) -> bool
    decreases list,
{
    list.len() > 0 ==> regular_all(scope, slots, list.drop_last()) && regular(scope, slots, list.last())
}

/// Most stack slots a formula may need.
pub const MAX_STACK: usize = 24;

/// The tree of a text, or what is wrong with it.
pub open spec fn formula(env: Env, src: Seq<char>) -> Outcome {
    match crate::graph::token::words(src) {
        Err(fault) => Outcome::Failed { fault: Fault::Lex(fault), calls: seq![] },
        Ok(toks) => if toks.len() == 0 {
            Outcome::Failed { fault: Fault::Empty, calls: seq![] }
        } else {
            match compare(env, toks, 0, seq![]) {
                Outcome::Parsed { tree, at, calls } => if at < toks.len() {
                    Outcome::Failed { fault: Fault::Unexpected(toks[at]), calls }
                } else if needs(tree) > MAX_STACK {
                    Outcome::Failed { fault: Fault::TooDeep(needs(tree) as nat), calls }
                } else {
                    Outcome::Parsed { tree, at, calls }
                },
                failed => failed,
            }
        },
    }
}

/// More states do not make a tree irregular.
pub proof fn lemma_regular_more(scope: Scope, slots: nat, more: nat, tree: Tree)
    requires
        regular(scope, slots, tree),
        slots <= more,
    ensures
        regular(scope, more, tree),
    decreases tree,
{
    match tree {
        Tree::Neg(a) => lemma_regular_more(scope, slots, more, *a),
        Tree::Bin(_, a, b) => {
            lemma_regular_more(scope, slots, more, *a);
            lemma_regular_more(scope, slots, more, *b);
        },
        Tree::Call(_, list) => lemma_regular_all_more(scope, slots, more, list),
        _ => {},
    }
}

proof fn lemma_regular_all_more(scope: Scope, slots: nat, more: nat, list: Seq<Tree>)
    requires
        regular_all(scope, slots, list),
        slots <= more,
    ensures
        regular_all(scope, more, list),
    decreases list,
{
    if list.len() > 0 {
        lemma_regular_all_more(scope, slots, more, list.drop_last());
        lemma_regular_more(scope, slots, more, list.last());
    }
}

/// What is read lies ahead, leaves the earlier calls alone and is regular.
pub open spec fn advanced(env: Env, toks: Seq<Lexeme>, at: int, calls: Seq<StFn>, read: Outcome) -> bool {
    match read {
        Outcome::Parsed { tree, at: p, calls: c } => {
            &&& at < p <= toks.len()
            &&& calls.is_prefix_of(c)
            &&& env.base + c.len() <= 0xffff || c == calls
            &&& regular(env.scope, env.base + c.len(), tree)
        },
        Outcome::Failed { fault: _, calls: c } => calls.is_prefix_of(c) && (env.base + c.len() <= 0xffff || c == calls),
    }
}

pub proof fn lemma_compare(env: Env, toks: Seq<Lexeme>, at: int, calls: Seq<StFn>)
    requires
        0 <= at <= toks.len(),
    ensures
        advanced(env, toks, at, calls, compare(env, toks, at, calls)),
    decreases toks.len() - at, 5int,
{
    lemma_sum(env, toks, at, calls);
    match sum(env, toks, at, calls) {
        Outcome::Parsed { tree: a, at: p, calls: c } => {
            if bin_at(toks, p, |c: char| comparing(c)) is Some {
                lemma_sum(env, toks, p + 1, c);
                if let Outcome::Parsed { tree: b, at: q, calls: d } = sum(env, toks, p + 1, c) {
                    lemma_regular_more(env.scope, env.base + c.len(), env.base + d.len(), a);
                }
            }
        },
        _ => {},
    }
}

proof fn lemma_sum(env: Env, toks: Seq<Lexeme>, at: int, calls: Seq<StFn>)
    requires
        0 <= at <= toks.len(),
    ensures
        advanced(env, toks, at, calls, sum(env, toks, at, calls)),
    decreases toks.len() - at, 4int,
{
    lemma_product(env, toks, at, calls);
    if let Outcome::Parsed { tree, at: p, calls: c } = product(env, toks, at, calls) {
        lemma_more_terms(env, toks, tree, p, c);
    }
}

proof fn lemma_more_terms(env: Env, toks: Seq<Lexeme>, left: Tree, at: int, calls: Seq<StFn>)
    requires
        0 < at <= toks.len(),
        regular(env.scope, env.base + calls.len(), left),
    ensures
        advanced(env, toks, at - 1, calls, more_terms(env, toks, left, at, calls)),
    decreases toks.len() - at, 0int,
{
    if let Some(op) = bin_at(toks, at, |c: char| adding(c)) {
        lemma_product(env, toks, at + 1, calls);
        if let Outcome::Parsed { tree, at: p, calls: c } = product(env, toks, at + 1, calls) {
            lemma_regular_more(env.scope, env.base + calls.len(), env.base + c.len(), left);
            lemma_more_terms(env, toks, Tree::Bin(op, Box::new(left), Box::new(tree)), p, c);
        }
    }
}

proof fn lemma_product(env: Env, toks: Seq<Lexeme>, at: int, calls: Seq<StFn>)
    requires
        0 <= at <= toks.len(),
    ensures
        advanced(env, toks, at, calls, product(env, toks, at, calls)),
    decreases toks.len() - at, 3int,
{
    lemma_unary(env, toks, at, calls);
    if let Outcome::Parsed { tree, at: p, calls: c } = unary(env, toks, at, calls) {
        lemma_more_factors(env, toks, tree, p, c);
    }
}

proof fn lemma_more_factors(env: Env, toks: Seq<Lexeme>, left: Tree, at: int, calls: Seq<StFn>)
    requires
        0 < at <= toks.len(),
        regular(env.scope, env.base + calls.len(), left),
    ensures
        advanced(env, toks, at - 1, calls, more_factors(env, toks, left, at, calls)),
    decreases toks.len() - at, 0int,
{
    if let Some(op) = bin_at(toks, at, |c: char| multiplying(c)) {
        lemma_unary(env, toks, at + 1, calls);
        if let Outcome::Parsed { tree, at: p, calls: c } = unary(env, toks, at + 1, calls) {
            lemma_regular_more(env.scope, env.base + calls.len(), env.base + c.len(), left);
            lemma_more_factors(env, toks, Tree::Bin(op, Box::new(left), Box::new(tree)), p, c);
        }
    }
}

proof fn lemma_unary(env: Env, toks: Seq<Lexeme>, at: int, calls: Seq<StFn>)
    requires
        0 <= at <= toks.len(),
    ensures
        advanced(env, toks, at, calls, unary(env, toks, at, calls)),
    decreases toks.len() - at, 2int,
{
    if op_at(toks, at) == Some('-') {
        lemma_unary(env, toks, at + 1, calls);
    } else {
        lemma_atom(env, toks, at, calls);
        if let Outcome::Parsed { tree: a, at: p, calls: c } = atom(env, toks, at, calls) {
            if op_at(toks, p) == Some('^') {
                lemma_unary(env, toks, p + 1, c);
                if let Outcome::Parsed { tree: b, at: q, calls: d } = unary(env, toks, p + 1, c) {
                    lemma_regular_more(env.scope, env.base + c.len(), env.base + d.len(), a);
                }
            }
        }
    }
}

proof fn lemma_atom(env: Env, toks: Seq<Lexeme>, at: int, calls: Seq<StFn>)
    requires
        0 <= at <= toks.len(),
    ensures
        advanced(env, toks, at, calls, atom(env, toks, at, calls)),
    decreases toks.len() - at, 1int,
{
    if at < toks.len() {
        match toks[at] {
            Lexeme::LParen => lemma_compare(env, toks, at + 1, calls),
            Lexeme::Ident(name) => {
                if word_at(toks, at + 1, Lexeme::LParen) {
                    lemma_call(env, toks, name, at + 2, calls);
                }
            },
            _ => {},
        }
    }
}

proof fn lemma_call(env: Env, toks: Seq<Lexeme>, name: Seq<char>, at: int, calls: Seq<StFn>)
    requires
        0 <= at <= toks.len(),
    ensures
        advanced(env, toks, at, calls, call(env, toks, name, at, calls)),
    decreases toks.len() - at, 7int,
{
    if !word_at(toks, at, Lexeme::RParen) {
        lemma_arguments(env, toks, seq![], at, calls);
        if let Arguments::Listed { list, at: p, calls: c } = arguments(env, toks, seq![], at, calls) {
            lemma_closed_call(env, toks, name, list, p + 1, c);
        }
    } else {
        lemma_closed_call(env, toks, name, seq![], at + 1, calls);
    }
}

proof fn lemma_closed_call(env: Env, toks: Seq<Lexeme>, name: Seq<char>, list: Seq<Tree>, at: int, calls: Seq<StFn>)
    requires
        regular_all(env.scope, env.base + calls.len(), list),
    ensures
        match closed_call(env, name, list, at, calls) {
            Outcome::Parsed { tree, at: p, calls: c } => {
                &&& p == at
                &&& calls.is_prefix_of(c)
                &&& env.base + c.len() <= 0xffff || c == calls
                &&& regular(env.scope, env.base + c.len(), tree)
            },
            Outcome::Failed { fault: _, calls: c } => calls.is_prefix_of(c) && (env.base + c.len() <= 0xffff || c == calls),
        },
{
    let slot: int = (env.base + calls.len()) as int;
    if let Some(Func::St(f, _)) = builtin(name, slot) {
        if slot < 0xffff {
            lemma_regular_all_more(env.scope, env.base + calls.len(), env.base + calls.push(f).len(), list);
        }
    }
}

proof fn lemma_arguments(env: Env, toks: Seq<Lexeme>, list: Seq<Tree>, at: int, calls: Seq<StFn>)
    requires
        0 <= at <= toks.len(),
        regular_all(env.scope, env.base + calls.len(), list),
    ensures
        match arguments(env, toks, list, at, calls) {
            Arguments::Listed { list: full, at: p, calls: c } => {
                &&& at < p <= toks.len()
                &&& calls.is_prefix_of(c)
                &&& env.base + c.len() <= 0xffff || c == calls
                &&& regular_all(env.scope, env.base + c.len(), full)
            },
            Arguments::Failed { fault: _, calls: c } => calls.is_prefix_of(c) && (env.base + c.len() <= 0xffff || c == calls),
        },
    decreases toks.len() - at, 6int,
{
    lemma_compare(env, toks, at, calls);
    if let Outcome::Parsed { tree, at: p, calls: c } = compare(env, toks, at, calls) {
        lemma_regular_all_more(env.scope, env.base + calls.len(), env.base + c.len(), list);
        assert(list.push(tree).drop_last() =~= list);
        if word_at(toks, p, Lexeme::Comma) {
            lemma_arguments(env, toks, list.push(tree), p + 1, c);
        }
    }
}

/// The stack depth depends on the steps taken only.
pub proof fn lemma_depth_prefix(a: Seq<Op>, b: Seq<Op>, n: nat)
    requires
        n <= a.len(),
        n <= b.len(),
        forall|k: int| 0 <= k < n ==> a[k] == b[k],
    ensures
        depth(a, n) == depth(b, n),
        deepest(a, n) == deepest(b, n),
    decreases n,
{
    if n > 0 {
        lemma_depth_prefix(a, b, (n - 1) as nat);
    }
}

/// No depth on the way is more than the deepest.
pub proof fn lemma_deepest(ops: Seq<Op>, k: nat, n: nat)
    requires
        k <= n,
    ensures
        depth(ops, k) <= deepest(ops, n),
        deepest(ops, k) <= deepest(ops, n),
    decreases n,
{
    if k < n {
        lemma_deepest(ops, k, (n - 1) as nat);
    } else if n > 0 {
        lemma_deepest(ops, (k - 1) as nat, (n - 1) as nat);
    }
}

/// Every step from `from` on finds its operands above `floor`, and its variable and state.
pub open spec fn grounded(ops: Seq<Op>, from: nat, floor: int, scope: Scope, slots: nat) -> bool {
    forall|k: int|
        from <= k < ops.len() ==> {
            &&& floor + (#[trigger] ops[k]).takes() <= depth(ops, k as nat)
            &&& ops[k] matches Op::Var(i) ==> i < scope.size()
            &&& ops[k] matches Op::Call(Func::St(_, slot)) ==> slot < slots
        }
}

pub open spec fn larger(a: int, b: int) -> int {
    if a > b {
        a
    } else {
        b
    }
}

/// The code of a tree adds one number to the stack, never looks below it, and needs what
/// [`needs`] says.
pub proof fn lemma_emit(g: Numerals, scope: Scope, slots: nat, tree: Tree, pre: Seq<Op>)
    requires
        regular(scope, slots, tree),
        scope.fits(),
    ensures
        ({
            let (all, d) = (pre + emit(g, scope, tree), depth(pre, pre.len()));
            &&& depth(all, all.len()) == d + 1
            &&& deepest(all, all.len()) == larger(deepest(pre, pre.len()), d + needs(tree))
            &&& grounded(all, pre.len(), d, scope, slots)
            &&& needs(tree) >= 1
        }),
    decreases tree,
{
    let all = pre + emit(g, scope, tree);
    let d = depth(pre, pre.len());
    lemma_deepest(pre, pre.len(), pre.len());
    match tree {
        Tree::Num(text) => lemma_push_step(pre, all, Op::Const(g(text))),
        Tree::Pi => lemma_push_step(pre, all, Op::Const(Single::of(PI))),
        Tree::Tau => lemma_push_step(pre, all, Op::Const(Single::of(TAU))),
        Tree::Var(name) => {
            scope.lemma_slot(name);
            lemma_push_step(pre, all, Op::Var(scope.slot(name).unwrap() as u16));
        },
        Tree::Neg(a) => {
            lemma_emit(g, scope, slots, *a, pre);
            lemma_push_step(pre + emit(g, scope, *a), all, Op::Neg);
            lemma_grounded_step(pre + emit(g, scope, *a), all, pre.len(), d, scope, slots);
        },
        Tree::Bin(op, a, b) => {
            let one = pre + emit(g, scope, *a);
            let two = one + emit(g, scope, *b);
            lemma_emit(g, scope, slots, *a, pre);
            lemma_emit(g, scope, slots, *b, one);
            lemma_push_step(two, all, Op::Bin(op));
            lemma_grounded_more(one, two, pre.len(), d, d + 1, scope, slots);
            lemma_grounded_step(two, all, pre.len(), d, scope, slots);
        },
        Tree::Call(func, list) => {
            let full = pre + emit_all(g, scope, list);
            lemma_emit_all(g, scope, slots, list, pre);
            lemma_push_step(full, all, Op::Call(func));
            lemma_grounded_step(full, all, pre.len(), d, scope, slots);
        },
    }
}

proof fn lemma_emit_all(g: Numerals, scope: Scope, slots: nat, list: Seq<Tree>, pre: Seq<Op>)
    requires
        regular_all(scope, slots, list),
        scope.fits(),
    ensures
        ({
            let (all, d) = (pre + emit_all(g, scope, list), depth(pre, pre.len()));
            &&& depth(all, all.len()) == d + list.len()
            &&& deepest(all, all.len()) == larger(deepest(pre, pre.len()), d + needs_all(list))
            &&& grounded(all, pre.len(), d, scope, slots)
            &&& needs_all(list) >= list.len()
        }),
    decreases list,
{
    let all = pre + emit_all(g, scope, list);
    let d = depth(pre, pre.len());
    lemma_deepest(pre, pre.len(), pre.len());
    if list.len() == 0 {
        assert(all =~= pre);
    } else {
        let one = pre + emit_all(g, scope, list.drop_last());
        lemma_emit_all(g, scope, slots, list.drop_last(), pre);
        lemma_emit(g, scope, slots, list.last(), one);
        assert(all =~= one + emit(g, scope, list.last()));
        lemma_grounded_more(one, all, pre.len(), d, d + list.len() - 1, scope, slots);
    }
}

/// One step more.
proof fn lemma_push_step(pre: Seq<Op>, all: Seq<Op>, op: Op)
    requires
        all =~= pre.push(op),
    ensures
        depth(all, pre.len()) == depth(pre, pre.len()),
        depth(all, all.len()) == depth(pre, pre.len()) + 1 - op.takes(),
        deepest(all, all.len()) == larger(deepest(pre, pre.len()), depth(all, all.len())),
        all.len() == pre.len() + 1,
        all.last() == op,
        forall|k: int| 0 <= k < pre.len() ==> all[k] == pre[k],
{
    lemma_depth_prefix(pre, all, pre.len());
}

proof fn lemma_grounded_step(pre: Seq<Op>, all: Seq<Op>, from: nat, floor: int, scope: Scope, slots: nat)
    requires
        all.len() == pre.len() + 1,
        forall|k: int| 0 <= k < pre.len() ==> all[k] == pre[k],
        grounded(pre, from, floor, scope, slots),
        floor + all.last().takes() <= depth(pre, pre.len()),
        all.last() matches Op::Var(i) ==> i < scope.size(),
        all.last() matches Op::Call(Func::St(_, slot)) ==> slot < slots,
    ensures
        grounded(all, from, floor, scope, slots),
{
    assert forall|k: int| from <= k < all.len() implies {
        &&& floor + (#[trigger] all[k]).takes() <= depth(all, k as nat)
        &&& all[k] matches Op::Var(i) ==> i < scope.size()
        &&& all[k] matches Op::Call(Func::St(_, slot)) ==> slot < slots
    } by {
        lemma_depth_prefix(pre, all, k as nat);
        if k < pre.len() {
            assert(all[k] == pre[k]);
        }
    }
}

proof fn lemma_grounded_more(one: Seq<Op>, two: Seq<Op>, from: nat, floor: int, upper: int, scope: Scope, slots: nat)
    requires
        one.len() <= two.len(),
        forall|k: int| 0 <= k < one.len() ==> one[k] == two[k],
        grounded(one, from, floor, scope, slots),
        grounded(two, one.len(), upper, scope, slots),
        floor <= upper,
    ensures
        grounded(two, from, floor, scope, slots),
{
    assert forall|k: int| from <= k < two.len() implies {
        &&& floor + (#[trigger] two[k]).takes() <= depth(two, k as nat)
        &&& two[k] matches Op::Var(i) ==> i < scope.size()
        &&& two[k] matches Op::Call(Func::St(_, slot)) ==> slot < slots
    } by {
        if k < one.len() {
            lemma_depth_prefix(one, two, k as nat);
            assert(one[k] == two[k]);
        }
    }
}

/// The variable a word is: a name that is neither a constant nor called.
pub open spec fn variable_at(toks: Seq<Lexeme>, i: int) -> Seq<Seq<char>> {
    match toks[i] {
        Lexeme::Ident(name) if !word_at(toks, i + 1, Lexeme::LParen) && name != "pi"@ && name != "tau"@ => seq![name],
        _ => seq![],
    }
}

/// The variables among the words `from..to`, in their order and as often as they stand there.
pub open spec fn mentioned(toks: Seq<Lexeme>, from: int, to: int) -> Seq<Seq<char>>
    decreases to - from,
{
    if to <= from {
        seq![]
    } else {
        mentioned(toks, from, to - 1) + variable_at(toks, to - 1)
    }
}

proof fn lemma_mentioned_joins(toks: Seq<Lexeme>, a: int, b: int, c: int)
    requires
        a <= b <= c,
    ensures
        mentioned(toks, a, c) == mentioned(toks, a, b) + mentioned(toks, b, c),
    decreases c - b,
{
    if b == c {
        assert(mentioned(toks, a, b) + seq![] =~= mentioned(toks, a, b));
    } else {
        lemma_mentioned_joins(toks, a, b, c - 1);
        assert(mentioned(toks, a, b) + (mentioned(toks, b, c - 1) + variable_at(toks, c - 1)) =~= (mentioned(toks, a, b) + mentioned(
            toks,
            b,
            c - 1,
        )) + variable_at(toks, c - 1));
    }
}

/// Words around one that is no variable.
proof fn lemma_mentioned_skips(toks: Seq<Lexeme>, a: int, b: int, c: int)
    requires
        a <= b < c,
        variable_at(toks, b) == Seq::<Seq<char>>::empty(),
    ensures
        mentioned(toks, a, c) == mentioned(toks, a, b) + mentioned(toks, b + 1, c),
{
    lemma_mentioned_joins(toks, a, b + 1, c);
    assert(mentioned(toks, a, b) + Seq::<Seq<char>>::empty() =~= mentioned(toks, a, b));
}

/// What was read has the variables of its words.
spec fn faithful(toks: Seq<Lexeme>, before: Seq<Seq<char>>, at: int, read: Outcome) -> bool {
    read matches Outcome::Parsed { tree, at: p, calls: _ } ==> {
        &&& at <= p <= toks.len()
        &&& names(tree) == before + mentioned(toks, at, p)
    }
}

proof fn lemma_compare_names(env: Env, toks: Seq<Lexeme>, at: int, calls: Seq<StFn>)
    requires
        0 <= at <= toks.len(),
    ensures
        faithful(toks, seq![], at, compare(env, toks, at, calls)),
    decreases toks.len() - at, 5int,
{
    lemma_sum(env, toks, at, calls);
    lemma_sum_names(env, toks, at, calls);
    if let Outcome::Parsed { tree: a, at: p, calls: c } = sum(env, toks, at, calls) {
        if bin_at(toks, p, |c: char| comparing(c)) is Some {
            lemma_sum(env, toks, p + 1, c);
            lemma_sum_names(env, toks, p + 1, c);
            if let Outcome::Parsed { tree: b, at: q, calls: d } = sum(env, toks, p + 1, c) {
                lemma_mentioned_skips(toks, at, p, q);
                assert(Seq::<Seq<char>>::empty() + mentioned(toks, at, p) =~= mentioned(toks, at, p));
                assert(Seq::<Seq<char>>::empty() + mentioned(toks, p + 1, q) =~= mentioned(toks, p + 1, q));
                assert(names(a) + names(b) =~= Seq::<Seq<char>>::empty() + mentioned(toks, at, q));
            }
        }
    }
}

proof fn lemma_sum_names(env: Env, toks: Seq<Lexeme>, at: int, calls: Seq<StFn>)
    requires
        0 <= at <= toks.len(),
    ensures
        faithful(toks, seq![], at, sum(env, toks, at, calls)),
    decreases toks.len() - at, 4int,
{
    lemma_product(env, toks, at, calls);
    lemma_product_names(env, toks, at, calls);
    if let Outcome::Parsed { tree, at: p, calls: c } = product(env, toks, at, calls) {
        lemma_more_terms_names(env, toks, tree, p, c);
        if let Outcome::Parsed { tree: whole, at: q, calls: _ } = more_terms(env, toks, tree, p, c) {
            lemma_mentioned_joins(toks, at, p, q);
            assert(names(whole) =~= Seq::<Seq<char>>::empty() + mentioned(toks, at, q));
        }
    }
}

proof fn lemma_more_terms_names(env: Env, toks: Seq<Lexeme>, left: Tree, at: int, calls: Seq<StFn>)
    requires
        0 <= at <= toks.len(),
    ensures
        faithful(toks, names(left), at, more_terms(env, toks, left, at, calls)),
    decreases toks.len() - at, 0int,
{
    if let Some(op) = bin_at(toks, at, |c: char| adding(c)) {
        lemma_product(env, toks, at + 1, calls);
        lemma_product_names(env, toks, at + 1, calls);
        if let Outcome::Parsed { tree, at: p, calls: c } = product(env, toks, at + 1, calls) {
            let joined = Tree::Bin(op, Box::new(left), Box::new(tree));
            lemma_more_terms_names(env, toks, joined, p, c);
            if let Outcome::Parsed { tree: whole, at: q, calls: _ } = more_terms(env, toks, joined, p, c) {
                lemma_mentioned_skips(toks, at, at, p);
                lemma_mentioned_joins(toks, at, p, q);
                assert(names(whole) =~= names(left) + mentioned(toks, at, q));
            }
        }
    } else {
        assert(names(left) + Seq::<Seq<char>>::empty() =~= names(left));
    }
}

proof fn lemma_product_names(env: Env, toks: Seq<Lexeme>, at: int, calls: Seq<StFn>)
    requires
        0 <= at <= toks.len(),
    ensures
        faithful(toks, seq![], at, product(env, toks, at, calls)),
    decreases toks.len() - at, 3int,
{
    lemma_unary(env, toks, at, calls);
    lemma_unary_names(env, toks, at, calls);
    if let Outcome::Parsed { tree, at: p, calls: c } = unary(env, toks, at, calls) {
        lemma_more_factors_names(env, toks, tree, p, c);
        if let Outcome::Parsed { tree: whole, at: q, calls: _ } = more_factors(env, toks, tree, p, c) {
            lemma_mentioned_joins(toks, at, p, q);
            assert(names(whole) =~= Seq::<Seq<char>>::empty() + mentioned(toks, at, q));
        }
    }
}

proof fn lemma_more_factors_names(env: Env, toks: Seq<Lexeme>, left: Tree, at: int, calls: Seq<StFn>)
    requires
        0 <= at <= toks.len(),
    ensures
        faithful(toks, names(left), at, more_factors(env, toks, left, at, calls)),
    decreases toks.len() - at, 0int,
{
    if let Some(op) = bin_at(toks, at, |c: char| multiplying(c)) {
        lemma_unary(env, toks, at + 1, calls);
        lemma_unary_names(env, toks, at + 1, calls);
        if let Outcome::Parsed { tree, at: p, calls: c } = unary(env, toks, at + 1, calls) {
            let joined = Tree::Bin(op, Box::new(left), Box::new(tree));
            lemma_more_factors_names(env, toks, joined, p, c);
            if let Outcome::Parsed { tree: whole, at: q, calls: _ } = more_factors(env, toks, joined, p, c) {
                lemma_mentioned_skips(toks, at, at, p);
                lemma_mentioned_joins(toks, at, p, q);
                assert(names(whole) =~= names(left) + mentioned(toks, at, q));
            }
        }
    } else {
        assert(names(left) + Seq::<Seq<char>>::empty() =~= names(left));
    }
}

proof fn lemma_unary_names(env: Env, toks: Seq<Lexeme>, at: int, calls: Seq<StFn>)
    requires
        0 <= at <= toks.len(),
    ensures
        faithful(toks, seq![], at, unary(env, toks, at, calls)),
    decreases toks.len() - at, 2int,
{
    if op_at(toks, at) == Some('-') {
        lemma_unary(env, toks, at + 1, calls);
        lemma_unary_names(env, toks, at + 1, calls);
        if let Outcome::Parsed { tree, at: p, calls: _ } = unary(env, toks, at + 1, calls) {
            lemma_mentioned_skips(toks, at, at, p);
            assert(names(tree) =~= Seq::<Seq<char>>::empty() + mentioned(toks, at, p));
        }
    } else {
        lemma_atom(env, toks, at, calls);
        lemma_atom_names(env, toks, at, calls);
        if let Outcome::Parsed { tree: a, at: p, calls: c } = atom(env, toks, at, calls) {
            if op_at(toks, p) == Some('^') {
                lemma_unary(env, toks, p + 1, c);
                lemma_unary_names(env, toks, p + 1, c);
                if let Outcome::Parsed { tree: b, at: q, calls: _ } = unary(env, toks, p + 1, c) {
                    lemma_mentioned_skips(toks, at, p, q);
                    assert(names(a) + names(b) =~= Seq::<Seq<char>>::empty() + mentioned(toks, at, q));
                }
            }
        }
    }
}

proof fn lemma_atom_names(env: Env, toks: Seq<Lexeme>, at: int, calls: Seq<StFn>)
    requires
        0 <= at <= toks.len(),
    ensures
        faithful(toks, seq![], at, atom(env, toks, at, calls)),
    decreases toks.len() - at, 1int,
{
    if at < toks.len() {
        lemma_mentioned_joins(toks, at, at, at + 1);
        assert(mentioned(toks, at, at + 1) =~= variable_at(toks, at)) by {
            reveal_with_fuel(mentioned, 2);
        }
        match toks[at] {
            Lexeme::LParen => {
                lemma_compare(env, toks, at + 1, calls);
                lemma_compare_names(env, toks, at + 1, calls);
                if let Outcome::Parsed { tree, at: p, calls: _ } = compare(env, toks, at + 1, calls) {
                    if word_at(toks, p, Lexeme::RParen) {
                        lemma_mentioned_skips(toks, at, at, p + 1);
                        lemma_mentioned_skips(toks, at + 1, p, p + 1);
                        assert(names(tree) =~= Seq::<Seq<char>>::empty() + mentioned(toks, at, p + 1));
                    }
                }
            },
            Lexeme::Ident(name) => {
                if word_at(toks, at + 1, Lexeme::LParen) {
                    lemma_call(env, toks, name, at + 2, calls);
                    lemma_call_names(env, toks, name, at + 2, calls);
                    if let Outcome::Parsed { tree, at: p, calls: _ } = call(env, toks, name, at + 2, calls) {
                        lemma_mentioned_skips(toks, at, at, p);
                        lemma_mentioned_skips(toks, at + 1, at + 1, p);
                        assert(names(tree) =~= Seq::<Seq<char>>::empty() + mentioned(toks, at, p));
                    }
                } else {
                    assert(names(named(name)) =~= Seq::<Seq<char>>::empty() + variable_at(toks, at));
                }
            },
            Lexeme::Num(text) => {
                assert(names(Tree::Num(text)) =~= Seq::<Seq<char>>::empty() + variable_at(toks, at));
            },
            _ => {},
        }
    }
}

proof fn lemma_call_names(env: Env, toks: Seq<Lexeme>, name: Seq<char>, at: int, calls: Seq<StFn>)
    requires
        0 <= at <= toks.len(),
    ensures
        faithful(toks, seq![], at, call(env, toks, name, at, calls)),
    decreases toks.len() - at, 7int,
{
    if word_at(toks, at, Lexeme::RParen) {
        lemma_mentioned_skips(toks, at, at, at + 1);
        let list: Seq<Tree> = seq![];
        assert(names_all(list) =~= Seq::<Seq<char>>::empty() + mentioned(toks, at, at + 1));
    } else {
        lemma_arguments(env, toks, seq![], at, calls);
        lemma_arguments_names(env, toks, seq![], at, calls);
        if let Arguments::Listed { list, at: p, calls: _ } = arguments(env, toks, seq![], at, calls) {
            if word_at(toks, p, Lexeme::RParen) {
                lemma_mentioned_skips(toks, at, p, p + 1);
                assert(names_all(list) =~= Seq::<Seq<char>>::empty() + mentioned(toks, at, p + 1));
            }
        }
    }
}

proof fn lemma_arguments_names(env: Env, toks: Seq<Lexeme>, list: Seq<Tree>, at: int, calls: Seq<StFn>)
    requires
        0 <= at <= toks.len(),
    ensures
        arguments(env, toks, list, at, calls) matches Arguments::Listed { list: full, at: p, calls: _ } ==> {
            &&& at <= p <= toks.len()
            &&& names_all(full) == names_all(list) + mentioned(toks, at, p)
        },
    decreases toks.len() - at, 6int,
{
    lemma_compare(env, toks, at, calls);
    lemma_compare_names(env, toks, at, calls);
    if let Outcome::Parsed { tree, at: p, calls: c } = compare(env, toks, at, calls) {
        let more = list.push(tree);
        assert(more.drop_last() =~= list);
        assert(names_all(more) =~= names_all(list) + mentioned(toks, at, p));
        if word_at(toks, p, Lexeme::Comma) {
            lemma_arguments_names(env, toks, more, p + 1, c);
            if let Arguments::Listed { list: full, at: q, calls: _ } = arguments(env, toks, more, p + 1, c) {
                lemma_mentioned_skips(toks, at, p, q);
                assert(names_all(full) =~= names_all(list) + mentioned(toks, at, q));
            }
        }
    }
}

/// The variables of a formula are the names in its text that are neither constants nor called, in
/// their order and as often as they stand there, whatever scope it is read in.
pub proof fn lemma_formula_names(env: Env, src: Seq<char>)
    ensures
        formula(env, src) matches Outcome::Parsed { tree, at: _, calls: _ } ==> (crate::graph::token::words(src) matches Ok(toks)
            && names(tree) == mentioned(toks, 0, toks.len() as int)),
{
    if let Ok(toks) = crate::graph::token::words(src) {
        lemma_compare(env, toks, 0, seq![]);
        lemma_compare_names(env, toks, 0, seq![]);
        if let Outcome::Parsed { tree, at, calls: _ } = formula(env, src) {
            assert(names(tree) =~= mentioned(toks, 0, toks.len() as int));
        }
    }
}

} // verus!
