//! Recursive descent over the grammar of [`crate::graph::grammar`], emitting code as it goes.
use vstd::prelude::*;

use crate::arith::{reads, reads_all, Numerals};
use crate::graph::grammar::{
    Arguments, Bin, Env, Fault, Func, Op, Outcome, Scope, StFn, Tree, F1, F2, F3,
};
use crate::graph::token::{LexError, LexFault, Lexeme, Tok};
use crate::single::{Single, PI, TAU};
use crate::text::{equal, number_text, owned, plus};

verus! {

/// Why a text is no formula, with the text at fault.
#[derive(Clone, Debug)]
pub enum ExprError {
    Lex(LexError),
    Empty,
    End,
    Unexpected(Tok),
    MissingParen,
    UnknownName(String),
    UnknownFunction(String),
    Arity { name: String, takes: usize, got: usize },
    TooManyStates,
    /// The formula needs that many stack slots.
    TooDeep(usize),
}

impl View for ExprError {
    type V = Fault;

    open spec fn view(&self) -> Fault {
        match *self {
            ExprError::Lex(e) => Fault::Lex(e@),
            ExprError::Empty => Fault::Empty,
            ExprError::End => Fault::End,
            ExprError::Unexpected(tok) => Fault::Unexpected(tok@),
            ExprError::MissingParen => Fault::MissingParen,
            ExprError::UnknownName(name) => Fault::UnknownName(name@),
            ExprError::UnknownFunction(name) => Fault::UnknownFunction(name@),
            ExprError::Arity { name, takes, got } => Fault::Arity { name: name@, takes: takes as nat, got: got as nat },
            ExprError::TooManyStates => Fault::TooManyStates,
            ExprError::TooDeep(n) => Fault::TooDeep(n as nat),
        }
    }
}

/// How a word is shown in a message; `show` is how the value of a number is shown.
pub open spec fn shown(word: Lexeme, show: spec_fn(Seq<char>) -> Seq<char>) -> Seq<char> {
    match word {
        Lexeme::Num(text) => "Num("@ + show(text) + ")"@,
        Lexeme::Ident(name) => "Ident(\""@ + name + "\")"@,
        Lexeme::LParen => "LParen"@,
        Lexeme::RParen => "RParen"@,
        Lexeme::Comma => "Comma"@,
        Lexeme::Op(c) => "Op('"@.push(c) + "')"@,
    }
}

impl Fault {
    /// The message for a fault.
    pub open spec fn text(self, show: spec_fn(Seq<char>) -> Seq<char>) -> Seq<char> {
        match self {
            Fault::Lex(LexFault::BadNumber(text)) => "bad number '"@ + text + "'"@,
            Fault::Lex(LexFault::Unexpected(c)) => "unexpected character '"@.push(c) + "'"@,
            Fault::Empty => "empty expression"@,
            Fault::End => "unexpected end of expression"@,
            Fault::Unexpected(word) => "unexpected "@ + shown(word, show),
            Fault::MissingParen => "missing ')'"@,
            Fault::UnknownName(name) => "unknown name '"@ + name + "'"@,
            Fault::UnknownFunction(name) => "unknown function '"@ + name + "'"@,
            Fault::Arity { name, takes, got } => name + "() takes "@ + crate::text::numeral(takes)
                + " argument(s), got "@ + crate::text::numeral(got),
            Fault::TooManyStates => "too many stateful function calls"@,
            Fault::TooDeep(n) => "expression too deeply nested (needs "@ + crate::text::numeral(n)
                + " stack slots, limit 24)"@,
        }
    }
}

/// A closure shows numbers as `show` says.
pub open spec fn shows<S: Fn(&String) -> String>(s: S, show: spec_fn(Seq<char>) -> Seq<char>) -> bool {
    forall|text: &String, r: String| #[trigger] call_ensures(s, (text,), r) ==> r@ == show(text@)
}

impl ExprError {
    /// The message for an error; `show` gives the value of a number as it is to be shown.
    pub fn message<S: Fn(&String) -> String>(&self, show: &S) -> (r: String)
        requires
            forall|text: &String| #[trigger] call_requires(*show, (text,)),
        ensures
            forall|f: spec_fn(Seq<char>) -> Seq<char>| #[trigger] shows(*show, f) ==> r@ == self@.text(f),
            !(self@ matches Fault::Unexpected(Lexeme::Num(_))) ==> r@ == self@.text(|t: Seq<char>| t),
    {
        match self {
            ExprError::Lex(LexError::BadNumber(text)) => plus(plus(owned("bad number '"), text.as_str()), "'"),
            ExprError::Lex(LexError::Unexpected(c)) => {
                let mut r = owned("unexpected character '");
                r.push(*c);
                plus(r, "'")
            },
            ExprError::Empty => owned("empty expression"),
            ExprError::End => owned("unexpected end of expression"),
            ExprError::Unexpected(tok) => {
                let word = match tok {
                    Tok::Num(text) => plus(plus(owned("Num("), show(text).as_str()), ")"),
                    Tok::Ident(name) => plus(plus(owned("Ident(\""), name.as_str()), "\")"),
                    Tok::LParen => owned("LParen"),
                    Tok::RParen => owned("RParen"),
                    Tok::Comma => owned("Comma"),
                    Tok::Op(c) => {
                        let mut r = owned("Op('");
                        r.push(*c);
                        plus(r, "')")
                    },
                };
                plus(owned("unexpected "), word.as_str())
            },
            ExprError::MissingParen => owned("missing ')'"),
            ExprError::UnknownName(name) => plus(plus(owned("unknown name '"), name.as_str()), "'"),
            ExprError::UnknownFunction(name) => plus(plus(owned("unknown function '"), name.as_str()), "'"),
            ExprError::Arity { name, takes, got } => {
                let head = plus(plus(name.clone(), "() takes "), number_text(*takes).as_str());
                plus(plus(head, " argument(s), got "), number_text(*got).as_str())
            },
            ExprError::TooManyStates => owned("too many stateful function calls"),
            ExprError::TooDeep(n) => plus(
                plus(owned("expression too deeply nested (needs "), number_text(*n).as_str()),
                " stack slots, limit 24)",
            ),
        }
    }
}

/// The texts of a list of strings.
pub open spec fn texts(list: Seq<String>) -> Seq<Seq<char>> {
    Seq::new(list.len(), |i: int| list[i]@)
}

/// The names a formula may use.
#[derive(Clone, Copy, Debug)]
pub enum NameTable<'a> {
    /// All, each standing for slot 0.
    Any,
    /// Those listed, each standing for its first position.
    Of(&'a Vec<String>),
}

impl<'a> NameTable<'a> {
    pub open spec fn scope(self) -> Scope {
        match self {
            NameTable::Any => Scope::Any,
            NameTable::Of(list) => Scope::Names(texts(list@)),
        }
    }

    /// Slot of a name.
    pub fn slot(self, name: &str) -> (r: Option<u16>)
        requires
            self.scope().fits(),
        ensures
            match r {
                Some(i) => self.scope().slot(name@) == Some(i as int),
                None => self.scope().slot(name@) is None,
            },
    {
        match self {
            NameTable::Any => Some(0),
            NameTable::Of(list) => match position(list, name) {
                Some(i) => Some(i as u16),
                None => None,
            },
        }
    }
}

/// First position of a string in a list.
pub fn position(list: &Vec<String>, name: &str) -> (r: Option<usize>)
    ensures
        match r {
            Some(i) => crate::graph::grammar::first_of(texts(list@), name@) == Some(i as int) && i < list@.len()
                && list@[i as int]@ == name@,
            None => crate::graph::grammar::first_of(texts(list@), name@) is None && forall|k: int|
                0 <= k < list@.len() ==> (#[trigger] list@[k])@ != name@,
        },
{
    let mut i: usize = 0;
    while i < list.len()
        invariant
            i <= list@.len(),
            forall|k: int| 0 <= k < i ==> (#[trigger] texts(list@)[k]) != name@,
        decreases list@.len() - i,
    {
        if equal(list[i].as_str(), name) {
            proof {
                crate::graph::grammar::lemma_first_of(texts(list@), name@, i as int);
            }
            return Some(i);
        }
        i = i + 1;
    }
    proof {
        if texts(list@).contains(name@) {
            let k = choose|k: int| 0 <= k < texts(list@).len() && texts(list@)[k] == name@;
            assert(texts(list@)[k] == name@);
        }
        assert forall|k: int| 0 <= k < list@.len() implies (#[trigger] list@[k])@ != name@ by {
            assert(texts(list@)[k] != name@);
        }
    }
    None
}

/// The function with a name; one that keeps a state gets the state `slot`.
fn builtin(name: &str, slot: u16) -> (r: Option<Func>)
    ensures
        r == crate::graph::grammar::builtin(name@, slot as int),
{
    if equal(name, "abs") {
        Some(Func::F1(F1::Abs))
    } else if equal(name, "sqrt") {
        Some(Func::F1(F1::Sqrt))
    } else if equal(name, "exp") {
        Some(Func::F1(F1::Exp))
    } else if equal(name, "exp2") {
        Some(Func::F1(F1::Exp2))
    } else if equal(name, "ln") {
        Some(Func::F1(F1::Ln))
    } else if equal(name, "sin") {
        Some(Func::F1(F1::Sin))
    } else if equal(name, "cos") {
        Some(Func::F1(F1::Cos))
    } else if equal(name, "floor") {
        Some(Func::F1(F1::Floor))
    } else if equal(name, "db") {
        Some(Func::F1(F1::Db))
    } else if equal(name, "midi") {
        Some(Func::F1(F1::Midi))
    } else if equal(name, "min") {
        Some(Func::F2(F2::Min))
    } else if equal(name, "max") {
        Some(Func::F2(F2::Max))
    } else if equal(name, "pow") {
        Some(Func::F2(F2::Pow))
    } else if equal(name, "clamp") {
        Some(Func::F3(F3::Clamp))
    } else if equal(name, "lerp") {
        Some(Func::F3(F3::Lerp))
    } else if equal(name, "select") {
        Some(Func::F3(F3::Select))
    } else if equal(name, "smoothstep") {
        Some(Func::F3(F3::Smoothstep))
    } else if equal(name, "slew") {
        Some(Func::St(StFn::Slew, slot))
    } else if equal(name, "lag") {
        Some(Func::St(StFn::Lag, slot))
    } else if equal(name, "noise") {
        Some(Func::St(StFn::Noise, slot))
    } else if equal(name, "sh") {
        Some(Func::St(StFn::Sh, slot))
    } else if equal(name, "lfo") {
        Some(Func::St(StFn::Lfo, slot))
    } else if equal(name, "ramp") {
        Some(Func::St(StFn::Ramp, slot))
    } else {
        None
    }
}

/// A token again.
pub fn copy(tok: &Tok) -> (r: Tok)
    ensures
        r@ == tok@,
{
    match tok {
        Tok::Num(s) => Tok::Num(s.clone()),
        Tok::Ident(s) => Tok::Ident(s.clone()),
        Tok::LParen => Tok::LParen,
        Tok::RParen => Tok::RParen,
        Tok::Comma => Tok::Comma,
        Tok::Op(c) => Tok::Op(*c),
    }
}

/// Code under construction.
pub struct Code {
    pub ops: Vec<Op>,
    /// The variables read so far.
    pub seen: Vec<String>,
    /// The stateful calls so far.
    pub calls: Vec<StFn>,
}

/// What a formula is read in.
pub struct Context<'a, N: Fn(&String) -> Single> {
    pub toks: &'a Vec<Tok>,
    pub table: NameTable<'a>,
    /// States that exist already.
    pub base: usize,
    /// Value of a number as written.
    pub number: &'a N,
}

impl<'a, N: Fn(&String) -> Single> Context<'a, N> {
    pub open spec fn wf(&self) -> bool {
        self.table.scope().fits() && reads_all(*self.number)
    }

    pub open spec fn env(&self) -> Env {
        Env { scope: self.table.scope(), base: self.base as nat }
    }

    pub open spec fn words(&self) -> Seq<Lexeme> {
        crate::graph::token::lexemes(self.toks@)
    }

    /// The code has grown by that of a tree.
    pub open spec fn grown(&self, before: Code, after: Code, tree: Tree) -> bool {
        &&& texts(after.seen@) == texts(before.seen@) + crate::graph::grammar::names(tree)
        &&& forall|g: Numerals| #[trigger]
            reads(*self.number, g) ==> after.ops@ == before.ops@ + crate::graph::grammar::emit(
                g,
                self.table.scope(),
                tree,
            )
    }

    /// The code has grown by that of a list of arguments.
    pub open spec fn grown_all(&self, before: Code, after: Code, list: Seq<Tree>) -> bool {
        &&& texts(after.seen@) == texts(before.seen@) + crate::graph::grammar::names_all(list)
        &&& forall|g: Numerals| #[trigger]
            reads(*self.number, g) ==> after.ops@ == before.ops@ + crate::graph::grammar::emit_all(
                g,
                self.table.scope(),
                list,
            )
    }

    /// A result and the code it left are what the grammar says.
    pub open spec fn agrees(&self, read: Outcome, at: usize, r: Result<usize, ExprError>, before: Code, after: Code) -> bool {
        match (r, read) {
            (Ok(p), Outcome::Parsed { tree, at: q, calls }) => {
                &&& p == q
                &&& at < p <= self.toks@.len()
                &&& after.calls@ == calls
                &&& self.grown(before, after, tree)
            },
            (Err(e), Outcome::Failed { fault, calls }) => e@ == fault && after.calls@ == calls,
            _ => false,
        }
    }

    fn op_at(&self, at: usize) -> (r: Option<char>)
        ensures
            r == crate::graph::grammar::op_at(self.words(), at as int),
            r is Some ==> at < self.toks@.len() && at < usize::MAX,
    {
        if at < self.toks.len() {
            assert(self.words()[at as int] == self.toks@[at as int]@);
            match &self.toks[at] {
                Tok::Op(c) => Some(*c),
                _ => None,
            }
        } else {
            None
        }
    }

    fn comma_at(&self, at: usize) -> (r: bool)
        ensures
            r == crate::graph::grammar::word_at(self.words(), at as int, Lexeme::Comma),
            r ==> at < self.toks@.len() && at < usize::MAX,
    {
        at < self.toks.len() && matches!(&self.toks[at], Tok::Comma)
    }

    fn lparen_at(&self, at: usize) -> (r: bool)
        ensures
            r == crate::graph::grammar::word_at(self.words(), at as int, Lexeme::LParen),
            r ==> at < self.toks@.len() && at < usize::MAX,
    {
        at < self.toks.len() && matches!(&self.toks[at], Tok::LParen)
    }

    fn rparen_at(&self, at: usize) -> (r: bool)
        ensures
            r == crate::graph::grammar::word_at(self.words(), at as int, Lexeme::RParen),
            r ==> at < self.toks@.len() && at < usize::MAX,
    {
        at < self.toks.len() && matches!(&self.toks[at], Tok::RParen)
    }

    /// The code of two operands and their operator is that of the tree they make.
    proof fn lemma_joined(&self, before: Code, middle: Code, full: Code, after: Code, op: Bin, a: Tree, b: Tree)
        requires
            self.grown(before, middle, a),
            self.grown(middle, full, b),
            after.seen@ == full.seen@,
            after.ops@ == full.ops@.push(Op::Bin(op)),
        ensures
            self.grown(before, after, Tree::Bin(op, Box::new(a), Box::new(b))),
    {
        let tree = Tree::Bin(op, Box::new(a), Box::new(b));
        assert(texts(before.seen@) + crate::graph::grammar::names(tree) =~= texts(before.seen@)
            + crate::graph::grammar::names(a) + crate::graph::grammar::names(b));
        assert forall|g: Numerals| #[trigger] reads(*self.number, g) implies after.ops@ == before.ops@
            + crate::graph::grammar::emit(g, self.table.scope(), tree) by {
            assert(after.ops@ =~= before.ops@ + crate::graph::grammar::emit(g, self.table.scope(), tree));
        }
    }

    /// Same for one operand and a sign.
    proof fn lemma_negated(&self, before: Code, full: Code, after: Code, a: Tree)
        requires
            self.grown(before, full, a),
            after.seen@ == full.seen@,
            after.ops@ == full.ops@.push(Op::Neg),
        ensures
            self.grown(before, after, Tree::Neg(Box::new(a))),
    {
        let tree = Tree::Neg(Box::new(a));
        assert forall|g: Numerals| #[trigger] reads(*self.number, g) implies after.ops@ == before.ops@
            + crate::graph::grammar::emit(g, self.table.scope(), tree) by {
            assert(after.ops@ =~= before.ops@ + crate::graph::grammar::emit(g, self.table.scope(), tree));
        }
    }

    pub fn compare(&self, at: usize, out: &mut Code) -> (r: Result<usize, ExprError>)
        requires
            self.wf(),
            at <= self.toks@.len(),
        ensures
            self.agrees(
                crate::graph::grammar::compare(self.env(), self.words(), at as int, old(out).calls@),
                at,
                r,
                *old(out),
                *final(out),
            ),
        decreases self.toks@.len() - at, 5int,
    {
        let ghost before = *out;
        let p = match self.sum(at, out) {
            Ok(p) => p,
            Err(e) => return Err(e),
        };
        let ghost middle = *out;
        let op = match self.op_at(p) {
            Some('<') => Bin::Lt,
            Some('>') => Bin::Gt,
            _ => return Ok(p),
        };
        let q = match self.sum(p + 1, out) {
            Ok(q) => q,
            Err(e) => return Err(e),
        };
        let ghost full = *out;
        out.ops.push(Op::Bin(op));
        proof {
            let a = crate::graph::grammar::sum(self.env(), self.words(), at as int, before.calls@)->tree;
            let b = crate::graph::grammar::sum(self.env(), self.words(), p + 1, middle.calls@)->tree;
            self.lemma_joined(before, middle, full, *out, op, a, b);
        }
        Ok(q)
    }

    fn sum(&self, at: usize, out: &mut Code) -> (r: Result<usize, ExprError>)
        requires
            self.wf(),
            at <= self.toks@.len(),
        ensures
            self.agrees(
                crate::graph::grammar::sum(self.env(), self.words(), at as int, old(out).calls@),
                at,
                r,
                *old(out),
                *final(out),
            ),
        decreases self.toks@.len() - at, 4int,
    {
        let ghost before = *out;
        let mut p = match self.product(at, out) {
            Ok(p) => p,
            Err(e) => return Err(e),
        };
        let ghost mut left = crate::graph::grammar::product(self.env(), self.words(), at as int, before.calls@)->tree;
        loop
            invariant
                self.wf(),
                at < p <= self.toks@.len(),
                before == *old(out),
                self.grown(before, *out, left),
                crate::graph::grammar::sum(self.env(), self.words(), at as int, before.calls@)
                    == crate::graph::grammar::more_terms(self.env(), self.words(), left, p as int, out.calls@),
            decreases self.toks@.len() - p,
        {
            let ghost middle = *out;
            let op = match self.op_at(p) {
                Some('+') => Bin::Add,
                Some('-') => Bin::Sub,
                _ => return Ok(p),
            };
            let q = match self.product(p + 1, out) {
                Ok(q) => q,
                Err(e) => return Err(e),
            };
            let ghost full = *out;
            out.ops.push(Op::Bin(op));
            proof {
                let b = crate::graph::grammar::product(self.env(), self.words(), p + 1, middle.calls@)->tree;
                self.lemma_joined(before, middle, full, *out, op, left, b);
                left = Tree::Bin(op, Box::new(left), Box::new(b));
            }
            p = q;
        }
    }

    fn product(&self, at: usize, out: &mut Code) -> (r: Result<usize, ExprError>)
        requires
            self.wf(),
            at <= self.toks@.len(),
        ensures
            self.agrees(
                crate::graph::grammar::product(self.env(), self.words(), at as int, old(out).calls@),
                at,
                r,
                *old(out),
                *final(out),
            ),
        decreases self.toks@.len() - at, 3int,
    {
        let ghost before = *out;
        let mut p = match self.unary(at, out) {
            Ok(p) => p,
            Err(e) => return Err(e),
        };
        let ghost mut left = crate::graph::grammar::unary(self.env(), self.words(), at as int, before.calls@)->tree;
        loop
            invariant
                self.wf(),
                at < p <= self.toks@.len(),
                before == *old(out),
                self.grown(before, *out, left),
                crate::graph::grammar::product(self.env(), self.words(), at as int, before.calls@)
                    == crate::graph::grammar::more_factors(self.env(), self.words(), left, p as int, out.calls@),
            decreases self.toks@.len() - p,
        {
            let ghost middle = *out;
            let op = match self.op_at(p) {
                Some('*') => Bin::Mul,
                Some('/') => Bin::Div,
                _ => return Ok(p),
            };
            let q = match self.unary(p + 1, out) {
                Ok(q) => q,
                Err(e) => return Err(e),
            };
            let ghost full = *out;
            out.ops.push(Op::Bin(op));
            proof {
                let b = crate::graph::grammar::unary(self.env(), self.words(), p + 1, middle.calls@)->tree;
                self.lemma_joined(before, middle, full, *out, op, left, b);
                left = Tree::Bin(op, Box::new(left), Box::new(b));
            }
            p = q;
        }
    }

    fn unary(&self, at: usize, out: &mut Code) -> (r: Result<usize, ExprError>)
        requires
            self.wf(),
            at <= self.toks@.len(),
        ensures
            self.agrees(
                crate::graph::grammar::unary(self.env(), self.words(), at as int, old(out).calls@),
                at,
                r,
                *old(out),
                *final(out),
            ),
        decreases self.toks@.len() - at, 2int,
    {
        let ghost before = *out;
        if let Some('-') = self.op_at(at) {
            let p = match self.unary(at + 1, out) {
                Ok(p) => p,
                Err(e) => return Err(e),
            };
            let ghost full = *out;
            out.ops.push(Op::Neg);
            proof {
                let a = crate::graph::grammar::unary(self.env(), self.words(), at + 1, before.calls@)->tree;
                self.lemma_negated(before, full, *out, a);
            }
            return Ok(p);
        }
        let p = match self.atom(at, out) {
            Ok(p) => p,
            Err(e) => return Err(e),
        };
        let ghost middle = *out;
        if let Some('^') = self.op_at(p) {
            let q = match self.unary(p + 1, out) {
                Ok(q) => q,
                Err(e) => return Err(e),
            };
            let ghost full = *out;
            out.ops.push(Op::Bin(Bin::Pow));
            proof {
                let a = crate::graph::grammar::atom(self.env(), self.words(), at as int, before.calls@)->tree;
                let b = crate::graph::grammar::unary(self.env(), self.words(), p + 1, middle.calls@)->tree;
                self.lemma_joined(before, middle, full, *out, Bin::Pow, a, b);
            }
            return Ok(q);
        }
        Ok(p)
    }

    fn atom(&self, at: usize, out: &mut Code) -> (r: Result<usize, ExprError>)
        requires
            self.wf(),
            at <= self.toks@.len(),
        ensures
            self.agrees(
                crate::graph::grammar::atom(self.env(), self.words(), at as int, old(out).calls@),
                at,
                r,
                *old(out),
                *final(out),
            ),
        decreases self.toks@.len() - at, 1int,
    {
        if at >= self.toks.len() {
            return Err(ExprError::End);
        }
        assert(self.words()[at as int] == self.toks@[at as int]@);
        match &self.toks[at] {
            Tok::Num(text) => {
                let value = (self.number)(text);
                out.ops.push(Op::Const(value));
                proof {
                    assert(texts(out.seen@) =~= texts(old(out).seen@) + crate::graph::grammar::names(Tree::Num(text@)));
                    self.lemma_leaf(*old(out), *out, Tree::Num(text@), Op::Const(value));
                }
                Ok(at + 1)
            },
            Tok::LParen => {
                let p = match self.compare(at + 1, out) {
                    Ok(p) => p,
                    Err(e) => return Err(e),
                };
                if !self.rparen_at(p) {
                    return Err(ExprError::MissingParen);
                }
                Ok(p + 1)
            },
            Tok::Ident(name) => {
                if self.lparen_at(at + 1) {
                    return self.call(name, at + 2, out);
                }
                match self.lone(name, out) {
                    Ok(()) => Ok(at + 1),
                    Err(e) => Err(e),
                }
            },
            other => Err(ExprError::Unexpected(copy(other))),
        }
    }

    /// A name by itself.
    fn lone(&self, name: &String, out: &mut Code) -> (r: Result<(), ExprError>)
        requires
            self.wf(),
        ensures
            final(out).calls@ == old(out).calls@,
            match r {
                Ok(_) => {
                    &&& self.grown(*old(out), *final(out), crate::graph::grammar::named(name@))
                    &&& crate::graph::grammar::named(name@) is Var ==> self.table.scope().slot(name@) is Some
                },
                Err(e) => {
                    &&& crate::graph::grammar::named(name@) is Var
                    &&& self.table.scope().slot(name@) is None
                    &&& e@ == Fault::UnknownName(name@)
                },
            },
    {
        if equal(name.as_str(), "pi") {
            out.ops.push(Op::Const(Single::of(PI)));
            proof {
                assert(texts(out.seen@) =~= texts(old(out).seen@) + crate::graph::grammar::names(Tree::Pi));
                self.lemma_leaf(*old(out), *out, Tree::Pi, Op::Const(Single::of(PI)));
            }
            return Ok(());
        }
        if equal(name.as_str(), "tau") {
            out.ops.push(Op::Const(Single::of(TAU)));
            proof {
                assert(texts(out.seen@) =~= texts(old(out).seen@) + crate::graph::grammar::names(Tree::Tau));
                self.lemma_leaf(*old(out), *out, Tree::Tau, Op::Const(Single::of(TAU)));
            }
            return Ok(());
        }
        match self.table.slot(name.as_str()) {
            Some(i) => {
                out.ops.push(Op::Var(i));
                out.seen.push(name.clone());
                proof {
                    let tree = Tree::Var(name@);
                    assert(crate::graph::grammar::names(tree) == seq![name@]);
                    assert(texts(out.seen@) =~= texts(old(out).seen@) + seq![name@]);
                    self.lemma_leaf(*old(out), *out, tree, Op::Var(i));
                }
                Ok(())
            },
            None => Err(ExprError::UnknownName(name.clone())),
        }
    }

    fn call(&self, name: &String, at: usize, out: &mut Code) -> (r: Result<usize, ExprError>)
        requires
            self.wf(),
            at <= self.toks@.len(),
        ensures
            self.agrees(
                crate::graph::grammar::call(self.env(), self.words(), name@, at as int, old(out).calls@),
                at,
                r,
                *old(out),
                *final(out),
            ),
        decreases self.toks@.len() - at, 6int,
    {
        let ghost before = *out;
        let ghost mut list: Seq<Tree> = seq![];
        let mut argc: usize = 0;
        let mut p: usize = at;
        proof {
            assert(texts(out.seen@) =~= texts(before.seen@) + crate::graph::grammar::names_all(list));
            assert forall|g: Numerals| #[trigger] reads(*self.number, g) implies out.ops@ == before.ops@
                + crate::graph::grammar::emit_all(g, self.table.scope(), list) by {
                assert(out.ops@ =~= before.ops@ + crate::graph::grammar::emit_all(g, self.table.scope(), list));
            }
        }
        if !self.rparen_at(p) {
            let mut more = true;
            while more
                invariant
                    self.wf(),
                    at <= p <= self.toks@.len(),
                    before == *old(out),
                    argc == list.len(),
                    argc <= p - at,
                    self.grown_all(before, *out, list),
                    crate::graph::grammar::arguments(self.env(), self.words(), seq![], at as int, before.calls@)
                        == (if more {
                        crate::graph::grammar::arguments(self.env(), self.words(), list, p as int, out.calls@)
                    } else {
                        Arguments::Listed { list, at: p as int, calls: out.calls@ }
                    }),
                    !crate::graph::grammar::word_at(self.words(), at as int, Lexeme::RParen),
                decreases self.toks@.len() - p, (if more { 1int } else { 0int }),
            {
                let ghost middle = *out;
                let q = match self.compare(p, out) {
                    Ok(q) => q,
                    Err(e) => return Err(e),
                };
                proof {
                    let tree = crate::graph::grammar::compare(self.env(), self.words(), p as int, middle.calls@)->tree;
                    self.lemma_listed(before, middle, *out, list, tree);
                    list = list.push(tree);
                }
                argc = argc + 1;
                if self.comma_at(q) {
                    p = q + 1;
                } else {
                    p = q;
                    more = false;
                }
            }
        }
        if !self.rparen_at(p) {
            return Err(ExprError::MissingParen);
        }
        let full = self.base >= 0xffff || out.calls.len() >= 0xffff - self.base;
        let slot: u16 = if full { 0 } else { (self.base + out.calls.len()) as u16 };
        let func = match builtin(name.as_str(), slot) {
            Some(func) => func,
            None => {
                proof {
                    lemma_builtin(name@, slot as int, (self.base + out.calls@.len()) as int);
                }
                return Err(ExprError::UnknownFunction(name.clone()));
            },
        };
        proof {
            lemma_builtin(name@, slot as int, (self.base + out.calls@.len()) as int);
        }
        if let Func::St(f, _) = func {
            if full {
                return Err(ExprError::TooManyStates);
            }
            out.calls.push(f);
        }
        let takes = func.arity();
        if argc != takes {
            return Err(ExprError::Arity { name: name.clone(), takes, got: argc });
        }
        let ghost read = *out;
        out.ops.push(Op::Call(func));
        proof {
            let tree = Tree::Call(func, list);
            assert forall|g: Numerals| #[trigger] reads(*self.number, g) implies out.ops@ == before.ops@
                + crate::graph::grammar::emit(g, self.table.scope(), tree) by {
                assert(out.ops@ =~= before.ops@ + crate::graph::grammar::emit(g, self.table.scope(), tree));
            }
        }
        Ok(p + 1)
    }

    /// The code of a longer list of arguments.
    proof fn lemma_listed(&self, before: Code, middle: Code, after: Code, list: Seq<Tree>, tree: Tree)
        requires
            self.grown_all(before, middle, list),
            self.grown(middle, after, tree),
        ensures
            self.grown_all(before, after, list.push(tree)),
    {
        let full = list.push(tree);
        assert(full.drop_last() =~= list);
        assert(texts(after.seen@) =~= texts(before.seen@) + crate::graph::grammar::names_all(full));
        assert forall|g: Numerals| #[trigger] reads(*self.number, g) implies after.ops@ == before.ops@
            + crate::graph::grammar::emit_all(g, self.table.scope(), full) by {
            assert(after.ops@ =~= before.ops@ + crate::graph::grammar::emit_all(g, self.table.scope(), full));
        }
    }

    /// The code of a tree without operands is one step.
    proof fn lemma_leaf(&self, before: Code, after: Code, tree: Tree, op: Op)
        requires
            after.ops@ == before.ops@.push(op),
            texts(after.seen@) == texts(before.seen@) + crate::graph::grammar::names(tree),
            forall|g: Numerals| #[trigger]
                reads(*self.number, g) ==> crate::graph::grammar::emit(g, self.table.scope(), tree) == seq![op],
        ensures
            self.grown(before, after, tree),
    {
        assert forall|g: Numerals| #[trigger] reads(*self.number, g) implies after.ops@ == before.ops@
            + crate::graph::grammar::emit(g, self.table.scope(), tree) by {
            assert(before.ops@.push(op) =~= before.ops@ + seq![op]);
        }
    }
}

/// Which function a name means does not depend on the state it gets.
proof fn lemma_builtin(name: Seq<char>, a: int, b: int)
    ensures
        match (crate::graph::grammar::builtin(name, a), crate::graph::grammar::builtin(name, b)) {
            (Some(Func::St(f, _)), Some(Func::St(g, _))) => f == g,
            (Some(Func::St(..)), _) | (_, Some(Func::St(..))) => false,
            (x, y) => x == y,
        },
{
}

} // verus!
