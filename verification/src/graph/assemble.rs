//! From the description of a node to the node.
use vstd::prelude::*;

use crate::arith::{reads, Prim};
use crate::double::Double;
use crate::filter::FilterMode;
use crate::graph::expr::{ExprState, Program};
use crate::graph::formula::compile;
use crate::graph::grammar::{Env, Op, Outcome, Scope};
use crate::graph::host::{Host, Sense};
use crate::graph::library::{list_text, type_list, NodeType};
use crate::graph::parse::NameTable;
use crate::graph::spec::{args_at, args_get, args_len, lowercase, Arg, ModelError, NodeSpec, MAX_RESONATORS};
use crate::osc::Waveform;
use crate::single::{Single, HALF, ZERO};
use crate::text::{equal, owned, plus};

verus! {

/// Pattern of 0 and of the longest delay, 2000 ms.
pub const ZERO_64: u64 = 0;

pub const LONGEST_MS: u64 = 0x409f_4000_0000_0000;

/// Pattern of 4, the widest spread in octaves.
pub const WIDEST: u64 = 0x4010_0000_0000_0000;

/// Patterns of 1000 and 50, the default lengths of delays and combs in ms.
pub const DELAY_MS: u32 = 0x447a_0000;

pub const COMB_MS: u32 = 0x4248_0000;

/// Where a number comes from: it is fixed, or a program computes it.
#[derive(Clone, Copy, Debug, PartialEq, Eq, Structural)]
pub enum Binding {
    Const(Single),
    Prog(usize),
}

/// Programs and states made so far.
pub struct Ctx {
    pub programs: Vec<Program>,
    pub states: Vec<ExprState>,
}

/// What a [`Ctx`] holds.
pub struct Made {
    pub programs: Seq<Seq<Op>>,
    pub states: Seq<ExprState>,
}

impl View for Ctx {
    type V = Made;

    open spec fn view(&self) -> Made {
        Made { programs: codes(self.programs@), states: self.states@ }
    }
}

/// The code of a list of programs.
pub open spec fn codes(list: Seq<Program>) -> Seq<Seq<Op>> {
    Seq::new(list.len(), |i: int| list[i].ops@)
}

impl Ctx {
    /// Every program runs on `vars` variables and the states there are.
    pub open spec fn wf(&self, vars: nat) -> bool {
        forall|i: int|
            0 <= i < self.programs@.len() ==> crate::graph::expr::runs(
                (#[trigger] self.programs@[i]).ops@,
                vars,
                self.states@.len(),
            )
    }
}

impl Binding {
    /// The program there is, if one is meant.
    pub open spec fn wf(self, programs: nat) -> bool {
        self matches Binding::Prog(i) ==> i < programs
    }
}

/// What compiling a formula in some place makes: its code and the states there are then.
#[verifier::opaque]
pub open spec fn coded(w: Sense, scope: Scope, states: Seq<ExprState>, src: Seq<char>, what: Seq<char>) -> Result<
    (Seq<Op>, Seq<ExprState>),
    Seq<char>,
> {
    match crate::graph::grammar::formula(Env { scope, base: states.len() }, src) {
        Outcome::Parsed { tree, at: _, calls } => Ok(
            (
                crate::graph::formula::folded(w.f, crate::graph::grammar::emit(w.g, scope, tree)),
                states + crate::graph::formula::fresh_states(states.len(), calls),
            ),
        ),
        Outcome::Failed { fault, calls: _ } => Err(what + ": "@ + fault.text(w.show) + " in \""@ + src + "\""@),
    }
}

/// What an argument is bound to, and what has been made then.
#[verifier::opaque]
pub open spec fn bound(w: Sense, scope: Scope, made: Made, arg: Arg, what: Seq<char>) -> Result<(Binding, Made), Seq<char>> {
    match arg {
        Arg::Num(n) => Ok((Binding::Const(n.value.single()), made)),
        Arg::List(_) => Err(what + ": expected a number or a formula, got a list"@),
        Arg::Text(src) => match coded(w, scope, made.states, src@, what) {
            Err(text) => Err(text),
            Ok((ops, states)) => if ops.len() == 1 && ops[0] is Const {
                Ok((Binding::Const(ops[0]->Const_0), Made { programs: made.programs, states }))
            } else {
                Ok((Binding::Prog(made.programs.len() as usize), Made { programs: made.programs.push(ops), states }))
            },
        },
    }
}

/// More states do not stop a program.
pub proof fn lemma_runs_more(ops: Seq<Op>, vars: nat, states: nat, more: nat)
    requires
        crate::graph::expr::runs(ops, vars, states),
        states <= more,
    ensures
        crate::graph::expr::runs(ops, vars, more),
{
    assert forall|k: int| 0 <= k < ops.len() implies #[trigger] crate::graph::expr::steps(ops, k, vars, more) by {
        assert(crate::graph::expr::steps(ops, k, vars, states));
    }
}

impl Ctx {
    /// Compile a formula; `what` says for a message where it stands.
    pub fn program<F: Fn(Prim, Single, Single) -> Single, N: Fn(&String) -> Single, S: Fn(&String) -> String>(
        &mut self,
        host: &Host<'_, F, N, S>,
        names: &Vec<String>,
        src: &String,
        what: String,
    ) -> (r: Result<Program, ModelError>)
        requires
            host.ok(),
            names@.len() <= 0x1_0000,
            old(self).wf(names@.len()),
        ensures
            final(self).wf(names@.len()),
            final(self).programs@ == old(self).programs@,
            r matches Ok(p) ==> crate::graph::expr::runs(p.ops@, names@.len(), final(self).states@.len()),
            final(self).states@.len() >= old(self).states@.len(),
            forall|w: Sense| #[trigger]
                host.means(w) ==> match (
                    r,
                    coded(w, Scope::Names(crate::graph::parse::texts(names@)), old(self).states@, src@, what@),
                ) {
                    (Ok(p), Ok((ops, states))) => p.ops@ == ops && final(self).states@ == states,
                    (Err(e), Err(text)) => e.0@ == text,
                    _ => false,
                },
    {
        reveal(coded);
        let table = NameTable::Of(names);
        proof {
            let w = choose|w: Sense| host.means(w);
            assert(reads(*host.number, w.g));
        }
        let ghost before = *self;
        let read = compile(src.as_str(), table, &mut self.states, host.number, host.fpu);
        proof {
            assert forall|i: int| 0 <= i < self.programs@.len() implies crate::graph::expr::runs(
                (#[trigger] self.programs@[i]).ops@,
                names@.len(),
                self.states@.len(),
            ) by {
                lemma_runs_more(self.programs@[i].ops@, names@.len(), before.states@.len(), self.states@.len());
            }
        }
        match read {
            Ok(p) => Ok(p),
            Err(e) => {
                let head = plus(plus(what, ": "), e.message(host.show).as_str());
                Err(ModelError(plus(plus(plus(head, " in \""), src.as_str()), "\"")))
            },
        }
    }

    /// Bind an argument; `what` says for a message where it stands.
    pub fn bind<F: Fn(Prim, Single, Single) -> Single, N: Fn(&String) -> Single, S: Fn(&String) -> String>(
        &mut self,
        host: &Host<'_, F, N, S>,
        names: &Vec<String>,
        arg: &Arg,
        what: String,
    ) -> (r: Result<Binding, ModelError>)
        requires
            host.ok(),
            names@.len() <= 0x1_0000,
            old(self).wf(names@.len()),
        ensures
            final(self).wf(names@.len()),
            final(self).programs@.len() >= old(self).programs@.len(),
            r matches Ok(b) ==> b.wf(final(self).programs@.len()),
            forall|w: Sense| #[trigger]
                host.means(w) ==> match (
                    r,
                    bound(w, Scope::Names(crate::graph::parse::texts(names@)), old(self)@, *arg, what@),
                ) {
                    (Ok(b), Ok((c, made))) => b == c && final(self)@ == made,
                    (Err(e), Err(text)) => e.0@ == text,
                    _ => false,
                },
    {
        reveal(bound);
        match arg {
            Arg::Num(n) => Ok(Binding::Const(n.value.narrow())),
            Arg::List(_) => Err(ModelError(plus(what, ": expected a number or a formula, got a list"))),
            Arg::Text(src) => {
                let p = match self.program(host, names, src, what) {
                    Ok(p) => p,
                    Err(e) => return Err(e),
                };
                match p.as_const() {
                    Some(c) => Ok(Binding::Const(c)),
                    None => {
                        let ghost before = codes(self.programs@);
                        let ghost ops = p.ops@;
                        proof {
                            if ops.len() == 1 && ops[0] is Const {
                                assert(ops =~= seq![Op::Const(ops[0]->Const_0)]);
                            }
                        }
                        self.programs.push(p);
                        assert(codes(self.programs@) =~= before.push(ops));
                        Ok(Binding::Prog(self.programs.len() - 1))
                    },
                }
            },
        }
    }
}

/// How messages refer to a node.
#[verifier::opaque]
pub open spec fn who(n: NodeSpec) -> Seq<char> {
    "node '"@ + n.id@ + "' ("@ + n.kind@ + ")"@
}

fn who_text(n: &NodeSpec) -> (r: String)
    ensures
        r@ == who(*n),
{
    reveal(who);
    plus(plus(plus(plus(owned("node '"), n.id.as_str()), "' ("), n.kind.as_str()), ")")
}

/// The argument with a name.
pub open spec fn arg_of(n: NodeSpec, key: Seq<char>) -> Option<Arg> {
    match crate::graph::grammar::first_of(
        crate::graph::spec::keys(crate::graph::spec::args_of(&n.args)),
        key,
    ) {
        Some(i) => Some(crate::graph::spec::args_of(&n.args)[i].1),
        None => None,
    }
}

/// Message for the first argument of a list that the node type does not know.
pub open spec fn stray(t: NodeType, entries: Seq<(Seq<char>, Arg)>, who: Seq<char>, i: int) -> Option<Seq<char>>
    decreases entries.len() - i,
{
    if !(0 <= i < entries.len()) {
        None
    } else if !t.arguments().contains(entries[i].0) {
        Some(
            who + ": unknown argument '"@ + entries[i].0 + "'. Valid: "@ + (if t.arguments().len() == 0 {
                "(none)"@
            } else {
                crate::graph::library::listed(t.arguments())
            }),
        )
    } else {
        stray(t, entries, who, i + 1)
    }
}

fn contains_name(list: &Vec<&'static str>, name: &str) -> (r: bool)
    ensures
        r == crate::graph::library::names(list@).contains(name@),
{
    let mut i: usize = 0;
    while i < list.len()
        invariant
            i <= list@.len(),
            forall|k: int| 0 <= k < i ==> (#[trigger] crate::graph::library::names(list@)[k]) != name@,
        decreases list@.len() - i,
    {
        if equal(list[i], name) {
            assert(crate::graph::library::names(list@)[i as int] == name@);
            return true;
        }
        i = i + 1;
    }
    false
}

fn check_args(t: NodeType, n: &NodeSpec) -> (r: Option<String>)
    ensures
        match r {
            Some(text) => stray(t, crate::graph::spec::args_of(&n.args), who(*n), 0) == Some(text@),
            None => stray(t, crate::graph::spec::args_of(&n.args), who(*n), 0) is None,
        },
{
    let valid = t.argument_names();
    let count = args_len(&n.args);
    let mut i: usize = 0;
    while i < count
        invariant
            i <= count,
            count == crate::graph::spec::args_of(&n.args).len(),
            crate::graph::library::names(valid@) == t.arguments(),
            stray(t, crate::graph::spec::args_of(&n.args), who(*n), 0) == stray(
                t,
                crate::graph::spec::args_of(&n.args),
                who(*n),
                i as int,
            ),
        decreases count - i,
    {
        let (key, _) = args_at(&n.args, i);
        if !contains_name(&valid, key.as_str()) {
            let head = plus(plus(plus(who_text(n), ": unknown argument '"), key.as_str()), "'. Valid: ");
            return Some(
                if valid.len() == 0 {
                    plus(head, "(none)")
                } else {
                    plus(head, list_text(&valid).as_str())
                },
            );
        }
        i = i + 1;
    }
    None
}

/// The bindings of a node type's arguments from the `i`th on, and what has been made then.
pub open spec fn bound_all(w: Sense, scope: Scope, made: Made, t: NodeType, n: NodeSpec, list: Seq<Binding>) -> Result<
    (Seq<Binding>, Made),
    Seq<char>,
>
    decreases t.takes().len() - list.len(),
{
    let i = list.len() as int;
    if i >= t.takes().len() {
        Ok((list, made))
    } else {
        let (name, default) = t.takes()[i];
        match arg_of(n, name) {
            Some(arg) => match bound(w, scope, made, arg, who(n) + " "@ + name) {
                Ok((b, more)) => bound_all(w, scope, more, t, n, list.push(b)),
                Err(text) => Err(text),
            },
            None => match default {
                Some(v) => bound_all(w, scope, made, t, n, list.push(Binding::Const(v))),
                None => Err(who(n) + ": missing required '"@ + name + "'"@),
            },
        }
    }
}

fn bind_params<F: Fn(Prim, Single, Single) -> Single, N: Fn(&String) -> Single, S: Fn(&String) -> String>(
    host: &Host<'_, F, N, S>,
    names: &Vec<String>,
    ctx: &mut Ctx,
    t: NodeType,
    n: &NodeSpec,
) -> (r: Result<Vec<Binding>, ModelError>)
    requires
        host.ok(),
        names@.len() <= 0x1_0000,
        old(ctx).wf(names@.len()),
    ensures
        final(ctx).wf(names@.len()),
        final(ctx).programs@.len() >= old(ctx).programs@.len(),
        r matches Ok(list) ==> list@.len() == t.takes().len() && forall|i: int|
            0 <= i < list@.len() ==> (#[trigger] list@[i]).wf(final(ctx).programs@.len()),
        forall|w: Sense| #[trigger]
            host.means(w) ==> match (
                r,
                bound_all(w, Scope::Names(crate::graph::parse::texts(names@)), old(ctx)@, t, *n, seq![]),
            ) {
                (Ok(list), Ok((found, made))) => list@ == found && final(ctx)@ == made,
                (Err(e), Err(text)) => e.0@ == text,
                _ => false,
            },
{
    let params = t.params();
    let mut list: Vec<Binding> = Vec::new();
    let ghost scope = Scope::Names(crate::graph::parse::texts(names@));
    assert(list@ =~= seq![]);
    while list.len() < params.len()
        invariant
            host.ok(),
            names@.len() <= 0x1_0000,
            ctx.wf(names@.len()),
            ctx.programs@.len() >= old(ctx).programs@.len(),
            crate::graph::library::infos(params@) == t.takes(),
            list@.len() <= params@.len() == t.takes().len(),
            scope == Scope::Names(crate::graph::parse::texts(names@)),
            forall|i: int| 0 <= i < list@.len() ==> (#[trigger] list@[i]).wf(ctx.programs@.len()),
            forall|w: Sense| #[trigger]
                host.means(w) ==> bound_all(w, scope, old(ctx)@, t, *n, seq![]) == bound_all(w, scope, ctx@, t, *n, list@),
        decreases params@.len() - list@.len(),
    {
        let info = params[list.len()];
        assert(t.takes()[list@.len() as int] == crate::graph::library::infos(params@)[list@.len() as int]);
        let b = match args_get(&n.args, info.name) {
            Some(arg) => {
                let what = plus(plus(who_text(n), " "), info.name);
                match ctx.bind(host, names, arg, what) {
                    Ok(b) => b,
                    Err(e) => return Err(e),
                }
            },
            None => match info.default {
                Some(v) => Binding::Const(v),
                None => {
                    return Err(
                        ModelError(plus(plus(plus(who_text(n), ": missing required '"), info.name), "'")),
                    );
                },
            },
        };
        list.push(b);
    }
    Ok(list)
}

/// What a node is made of besides its arguments.
#[derive(Debug)]
pub enum Design {
    Noise(Color),
    Osc(Waveform),
    Dust,
    Dc,
    Svf(FilterMode),
    OnePole { high: bool },
    Comb { max_ms: Single, echo: bool },
    Resonators { freqs: Vec<Single>, random: bool, spread: Single },
    Decay,
    Drive,
    Crush,
    Gain,
    Mix,
    Mul,
    Reverb,
    Limiter,
}

/// What a [`Design`] says.
pub enum Plan {
    Noise(Color),
    Osc(Waveform),
    Dust,
    Dc,
    Svf(FilterMode),
    OnePole { high: bool },
    Comb { max_ms: Single, echo: bool },
    Resonators { freqs: Seq<Single>, random: bool, spread: Single },
    Decay,
    Drive,
    Crush,
    Gain,
    Mix,
    Mul,
    Reverb,
    Limiter,
}

impl View for Design {
    type V = Plan;

    open spec fn view(&self) -> Plan {
        match *self {
            Design::Noise(c) => Plan::Noise(c),
            Design::Osc(w) => Plan::Osc(w),
            Design::Dust => Plan::Dust,
            Design::Dc => Plan::Dc,
            Design::Svf(m) => Plan::Svf(m),
            Design::OnePole { high } => Plan::OnePole { high },
            Design::Comb { max_ms, echo } => Plan::Comb { max_ms, echo },
            Design::Resonators { freqs, random, spread } => Plan::Resonators { freqs: freqs@, random, spread },
            Design::Decay => Plan::Decay,
            Design::Drive => Plan::Drive,
            Design::Crush => Plan::Crush,
            Design::Gain => Plan::Gain,
            Design::Mix => Plan::Mix,
            Design::Mul => Plan::Mul,
            Design::Reverb => Plan::Reverb,
            Design::Limiter => Plan::Limiter,
        }
    }
}

/// Colors of noise.
#[derive(Clone, Copy, Debug, PartialEq, Eq, Structural)]
pub enum Color {
    White,
    Pink,
    Brown,
}

/// The color with a name, in lower case.
pub open spec fn color(name: Seq<char>) -> Option<Color> {
    if name == "white"@ {
        Some(Color::White)
    } else if name == "pink"@ {
        Some(Color::Pink)
    } else if name == "brown"@ || name == "red"@ {
        Some(Color::Brown)
    } else {
        None
    }
}

pub fn parse_color(name: &str) -> (r: Option<Color>)
    ensures
        r == color(name@),
{
    if equal(name, "white") {
        Some(Color::White)
    } else if equal(name, "pink") {
        Some(Color::Pink)
    } else if equal(name, "brown") || equal(name, "red") {
        Some(Color::Brown)
    } else {
        None
    }
}

/// The filter mode with a name, in lower case.
pub open spec fn mode(name: Seq<char>) -> Option<FilterMode> {
    if name == "lowpass"@ || name == "lp"@ {
        Some(FilterMode::LowPass)
    } else if name == "highpass"@ || name == "hp"@ {
        Some(FilterMode::HighPass)
    } else if name == "bandpass"@ || name == "bp"@ {
        Some(FilterMode::BandPass)
    } else if name == "notch"@ {
        Some(FilterMode::Notch)
    } else {
        None
    }
}

pub fn parse_mode(name: &str) -> (r: Option<FilterMode>)
    ensures
        r == mode(name@),
{
    if equal(name, "lowpass") || equal(name, "lp") {
        Some(FilterMode::LowPass)
    } else if equal(name, "highpass") || equal(name, "hp") {
        Some(FilterMode::HighPass)
    } else if equal(name, "bandpass") || equal(name, "bp") {
        Some(FilterMode::BandPass)
    } else if equal(name, "notch") {
        Some(FilterMode::Notch)
    } else {
        None
    }
}

/// Whether a route, in lower case, is the random one.
pub open spec fn route(name: Seq<char>) -> Option<bool> {
    if name == "all"@ {
        Some(false)
    } else if name == "random"@ {
        Some(true)
    } else {
        None
    }
}

pub fn parse_route(name: &str) -> (r: Option<bool>)
    ensures
        r == route(name@),
{
    if equal(name, "all") {
        Some(false)
    } else if equal(name, "random") {
        Some(true)
    } else {
        None
    }
}

/// A word given as an argument, in lower case, or its default.
#[verifier::opaque]
pub open spec fn word(n: NodeSpec, key: Seq<char>, default: Seq<char>) -> Result<Seq<char>, Seq<char>> {
    match arg_of(n, key) {
        None => Ok(default),
        Some(Arg::Text(t)) => Ok(crate::graph::spec::lowercase_of(t@)),
        Some(_) => Err(who(n) + ": '"@ + key + "' must be a string"@),
    }
}

fn word_text(n: &NodeSpec, key: &str, default: &str) -> (r: Result<String, ModelError>)
    ensures
        match (r, word(*n, key@, default@)) {
            (Ok(s), Ok(t)) => s@ == t,
            (Err(e), Err(t)) => e.0@ == t,
            _ => false,
        },
{
    reveal(word);
    match args_get(&n.args, key) {
        None => Ok(owned(default)),
        Some(Arg::Text(t)) => Ok(lowercase(t.as_str())),
        Some(_) => Err(ModelError(plus(plus(plus(who_text(n), ": '"), key), "' must be a string"))),
    }
}

/// Message for a word that means nothing.
#[verifier::opaque]
pub open spec fn unknown(n: NodeSpec, what: Seq<char>, word: Seq<char>, known: Seq<char>) -> Seq<char> {
    who(n) + ": unknown "@ + what + " '"@ + word + "' ("@ + known + ")"@
}

fn unknown_text(n: &NodeSpec, what: &str, word: &str, known: &str) -> (r: ModelError)
    ensures
        r.0@ == unknown(*n, what@, word@, known@),
{
    reveal(unknown);
    let head = plus(plus(plus(who_text(n), ": unknown "), what), " '");
    ModelError(plus(plus(plus(plus(head, word), "' ("), known), ")"))
}

/// The longest delay of a comb or delay node.
#[verifier::opaque]
pub open spec fn longest(n: NodeSpec, echo: bool) -> Result<Single, Seq<char>> {
    match arg_of(n, "max_ms"@) {
        None => Ok(
            if echo {
                Single::of(DELAY_MS)
            } else {
                Single::of(COMB_MS)
            },
        ),
        Some(Arg::Num(v)) if Double::of(ZERO_64).below(v.value) && v.value.at_most(Double::of(LONGEST_MS)) => Ok(
            v.value.single(),
        ),
        Some(_) => Err(who(n) + ": max_ms must be a number up to 2000"@),
    }
}

fn longest_single(n: &NodeSpec, echo: bool) -> (r: Result<Single, ModelError>)
    ensures
        match (r, longest(*n, echo)) {
            (Ok(s), Ok(t)) => s == t,
            (Err(e), Err(t)) => e.0@ == t,
            _ => false,
        },
{
    reveal(longest);
    match args_get(&n.args, "max_ms") {
        None => {
            return Ok(Single::of(if echo { DELAY_MS } else { COMB_MS }));
        },
        Some(Arg::Num(v)) => {
            if Double::of(ZERO_64).lt(v.value) && v.value.le(Double::of(LONGEST_MS)) {
                return Ok(v.value.narrow());
            }
        },
        Some(_) => {},
    }
    Err(ModelError(plus(who_text(n), ": max_ms must be a number up to 2000")))
}

/// A list of 1 to 32 positive numbers.
pub open spec fn tunable(list: Seq<Double>) -> bool {
    1 <= list.len() <= MAX_RESONATORS && forall|i: int|
        0 <= i < list.len() ==> Double::of(ZERO_64).below(#[trigger] list[i])
}

pub open spec fn singles(list: Seq<Double>) -> Seq<Single> {
    Seq::new(list.len(), |i: int| list[i].single())
}

/// The frequencies of a bank of resonators.
#[verifier::opaque]
pub open spec fn tuning(n: NodeSpec) -> Result<Seq<Single>, Seq<char>> {
    match arg_of(n, "freqs"@) {
        Some(Arg::List(list)) if tunable(list@) => Ok(singles(list@)),
        _ => Err(who(n) + ": needs freqs = [..] with 1 to 32 positive numbers"@),
    }
}

fn tuning_list(n: &NodeSpec) -> (r: Result<Vec<Single>, ModelError>)
    ensures
        match (r, tuning(*n)) {
            (Ok(s), Ok(t)) => s@ == t && 1 <= s@.len() <= MAX_RESONATORS,
            (Err(e), Err(t)) => e.0@ == t,
            _ => false,
        },
{
    reveal(tuning);
    if let Some(Arg::List(list)) = args_get(&n.args, "freqs") {
        if 1 <= list.len() && list.len() <= MAX_RESONATORS {
            let mut r: Vec<Single> = Vec::new();
            let mut i: usize = 0;
            let mut good = true;
            while i < list.len()
                invariant
                    i <= list@.len(),
                    good ==> r@ == singles(list@).take(i as int),
                    good == (forall|k: int| 0 <= k < i ==> Double::of(ZERO_64).below(#[trigger] list@[k])),
                decreases list@.len() - i,
            {
                if !Double::of(ZERO_64).lt(list[i]) {
                    good = false;
                }
                r.push(list[i].narrow());
                i = i + 1;
                if good {
                    assert(r@ =~= singles(list@).take(i as int));
                }
            }
            if good {
                assert(singles(list@).take(i as int) =~= singles(list@));
                return Ok(r);
            }
        }
    }
    Err(ModelError(plus(who_text(n), ": needs freqs = [..] with 1 to 32 positive numbers")))
}

/// By how many octaves struck resonators are detuned at most.
#[verifier::opaque]
pub open spec fn detuning(n: NodeSpec) -> Result<Single, Seq<char>> {
    match arg_of(n, "spread"@) {
        None => Ok(Single::of(ZERO)),
        Some(Arg::Num(v)) if Double::of(ZERO_64).at_most(v.value) && v.value.at_most(Double::of(WIDEST)) => Ok(
            v.value.single(),
        ),
        Some(_) => Err(who(n) + ": spread must be a number of octaves from 0 to 4"@),
    }
}

fn detuning_single(n: &NodeSpec) -> (r: Result<Single, ModelError>)
    ensures
        match (r, detuning(*n)) {
            (Ok(s), Ok(t)) => s == t,
            (Err(e), Err(t)) => e.0@ == t,
            _ => false,
        },
{
    reveal(detuning);
    match args_get(&n.args, "spread") {
        None => {
            return Ok(Single::of(ZERO));
        },
        Some(Arg::Num(v)) => {
            if Double::of(ZERO_64).le(v.value) && v.value.le(Double::of(WIDEST)) {
                return Ok(v.value.narrow());
            }
        },
        Some(_) => {},
    }
    Err(ModelError(plus(who_text(n), ": spread must be a number of octaves from 0 to 4")))
}

pub open spec fn planned_noise(n: NodeSpec) -> Result<Plan, Seq<char>> {
    match word(n, "color"@, "white"@) {
        Err(text) => Err(text),
        Ok(name) => match color(name) {
            Some(c) => Ok(Plan::Noise(c)),
            None => Err(unknown(n, "color"@, name, "white, pink, brown"@)),
        },
    }
}

pub open spec fn planned_filter(n: NodeSpec) -> Result<Plan, Seq<char>> {
    match word(n, "mode"@, "lowpass"@) {
        Err(text) => Err(text),
        Ok(name) => match mode(name) {
            Some(m) => Ok(Plan::Svf(m)),
            None => Err(unknown(n, "mode"@, name, "lowpass, highpass, bandpass, notch"@)),
        },
    }
}

pub open spec fn planned_bank(n: NodeSpec) -> Result<Plan, Seq<char>> {
    match tuning(n) {
        Err(text) => Err(text),
        Ok(freqs) => match word(n, "route"@, "all"@) {
            Err(text) => Err(text),
            Ok(name) => match route(name) {
                None => Err(unknown(n, "route"@, name, "all, random"@)),
                Some(random) => match detuning(n) {
                    Err(text) => Err(text),
                    Ok(spread) => Ok(Plan::Resonators { freqs, random, spread }),
                },
            },
        },
    }
}

fn design_noise(n: &NodeSpec) -> (r: Result<Design, ModelError>)
    ensures
        match (r, planned_noise(*n)) {
            (Ok(d), Ok(p)) => d@ == p && d.wf(),
            (Err(e), Err(text)) => e.0@ == text,
            _ => false,
        },
{
    let name = match word_text(n, "color", "white") {
        Ok(name) => name,
        Err(e) => return Err(e),
    };
    match parse_color(name.as_str()) {
        Some(c) => Ok(Design::Noise(c)),
        None => Err(unknown_text(n, "color", name.as_str(), "white, pink, brown")),
    }
}

fn design_filter(n: &NodeSpec) -> (r: Result<Design, ModelError>)
    ensures
        match (r, planned_filter(*n)) {
            (Ok(d), Ok(p)) => d@ == p && d.wf(),
            (Err(e), Err(text)) => e.0@ == text,
            _ => false,
        },
{
    let name = match word_text(n, "mode", "lowpass") {
        Ok(name) => name,
        Err(e) => return Err(e),
    };
    match parse_mode(name.as_str()) {
        Some(m) => Ok(Design::Svf(m)),
        None => Err(unknown_text(n, "mode", name.as_str(), "lowpass, highpass, bandpass, notch")),
    }
}

fn design_bank(n: &NodeSpec) -> (r: Result<Design, ModelError>)
    ensures
        match (r, planned_bank(*n)) {
            (Ok(d), Ok(p)) => d@ == p && d.wf(),
            (Err(e), Err(text)) => e.0@ == text,
            _ => false,
        },
{
    let freqs = match tuning_list(n) {
        Ok(freqs) => freqs,
        Err(e) => return Err(e),
    };
    let name = match word_text(n, "route", "all") {
        Ok(name) => name,
        Err(e) => return Err(e),
    };
    let random = match parse_route(name.as_str()) {
        Some(random) => random,
        None => return Err(unknown_text(n, "route", name.as_str(), "all, random")),
    };
    match detuning_single(n) {
        Ok(spread) => Ok(Design::Resonators { freqs, random, spread }),
        Err(e) => Err(e),
    }
}

/// What the fixed arguments of a node make it.
#[verifier::opaque]
pub open spec fn planned(t: NodeType, n: NodeSpec) -> Result<Plan, Seq<char>> {
    match t {
        NodeType::Noise => planned_noise(n),
        NodeType::Sine => Ok(Plan::Osc(Waveform::Sine)),
        NodeType::Saw => Ok(Plan::Osc(Waveform::Saw)),
        NodeType::Tri => Ok(Plan::Osc(Waveform::Triangle)),
        NodeType::Pulse => Ok(Plan::Osc(Waveform::Pulse)),
        NodeType::Dust => Ok(Plan::Dust),
        NodeType::Dc => Ok(Plan::Dc),
        NodeType::Svf => planned_filter(n),
        NodeType::Lowpass => Ok(Plan::OnePole { high: false }),
        NodeType::Highpass => Ok(Plan::OnePole { high: true }),
        NodeType::Comb | NodeType::Delay => match longest(n, t == NodeType::Delay) {
            Ok(max_ms) => Ok(Plan::Comb { max_ms, echo: t == NodeType::Delay }),
            Err(text) => Err(text),
        },
        NodeType::Resonators => planned_bank(n),
        NodeType::Decay => Ok(Plan::Decay),
        NodeType::Drive => Ok(Plan::Drive),
        NodeType::Crush => Ok(Plan::Crush),
        NodeType::Gain => Ok(Plan::Gain),
        NodeType::Mix => Ok(Plan::Mix),
        NodeType::Mul => Ok(Plan::Mul),
        NodeType::Reverb => Ok(Plan::Reverb),
        NodeType::Limiter => Ok(Plan::Limiter),
    }
}

fn design(t: NodeType, n: &NodeSpec) -> (r: Result<Design, ModelError>)
    ensures
        match (r, planned(t, *n)) {
            (Ok(d), Ok(p)) => d@ == p && d.wf() && arity(p) == t.takes().len() + widths(t),
            (Err(e), Err(text)) => e.0@ == text,
            _ => false,
        },
{
    reveal(planned);
    match t {
        NodeType::Noise => design_noise(n),
        NodeType::Sine => Ok(Design::Osc(Waveform::Sine)),
        NodeType::Saw => Ok(Design::Osc(Waveform::Saw)),
        NodeType::Tri => Ok(Design::Osc(Waveform::Triangle)),
        NodeType::Pulse => Ok(Design::Osc(Waveform::Pulse)),
        NodeType::Dust => Ok(Design::Dust),
        NodeType::Dc => Ok(Design::Dc),
        NodeType::Svf => design_filter(n),
        NodeType::Lowpass => Ok(Design::OnePole { high: false }),
        NodeType::Highpass => Ok(Design::OnePole { high: true }),
        NodeType::Comb | NodeType::Delay => {
            let echo = t == NodeType::Delay;
            match longest_single(n, echo) {
                Ok(max_ms) => Ok(Design::Comb { max_ms, echo }),
                Err(e) => Err(e),
            }
        },
        NodeType::Resonators => design_bank(n),
        NodeType::Decay => Ok(Design::Decay),
        NodeType::Drive => Ok(Design::Drive),
        NodeType::Crush => Ok(Design::Crush),
        NodeType::Gain => Ok(Design::Gain),
        NodeType::Mix => Ok(Design::Mix),
        NodeType::Mul => Ok(Design::Mul),
        NodeType::Reverb => Ok(Design::Reverb),
        NodeType::Limiter => Ok(Design::Limiter),
    }
}

impl Design {
    pub open spec fn wf(self) -> bool {
        self@ matches Plan::Resonators { freqs, .. } ==> 1 <= freqs.len() <= MAX_RESONATORS
    }
}

/// A node without its inputs: what it is made of, and its arguments.
pub struct Body {
    pub design: Design,
    pub params: Vec<Binding>,
}

/// What is wrong with the number of a node's inputs.
#[verifier::opaque]
pub open spec fn misfed(t: NodeType, n: NodeSpec) -> Option<Seq<char>> {
    if t.source() && n.inputs@.len() > 0 {
        Some(who(n) + ": is a source and takes no `in`"@)
    } else if !t.source() && n.inputs@.len() == 0 {
        Some(who(n) + ": needs at least one input (`in = [...]`)"@)
    } else if (t == NodeType::Mul) == (n.by@.len() == 0) {
        Some(
            who(n) + ": "@ + (if t == NodeType::Mul {
                "needs `by = [...]` as its second factor"@
            } else {
                "`by` is only used by mul"@
            }),
        )
    } else {
        None
    }
}

fn check_inputs(t: NodeType, n: &NodeSpec) -> (r: Option<String>)
    ensures
        match r {
            Some(text) => misfed(t, *n) == Some(text@),
            None => misfed(t, *n) is None,
        },
{
    reveal(misfed);
    if t.is_source() && n.inputs.len() > 0 {
        return Some(plus(who_text(n), ": is a source and takes no `in`"));
    }
    if !t.is_source() && n.inputs.len() == 0 {
        return Some(plus(who_text(n), ": needs at least one input (`in = [...]`)"));
    }
    if (t == NodeType::Mul) == (n.by.len() == 0) {
        let problem = if t == NodeType::Mul {
            "needs `by = [...]` as its second factor"
        } else {
            "`by` is only used by mul"
        };
        return Some(plus(plus(who_text(n), ": "), problem));
    }
    None
}

/// The type a node names.
pub open spec fn type_of(n: NodeSpec) -> Option<NodeType> {
    if exists|t: NodeType| t.label() == n.kind@ {
        Some(choose|t: NodeType| t.label() == n.kind@)
    } else {
        None
    }
}

/// The bindings and the plan of a node, and what has been made then; or why there is no such node.
#[verifier::opaque]
pub open spec fn built(w: Sense, scope: Scope, made: Made, n: NodeSpec) -> Result<(Plan, Seq<Binding>, Made), Seq<char>> {
    match type_of(n) {
        None => Err(
            "node '"@ + n.id@ + "': unknown type '"@ + n.kind@ + "'. Available: "@ + crate::graph::library::listed(
                crate::graph::library::type_names(),
            ),
        ),
        Some(t) => match stray(t, crate::graph::spec::args_of(&n.args), who(n), 0) {
            Some(text) => Err(text),
            None => match misfed(t, n) {
                Some(text) => Err(text),
                None => match bound_all(w, scope, made, t, n, seq![]) {
                    Err(text) => Err(text),
                    Ok((params, more)) => match planned(t, n) {
                        Err(text) => Err(text),
                        Ok(plan) => Ok(
                            (
                                plan,
                                if t == NodeType::Sine || t == NodeType::Saw || t == NodeType::Tri {
                                    params.push(Binding::Const(Single::of(HALF)))
                                } else {
                                    params
                                },
                                more,
                            ),
                        ),
                    },
                },
            },
        },
    }
}

/// Read the arguments of a node. An oscillator without a width gets one.
pub fn build_node<F: Fn(Prim, Single, Single) -> Single, N: Fn(&String) -> Single, S: Fn(&String) -> String>(
    host: &Host<'_, F, N, S>,
    names: &Vec<String>,
    ctx: &mut Ctx,
    n: &NodeSpec,
) -> (r: Result<Body, ModelError>)
    requires
        host.ok(),
        names@.len() <= 0x1_0000,
        old(ctx).wf(names@.len()),
    ensures
        final(ctx).wf(names@.len()),
        final(ctx).programs@.len() >= old(ctx).programs@.len(),
        r matches Ok(b) ==> b.wf(final(ctx).programs@.len()),
        forall|w: Sense| #[trigger]
            host.means(w) ==> match (
                r,
                built(w, Scope::Names(crate::graph::parse::texts(names@)), old(ctx)@, *n),
            ) {
                (Ok(b), Ok((plan, params, made))) => b.design@ == plan && b.params@ == params && final(ctx)@ == made,
                (Err(e), Err(text)) => e.0@ == text,
                _ => false,
            },
{
    reveal(built);
    let t = match NodeType::find(n.kind.as_str()) {
        Some(t) => t,
        None => {
            let head = plus(plus(plus(owned("node '"), n.id.as_str()), "': unknown type '"), n.kind.as_str());
            return Err(ModelError(plus(plus(head, "'. Available: "), type_list().as_str())));
        },
    };
    proof {
        let u = choose|u: NodeType| u.label() == n.kind@;
        crate::graph::library::lemma_types_differ(t, u);
        assert(type_of(*n) == Some(t));
    }
    if let Some(text) = check_args(t, n) {
        return Err(ModelError(text));
    }
    if let Some(text) = check_inputs(t, n) {
        return Err(ModelError(text));
    }
    let mut params = match bind_params(host, names, ctx, t, n) {
        Ok(params) => params,
        Err(e) => return Err(e),
    };
    let design = match design(t, n) {
        Ok(design) => design,
        Err(e) => return Err(e),
    };
    if t == NodeType::Sine || t == NodeType::Saw || t == NodeType::Tri {
        params.push(Binding::Const(Single::of(HALF)));
    }
    Ok(Body { design, params })
}

impl Body {
    /// Arguments that can be worked out, as many as a node of its kind reads.
    pub open spec fn wf(self, programs: nat) -> bool {
        &&& self.design.wf()
        &&& self.params@.len() == arity(self.design@)
        &&& forall|i: int| 0 <= i < self.params@.len() ==> (#[trigger] self.params@[i]).wf(programs)
    }
}

/// Arguments an oscillator gets besides those it is given.
pub open spec fn widths(t: NodeType) -> nat {
    if t == NodeType::Sine || t == NodeType::Saw || t == NodeType::Tri {
        1
    } else {
        0
    }
}

/// Number of arguments a node reads.
pub open spec fn arity(plan: Plan) -> nat {
    match plan {
        Plan::Noise(_) | Plan::Mix | Plan::Mul | Plan::Limiter => 0,
        Plan::Dust | Plan::Dc | Plan::OnePole { .. } | Plan::Decay | Plan::Drive | Plan::Gain => 1,
        Plan::Osc(_) | Plan::Svf(_) | Plan::Resonators { .. } | Plan::Crush => 2,
        Plan::Comb { .. } | Plan::Reverb => 3,
    }
}

} // verus!
