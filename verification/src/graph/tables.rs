//! Names, parameters, presets and inputs of a model file.
use indexmap::IndexMap;
use vstd::prelude::*;

use crate::graph::grammar::first_of;
use crate::graph::parse::position;
use crate::graph::spec::{
    args_at, args_len, inputs_at, inputs_len, overrides_at, overrides_len, params_at, params_index, params_len,
    presets_at, presets_len, Arg, InputSpecFile, ModelError, ParamSpecFile,
};
use crate::model::{InputDesc, PresetDesc};
use crate::params::{ParamDesc, ParamKind};
use crate::single::{Single, ONE, ZERO};
use crate::text::{chars_of, digit, equal, letter, owned, plus};

verus! {

/// Pattern of 0.001.
pub const P0_001: u32 = 0x3a83_126f;

/// Pattern of 0.05.
pub const P0_05: u32 = 0x3d4c_cccd;

/// Pattern of 10.
pub const P10: u32 = 0x4120_0000;

/// Words that formulas use for themselves.
pub open spec fn reserved() -> Seq<Seq<char>> {
    seq![
        "sr"@,
        "t"@,
        "rnd"@,
        "pi"@,
        "tau"@,
        "abs"@,
        "sqrt"@,
        "exp"@,
        "exp2"@,
        "ln"@,
        "sin"@,
        "cos"@,
        "floor"@,
        "db"@,
        "midi"@,
        "min"@,
        "max"@,
        "pow"@,
        "clamp"@,
        "lerp"@,
        "select"@,
        "smoothstep"@,
        "slew"@,
        "lag"@,
        "noise"@,
        "sh"@,
        "lfo"@,
        "ramp"@,
    ]
}

/// Names must be identifiers.
pub open spec fn identifier(name: Seq<char>) -> bool {
    name.len() > 0 && crate::text::starts_name(name[0]) && forall|i: int|
        0 <= i < name.len() ==> crate::text::continues_name(#[trigger] name[i])
}

/// What is wrong with a name of a section.
pub open spec fn name_fault(section: Seq<char>, name: Seq<char>) -> Option<Seq<char>> {
    if !identifier(name) {
        Some(
            "["@ + section + "] '"@ + name
                + "': names must be identifiers (letters, digits, _) so formulas can use them"@,
        )
    } else if reserved().contains(name) {
        Some("["@ + section + "] '"@ + name + "' is a reserved word"@)
    } else {
        None
    }
}

fn is_identifier(name: &str) -> (r: bool)
    ensures
        r == identifier(name@),
{
    let chars = chars_of(name);
    if chars.len() == 0 || !(letter(chars[0]) || chars[0] == '_') {
        return false;
    }
    let mut i: usize = 0;
    while i < chars.len()
        invariant
            i <= chars@.len(),
            chars@ == name@,
            forall|k: int| 0 <= k < i ==> crate::text::continues_name(#[trigger] chars@[k]),
        decreases chars@.len() - i,
    {
        if !(letter(chars[i]) || digit(chars[i]) || chars[i] == '_') {
            assert(!crate::text::continues_name(chars@[i as int]));
            return false;
        }
        i = i + 1;
    }
    true
}

fn is_reserved(name: &str) -> (r: bool)
    ensures
        r == reserved().contains(name@),
{
    let words: Vec<&'static str> = vec![
        "sr",
        "t",
        "rnd",
        "pi",
        "tau",
        "abs",
        "sqrt",
        "exp",
        "exp2",
        "ln",
        "sin",
        "cos",
        "floor",
        "db",
        "midi",
        "min",
        "max",
        "pow",
        "clamp",
        "lerp",
        "select",
        "smoothstep",
        "slew",
        "lag",
        "noise",
        "sh",
        "lfo",
        "ramp",
    ];
    let mut i: usize = 0;
    while i < words.len()
        invariant
            i <= words@.len() == reserved().len(),
            forall|k: int| 0 <= k < words@.len() ==> (#[trigger] words@[k])@ == reserved()[k],
            forall|k: int| 0 <= k < i ==> (#[trigger] reserved()[k]) != name@,
        decreases words@.len() - i,
    {
        if equal(words[i], name) {
            assert(reserved()[i as int] == name@);
            return true;
        }
        i = i + 1;
    }
    false
}

pub fn check_name(section: &str, name: &str) -> (r: Result<(), ModelError>)
    ensures
        match r {
            Ok(_) => name_fault(section@, name@) is None,
            Err(e) => name_fault(section@, name@) == Some(e.0@),
        },
{
    if !is_identifier(name) {
        let head = plus(plus(plus(plus(owned("["), section), "] '"), name), "'");
        let r = plus(head, ": names must be identifiers (letters, digits, _) so formulas can use them");
        proof {
            reveal_strlit("'");
            reveal_strlit(": names must be identifiers (letters, digits, _) so formulas can use them");
            reveal_strlit("': names must be identifiers (letters, digits, _) so formulas can use them");
            assert("'"@ + ": names must be identifiers (letters, digits, _) so formulas can use them"@
                =~= "': names must be identifiers (letters, digits, _) so formulas can use them"@);
            assert(r@ =~= name_fault(section@, name@).unwrap());
        }
        return Err(ModelError(r));
    }
    if is_reserved(name) {
        let head = plus(plus(plus(owned("["), section), "] '"), name);
        return Err(ModelError(plus(head, "' is a reserved word")));
    }
    Ok(())
}

/// The names in use after those of a section, from the `i`th on, or what is wrong with the first bad one.
pub open spec fn with_names(names: Seq<Seq<char>>, section: Seq<char>, keys: Seq<Seq<char>>, i: int) -> Result<
    Seq<Seq<char>>,
    Seq<char>,
>
    decreases keys.len() - i,
{
    if !(0 <= i < keys.len()) {
        Ok(names)
    } else if let Some(text) = name_fault(section, keys[i]) {
        Err(text)
    } else if names.contains(keys[i]) {
        Err(
            "["@ + section + "] '"@ + keys[i]
                + "' is already defined; inputs, params and signals share one namespace"@,
        )
    } else {
        with_names(names.push(keys[i]), section, keys, i + 1)
    }
}

fn add_names(names: &mut Vec<String>, section: &str, keys: &Vec<String>) -> (r: Result<(), ModelError>)
    ensures
        match (
            r,
            with_names(crate::graph::parse::texts(old(names)@), section@, crate::graph::parse::texts(keys@), 0),
        ) {
            (Ok(_), Ok(all)) => crate::graph::parse::texts(final(names)@) == all && final(names)@.len() == old(names)@.len()
                + keys@.len(),
            (Err(e), Err(text)) => e.0@ == text,
            _ => false,
        },
{
    let ghost words = crate::graph::parse::texts(keys@);
    let mut i: usize = 0;
    while i < keys.len()
        invariant
            i <= keys@.len(),
            words == crate::graph::parse::texts(keys@),
            names@.len() == old(names)@.len() + i,
            with_names(crate::graph::parse::texts(old(names)@), section@, words, 0) == with_names(
                crate::graph::parse::texts(names@),
                section@,
                words,
                i as int,
            ),
        decreases keys@.len() - i,
    {
        assert(words[i as int] == keys@[i as int]@);
        if let Err(e) = check_name(section, keys[i].as_str()) {
            return Err(e);
        }
        if let Some(k) = position(names, keys[i].as_str()) {
            assert(crate::graph::parse::texts(names@)[k as int] == words[i as int]);
            let head = plus(plus(plus(owned("["), section), "] '"), keys[i].as_str());
            return Err(
                ModelError(plus(head, "' is already defined; inputs, params and signals share one namespace")),
            );
        }
        proof {
            if crate::graph::parse::texts(names@).contains(words[i as int]) {
                let k = choose|k: int|
                    0 <= k < crate::graph::parse::texts(names@).len() && crate::graph::parse::texts(names@)[k]
                        == words[i as int];
                assert(names@[k]@ == words[i as int]);
            }
        }
        let ghost before = names@;
        names.push(keys[i].clone());
        assert(crate::graph::parse::texts(names@) =~= crate::graph::parse::texts(before).push(words[i as int]));
        i = i + 1;
    }
    Ok(())
}

pub fn input_keys(m: &IndexMap<String, InputSpecFile>) -> (r: Vec<String>)
    ensures
        crate::graph::parse::texts(r@) == crate::graph::spec::keys(crate::graph::spec::inputs_of(m)),
{
    let count = inputs_len(m);
    let mut r: Vec<String> = Vec::new();
    let mut i: usize = 0;
    let ghost all = crate::graph::spec::keys(crate::graph::spec::inputs_of(m));
    assert(crate::graph::parse::texts(r@) =~= all.take(0));
    while i < count
        invariant
            i <= count == all.len(),
            all == crate::graph::spec::keys(crate::graph::spec::inputs_of(m)),
            crate::graph::parse::texts(r@) == all.take(i as int),
        decreases count - i,
    {
        let (key, _) = inputs_at(m, i);
        let ghost before = r@;
        r.push(key.clone());
        i = i + 1;
        assert(crate::graph::parse::texts(r@) =~= crate::graph::parse::texts(before).push(key@));
        assert(all.take(i as int) =~= all.take(i - 1).push(key@));
    }
    assert(all.take(i as int) =~= all);
    r
}

pub fn param_keys(m: &IndexMap<String, ParamSpecFile>) -> (r: Vec<String>)
    ensures
        crate::graph::parse::texts(r@) == crate::graph::spec::keys(crate::graph::spec::params_of(m)),
{
    let count = params_len(m);
    let mut r: Vec<String> = Vec::new();
    let mut i: usize = 0;
    let ghost all = crate::graph::spec::keys(crate::graph::spec::params_of(m));
    assert(crate::graph::parse::texts(r@) =~= all.take(0));
    while i < count
        invariant
            i <= count == all.len(),
            all == crate::graph::spec::keys(crate::graph::spec::params_of(m)),
            crate::graph::parse::texts(r@) == all.take(i as int),
        decreases count - i,
    {
        let (key, _) = params_at(m, i);
        let ghost before = r@;
        r.push(key.clone());
        i = i + 1;
        assert(crate::graph::parse::texts(r@) =~= crate::graph::parse::texts(before).push(key@));
        assert(all.take(i as int) =~= all.take(i - 1).push(key@));
    }
    assert(all.take(i as int) =~= all);
    r
}

pub fn signal_keys(m: &IndexMap<String, Arg>) -> (r: Vec<String>)
    ensures
        crate::graph::parse::texts(r@) == crate::graph::spec::keys(crate::graph::spec::args_of(m)),
{
    let count = args_len(m);
    let mut r: Vec<String> = Vec::new();
    let mut i: usize = 0;
    let ghost all = crate::graph::spec::keys(crate::graph::spec::args_of(m));
    assert(crate::graph::parse::texts(r@) =~= all.take(0));
    while i < count
        invariant
            i <= count == all.len(),
            all == crate::graph::spec::keys(crate::graph::spec::args_of(m)),
            crate::graph::parse::texts(r@) == all.take(i as int),
        decreases count - i,
    {
        let (key, _) = args_at(m, i);
        let ghost before = r@;
        r.push(key.clone());
        i = i + 1;
        assert(crate::graph::parse::texts(r@) =~= crate::graph::parse::texts(before).push(key@));
        assert(all.take(i as int) =~= all.take(i - 1).push(key@));
    }
    assert(all.take(i as int) =~= all);
    r
}

/// The first slots of the value table: sample rate, seconds since the trigger, random number of the
/// trigger.
pub open spec fn built_in() -> Seq<Seq<char>> {
    seq!["sr"@, "t"@, "rnd"@]
}

/// The names of the value table: what is built in, inputs, params, signals.
pub open spec fn name_table(inputs: Seq<Seq<char>>, params: Seq<Seq<char>>, signals: Seq<Seq<char>>) -> Result<
    Seq<Seq<char>>,
    Seq<char>,
> {
    match with_names(built_in(), "inputs"@, inputs, 0) {
        Err(text) => Err(text),
        Ok(a) => match with_names(a, "params"@, params, 0) {
            Err(text) => Err(text),
            Ok(b) => with_names(b, "signals"@, signals, 0),
        },
    }
}

pub fn build_names(inputs: &Vec<String>, params: &Vec<String>, signals: &Vec<String>) -> (r: Result<Vec<String>, ModelError>)
    ensures
        match (
            r,
            name_table(
                crate::graph::parse::texts(inputs@),
                crate::graph::parse::texts(params@),
                crate::graph::parse::texts(signals@),
            ),
        ) {
            (Ok(names), Ok(all)) => crate::graph::parse::texts(names@) == all && names@.len() == 3 + inputs@.len()
                + params@.len() + signals@.len(),
            (Err(e), Err(text)) => e.0@ == text,
            _ => false,
        },
{
    let mut names: Vec<String> = Vec::new();
    names.push(owned("sr"));
    names.push(owned("t"));
    names.push(owned("rnd"));
    assert(crate::graph::parse::texts(names@) =~= built_in());
    if let Err(e) = add_names(&mut names, "inputs", inputs) {
        return Err(e);
    }
    if let Err(e) = add_names(&mut names, "params", params) {
        return Err(e);
    }
    if let Err(e) = add_names(&mut names, "signals", signals) {
        return Err(e);
    }
    Ok(names)
}

/// Name, range and default of a parameter.
pub struct ParamView {
    pub name: Seq<char>,
    pub kind: ParamKind,
    pub default: Single,
}

impl View for ParamDesc {
    type V = ParamView;

    open spec fn view(&self) -> ParamView {
        ParamView { name: self.name@, kind: self.kind, default: self.default }
    }
}

/// How messages refer to a parameter.
pub open spec fn param_who(key: Seq<char>) -> Seq<char> {
    "[params] '"@ + key + "'"@
}

fn param_who_text(key: &str) -> (r: String)
    ensures
        r@ == param_who(key@),
{
    plus(plus(owned("[params] '"), key), "'")
}

/// A scale by its name.
pub open spec fn is_linear(scale: Seq<char>) -> bool {
    scale == ""@ || scale == "lin"@ || scale == "linear"@
}

pub open spec fn is_exponential(scale: Seq<char>) -> bool {
    scale == "exp"@ || scale == "log"@
}

/// What a parameter of a file is, or what is wrong with it.
#[verifier::opaque]
pub open spec fn param_view(key: Seq<char>, p: ParamSpecFile) -> Result<ParamView, Seq<char>> {
    if !p.min.below(p.max) || !(p.min.at_most(p.default) && p.default.at_most(p.max)) {
        Err(param_who(key) + ": need min < max and default within the range"@)
    } else if !is_linear(p.scale@) && !is_exponential(p.scale@) {
        Err(param_who(key) + ": unknown scale '"@ + p.scale@ + "' (use \"lin\" or \"exp\")"@)
    } else if is_exponential(p.scale@) && !Single::of(ZERO).below(p.min) {
        Err(param_who(key) + ": an exp scale needs min > 0"@)
    } else {
        Ok(
            ParamView {
                name: (if p.group@.len() == 0 {
                    "tuning"@
                } else {
                    p.group@
                }) + "/"@ + key,
                kind: if is_linear(p.scale@) {
                    ParamKind::Float { min: p.min, max: p.max, step: Single::of(P0_001) }
                } else {
                    ParamKind::Exp { min: p.min, max: p.max }
                },
                default: p.default,
            },
        )
    }
}

fn build_param(key: &str, p: &ParamSpecFile) -> (r: Result<ParamDesc, ModelError>)
    ensures
        match (r, param_view(key@, *p)) {
            (Ok(d), Ok(v)) => d@ == v && d.kind.wf(),
            (Err(e), Err(text)) => e.0@ == text,
            _ => false,
        },
{
    reveal(param_view);
    if !p.min.lt(p.max) || !(p.min.le(p.default) && p.default.le(p.max)) {
        return Err(ModelError(plus(param_who_text(key), ": need min < max and default within the range")));
    }
    let scale = p.scale.as_str();
    let linear = equal(scale, "") || equal(scale, "lin") || equal(scale, "linear");
    let exponential = equal(scale, "exp") || equal(scale, "log");
    if !linear && !exponential {
        let head = plus(plus(param_who_text(key), ": unknown scale '"), scale);
        return Err(ModelError(plus(head, "' (use \"lin\" or \"exp\")")));
    }
    if exponential && !Single::of(ZERO).lt(p.min) {
        return Err(ModelError(plus(param_who_text(key), ": an exp scale needs min > 0")));
    }
    let group = if equal(p.group.as_str(), "") {
        "tuning"
    } else {
        p.group.as_str()
    };
    proof {
        reveal_strlit("");
        assert(p.group@.len() == 0 ==> p.group@ =~= ""@);
        reveal_strlit("exp");
        reveal_strlit("log");
        reveal_strlit("lin");
        reveal_strlit("linear");
        assert("lin"@[0] != "exp"@[0] && "lin"@[1] != "log"@[1]);
    }
    let kind = if linear {
        ParamKind::Float { min: p.min, max: p.max, step: Single::of(P0_001) }
    } else {
        ParamKind::Exp { min: p.min, max: p.max }
    };
    Ok(ParamDesc { name: plus(plus(owned(group), "/"), key), kind, default: p.default })
}

/// The parameters of a file from the `i`th on, after those of a list; the first bad one decides.
pub open spec fn param_views(entries: Seq<(Seq<char>, ParamSpecFile)>, done: Seq<ParamView>) -> Result<
    Seq<ParamView>,
    Seq<char>,
>
    decreases entries.len() - done.len(),
{
    let i = done.len() as int;
    if i >= entries.len() {
        Ok(done)
    } else {
        match param_view(entries[i].0, entries[i].1) {
            Ok(v) => param_views(entries, done.push(v)),
            Err(text) => Err(text),
        }
    }
}

/// The views of a list of parameters.
pub open spec fn described(list: Seq<ParamDesc>) -> Seq<ParamView> {
    Seq::new(list.len(), |i: int| list[i]@)
}

pub fn build_params(m: &IndexMap<String, ParamSpecFile>) -> (r: Result<Vec<ParamDesc>, ModelError>)
    ensures
        match (r, param_views(crate::graph::spec::params_of(m), seq![])) {
            (Ok(list), Ok(views)) => described(list@) == views && list@.len() == crate::graph::spec::params_of(m).len()
                && forall|i: int| 0 <= i < list@.len() ==> (#[trigger] list@[i]).kind.wf(),
            (Err(e), Err(text)) => e.0@ == text,
            _ => false,
        },
{
    let count = params_len(m);
    let mut list: Vec<ParamDesc> = Vec::new();
    assert(described(list@) =~= seq![]);
    while list.len() < count
        invariant
            list@.len() <= count == crate::graph::spec::params_of(m).len(),
            param_views(crate::graph::spec::params_of(m), seq![]) == param_views(
                crate::graph::spec::params_of(m),
                described(list@),
            ),
            forall|i: int| 0 <= i < list@.len() ==> (#[trigger] list@[i]).kind.wf(),
        decreases count - list@.len(),
    {
        let (key, p) = params_at(m, list.len());
        let ghost before = list@;
        match build_param(key.as_str(), p) {
            Ok(d) => list.push(d),
            Err(e) => return Err(e),
        }
        assert(described(list@) =~= described(before).push(list@.last()@));
    }
    Ok(list)
}

/// Name and values of a preset.
pub struct PresetView {
    pub name: Seq<char>,
    pub values: Seq<Single>,
}

impl View for PresetDesc {
    type V = PresetView;

    open spec fn view(&self) -> PresetView {
        PresetView { name: self.name@, values: self.values@ }
    }
}

/// The defaults of a list of parameters.
pub open spec fn defaults(params: Seq<ParamView>) -> Seq<Single> {
    Seq::new(params.len(), |i: int| params[i].default)
}

/// Values after the overrides of a preset from the `i`th on.
pub open spec fn overridden(
    keys: Seq<Seq<char>>,
    params: Seq<ParamView>,
    preset: Seq<char>,
    entries: Seq<(Seq<char>, Single)>,
    values: Seq<Single>,
    i: int,
) -> Result<Seq<Single>, Seq<char>>
    decreases entries.len() - i,
{
    if !(0 <= i < entries.len()) {
        Ok(values)
    } else {
        match first_of(keys, entries[i].0) {
            None => Err("[presets."@ + preset + "] unknown param '"@ + entries[i].0 + "'"@),
            Some(k) => overridden(
                keys,
                params,
                preset,
                entries,
                values.update(k, params[k].kind.clamped(entries[i].1)),
                i + 1,
            ),
        }
    }
}

fn override_values(
    m: &IndexMap<String, ParamSpecFile>,
    params: &Vec<ParamDesc>,
    preset: &str,
    entries: &IndexMap<String, Single>,
) -> (r: Result<Vec<Single>, ModelError>)
    requires
        params@.len() == crate::graph::spec::params_of(m).len(),
        forall|i: int| 0 <= i < params@.len() ==> (#[trigger] params@[i]).kind.wf(),
    ensures
        match (
            r,
            overridden(
                crate::graph::spec::keys(crate::graph::spec::params_of(m)),
                described(params@),
                preset@,
                crate::graph::spec::overrides_of(entries),
                defaults(described(params@)),
                0,
            ),
        ) {
            (Ok(values), Ok(found)) => values@ == found && values@.len() == params@.len(),
            (Err(e), Err(text)) => e.0@ == text,
            _ => false,
        },
{
    let ghost keys = crate::graph::spec::keys(crate::graph::spec::params_of(m));
    let ghost views = described(params@);
    let mut values: Vec<Single> = default_values(params);
    let count = overrides_len(entries);
    let mut i: usize = 0;
    while i < count
        invariant
            i <= count == crate::graph::spec::overrides_of(entries).len(),
            keys == crate::graph::spec::keys(crate::graph::spec::params_of(m)),
            views == described(params@),
            params@.len() == crate::graph::spec::params_of(m).len(),
            values@.len() == params@.len(),
            forall|i: int| 0 <= i < params@.len() ==> (#[trigger] params@[i]).kind.wf(),
            overridden(keys, views, preset@, crate::graph::spec::overrides_of(entries), defaults(views), 0) == overridden(
                keys,
                views,
                preset@,
                crate::graph::spec::overrides_of(entries),
                values@,
                i as int,
            ),
        decreases count - i,
    {
        let (key, v) = overrides_at(entries, i);
        match params_index(m, key.as_str()) {
            None => {
                let head = plus(plus(owned("[presets."), preset), "] unknown param '");
                return Err(ModelError(plus(plus(head, key.as_str()), "'")));
            },
            Some(k) => {
                proof {
                    crate::graph::grammar::lemma_first_found(keys, key@);
                    assert(views[k as int] == params@[k as int]@);
                }
                let value = params[k].kind.clamp(*v);
                values.set(k, value);
            },
        }
        i = i + 1;
    }
    Ok(values)
}

fn default_values(params: &Vec<ParamDesc>) -> (r: Vec<Single>)
    ensures
        r@ == defaults(described(params@)),
{
    let mut r: Vec<Single> = Vec::new();
    let mut i: usize = 0;
    while i < params.len()
        invariant
            i <= params@.len(),
            r@ == defaults(described(params@)).take(i as int),
        decreases params@.len() - i,
    {
        r.push(params[i].default);
        i = i + 1;
        assert(r@ =~= defaults(described(params@)).take(i as int));
    }
    assert(defaults(described(params@)).take(i as int) =~= defaults(described(params@)));
    r
}

/// The presets of a file after those of a list: the defaults, then each with its overrides.
pub open spec fn preset_views(
    keys: Seq<Seq<char>>,
    params: Seq<ParamView>,
    entries: Seq<(Seq<char>, Seq<(Seq<char>, Single)>)>,
    done: Seq<PresetView>,
) -> Result<Seq<PresetView>, Seq<char>>
    decreases entries.len() + 1 - done.len(),
{
    let i = done.len() - 1;
    if !(0 <= i < entries.len()) {
        Ok(done)
    } else {
        match overridden(keys, params, entries[i].0, entries[i].1, defaults(params), 0) {
            Ok(values) => preset_views(keys, params, entries, done.push(PresetView { name: entries[i].0, values })),
            Err(text) => Err(text),
        }
    }
}

pub open spec fn default_preset(params: Seq<ParamView>) -> PresetView {
    PresetView { name: "Default"@, values: defaults(params) }
}

/// The views of a list of presets.
pub open spec fn preset_list(list: Seq<PresetDesc>) -> Seq<PresetView> {
    Seq::new(list.len(), |i: int| list[i]@)
}

pub fn build_presets(
    m: &IndexMap<String, ParamSpecFile>,
    params: &Vec<ParamDesc>,
    presets: &IndexMap<String, IndexMap<String, Single>>,
) -> (r: Result<Vec<PresetDesc>, ModelError>)
    requires
        params@.len() == crate::graph::spec::params_of(m).len(),
        forall|i: int| 0 <= i < params@.len() ==> (#[trigger] params@[i]).kind.wf(),
    ensures
        match (
            r,
            preset_views(
                crate::graph::spec::keys(crate::graph::spec::params_of(m)),
                described(params@),
                crate::graph::spec::presets_of(presets),
                seq![default_preset(described(params@))],
            ),
        ) {
            (Ok(list), Ok(views)) => preset_list(list@) == views && forall|i: int|
                0 <= i < list@.len() ==> (#[trigger] list@[i]).values@.len() == params@.len(),
            (Err(e), Err(text)) => e.0@ == text,
            _ => false,
        },
{
    let ghost keys = crate::graph::spec::keys(crate::graph::spec::params_of(m));
    let ghost views = described(params@);
    let ghost entries = crate::graph::spec::presets_of(presets);
    let mut list: Vec<PresetDesc> = Vec::new();
    list.push(PresetDesc { name: owned("Default"), values: default_values(params) });
    assert(preset_list(list@) =~= seq![default_preset(views)]);
    let count = presets_len(presets);
    let mut i: usize = 0;
    while i < count
        invariant
            i <= count == entries.len(),
            list@.len() == i + 1,
            keys == crate::graph::spec::keys(crate::graph::spec::params_of(m)),
            views == described(params@),
            entries == crate::graph::spec::presets_of(presets),
            params@.len() == crate::graph::spec::params_of(m).len(),
            forall|i: int| 0 <= i < params@.len() ==> (#[trigger] params@[i]).kind.wf(),
            forall|i: int| 0 <= i < list@.len() ==> (#[trigger] list@[i]).values@.len() == params@.len(),
            preset_views(keys, views, entries, seq![default_preset(views)]) == preset_views(
                keys,
                views,
                entries,
                preset_list(list@),
            ),
        decreases count - i,
    {
        let (name, overrides) = presets_at(presets, i);
        let values = match override_values(m, params, name.as_str(), overrides) {
            Ok(values) => values,
            Err(e) => return Err(e),
        };
        let ghost before = list@;
        list.push(PresetDesc { name: name.clone(), values });
        assert(preset_list(list@) =~= preset_list(before).push(list@.last()@));
        i = i + 1;
    }
    Ok(list)
}

/// Name, default and description of an input.
pub struct InputView {
    pub name: Seq<char>,
    pub default: Single,
    pub doc: Seq<char>,
}

impl View for InputDesc {
    type V = InputView;

    open spec fn view(&self) -> InputView {
        InputView { name: self.name@, default: self.default, doc: self.doc@ }
    }
}

/// The inputs of a file, their defaults brought between 0 and 1.
pub open spec fn input_views(entries: Seq<(Seq<char>, InputSpecFile)>) -> Seq<InputView> {
    Seq::new(
        entries.len(),
        |i: int|
            InputView {
                name: entries[i].0,
                default: entries[i].1.default.within(Single::of(ZERO), Single::of(ONE)),
                doc: entries[i].1.doc@,
            },
    )
}

/// Seconds for each input to settle: 0.05 unless the file says otherwise, at most 10.
pub open spec fn settle_times(entries: Seq<(Seq<char>, InputSpecFile)>) -> Seq<Single> {
    Seq::new(
        entries.len(),
        |i: int|
            (match entries[i].1.smooth {
                Some(secs) => secs,
                None => Single::of(P0_05),
            }).within(Single::of(ZERO), Single::of(P10)),
    )
}

/// The views of a list of inputs.
pub open spec fn input_list(list: Seq<InputDesc>) -> Seq<InputView> {
    Seq::new(list.len(), |i: int| list[i]@)
}

pub fn build_inputs(m: &IndexMap<String, InputSpecFile>) -> (r: (Vec<InputDesc>, Vec<Single>))
    ensures
        input_list(r.0@) == input_views(crate::graph::spec::inputs_of(m)),
        r.1@ == settle_times(crate::graph::spec::inputs_of(m)),
{
    let ghost entries = crate::graph::spec::inputs_of(m);
    let count = inputs_len(m);
    let mut inputs: Vec<InputDesc> = Vec::new();
    let mut secs: Vec<Single> = Vec::new();
    let mut i: usize = 0;
    assert(input_list(inputs@) =~= input_views(entries).take(0));
    while i < count
        invariant
            i <= count == entries.len(),
            entries == crate::graph::spec::inputs_of(m),
            input_list(inputs@) == input_views(entries).take(i as int),
            secs@ == settle_times(entries).take(i as int),
        decreases count - i,
    {
        let (key, p) = inputs_at(m, i);
        let ghost before = inputs@;
        let default = p.default.clamp(Single::of(ZERO), Single::of(ONE));
        inputs.push(InputDesc { name: key.clone(), default, doc: p.doc.clone() });
        let smooth = match p.smooth {
            Some(secs) => secs,
            None => Single::of(P0_05),
        };
        secs.push(smooth.clamp(Single::of(ZERO), Single::of(P10)));
        i = i + 1;
        assert(input_list(inputs@) =~= input_list(before).push(inputs@.last()@));
        assert(input_views(entries).take(i as int) =~= input_views(entries).take(i - 1).push(inputs@.last()@));
        assert(secs@ =~= settle_times(entries).take(i as int));
    }
    assert(input_views(entries).take(i as int) =~= input_views(entries));
    assert(settle_times(entries).take(i as int) =~= settle_times(entries));
    (inputs, secs)
}

} // verus!
