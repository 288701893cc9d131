//! A sound's definition as an editor sees it: which model it asks for, the values of its parameters,
//! and why the model could not be built.
use vstd::prelude::*;
use vstd::string::StrSliceExecFns;

use crate::arith::{meant, total, Prim, Sums};
use crate::deck::{ParamBlock, MAX_PARAMS, P48000};
use crate::double::Double;
use crate::generators::{create, ModelView, Sound};
use crate::graph::host::{Host, Sense};
use crate::graph::model::GraphModel;
use crate::graph::spec::ModelSpec;
use crate::instrument::{Instrument, InstrumentView};
use crate::model::Engine;
use crate::params::ParamDesc;
use crate::single::{Single, ZERO};
use crate::text::{is_space, number_text, numeral, owned, plus, space};

verus! {

/// Where a definition takes its model from.
#[derive(Clone, Copy, Debug, PartialEq, Eq, Structural)]
pub enum Place {
    /// A model file.
    File,
    /// Model text of its own.
    Inline,
    /// The library of generators.
    Builtin,
}

/// A text of nothing but white space.
pub open spec fn blank(s: Seq<char>) -> bool {
    forall|i: int| 0 <= i < s.len() ==> is_space(#[trigger] s[i])
}

/// A named file goes first, then text that is not blank.
pub open spec fn place_for(config_file: Seq<char>, config: Seq<char>) -> Place {
    if config_file.len() > 0 {
        Place::File
    } else if !blank(config) {
        Place::Inline
    } else {
        Place::Builtin
    }
}

/// The first character that is no white space, if there is one.
pub open spec fn first_mark(s: Seq<char>) -> Option<char>
    decreases s.len(),
{
    if s.len() == 0 {
        None
    } else if is_space(s[0]) {
        first_mark(s.skip(1))
    } else {
        Some(s[0])
    }
}

fn find_mark(s: &str) -> (r: Option<char>)
    ensures
        r == first_mark(s@),
        r is None <==> blank(s@),
{
    let n = s.unicode_len();
    let mut i: usize = 0;
    assert(s@.skip(0) =~= s@);
    while i < n
        invariant
            i <= n == s@.len(),
            first_mark(s@) == first_mark(s@.skip(i as int)),
            forall|j: int| 0 <= j < i ==> is_space(#[trigger] s@[j]),
        decreases n - i,
    {
        let c = s.get_char(i);
        assert(s@.skip(i as int).skip(1) =~= s@.skip(i + 1));
        if !space(c) {
            assert(!is_space(s@[i as int]));
            return Some(c);
        }
        i = i + 1;
    }
    None
}

/// Model text that starts with a brace is JSON; any other is TOML.
pub fn is_json(text: &str) -> (r: bool)
    ensures
        r == (first_mark(text@) == Some('{')),
{
    match find_mark(text) {
        Some(c) => c == '{',
        None => false,
    }
}

/// Texts with a separator between them.
pub open spec fn joined(list: Seq<Seq<char>>, gap: Seq<char>) -> Seq<char>
    decreases list.len(),
{
    if list.len() == 0 {
        seq![]
    } else if list.len() == 1 {
        list[0]
    } else {
        joined(list.drop_last(), gap) + gap + list.last()
    }
}

/// Names of the generators, in registry order.
pub open spec fn generator_names() -> Seq<Seq<char>> {
    Sound::all().map_values(|s: Sound| s.label())
}

/// The names of the generators with a separator between them.
pub fn join_generator_names(gap: &str) -> (r: String)
    ensures
        r@ == joined(generator_names(), gap@),
{
    let ghost all = generator_names();
    let mut r = owned(Sound::from_index(0).name());
    let mut i: usize = 1;
    proof {
        assert(all.take(1).len() == 1);
        assert(joined(all.take(1), gap@) == all.take(1)[0]);
    }
    while i < Sound::COUNT
        invariant
            1 <= i <= Sound::COUNT,
            all == generator_names(),
            all.len() == Sound::COUNT,
            r@ == joined(all.take(i as int), gap@),
        decreases Sound::COUNT - i,
    {
        r = plus(plus(r, gap), Sound::from_index(i).name());
        i = i + 1;
        assert(all.take(i as int).drop_last() =~= all.take(i - 1));
    }
    assert(all.take(i as int) =~= all);
    r
}

/// What is said of a generator that does not exist.
pub open spec fn unknown_generator(name: Seq<char>) -> Seq<char> {
    "unknown generator '"@ + name + "'. Available: "@ + joined(generator_names(), ", "@)
}

/// What is said of a model file that does not exist.
pub open spec fn missing_file(path: Seq<char>) -> Seq<char> {
    "config_file '"@ + path + "' does not exist"@
}

/// What is said of a model with too many parameters.
pub open spec fn too_many_params() -> Seq<char> {
    "model has more than "@ + numeral(MAX_PARAMS as nat) + " params"@
}

/// Say that a model file does not exist.
pub fn missing_file_text(path: &str) -> (r: String)
    ensures
        r@ == missing_file(path@),
{
    plus(plus(owned("config_file '"), path), "' does not exist")
}

/// A generator of the library, or why there is none.
pub fn build_generator<F: Fn(Prim, Single, Single) -> Single>(fpu: &F, name: &str, sample_rate: Single) -> (r: Result<Instrument, String>)
    requires
        total(*fpu),
    ensures
        match r {
            Ok(i) => {
                &&& i.wf()
                &&& i matches Instrument::Native(m)
                &&& crate::text::same_word(name@, m@.sound().label())
                &&& forall|f: Sums| #[trigger] meant(*fpu, f) ==> m@ == ModelView::started(m@.sound(), f, sample_rate)
            },
            Err(e) => e@ == unknown_generator(name@) && forall|s: Sound| !crate::text::same_word(name@, #[trigger] s.label()),
        },
{
    match create(fpu, name, sample_rate) {
        Some(m) => Ok(Instrument::Native(m)),
        None => {
            let names = join_generator_names(", ");
            Err(plus(plus(plus(owned("unknown generator '"), name), "'. Available: "), names.as_str()))
        },
    }
}

/// A graph from a model file, or why it was rejected.
pub fn build_graph<F: Fn(Prim, Single, Single) -> Single, N: Fn(&String) -> Single, S: Fn(&String) -> String>(host: &Host<'_, F, N, S>, spec: &ModelSpec, sample_rate: Single) -> (r: Result<Instrument, String>)
    requires
        host.ok(),
    ensures
        r matches Ok(i) ==> i.wf(),
        forall|w: Sense| #[trigger]
            host.means(w) ==> match (r, crate::graph::model::compiled(w, *spec, crate::graph::model::usable_rate(sample_rate))) {
                (Ok(i), Ok(c)) => i matches Instrument::Graph(m) && m.is(c),
                (Err(e), Err(text)) => e@ == text,
                _ => false,
            },
{
    match GraphModel::from_spec(host, spec, sample_rate) {
        Ok(m) => Ok(Instrument::Graph(m)),
        Err(e) => Err(e.0),
    }
}

/// A list with the value of a place set: in the entry it has, or in a new one at the end.
pub open spec fn recorded(before: Seq<(usize, Single)>, after: Seq<(usize, Single)>, i: int, v: Single) -> bool {
    ||| exists|k: int| {
        &&& 0 <= k < before.len()
        &&& (#[trigger] before[k]).0 == i
        &&& forall|j: int| 0 <= j < k ==> (#[trigger] before[j]).0 != i
        &&& after == before.update(k, (i as usize, v))
    }
    ||| {
        &&& forall|j: int| 0 <= j < before.len() ==> (#[trigger] before[j]).0 != i
        &&& after == before.push((i as usize, v))
    }
}

fn record(list: &mut Vec<(usize, Single)>, i: usize, v: Single)
    ensures
        recorded(old(list)@, final(list)@, i as int, v),
{
    let mut k: usize = 0;
    while k < list.len()
        invariant
            k <= list@.len(),
            list@ == old(list)@,
            forall|j: int| 0 <= j < k ==> (#[trigger] list@[j]).0 != i,
        decreases list@.len() - k,
    {
        if list[k].0 == i {
            list.set(k, (i, v));
            assert(old(list)@[k as int].0 == i);
            return;
        }
        k = k + 1;
    }
    list.push((i, v));
}

/// What a JSON text holds where it is an object: its names, each with the bits of the number it
/// stands for, if it stands for one, in the order of the parsed object.
pub uninterp spec fn object_of(text: Seq<char>) -> Option<Seq<(Seq<char>, Option<u64>)>>;

/// Entries with their names as texts.
pub open spec fn entries_of(list: Seq<(String, Option<u64>)>) -> Seq<(Seq<char>, Option<u64>)> {
    Seq::new(list.len(), |i: int| (list[i].0@, list[i].1))
}

/// `serde_json::from_str` into a `serde_json::Map`: the entries of a text that is a JSON object, and
/// nothing for any other. Each value is read with `Value::as_f64`, whose bits are handed out. What
/// the grammar of JSON is, how it rounds numbers and how a name that stands twice counts is left to
/// `serde_json`.
#[verifier::external_body]
fn object(text: &str) -> (r: Option<Vec<(String, Option<u64>)>>)
    ensures
        match (r, object_of(text@)) {
            (Some(list), Some(entries)) => entries_of(list@) == entries,
            (None, None) => true,
            _ => false,
        },
{
    let map: serde_json::Map<String, serde_json::Value> = serde_json::from_str(text).ok()?;
    Some(map.into_iter().map(|(k, v)| (k, v.as_f64().map(|x| x.to_bits()))).collect())
}

/// Whether a text is a JSON object.
pub fn is_object(text: &str) -> (r: bool)
    ensures
        r == (object_of(text@) is Some),
{
    object(text).is_some()
}

/// The text of a JSON object with numbers, one name to a line.
pub uninterp spec fn pretty_of(entries: Seq<(Seq<char>, Seq<char>)>) -> Seq<char>;

/// `serde_json::to_string_pretty` of a `serde_json::Map`: the text of an object whose values are the
/// numbers that the texts beside the names stand for, as `str::parse` reads them; what is no finite
/// number is null.
#[verifier::external_body]
fn pretty(entries: &Vec<(String, String)>) -> (r: String)
    ensures
        r@ == pretty_of(Seq::new(entries@.len(), |i: int| (entries@[i].0@, entries@[i].1@))),
{
    let number = |t: &String| t.parse().ok().and_then(serde_json::Number::from_f64);
    let value = |t: &String| number(t).map_or(serde_json::Value::Null, serde_json::Value::Number);
    let map: serde_json::Map<String, serde_json::Value> = entries.iter().map(|(k, t)| (k.clone(), value(t))).collect();
    serde_json::to_string_pretty(&map).unwrap_or_default()
}

/// A function shows numbers as texts.
pub open spec fn shows<S: Fn(Single) -> String>(show: S, g: spec_fn(Single) -> Seq<char>) -> bool {
    forall|x: Single, t: String| #[trigger] show.ensures((x,), t) ==> t@ == g(x)
}

/// A parameter of a list is the first one with a name.
pub open spec fn first_named(params: Seq<ParamDesc>, name: Seq<char>, i: int) -> bool {
    &&& 0 <= i < params.len()
    &&& params[i].name@ == name
    &&& forall|k: int| 0 <= k < i ==> (#[trigger] params[k]).name@ != name
}

/// Where the first parameter of a list with a name stands.
pub open spec fn place_of(params: Seq<ParamDesc>, name: Seq<char>) -> Option<int> {
    if exists|i: int| first_named(params, name, i) {
        Some(choose|i: int| first_named(params, name, i))
    } else {
        None
    }
}

/// An entry sets a parameter: its name is known and it has a number.
pub open spec fn takes(params: Seq<ParamDesc>, entry: (Seq<char>, Option<u64>)) -> bool {
    place_of(params, entry.0) is Some && entry.1 is Some
}

/// A model with the entries that set a parameter taken in order.
pub open spec fn with_entries(m: InstrumentView, params: Seq<ParamDesc>, entries: Seq<(Seq<char>, Option<u64>)>) -> InstrumentView
    decreases entries.len(),
{
    if entries.len() == 0 {
        m
    } else {
        let before = with_entries(m, params, entries.drop_last());
        match (place_of(params, entries.last().0), entries.last().1) {
            (Some(i), Some(bits)) => before.with_param(i, Double { bits }.single()),
            _ => before,
        }
    }
}

/// The names of the entries that set nothing, in order.
pub open spec fn skipped_of(params: Seq<ParamDesc>, entries: Seq<(Seq<char>, Option<u64>)>) -> Seq<Seq<char>>
    decreases entries.len(),
{
    if entries.len() == 0 {
        seq![]
    } else {
        let before = skipped_of(params, entries.drop_last());
        if takes(params, entries.last()) {
            before
        } else {
            before.push(entries.last().0)
        }
    }
}

/// A definition of a sound.
pub struct Definition {
    pub generator: String,
    pub config_file: String,
    pub config: String,
    pub preset: String,
    pub start_snapped: bool,
    /// Inputs that what plays this sound starts with, by place.
    pub start_inputs: Vec<(usize, Single)>,
    /// Prototype: owns the description and the current parameter values.
    pub proto: Option<Instrument>,
    /// Empty when the model was built; else why it was not.
    pub error: String,
    /// Counts the models this definition has had.
    pub generation: u32,
}

impl Definition {
    pub open spec fn wf(self) -> bool {
        self.proto matches Some(i) ==> i.wf()
    }

    /// The parameter values of the prototype; none without one.
    pub open spec fn values(self) -> Seq<Single> {
        match self.proto {
            Some(i) => i@.params(),
            None => seq![],
        }
    }

    /// The names of the parameters, each with its value as a text.
    pub open spec fn listed(self, g: spec_fn(Single) -> Seq<char>) -> Seq<(Seq<char>, Seq<char>)> {
        match self.proto {
            Some(i) => {
                let (names, values) = (i.shown().params@, i@.params());
                let n = if names.len() < values.len() { names.len() } else { values.len() };
                Seq::new(n, |k: int| (names[k].name@, g(values[k])))
            },
            None => seq![],
        }
    }

    /// Wind, until it is told otherwise.
    pub fn new<F: Fn(Prim, Single, Single) -> Single>(fpu: &F) -> (r: Definition)
        requires
            total(*fpu),
        ensures
            r.wf(),
            r.generator@ == "wind"@,
            r.config_file@ == ""@ && r.config@ == ""@ && r.preset@ == ""@ && r.error@ == ""@,
            r.start_snapped,
            r.start_inputs@.len() == 0,
            r.generation == 0,
            r.proto matches Some(Instrument::Native(m)) && m@.sound() == Sound::Wind && forall|f: Sums| #[trigger]
                meant(*fpu, f) ==> m@ == ModelView::started(Sound::Wind, f, Single::of(P48000)),
    {
        Definition {
            generator: owned("wind"),
            config_file: owned(""),
            config: owned(""),
            preset: owned(""),
            start_snapped: true,
            start_inputs: Vec::new(),
            proto: Some(Instrument::Native(crate::generators::Model::new(fpu, Sound::Wind, Single::of(P48000)))),
            error: owned(""),
            generation: 0,
        }
    }

    /// Where the model is taken from.
    pub fn place(&self) -> (r: Place)
        ensures
            r == place_for(self.config_file@, self.config@),
    {
        if self.config_file.as_str().unicode_len() > 0 {
            Place::File
        } else {
            match find_mark(self.config.as_str()) {
                Some(_) => Place::Inline,
                None => Place::Builtin,
            }
        }
    }

    /// Take a model that was built, or the reason why it was not. What was set on an earlier model
    /// does not carry over.
    pub fn install(&mut self, built: Result<Instrument, String>)
        requires
            built matches Ok(i) ==> i.wf(),
        ensures
            final(self).wf(),
            final(self).generator == old(self).generator,
            final(self).config_file == old(self).config_file,
            final(self).config == old(self).config,
            final(self).start_snapped == old(self).start_snapped,
            final(self).preset@ == ""@,
            final(self).start_inputs@.len() == 0,
            final(self).generation == if old(self).generation == u32::MAX {
                0
            } else {
                old(self).generation + 1
            },
            match built {
                Ok(i) => if i@.params().len() > MAX_PARAMS {
                    final(self).proto is None && final(self).error@ == too_many_params()
                } else {
                    final(self).proto == Some(i) && final(self).error@ == ""@
                },
                Err(e) => final(self).proto is None && final(self).error@ == e@,
            },
    {
        self.error = owned("");
        self.proto = None;
        match built {
            Ok(i) => {
                if i.params_vec().len() > MAX_PARAMS {
                    self.error = plus(plus(owned("model has more than "), number_text(MAX_PARAMS).as_str()), " params");
                } else {
                    self.proto = Some(i);
                }
            },
            Err(e) => {
                self.error = e;
            },
        }
        self.preset = owned("");
        self.start_inputs = Vec::new();
        self.generation = self.generation.wrapping_add(1);
    }

    /// The values to share with what plays this sound, as many as a block holds.
    pub fn block(&self) -> (r: ParamBlock)
        requires
            self.wf(),
        ensures
            r.generation == self.generation,
            r.count == if self.values().len() < MAX_PARAMS {
                self.values().len()
            } else {
                MAX_PARAMS as nat
            },
            r.held() == self.values().take(r.count as int),
            forall|i: int| r.count <= i < MAX_PARAMS ==> #[trigger] r.values@[i] == Single::of(ZERO),
    {
        let mut block = ParamBlock { generation: self.generation, count: 0, values: [Single::of(ZERO); 64] };
        match &self.proto {
            Some(m) => {
                let values = m.params_vec();
                let mut i: usize = 0;
                while i < values.len() && i < MAX_PARAMS
                    invariant
                        i <= values@.len(),
                        i <= MAX_PARAMS,
                        block.values@.len() == MAX_PARAMS,
                        block.generation == self.generation,
                        forall|j: int| 0 <= j < i ==> #[trigger] block.values@[j] == values@[j],
                        forall|j: int| i <= j < MAX_PARAMS ==> #[trigger] block.values@[j] == Single::of(ZERO),
                    decreases values@.len() - i,
                {
                    block.values[i] = values[i];
                    i = i + 1;
                }
                block.count = i;
            },
            None => {},
        }
        assert(block.held() =~= self.values().take(block.count as int));
        block
    }

    /// Set a parameter of the prototype, if there is one.
    pub fn set_param(&mut self, index: usize, value: Single)
        requires
            old(self).wf(),
        ensures
            final(self).wf(),
            *final(self) == (Definition { proto: final(self).proto, ..*old(self) }),
            match (old(self).proto, final(self).proto) {
                (Some(a), Some(b)) => b.shown() == a.shown() && b@ == a@.with_param(index as int, value),
                (None, None) => true,
                _ => false,
            },
    {
        match &mut self.proto {
            Some(m) => m.set_param(index, value),
            None => {},
        }
    }

    /// Load a named preset of the current model, the first one of that name; whether it exists.
    pub fn set_preset(&mut self, name: &str) -> (r: bool)
        requires
            old(self).wf(),
        ensures
            final(self).wf(),
            *final(self) == (Definition { proto: final(self).proto, preset: final(self).preset, ..*old(self) }),
            r == (old(self).proto matches Some(a) && exists|i: int|
                0 <= i < a.shown().presets@.len() && crate::text::same_word((#[trigger] a.shown().presets@[i]).name@, name@)),
            !r ==> *final(self) == *old(self),
            r ==> final(self).preset@ == name@ && (old(self).proto matches Some(a) && final(self).proto matches Some(b) && b.shown() == a.shown() && exists|i: int| {
                &&& 0 <= i < a.shown().presets@.len()
                &&& crate::text::same_word((#[trigger] a.shown().presets@[i]).name@, name@)
                &&& forall|j: int| 0 <= j < i ==> !crate::text::same_word((#[trigger] a.shown().presets@[j]).name@, name@)
                &&& b@ == a@.with_preset(i)
            }),
    {
        match &mut self.proto {
            Some(m) => {
                match m.desc().preset_index(name) {
                    Some(i) => {
                        let ghost before = *m;
                        let _ = m.load_preset(i);
                        self.preset = owned(name);
                        proof {
                            assert(crate::text::same_word(before.shown().presets@[i as int].name@, name@));
                        }
                        true
                    },
                    None => false,
                }
            },
            None => false,
        }
    }

    /// Set a parameter of the prototype by its name; whether there is one.
    pub fn set_param_by_name(&mut self, name: &str, value: Single) -> (r: bool)
        requires
            old(self).wf(),
        ensures
            final(self).wf(),
            *final(self) == (Definition { proto: final(self).proto, ..*old(self) }),
            !r ==> *final(self) == *old(self) && (old(self).proto matches Some(a) ==> forall|k: int|
                0 <= k < a.shown().params@.len() ==> (#[trigger] a.shown().params@[k]).name@ != name@),
            r ==> (old(self).proto matches Some(a) && final(self).proto matches Some(b) && b.shown() == a.shown() && exists|i: int| {
                &&& 0 <= i < a.shown().params@.len()
                &&& (#[trigger] a.shown().params@[i]).name@ == name@
                &&& forall|k: int| 0 <= k < i ==> (#[trigger] a.shown().params@[k]).name@ != name@
                &&& b@ == a@.with_param(i, value)
            }),
    {
        match &mut self.proto {
            Some(m) => {
                match m.desc().param_index(name) {
                    Some(i) => {
                        let ghost before = *m;
                        m.set_param(i, value);
                        assert(before.shown().params@[i as int].name@ == name@);
                        true
                    },
                    None => false,
                }
            },
            None => false,
        }
    }

    /// Apply the entries of an object to the prototype, in their order. Those whose name is unknown or
    /// that are no number are skipped; their names come back. Without a prototype all are.
    pub fn take_params(&mut self, entries: &Vec<(String, Option<u64>)>) -> (skipped: Vec<String>)
        requires
            old(self).wf(),
        ensures
            final(self).wf(),
            *final(self) == (Definition { proto: final(self).proto, ..*old(self) }),
            match (old(self).proto, final(self).proto) {
                (Some(a), Some(b)) => {
                    &&& b.shown() == a.shown()
                    &&& b@ == with_entries(a@, a.shown().params@, entries_of(entries@))
                    &&& crate::graph::parse::texts(skipped@) == skipped_of(a.shown().params@, entries_of(entries@))
                },
                (None, None) => crate::graph::parse::texts(skipped@) == Seq::new(entries@.len(), |i: int| entries@[i].0@),
                _ => false,
            },
    {
        let mut skipped: Vec<String> = Vec::new();
        let ghost all = entries_of(entries@);
        let mut k: usize = 0;
        assert(all.take(0) =~= seq![]);
        assert(crate::graph::parse::texts(skipped@) =~= seq![]);
        while k < entries.len()
            invariant
                k <= entries@.len(),
                all == entries_of(entries@),
                self.wf(),
                *self == (Definition { proto: self.proto, ..*old(self) }),
                match (old(self).proto, self.proto) {
                    (Some(a), Some(b)) => {
                        &&& b.shown() == a.shown()
                        &&& b@ == with_entries(a@, a.shown().params@, all.take(k as int))
                        &&& crate::graph::parse::texts(skipped@) == skipped_of(a.shown().params@, all.take(k as int))
                    },
                    (None, None) => crate::graph::parse::texts(skipped@) == Seq::new(k as nat, |i: int| entries@[i].0@),
                    _ => false,
                },
            decreases entries@.len() - k,
        {
            let (name, bits) = (&entries[k].0, entries[k].1);
            let ghost listed = crate::graph::parse::texts(skipped@);
            proof {
                assert(all.take(k + 1).drop_last() =~= all.take(k as int));
                assert(all.take(k + 1).last() == (name@, bits));
            }
            let ghost before = *self;
            let known = match bits {
                Some(bits) => self.set_param_by_name(name.as_str(), Double { bits }.narrow()),
                None => false,
            };
            proof {
                if let Some(a) = before.proto {
                    let params = a.shown().params@;
                    if let Some(i) = place_of(params, name@) {
                        assert(first_named(params, name@, i));
                        assert(params[i].name@ == name@);
                    }
                    if known {
                        let i = choose|i: int| {
                            &&& 0 <= i < params.len()
                            &&& (#[trigger] params[i]).name@ == name@
                            &&& forall|k: int| 0 <= k < i ==> (#[trigger] params[k]).name@ != name@
                            &&& self.proto.unwrap()@ == a@.with_param(i, Double { bits: bits.unwrap() }.single())
                        };
                        assert(first_named(params, name@, i));
                    }
                }
            }
            if !known {
                let again = owned(name.as_str());
                skipped.push(again);
                assert(crate::graph::parse::texts(skipped@) =~= listed.push(name@));
            }
            k = k + 1;
        }
        assert(all.take(k as int) =~= all);
        skipped
    }

    /// Apply parameters from JSON. The names of the entries that were skipped come back, or nothing
    /// where the text is no JSON object or there is no prototype.
    pub fn set_params_json(&mut self, text: &str) -> (r: Option<Vec<String>>)
        requires
            old(self).wf(),
        ensures
            final(self).wf(),
            *final(self) == (Definition { proto: final(self).proto, ..*old(self) }),
            r is None <==> object_of(text@) is None || old(self).proto is None,
            match (r, object_of(text@), old(self).proto) {
                (Some(skipped), Some(entries), Some(a)) => {
                    &&& final(self).proto matches Some(b)
                    &&& b.shown() == a.shown()
                    &&& b@ == with_entries(a@, a.shown().params@, entries)
                    &&& crate::graph::parse::texts(skipped@) == skipped_of(a.shown().params@, entries)
                },
                _ => *final(self) == *old(self),
            },
    {
        match object(text) {
            Some(entries) => {
                if self.proto.is_none() {
                    return None;
                }
                Some(self.take_params(&entries))
            },
            None => None,
        }
    }

    /// All parameters of the prototype as a JSON object of their names and values, the values shown
    /// by `show`.
    pub fn params_json<S: Fn(Single) -> String>(&self, show: &S) -> (r: String)
        requires
            self.wf(),
            forall|x: Single| #[trigger] show.requires((x,)),
        ensures
            forall|g: spec_fn(Single) -> Seq<char>| #[trigger] shows(*show, g) ==> r@ == pretty_of(self.listed(g)),
    {
        let mut entries: Vec<(String, String)> = Vec::new();
        match &self.proto {
            Some(m) => {
                let values = m.params_vec();
                let params = &m.desc().params;
                let mut i: usize = 0;
                while i < values.len() && i < params.len()
                    invariant
                        i <= values@.len(),
                        i <= params@.len(),
                        params@ == m.shown().params@,
                        entries@.len() == i,
                        forall|x: Single| #[trigger] show.requires((x,)),
                        forall|k: int| 0 <= k < i ==> (#[trigger] entries@[k]).0@ == params@[k].name@,
                        forall|k: int| 0 <= k < i ==> show.ensures((values@[k],), (#[trigger] entries@[k]).1),
                    decreases values@.len() - i,
                {
                    let name = owned(params[i].name.as_str());
                    entries.push((name, show(values[i])));
                    i = i + 1;
                }
            },
            None => {},
        }
        proof {
            assert forall|g: spec_fn(Single) -> Seq<char>| #[trigger] shows(*show, g) implies Seq::new(
                entries@.len(),
                |i: int| (entries@[i].0@, entries@[i].1@),
            ) == self.listed(g) by {
                assert(Seq::new(entries@.len(), |i: int| (entries@[i].0@, entries@[i].1@)) =~= self.listed(g));
            }
        }
        pretty(&entries)
    }

    /// Value of a parameter by its name; zero where there is none.
    pub fn param_by_name(&self, name: &str) -> (r: Single)
        requires
            self.wf(),
        ensures
            (match self.proto {
                Some(a) => (exists|i: int| {
                    &&& 0 <= i < a.shown().params@.len()
                    &&& (#[trigger] a.shown().params@[i]).name@ == name@
                    &&& forall|k: int| 0 <= k < i ==> (#[trigger] a.shown().params@[k]).name@ != name@
                    &&& r == if i < a@.params().len() {
                        a@.params()[i]
                    } else {
                        Single::of(ZERO)
                    }
                }) || (r == Single::of(ZERO) && forall|k: int|
                    0 <= k < a.shown().params@.len() ==> (#[trigger] a.shown().params@[k]).name@ != name@),
                None => r == Single::of(ZERO),
            }),
    {
        match &self.proto {
            Some(m) => {
                match m.desc().param_index(name) {
                    Some(i) => {
                        assert(m.shown().params@[i as int].name@ == name@);
                        m.param(i)
                    },
                    None => Single::of(ZERO),
                }
            },
            None => Single::of(ZERO),
        }
    }

    /// What the model takes an input to be until it is set; zero where there is no such input.
    pub fn input_default(&self, name: &str) -> (r: Single)
        requires
            self.wf(),
        ensures
            (match self.proto {
                Some(a) => (exists|i: int| {
                    &&& 0 <= i < a.shown().inputs@.len()
                    &&& (#[trigger] a.shown().inputs@[i]).name@ == name@
                    &&& forall|k: int| 0 <= k < i ==> (#[trigger] a.shown().inputs@[k]).name@ != name@
                    &&& r == a.shown().inputs@[i].default
                }) || (r == Single::of(ZERO) && forall|k: int|
                    0 <= k < a.shown().inputs@.len() ==> (#[trigger] a.shown().inputs@[k]).name@ != name@),
                None => r == Single::of(ZERO),
            }),
    {
        match &self.proto {
            Some(m) => {
                match m.desc().input_index(name) {
                    Some(i) => {
                        assert(m.shown().inputs@[i as int].name@ == name@);
                        m.desc().inputs[i].default
                    },
                    None => Single::of(ZERO),
                }
            },
            None => Single::of(ZERO),
        }
    }

    /// Have what plays this sound start with an input set; whether there is such an input.
    pub fn set_start_input(&mut self, name: &str, value: Single) -> (r: bool)
        requires
            old(self).wf(),
        ensures
            final(self).wf(),
            *final(self) == (Definition { start_inputs: final(self).start_inputs, ..*old(self) }),
            !r ==> final(self).start_inputs@ == old(self).start_inputs@ && (old(self).proto matches Some(a) ==> forall|k: int|
                0 <= k < a.shown().inputs@.len() ==> (#[trigger] a.shown().inputs@[k]).name@ != name@),
            r ==> (old(self).proto matches Some(a) && exists|i: int| {
                &&& 0 <= i < a.shown().inputs@.len()
                &&& (#[trigger] a.shown().inputs@[i]).name@ == name@
                &&& forall|k: int| 0 <= k < i ==> (#[trigger] a.shown().inputs@[k]).name@ != name@
                &&& recorded(old(self).start_inputs@, final(self).start_inputs@, i, value)
            }),
    {
        match &self.proto {
            Some(m) => {
                match m.desc().input_index(name) {
                    Some(i) => {
                        assert(m.shown().inputs@[i as int].name@ == name@);
                        record(&mut self.start_inputs, i, value);
                        true
                    },
                    None => false,
                }
            },
            None => false,
        }
    }

    /// Whether the model is an event: silent until it is fired.
    pub fn is_one_shot(&self) -> (r: bool)
        requires
            self.wf(),
        ensures
            r == (self.proto matches Some(i) && i@.one_shot()),
    {
        match &self.proto {
            Some(m) => m.is_one_shot(),
            None => false,
        }
    }

    /// Whether the model is one of the library, not a graph.
    pub fn is_native(&self) -> (r: bool)
        requires
            self.wf(),
        ensures
            r == (self.proto matches Some(i) && i.shown().engine == Engine::Native),
    {
        match &self.proto {
            Some(m) => m.desc().engine == Engine::Native,
            None => false,
        }
    }
}

} // verus!
