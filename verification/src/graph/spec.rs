//! What a model file says.
use indexmap::IndexMap;
use vstd::prelude::*;

use crate::double::Double;
use crate::graph::grammar::first_of;
use crate::single::Single;

verus! {

pub const MAX_NODES: usize = 256;

pub const MAX_SIGNALS: usize = 128;

pub const MAX_PARAMS: usize = 64;

pub const MAX_INPUTS: usize = 16;

pub const MAX_RESONATORS: usize = 32;

/// `indexmap::IndexMap`: a map that keeps its entries in the order they were put in.
#[verifier::external_type_specification]
#[verifier::external_body]
#[verifier::reject_recursive_types(K)]
#[verifier::reject_recursive_types(V)]
#[verifier::reject_recursive_types(S)]
pub struct ExIndexMap<K, V, S>(IndexMap<K, V, S>);

/// Why a model file was rejected. The message names the offending section and entry.
#[derive(Debug)]
pub struct ModelError(pub String);

/// A model file.
#[derive(Debug)]
pub struct ModelSpec {
    pub model: MetaSpec,
    pub inputs: IndexMap<String, InputSpecFile>,
    pub params: IndexMap<String, ParamSpecFile>,
    pub signals: IndexMap<String, Arg>,
    pub graph: GraphSpec,
    pub presets: IndexMap<String, IndexMap<String, Single>>,
}

#[derive(Debug)]
pub struct MetaSpec {
    pub name: String,
    pub category: String,
    pub doc: String,
    pub version: u32,
    /// Silent until triggered.
    pub one_shot: bool,
}

#[derive(Debug)]
pub struct InputSpecFile {
    pub default: Single,
    pub doc: String,
    /// Seconds for the input to settle (default 0.05).
    pub smooth: Option<Single>,
}

#[derive(Debug)]
pub struct ParamSpecFile {
    pub default: Single,
    pub min: Single,
    pub max: Single,
    /// "lin" (default) or "exp".
    pub scale: String,
    /// Inspector group; the public parameter name is `group/key`.
    pub group: String,
}

#[derive(Debug)]
pub struct GraphSpec {
    pub nodes: Vec<NodeSpec>,
    pub out: String,
}

#[derive(Debug)]
pub struct NodeSpec {
    pub id: String,
    pub kind: String,
    pub inputs: Vec<InputRef>,
    /// Second input group, used by `mul`.
    pub by: Vec<InputRef>,
    pub args: IndexMap<String, Arg>,
}

/// A number of a file, and how it is written out.
#[derive(Debug)]
pub struct Number {
    pub value: Double,
    pub text: String,
}

/// A number, a formula, or a list of numbers.
#[derive(Debug)]
pub enum Arg {
    Num(Number),
    Text(String),
    List(Vec<Double>),
}

#[derive(Debug)]
pub enum InputRef {
    Id(String),
    Full { from: String, gain: Option<Arg> },
}

impl InputRef {
    /// The node referred to.
    pub open spec fn node(self) -> Seq<char> {
        match self {
            InputRef::Id(id) => id@,
            InputRef::Full { from, gain: _ } => from@,
        }
    }

    pub fn id(&self) -> (r: &String)
        ensures
            r@ == self.node(),
    {
        match self {
            InputRef::Id(id) => id,
            InputRef::Full { from, gain: _ } => from,
        }
    }
}

/// The keys of a list of entries.
pub open spec fn keys<V>(entries: Seq<(Seq<char>, V)>) -> Seq<Seq<char>> {
    Seq::new(entries.len(), |i: int| entries[i].0)
}

/// What inputs hold, in file order.
pub uninterp spec fn inputs_of(m: &IndexMap<String, InputSpecFile>) -> Seq<(Seq<char>, InputSpecFile)>;

/// `IndexMap::len` of inputs: the number of entries.
#[verifier::external_body]
pub(crate) fn inputs_len(m: &IndexMap<String, InputSpecFile>) -> (r: usize)
    ensures
        r == inputs_of(m).len(),
{
    m.len()
}

/// `IndexMap::get_index` of inputs: key and value of the entry at an index, which must exist.
#[verifier::external_body]
pub(crate) fn inputs_at(m: &IndexMap<String, InputSpecFile>, i: usize) -> (r: (&String, &InputSpecFile))
    requires
        i < inputs_of(m).len(),
    ensures
        inputs_of(m)[i as int] == (r.0@, *r.1),
{
    m.get_index(i).unwrap()
}

/// What params hold, in file order.
pub uninterp spec fn params_of(m: &IndexMap<String, ParamSpecFile>) -> Seq<(Seq<char>, ParamSpecFile)>;

/// `IndexMap::len` of params: the number of entries.
#[verifier::external_body]
pub(crate) fn params_len(m: &IndexMap<String, ParamSpecFile>) -> (r: usize)
    ensures
        r == params_of(m).len(),
{
    m.len()
}

/// `IndexMap::get_index` of params: key and value of the entry at an index, which must exist.
#[verifier::external_body]
pub(crate) fn params_at(m: &IndexMap<String, ParamSpecFile>, i: usize) -> (r: (&String, &ParamSpecFile))
    requires
        i < params_of(m).len(),
    ensures
        params_of(m)[i as int] == (r.0@, *r.1),
{
    m.get_index(i).unwrap()
}

/// `IndexMap::get_index_of` of params: the index of the entry with a key. Keys are unique, so it is
/// the first one.
#[verifier::external_body]
pub(crate) fn params_index(m: &IndexMap<String, ParamSpecFile>, key: &str) -> (r: Option<usize>)
    ensures
        match r {
            Some(i) => first_of(keys(params_of(m)), key@) == Some(i as int),
            None => first_of(keys(params_of(m)), key@) is None,
        },
{
    m.get_index_of(key)
}

/// What signals, and the arguments of nodes, hold in file order.
pub uninterp spec fn args_of(m: &IndexMap<String, Arg>) -> Seq<(Seq<char>, Arg)>;

/// `IndexMap::len` of signals and arguments: the number of entries.
#[verifier::external_body]
pub(crate) fn args_len(m: &IndexMap<String, Arg>) -> (r: usize)
    ensures
        r == args_of(m).len(),
{
    m.len()
}

/// `IndexMap::get_index` of signals and arguments: key and value of the entry at an index, which must exist.
#[verifier::external_body]
pub(crate) fn args_at(m: &IndexMap<String, Arg>, i: usize) -> (r: (&String, &Arg))
    requires
        i < args_of(m).len(),
    ensures
        args_of(m)[i as int] == (r.0@, *r.1),
{
    m.get_index(i).unwrap()
}

/// `IndexMap::get_index_of` of signals and arguments: the index of the entry with a key. Keys are unique, so it is
/// the first one.
#[verifier::external_body]
pub(crate) fn args_index(m: &IndexMap<String, Arg>, key: &str) -> (r: Option<usize>)
    ensures
        match r {
            Some(i) => first_of(keys(args_of(m)), key@) == Some(i as int),
            None => first_of(keys(args_of(m)), key@) is None,
        },
{
    m.get_index_of(key)
}

/// `IndexMap::get` of signals and arguments: the value of the entry with a key.
#[verifier::external_body]
pub(crate) fn args_get<'a>(m: &'a IndexMap<String, Arg>, key: &str) -> (r: Option<&'a Arg>)
    ensures
        match r {
            Some(v) => first_of(keys(args_of(m)), key@) matches Some(i) && args_of(m)[i].1 == *v,
            None => first_of(keys(args_of(m)), key@) is None,
        },
{
    m.get(key)
}

/// What the values of a preset hold, in file order.
pub uninterp spec fn overrides_of(m: &IndexMap<String, Single>) -> Seq<(Seq<char>, Single)>;

/// `IndexMap::len` of the values of a preset: the number of entries.
#[verifier::external_body]
pub(crate) fn overrides_len(m: &IndexMap<String, Single>) -> (r: usize)
    ensures
        r == overrides_of(m).len(),
{
    m.len()
}

/// `IndexMap::get_index` of the values of a preset: key and value of the entry at an index, which must exist.
#[verifier::external_body]
pub(crate) fn overrides_at(m: &IndexMap<String, Single>, i: usize) -> (r: (&String, &Single))
    requires
        i < overrides_of(m).len(),
    ensures
        overrides_of(m)[i as int] == (r.0@, *r.1),
{
    m.get_index(i).unwrap()
}

/// What presets hold, in file order.
pub uninterp spec fn presets_of(m: &IndexMap<String, IndexMap<String, Single>>) -> Seq<(Seq<char>, Seq<(Seq<char>, Single)>)>;

/// `IndexMap::len` of presets: the number of entries.
#[verifier::external_body]
pub(crate) fn presets_len(m: &IndexMap<String, IndexMap<String, Single>>) -> (r: usize)
    ensures
        r == presets_of(m).len(),
{
    m.len()
}

/// `IndexMap::get_index` of presets: key and value of the entry at an index, which must exist.
#[verifier::external_body]
pub(crate) fn presets_at(m: &IndexMap<String, IndexMap<String, Single>>, i: usize) -> (r: (&String, &IndexMap<String, Single>))
    requires
        i < presets_of(m).len(),
    ensures
        presets_of(m)[i as int] == (r.0@, overrides_of(r.1)),
{
    m.get_index(i).unwrap()
}

/// Text in lower case, as Unicode has it.
pub uninterp spec fn lowercase_of(s: Seq<char>) -> Seq<char>;

/// `str::to_lowercase`: the text in lower case.
#[verifier::external_body]
pub(crate) fn lowercase(s: &str) -> (r: String)
    ensures
        r@ == lowercase_of(s@),
{
    s.to_lowercase()
}

} // verus!
