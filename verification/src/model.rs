//! Descriptions of sound generators.
//!
//! A model is a sound driven by named **inputs** (game state, set every frame: throttle,
//! intensity, tension) and shaped by named **params** (designer tuning, with ranges and presets).
use vstd::prelude::*;

use crate::params::ParamDesc;
use crate::single::Single;
use crate::text::{equal, equal_ignoring_case};

verus! {

#[derive(Debug)]
pub struct InputDesc {
    pub name: String,
    pub default: Single,
    pub doc: String,
}

#[derive(Debug)]
pub struct PresetDesc {
    pub name: String,
    /// One value per parameter, in parameter order.
    pub values: Vec<Single>,
}

/// What kind of engine runs a model.
#[derive(Clone, Copy, Debug, PartialEq, Eq, Structural)]
pub enum Engine {
    Native,
    Graph,
}

impl Engine {
    pub open spec fn label(self) -> Seq<char> {
        match self {
            Engine::Native => "native"@,
            Engine::Graph => "graph"@,
        }
    }

    pub fn name(self) -> (r: &'static str)
        ensures
            r@ == self.label(),
    {
        match self {
            Engine::Native => "native",
            Engine::Graph => "graph",
        }
    }
}

#[derive(Debug)]
pub struct ModelDesc {
    pub name: String,
    pub category: String,
    pub doc: String,
    pub engine: Engine,
    /// Silent until triggered.
    pub one_shot: bool,
    pub inputs: Vec<InputDesc>,
    pub params: Vec<ParamDesc>,
    pub presets: Vec<PresetDesc>,
}

impl ModelDesc {
    /// First input with a name.
    pub fn input_index(&self, name: &str) -> (r: Option<usize>)
        ensures
            match r {
                Some(i) => i < self.inputs@.len() && self.inputs@[i as int].name@ == name@ && forall|k: int|
                    0 <= k < i ==> (#[trigger] self.inputs@[k]).name@ != name@,
                None => forall|k: int| 0 <= k < self.inputs@.len() ==> (#[trigger] self.inputs@[k]).name@ != name@,
            },
    {
        let mut i: usize = 0;
        while i < self.inputs.len()
            invariant
                i <= self.inputs@.len(),
                forall|k: int| 0 <= k < i ==> (#[trigger] self.inputs@[k]).name@ != name@,
            decreases self.inputs@.len() - i,
        {
            if equal(self.inputs[i].name.as_str(), name) {
                return Some(i);
            }
            i = i + 1;
        }
        None
    }

    /// First parameter with a name.
    pub fn param_index(&self, name: &str) -> (r: Option<usize>)
        ensures
            match r {
                Some(i) => i < self.params@.len() && self.params@[i as int].name@ == name@ && forall|k: int|
                    0 <= k < i ==> (#[trigger] self.params@[k]).name@ != name@,
                None => forall|k: int| 0 <= k < self.params@.len() ==> (#[trigger] self.params@[k]).name@ != name@,
            },
    {
        let mut i: usize = 0;
        while i < self.params.len()
            invariant
                i <= self.params@.len(),
                forall|k: int| 0 <= k < i ==> (#[trigger] self.params@[k]).name@ != name@,
            decreases self.params@.len() - i,
        {
            if equal(self.params[i].name.as_str(), name) {
                return Some(i);
            }
            i = i + 1;
        }
        None
    }

    /// First preset with a name, whatever the case of its letters.
    pub fn preset_index(&self, name: &str) -> (r: Option<usize>)
        ensures
            match r {
                Some(i) => i < self.presets@.len() && crate::text::same_word(self.presets@[i as int].name@, name@)
                    && forall|k: int|
                    0 <= k < i ==> !crate::text::same_word((#[trigger] self.presets@[k]).name@, name@),
                None => forall|k: int|
                    0 <= k < self.presets@.len() ==> !crate::text::same_word((#[trigger] self.presets@[k]).name@, name@),
            },
    {
        let mut i: usize = 0;
        while i < self.presets.len()
            invariant
                i <= self.presets@.len(),
                forall|k: int| 0 <= k < i ==> !crate::text::same_word((#[trigger] self.presets@[k]).name@, name@),
            decreases self.presets@.len() - i,
        {
            if equal_ignoring_case(self.presets[i].name.as_str(), name) {
                return Some(i);
            }
            i = i + 1;
        }
        None
    }
}

} // verus!
