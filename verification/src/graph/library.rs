//! The node library.
use vstd::prelude::*;

use crate::single::{Single, HALF, ONE};
use crate::text::{equal, plus};

verus! {

/// Pattern of 0.2.
pub const P0_2: u32 = 0x3e4c_cccd;

/// Pattern of 0.3.
pub const P0_3: u32 = 0x3e99_999a;

/// Pattern of 0.4.
pub const P0_4: u32 = 0x3ecc_cccd;

/// Pattern of 0.95.
pub const P0_95: u32 = 0x3f73_3333;

/// Pattern of 1.2.
pub const P1_2: u32 = 0x3f99_999a;

/// Pattern of 5.
pub const P5: u32 = 0x40a0_0000;

/// Pattern of 8.
pub const P8: u32 = 0x4100_0000;

/// Types of nodes.
#[derive(Clone, Copy, Debug, PartialEq, Eq, Structural)]
pub enum NodeType {
    Noise,
    Sine,
    Saw,
    Tri,
    Pulse,
    Dust,
    Dc,
    Svf,
    Lowpass,
    Highpass,
    Comb,
    Delay,
    Resonators,
    Decay,
    Drive,
    Crush,
    Gain,
    Mix,
    Mul,
    Reverb,
    Limiter,
}

/// An argument that takes a number or a formula; without a default it is required.
#[derive(Clone, Copy, Debug, PartialEq, Eq)]
pub struct ParamInfo {
    pub name: &'static str,
    pub default: Option<Single>,
}

/// What editors and documentation show of a node type.
#[derive(Debug)]
pub struct NodeInfo {
    pub name: &'static str,
    pub params: Vec<ParamInfo>,
    /// Arguments that are fixed when a model is built.
    pub statics: Vec<&'static str>,
    pub doc: &'static str,
}

impl NodeType {
    /// Every type, in the order they are listed in.
    pub open spec fn all() -> Seq<NodeType> {
        seq![
            NodeType::Noise,
            NodeType::Sine,
            NodeType::Saw,
            NodeType::Tri,
            NodeType::Pulse,
            NodeType::Dust,
            NodeType::Dc,
            NodeType::Svf,
            NodeType::Lowpass,
            NodeType::Highpass,
            NodeType::Comb,
            NodeType::Delay,
            NodeType::Resonators,
            NodeType::Decay,
            NodeType::Drive,
            NodeType::Crush,
            NodeType::Gain,
            NodeType::Mix,
            NodeType::Mul,
            NodeType::Reverb,
            NodeType::Limiter,
        ]
    }

    /// Position in that list.
    pub open spec fn position(self) -> int {
        match self {
            NodeType::Noise => 0,
            NodeType::Sine => 1,
            NodeType::Saw => 2,
            NodeType::Tri => 3,
            NodeType::Pulse => 4,
            NodeType::Dust => 5,
            NodeType::Dc => 6,
            NodeType::Svf => 7,
            NodeType::Lowpass => 8,
            NodeType::Highpass => 9,
            NodeType::Comb => 10,
            NodeType::Delay => 11,
            NodeType::Resonators => 12,
            NodeType::Decay => 13,
            NodeType::Drive => 14,
            NodeType::Crush => 15,
            NodeType::Gain => 16,
            NodeType::Mix => 17,
            NodeType::Mul => 18,
            NodeType::Reverb => 19,
            NodeType::Limiter => 20,
        }
    }

    pub open spec fn label(self) -> Seq<char> {
        match self {
            NodeType::Noise => "noise"@,
            NodeType::Sine => "sine"@,
            NodeType::Saw => "saw"@,
            NodeType::Tri => "tri"@,
            NodeType::Pulse => "pulse"@,
            NodeType::Dust => "dust"@,
            NodeType::Dc => "dc"@,
            NodeType::Svf => "svf"@,
            NodeType::Lowpass => "lowpass"@,
            NodeType::Highpass => "highpass"@,
            NodeType::Comb => "comb"@,
            NodeType::Delay => "delay"@,
            NodeType::Resonators => "resonators"@,
            NodeType::Decay => "decay"@,
            NodeType::Drive => "drive"@,
            NodeType::Crush => "crush"@,
            NodeType::Gain => "gain"@,
            NodeType::Mix => "mix"@,
            NodeType::Mul => "mul"@,
            NodeType::Reverb => "reverb"@,
            NodeType::Limiter => "limiter"@,
        }
    }

    /// Arguments that take a number or a formula, each with its default or none.
    pub open spec fn takes(self) -> Seq<(Seq<char>, Option<Single>)> {
        match self {
            NodeType::Noise => seq![],
            NodeType::Sine => seq![("freq"@, None)],
            NodeType::Saw => seq![("freq"@, None)],
            NodeType::Tri => seq![("freq"@, None)],
            NodeType::Pulse => seq![("freq"@, None), ("width"@, Some(Single::of(HALF)))],
            NodeType::Dust => seq![("rate"@, None)],
            NodeType::Dc => seq![("value"@, None)],
            NodeType::Svf => seq![("cutoff"@, None), ("resonance"@, Some(Single::of(P0_2)))],
            NodeType::Lowpass => seq![("cutoff"@, None)],
            NodeType::Highpass => seq![("cutoff"@, None)],
            NodeType::Comb => seq![("ms"@, None), ("feedback"@, Some(Single::of(HALF))), ("mix"@, Some(Single::of(ONE)))],
            NodeType::Delay => seq![("ms"@, None), ("feedback"@, Some(Single::of(P0_3))), ("mix"@, Some(Single::of(P0_3)))],
            NodeType::Resonators => seq![("resonance"@, Some(Single::of(P0_95))), ("scale"@, Some(Single::of(ONE)))],
            NodeType::Decay => seq![("ms"@, Some(Single::of(P5)))],
            NodeType::Drive => seq![("amount"@, Some(Single::of(HALF)))],
            NodeType::Crush => seq![("bits"@, Some(Single::of(P8))), ("downsample"@, Some(Single::of(ONE)))],
            NodeType::Gain => seq![("gain"@, None)],
            NodeType::Mix => seq![],
            NodeType::Mul => seq![],
            NodeType::Reverb => seq![("time"@, Some(Single::of(P1_2))), ("mix"@, Some(Single::of(P0_3))), ("damping"@, Some(Single::of(P0_4)))],
            NodeType::Limiter => seq![],
        }
    }

    /// Arguments that are fixed when a model is built.
    pub open spec fn fixed(self) -> Seq<Seq<char>> {
        match self {
            NodeType::Noise => seq!["color"@],
            NodeType::Sine => seq![],
            NodeType::Saw => seq![],
            NodeType::Tri => seq![],
            NodeType::Pulse => seq![],
            NodeType::Dust => seq![],
            NodeType::Dc => seq![],
            NodeType::Svf => seq!["mode"@],
            NodeType::Lowpass => seq![],
            NodeType::Highpass => seq![],
            NodeType::Comb => seq!["max_ms"@],
            NodeType::Delay => seq!["max_ms"@],
            NodeType::Resonators => seq!["freqs"@, "route"@, "spread"@],
            NodeType::Decay => seq![],
            NodeType::Drive => seq![],
            NodeType::Crush => seq![],
            NodeType::Gain => seq![],
            NodeType::Mix => seq![],
            NodeType::Mul => seq![],
            NodeType::Reverb => seq![],
            NodeType::Limiter => seq![],
        }
    }

    /// Types that make a signal of their own and take none.
    pub open spec fn source(self) -> bool {
        match self {
            NodeType::Noise | NodeType::Sine | NodeType::Saw | NodeType::Tri | NodeType::Pulse | NodeType::Dust | NodeType::Dc => true,
            _ => false,
        }
    }

    pub fn from_index(i: usize) -> (r: NodeType)
        requires
            i < 21,
        ensures
            r == NodeType::all()[i as int],
    {
        match i {
            0 => NodeType::Noise,
            1 => NodeType::Sine,
            2 => NodeType::Saw,
            3 => NodeType::Tri,
            4 => NodeType::Pulse,
            5 => NodeType::Dust,
            6 => NodeType::Dc,
            7 => NodeType::Svf,
            8 => NodeType::Lowpass,
            9 => NodeType::Highpass,
            10 => NodeType::Comb,
            11 => NodeType::Delay,
            12 => NodeType::Resonators,
            13 => NodeType::Decay,
            14 => NodeType::Drive,
            15 => NodeType::Crush,
            16 => NodeType::Gain,
            17 => NodeType::Mix,
            18 => NodeType::Mul,
            19 => NodeType::Reverb,
            _ => NodeType::Limiter,
        }
    }

    pub fn name(self) -> (r: &'static str)
        ensures
            r@ == self.label(),
    {
        match self {
            NodeType::Noise => "noise",
            NodeType::Sine => "sine",
            NodeType::Saw => "saw",
            NodeType::Tri => "tri",
            NodeType::Pulse => "pulse",
            NodeType::Dust => "dust",
            NodeType::Dc => "dc",
            NodeType::Svf => "svf",
            NodeType::Lowpass => "lowpass",
            NodeType::Highpass => "highpass",
            NodeType::Comb => "comb",
            NodeType::Delay => "delay",
            NodeType::Resonators => "resonators",
            NodeType::Decay => "decay",
            NodeType::Drive => "drive",
            NodeType::Crush => "crush",
            NodeType::Gain => "gain",
            NodeType::Mix => "mix",
            NodeType::Mul => "mul",
            NodeType::Reverb => "reverb",
            NodeType::Limiter => "limiter",
        }
    }

    /// What a node of the type does, in words.
    pub open spec fn blurb(self) -> Seq<char> {
        match self {
            NodeType::Noise => "Noise source. color = white | pink | brown"@,
            NodeType::Sine => "Sine oscillator"@,
            NodeType::Saw => "Band-limited sawtooth"@,
            NodeType::Tri => "Triangle oscillator"@,
            NodeType::Pulse => "Band-limited pulse"@,
            NodeType::Dust => "Random impulses, `rate` per second (rain drops, crackles, clicks)"@,
            NodeType::Dc => "Constant (smoothed) value, e.g. the offset in `1 + depth * lfo` tremolo via mul"@,
            NodeType::Svf => "State variable filter. mode = lowpass | highpass | bandpass | notch"@,
            NodeType::Lowpass => "Gentle 6 dB/oct low-pass"@,
            NodeType::Highpass => "Gentle 6 dB/oct high-pass"@,
            NodeType::Comb => "Feedback comb: tube and pipe resonance, flanging"@,
            NodeType::Delay => "Echo"@,
            NodeType::Resonators => "Bank of ringing band-passes at freqs * scale. route = all | random (each impulse excites one, detuned by up to +-spread octaves so drops do not sound like a chime)"@,
            NodeType::Decay => "Turns impulses into decaying envelopes; multiply with noise for bursts"@,
            NodeType::Drive => "Soft-clip saturation"@,
            NodeType::Crush => "Bit depth and sample-rate reduction"@,
            NodeType::Gain => "Smoothed gain"@,
            NodeType::Mix => "Sum of inputs (each input may carry its own gain)"@,
            NodeType::Mul => "sum(in) * sum(by): ring modulation, envelopes, gating"@,
            NodeType::Reverb => "Small room: gives events a tail (its send is high-passed so subs never ring)"@,
            NodeType::Limiter => "Soft limiter, never exceeds +-1"@,
        }
    }

    pub fn doc(self) -> (r: &'static str)
        ensures
            r@ == self.blurb(),
    {
        match self {
            NodeType::Noise => "Noise source. color = white | pink | brown",
            NodeType::Sine => "Sine oscillator",
            NodeType::Saw => "Band-limited sawtooth",
            NodeType::Tri => "Triangle oscillator",
            NodeType::Pulse => "Band-limited pulse",
            NodeType::Dust => "Random impulses, `rate` per second (rain drops, crackles, clicks)",
            NodeType::Dc => "Constant (smoothed) value, e.g. the offset in `1 + depth * lfo` tremolo via mul",
            NodeType::Svf => "State variable filter. mode = lowpass | highpass | bandpass | notch",
            NodeType::Lowpass => "Gentle 6 dB/oct low-pass",
            NodeType::Highpass => "Gentle 6 dB/oct high-pass",
            NodeType::Comb => "Feedback comb: tube and pipe resonance, flanging",
            NodeType::Delay => "Echo",
            NodeType::Resonators => "Bank of ringing band-passes at freqs * scale. route = all | random (each impulse excites one, detuned by up to +-spread octaves so drops do not sound like a chime)",
            NodeType::Decay => "Turns impulses into decaying envelopes; multiply with noise for bursts",
            NodeType::Drive => "Soft-clip saturation",
            NodeType::Crush => "Bit depth and sample-rate reduction",
            NodeType::Gain => "Smoothed gain",
            NodeType::Mix => "Sum of inputs (each input may carry its own gain)",
            NodeType::Mul => "sum(in) * sum(by): ring modulation, envelopes, gating",
            NodeType::Reverb => "Small room: gives events a tail (its send is high-passed so subs never ring)",
            NodeType::Limiter => "Soft limiter, never exceeds +-1",
        }
    }

    pub fn is_source(self) -> (r: bool)
        ensures
            r == self.source(),
    {
        match self {
            NodeType::Noise | NodeType::Sine | NodeType::Saw | NodeType::Tri | NodeType::Pulse | NodeType::Dust | NodeType::Dc => true,
            _ => false,
        }
    }

    pub fn params(self) -> (r: Vec<ParamInfo>)
        ensures
            infos(r@) == self.takes(),
            r@.len() <= 3,
    {
        let r = match self {
            NodeType::Noise => vec![],
            NodeType::Sine => vec![ParamInfo { name: "freq", default: None }],
            NodeType::Saw => vec![ParamInfo { name: "freq", default: None }],
            NodeType::Tri => vec![ParamInfo { name: "freq", default: None }],
            NodeType::Pulse => vec![ParamInfo { name: "freq", default: None }, ParamInfo { name: "width", default: Some(Single::of(HALF)) }],
            NodeType::Dust => vec![ParamInfo { name: "rate", default: None }],
            NodeType::Dc => vec![ParamInfo { name: "value", default: None }],
            NodeType::Svf => vec![ParamInfo { name: "cutoff", default: None }, ParamInfo { name: "resonance", default: Some(Single::of(P0_2)) }],
            NodeType::Lowpass => vec![ParamInfo { name: "cutoff", default: None }],
            NodeType::Highpass => vec![ParamInfo { name: "cutoff", default: None }],
            NodeType::Comb => vec![ParamInfo { name: "ms", default: None }, ParamInfo { name: "feedback", default: Some(Single::of(HALF)) }, ParamInfo { name: "mix", default: Some(Single::of(ONE)) }],
            NodeType::Delay => vec![ParamInfo { name: "ms", default: None }, ParamInfo { name: "feedback", default: Some(Single::of(P0_3)) }, ParamInfo { name: "mix", default: Some(Single::of(P0_3)) }],
            NodeType::Resonators => vec![ParamInfo { name: "resonance", default: Some(Single::of(P0_95)) }, ParamInfo { name: "scale", default: Some(Single::of(ONE)) }],
            NodeType::Decay => vec![ParamInfo { name: "ms", default: Some(Single::of(P5)) }],
            NodeType::Drive => vec![ParamInfo { name: "amount", default: Some(Single::of(HALF)) }],
            NodeType::Crush => vec![ParamInfo { name: "bits", default: Some(Single::of(P8)) }, ParamInfo { name: "downsample", default: Some(Single::of(ONE)) }],
            NodeType::Gain => vec![ParamInfo { name: "gain", default: None }],
            NodeType::Mix => vec![],
            NodeType::Mul => vec![],
            NodeType::Reverb => vec![ParamInfo { name: "time", default: Some(Single::of(P1_2)) }, ParamInfo { name: "mix", default: Some(Single::of(P0_3)) }, ParamInfo { name: "damping", default: Some(Single::of(P0_4)) }],
            NodeType::Limiter => vec![],
        };
        assert(infos(r@) =~= self.takes());
        r
    }

    pub fn statics(self) -> (r: Vec<&'static str>)
        ensures
            self::names(r@) == self.fixed(),
    {
        let r = match self {
            NodeType::Noise => vec!["color"],
            NodeType::Sine => vec![],
            NodeType::Saw => vec![],
            NodeType::Tri => vec![],
            NodeType::Pulse => vec![],
            NodeType::Dust => vec![],
            NodeType::Dc => vec![],
            NodeType::Svf => vec!["mode"],
            NodeType::Lowpass => vec![],
            NodeType::Highpass => vec![],
            NodeType::Comb => vec!["max_ms"],
            NodeType::Delay => vec!["max_ms"],
            NodeType::Resonators => vec!["freqs", "route", "spread"],
            NodeType::Decay => vec![],
            NodeType::Drive => vec![],
            NodeType::Crush => vec![],
            NodeType::Gain => vec![],
            NodeType::Mix => vec![],
            NodeType::Mul => vec![],
            NodeType::Reverb => vec![],
            NodeType::Limiter => vec![],
        };
        assert(self::names(r@) =~= self.fixed());
        r
    }

    /// The type with a name.
    pub fn find(name: &str) -> (r: Option<NodeType>)
        ensures
            match r {
                Some(t) => t.label() == name@,
                None => forall|t: NodeType| (#[trigger] t.label()) != name@,
            },
    {
        let mut i: usize = 0;
        while i < 21
            invariant
                i <= 21,
                forall|k: int| 0 <= k < i ==> (#[trigger] NodeType::all()[k]).label() != name@,
            decreases 21 - i,
        {
            let t = NodeType::from_index(i);
            if equal(t.name(), name) {
                return Some(t);
            }
            i = i + 1;
        }
        proof {
            assert forall|t: NodeType| (#[trigger] t.label()) != name@ by {
                assert(NodeType::all()[t.position()] == t);
            }
        }
        None
    }

    /// Names of all arguments: those that take formulas, then the fixed ones.
    pub open spec fn arguments(self) -> Seq<Seq<char>> {
        Seq::new(self.takes().len(), |i: int| self.takes()[i].0) + self.fixed()
    }

    pub fn argument_names(self) -> (r: Vec<&'static str>)
        ensures
            self::names(r@) == self.arguments(),
    {
        let params = self.params();
        let mut r: Vec<&'static str> = Vec::new();
        let mut i: usize = 0;
        while i < params.len()
            invariant
                i <= params@.len(),
                infos(params@) == self.takes(),
                self::names(r@) == self.arguments().take(i as int),
            decreases params@.len() - i,
        {
            assert(self.takes()[i as int] == infos(params@)[i as int]);
            let ghost before = r@;
            r.push(params[i].name);
            i = i + 1;
            assert(self::names(r@) =~= self::names(before).push(r@.last()@));
            assert(self.arguments().take(i as int) =~= self.arguments().take(i - 1).push(r@.last()@));
        }
        let fixed = self.statics();
        let mut k: usize = 0;
        let ghost offset = params@.len() as int;
        assert(offset == self.takes().len());
        while k < fixed.len()
            invariant
                k <= fixed@.len(),
                offset == self.takes().len(),
                self::names(fixed@) == self.fixed(),
                self::names(r@) == self.arguments().take(offset + k),
            decreases fixed@.len() - k,
        {
            assert(self.fixed()[k as int] == self::names(fixed@)[k as int]);
            let ghost before = r@;
            r.push(fixed[k]);
            k = k + 1;
            assert(self::names(r@) =~= self::names(before).push(r@.last()@));
            assert(self.arguments().take(offset + k) =~= self.arguments().take(offset + k - 1).push(r@.last()@));
        }
        assert(self.arguments().take(offset + k) =~= self.arguments());
        r
    }
}

/// The names and defaults of a list of arguments.
pub open spec fn infos(list: Seq<ParamInfo>) -> Seq<(Seq<char>, Option<Single>)> {
    Seq::new(list.len(), |i: int| (list[i].name@, list[i].default))
}

/// The texts of a list of names.
pub open spec fn names(list: Seq<&'static str>) -> Seq<Seq<char>> {
    Seq::new(list.len(), |i: int| list[i]@)
}

/// Texts one after the other, with a comma between them.
pub open spec fn listed(list: Seq<Seq<char>>) -> Seq<char>
    decreases list.len(),
{
    if list.len() == 0 {
        seq![]
    } else if list.len() == 1 {
        list[0]
    } else {
        listed(list.drop_last()) + ", "@ + list.last()
    }
}

/// Texts one after the other, with a comma between them.
pub fn list_text(list: &Vec<&'static str>) -> (r: String)
    ensures
        r@ == listed(names(list@)),
{
    let mut r = String::new();
    let mut i: usize = 0;
    while i < list.len()
        invariant
            i <= list@.len(),
            r@ == listed(names(list@).take(i as int)),
        decreases list@.len() - i,
    {
        let ghost before = names(list@).take(i as int);
        if i > 0 {
            r = plus(r, ", ");
        }
        r = plus(r, list[i]);
        i = i + 1;
        proof {
            let now = names(list@).take(i as int);
            assert(now.drop_last() =~= before);
            assert(now.last() == list@[i - 1]@);
            if i == 1 {
                assert(r@ =~= now[0]);
            }
        }
    }
    assert(names(list@).take(i as int) =~= names(list@));
    r
}

/// Names of all node types.
pub open spec fn type_names() -> Seq<Seq<char>> {
    Seq::new(NodeType::all().len(), |i: int| NodeType::all()[i].label())
}

pub fn type_list() -> (r: String)
    ensures
        r@ == listed(type_names()),
{
    let mut list: Vec<&'static str> = Vec::new();
    let mut i: usize = 0;
    while i < 21
        invariant
            i <= 21,
            names(list@) == type_names().take(i as int),
        decreases 21 - i,
    {
        let ghost before = list@;
        list.push(NodeType::from_index(i).name());
        i = i + 1;
        assert(names(list@) =~= names(before).push(list@.last()@));
        assert(type_names().take(i as int) =~= type_names().take(i - 1).push(list@.last()@));
    }
    assert(type_names().take(i as int) =~= type_names());
    list_text(&list)
}

/// Node types with their parameters, for editors and documentation.
pub fn node_library() -> (r: Vec<NodeInfo>)
    ensures
        r@.len() == NodeType::all().len(),
        forall|i: int|
            0 <= i < r@.len() ==> {
                &&& (#[trigger] r@[i]).name@ == NodeType::all()[i].label()
                &&& infos(r@[i].params@) == NodeType::all()[i].takes()
                &&& names(r@[i].statics@) == NodeType::all()[i].fixed()
                &&& r@[i].doc@ == NodeType::all()[i].blurb()
            },
{
    let mut r: Vec<NodeInfo> = Vec::new();
    let mut i: usize = 0;
    while i < 21
        invariant
            i <= 21,
            r@.len() == i,
            forall|i: int|
                0 <= i < r@.len() ==> {
                    &&& (#[trigger] r@[i]).name@ == NodeType::all()[i].label()
                    &&& infos(r@[i].params@) == NodeType::all()[i].takes()
                    &&& names(r@[i].statics@) == NodeType::all()[i].fixed()
                &&& r@[i].doc@ == NodeType::all()[i].blurb()
                },
        decreases 21 - i,
    {
        let t = NodeType::from_index(i);
        r.push(NodeInfo { name: t.name(), params: t.params(), statics: t.statics(), doc: t.doc() });
        i = i + 1;
    }
    r
}

/// Length and first letters of a name.
spec fn sign(t: NodeType) -> (int, char, char, char) {
    match t {
        NodeType::Noise => (5, 'n', 'o', 'i'),
        NodeType::Sine => (4, 's', 'i', 'n'),
        NodeType::Saw => (3, 's', 'a', 'w'),
        NodeType::Tri => (3, 't', 'r', 'i'),
        NodeType::Pulse => (5, 'p', 'u', 'l'),
        NodeType::Dust => (4, 'd', 'u', 's'),
        NodeType::Dc => (2, 'd', 'c', ' '),
        NodeType::Svf => (3, 's', 'v', 'f'),
        NodeType::Lowpass => (7, 'l', 'o', 'w'),
        NodeType::Highpass => (8, 'h', 'i', 'g'),
        NodeType::Comb => (4, 'c', 'o', 'm'),
        NodeType::Delay => (5, 'd', 'e', 'l'),
        NodeType::Resonators => (10, 'r', 'e', 's'),
        NodeType::Decay => (5, 'd', 'e', 'c'),
        NodeType::Drive => (5, 'd', 'r', 'i'),
        NodeType::Crush => (5, 'c', 'r', 'u'),
        NodeType::Gain => (4, 'g', 'a', 'i'),
        NodeType::Mix => (3, 'm', 'i', 'x'),
        NodeType::Mul => (3, 'm', 'u', 'l'),
        NodeType::Reverb => (6, 'r', 'e', 'v'),
        NodeType::Limiter => (7, 'l', 'i', 'm'),
    }
}

proof fn lemma_sign(t: NodeType)
    ensures
        t.label().len() == sign(t).0,
        t.label()[0] == sign(t).1,
        t.label()[1] == sign(t).2,
        sign(t).0 > 2 ==> t.label()[2] == sign(t).3,
{
    reveal_strlit("noise");
    reveal_strlit("sine");
    reveal_strlit("saw");
    reveal_strlit("tri");
    reveal_strlit("pulse");
    reveal_strlit("dust");
    reveal_strlit("dc");
    reveal_strlit("svf");
    reveal_strlit("lowpass");
    reveal_strlit("highpass");
    reveal_strlit("comb");
    reveal_strlit("delay");
    reveal_strlit("resonators");
    reveal_strlit("decay");
    reveal_strlit("drive");
    reveal_strlit("crush");
    reveal_strlit("gain");
    reveal_strlit("mix");
    reveal_strlit("mul");
    reveal_strlit("reverb");
    reveal_strlit("limiter");
}

/// Names tell the types apart.
pub proof fn lemma_types_differ(a: NodeType, b: NodeType)
    requires
        a.label() == b.label(),
    ensures
        a == b,
{
    lemma_sign(a);
    lemma_sign(b);
}

} // verus!
