//! A model file compiled into a running model.
use vstd::prelude::*;

use crate::arith::{meant, total, Prim, Sums};
use crate::blocks::BLOCK;
use crate::graph::assemble::{codes, Ctx, Made};
use crate::graph::expr::{ExprState, Program};
use crate::graph::grammar::{first_of, Op, Scope};
use crate::graph::host::{Host, Sense};
use crate::graph::node::UNSET;
use crate::graph::order::{int_lists, ints};
use crate::graph::parse::{position, texts};
use crate::graph::run::{
    finish_block, play_nodes, programs_wf, run_signals, signals_wf, smooth_inputs, Scratch, INPUT_OFF,
};
use crate::graph::spec::{
    args_len, args_of, inputs_len, inputs_of, keys, params_len, params_of, presets_of, ModelError, ModelSpec,
    MAX_INPUTS, MAX_NODES, MAX_PARAMS, MAX_SIGNALS,
};
use crate::graph::tables::{
    build_inputs, build_names, build_params, build_presets, default_preset, described, input_keys, input_list, param_keys,
    preset_list, signal_keys, InputView, ParamView, PresetView,
};
use crate::graph::wiring::{
    build_node_deps, build_nodes, build_places, build_signal_deps, build_signals, build_sources, check_ids, node_ids,
    node_views, nodes_wf, order_items, Node, NodeView, Source,
};
use crate::math::Rng;
use crate::model::{Engine, ModelDesc};
use crate::single::{exact, Single, ONE, ZERO};
use crate::text::{equal, owned, plus};

verus! {

/// Pattern of -9.21.
pub const N9_21: u32 = 0xc113_5c29;

/// Pattern of 0.001.
pub const P0_001: u32 = 0x3a83_126f;

/// Pattern of 0.25.
pub const P0_25: u32 = 0x3e80_0000;

/// Pattern of 8000.
pub const P8000: u32 = 0x45fa_0000;

/// Pattern of 48000.
pub const P48000: u32 = 0x473b_8000;

/// A compiled, running model.
#[derive(Debug)]
pub struct GraphModel {
    pub desc: ModelDesc,
    pub sample_rate: Single,
    /// Value table read by programs: `[sr, t, rnd, inputs.., params.., signals..]`.
    pub vars: Vec<Single>,
    pub input_target: Vec<Single>,
    pub input_secs: Vec<Single>,
    pub param_off: usize,
    pub signal_off: usize,
    pub signal_names: Vec<String>,
    /// (program, var slot) per signal, in dependency order.
    pub signals: Vec<(usize, usize)>,
    pub programs: Vec<Program>,
    pub states: Vec<ExprState>,
    pub nodes: Vec<Node>,
    pub bufs: Vec<Vec<Single>>,
    pub out: usize,
    pub peak: Single,
    pub peak_decay: Single,
    pub rng: Rng,
    /// Triggered at least once.
    pub live: bool,
    /// Highest peak since the last trigger.
    pub top: Single,
    pub scratch: Scratch,
}

/// What a [`GraphModel`] plays with.
pub struct Running {
    pub one_shot: bool,
    pub sr: Single,
    pub vars: Seq<Single>,
    pub target: Seq<Single>,
    pub secs: Seq<Single>,
    pub signals: Seq<(usize, usize)>,
    pub programs: Seq<Seq<Op>>,
    pub states: Seq<ExprState>,
    pub nodes: Seq<NodeView>,
    pub out: int,
    pub peak: Single,
    pub decay: Single,
    pub rng: Rng,
    pub live: bool,
    pub top: Single,
}

impl View for GraphModel {
    type V = Running;

    open spec fn view(&self) -> Running {
        Running {
            one_shot: self.desc.one_shot,
            sr: self.sample_rate,
            vars: self.vars@,
            target: self.input_target@,
            secs: self.input_secs@,
            signals: self.signals@,
            programs: codes(self.programs@),
            states: self.states@,
            nodes: node_views(self.nodes@),
            out: self.out as int,
            peak: self.peak,
            decay: self.peak_decay,
            rng: self.rng,
            live: self.live,
            top: self.top,
        }
    }
}

/// Name, category and description, with what stands in for an empty one.
pub open spec fn or_custom(s: Seq<char>) -> Seq<char> {
    if s.len() == 0 {
        "custom"@
    } else {
        s
    }
}

fn named_or_custom(s: &String) -> (r: String)
    ensures
        r@ == or_custom(s@),
{
    if equal(s.as_str(), "") {
        proof {
            reveal_strlit("");
        }
        owned("custom")
    } else {
        proof {
            reveal_strlit("");
            assert(s@.len() == 0 ==> s@ =~= ""@);
        }
        s.clone()
    }
}

/// What a file is compiled into: its description, and what plays.
pub struct Compiled {
    pub name: Seq<char>,
    pub category: Seq<char>,
    pub doc: Seq<char>,
    pub inputs: Seq<InputView>,
    pub params: Seq<ParamView>,
    pub presets: Seq<PresetView>,
    pub signal_names: Seq<Seq<char>>,
    pub running: Running,
}

/// The value table of a model that has not played yet.
pub open spec fn first_vars(sr: Single, inputs: Seq<InputView>, params: Seq<ParamView>, signals: nat) -> Seq<Single> {
    seq![sr, Single::of(ZERO), Single::of(ZERO)] + Seq::new(inputs.len(), |i: int| inputs[i].default) + Seq::new(
        params.len(),
        |i: int| params[i].default,
    ) + crate::blocks::silence(signals)
}

/// The signals of an order: program `k` computes the signal at place `k`.
pub open spec fn signal_slots(order: Seq<int>, off: int) -> Seq<(usize, usize)> {
    Seq::new(order.len(), |k: int| (k as usize, (off + order[k]) as usize))
}

/// Factor by which the peak meter falls per sample.
pub open spec fn meter_decay(f: Sums, sr: Single) -> Single {
    let e = f(Prim::Div, Single::of(N9_21), f(Prim::Mul, Single::of(P0_25), sr));
    f(Prim::Exp, e, Single::of(ZERO))
}

/// What is wrong with the size of a file.
pub open spec fn oversized(spec: ModelSpec) -> Option<Seq<char>> {
    if inputs_of(&spec.inputs).len() > MAX_INPUTS || params_of(&spec.params).len() > MAX_PARAMS || args_of(&spec.signals).len()
        > MAX_SIGNALS {
        Some("too large: at most 16 inputs, 64 params and 128 signals"@)
    } else if spec.graph.nodes@.len() == 0 || spec.graph.nodes@.len() > MAX_NODES {
        Some("[graph] needs between 1 and 256 nodes"@)
    } else {
        None
    }
}

fn check_size(spec: &ModelSpec) -> (r: Result<(), ModelError>)
    ensures
        match r {
            Ok(_) => oversized(*spec) is None,
            Err(e) => oversized(*spec) == Some(e.0@),
        },
{
    if inputs_len(&spec.inputs) > MAX_INPUTS || params_len(&spec.params) > MAX_PARAMS || args_len(&spec.signals) > MAX_SIGNALS {
        return Err(ModelError(owned("too large: at most 16 inputs, 64 params and 128 signals")));
    }
    if spec.graph.nodes.len() == 0 || spec.graph.nodes.len() > MAX_NODES {
        return Err(ModelError(owned("[graph] needs between 1 and 256 nodes")));
    }
    Ok(())
}

/// The hint that goes with nodes that form a loop.
pub open spec fn feedback_hint() -> Seq<char> {
    "Feedback between nodes is not supported; use a comb or delay node."@
}

/// What the signals of a file are made into: their order, and what has been made then.
#[verifier::opaque]
pub open spec fn signals_made(w: Sense, spec: ModelSpec, names: Seq<Seq<char>>) -> Result<(Seq<int>, Made), Seq<char>> {
    let entries = args_of(&spec.signals);
    match crate::graph::wiring::signal_sources(entries, seq![]) {
        Err(text) => Err(text),
        Ok(sources) => match crate::graph::wiring::signal_deps(w, keys(entries), sources, seq![]) {
            Err(text) => Err(text),
            Ok(deps) => match crate::graph::wiring::ordered("signals"@, keys(entries), deps, ""@) {
                Err(text) => Err(text),
                Ok(order) => match crate::graph::wiring::signal_programs(
                    w,
                    Scope::Names(names),
                    keys(entries),
                    sources,
                    order,
                    Made { programs: seq![], states: seq![] },
                    0,
                ) {
                    Err(text) => Err(text),
                    Ok(made) => Ok((order, made)),
                },
            },
        },
    }
}

/// What the nodes of a file are made into: the nodes in order, what has been made then, and the node
/// that is heard.
#[verifier::opaque]
pub open spec fn nodes_made(w: Sense, spec: ModelSpec, names: Seq<Seq<char>>, sr: Single, made: Made) -> Result<
    (Seq<NodeView>, Made, int),
    Seq<char>,
> {
    let nodes = spec.graph.nodes@;
    let all = crate::graph::wiring::ids(nodes);
    match crate::graph::wiring::repeated(all, 0) {
        Some(text) => Err(text),
        None => match crate::graph::wiring::node_deps(all, nodes, seq![]) {
            Err(text) => Err(text),
            Ok(deps) => match crate::graph::wiring::ordered("nodes"@, all, deps, feedback_hint()) {
                Err(text) => Err(text),
                Ok(order) => match crate::graph::wiring::nodes_built(
                    w,
                    Scope::Names(names),
                    nodes,
                    order,
                    sr,
                    made,
                    seq![],
                ) {
                    Err(text) => Err(text),
                    Ok((list, more)) => match first_of(all, spec.graph.out@) {
                        None => Err("[graph] out = '"@ + spec.graph.out@ + "' is not a node id"@),
                        Some(i) => Ok((list, more, crate::graph::wiring::places(order)[i])),
                    },
                },
            },
        },
    }
}

/// What a file is compiled into, or the first thing wrong with it.
pub open spec fn compiled(w: Sense, spec: ModelSpec, sr: Single) -> Result<Compiled, Seq<char>> {
    let (inputs, params, signals) = (inputs_of(&spec.inputs), params_of(&spec.params), args_of(&spec.signals));
    match oversized(spec) {
        Some(text) => Err(text),
        None => match crate::graph::tables::name_table(keys(inputs), keys(params), keys(signals)) {
            Err(text) => Err(text),
            Ok(names) => match crate::graph::tables::param_views(params, seq![]) {
                Err(text) => Err(text),
                Ok(views) => match crate::graph::tables::preset_views(
                    keys(params),
                    views,
                    presets_of(&spec.presets),
                    seq![default_preset(views)],
                ) {
                    Err(text) => Err(text),
                    Ok(presets) => match signals_made(w, spec, names) {
                        Err(text) => Err(text),
                        Ok((order, made)) => match nodes_made(w, spec, names, sr, made) {
                            Err(text) => Err(text),
                            Ok((nodes, more, out)) => {
                                let shown = crate::graph::tables::input_views(inputs);
                                Ok(
                                    Compiled {
                                        name: or_custom(spec.model.name@),
                                        category: or_custom(spec.model.category@),
                                        doc: spec.model.doc@,
                                        inputs: shown,
                                        params: views,
                                        presets,
                                        signal_names: keys(signals),
                                        running: Running {
                                            one_shot: spec.model.one_shot,
                                            sr,
                                            vars: first_vars(sr, shown, views, signals.len()),
                                            target: Seq::new(shown.len(), |i: int| shown[i].default),
                                            secs: crate::graph::tables::settle_times(inputs),
                                            signals: signal_slots(order, INPUT_OFF + shown.len() + views.len()),
                                            programs: more.programs,
                                            states: more.states,
                                            nodes,
                                            out,
                                            peak: Single::of(ZERO),
                                            decay: meter_decay(w.f, sr),
                                            rng: Rng::seeded_with(crate::math::DEFAULT_SEED),
                                            live: false,
                                            top: Single::of(ZERO),
                                        },
                                    },
                                )
                            },
                        },
                    },
                },
            },
        },
    }
}

impl GraphModel {
    /// Tables that fit together.
    pub open spec fn wf(&self) -> bool {
        &&& self.param_off == INPUT_OFF + self.desc.inputs@.len()
        &&& self.signal_off == self.param_off + self.desc.params@.len()
        &&& self.vars@.len() == self.signal_off + self.signal_names@.len()
        &&& self.vars@.len() <= 0x1_0000
        &&& self.input_target@.len() == self.desc.inputs@.len()
        &&& self.input_secs@.len() == self.desc.inputs@.len()
        &&& forall|i: int| 0 <= i < self.desc.params@.len() ==> (#[trigger] self.desc.params@[i]).kind.wf()
        &&& forall|i: int|
            0 <= i < self.desc.presets@.len() ==> (#[trigger] self.desc.presets@[i]).values@.len() == self.desc.params@.len()
        &&& programs_wf(self.programs@, self.vars@.len(), self.states@.len())
        &&& signals_wf(self.signals@, self.programs@.len(), self.vars@.len())
        &&& nodes_wf(self.nodes@, self.programs@.len())
        &&& self.bufs@.len() == self.nodes@.len()
        &&& self.out < self.nodes@.len()
    }

    /// The model is what a file was compiled into.
    pub open spec fn is(&self, c: Compiled) -> bool {
        &&& self.desc.name@ == c.name
        &&& self.desc.category@ == c.category
        &&& self.desc.doc@ == c.doc
        &&& self.desc.engine == Engine::Graph
        &&& input_list(self.desc.inputs@) == c.inputs
        &&& described(self.desc.params@) == c.params
        &&& preset_list(self.desc.presets@) == c.presets
        &&& texts(self.signal_names@) == c.signal_names
        &&& self@ == c.running
    }
}

fn make_signals<F: Fn(Prim, Single, Single) -> Single, N: Fn(&String) -> Single, S: Fn(&String) -> String>(host: &Host<'_, F, N, S>, spec: &ModelSpec, names: &Vec<String>, labels: &Vec<String>, ctx: &mut Ctx) -> (r: Result<
    Vec<usize>,
    ModelError,
>)
    requires
        host.ok(),
        names@.len() <= 0x1_0000,
        old(ctx).programs@.len() == 0,
        old(ctx).states@.len() == 0,
        texts(labels@) == keys(args_of(&spec.signals)),
    ensures
        final(ctx).wf(names@.len()),
        r matches Ok(order) ==> {
            &&& order@.len() == labels@.len()
            &&& final(ctx).programs@.len() == order@.len()
            &&& forall|p: int| 0 <= p < order@.len() ==> #[trigger] order@[p] < labels@.len()
        },
        forall|w: Sense| #[trigger]
            host.means(w) ==> match (r, signals_made(w, *spec, texts(names@))) {
                (Ok(order), Ok((found, made))) => ints(order@) == found && final(ctx)@ == made,
                (Err(e), Err(text)) => e.0@ == text,
                _ => false,
            },
{
    reveal(signals_made);
    let ghost entries = args_of(&spec.signals);
    assert(codes(ctx.programs@) =~= seq![]);
    assert(ctx.states@ =~= seq![]);
    assert(ctx@ == (Made { programs: seq![], states: seq![] }));
    assert(labels@.len() == entries.len()) by {
        assert(texts(labels@).len() == keys(entries).len());
    }
    let sources = match build_sources(&spec.signals) {
        Ok(sources) => sources,
        Err(e) => return Err(e),
    };
    let deps = match build_signal_deps(host, &spec.signals, &sources) {
        Ok(deps) => deps,
        Err(e) => return Err(e),
    };
    let order = match order_items("signals", labels, &deps, "") {
        Ok(order) => order,
        Err(e) => return Err(e),
    };
    if let Err(e) = build_signals(host, names, labels, &sources, &order, ctx) {
        return Err(e);
    }
    Ok(order)
}

fn make_nodes<F: Fn(Prim, Single, Single) -> Single, N: Fn(&String) -> Single, S: Fn(&String) -> String>(host: &Host<'_, F, N, S>, spec: &ModelSpec, names: &Vec<String>, sr: Single, ctx: &mut Ctx) -> (r: Result<
    (Vec<Node>, usize),
    ModelError,
>)
    requires
        host.ok(),
        names@.len() <= 0x1_0000,
        old(ctx).wf(names@.len()),
        oversized(*spec) is None,
    ensures
        final(ctx).wf(names@.len()),
        final(ctx).programs@.len() >= old(ctx).programs@.len(),
        r matches Ok((nodes, out)) ==> nodes_wf(nodes@, final(ctx).programs@.len()) && out < nodes@.len(),
        forall|w: Sense| #[trigger]
            host.means(w) ==> match (r, nodes_made(w, *spec, texts(names@), sr, old(ctx)@)) {
                (Ok((nodes, out)), Ok((found, made, place))) => node_views(nodes@) == found && final(ctx)@ == made && out
                    == place,
                (Err(e), Err(text)) => e.0@ == text,
                _ => false,
            },
{
    reveal(nodes_made);
    let all = node_ids(&spec.graph.nodes);
    let ghost nodes = spec.graph.nodes@;
    assert(all@.len() == nodes.len()) by {
        assert(texts(all@).len() == crate::graph::wiring::ids(nodes).len());
    }
    if let Err(e) = check_ids(&all) {
        return Err(e);
    }
    let deps = match build_node_deps(&all, &spec.graph.nodes) {
        Ok(deps) => deps,
        Err(e) => return Err(e),
    };
    let order = match order_items(
        "nodes",
        &all,
        &deps,
        "Feedback between nodes is not supported; use a comb or delay node.",
    ) {
        Ok(order) => order,
        Err(e) => return Err(e),
    };
    let at = build_places(&order);
    let list = match build_nodes(
        host,
        names,
        &all,
        &spec.graph.nodes,
        &order,
        &at,
        sr,
        ctx,
        Ghost(int_lists(deps@)),
    ) {
        Ok(list) => list,
        Err(e) => return Err(e),
    };
    match position(&all, spec.graph.out.as_str()) {
        None => {
            let head = plus(owned("[graph] out = '"), spec.graph.out.as_str());
            Err(ModelError(plus(head, "' is not a node id")))
        },
        Some(i) => {
            assert(at@[i as int] < order@.len());
            assert(ints(at@)[i as int] == at@[i as int]);
            Ok((list, at[i]))
        },
    }
}

fn make_vars(sr: Single, desc: &ModelDesc, signals: usize) -> (r: Vec<Single>)
    ensures
        r@ == first_vars(sr, input_list(desc.inputs@), described(desc.params@), signals as nat),
        r@.len() == 3 + desc.inputs@.len() + desc.params@.len() + signals,
{
    let ghost inputs = Seq::new(desc.inputs@.len(), |i: int| input_list(desc.inputs@)[i].default);
    let ghost params = Seq::new(desc.params@.len(), |i: int| described(desc.params@)[i].default);
    let mut vars: Vec<Single> = Vec::new();
    vars.push(sr);
    vars.push(Single::of(ZERO));
    vars.push(Single::of(ZERO));
    let ghost head = vars@;
    let mut i: usize = 0;
    assert(vars@ =~= head + inputs.take(0));
    while i < desc.inputs.len()
        invariant
            i <= desc.inputs@.len() == inputs.len(),
            inputs == Seq::new(desc.inputs@.len(), |i: int| input_list(desc.inputs@)[i].default),
            vars@ == head + inputs.take(i as int),
        decreases desc.inputs@.len() - i,
    {
        vars.push(desc.inputs[i].default);
        i = i + 1;
        assert(vars@ =~= head + inputs.take(i as int));
    }
    let ghost middle = vars@;
    let mut k: usize = 0;
    assert(vars@ =~= middle + params.take(0));
    while k < desc.params.len()
        invariant
            k <= desc.params@.len() == params.len(),
            params == Seq::new(desc.params@.len(), |i: int| described(desc.params@)[i].default),
            vars@ == middle + params.take(k as int),
        decreases desc.params@.len() - k,
    {
        vars.push(desc.params[k].default);
        k = k + 1;
        assert(vars@ =~= middle + params.take(k as int));
    }
    let ghost most = vars@;
    let mut n: usize = 0;
    assert(vars@ =~= most + crate::blocks::silence(0));
    while n < signals
        invariant
            n <= signals,
            vars@ == most + crate::blocks::silence(n as nat),
        decreases signals - n,
    {
        vars.push(Single::of(ZERO));
        n = n + 1;
        assert(vars@ =~= most + crate::blocks::silence(n as nat));
    }
    assert(vars@ =~= first_vars(sr, input_list(desc.inputs@), described(desc.params@), signals as nat));
    vars
}

fn make_slots(order: &Vec<usize>, off: usize) -> (r: Vec<(usize, usize)>)
    requires
        off + order@.len() <= 0x1_0000,
        forall|p: int| 0 <= p < order@.len() ==> #[trigger] order@[p] < order@.len(),
    ensures
        r@ == signal_slots(ints(order@), off as int),
        signals_wf(r@, order@.len(), off as nat + order@.len()),
{
    let mut r: Vec<(usize, usize)> = Vec::new();
    let mut k: usize = 0;
    while k < order.len()
        invariant
            k <= order@.len(),
            off + order@.len() <= 0x1_0000,
            forall|p: int| 0 <= p < order@.len() ==> #[trigger] order@[p] < order@.len(),
            r@ == signal_slots(ints(order@), off as int).take(k as int),
            signals_wf(r@, order@.len(), off as nat + order@.len()),
        decreases order@.len() - k,
    {
        assert(order@[k as int] < order@.len());
        r.push((k, off + order[k]));
        k = k + 1;
        assert(r@ =~= signal_slots(ints(order@), off as int).take(k as int));
    }
    assert(signal_slots(ints(order@), off as int).take(k as int) =~= signal_slots(ints(order@), off as int));
    r
}

fn make_targets(desc: &ModelDesc) -> (r: Vec<Single>)
    ensures
        r@ == Seq::new(desc.inputs@.len(), |i: int| input_list(desc.inputs@)[i].default),
{
    let ghost all = Seq::new(desc.inputs@.len(), |i: int| input_list(desc.inputs@)[i].default);
    let mut r: Vec<Single> = Vec::new();
    let mut i: usize = 0;
    while i < desc.inputs.len()
        invariant
            i <= desc.inputs@.len() == all.len(),
            all == Seq::new(desc.inputs@.len(), |i: int| input_list(desc.inputs@)[i].default),
            r@ == all.take(i as int),
        decreases desc.inputs@.len() - i,
    {
        r.push(desc.inputs[i].default);
        i = i + 1;
        assert(r@ =~= all.take(i as int));
    }
    assert(all.take(i as int) =~= all);
    r
}

fn make_bufs(count: usize) -> (r: Vec<Vec<Single>>)
    ensures
        r@.len() == count,
{
    let mut r: Vec<Vec<Single>> = Vec::new();
    while r.len() < count
        invariant
            r@.len() <= count,
        decreases count - r@.len(),
    {
        r.push(Vec::with_capacity(BLOCK));
    }
    r
}

/// Compile a model file: validate it, order it, and allocate everything that playing needs.
#[verifier::rlimit(40)]
pub fn compile<F: Fn(Prim, Single, Single) -> Single, N: Fn(&String) -> Single, S: Fn(&String) -> String>(host: &Host<'_, F, N, S>, spec: &ModelSpec, sr: Single) -> (r: Result<GraphModel, ModelError>)
    requires
        host.ok(),
    ensures
        r matches Ok(m) ==> m.wf(),
        forall|w: Sense| #[trigger]
            host.means(w) ==> match (r, compiled(w, *spec, sr)) {
                (Ok(m), Ok(c)) => m.is(c),
                (Err(e), Err(text)) => e.0@ == text,
                _ => false,
            },
{
    if let Err(e) = check_size(spec) {
        return Err(e);
    }
    let input_names = input_keys(&spec.inputs);
    let param_names = param_keys(&spec.params);
    let signal_names = signal_keys(&spec.signals);
    proof {
        assert(texts(input_names@).len() == keys(inputs_of(&spec.inputs)).len());
        assert(texts(param_names@).len() == keys(params_of(&spec.params)).len());
        assert(texts(signal_names@).len() == keys(args_of(&spec.signals)).len());
    }
    let names = match build_names(&input_names, &param_names, &signal_names) {
        Ok(names) => names,
        Err(e) => return Err(e),
    };
    let params = match build_params(&spec.params) {
        Ok(params) => params,
        Err(e) => return Err(e),
    };
    let presets = match build_presets(&spec.params, &params, &spec.presets) {
        Ok(presets) => presets,
        Err(e) => return Err(e),
    };
    let (inputs, input_secs) = build_inputs(&spec.inputs);
    proof {
        assert(input_list(inputs@).len() == inputs_of(&spec.inputs).len());
    }
    let desc = ModelDesc {
        name: named_or_custom(&spec.model.name),
        category: named_or_custom(&spec.model.category),
        doc: spec.model.doc.clone(),
        engine: Engine::Graph,
        one_shot: spec.model.one_shot,
        inputs,
        params,
        presets,
    };
    let mut ctx = Ctx { programs: Vec::new(), states: Vec::new() };
    let order = match make_signals(host, spec, &names, &signal_names, &mut ctx) {
        Ok(order) => order,
        Err(e) => return Err(e),
    };
    let (nodes, out) = match make_nodes(host, spec, &names, sr, &mut ctx) {
        Ok(made) => made,
        Err(e) => return Err(e),
    };
    let param_off = INPUT_OFF + desc.inputs.len();
    let signal_off = param_off + desc.params.len();
    let vars = make_vars(sr, &desc, signal_names.len());
    let signals = make_slots(&order, signal_off);
    let input_target = make_targets(&desc);
    let fpu = host.fpu;
    let e = fpu(Prim::Div, Single::of(N9_21), fpu(Prim::Mul, Single::of(P0_25), sr));
    let peak_decay = fpu(Prim::Exp, e, Single::of(ZERO));
    let bufs = make_bufs(nodes.len());
    let m = GraphModel {
        desc,
        sample_rate: sr,
        vars,
        input_target,
        input_secs,
        param_off,
        signal_off,
        signal_names,
        signals,
        programs: ctx.programs,
        states: ctx.states,
        nodes,
        bufs,
        out,
        peak: Single::of(ZERO),
        peak_decay,
        rng: Rng::default(),
        live: false,
        top: Single::of(ZERO),
        scratch: Scratch {
            pv: Vec::with_capacity(4),
            x: Vec::with_capacity(BLOCK),
            by: Vec::with_capacity(BLOCK),
        },
    };
    proof {
        assert(signals_wf(m.signals@, m.programs@.len(), m.vars@.len()));
        assert(m.wf());
    }
    Ok(m)
}

/// A usable sample rate: at least 8000, else 48000.
pub open spec fn usable_rate(sample_rate: Single) -> Single {
    if sample_rate.finite() && Single::of(P8000).at_most(sample_rate) {
        sample_rate
    } else {
        Single::of(P48000)
    }
}

/// A block of a model: the inputs settle, the signals follow, the nodes play. A one-shot model that
/// was never triggered is silent and stays as it is.
#[verifier::opaque]
pub open spec fn block_played(f: Sums, m: Running, n: nat) -> (Running, Seq<Single>) {
    if m.one_shot && !m.live {
        (m, crate::blocks::silence(n))
    } else {
        let dt = f(Prim::Div, crate::single::integer(n), m.sr);
        let settled = crate::graph::run::smoothed(f, m.vars, m.target, m.secs, dt, m.target.len());
        let (vars, states) = crate::graph::run::signalled(f, m.programs, m.signals, settled, m.states, dt, m.signals.len());
        let p = crate::graph::run::played(f, m.nodes, m.programs, vars, states, dt, m.sr, n, m.nodes.len());
        let out = crate::graph::run::finished_block(f, p.bufs[m.out]);
        let peak = crate::graph::run::metered(f, m.peak, m.decay, out, out.len());
        (
            Running {
                vars: vars.update(1, f(Prim::Add, vars[1], dt)),
                states: p.states,
                nodes: p.nodes,
                peak,
                top: m.top.larger(peak),
                ..m
            },
            out,
        )
    }
}

/// As many samples as asked for, in blocks.
pub open spec fn rendered(f: Sums, m: Running, count: nat) -> (Running, Seq<Single>)
    decreases count,
{
    if count == 0 {
        (m, seq![])
    } else {
        let n: nat = if count < BLOCK {
            count
        } else {
            BLOCK as nat
        };
        let (after, out) = block_played(f, m, n);
        let (last, rest) = rendered(f, after, (count - n) as nat);
        (last, out + rest)
    }
}

/// The sources of a node before their first block.
pub open spec fn unset(list: Seq<Source>) -> Seq<Source> {
    Seq::new(list.len(), |i: int| Source { last: Single::of(UNSET), ..list[i] })
}

/// A node whose next block jumps to its inputs and arguments.
pub open spec fn snapped_node(n: NodeView) -> NodeView {
    NodeView {
        kind: crate::graph::node::snapped_kind(n.kind),
        inputs: unset(n.inputs),
        by: unset(n.by),
        ..n
    }
}

/// A model that jumps straight to its inputs.
pub open spec fn snapped(m: Running) -> Running {
    Running {
        vars: Seq::new(
            m.vars.len(),
            |i: int|
                if INPUT_OFF <= i < INPUT_OFF + m.target.len() {
                    m.target[i - INPUT_OFF]
                } else {
                    m.vars[i]
                },
        ),
        states: Seq::new(m.states.len(), |i: int| m.states[i].snapped()),
        nodes: Seq::new(m.nodes.len(), |i: int| snapped_node(m.nodes[i])),
        ..m
    }
}

fn unset_sources(list: &mut Vec<Source>, Ghost(place): Ghost<int>, Ghost(programs): Ghost<nat>)
    requires
        crate::graph::wiring::sources_wf(old(list)@, place, programs),
    ensures
        crate::graph::wiring::sources_wf(final(list)@, place, programs),
        final(list)@ == unset(old(list)@),
{
    let mut i: usize = 0;
    while i < list.len()
        invariant
            i <= list@.len() == old(list)@.len(),
            crate::graph::wiring::sources_wf(list@, place, programs),
            forall|j: int| 0 <= j < i ==> #[trigger] list@[j] == unset(old(list)@)[j],
            forall|j: int| i <= j < list@.len() ==> #[trigger] list@[j] == old(list)@[j],
        decreases list@.len() - i,
    {
        let s = list[i];
        assert(list@[i as int].node < place);
        list.set(i, Source { node: s.node, gain: s.gain, last: Single::of(UNSET) });
        i = i + 1;
    }
    assert(list@ =~= unset(old(list)@));
}

fn snap_node(node: &mut Node, Ghost(place): Ghost<int>, Ghost(programs): Ghost<nat>)
    requires
        old(node).wf(place, programs),
    ensures
        final(node).wf(place, programs),
        final(node)@ == snapped_node(old(node)@),
{
    unset_sources(&mut node.inputs, Ghost(place), Ghost(programs));
    unset_sources(&mut node.by, Ghost(place), Ghost(programs));
    node.kind.snap();
}

fn snap_nodes(nodes: &mut Vec<Node>, Ghost(programs): Ghost<nat>)
    requires
        nodes_wf(old(nodes)@, programs),
    ensures
        nodes_wf(final(nodes)@, programs),
        final(nodes)@.len() == old(nodes)@.len(),
        node_views(final(nodes)@) == Seq::new(old(nodes)@.len(), |i: int| snapped_node(node_views(old(nodes)@)[i])),
{
    let mut i: usize = 0;
    while i < nodes.len()
        invariant
            i <= nodes@.len() == old(nodes)@.len(),
            nodes_wf(nodes@, programs),
            forall|j: int| 0 <= j < i ==> (#[trigger] nodes@[j])@ == snapped_node(old(nodes)@[j]@),
            forall|j: int| i <= j < nodes@.len() ==> #[trigger] nodes@[j] == old(nodes)@[j],
        decreases nodes@.len() - i,
    {
        let ghost before = nodes@;
        assert(nodes@[i as int].wf(i as int, programs));
        snap_node(&mut nodes[i], Ghost(i as int), Ghost(programs));
        proof {
            assert forall|p: int| 0 <= p < nodes@.len() implies (#[trigger] nodes@[p]).wf(p, programs) by {
                if p != i {
                    assert(before[p].wf(p, programs));
                }
            }
        }
        i = i + 1;
    }
    assert(node_views(nodes@) =~= Seq::new(old(nodes)@.len(), |i: int| snapped_node(node_views(old(nodes)@)[i])));
}

fn snap_states(states: &mut Vec<ExprState>)
    ensures
        final(states)@ == Seq::new(old(states)@.len(), |i: int| old(states)@[i].snapped()),
{
    let mut i: usize = 0;
    while i < states.len()
        invariant
            i <= states@.len() == old(states)@.len(),
            forall|j: int| 0 <= j < i ==> #[trigger] states@[j] == old(states)@[j].snapped(),
            forall|j: int| i <= j < states@.len() ==> #[trigger] states@[j] == old(states)@[j],
        decreases states@.len() - i,
    {
        let mut s = states[i];
        s.snap();
        states.set(i, s);
        i = i + 1;
    }
    assert(states@ =~= Seq::new(old(states)@.len(), |i: int| old(states)@[i].snapped()));
}

/// An input as it is taken: between 0 and 1, and 0 for what is no number.
pub open spec fn input_value(v: Single) -> Single {
    if v.finite() {
        v.within(Single::of(ZERO), Single::of(ONE))
    } else {
        Single::of(ZERO)
    }
}

impl GraphModel {
    /// Compile a model file for a sample rate; an unusable rate is replaced.
    pub fn from_spec<F: Fn(Prim, Single, Single) -> Single, N: Fn(&String) -> Single, S: Fn(&String) -> String>(host: &Host<'_, F, N, S>, spec: &ModelSpec, sample_rate: Single) -> (r: Result<GraphModel, ModelError>)
        requires
            host.ok(),
        ensures
            r matches Ok(m) ==> m.wf(),
            forall|w: Sense| #[trigger]
                host.means(w) ==> match (r, compiled(w, *spec, usable_rate(sample_rate))) {
                    (Ok(m), Ok(c)) => m.is(c),
                    (Err(e), Err(text)) => e.0@ == text,
                    _ => false,
                },
    {
        let rate = if sample_rate.is_finite() && Single::of(P8000).le(sample_rate) {
            sample_rate
        } else {
            Single::of(P48000)
        };
        compile(host, spec, rate)
    }

    pub fn node_count(&self) -> (r: usize)
        ensures
            r == self.nodes@.len(),
    {
        self.nodes.len()
    }

    /// Current value of a named signal (for gauges and debugging).
    pub fn signal(&self, name: &str) -> (r: Option<Single>)
        requires
            self.wf(),
        ensures
            r == match first_of(texts(self.signal_names@), name@) {
                Some(i) => Some(self.vars@[self.signal_off + i]),
                None => None,
            },
    {
        match position(&self.signal_names, name) {
            Some(i) => Some(self.vars[self.signal_off + i]),
            None => None,
        }
    }

    pub fn desc(&self) -> (r: &ModelDesc)
        ensures
            *r == self.desc,
    {
        &self.desc
    }

    /// Inputs are 0..1 game-state values; out-of-range and non-finite values are clamped. Inputs that
    /// do not exist are ignored.
    pub fn set_input(&mut self, index: usize, v: Single)
        requires
            old(self).wf(),
        ensures
            final(self).wf(),
            final(self).desc == old(self).desc,
            final(self).signal_names == old(self).signal_names,
            final(self).signal_off == old(self).signal_off,
            final(self).param_off == old(self).param_off,
            final(self)@ == (Running {
                target: if index < old(self)@.target.len() {
                    old(self)@.target.update(index as int, input_value(v))
                } else {
                    old(self)@.target
                },
                ..old(self)@
            }),
    {
        if index < self.input_target.len() {
            let value = if v.is_finite() {
                v.clamp(Single::of(ZERO), Single::of(ONE))
            } else {
                Single::of(ZERO)
            };
            self.input_target.set(index, value);
        }
    }

    pub fn input(&self, index: usize) -> (r: Single)
        ensures
            r == if index < self@.target.len() {
                self@.target[index as int]
            } else {
                Single::of(ZERO)
            },
    {
        if index < self.input_target.len() {
            self.input_target[index]
        } else {
            Single::of(ZERO)
        }
    }

    /// Values are clamped to the parameter's range; what is no number is ignored.
    pub fn set_param(&mut self, index: usize, v: Single)
        requires
            old(self).wf(),
        ensures
            final(self).wf(),
            final(self).desc == old(self).desc,
            final(self).signal_names == old(self).signal_names,
            final(self).signal_off == old(self).signal_off,
            final(self).param_off == old(self).param_off,
            final(self)@ == (Running {
                vars: if index < old(self).desc.params@.len() && v.finite() {
                    old(self)@.vars.update(
                        old(self).param_off + index,
                        old(self).desc.params@[index as int].kind.clamped(v),
                    )
                } else {
                    old(self)@.vars
                },
                ..old(self)@
            }),
    {
        if index < self.desc.params.len() && v.is_finite() {
            let value = self.desc.params[index].kind.clamp(v);
            self.vars.set(self.param_off + index, value);
        }
    }

    pub fn param(&self, index: usize) -> (r: Single)
        requires
            self.wf(),
        ensures
            r == if index < self.desc.params@.len() {
                self@.vars[self.param_off + index]
            } else {
                Single::of(ZERO)
            },
    {
        if index < self.desc.params.len() {
            self.vars[self.param_off + index]
        } else {
            Single::of(ZERO)
        }
    }

    /// Jump all smoothing/inertia straight to the current inputs (e.g. spawning mid-flight).
    pub fn snap(&mut self)
        requires
            old(self).wf(),
        ensures
            final(self).wf(),
            final(self).desc == old(self).desc,
            final(self).signal_names == old(self).signal_names,
            final(self).signal_off == old(self).signal_off,
            final(self).param_off == old(self).param_off,
            final(self)@ == snapped(old(self)@),
    {
        let mut i: usize = 0;
        while i < self.input_target.len()
            invariant
                i <= self.input_target@.len(),
                self.wf(),
                *self == (GraphModel { vars: self.vars, ..*old(self) }),
                self.vars@.len() == old(self).vars@.len(),
                forall|j: int|
                    0 <= j < self.vars@.len() ==> #[trigger] self.vars@[j] == if INPUT_OFF <= j < INPUT_OFF + i {
                        self.input_target@[j - INPUT_OFF]
                    } else {
                        old(self).vars@[j]
                    },
            decreases self.input_target@.len() - i,
        {
            let t = self.input_target[i];
            self.vars.set(INPUT_OFF + i, t);
            i = i + 1;
        }
        snap_states(&mut self.states);
        snap_nodes(&mut self.nodes, Ghost(self.programs@.len()));
        proof {
            let goal = snapped(old(self)@);
            assert(self@.vars =~= goal.vars);
            assert(self@.states =~= goal.states);
            assert(self@.nodes =~= goal.nodes);
        }
    }

    /// Start a one-shot model: the clock its formulas see starts again, and their random number is
    /// drawn anew.
    pub fn trigger(&mut self)
        requires
            old(self).wf(),
        ensures
            final(self).wf(),
            final(self).desc == old(self).desc,
            final(self).signal_names == old(self).signal_names,
            final(self).signal_off == old(self).signal_off,
            final(self).param_off == old(self).param_off,
            final(self)@ == (Running {
                vars: old(self)@.vars.update(1, Single::of(ZERO)).update(
                    2,
                    crate::math::unipolar(old(self)@.rng.fraction()),
                ),
                rng: old(self)@.rng.advanced(),
                live: true,
                top: Single::of(ZERO),
                ..old(self)@
            }),
    {
        let drawn = self.rng.next_f32();
        self.vars.set(1, Single::of(ZERO));
        self.vars.set(2, drawn);
        self.live = true;
        self.top = Single::of(ZERO);
    }

    /// Whether a triggered one-shot model has sounded and has fallen by 60 dB since.
    pub fn is_finished<F: Fn(Prim, Single, Single) -> Single>(&self, fpu: &F) -> (r: bool)
        requires
            total(*fpu),
        ensures
            forall|f: Sums| #[trigger] meant(*fpu, f) ==> r == (self@.one_shot && self@.live && Single::of(ZERO).below(self.top) && self.peak.at_most(f(Prim::Mul, self.top, Single::of(P0_001)))),
            !self@.one_shot || !self@.live ==> !r,
    {
        self.desc.one_shot && self.live && Single::of(ZERO).lt(self.top) && self.peak.le(fpu(Prim::Mul, self.top, Single::of(P0_001)))
    }

    fn render_block<F: Fn(Prim, Single, Single) -> Single>(&mut self, fpu: &F, out: &mut Vec<Single>, from: usize, n: usize)
        requires
            total(*fpu),
            old(self).wf(),
            1 <= n <= BLOCK,
            from + n <= old(out)@.len(),
        ensures
            final(self).wf(),
            final(self).desc == old(self).desc,
            final(self).signal_names == old(self).signal_names,
            final(self).signal_off == old(self).signal_off,
            final(self).param_off == old(self).param_off,
            final(out)@.len() == old(out)@.len(),
            forall|i: int| 0 <= i < from || from + n <= i < old(out)@.len() ==> #[trigger] final(out)@[i] == old(out)@[i],
            forall|f: Sums| #[trigger] meant(*fpu, f) ==> (final(self)@, final(out)@.subrange(from as int, from + n)) == block_played(f, old(self)@, n as nat),
    {
        reveal(block_played);
        if self.desc.one_shot && !self.live {
            zero_range(out, from, n);
            return;
        }
        let dt = fpu(Prim::Div, exact(n as u32, 0), self.sample_rate);
        smooth_inputs(fpu, &mut self.vars, &self.input_target, &self.input_secs, dt);
        run_signals(fpu, &self.programs, &self.signals, &mut self.vars, &mut self.states, dt);
        play_nodes(
            fpu,
            &mut self.nodes,
            &mut self.bufs,
            &self.programs,
            &self.vars,
            &mut self.states,
            dt,
            self.sample_rate,
            n,
            &mut self.scratch,
        );
        assert(crate::graph::run::block_views(self.bufs@)[self.out as int] == self.bufs@[self.out as int]@);
        self.peak = finish_block(fpu, &self.bufs[self.out], out, from, self.peak, self.peak_decay);
        self.top = self.top.max(self.peak);
        let t = fpu(Prim::Add, self.vars[1], dt);
        self.vars.set(1, t);
    }

    /// Fill `out` with the next samples. Blocks of [`BLOCK`] samples share their control values.
    pub fn render_mono<F: Fn(Prim, Single, Single) -> Single>(&mut self, fpu: &F, out: &mut Vec<Single>)
        requires
            total(*fpu),
            old(self).wf(),
        ensures
            final(self).wf(),
            final(self).desc == old(self).desc,
            final(self).signal_names == old(self).signal_names,
            final(self).signal_off == old(self).signal_off,
            final(self).param_off == old(self).param_off,
            final(out)@.len() == old(out)@.len(),
            forall|f: Sums| #[trigger] meant(*fpu, f) ==> (final(self)@, final(out)@) == rendered(f, old(self)@, old(out)@.len()),
    {
        let count = out.len();
        let mut from: usize = 0;
        proof {
            assert forall|f: Sums| #[trigger] meant(*fpu, f) implies continued(
                out@.take(0),
                rendered(f, old(self)@, count as nat),
            ) == rendered(f, old(self)@, count as nat) by {
                assert(out@.take(0) + rendered(f, old(self)@, count as nat).1 =~= rendered(f, old(self)@, count as nat).1);
            }
        }
        while from < count
            invariant
                total(*fpu),
                self.wf(),
                self.desc == old(self).desc,
                self.signal_names == old(self).signal_names,
                self.signal_off == old(self).signal_off,
                self.param_off == old(self).param_off,
                from <= count == out@.len() == old(out)@.len(),
                forall|f: Sums| #[trigger] meant(*fpu, f) ==> continued(out@.take(from as int), rendered(f, self@, (count - from) as nat)) == rendered(
                    f,
                    old(self)@,
                    count as nat,
                ),
            decreases count - from,
        {
            let n: usize = if count - from < BLOCK { count - from } else { BLOCK };
            let ghost (before, m) = (out@, self@);
            self.render_block(fpu, out, from, n);
            proof {
                assert forall|f: Sums| #[trigger] meant(*fpu, f) implies continued(
                    out@.take(from + n),
                    rendered(f, self@, (count - from - n) as nat),
                ) == rendered(f, old(self)@, count as nat) by {
                    let (after, block) = block_played(f, m, n as nat);
                    let (last, rest) = rendered(f, after, (count - from - n) as nat);
                    assert(out@.take(from + n) =~= before.take(from as int) + block);
                    assert(before.take(from as int) + (block + rest) =~= out@.take(from + n) + rest);
                }
            }
            from = from + n;
        }
        proof {
            assert forall|f: Sums| #[trigger] meant(*fpu, f) implies (self@, out@) == rendered(
                f,
                old(self)@,
                count as nat,
            ) by {
                assert(out@.take(from as int) + Seq::<Single>::empty() =~= out@);
            }
        }
    }

    pub fn peak(&self) -> (r: Single)
        ensures
            r == self@.peak,
    {
        self.peak
    }

    pub fn sample_rate(&self) -> (r: Single)
        ensures
            r == self@.sr,
    {
        self.sample_rate
    }

    /// Set an input by its name, if there is one.
    pub fn set_input_by_name(&mut self, name: &str, v: Single) -> (r: bool)
        requires
            old(self).wf(),
        ensures
            final(self).wf(),
            final(self).desc == old(self).desc,
            final(self).signal_names == old(self).signal_names,
            final(self).signal_off == old(self).signal_off,
            final(self).param_off == old(self).param_off,
            !r ==> final(self)@ == old(self)@ && forall|k: int|
                0 <= k < old(self).desc.inputs@.len() ==> (#[trigger] old(self).desc.inputs@[k]).name@ != name@,
            r ==> exists|i: int|
                {
                    &&& 0 <= i < old(self).desc.inputs@.len()
                    &&& (#[trigger] old(self).desc.inputs@[i]).name@ == name@
                    &&& final(self)@ == (Running { target: old(self)@.target.update(i, input_value(v)), ..old(self)@ })
                },
    {
        match self.desc.input_index(name) {
            Some(i) => {
                self.set_input(i, v);
                assert(old(self).desc.inputs@[i as int].name@ == name@);
                true
            },
            None => false,
        }
    }

    /// Set a parameter by its name, if there is one.
    pub fn set_param_by_name(&mut self, name: &str, v: Single) -> (r: bool)
        requires
            old(self).wf(),
        ensures
            final(self).wf(),
            final(self).desc == old(self).desc,
            final(self).signal_names == old(self).signal_names,
            final(self).signal_off == old(self).signal_off,
            final(self).param_off == old(self).param_off,
            !r ==> final(self)@ == old(self)@ && forall|k: int|
                0 <= k < old(self).desc.params@.len() ==> (#[trigger] old(self).desc.params@[k]).name@ != name@,
            r ==> exists|i: int|
                {
                    &&& 0 <= i < old(self).desc.params@.len()
                    &&& (#[trigger] old(self).desc.params@[i]).name@ == name@
                    &&& final(self)@ == (Running {
                        vars: if v.finite() {
                            old(self)@.vars.update(
                                old(self).param_off + i,
                                old(self).desc.params@[i].kind.clamped(v),
                            )
                        } else {
                            old(self)@.vars
                        },
                        ..old(self)@
                    })
                },
    {
        match self.desc.param_index(name) {
            Some(i) => {
                self.set_param(i, v);
                assert(old(self).desc.params@[i as int].name@ == name@);
                true
            },
            None => false,
        }
    }

    /// Set every parameter to a preset's value, if there is such a preset.
    pub fn load_preset(&mut self, index: usize) -> (r: bool)
        requires
            old(self).wf(),
        ensures
            final(self).wf(),
            final(self).desc == old(self).desc,
            final(self).signal_names == old(self).signal_names,
            final(self).signal_off == old(self).signal_off,
            final(self).param_off == old(self).param_off,
            r == (index < old(self).desc.presets@.len()),
            final(self)@ == (Running {
                vars: if r {
                    preset_vars(*old(self), old(self).desc.presets@[index as int].values@, old(self).desc.params@.len())
                } else {
                    old(self)@.vars
                },
                ..old(self)@
            }),
    {
        if index >= self.desc.presets.len() {
            return false;
        }
        let ghost values = self.desc.presets@[index as int].values@;
        let count = self.desc.params.len();
        let mut i: usize = 0;
        assert(self.desc.presets@[index as int].values@.len() == self.desc.params@.len());
        while i < count
            invariant
                self.wf(),
                self.desc == old(self).desc,
                self.signal_names == old(self).signal_names,
                self.signal_off == old(self).signal_off,
                self.param_off == old(self).param_off,
                index < self.desc.presets@.len(),
                values == self.desc.presets@[index as int].values@,
                i <= count == self.desc.params@.len() == values.len(),
                self@ == (Running { vars: preset_vars(*old(self), values, i as nat), ..old(self)@ }),
            decreases count - i,
        {
            let v = self.desc.presets[index].values[i];
            self.set_param(i, v);
            i = i + 1;
        }
        true
    }

    /// The values of all parameters.
    pub fn params_vec(&self) -> (r: Vec<Single>)
        requires
            self.wf(),
        ensures
            r@ == self@.vars.subrange(self.param_off as int, self.param_off + self.desc.params@.len()),
    {
        let ghost all = self@.vars.subrange(self.param_off as int, self.param_off + self.desc.params@.len());
        let mut r: Vec<Single> = Vec::new();
        let mut i: usize = 0;
        while i < self.desc.params.len()
            invariant
                self.wf(),
                i <= self.desc.params@.len(),
                all == self@.vars.subrange(self.param_off as int, self.param_off + self.desc.params@.len()),
                r@ == all.take(i as int),
            decreases self.desc.params@.len() - i,
        {
            r.push(self.param(i));
            i = i + 1;
            assert(r@ =~= all.take(i as int));
        }
        assert(all.take(i as int) =~= all);
        r
    }
}

/// The value table after the first `k` values of a preset have been set.
pub open spec fn preset_vars(m: GraphModel, values: Seq<Single>, k: nat) -> Seq<Single>
    decreases k,
{
    if k == 0 {
        m@.vars
    } else {
        let before = preset_vars(m, values, (k - 1) as nat);
        let v = values[k - 1];
        if v.finite() {
            before.update(m.param_off + k - 1, m.desc.params@[k - 1].kind.clamped(v))
        } else {
            before
        }
    }
}

/// Samples in front of others.
pub open spec fn continued(front: Seq<Single>, rest: (Running, Seq<Single>)) -> (Running, Seq<Single>) {
    (rest.0, front + rest.1)
}

/// A one-shot model is silent until it is triggered, however long that takes, and rests meanwhile.
pub proof fn lemma_one_shot_rests_until_triggered(f: Sums, m: Running, count: nat)
    requires
        m.one_shot,
        !m.live,
    ensures
        rendered(f, m, count) == (m, crate::blocks::silence(count)),
    decreases count,
{
    if count > 0 {
        let n: nat = if count < BLOCK {
            count
        } else {
            BLOCK as nat
        };
        reveal(block_played);
        lemma_one_shot_rests_until_triggered(f, m, (count - n) as nat);
        assert(crate::blocks::silence(n) + crate::blocks::silence((count - n) as nat) =~= crate::blocks::silence(count));
    } else {
        assert(crate::blocks::silence(0) =~= seq![]);
    }
}

/// Rendering a number of whole blocks and then more gives what rendering at once gives.
pub proof fn lemma_graph_renders_in_parts(f: Sums, m: Running, blocks: nat, more: nat)
    ensures
        rendered(f, m, (blocks * BLOCK + more) as nat) == ({
            let (t, head) = rendered(f, m, (blocks * BLOCK) as nat);
            continued(head, rendered(f, t, more))
        }),
    decreases blocks,
{
    if blocks == 0 {
        assert(Seq::<Single>::empty() + rendered(f, m, more).1 =~= rendered(f, m, more).1);
    } else {
        let b = BLOCK as int;
        let fewer = (blocks - 1) as nat;
        assert(blocks * BLOCK == fewer * BLOCK + b) by (nonlinear_arith)
            requires
                blocks == fewer + 1,
                b == BLOCK,
        ;
        let (after, first) = block_played(f, m, BLOCK as nat);
        lemma_graph_renders_in_parts(f, after, fewer, more);
        let (t, head) = rendered(f, after, (fewer * BLOCK) as nat);
        let (u, tail) = rendered(f, t, more);
        assert(first + (head + tail) =~= (first + head) + tail);
    }
}

fn zero_range(out: &mut Vec<Single>, from: usize, n: usize)
    requires
        from + n <= old(out)@.len(),
    ensures
        final(out)@.len() == old(out)@.len(),
        forall|i: int| 0 <= i < from || from + n <= i < old(out)@.len() ==> #[trigger] final(out)@[i] == old(out)@[i],
        final(out)@.subrange(from as int, from + n) == crate::blocks::silence(n as nat),
{
    let count = out.len();
    let mut i: usize = 0;
    while i < n
        invariant
            i <= n,
            from + n <= out@.len() == old(out)@.len() == count,
            forall|j: int| 0 <= j < from || from + i <= j < out@.len() ==> #[trigger] out@[j] == old(out)@[j],
            forall|j: int| from <= j < from + i ==> #[trigger] out@[j] == Single::of(ZERO),
        decreases n - i,
    {
        out.set(from + i, Single::of(ZERO));
        i = i + 1;
    }
    assert(out@.subrange(from as int, from + n) =~= crate::blocks::silence(n as nat));
}

/// However a model is wired, every sample it renders is a number within full scale.
pub proof fn lemma_graph_in_scale(f: Sums, m: Running, count: nat, i: int)
    requires
        0 <= i < rendered(f, m, count).1.len(),
    ensures
        crate::math::in_scale(rendered(f, m, count).1[i]),
    decreases count,
{
    let n: nat = if count < BLOCK { count } else { BLOCK as nat };
    let (after, out) = block_played(f, m, n);
    if i < out.len() {
        reveal(block_played);
    } else {
        lemma_graph_in_scale(f, after, (count - n) as nat, i - out.len());
    }
}

/// After a preset is loaded, every parameter the preset has a number for holds the nearest value it
/// can take, and the rest of the value table is what it was.
pub proof fn lemma_graph_preset_reads_back(m: GraphModel, values: Seq<Single>, k: nat, j: int)
    requires
        m.param_off + k <= m.vars@.len(),
        k <= values.len(),
        0 <= j < m.vars@.len(),
    ensures
        preset_vars(m, values, k).len() == m.vars@.len(),
        preset_vars(m, values, k)[j] == if m.param_off <= j < m.param_off + k && values[j - m.param_off].finite() {
            m.desc.params@[j - m.param_off].kind.clamped(values[j - m.param_off])
        } else {
            m.vars@[j]
        },
    decreases k,
{
    if k > 0 {
        lemma_graph_preset_reads_back(m, values, (k - 1) as nat, j);
    }
}

/// The peak meter of a model stays in [0, 1], however long it plays.
pub proof fn lemma_graph_peak_is_share(f: Sums, m: Running, count: nat)
    requires
        crate::math::shares_multiply(f),
        crate::math::is_share(m.peak),
        crate::math::is_share(m.decay),
    ensures
        crate::math::is_share(rendered(f, m, count).0.peak),
    decreases count,
{
    if count > 0 {
        let n: nat = if count < BLOCK { count } else { BLOCK as nat };
        let (after, out) = block_played(f, m, n);
        assert(crate::math::is_share(after.peak) && after.decay == m.decay) by {
            reveal(block_played);
            if !(m.one_shot && !m.live) {
                crate::graph::run::lemma_metered_is_share(f, m.peak, m.decay, out, out.len());
            }
        }
        lemma_graph_peak_is_share(f, after, (count - n) as nat);
    }
}

} // verus!
