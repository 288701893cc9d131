//! Native generators and file-defined graphs behind one interface.
use vstd::prelude::*;

use crate::arith::{meant, total, Prim, Sums};
use crate::generators::{Model, ModelView};
use crate::graph::model::{input_value, GraphModel, Running, P0_001};
use crate::graph::run::INPUT_OFF;
use crate::model::ModelDesc;
use crate::single::{Single, ZERO};

verus! {

/// A continuous sound or an event, whichever engine runs it.
pub enum Instrument {
    Native(Model),
    Graph(GraphModel),
}

/// An instrument as a value. What a graph runs does not hold its description, so that stands beside it.
pub enum InstrumentView {
    Native(ModelView),
    Graph(ModelDesc, Running),
}

impl View for Instrument {
    type V = InstrumentView;

    open spec fn view(&self) -> InstrumentView {
        match self {
            Instrument::Native(m) => InstrumentView::Native(m@),
            Instrument::Graph(m) => InstrumentView::Graph(m.desc, m@),
        }
    }
}

/// Where the values of a graph's parameters start in its value table.
pub open spec fn param_start(d: ModelDesc) -> int {
    (INPUT_OFF + d.inputs@.len()) as int
}

/// A graph with a parameter set.
pub open spec fn graph_with_param(d: ModelDesc, m: Running, i: int, v: Single) -> Running {
    Running {
        vars: if 0 <= i < d.params@.len() && v.finite() {
            m.vars.update(param_start(d) + i, d.params@[i].kind.clamped(v))
        } else {
            m.vars
        },
        ..m
    }
}

/// A graph with its first parameters set to some values.
pub open spec fn graph_with_params(d: ModelDesc, m: Running, values: Seq<Single>) -> Running
    decreases values.len(),
{
    if values.len() == 0 {
        m
    } else {
        graph_with_param(d, graph_with_params(d, m, values.drop_last()), values.len() - 1, values.last())
    }
}

impl InstrumentView {
    pub open spec fn with_input(self, i: int, v: Single) -> InstrumentView {
        match self {
            InstrumentView::Native(m) => InstrumentView::Native(m.with_input(i, v)),
            InstrumentView::Graph(d, m) => InstrumentView::Graph(
                d,
                Running {
                    target: if 0 <= i < m.target.len() {
                        m.target.update(i, input_value(v))
                    } else {
                        m.target
                    },
                    ..m
                },
            ),
        }
    }

    pub open spec fn with_param(self, i: int, v: Single) -> InstrumentView {
        match self {
            InstrumentView::Native(m) => InstrumentView::Native(m.with_param(i, v)),
            InstrumentView::Graph(d, m) => InstrumentView::Graph(d, graph_with_param(d, m, i, v)),
        }
    }

    /// With the first parameters set to some values, one after another.
    pub open spec fn with_params(self, values: Seq<Single>) -> InstrumentView
        decreases values.len(),
    {
        if values.len() == 0 {
            self
        } else {
            self.with_params(values.drop_last()).with_param(values.len() - 1, values.last())
        }
    }

    /// The values of all parameters.
    pub open spec fn params(self) -> Seq<Single> {
        match self {
            InstrumentView::Native(m) => m.params(),
            InstrumentView::Graph(d, m) => m.vars.subrange(param_start(d), param_start(d) + d.params@.len()),
        }
    }

    pub open spec fn preset_count(self) -> nat {
        match self {
            InstrumentView::Native(m) => m.preset_count(),
            InstrumentView::Graph(d, m) => d.presets@.len(),
        }
    }

    /// With every parameter as a preset has it, if there is such a preset.
    pub open spec fn with_preset(self, i: int) -> InstrumentView {
        match self {
            InstrumentView::Native(m) => InstrumentView::Native(m.with_preset(i)),
            InstrumentView::Graph(d, m) => InstrumentView::Graph(
                d,
                if 0 <= i < d.presets@.len() {
                    graph_with_params(d, m, d.presets@[i].values@)
                } else {
                    m
                },
            ),
        }
    }

    /// With smoothing and inertia jumped to the inputs.
    pub open spec fn snapped(self, f: Sums) -> InstrumentView {
        match self {
            InstrumentView::Native(m) => InstrumentView::Native(m.snapped(f)),
            InstrumentView::Graph(d, m) => InstrumentView::Graph(d, crate::graph::model::snapped(m)),
        }
    }

    /// Fired with the inputs as they are.
    pub open spec fn fired(self, f: Sums) -> InstrumentView {
        match self {
            InstrumentView::Native(m) => InstrumentView::Native(m.fired(f)),
            InstrumentView::Graph(d, m) => InstrumentView::Graph(
                d,
                Running {
                    vars: m.vars.update(1, Single::of(ZERO)).update(2, crate::math::unipolar(m.rng.fraction())),
                    rng: m.rng.advanced(),
                    live: true,
                    top: Single::of(ZERO),
                    ..m
                },
            ),
        }
    }

    /// Whether it is an event: silent until it is fired.
    pub open spec fn one_shot(self) -> bool {
        match self {
            InstrumentView::Native(m) => m.one_shot(),
            InstrumentView::Graph(d, m) => m.one_shot,
        }
    }

    /// With some inputs set, one after another.
    pub open spec fn with_inputs(self, inputs: Seq<(usize, Single)>) -> InstrumentView
        decreases inputs.len(),
    {
        if inputs.len() == 0 {
            self
        } else {
            self.with_inputs(inputs.drop_last()).with_input(inputs.last().0 as int, inputs.last().1)
        }
    }

    /// Whether an event is over: a native one that does not ring, a graph that has fallen by 60 dB
    /// from its loudest.
    pub open spec fn finished(self, f: Sums) -> bool {
        match self {
            InstrumentView::Native(m) => m.finished(),
            InstrumentView::Graph(d, m) => m.one_shot && m.live && Single::of(ZERO).below(m.top) && m.peak.at_most(
                f(Prim::Mul, m.top, Single::of(P0_001)),
            ),
        }
    }

    /// After as many samples as `x` has, in place of it, and the samples.
    pub open spec fn rendered(self, f: Sums, x: Seq<Single>) -> (InstrumentView, Seq<Single>) {
        match self {
            InstrumentView::Native(m) => {
                let (n, out) = m.rendered(f, x);
                (InstrumentView::Native(n), out)
            },
            InstrumentView::Graph(d, m) => {
                let (n, out) = crate::graph::model::rendered(f, m, x.len());
                (InstrumentView::Graph(d, n), out)
            },
        }
    }

    pub open spec fn peak(self) -> Single {
        match self {
            InstrumentView::Native(m) => m.peak(),
            InstrumentView::Graph(d, m) => m.peak,
        }
    }

    pub open spec fn sample_rate(self) -> Single {
        match self {
            InstrumentView::Native(m) => m.sample_rate(),
            InstrumentView::Graph(d, m) => m.sr,
        }
    }
}

/// Rendering overwrites: what the buffer held before does not matter.
pub proof fn lemma_instrument_overwrites(s: InstrumentView, f: Sums, x: Seq<Single>, y: Seq<Single>)
    requires
        x.len() == y.len(),
    ensures
        s.rendered(f, x) == s.rendered(f, y),
{
    match s {
        InstrumentView::Native(m) => crate::generators::lemma_model_overwrites(m, f, x, y),
        InstrumentView::Graph(d, m) => {},
    }
}

/// Every sample of every instrument is a number within full scale, whether its model is built in or
/// comes from a file.
pub proof fn lemma_instrument_in_scale(s: InstrumentView, f: Sums, x: Seq<Single>, i: int)
    requires
        0 <= i < s.rendered(f, x).1.len(),
    ensures
        crate::math::in_scale(s.rendered(f, x).1[i]),
{
    match s {
        InstrumentView::Native(m) => {
            crate::generators::lemma_model_overwrites(m, f, x, x);
            crate::generators::lemma_model_in_scale(m, f, x, i);
        },
        InstrumentView::Graph(d, m) => crate::graph::model::lemma_graph_in_scale(f, m, x.len(), i),
    }
}

proof fn lemma_preset_vars(m: GraphModel, values: Seq<Single>, k: nat)
    requires
        m.wf(),
        k <= values.len() == m.desc.params@.len(),
    ensures
        (Running { vars: crate::graph::model::preset_vars(m, values, k), ..m@ }) == graph_with_params(m.desc, m@, values.take(k as int)),
    decreases k,
{
    if k == 0 {
        assert(values.take(0) =~= seq![]);
    } else {
        lemma_preset_vars(m, values, (k - 1) as nat);
        assert(values.take(k as int).drop_last() =~= values.take(k - 1));
    }
}

impl Instrument {
    pub open spec fn wf(self) -> bool {
        match self {
            Instrument::Native(m) => m.wf(),
            Instrument::Graph(m) => m.wf(),
        }
    }

    /// What the instrument says of itself.
    pub open spec fn shown(self) -> ModelDesc {
        match self {
            Instrument::Native(m) => m.shown(),
            Instrument::Graph(m) => m.desc,
        }
    }

    pub fn desc(&self) -> (r: &ModelDesc)
        requires
            self.wf(),
        ensures
            *r == self.shown(),
    {
        match self {
            Instrument::Native(m) => m.desc(),
            Instrument::Graph(m) => m.desc(),
        }
    }

    /// Inputs are 0..1 game-state values; out-of-range and non-finite values are clamped.
    pub fn set_input(&mut self, index: usize, value: Single)
        requires
            old(self).wf(),
        ensures
            final(self).wf(),
            final(self).shown() == old(self).shown(),
            final(self)@ == old(self)@.with_input(index as int, value),
    {
        match self {
            Instrument::Native(m) => m.set_input(index, value),
            Instrument::Graph(m) => m.set_input(index, value),
        }
    }

    pub fn input(&self, index: usize) -> (r: Single)
        requires
            self.wf(),
        ensures
            r == match self@ {
                InstrumentView::Native(m) => if index < m.inputs().len() {
                    m.inputs()[index as int]
                } else {
                    Single::of(ZERO)
                },
                InstrumentView::Graph(d, m) => if index < m.target.len() {
                    m.target[index as int]
                } else {
                    Single::of(ZERO)
                },
            },
    {
        match self {
            Instrument::Native(m) => m.input(index),
            Instrument::Graph(m) => m.input(index),
        }
    }

    /// Values are clamped to the parameter's range; what is no number is ignored.
    pub fn set_param(&mut self, index: usize, value: Single)
        requires
            old(self).wf(),
        ensures
            final(self).wf(),
            final(self).shown() == old(self).shown(),
            final(self)@ == old(self)@.with_param(index as int, value),
    {
        match self {
            Instrument::Native(m) => m.set_param(index, value),
            Instrument::Graph(m) => m.set_param(index, value),
        }
    }

    pub fn param(&self, index: usize) -> (r: Single)
        requires
            self.wf(),
        ensures
            r == if index < self@.params().len() {
                self@.params()[index as int]
            } else {
                Single::of(ZERO)
            },
    {
        match self {
            Instrument::Native(m) => m.param(index),
            Instrument::Graph(m) => m.param(index),
        }
    }

    /// Set every parameter to its value in a preset; whether there is one.
    pub fn load_preset(&mut self, index: usize) -> (r: bool)
        requires
            old(self).wf(),
        ensures
            final(self).wf(),
            final(self).shown() == old(self).shown(),
            r == (index < old(self)@.preset_count()),
            final(self)@ == old(self)@.with_preset(index as int),
    {
        match self {
            Instrument::Native(m) => m.load_preset(index),
            Instrument::Graph(m) => {
                proof {
                    if index < m.desc.presets@.len() {
                        let values = m.desc.presets@[index as int].values@;
                        lemma_preset_vars(*m, values, values.len());
                        assert(values.take(values.len() as int) =~= values);
                    }
                }
                m.load_preset(index)
            },
        }
    }

    /// The values of all parameters.
    pub fn params_vec(&self) -> (r: Vec<Single>)
        requires
            self.wf(),
        ensures
            r@ == self@.params(),
    {
        match self {
            Instrument::Native(m) => m.params_vec(),
            Instrument::Graph(m) => m.params_vec(),
        }
    }

    /// Jump all smoothing/inertia straight to the current inputs (e.g. spawning mid-flight).
    pub fn snap<F: Fn(Prim, Single, Single) -> Single>(&mut self, fpu: &F)
        requires
            total(*fpu),
            old(self).wf(),
        ensures
            final(self).wf(),
            final(self).shown() == old(self).shown(),
            forall|f: Sums| #[trigger] meant(*fpu, f) ==> final(self)@ == old(self)@.snapped(f),
    {
        match self {
            Instrument::Native(m) => m.snap(fpu),
            Instrument::Graph(m) => m.snap(),
        }
    }

    /// Fire an event with its current inputs.
    pub fn trigger<F: Fn(Prim, Single, Single) -> Single>(&mut self, fpu: &F)
        requires
            total(*fpu),
            old(self).wf(),
        ensures
            final(self).wf(),
            final(self).shown() == old(self).shown(),
            forall|f: Sums| #[trigger] meant(*fpu, f) ==> final(self)@ == old(self)@.fired(f),
    {
        match self {
            Instrument::Native(m) => m.trigger(fpu),
            Instrument::Graph(m) => m.trigger(),
        }
    }

    /// Whether it is an event: silent until it is fired.
    pub fn is_one_shot(&self) -> (r: bool)
        requires
            self.wf(),
        ensures
            r == self@.one_shot(),
    {
        match self {
            Instrument::Native(m) => m.is_one_shot(),
            Instrument::Graph(m) => m.desc().one_shot,
        }
    }

    /// Whether an event is over.
    pub fn is_finished<F: Fn(Prim, Single, Single) -> Single>(&self, fpu: &F) -> (r: bool)
        requires
            total(*fpu),
            self.wf(),
        ensures
            forall|f: Sums| #[trigger] meant(*fpu, f) ==> r == self@.finished(f),
    {
        match self {
            Instrument::Native(m) => m.is_finished(),
            Instrument::Graph(m) => m.is_finished(fpu),
        }
    }

    /// Render mono audio into `out`, overwriting it.
    pub fn render_mono<F: Fn(Prim, Single, Single) -> Single>(&mut self, fpu: &F, out: &mut Vec<Single>)
        requires
            total(*fpu),
            old(self).wf(),
        ensures
            final(self).wf(),
            final(self).shown() == old(self).shown(),
            final(out)@.len() == old(out)@.len(),
            forall|f: Sums| #[trigger] meant(*fpu, f) ==> (final(self)@, final(out)@) == old(self)@.rendered(f, old(out)@),
    {
        match self {
            Instrument::Native(m) => m.render_mono(fpu, out),
            Instrument::Graph(m) => m.render_mono(fpu, out),
        }
    }

    /// Recent output peak 0..1, decays over ~250 ms.
    pub fn peak(&self) -> (r: Single)
        requires
            self.wf(),
        ensures
            r == self@.peak(),
    {
        match self {
            Instrument::Native(m) => m.peak(),
            Instrument::Graph(m) => m.peak(),
        }
    }

    pub fn sample_rate(&self) -> (r: Single)
        requires
            self.wf(),
        ensures
            r == self@.sample_rate(),
    {
        match self {
            Instrument::Native(m) => m.sample_rate(),
            Instrument::Graph(m) => m.sample_rate(),
        }
    }
}

} // verus!
