//! Native generators as models.
//!
//! A native generator implements the small [`Generator`] trait; [`Native`] supplies input
//! smoothing, parameter storage, presets, the output limiter and the peak meter.
use vstd::prelude::*;

use crate::arith::{meant, total, Prim, Sums};
use crate::blocks::{settle_coef, BLOCK};
use crate::effects::same_outside;
use crate::math::limit;
use crate::model::{Engine, InputDesc, ModelDesc, PresetDesc};
use crate::params::{describe, Params};
use crate::single::{from_i32, Single, ONE, ZERO};
use crate::text::owned;

verus! {

/// Pattern of -9.21.
pub const N9_21: u32 = 0xc113_5c29;

/// Pattern of 0.25.
pub const P0_25: u32 = 0x3e80_0000;

/// Pattern of 8000.
pub const P8000: u32 = 0x45fa_0000;

/// Pattern of 48000.
pub const P48000: u32 = 0x473b_8000;

/// Static description of one input of a native generator.
#[derive(Clone, Copy, Debug)]
pub struct InputSpec {
    pub name: &'static str,
    pub default: Single,
    pub doc: &'static str,
}

/// An input as a value.
pub struct InputView {
    pub name: Seq<char>,
    pub default: Single,
    pub doc: Seq<char>,
}

impl View for InputSpec {
    type V = InputView;

    open spec fn view(&self) -> InputView {
        InputView { name: self.name@, default: self.default, doc: self.doc@ }
    }
}

/// What a generator is called and how it wants to be driven.
pub struct Profile {
    pub name: &'static str,
    pub category: &'static str,
    pub doc: &'static str,
    /// Seconds for inputs to settle; 0 passes them through (the generator has its own inertia).
    pub smooth_secs: Single,
    /// Whether [`Native`] applies the master soft limiter.
    pub limit: bool,
    /// Silent until triggered.
    pub one_shot: bool,
}

/// A profile as a value.
pub struct ProfileView {
    pub name: Seq<char>,
    pub category: Seq<char>,
    pub doc: Seq<char>,
    pub smooth_secs: Single,
    pub limit: bool,
    pub one_shot: bool,
}

impl View for Profile {
    type V = ProfileView;

    open spec fn view(&self) -> ProfileView {
        ProfileView {
            name: self.name@,
            category: self.category@,
            doc: self.doc@,
            smooth_secs: self.smooth_secs,
            limit: self.limit,
            one_shot: self.one_shot,
        }
    }
}

/// What a native generator implements.
pub trait Generator: Sized {
    type P: Params;

    /// What a generator holds, as a value.
    type State;

    spec fn about() -> ProfileView;

    spec fn input_list() -> Seq<InputView>;

    /// Named parameter sets besides the default one.
    spec fn preset_list() -> Seq<(Seq<char>, Self::P)>;

    spec fn wf(&self) -> bool;

    spec fn state(&self) -> Self::State;

    /// A generator that has played nothing.
    spec fn fresh(f: Sums, sample_rate: Single) -> Self::State;

    /// Internal inertia jumped to match the inputs `x`.
    spec fn snapped(s: Self::State, f: Sums, x: Seq<Single>, p: Self::P) -> Self::State;

    /// Fired, if it is an event.
    spec fn fired(s: Self::State, f: Sums, x: Seq<Single>, p: Self::P) -> Self::State;

    /// There is still something to hear.
    spec fn ringing(s: Self::State) -> bool;

    /// The generator after a control block in place of `out`, and the block.
    spec fn played(s: Self::State, f: Sums, x: Seq<Single>, p: Self::P, out: Seq<Single>) -> (Self::State, Seq<Single>);

    /// A block is as long as the buffer, and what the buffer held does not matter.
    proof fn lemma_overwrites(s: Self::State, f: Sums, x: Seq<Single>, p: Self::P, a: Seq<Single>, b: Seq<Single>)
        requires
            a.len() == b.len(),
        ensures
            Self::played(s, f, x, p, a) == Self::played(s, f, x, p, b),
            Self::played(s, f, x, p, a).1.len() == a.len(),
    ;

    fn profile() -> (r: Profile)
        ensures
            r@ == Self::about(),
    ;

    fn inputs() -> (r: Vec<InputSpec>)
        ensures
            r@.len() == Self::input_list().len(),
            forall|i: int| 0 <= i < r@.len() ==> (#[trigger] r@[i])@ == Self::input_list()[i],
    ;

    fn presets() -> (r: Vec<(&'static str, Self::P)>)
        ensures
            r@.len() == Self::preset_list().len(),
            forall|i: int| 0 <= i < r@.len() ==> (#[trigger] r@[i]).0@ == Self::preset_list()[i].0 && r@[i].1 == Self::preset_list()[i].1,
    ;

    /// Allocation is allowed here only.
    fn new<F: Fn(Prim, Single, Single) -> Single>(fpu: &F, sample_rate: Single) -> (r: Self)
        requires
            total(*fpu),
        ensures
            r.wf(),
            forall|f: Sums| #[trigger] meant(*fpu, f) ==> r.state() == Self::fresh(f, sample_rate),
    ;

    /// Jump internal inertia to match `x`.
    fn snap<F: Fn(Prim, Single, Single) -> Single>(&mut self, fpu: &F, x: &Vec<Single>, p: &Self::P)
        requires
            total(*fpu),
            old(self).wf(),
            x@.len() == Self::input_list().len(),
        ensures
            final(self).wf(),
            forall|f: Sums| #[trigger] meant(*fpu, f) ==> final(self).state() == Self::snapped(old(self).state(), f, x@, *p),
    ;

    /// Fire an event with inputs `x`; a continuous sound just goes on.
    fn trigger<F: Fn(Prim, Single, Single) -> Single>(&mut self, fpu: &F, x: &Vec<Single>, p: &Self::P)
        requires
            total(*fpu),
            old(self).wf(),
            x@.len() == Self::input_list().len(),
        ensures
            final(self).wf(),
            forall|f: Sums| #[trigger] meant(*fpu, f) ==> final(self).state() == Self::fired(old(self).state(), f, x@, *p),
    ;

    /// Whether there is still something to hear.
    fn is_active(&self) -> (r: bool)
        requires
            self.wf(),
        ensures
            r == Self::ringing(self.state()),
    ;

    /// Render one control block, overwriting samples `start..end`. `x` holds the smoothed inputs.
    fn block<F: Fn(Prim, Single, Single) -> Single>(&mut self, fpu: &F, x: &Vec<Single>, p: &Self::P, out: &mut Vec<Single>, start: usize, end: usize)
        requires
            total(*fpu),
            old(self).wf(),
            x@.len() == Self::input_list().len(),
            start < end <= old(out)@.len(),
            end - start <= BLOCK,
        ensures
            final(self).wf(),
            same_outside(old(out)@, final(out)@, start as int, end as int),
            forall|f: Sums| #[trigger] meant(*fpu, f) ==> (final(self).state(), final(out)@.subrange(start as int, end as int)) == Self::played(
                old(self).state(),
                f,
                x@,
                *p,
                old(out)@.subrange(start as int, end as int),
            ),
    ;
}

/// One sample made finite and limited; the state is the peak meter.
pub open spec fn meter_tick(f: Sums, on: bool, decay: Single, s: Single, v: Single) -> (Single, Single) {
    let y = if !v.finite() {
        Single::of(ZERO)
    } else if on {
        crate::math::limited(f, v)
    } else {
        v
    };
    (f(Prim::Mul, s, decay).larger(y.absolute()), y)
}

/// The same for a run of samples.
pub open spec fn meter_run(f: Sums, on: bool, decay: Single, s: Single, x: Seq<Single>) -> (Single, Seq<Single>)
    decreases x.len(),
{
    if x.len() == 0 {
        (s, seq![])
    } else {
        let (t, out) = meter_run(f, on, decay, s, x.drop_last());
        let (u, y) = meter_tick(f, on, decay, t, x.last());
        (u, out.push(y))
    }
}

fn meter_sample<F: Fn(Prim, Single, Single) -> Single>(fpu: &F, on: bool, decay: Single, s: &mut Single, v: Single) -> (y: Single)
    requires
        total(*fpu),
    ensures
        forall|f: Sums| #[trigger] meant(*fpu, f) ==> (*final(s), y) == meter_tick(f, on, decay, *old(s), v),
{
    let y = if !v.is_finite() {
        Single::of(ZERO)
    } else if on {
        limit(fpu, v)
    } else {
        v
    };
    *s = fpu(Prim::Mul, *s, decay).max(y.abs());
    y
}

fn meter_span<F: Fn(Prim, Single, Single) -> Single>(fpu: &F, on: bool, decay: Single, s: &mut Single, buf: &mut Vec<Single>, start: usize, end: usize)
    requires
        total(*fpu),
        start <= end <= old(buf)@.len(),
    ensures
        final(buf)@.len() == old(buf)@.len(),
        same_outside(old(buf)@, final(buf)@, start as int, end as int),
        forall|f: Sums| #[trigger] meant(*fpu, f) ==> (*final(s), final(buf)@.subrange(start as int, end as int)) == meter_run(
            f, on, decay,
            *old(s),
            old(buf)@.subrange(start as int, end as int),
        ),
{
    let mut i: usize = start;
    let ghost before = buf@;
    assert(before.subrange(start as int, start as int) =~= seq![]);
    while i < end
        invariant
            start <= i <= end <= buf@.len(),
            buf@.len() == before.len(),
            before == old(buf)@,
            same_outside(before, buf@, start as int, i as int),
            total(*fpu),
            forall|f: Sums| #[trigger] meant(*fpu, f) ==> (*s, buf@.subrange(start as int, i as int)) == meter_run(
                f, on, decay,
                *old(s),
                before.subrange(start as int, i as int),
            ),
        decreases end - i,
    {
        let ghost last = buf@;
        let y = meter_sample(fpu, on, decay, s, buf[i]);
        buf.set(i, y);
        i = i + 1;
        assert(before.subrange(start as int, i as int).drop_last() =~= before.subrange(start as int, i - 1));
        assert(buf@.subrange(start as int, i as int) =~= last.subrange(start as int, i - 1).push(y));
    }
}

fn silence_span(buf: &mut Vec<Single>, start: usize, end: usize)
    requires
        start <= end <= old(buf)@.len(),
    ensures
        same_outside(old(buf)@, final(buf)@, start as int, end as int),
        final(buf)@.subrange(start as int, end as int) == Seq::new((end - start) as nat, |j: int| Single::of(ZERO)),
{
    let mut i: usize = start;
    while i < end
        invariant
            start <= i <= end <= buf@.len(),
            same_outside(old(buf)@, buf@, start as int, i as int),
            forall|j: int| start <= j < i ==> buf@[j] == Single::of(ZERO),
        decreases end - i,
    {
        buf.set(i, Single::of(ZERO));
        i = i + 1;
    }
    assert(buf@.subrange(start as int, end as int) =~= Seq::new((end - start) as nat, |j: int| Single::of(ZERO)));
}

/// Inputs moved toward their targets.
pub open spec fn followed(f: Sums, smooth: Seq<Single>, target: Seq<Single>, coef: Single) -> Seq<Single> {
    Seq::new(smooth.len(), |i: int| {
        let (s, t) = (smooth[i], target[i]);
        f(Prim::Add, s, f(Prim::Mul, f(Prim::Sub, t, s), coef))
    })
}

/// A rate that a generator can run at.
pub open spec fn usable_rate(sample_rate: Single) -> Single {
    if sample_rate.finite() && Single::of(P8000).at_most(sample_rate) {
        sample_rate
    } else {
        Single::of(P48000)
    }
}

/// A native model as a value.
#[verifier::ext_equal]
pub struct NativeView<G: Generator> {
    pub g: G::State,
    pub p: G::P,
    pub target: Seq<Single>,
    pub smooth: Seq<Single>,
    pub sample_rate: Single,
    pub peak: Single,
    pub peak_decay: Single,
}

/// Number of presets, the default one counted.
#[verifier::opaque]
pub open spec fn preset_total<G: Generator>() -> nat {
    G::preset_list().len() + 1
}

/// Default inputs of a generator.
pub open spec fn defaults<G: Generator>() -> Seq<Single> {
    G::input_list().map_values(|i: InputView| i.default)
}

impl<G: Generator> NativeView<G> {
    #[verifier::opaque]
    pub open spec fn started(f: Sums, sample_rate: Single) -> NativeView<G> {
        let rate = usable_rate(sample_rate);
        NativeView {
            g: G::fresh(f, rate),
            p: G::P::plain_params(),
            target: defaults::<G>(),
            smooth: defaults::<G>(),
            sample_rate: rate,
            peak: Single::of(ZERO),
            peak_decay: f(Prim::Exp, f(Prim::Div, Single::of(N9_21), f(Prim::Mul, Single::of(P0_25), rate)), Single::of(ZERO)),
        }
    }

    /// With an input set; what is no number counts as zero.
    #[verifier::opaque]
    pub open spec fn with_input(self, i: int, v: Single) -> NativeView<G> {
        if 0 <= i < self.target.len() {
            NativeView { target: self.target.update(i, crate::jet::control(v)), ..self }
        } else {
            self
        }
    }

    /// With a parameter set.
    #[verifier::opaque]
    pub open spec fn with_param(self, i: int, v: Single) -> NativeView<G> {
        if 0 <= i < G::P::param_count() && v.finite() {
            NativeView { p: self.p.with_at(i, v), ..self }
        } else {
            self
        }
    }

    /// With the first parameters set to some values.
    pub open spec fn with_params(self, values: Seq<Single>) -> NativeView<G>
        decreases values.len(),
    {
        if values.len() == 0 {
            self
        } else {
            self.with_params(values.drop_last()).with_param(values.len() - 1, values.last())
        }
    }

    /// With the parameters of a preset; the default ones are preset 0.
    #[verifier::opaque]
    pub open spec fn with_preset(self, i: int) -> NativeView<G> {
        if i == 0 {
            self.with_params(values_of(G::P::plain_params()))
        } else if 0 < i < preset_total::<G>() {
            self.with_params(values_of(G::preset_list()[i - 1].1))
        } else {
            self
        }
    }

    /// Fired at the inputs.
    #[verifier::opaque]
    pub open spec fn fired(self, f: Sums) -> NativeView<G> {
        NativeView { smooth: self.target, g: G::fired(self.g, f, self.target, self.p), ..self }
    }

    /// An event that was not fired, or has rung out.
    pub open spec fn finished(self) -> bool {
        G::about().one_shot && !G::ringing(self.g)
    }

    /// Whether it is an event.
    #[verifier::opaque]
    pub open spec fn one_shot(self) -> bool {
        G::about().one_shot
    }

    /// With smoothing and inertia jumped to the inputs.
    #[verifier::opaque]
    pub open spec fn snapped(self, f: Sums) -> NativeView<G> {
        NativeView { smooth: self.target, g: G::snapped(self.g, f, self.target, self.p), ..self }
    }

    /// The model after a control block in place of `x`, and the block.
    #[verifier::opaque]
    pub open spec fn block(self, f: Sums, x: Seq<Single>) -> (NativeView<G>, Seq<Single>) {
        let n = crate::single::signed_integer(x.len() as int);
        let coef = crate::blocks::settling(f, G::about().smooth_secs, f(Prim::Div, n, self.sample_rate));
        let smooth = followed(f, self.smooth, self.target, coef);
        let (state, y) = if G::about().one_shot && !G::ringing(self.g) {
            (self.g, Seq::new(x.len(), |j: int| Single::of(ZERO)))
        } else {
            G::played(self.g, f, smooth, self.p, x)
        };
        let (peak, z) = meter_run(f, G::about().limit, self.peak_decay, self.peak, y);
        (NativeView { g: state, smooth, peak, ..self }, z)
    }

    /// The model after as many samples as `x` has, in place of it, and the samples.
    pub open spec fn rendered(self, f: Sums, x: Seq<Single>) -> (NativeView<G>, Seq<Single>)
        decreases x.len(),
    {
        if x.len() == 0 {
            (self, seq![])
        } else {
            let n: int = if x.len() < BLOCK { x.len() as int } else { BLOCK as int };
            let (s, head) = self.block(f, x.take(n));
            let (t, tail) = s.rendered(f, x.skip(n));
            (t, head + tail)
        }
    }
}

/// Adapter turning a [`Generator`] into a model.
pub struct Native<G: Generator> {
    pub g: G,
    pub p: G::P,
    pub desc: ModelDesc,
    pub target: Vec<Single>,
    pub smooth: Vec<Single>,
    pub sample_rate: Single,
    pub peak: Single,
    pub peak_decay: Single,
}

impl<G: Generator> View for Native<G> {
    type V = NativeView<G>;

    open spec fn view(&self) -> NativeView<G> {
        NativeView {
            g: self.g.state(),
            p: self.p,
            target: self.target@,
            smooth: self.smooth@,
            sample_rate: self.sample_rate,
            peak: self.peak,
            peak_decay: self.peak_decay,
        }
    }
}

/// Values of a parameter set, in parameter order.
pub open spec fn values_of<P: Params>(p: P) -> Seq<Single> {
    Seq::new(P::param_count(), |i: int| p.value_at(i))
}

/// Names of a parameter set, in parameter order.
pub open spec fn labels_of<P: Params>() -> Seq<Seq<char>> {
    Seq::new(P::param_count(), |i: int| P::label_at(i))
}

/// A description holds what a generator says of itself; the default parameters are preset 0.
#[verifier::opaque]
pub open spec fn describes<G: Generator>(d: ModelDesc) -> bool {
    &&& d.name@ == G::about().name
    &&& d.category@ == G::about().category
    &&& d.doc@ == G::about().doc
    &&& d.engine == Engine::Native
    &&& d.one_shot == G::about().one_shot
    &&& d.inputs@.len() == G::input_list().len()
    &&& forall|i: int| 0 <= i < d.inputs@.len() ==> {
        let (a, b) = (#[trigger] d.inputs@[i], G::input_list()[i]);
        a.name@ == b.name && a.default == b.default && a.doc@ == b.doc
    }
    &&& d.params@.len() == G::P::param_count()
    &&& forall|i: int| 0 <= i < d.params@.len() ==> {
        let a = #[trigger] d.params@[i];
        a.name@ == G::P::label_at(i) && a.kind == G::P::range_at(i) && a.default == G::P::plain_params().value_at(i)
    }
    &&& d.presets@.len() == G::preset_list().len() + 1
    &&& d.presets@[0].name@ == "Default"@
    &&& d.presets@[0].values@ == values_of(G::P::plain_params())
    &&& forall|i: int| 1 <= i < d.presets@.len() ==> {
        let (a, b) = (#[trigger] d.presets@[i], G::preset_list()[i - 1]);
        a.name@ == b.0 && a.values@ == values_of(b.1)
    }
}

fn list_values<P: Params>(p: &P) -> (r: Vec<Single>)
    ensures
        r@ == values_of(*p),
{
    let mut values: Vec<Single> = Vec::new();
    let count = P::count();
    let mut i: usize = 0;
    while i < count
        invariant
            i <= count == P::param_count(),
            values@.len() == i,
            forall|k: int| 0 <= k < i ==> #[trigger] values@[k] == p.value_at(k),
        decreases count - i,
    {
        values.push(p.get_at(i));
        i = i + 1;
    }
    assert(values@ =~= values_of(*p));
    values
}

fn list_inputs<G: Generator>() -> (r: Vec<InputDesc>)
    ensures
        r@.len() == G::input_list().len(),
        forall|i: int| 0 <= i < r@.len() ==> {
            let (a, b) = (#[trigger] r@[i], G::input_list()[i]);
            a.name@ == b.name && a.default == b.default && a.doc@ == b.doc
        },
{
    let inputs = G::inputs();
    let mut r: Vec<InputDesc> = Vec::new();
    let mut i: usize = 0;
    while i < inputs.len()
        invariant
            i <= inputs@.len() == G::input_list().len(),
            r@.len() == i,
            forall|k: int| 0 <= k < inputs@.len() ==> (#[trigger] inputs@[k])@ == G::input_list()[k],
            forall|k: int| 0 <= k < i ==> {
                let (a, b) = (#[trigger] r@[k], G::input_list()[k]);
                a.name@ == b.name && a.default == b.default && a.doc@ == b.doc
            },
        decreases inputs@.len() - i,
    {
        let input = inputs[i];
        assert(inputs@[i as int]@ == G::input_list()[i as int]);
        r.push(InputDesc { name: owned(input.name), default: input.default, doc: owned(input.doc) });
        i = i + 1;
    }
    r
}

fn list_presets<G: Generator>() -> (r: Vec<PresetDesc>)
    ensures
        r@.len() == G::preset_list().len() + 1,
        r@[0].name@ == "Default"@,
        r@[0].values@ == values_of(G::P::plain_params()),
        forall|i: int| 1 <= i < r@.len() ==> {
            let (a, b) = (#[trigger] r@[i], G::preset_list()[i - 1]);
            a.name@ == b.0 && a.values@ == values_of(b.1)
        },
{
    let presets = G::presets();
    let mut r: Vec<PresetDesc> = Vec::new();
    r.push(PresetDesc { name: owned("Default"), values: list_values(&G::P::default_params()) });
    let mut i: usize = 0;
    while i < presets.len()
        invariant
            i <= presets@.len() == G::preset_list().len(),
            r@.len() == i + 1,
            r@[0].name@ == "Default"@,
            r@[0].values@ == values_of(G::P::plain_params()),
            forall|k: int| 0 <= k < presets@.len() ==> (#[trigger] presets@[k]).0@ == G::preset_list()[k].0 && presets@[k].1 == G::preset_list()[k].1,
            forall|k: int| 1 <= k < r@.len() ==> {
                let (a, b) = (#[trigger] r@[k], G::preset_list()[k - 1]);
                a.name@ == b.0 && a.values@ == values_of(b.1)
            },
        decreases presets@.len() - i,
    {
        let name = presets[i].0;
        let values = list_values(&presets[i].1);
        assert(presets@[i as int].0@ == G::preset_list()[i as int].0);
        r.push(PresetDesc { name: owned(name), values });
        i = i + 1;
    }
    r
}

fn default_inputs(inputs: &Vec<InputDesc>) -> (r: Vec<Single>)
    ensures
        r@.len() == inputs@.len(),
        forall|i: int| 0 <= i < r@.len() ==> #[trigger] r@[i] == inputs@[i].default,
{
    let mut r: Vec<Single> = Vec::new();
    let mut i: usize = 0;
    while i < inputs.len()
        invariant
            i <= inputs@.len(),
            r@.len() == i,
            forall|k: int| 0 <= k < i ==> #[trigger] r@[k] == inputs@[k].default,
        decreases inputs@.len() - i,
    {
        r.push(inputs[i].default);
        i = i + 1;
    }
    r
}

impl<G: Generator> Native<G> {
    pub open spec fn wf(self) -> bool {
        &&& self.g.wf()
        &&& self.target@.len() == G::input_list().len()
        &&& self.smooth@.len() == G::input_list().len()
        &&& describes::<G>(self.desc)
    }

    pub fn new<F: Fn(Prim, Single, Single) -> Single>(fpu: &F, sample_rate: Single) -> (r: Native<G>)
        requires
            total(*fpu),
        ensures
            r.wf(),
            forall|f: Sums| #[trigger] meant(*fpu, f) ==> r@ == NativeView::<G>::started(f, sample_rate),
    {
        proof {
            reveal(NativeView::started);
            reveal(describes);
        }
        let rate = if sample_rate.is_finite() && Single::of(P8000).le(sample_rate) { sample_rate } else { Single::of(P48000) };
        let desc = Native::<G>::describe();
        let target = default_inputs(&desc.inputs);
        let smooth = default_inputs(&desc.inputs);
        assert forall|i: int| 0 <= i < target@.len() implies #[trigger] target@[i] == defaults::<G>()[i] by {
            assert(desc.inputs@[i].default == G::input_list()[i].default);
        }
        assert(target@ =~= defaults::<G>());
        assert(smooth@ =~= target@);
        Native {
            g: G::new(fpu, rate),
            p: G::P::default_params(),
            desc,
            target,
            smooth,
            sample_rate: rate,
            peak: Single::of(ZERO),
            peak_decay: fpu(Prim::Exp, fpu(Prim::Div, Single::of(N9_21), fpu(Prim::Mul, Single::of(P0_25), rate)), Single::of(ZERO)),
        }
    }

    /// Description without constructing the DSP state.
    pub fn describe() -> (r: ModelDesc)
        ensures
            describes::<G>(r),
    {
        proof {
            reveal(describes);
        }
        let profile = G::profile();
        ModelDesc {
            name: owned(profile.name),
            category: owned(profile.category),
            doc: owned(profile.doc),
            engine: Engine::Native,
            one_shot: profile.one_shot,
            inputs: list_inputs::<G>(),
            params: describe::<G::P>(),
            presets: list_presets::<G>(),
        }
    }

    pub fn params(&self) -> (r: &G::P)
        ensures
            *r == self@.p,
    {
        &self.p
    }

    pub fn generator(&self) -> (r: &G)
        ensures
            *r == self.g,
    {
        &self.g
    }

    pub fn desc(&self) -> (r: &ModelDesc)
        requires
            self.wf(),
        ensures
            *r == self.desc,
            describes::<G>(*r),
    {
        &self.desc
    }

    /// Inputs are 0..1 game-state values; out-of-range and non-finite values are clamped.
    pub fn set_input(&mut self, index: usize, value: Single)
        requires
            old(self).wf(),
        ensures
            final(self).wf(),
            final(self).desc == old(self).desc,
            final(self)@ == old(self)@.with_input(index as int, value),
    {
        proof {
            reveal(NativeView::with_input);
        }
        if index < self.target.len() {
            let v = if value.is_finite() { value.clamp(Single::of(ZERO), Single::of(ONE)) } else { Single::of(ZERO) };
            self.target.set(index, v);
        }
    }

    pub fn input(&self, index: usize) -> (r: Single)
        ensures
            r == if index < self@.target.len() {
                self@.target[index as int]
            } else {
                Single::of(ZERO)
            },
    {
        if index < self.target.len() {
            self.target[index]
        } else {
            Single::of(ZERO)
        }
    }

    /// Values are clamped to the parameter's range.
    pub fn set_param(&mut self, index: usize, value: Single)
        requires
            old(self).wf(),
        ensures
            final(self).wf(),
            final(self).desc == old(self).desc,
            final(self)@ == old(self)@.with_param(index as int, value),
    {
        proof {
            reveal(NativeView::with_param);
        }
        if index < G::P::count() {
            self.p.set_at(index, value);
        }
    }

    pub fn param(&self, index: usize) -> (r: Single)
        ensures
            r == if index < G::P::param_count() {
                self@.p.value_at(index as int)
            } else {
                Single::of(ZERO)
            },
    {
        if index < G::P::count() {
            self.p.get_at(index)
        } else {
            Single::of(ZERO)
        }
    }

    /// Set the input with a name; whether there is one.
    pub fn set_input_by_name(&mut self, name: &str, value: Single) -> (r: bool)
        requires
            old(self).wf(),
        ensures
            final(self).wf(),
            final(self).desc == old(self).desc,
            !r ==> final(self)@ == old(self)@ && forall|i: int| 0 <= i < G::input_list().len() ==> (#[trigger] G::input_list()[i]).name != name@,
            r ==> exists|i: int|
                0 <= i < G::input_list().len() && (#[trigger] G::input_list()[i]).name == name@ && final(self)@ == old(self)@.with_input(i, value)
                    && forall|k: int| 0 <= k < i ==> (#[trigger] G::input_list()[k]).name != name@,
    {
        proof {
            reveal(describes);
        }
        match self.desc.input_index(name) {
            Some(i) => {
                self.set_input(i, value);
                proof {
                    assert(old(self).desc.inputs@[i as int].name@ == G::input_list()[i as int].name);
                    assert forall|k: int| 0 <= k < i implies (#[trigger] G::input_list()[k]).name != name@ by {
                        assert(old(self).desc.inputs@[k].name@ == G::input_list()[k].name);
                    }
                }
                true
            },
            None => {
                proof {
                    assert forall|k: int| 0 <= k < G::input_list().len() implies (#[trigger] G::input_list()[k]).name != name@ by {
                        assert(old(self).desc.inputs@[k].name@ == G::input_list()[k].name);
                    }
                }
                false
            },
        }
    }

    /// Set the parameter with a name; whether there is one.
    pub fn set_param_by_name(&mut self, name: &str, value: Single) -> (r: bool)
        requires
            old(self).wf(),
        ensures
            final(self).wf(),
            final(self).desc == old(self).desc,
            !r ==> final(self)@ == old(self)@ && forall|i: int| 0 <= i < G::P::param_count() ==> #[trigger] G::P::label_at(i) != name@,
            r ==> exists|i: int|
                0 <= i < G::P::param_count() && #[trigger] G::P::label_at(i) == name@ && final(self)@ == old(self)@.with_param(i, value)
                    && forall|k: int| 0 <= k < i ==> #[trigger] G::P::label_at(k) != name@,
    {
        proof {
            reveal(describes);
        }
        match self.desc.param_index(name) {
            Some(i) => {
                self.set_param(i, value);
                proof {
                    assert(old(self).desc.params@[i as int].name@ == G::P::label_at(i as int));
                    assert forall|k: int| 0 <= k < i implies #[trigger] G::P::label_at(k) != name@ by {
                        assert(old(self).desc.params@[k].name@ == G::P::label_at(k));
                    }
                }
                true
            },
            None => {
                proof {
                    assert forall|k: int| 0 <= k < G::P::param_count() implies #[trigger] G::P::label_at(k) != name@ by {
                        assert(old(self).desc.params@[k].name@ == G::P::label_at(k));
                    }
                }
                false
            },
        }
    }

    /// Set every parameter to its value in a preset; whether there is one.
    pub fn load_preset(&mut self, index: usize) -> (r: bool)
        requires
            old(self).wf(),
        ensures
            final(self).wf(),
            final(self).desc == old(self).desc,
            r == (index < preset_total::<G>()),
            final(self)@ == old(self)@.with_preset(index as int),
    {
        proof {
            reveal(describes);
            reveal(preset_total);
            reveal(NativeView::with_preset);
        }
        if index >= self.desc.presets.len() {
            return false;
        }
        let ghost values = self.desc.presets@[index as int].values@;
        let count = self.desc.presets[index].values.len();
        let mut i: usize = 0;
        assert(values.take(0) =~= seq![]);
        while i < count
            invariant
                i <= count == values.len(),
                index < self.desc.presets@.len(),
                self.desc == old(self).desc,
                values == old(self).desc.presets@[index as int].values@,
                self.wf(),
                self@ == old(self)@.with_params(values.take(i as int)),
            decreases count - i,
        {
            let v = self.desc.presets[index].values[i];
            self.set_param(i, v);
            assert(values.take(i + 1).drop_last() =~= values.take(i as int));
            i = i + 1;
        }
        assert(values.take(i as int) =~= values);
        true
    }

    pub fn params_vec(&self) -> (r: Vec<Single>)
        ensures
            r@ == values_of(self@.p),
    {
        list_values(&self.p)
    }

    /// Jump all smoothing/inertia straight to the current inputs (e.g. spawning mid-flight).
    pub fn snap<F: Fn(Prim, Single, Single) -> Single>(&mut self, fpu: &F)
        requires
            total(*fpu),
            old(self).wf(),
        ensures
            final(self).wf(),
            final(self).desc == old(self).desc,
            forall|f: Sums| #[trigger] meant(*fpu, f) ==> final(self)@ == old(self)@.snapped(f),
    {
        proof {
            reveal(NativeView::snapped);
        }
        self.jump_inputs();
        self.g.snap(fpu, &self.smooth, &self.p);
    }

    fn jump_inputs(&mut self)
        requires
            old(self).wf(),
        ensures
            *final(self) == (Native { smooth: final(self).smooth, ..*old(self) }),
            final(self).smooth@ == old(self).target@,
    {
        let mut i: usize = 0;
        while i < self.target.len()
            invariant
                i <= self.target@.len() == self.smooth@.len(),
                *self == (Native { smooth: self.smooth, ..*old(self) }),
                forall|k: int| 0 <= k < i ==> self.smooth@[k] == self.target@[k],
            decreases self.target@.len() - i,
        {
            let v = self.target[i];
            self.smooth.set(i, v);
            i = i + 1;
        }
        assert(self.smooth@ =~= self.target@);
    }

    /// Fire an event with its current inputs; a continuous sound just goes on.
    pub fn trigger<F: Fn(Prim, Single, Single) -> Single>(&mut self, fpu: &F)
        requires
            total(*fpu),
            old(self).wf(),
        ensures
            final(self).wf(),
            final(self).desc == old(self).desc,
            forall|f: Sums| #[trigger] meant(*fpu, f) ==> final(self)@ == old(self)@.fired(f),
    {
        proof {
            reveal(NativeView::fired);
        }
        self.jump_inputs();
        self.g.trigger(fpu, &self.smooth, &self.p);
    }

    /// Whether it is an event: silent until it is fired.
    pub fn is_one_shot(&self) -> (r: bool)
        requires
            self.wf(),
        ensures
            r == self@.one_shot(),
    {
        proof {
            reveal(NativeView::one_shot);
        }
        G::profile().one_shot
    }

    /// Whether an event was not fired yet, or has rung out.
    pub fn is_finished(&self) -> (r: bool)
        requires
            self.wf(),
        ensures
            r == self@.finished(),
    {
        let profile = G::profile();
        profile.one_shot && !self.g.is_active()
    }

    fn follow_inputs<F: Fn(Prim, Single, Single) -> Single>(&mut self, fpu: &F, coef: Single)
        requires
            total(*fpu),
            old(self).wf(),
        ensures
            *final(self) == (Native { smooth: final(self).smooth, ..*old(self) }),
            final(self).smooth@.len() == old(self).smooth@.len(),
            forall|f: Sums| #[trigger] meant(*fpu, f) ==> final(self).smooth@ == followed(f, old(self).smooth@, old(self).target@, coef),
    {
        let mut i: usize = 0;
        let ghost before = self.smooth@;
        while i < self.target.len()
            invariant
                total(*fpu),
                i <= self.target@.len() == self.smooth@.len(),
                self.smooth@.len() == before.len(),
                before == old(self).smooth@,
                *self == (Native { smooth: self.smooth, ..*old(self) }),
                forall|k: int| i <= k < before.len() ==> self.smooth@[k] == before[k],
                forall|f: Sums| #[trigger] meant(*fpu, f) ==> forall|k: int|
                    0 <= k < i ==> #[trigger] self.smooth@[k] == followed(f, before, self.target@, coef)[k],
            decreases self.target@.len() - i,
        {
            let (s, t) = (self.smooth[i], self.target[i]);
            self.smooth.set(i, fpu(Prim::Add, s, fpu(Prim::Mul, fpu(Prim::Sub, t, s), coef)));
            i = i + 1;
        }
        assert(forall|f: Sums| #[trigger] meant(*fpu, f) ==> self.smooth@ =~= followed(f, before, self.target@, coef));
    }

    fn render_block<F: Fn(Prim, Single, Single) -> Single>(&mut self, fpu: &F, out: &mut Vec<Single>, start: usize, end: usize)
        requires
            total(*fpu),
            old(self).wf(),
            start < end <= old(out)@.len(),
            end - start <= BLOCK,
        ensures
            final(self).wf(),
            final(self).desc == old(self).desc,
            same_outside(old(out)@, final(out)@, start as int, end as int),
            forall|f: Sums| #[trigger] meant(*fpu, f) ==> (final(self)@, final(out)@.subrange(start as int, end as int)) == old(self)@.block(
                f,
                old(out)@.subrange(start as int, end as int),
            ),
    {
        proof {
            reveal(NativeView::block);
        }
        let n = from_i32((end - start) as i32);
        let profile = G::profile();
        let coef = settle_coef(fpu, profile.smooth_secs, fpu(Prim::Div, n, self.sample_rate));
        self.follow_inputs(fpu, coef);
        if profile.one_shot && !self.g.is_active() {
            silence_span(out, start, end);
        } else {
            self.g.block(fpu, &self.smooth, &self.p, out, start, end);
        }
        let mut peak = self.peak;
        meter_span(fpu, profile.limit, self.peak_decay, &mut peak, out, start, end);
        self.peak = peak;
    }

    /// Render mono audio into `out`, overwriting it.
    pub fn render_mono<F: Fn(Prim, Single, Single) -> Single>(&mut self, fpu: &F, out: &mut Vec<Single>)
        requires
            total(*fpu),
            old(self).wf(),
        ensures
            final(self).wf(),
            final(self).desc == old(self).desc,
            final(out)@.len() == old(out)@.len(),
            forall|f: Sums| #[trigger] meant(*fpu, f) ==> (final(self)@, final(out)@) == old(self)@.rendered(f, old(out)@),
    {
        let len = out.len();
        let ghost x = out@;
        let mut at: usize = 0;
        assert(x.skip(0) =~= x);
        assert(out@.take(0) =~= seq![]);
        while at < len
            invariant
                self.desc == old(self).desc,
                total(*fpu),
                at <= len == out@.len() == x.len(),
                x == old(out)@,
                self.wf(),
                same_outside(x, out@, 0, at as int),
                forall|f: Sums| #[trigger] meant(*fpu, f) ==> old(self)@.rendered(f, x) == ({
                    let (t, tail) = self@.rendered(f, x.skip(at as int));
                    (t, out@.take(at as int) + tail)
                }),
            decreases len - at,
        {
            let next: usize = if len - at < BLOCK { len } else { at + BLOCK };
            let ghost rest = x.skip(at as int);
            let ghost done = out@.take(at as int);
            let ghost v = self@;
            assert(out@.subrange(at as int, next as int) =~= rest.take(next - at));
            assert(rest.skip(next - at) =~= x.skip(next as int));
            self.render_block(fpu, out, at, next);
            assert(out@.take(next as int) =~= done + out@.subrange(at as int, next as int));
            assert(forall|f: Sums| #[trigger] meant(*fpu, f) ==> ({
                let (w, tail) = self@.rendered(f, x.skip(next as int));
                &&& v.rendered(f, rest) == (w, out@.subrange(at as int, next as int) + tail)
                &&& done + (out@.subrange(at as int, next as int) + tail) =~= out@.take(next as int) + tail
            }));
            at = next;
        }
        assert(x.skip(at as int) =~= seq![]);
        assert(out@.take(at as int) + seq![] =~= out@);
    }

    /// Recent output peak 0..1, decays over ~250 ms.
    pub fn peak(&self) -> (r: Single)
        ensures
            r == self@.peak,
    {
        self.peak
    }

    pub fn sample_rate(&self) -> (r: Single)
        ensures
            r == self@.sample_rate,
    {
        self.sample_rate
    }
}

proof fn lemma_metered_len(f: Sums, on: bool, decay: Single, s: Single, x: Seq<Single>)
    ensures
        meter_run(f, on, decay, s, x).1.len() == x.len(),
    decreases x.len(),
{
    if x.len() > 0 {
        lemma_metered_len(f, on, decay, s, x.drop_last());
    }
}

/// Rendering overwrites: as many samples come as there is room for, and what the buffer held before
/// does not matter.
pub proof fn lemma_render_overwrites<G: Generator>(s: NativeView<G>, f: Sums, x: Seq<Single>, y: Seq<Single>)
    requires
        x.len() == y.len(),
    ensures
        s.rendered(f, x) == s.rendered(f, y),
        s.rendered(f, x).1.len() == x.len(),
    decreases x.len(),
{
    if x.len() > 0 {
        let n: int = if x.len() < BLOCK { x.len() as int } else { BLOCK as int };
        let (a, b) = (x.take(n), y.take(n));
        assert(s.block(f, a) == s.block(f, b) && s.block(f, a).1.len() == n) by {
            reveal(NativeView::block);
            let coef = crate::blocks::settling(f, G::about().smooth_secs, f(Prim::Div, crate::single::signed_integer(n), s.sample_rate));
            G::lemma_overwrites(s.g, f, followed(f, s.smooth, s.target, coef), s.p, a, b);
            let quiet = Seq::new(n as nat, |j: int| Single::of(ZERO));
            assert(quiet =~= Seq::new(a.len(), |j: int| Single::of(ZERO)));
            assert(quiet =~= Seq::new(b.len(), |j: int| Single::of(ZERO)));
            lemma_metered_len(f, G::about().limit, s.peak_decay, s.peak, quiet);
            lemma_metered_len(f, G::about().limit, s.peak_decay, s.peak, G::played(s.g, f, followed(f, s.smooth, s.target, coef), s.p, a).1);
        }
        lemma_render_overwrites(s.block(f, a).0, f, x.skip(n), y.skip(n));
    }
}

/// Rendering a number of whole control blocks and then more gives what rendering at once gives.
pub proof fn lemma_native_renders_in_parts<G: Generator>(s: NativeView<G>, f: Sums, x: Seq<Single>, blocks: nat)
    requires
        blocks * BLOCK <= x.len(),
    ensures
        s.rendered(f, x) == ({
            let (t, head) = s.rendered(f, x.take((blocks * BLOCK) as int));
            let (u, tail) = t.rendered(f, x.skip((blocks * BLOCK) as int));
            (u, head + tail)
        }),
    decreases blocks,
{
    let m = (blocks * BLOCK) as int;
    if blocks == 0 {
        assert(x.skip(0) =~= x);
        assert(x.take(0) =~= seq![]);
        assert(Seq::<Single>::empty() + s.rendered(f, x).1 =~= s.rendered(f, x).1);
    } else {
        let b = BLOCK as int;
        let fewer = (blocks - 1) as nat;
        assert(m == fewer * BLOCK + b) by (nonlinear_arith)
            requires
                m == blocks * b,
                blocks == fewer + 1,
                b == BLOCK,
        ;
        let (a, first) = s.block(f, x.take(b));
        let rest = x.skip(b);
        lemma_native_renders_in_parts(a, f, rest, fewer);
        assert(x.take(m).take(b) =~= x.take(b));
        assert(x.take(m).skip(b) =~= rest.take(m - b));
        assert(rest.skip(m - b) =~= x.skip(m));
        let (t, head) = a.rendered(f, rest.take(m - b));
        let (u, tail) = t.rendered(f, x.skip(m));
        assert(first + (head + tail) =~= (first + head) + tail);
    }
}

/// An event is silent until it is fired: while nothing rings, a block holds only what the meter
/// makes of zeros, and the generator rests.
pub proof fn lemma_event_rests_until_fired<G: Generator>(s: NativeView<G>, f: Sums, x: Seq<Single>)
    requires
        s.finished(),
    ensures
        s.block(f, x).0.finished(),
        s.block(f, x).0.g == s.g,
        s.block(f, x).1 == meter_run(f, G::about().limit, s.peak_decay, s.peak, Seq::new(x.len(), |j: int| Single::of(ZERO))).1,
{
    reveal(NativeView::block);
}

proof fn lemma_meter_in_scale(f: Sums, on: bool, decay: Single, s: Single, x: Seq<Single>, i: int)
    requires
        0 <= i < x.len(),
        on || crate::math::never_loud(x[i]),
    ensures
        meter_run(f, on, decay, s, x).1.len() == x.len(),
        crate::math::in_scale(meter_run(f, on, decay, s, x).1[i]),
    decreases x.len(),
{
    lemma_metered_len(f, on, decay, s, x);
    lemma_metered_len(f, on, decay, s, x.drop_last());
    if i < x.len() - 1 {
        lemma_meter_in_scale(f, on, decay, s, x.drop_last(), i);
    }
}

/// A generator whose blocks are limited, after it or by itself.
pub open spec fn is_limited<G: Generator>(f: Sums) -> bool {
    G::about().limit || forall|g: G::State, u: Seq<Single>, p: G::P, x: Seq<Single>, j: int|
        0 <= j < G::played(g, f, u, p, x).1.len() ==> crate::math::never_loud(#[trigger] G::played(g, f, u, p, x).1[j])
}

/// Every sample of a limited model is a number within full scale.
pub proof fn lemma_native_in_scale<G: Generator>(s: NativeView<G>, f: Sums, x: Seq<Single>, i: int)
    requires
        is_limited::<G>(f),
        0 <= i < s.rendered(f, x).1.len(),
    ensures
        crate::math::in_scale(s.rendered(f, x).1[i]),
    decreases x.len(),
{
    let n: int = if x.len() < BLOCK { x.len() as int } else { BLOCK as int };
    let (t, head) = s.block(f, x.take(n));
    if i < head.len() {
        reveal(NativeView::block);
        let y = if G::about().one_shot && !G::ringing(s.g) {
            Seq::new(n as nat, |j: int| Single::of(ZERO))
        } else {
            let m = crate::single::signed_integer(n);
            let coef = crate::blocks::settling(f, G::about().smooth_secs, f(Prim::Div, m, s.sample_rate));
            G::played(s.g, f, followed(f, s.smooth, s.target, coef), s.p, x.take(n)).1
        };
        lemma_metered_len(f, G::about().limit, s.peak_decay, s.peak, y);
        assert(G::about().limit || crate::math::never_loud(y[i]));
        lemma_meter_in_scale(f, G::about().limit, s.peak_decay, s.peak, y, i);
    } else {
        lemma_native_in_scale(t, f, x.skip(n), i - head.len());
    }
}

proof fn lemma_meter_is_share(f: Sums, on: bool, decay: Single, s: Single, x: Seq<Single>)
    requires
        crate::math::shares_multiply(f),
        crate::math::is_share(s),
        crate::math::is_share(decay),
        on || forall|i: int| 0 <= i < x.len() ==> crate::math::never_loud(#[trigger] x[i]),
    ensures
        crate::math::is_share(meter_run(f, on, decay, s, x).0),
    decreases x.len(),
{
    if x.len() > 0 {
        lemma_meter_is_share(f, on, decay, s, x.drop_last());
        let t = meter_run(f, on, decay, s, x.drop_last()).0;
        assert(crate::math::is_share(f(Prim::Mul, t, decay)));
        assert(on || crate::math::never_loud(x[x.len() - 1]));
    }
}

/// The peak meter of a limited model stays in [0, 1], however long it plays.
pub proof fn lemma_native_peak_is_share<G: Generator>(s: NativeView<G>, f: Sums, x: Seq<Single>)
    requires
        is_limited::<G>(f),
        crate::math::shares_multiply(f),
        crate::math::is_share(s.peak),
        crate::math::is_share(s.peak_decay),
    ensures
        crate::math::is_share(s.rendered(f, x).0.peak),
    decreases x.len(),
{
    if x.len() > 0 {
        let n: int = if x.len() < BLOCK { x.len() as int } else { BLOCK as int };
        let t = s.block(f, x.take(n)).0;
        assert(crate::math::is_share(t.peak) && t.peak_decay == s.peak_decay) by {
            reveal(NativeView::block);
            let y = if G::about().one_shot && !G::ringing(s.g) {
                Seq::new(n as nat, |j: int| Single::of(ZERO))
            } else {
                let m = crate::single::signed_integer(n);
                let coef = crate::blocks::settling(f, G::about().smooth_secs, f(Prim::Div, m, s.sample_rate));
                G::played(s.g, f, followed(f, s.smooth, s.target, coef), s.p, x.take(n)).1
            };
            assert(G::about().limit || forall|i: int| 0 <= i < y.len() ==> crate::math::never_loud(#[trigger] y[i]));
            lemma_meter_is_share(f, G::about().limit, s.peak_decay, s.peak, y);
        }
        lemma_native_peak_is_share(t, f, x.skip(n));
    }
}

/// A parameter among those set has the nearest value it can take; the others are what they were.
pub proof fn lemma_params_read_back<G: Generator>(s: NativeView<G>, values: Seq<Single>, j: int)
    requires
        values.len() <= G::P::param_count(),
        0 <= j < G::P::param_count(),
    ensures
        s.with_params(values).p.value_at(j) == if j < values.len() && values[j].finite() {
            G::P::range_at(j).clamped(values[j])
        } else {
            s.p.value_at(j)
        },
    decreases values.len(),
{
    if values.len() > 0 {
        lemma_params_read_back(s, values.drop_last(), j);
        let before = s.with_params(values.drop_last());
        let (last, v) = (values.len() - 1, values.last());
        reveal(NativeView::with_param);
        if v.finite() {
            if j == last {
                before.p.lemma_set_at_reads_back(last, v);
            } else {
                before.p.lemma_set_at_keeps_others(last, j, v);
            }
        }
    }
}

/// After a preset is loaded, every parameter reads back as the preset has it: its nearest value,
/// which is the preset's own wherever that is one the parameter can take.
pub proof fn lemma_preset_reads_back<G: Generator>(s: NativeView<G>, i: int, j: int)
    requires
        0 <= i < preset_total::<G>(),
        0 <= j < G::P::param_count(),
    ensures
        ({
            let preset = if i == 0 { G::P::plain_params() } else { G::preset_list()[i - 1].1 };
            let v = preset.value_at(j);
            v.finite() ==> s.with_preset(i).p.value_at(j) == G::P::range_at(j).clamped(v)
        }),
{
    reveal(NativeView::with_preset);
    let preset = if i == 0 { G::P::plain_params() } else { G::preset_list()[i - 1].1 };
    lemma_params_read_back(s, values_of(preset), j);
}

/// What a description shows of a parameter in a preset is what the parameter holds once the preset is
/// loaded: the nearest value it can take, and the value itself where it can take that.
pub open spec fn reads_back(d: ModelDesc, i: int, j: int, held: Single) -> bool {
    let (kind, v) = (d.params@[j].kind, d.presets@[i].values@[j]);
    &&& v.finite() ==> held == kind.clamped(v)
    &&& v.finite() && kind.wf() && kind.admits(v) ==> held.value() == v.value() && (kind is Float || kind is Exp ==> held == v)
}

proof fn lemma_setting_keeps_inputs<G: Generator>(s: NativeView<G>, values: Seq<Single>)
    ensures
        s.with_params(values) == (NativeView { p: s.with_params(values).p, ..s }),
    decreases values.len(),
{
    if values.len() > 0 {
        lemma_setting_keeps_inputs(s, values.drop_last());
        reveal(NativeView::with_param);
    }
}

/// Loading a preset sets every parameter to what the description shows for it, and leaves the inputs
/// alone; an index past the end changes nothing.
pub proof fn lemma_native_preset_reads_back<G: Generator>(m: Native<G>, i: int, j: int)
    requires
        m.wf(),
        0 <= i,
        0 <= j < m.desc.params@.len(),
    ensures
        preset_total::<G>() == m.desc.presets@.len(),
        m.desc.params@.len() == G::P::param_count(),
        m@.with_preset(i).target == m@.target,
        i < m.desc.presets@.len() ==> reads_back(m.desc, i, j, m@.with_preset(i).p.value_at(j)),
        i >= m.desc.presets@.len() ==> m@.with_preset(i) == m@,
{
    reveal(describes);
    reveal(preset_total);
    reveal(NativeView::with_preset);
    if i < preset_total::<G>() {
        lemma_preset_reads_back(m@, i, j);
        let preset = if i == 0 { G::P::plain_params() } else { G::preset_list()[i - 1].1 };
        lemma_setting_keeps_inputs(m@, values_of(preset));
        let (kind, v) = (m.desc.params@[j].kind, m.desc.presets@[i].values@[j]);
        assert(v == preset.value_at(j));
        if kind.wf() && kind.admits(v) {
            crate::params::lemma_admitted_stays(kind, v);
        }
    }
}

} // verus!
