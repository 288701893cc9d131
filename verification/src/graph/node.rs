//! Nodes of a graph: what each makes of a block of samples.
use vstd::prelude::*;

use crate::arith::{meant, total, Prim, Sums};
use crate::blocks::{hz_coef, Brown, DelayLine, Dust, OnePole, LONGEST_LINE};
use crate::filter::{FilterMode, Svf};
use crate::graph::assemble::{Color, Design, Plan};
use crate::math::{limit, soft_clip, Rng};
use crate::noise::Noise;
use crate::osc::{Oscillator, Waveform};
use crate::single::{exact, Single, HALF, ONE, TAU, THREE, ZERO};

verus! {

/// Pattern of -1.
pub const N1: u32 = 0xbf80_0000;

/// Pattern of -0.26.
pub const N0_26: u32 = 0xbe85_1eb8;

/// Pattern of 0.001.
pub const P0_001: u32 = 0x3a83_126f;

/// Pattern of 0.05.
pub const P0_05: u32 = 0x3d4c_cccd;

/// Pattern of 0.1.
pub const P0_1: u32 = 0x3dcc_cccd;

/// Pattern of 0.25.
pub const P0_25: u32 = 0x3e80_0000;

/// Pattern of 0.45.
pub const P0_45: u32 = 0x3ee6_6666;

/// Pattern of 0.49.
pub const P0_49: u32 = 0x3efa_e148;

/// Pattern of 0.9.
pub const P0_9: u32 = 0x3f66_6666;

/// Pattern of 0.97.
pub const P0_97: u32 = 0x3f78_51ec;

/// Pattern of 10.
pub const P10: u32 = 0x4120_0000;

/// Pattern of 15.
pub const P15: u32 = 0x4170_0000;

/// Pattern of 16.
pub const P16: u32 = 0x4180_0000;

/// Pattern of 20.
pub const P20: u32 = 0x41a0_0000;

/// Pattern of 29.7.
pub const P29_7: u32 = 0x41ed_999a;

/// Pattern of 37.1.
pub const P37_1: u32 = 0x4214_6666;

/// Pattern of 41.1.
pub const P41_1: u32 = 0x4224_6666;

/// Pattern of 43.7.
pub const P43_7: u32 = 0x422e_cccd;

/// Pattern of 180.
pub const P180: u32 = 0x4334_0000;

/// Pattern of a value that is still to be set.
pub const UNSET: u32 = 0x7fc0_0000;

/// Noise of a color.
#[derive(Clone, Copy, Debug, PartialEq, Eq, Structural)]
pub struct NoiseNode {
    pub color: Color,
    pub noise: Noise,
    pub brown: Brown,
}

/// One sample of noise.
pub open spec fn noise_tick(f: Sums, s: NoiseNode, v: Single) -> (NoiseNode, Single) {
    let white = s.noise.draw();
    let after = Noise { rng: s.noise.rng.advanced(), ..s.noise };
    match s.color {
        Color::White => (NoiseNode { noise: after, ..s }, white),
        Color::Pink => {
            let pink = s.noise.pink.output(f, white);
            (NoiseNode { noise: Noise { pink: s.noise.pink.fed(f, white), ..after }, ..s }, f(Prim::Mul, pink, Single::of(THREE)))
        },
        Color::Brown => {
            let level = s.brown.integrated(f, white);
            (
                NoiseNode { noise: after, brown: Brown { y: level }, ..s },
                f(Prim::Mul, level, Single::of(crate::blocks::BROWN_LEVEL)),
            )
        },
    }
}

/// The same for a block of samples.
pub open spec fn noise_run(f: Sums, s: NoiseNode, x: Seq<Single>) -> (NoiseNode, Seq<Single>)
    decreases x.len(),
{
    if x.len() == 0 {
        (s, seq![])
    } else {
        let (t, out) = noise_run(f, s, x.drop_last());
        let (u, y) = noise_tick(f, t, x.last());
        (u, out.push(y))
    }
}

fn noise_sample<F: Fn(Prim, Single, Single) -> Single>(fpu: &F, s: &mut NoiseNode, v: Single) -> (y: Single)
    requires
        total(*fpu),
    ensures
        forall|f: Sums| #[trigger] meant(*fpu, f) ==> (*final(s), y) == noise_tick(f, *old(s), v),
{
    match s.color {
        Color::White => s.noise.white(),
        Color::Pink => {
            let pink = s.noise.pink(fpu);
            fpu(Prim::Mul, pink, Single::of(THREE))
        },
        Color::Brown => {
            let white = s.noise.white();
            s.brown.tick(fpu, white)
        },
    }
}

fn noise_block<F: Fn(Prim, Single, Single) -> Single>(fpu: &F, s: &mut NoiseNode, x: &Vec<Single>, out: &mut Vec<Single>)
    requires
        total(*fpu),
    ensures
        final(out)@.len() == x@.len(),
        forall|f: Sums| #[trigger] meant(*fpu, f) ==> (*final(s), final(out)@) == noise_run(f, *old(s), x@),
{
    out.clear();
    let mut i: usize = 0;
    assert(x@.take(0) =~= seq![]);
    while i < x.len()
        invariant
            i <= x@.len(),
            out@.len() == i,
            total(*fpu),
            forall|f: Sums| #[trigger] meant(*fpu, f) ==> (*s, out@) == noise_run(f, *old(s), x@.take(i as int)),
        decreases x@.len() - i,
    {
        let y = noise_sample(fpu, s, x[i]);
        out.push(y);
        i = i + 1;
        assert(x@.take(i as int).drop_last() =~= x@.take(i - 1));
    }
    assert(x@.take(i as int) =~= x@);
}

/// An oscillator whose frequency is ramped across a block.
#[derive(Clone, Copy, Debug, PartialEq, Eq, Structural)]
pub struct OscNode {
    pub wave: Waveform,
    pub osc: Oscillator,
    pub phase: Single,
    /// Phase increment; negative while it is still to be set.
    pub dt: Single,
}

/// One sample of an oscillator whose increment grows by `step`.
pub open spec fn osc_tick(f: Sums, step: Single, width: Single, s: OscNode, v: Single) -> (OscNode, Single) {
    let dt = f(Prim::Add, s.dt, step);
    if s.wave == Waveform::Sine {
        let moved = f(Prim::Add, s.phase, dt);
        let phase = f(Prim::Fract, moved, Single::of(ZERO));
        let x = f(Prim::Mul, phase, Single::of(TAU));
        (OscNode { phase, dt, ..s }, f(Prim::Sin, x, Single::of(ZERO)))
    } else {
        (OscNode { osc: s.osc.moved(f, s.wave, dt), dt, ..s }, s.osc.sample(f, s.wave, dt, width))
    }
}

/// The same for a block of samples.
pub open spec fn osc_run(f: Sums, step: Single, width: Single, s: OscNode, x: Seq<Single>) -> (OscNode, Seq<Single>)
    decreases x.len(),
{
    if x.len() == 0 {
        (s, seq![])
    } else {
        let (t, out) = osc_run(f, step, width, s, x.drop_last());
        let (u, y) = osc_tick(f, step, width, t, x.last());
        (u, out.push(y))
    }
}

fn osc_sample<F: Fn(Prim, Single, Single) -> Single>(fpu: &F, step: Single, width: Single, s: &mut OscNode, v: Single) -> (y: Single)
    requires
        total(*fpu),
    ensures
        forall|f: Sums| #[trigger] meant(*fpu, f) ==> (*final(s), y) == osc_tick(f, step, width, *old(s), v),
{
    s.dt = fpu(Prim::Add, s.dt, step);
    if s.wave == Waveform::Sine {
        let moved = fpu(Prim::Add, s.phase, s.dt);
        s.phase = fpu(Prim::Fract, moved, Single::of(ZERO));
        let x = fpu(Prim::Mul, s.phase, Single::of(TAU));
        fpu(Prim::Sin, x, Single::of(ZERO))
    } else {
        s.osc.next(fpu, s.wave, s.dt, width)
    }
}

fn osc_block<F: Fn(Prim, Single, Single) -> Single>(fpu: &F, step: Single, width: Single, s: &mut OscNode, x: &Vec<Single>, out: &mut Vec<Single>)
    requires
        total(*fpu),
    ensures
        final(out)@.len() == x@.len(),
        forall|f: Sums| #[trigger] meant(*fpu, f) ==> (*final(s), final(out)@) == osc_run(f, step, width, *old(s), x@),
{
    out.clear();
    let mut i: usize = 0;
    assert(x@.take(0) =~= seq![]);
    while i < x.len()
        invariant
            i <= x@.len(),
            out@.len() == i,
            total(*fpu),
            forall|f: Sums| #[trigger] meant(*fpu, f) ==> (*s, out@) == osc_run(f, step, width, *old(s), x@.take(i as int)),
        decreases x@.len() - i,
    {
        let y = osc_sample(fpu, step, width, s, x[i]);
        out.push(y);
        i = i + 1;
        assert(x@.take(i as int).drop_last() =~= x@.take(i - 1));
    }
    assert(x@.take(i as int) =~= x@);
}

/// One sample of dust that strikes with probability `p`.
pub open spec fn dust_tick(f: Sums, p: Single, s: Dust, v: Single) -> (Dust, Single) {
    (s.ticked(p), s.impulse(f, p))
}

/// The same for a block of samples.
pub open spec fn dust_run(f: Sums, p: Single, s: Dust, x: Seq<Single>) -> (Dust, Seq<Single>)
    decreases x.len(),
{
    if x.len() == 0 {
        (s, seq![])
    } else {
        let (t, out) = dust_run(f, p, s, x.drop_last());
        let (u, y) = dust_tick(f, p, t, x.last());
        (u, out.push(y))
    }
}

fn dust_sample<F: Fn(Prim, Single, Single) -> Single>(fpu: &F, p: Single, s: &mut Dust, v: Single) -> (y: Single)
    requires
        total(*fpu),
    ensures
        forall|f: Sums| #[trigger] meant(*fpu, f) ==> (*final(s), y) == dust_tick(f, p, *old(s), v),
{
    s.tick(fpu, p)
}

fn dust_block<F: Fn(Prim, Single, Single) -> Single>(fpu: &F, p: Single, s: &mut Dust, x: &Vec<Single>, out: &mut Vec<Single>)
    requires
        total(*fpu),
    ensures
        final(out)@.len() == x@.len(),
        forall|f: Sums| #[trigger] meant(*fpu, f) ==> (*final(s), final(out)@) == dust_run(f, p, *old(s), x@),
{
    out.clear();
    let mut i: usize = 0;
    assert(x@.take(0) =~= seq![]);
    while i < x.len()
        invariant
            i <= x@.len(),
            out@.len() == i,
            total(*fpu),
            forall|f: Sums| #[trigger] meant(*fpu, f) ==> (*s, out@) == dust_run(f, p, *old(s), x@.take(i as int)),
        decreases x@.len() - i,
    {
        let y = dust_sample(fpu, p, s, x[i]);
        out.push(y);
        i = i + 1;
        assert(x@.take(i as int).drop_last() =~= x@.take(i - 1));
    }
    assert(x@.take(i as int) =~= x@);
}

/// One sample through a filter.
pub open spec fn svf_tick(f: Sums, s: Svf, v: Single) -> (Svf, Single) {
    (s.fed(f, v), s.output(f, v))
}

/// The same for a block of samples.
pub open spec fn svf_run(f: Sums, s: Svf, x: Seq<Single>) -> (Svf, Seq<Single>)
    decreases x.len(),
{
    if x.len() == 0 {
        (s, seq![])
    } else {
        let (t, out) = svf_run(f, s, x.drop_last());
        let (u, y) = svf_tick(f, t, x.last());
        (u, out.push(y))
    }
}

fn svf_sample<F: Fn(Prim, Single, Single) -> Single>(fpu: &F, s: &mut Svf, v: Single) -> (y: Single)
    requires
        total(*fpu),
    ensures
        forall|f: Sums| #[trigger] meant(*fpu, f) ==> (*final(s), y) == svf_tick(f, *old(s), v),
{
    s.tick(fpu, v)
}

fn svf_block<F: Fn(Prim, Single, Single) -> Single>(fpu: &F, s: &mut Svf, x: &Vec<Single>, out: &mut Vec<Single>)
    requires
        total(*fpu),
    ensures
        final(out)@.len() == x@.len(),
        forall|f: Sums| #[trigger] meant(*fpu, f) ==> (*final(s), final(out)@) == svf_run(f, *old(s), x@),
{
    out.clear();
    let mut i: usize = 0;
    assert(x@.take(0) =~= seq![]);
    while i < x.len()
        invariant
            i <= x@.len(),
            out@.len() == i,
            total(*fpu),
            forall|f: Sums| #[trigger] meant(*fpu, f) ==> (*s, out@) == svf_run(f, *old(s), x@.take(i as int)),
        decreases x@.len() - i,
    {
        let y = svf_sample(fpu, s, x[i]);
        out.push(y);
        i = i + 1;
        assert(x@.take(i as int).drop_last() =~= x@.take(i - 1));
    }
    assert(x@.take(i as int) =~= x@);
}

/// One sample through a one-pole filter.
pub open spec fn pole_tick(f: Sums, high: bool, coef: Single, s: OnePole, v: Single) -> (OnePole, Single) {
    let y = s.smoothed(f, v, coef);
    (OnePole { y }, if high {
        f(Prim::Sub, v, y)
    } else {
        y
    })
}

/// The same for a block of samples.
pub open spec fn pole_run(f: Sums, high: bool, coef: Single, s: OnePole, x: Seq<Single>) -> (OnePole, Seq<Single>)
    decreases x.len(),
{
    if x.len() == 0 {
        (s, seq![])
    } else {
        let (t, out) = pole_run(f, high, coef, s, x.drop_last());
        let (u, y) = pole_tick(f, high, coef, t, x.last());
        (u, out.push(y))
    }
}

fn pole_sample<F: Fn(Prim, Single, Single) -> Single>(fpu: &F, high: bool, coef: Single, s: &mut OnePole, v: Single) -> (y: Single)
    requires
        total(*fpu),
    ensures
        forall|f: Sums| #[trigger] meant(*fpu, f) ==> (*final(s), y) == pole_tick(f, high, coef, *old(s), v),
{
    if high {
        s.hp(fpu, v, coef)
    } else {
        s.lp(fpu, v, coef)
    }
}

fn pole_block<F: Fn(Prim, Single, Single) -> Single>(fpu: &F, high: bool, coef: Single, s: &mut OnePole, x: &Vec<Single>, out: &mut Vec<Single>)
    requires
        total(*fpu),
    ensures
        final(out)@.len() == x@.len(),
        forall|f: Sums| #[trigger] meant(*fpu, f) ==> (*final(s), final(out)@) == pole_run(f, high, coef, *old(s), x@),
{
    out.clear();
    let mut i: usize = 0;
    assert(x@.take(0) =~= seq![]);
    while i < x.len()
        invariant
            i <= x@.len(),
            out@.len() == i,
            total(*fpu),
            forall|f: Sums| #[trigger] meant(*fpu, f) ==> (*s, out@) == pole_run(f, high, coef, *old(s), x@.take(i as int)),
        decreases x@.len() - i,
    {
        let y = pole_sample(fpu, high, coef, s, x[i]);
        out.push(y);
        i = i + 1;
        assert(x@.take(i as int).drop_last() =~= x@.take(i - 1));
    }
    assert(x@.take(i as int) =~= x@);
}

/// A delay line whose delay is ramped across a block.
#[derive(Debug)]
pub struct CombNode {
    pub line: DelayLine,
    /// Delay in samples; no number while it is still to be set.
    pub delay: Single,
}

/// What a [`CombNode`] holds.
pub struct CombView {
    pub history: Seq<Single>,
    pub delay: Single,
}

impl View for CombNode {
    type V = CombView;

    open spec fn view(&self) -> CombView {
        CombView { history: self.line.history(), delay: self.delay }
    }
}

impl CombNode {
    pub open spec fn wf(self) -> bool {
        self.line.wf()
    }
}

/// One sample of a feedback comb whose delay grows by `step`, or of an echo.
pub open spec fn comb_tick(f: Sums, step: Single, feedback: Single, mix: Single, echo: bool, s: CombView, v: Single) -> (CombView, Single) {
    let delay = f(Prim::Add, s.delay, step);
    let wet = crate::blocks::delayed(f, s.history, delay);
    let y = f(Prim::Add, v, f(Prim::Mul, wet, feedback));
    (CombView { history: crate::blocks::remembered(s.history, y), delay }, if echo {
        f(Prim::Add, f(Prim::Mul, v, f(Prim::Sub, Single::of(ONE), mix)), f(Prim::Mul, wet, mix))
    } else {
        f(Prim::Add, v, f(Prim::Mul, f(Prim::Sub, y, v), mix))
    })
}

/// The same for a block of samples.
pub open spec fn comb_run(f: Sums, step: Single, feedback: Single, mix: Single, echo: bool, s: CombView, x: Seq<Single>) -> (CombView, Seq<Single>)
    decreases x.len(),
{
    if x.len() == 0 {
        (s, seq![])
    } else {
        let (t, out) = comb_run(f, step, feedback, mix, echo, s, x.drop_last());
        let (u, y) = comb_tick(f, step, feedback, mix, echo, t, x.last());
        (u, out.push(y))
    }
}

fn comb_sample<F: Fn(Prim, Single, Single) -> Single>(fpu: &F, step: Single, feedback: Single, mix: Single, echo: bool, s: &mut CombNode, v: Single) -> (y: Single)
    requires
        total(*fpu),
        old(s).wf(),
    ensures
        final(s).wf(),
        forall|f: Sums| #[trigger] meant(*fpu, f) ==> (final(s)@, y) == comb_tick(f, step, feedback, mix, echo, old(s)@, v),
{
    s.delay = fpu(Prim::Add, s.delay, step);
    let wet = s.line.read(fpu, s.delay);
    let y = fpu(Prim::Add, v, fpu(Prim::Mul, wet, feedback));
    s.line.write(y);
    if echo {
        fpu(Prim::Add, fpu(Prim::Mul, v, fpu(Prim::Sub, Single::of(ONE), mix)), fpu(Prim::Mul, wet, mix))
    } else {
        fpu(Prim::Add, v, fpu(Prim::Mul, fpu(Prim::Sub, y, v), mix))
    }
}

fn comb_block<F: Fn(Prim, Single, Single) -> Single>(fpu: &F, step: Single, feedback: Single, mix: Single, echo: bool, s: &mut CombNode, x: &Vec<Single>, out: &mut Vec<Single>)
    requires
        total(*fpu),
        old(s).wf(),
    ensures
        final(out)@.len() == x@.len(),
        final(s).wf(),
        forall|f: Sums| #[trigger] meant(*fpu, f) ==> (final(s)@, final(out)@) == comb_run(f, step, feedback, mix, echo, old(s)@, x@),
{
    out.clear();
    let mut i: usize = 0;
    assert(x@.take(0) =~= seq![]);
    while i < x.len()
        invariant
            i <= x@.len(),
            out@.len() == i,
            total(*fpu),
            s.wf(),
            forall|f: Sums| #[trigger] meant(*fpu, f) ==> (s@, out@) == comb_run(f, step, feedback, mix, echo, old(s)@, x@.take(i as int)),
        decreases x@.len() - i,
    {
        let y = comb_sample(fpu, step, feedback, mix, echo, s, x[i]);
        out.push(y);
        i = i + 1;
        assert(x@.take(i as int).drop_last() =~= x@.take(i - 1));
    }
    assert(x@.take(i as int) =~= x@);
}

/// One sample of an envelope that jumps to its input and falls by the factor `c`.
pub open spec fn decay_tick(f: Sums, c: Single, s: Single, v: Single) -> (Single, Single) {
    let y = f(Prim::Mul, s, c).larger(v.absolute());
    (y, y)
}

/// The same for a block of samples.
pub open spec fn decay_run(f: Sums, c: Single, s: Single, x: Seq<Single>) -> (Single, Seq<Single>)
    decreases x.len(),
{
    if x.len() == 0 {
        (s, seq![])
    } else {
        let (t, out) = decay_run(f, c, s, x.drop_last());
        let (u, y) = decay_tick(f, c, t, x.last());
        (u, out.push(y))
    }
}

fn decay_sample<F: Fn(Prim, Single, Single) -> Single>(fpu: &F, c: Single, s: &mut Single, v: Single) -> (y: Single)
    requires
        total(*fpu),
    ensures
        forall|f: Sums| #[trigger] meant(*fpu, f) ==> (*final(s), y) == decay_tick(f, c, *old(s), v),
{
    let env = *s;
    let y = fpu(Prim::Mul, env, c).max(v.abs());
    *s = y;
    y
}

fn decay_block<F: Fn(Prim, Single, Single) -> Single>(fpu: &F, c: Single, s: &mut Single, x: &Vec<Single>, out: &mut Vec<Single>)
    requires
        total(*fpu),
    ensures
        final(out)@.len() == x@.len(),
        forall|f: Sums| #[trigger] meant(*fpu, f) ==> (*final(s), final(out)@) == decay_run(f, c, *old(s), x@),
{
    out.clear();
    let mut i: usize = 0;
    assert(x@.take(0) =~= seq![]);
    while i < x.len()
        invariant
            i <= x@.len(),
            out@.len() == i,
            total(*fpu),
            forall|f: Sums| #[trigger] meant(*fpu, f) ==> (*s, out@) == decay_run(f, c, *old(s), x@.take(i as int)),
        decreases x@.len() - i,
    {
        let y = decay_sample(fpu, c, s, x[i]);
        out.push(y);
        i = i + 1;
        assert(x@.take(i as int).drop_last() =~= x@.take(i - 1));
    }
    assert(x@.take(i as int) =~= x@);
}

/// One sample of saturation.
pub open spec fn drive_tick(f: Sums, pre: Single, post: Single, s: (), v: Single) -> ((), Single) {
    (s, f(Prim::Mul, crate::math::saturated(f, f(Prim::Mul, v, pre)), post))
}

/// The same for a block of samples.
pub open spec fn drive_run(f: Sums, pre: Single, post: Single, s: (), x: Seq<Single>) -> ((), Seq<Single>)
    decreases x.len(),
{
    if x.len() == 0 {
        (s, seq![])
    } else {
        let (t, out) = drive_run(f, pre, post, s, x.drop_last());
        let (u, y) = drive_tick(f, pre, post, t, x.last());
        (u, out.push(y))
    }
}

fn drive_sample<F: Fn(Prim, Single, Single) -> Single>(fpu: &F, pre: Single, post: Single, s: &mut (), v: Single) -> (y: Single)
    requires
        total(*fpu),
    ensures
        forall|f: Sums| #[trigger] meant(*fpu, f) ==> (*final(s), y) == drive_tick(f, pre, post, *old(s), v),
{
    fpu(Prim::Mul, soft_clip(fpu, fpu(Prim::Mul, v, pre)), post)
}

fn drive_block<F: Fn(Prim, Single, Single) -> Single>(fpu: &F, pre: Single, post: Single, s: &mut (), x: &Vec<Single>, out: &mut Vec<Single>)
    requires
        total(*fpu),
    ensures
        final(out)@.len() == x@.len(),
        forall|f: Sums| #[trigger] meant(*fpu, f) ==> (*final(s), final(out)@) == drive_run(f, pre, post, *old(s), x@),
{
    out.clear();
    let mut i: usize = 0;
    assert(x@.take(0) =~= seq![]);
    while i < x.len()
        invariant
            i <= x@.len(),
            out@.len() == i,
            total(*fpu),
            forall|f: Sums| #[trigger] meant(*fpu, f) ==> (*s, out@) == drive_run(f, pre, post, *old(s), x@.take(i as int)),
        decreases x@.len() - i,
    {
        let y = drive_sample(fpu, pre, post, s, x[i]);
        out.push(y);
        i = i + 1;
        assert(x@.take(i as int).drop_last() =~= x@.take(i - 1));
    }
    assert(x@.take(i as int) =~= x@);
}

/// A sample that is held while the count runs.
#[derive(Clone, Copy, Debug, PartialEq, Eq, Structural)]
pub struct CrushNode {
    pub hold: Single,
    pub count: Single,
}

/// One sample held for `down` samples and rounded to `levels` steps.
pub open spec fn crush_tick(f: Sums, levels: Single, down: Single, s: CrushNode, v: Single) -> (CrushNode, Single) {
    let count = f(Prim::Add, s.count, Single::of(ONE));
    let t = if down.at_most(count) {
        CrushNode { hold: v, count: f(Prim::Sub, count, down) }
    } else {
        CrushNode { hold: s.hold, count }
    };
    let x = f(Prim::Mul, t.hold, levels);
    (t, f(Prim::Div, f(Prim::Round, x, Single::of(ZERO)), levels))
}

/// The same for a block of samples.
pub open spec fn crush_run(f: Sums, levels: Single, down: Single, s: CrushNode, x: Seq<Single>) -> (CrushNode, Seq<Single>)
    decreases x.len(),
{
    if x.len() == 0 {
        (s, seq![])
    } else {
        let (t, out) = crush_run(f, levels, down, s, x.drop_last());
        let (u, y) = crush_tick(f, levels, down, t, x.last());
        (u, out.push(y))
    }
}

fn crush_sample<F: Fn(Prim, Single, Single) -> Single>(fpu: &F, levels: Single, down: Single, s: &mut CrushNode, v: Single) -> (y: Single)
    requires
        total(*fpu),
    ensures
        forall|f: Sums| #[trigger] meant(*fpu, f) ==> (*final(s), y) == crush_tick(f, levels, down, *old(s), v),
{
    s.count = fpu(Prim::Add, s.count, Single::of(ONE));
    if down.le(s.count) {
        s.count = fpu(Prim::Sub, s.count, down);
        s.hold = v;
    }
    let x = fpu(Prim::Mul, s.hold, levels);
    fpu(Prim::Div, fpu(Prim::Round, x, Single::of(ZERO)), levels)
}

fn crush_block<F: Fn(Prim, Single, Single) -> Single>(fpu: &F, levels: Single, down: Single, s: &mut CrushNode, x: &Vec<Single>, out: &mut Vec<Single>)
    requires
        total(*fpu),
    ensures
        final(out)@.len() == x@.len(),
        forall|f: Sums| #[trigger] meant(*fpu, f) ==> (*final(s), final(out)@) == crush_run(f, levels, down, *old(s), x@),
{
    out.clear();
    let mut i: usize = 0;
    assert(x@.take(0) =~= seq![]);
    while i < x.len()
        invariant
            i <= x@.len(),
            out@.len() == i,
            total(*fpu),
            forall|f: Sums| #[trigger] meant(*fpu, f) ==> (*s, out@) == crush_run(f, levels, down, *old(s), x@.take(i as int)),
        decreases x@.len() - i,
    {
        let y = crush_sample(fpu, levels, down, s, x[i]);
        out.push(y);
        i = i + 1;
        assert(x@.take(i as int).drop_last() =~= x@.take(i - 1));
    }
    assert(x@.take(i as int) =~= x@);
}

/// One sample of a value that grows by `step`.
pub open spec fn dc_tick(f: Sums, step: Single, s: Single, v: Single) -> (Single, Single) {
    let y = f(Prim::Add, s, step);
    (y, y)
}

/// The same for a block of samples.
pub open spec fn dc_run(f: Sums, step: Single, s: Single, x: Seq<Single>) -> (Single, Seq<Single>)
    decreases x.len(),
{
    if x.len() == 0 {
        (s, seq![])
    } else {
        let (t, out) = dc_run(f, step, s, x.drop_last());
        let (u, y) = dc_tick(f, step, t, x.last());
        (u, out.push(y))
    }
}

fn dc_sample<F: Fn(Prim, Single, Single) -> Single>(fpu: &F, step: Single, s: &mut Single, v: Single) -> (y: Single)
    requires
        total(*fpu),
    ensures
        forall|f: Sums| #[trigger] meant(*fpu, f) ==> (*final(s), y) == dc_tick(f, step, *old(s), v),
{
    let was = *s;
    let y = fpu(Prim::Add, was, step);
    *s = y;
    y
}

fn dc_block<F: Fn(Prim, Single, Single) -> Single>(fpu: &F, step: Single, s: &mut Single, x: &Vec<Single>, out: &mut Vec<Single>)
    requires
        total(*fpu),
    ensures
        final(out)@.len() == x@.len(),
        forall|f: Sums| #[trigger] meant(*fpu, f) ==> (*final(s), final(out)@) == dc_run(f, step, *old(s), x@),
{
    out.clear();
    let mut i: usize = 0;
    assert(x@.take(0) =~= seq![]);
    while i < x.len()
        invariant
            i <= x@.len(),
            out@.len() == i,
            total(*fpu),
            forall|f: Sums| #[trigger] meant(*fpu, f) ==> (*s, out@) == dc_run(f, step, *old(s), x@.take(i as int)),
        decreases x@.len() - i,
    {
        let y = dc_sample(fpu, step, s, x[i]);
        out.push(y);
        i = i + 1;
        assert(x@.take(i as int).drop_last() =~= x@.take(i - 1));
    }
    assert(x@.take(i as int) =~= x@);
}

/// One sample times a gain that grows by `step`.
pub open spec fn gain_tick(f: Sums, step: Single, s: Single, v: Single) -> (Single, Single) {
    let g = f(Prim::Add, s, step);
    (g, f(Prim::Mul, v, g))
}

/// The same for a block of samples.
pub open spec fn gain_run(f: Sums, step: Single, s: Single, x: Seq<Single>) -> (Single, Seq<Single>)
    decreases x.len(),
{
    if x.len() == 0 {
        (s, seq![])
    } else {
        let (t, out) = gain_run(f, step, s, x.drop_last());
        let (u, y) = gain_tick(f, step, t, x.last());
        (u, out.push(y))
    }
}

fn gain_sample<F: Fn(Prim, Single, Single) -> Single>(fpu: &F, step: Single, s: &mut Single, v: Single) -> (y: Single)
    requires
        total(*fpu),
    ensures
        forall|f: Sums| #[trigger] meant(*fpu, f) ==> (*final(s), y) == gain_tick(f, step, *old(s), v),
{
    let was = *s;
    let g = fpu(Prim::Add, was, step);
    *s = g;
    fpu(Prim::Mul, v, g)
}

fn gain_block<F: Fn(Prim, Single, Single) -> Single>(fpu: &F, step: Single, s: &mut Single, x: &Vec<Single>, out: &mut Vec<Single>)
    requires
        total(*fpu),
    ensures
        final(out)@.len() == x@.len(),
        forall|f: Sums| #[trigger] meant(*fpu, f) ==> (*final(s), final(out)@) == gain_run(f, step, *old(s), x@),
{
    out.clear();
    let mut i: usize = 0;
    assert(x@.take(0) =~= seq![]);
    while i < x.len()
        invariant
            i <= x@.len(),
            out@.len() == i,
            total(*fpu),
            forall|f: Sums| #[trigger] meant(*fpu, f) ==> (*s, out@) == gain_run(f, step, *old(s), x@.take(i as int)),
        decreases x@.len() - i,
    {
        let y = gain_sample(fpu, step, s, x[i]);
        out.push(y);
        i = i + 1;
        assert(x@.take(i as int).drop_last() =~= x@.take(i - 1));
    }
    assert(x@.take(i as int) =~= x@);
}

/// One sample through the limiter.
pub open spec fn limiter_tick(f: Sums, s: (), v: Single) -> ((), Single) {
    (s, crate::math::limited(f, v))
}

/// The same for a block of samples.
pub open spec fn limiter_run(f: Sums, s: (), x: Seq<Single>) -> ((), Seq<Single>)
    decreases x.len(),
{
    if x.len() == 0 {
        (s, seq![])
    } else {
        let (t, out) = limiter_run(f, s, x.drop_last());
        let (u, y) = limiter_tick(f, t, x.last());
        (u, out.push(y))
    }
}

fn limiter_sample<F: Fn(Prim, Single, Single) -> Single>(fpu: &F, s: &mut (), v: Single) -> (y: Single)
    requires
        total(*fpu),
    ensures
        forall|f: Sums| #[trigger] meant(*fpu, f) ==> (*final(s), y) == limiter_tick(f, *old(s), v),
{
    limit(fpu, v)
}

fn limiter_block<F: Fn(Prim, Single, Single) -> Single>(fpu: &F, s: &mut (), x: &Vec<Single>, out: &mut Vec<Single>)
    requires
        total(*fpu),
    ensures
        final(out)@.len() == x@.len(),
        forall|f: Sums| #[trigger] meant(*fpu, f) ==> (*final(s), final(out)@) == limiter_run(f, *old(s), x@),
{
    out.clear();
    let mut i: usize = 0;
    assert(x@.take(0) =~= seq![]);
    while i < x.len()
        invariant
            i <= x@.len(),
            out@.len() == i,
            total(*fpu),
            forall|f: Sums| #[trigger] meant(*fpu, f) ==> (*s, out@) == limiter_run(f, *old(s), x@.take(i as int)),
        decreases x@.len() - i,
    {
        let y = limiter_sample(fpu, s, x[i]);
        out.push(y);
        i = i + 1;
        assert(x@.take(i as int).drop_last() =~= x@.take(i - 1));
    }
    assert(x@.take(i as int) =~= x@);
}

/// A bank of ringing band-passes.
#[derive(Debug)]
pub struct BankNode {
    pub filters: Vec<Svf>,
    pub freqs: Vec<Single>,
    pub random: bool,
    pub spread: Single,
    pub rng: Rng,
}

/// What a [`BankNode`] holds.
pub struct BankView {
    pub filters: Seq<Svf>,
    pub freqs: Seq<Single>,
    pub random: bool,
    pub spread: Single,
    pub rng: Rng,
}

impl View for BankNode {
    type V = BankView;

    open spec fn view(&self) -> BankView {
        BankView {
            filters: self.filters@,
            freqs: self.freqs@,
            random: self.random,
            spread: self.spread,
            rng: self.rng,
        }
    }
}

impl BankNode {
    pub open spec fn wf(self) -> bool {
        1 <= self.filters@.len() == self.freqs@.len() <= crate::graph::spec::MAX_RESONATORS
    }
}

/// A band-pass tuned to a frequency between 20 Hz and 0.45 of the sample rate.
pub open spec fn rung(f: Sums, filter: Svf, hz: Single, resonance: Single, sr: Single) -> Svf {
    filter.tuned(f, FilterMode::BandPass, hz.within(Single::of(P20), f(Prim::Mul, sr, Single::of(P0_45))), resonance, sr)
}

fn ring<F: Fn(Prim, Single, Single) -> Single>(fpu: &F, filter: &mut Svf, hz: Single, resonance: Single, sr: Single)
    requires
        total(*fpu),
    ensures
        forall|f: Sums| #[trigger] meant(*fpu, f) ==> *final(filter) == rung(f, *old(filter), hz, resonance, sr),
{
    filter.set(fpu, FilterMode::BandPass, hz.clamp(Single::of(P20), fpu(Prim::Mul, sr, Single::of(P0_45))), resonance, sr);
}

/// The bank with every filter tuned to its frequency times `scale`.
pub open spec fn tuned_bank(f: Sums, s: BankView, scale: Single, resonance: Single, sr: Single) -> Seq<Svf> {
    Seq::new(s.filters.len(), |k: int| rung(f, s.filters[k], f(Prim::Mul, s.freqs[k], scale), resonance, sr))
}

fn tune_bank<F: Fn(Prim, Single, Single) -> Single>(fpu: &F, s: &mut BankNode, scale: Single, resonance: Single, sr: Single)
    requires
        total(*fpu),
        old(s).wf(),
    ensures
        final(s).wf(),
        forall|f: Sums| #[trigger] meant(*fpu, f) ==> final(s)@ == (BankView { filters: tuned_bank(f, old(s)@, scale, resonance, sr), ..old(s)@ }),
{
    let count = s.filters.len();
    let mut k: usize = 0;
    while k < count
        invariant
            k <= count == s.filters@.len() == old(s).filters@.len(),
            s.freqs == old(s).freqs,
            s.freqs@.len() == count,
            s.random == old(s).random,
            s.spread == old(s).spread,
            s.rng == old(s).rng,
            total(*fpu),
            forall|j: int| k <= j < count ==> #[trigger] s.filters@[j] == old(s).filters@[j],
            forall|f: Sums| #[trigger] meant(*fpu, f) ==> forall|j: int|
                0 <= j < k ==> #[trigger] s.filters@[j] == tuned_bank(f, old(s)@, scale, resonance, sr)[j],
        decreases count - k,
    {
        let mut filter = s.filters[k];
        ring(fpu, &mut filter, fpu(Prim::Mul, s.freqs[k], scale), resonance, sr);
        s.filters.set(k, filter);
        k = k + 1;
    }
    proof {
        assert forall|f: Sums| #[trigger] meant(*fpu, f) implies s@ == (BankView {
            filters: tuned_bank(f, old(s)@, scale, resonance, sr),
            ..old(s)@
        }) by {
            assert(s.filters@ =~= tuned_bank(f, old(s)@, scale, resonance, sr));
        }
    }
}

/// The first `k` filters fed with a sample, or only the one picked, and the sum of their outputs.
pub open spec fn fed_bank(f: Sums, filters: Seq<Svf>, v: Single, pick: Option<int>, k: nat) -> (Seq<Svf>, Single)
    decreases k,
{
    if k == 0 {
        (filters, Single::of(ZERO))
    } else {
        let (fed, sum) = fed_bank(f, filters, v, pick, (k - 1) as nat);
        let x = if pick is None || pick == Some(k - 1) {
            v
        } else {
            Single::of(ZERO)
        };
        (fed.update(k - 1, filters[k - 1].fed(f, x)), f(Prim::Add, sum, filters[k - 1].output(f, x)))
    }
}

/// Feed `v` to all filters, or to the one picked and silence to the others.
fn feed_bank<F: Fn(Prim, Single, Single) -> Single>(fpu: &F, filters: &mut Vec<Svf>, v: Single, pick: Option<usize>) -> (r: Single)
    requires
        total(*fpu),
    ensures
        final(filters)@.len() == old(filters)@.len(),
        forall|f: Sums| #[trigger] meant(*fpu, f) ==> (final(filters)@, r) == fed_bank(
            f,
            old(filters)@,
            v,
            match pick {
                Some(p) => Some(p as int),
                None => None,
            },
            old(filters)@.len(),
        ),
{
    let ghost picked: Option<int> = match pick {
        Some(p) => Some(p as int),
        None => None,
    };
    let mut y = Single::of(ZERO);
    let mut k: usize = 0;
    while k < filters.len()
        invariant
            k <= filters@.len() == old(filters)@.len(),
            total(*fpu),
            picked == (match pick {
                Some(p) => Some(p as int),
                None => None,
            }),
            forall|j: int| k <= j < filters@.len() ==> #[trigger] filters@[j] == old(filters)@[j],
            forall|f: Sums| #[trigger] meant(*fpu, f) ==> (filters@, y) == fed_bank(f, old(filters)@, v, picked, k as nat),
        decreases filters@.len() - k,
    {
        let mut filter = filters[k];
        let x = match pick {
            None => v,
            Some(p) => if p == k {
                v
            } else {
                Single::of(ZERO)
            },
        };
        let out = filter.tick(fpu, x);
        y = fpu(Prim::Add, y, out);
        filters.set(k, filter);
        k = k + 1;
    }
    y
}

/// The silent filters of a bank that picks one filter per impulse but got none.
pub open spec fn silent_pick(filters: Seq<Svf>) -> Option<int> {
    Some(filters.len() as int)
}

/// Which filter an impulse of a random bank strikes.
pub open spec fn struck(s: BankView) -> int {
    s.rng.advanced().state() as int % s.filters.len() as int
}

/// One sample through a bank. A random bank sends each impulse to one filter, which is detuned first where there is a spread.
pub open spec fn bank_tick(f: Sums, scale: Single, resonance: Single, norm: Single, sr: Single, s: BankView, v: Single) -> (BankView, Single) {
    if s.random && !v.zero() {
        let p = struck(s);
        let drawn = s.rng.advanced();
        if Single::of(ZERO).below(s.spread) {
            let octaves = f(Prim::Mul, crate::math::bipolar(drawn.fraction()), s.spread);
            let hz = f(Prim::Mul, f(Prim::Mul, s.freqs[p], scale), f(Prim::Exp2, octaves, Single::of(ZERO)));
            let tuned = s.filters.update(p, rung(f, s.filters[p], hz, resonance, sr));
            let (filters, y) = fed_bank(f, tuned, v, Some(p), tuned.len());
            (BankView { filters, rng: drawn.advanced(), ..s }, y)
        } else {
            let (filters, y) = fed_bank(f, s.filters, v, Some(p), s.filters.len());
            (BankView { filters, rng: drawn, ..s }, y)
        }
    } else if s.random {
        let (filters, y) = fed_bank(f, s.filters, v, silent_pick(s.filters), s.filters.len());
        (BankView { filters, ..s }, y)
    } else {
        let (filters, y) = fed_bank(f, s.filters, v, None, s.filters.len());
        (BankView { filters, ..s }, f(Prim::Mul, y, norm))
    }
}

/// The same for a block of samples.
pub open spec fn bank_run(f: Sums, scale: Single, resonance: Single, norm: Single, sr: Single, s: BankView, x: Seq<Single>) -> (BankView, Seq<Single>)
    decreases x.len(),
{
    if x.len() == 0 {
        (s, seq![])
    } else {
        let (t, out) = bank_run(f, scale, resonance, norm, sr, s, x.drop_last());
        let (u, y) = bank_tick(f, scale, resonance, norm, sr, t, x.last());
        (u, out.push(y))
    }
}

fn bank_sample<F: Fn(Prim, Single, Single) -> Single>(fpu: &F, scale: Single, resonance: Single, norm: Single, sr: Single, s: &mut BankNode, v: Single) -> (y: Single)
    requires
        total(*fpu),
        old(s).wf(),
    ensures
        final(s).wf(),
        forall|f: Sums| #[trigger] meant(*fpu, f) ==> (final(s)@, y) == bank_tick(f, scale, resonance, norm, sr, old(s)@, v),
{
    let count = s.filters.len();
    let mut pick: Option<usize> = None;
    if s.random {
        pick = Some(count);
        if !v.is_zero() {
            let p = s.rng.next_u32() as usize % count;
            pick = Some(p);
            if Single::of(ZERO).lt(s.spread) {
                let drawn = s.rng.next_bipolar();
                let octaves = fpu(Prim::Mul, drawn, s.spread);
                let hz = fpu(Prim::Mul, fpu(Prim::Mul, s.freqs[p], scale), fpu(Prim::Exp2, octaves, Single::of(ZERO)));
                let mut filter = s.filters[p];
                ring(fpu, &mut filter, hz, resonance, sr);
                s.filters.set(p, filter);
            }
        }
    }
    let y = feed_bank(fpu, &mut s.filters, v, pick);
    if s.random {
        y
    } else {
        fpu(Prim::Mul, y, norm)
    }
}

fn bank_block<F: Fn(Prim, Single, Single) -> Single>(fpu: &F, scale: Single, resonance: Single, norm: Single, sr: Single, s: &mut BankNode, x: &Vec<Single>, out: &mut Vec<Single>)
    requires
        total(*fpu),
        old(s).wf(),
    ensures
        final(out)@.len() == x@.len(),
        final(s).wf(),
        forall|f: Sums| #[trigger] meant(*fpu, f) ==> (final(s)@, final(out)@) == bank_run(f, scale, resonance, norm, sr, old(s)@, x@),
{
    out.clear();
    let mut i: usize = 0;
    assert(x@.take(0) =~= seq![]);
    while i < x.len()
        invariant
            i <= x@.len(),
            out@.len() == i,
            total(*fpu),
            s.wf(),
            forall|f: Sums| #[trigger] meant(*fpu, f) ==> (s@, out@) == bank_run(f, scale, resonance, norm, sr, old(s)@, x@.take(i as int)),
        decreases x@.len() - i,
    {
        let y = bank_sample(fpu, scale, resonance, norm, sr, s, x[i]);
        out.push(y);
        i = i + 1;
        assert(x@.take(i as int).drop_last() =~= x@.take(i - 1));
    }
    assert(x@.take(i as int) =~= x@);
}

/// One echo of a room: a delay line whose feedback is damped.
#[derive(Debug)]
pub struct RoomNode {
    pub line: DelayLine,
    pub damp: OnePole,
}

/// What a [`RoomNode`] holds.
pub struct RoomView {
    pub history: Seq<Single>,
    pub damp: OnePole,
}

impl View for RoomNode {
    type V = RoomView;

    open spec fn view(&self) -> RoomView {
        RoomView { history: self.line.history(), damp: self.damp }
    }
}

impl RoomNode {
    pub open spec fn wf(self) -> bool {
        self.line.wf()
    }
}

/// An echo as long as its line, fed with `v`: what comes back is damped, multiplied and fed in again.
pub open spec fn room_tick(f: Sums, keep: Single, coef: Single, s: RoomView, v: Single) -> (RoomView, Single) {
    let wet = s.damp.smoothed(f, crate::blocks::delayed(f, s.history, crate::blocks::longest_delay(s.history)), coef);
    (
        RoomView { history: crate::blocks::remembered(s.history, f(Prim::Add, v, f(Prim::Mul, wet, keep))), damp: OnePole { y: wet } },
        wet,
    )
}

fn room_sample<F: Fn(Prim, Single, Single) -> Single>(fpu: &F, keep: Single, coef: Single, s: &mut RoomNode, v: Single) -> (wet: Single)
    requires
        total(*fpu),
        old(s).wf(),
    ensures
        final(s).wf(),
        final(s).line.buf@.len() == old(s).line.buf@.len(),
        forall|f: Sums| #[trigger] meant(*fpu, f) ==> (final(s)@, wet) == room_tick(f, keep, coef, old(s)@, v),
{
    let heard = s.line.read(fpu, s.line.max_delay());
    let wet = s.damp.lp(fpu, heard, coef);
    s.line.write(fpu(Prim::Add, v, fpu(Prim::Mul, wet, keep)));
    wet
}

/// A small room: four echoes of a send without its lows.
#[derive(Debug)]
pub struct ReverbNode {
    pub send: OnePole,
    pub a: RoomNode,
    pub b: RoomNode,
    pub c: RoomNode,
    pub d: RoomNode,
}

/// What a [`ReverbNode`] holds.
pub struct ReverbView {
    pub send: OnePole,
    pub a: RoomView,
    pub b: RoomView,
    pub c: RoomView,
    pub d: RoomView,
}

impl View for ReverbNode {
    type V = ReverbView;

    open spec fn view(&self) -> ReverbView {
        ReverbView { send: self.send, a: self.a@, b: self.b@, c: self.c@, d: self.d@ }
    }
}

impl ReverbNode {
    pub open spec fn wf(self) -> bool {
        self.a.wf() && self.b.wf() && self.c.wf() && self.d.wf()
    }
}

/// One sample in a room.
pub open spec fn reverb_tick(f: Sums, low: Single, keep: Single, coef: Single, mix: Single, s: ReverbView, v: Single) -> (ReverbView, Single) {
    let lows = s.send.smoothed(f, v, low);
    let x = f(Prim::Mul, f(Prim::Sub, v, lows), Single::of(P0_25));
    let (a, p) = room_tick(f, keep, coef, s.a, x);
    let (b, q) = room_tick(f, keep, coef, s.b, x);
    let (c, r) = room_tick(f, keep, coef, s.c, x);
    let (d, t) = room_tick(f, keep, coef, s.d, x);
    (ReverbView { send: OnePole { y: lows }, a, b, c, d }, f(Prim::Add, f(Prim::Mul, v, f(Prim::Sub, Single::of(ONE), mix)), f(Prim::Mul, f(Prim::Add, f(Prim::Add, f(Prim::Add, p, q), r), t), mix)))
}

/// The same for a block of samples.
pub open spec fn reverb_run(f: Sums, low: Single, keep: Single, coef: Single, mix: Single, s: ReverbView, x: Seq<Single>) -> (ReverbView, Seq<Single>)
    decreases x.len(),
{
    if x.len() == 0 {
        (s, seq![])
    } else {
        let (t, out) = reverb_run(f, low, keep, coef, mix, s, x.drop_last());
        let (u, y) = reverb_tick(f, low, keep, coef, mix, t, x.last());
        (u, out.push(y))
    }
}

pub fn reverb_sample<F: Fn(Prim, Single, Single) -> Single>(fpu: &F, low: Single, keep: Single, coef: Single, mix: Single, s: &mut ReverbNode, v: Single) -> (y: Single)
    requires
        total(*fpu),
        old(s).wf(),
    ensures
        final(s).wf(),
        forall|f: Sums| #[trigger] meant(*fpu, f) ==> (final(s)@, y) == reverb_tick(f, low, keep, coef, mix, old(s)@, v),
{
    let high = s.send.hp(fpu, v, low);
    let x = fpu(Prim::Mul, high, Single::of(P0_25));
    let p = room_sample(fpu, keep, coef, &mut s.a, x);
    let q = room_sample(fpu, keep, coef, &mut s.b, x);
    let r = room_sample(fpu, keep, coef, &mut s.c, x);
    let t = room_sample(fpu, keep, coef, &mut s.d, x);
    fpu(Prim::Add, fpu(Prim::Mul, v, fpu(Prim::Sub, Single::of(ONE), mix)), fpu(Prim::Mul, fpu(Prim::Add, fpu(Prim::Add, fpu(Prim::Add, p, q), r), t), mix))
}

fn reverb_block<F: Fn(Prim, Single, Single) -> Single>(fpu: &F, low: Single, keep: Single, coef: Single, mix: Single, s: &mut ReverbNode, x: &Vec<Single>, out: &mut Vec<Single>)
    requires
        total(*fpu),
        old(s).wf(),
    ensures
        final(out)@.len() == x@.len(),
        final(s).wf(),
        forall|f: Sums| #[trigger] meant(*fpu, f) ==> (final(s)@, final(out)@) == reverb_run(f, low, keep, coef, mix, old(s)@, x@),
{
    out.clear();
    let mut i: usize = 0;
    assert(x@.take(0) =~= seq![]);
    while i < x.len()
        invariant
            i <= x@.len(),
            out@.len() == i,
            total(*fpu),
            s.wf(),
            forall|f: Sums| #[trigger] meant(*fpu, f) ==> (s@, out@) == reverb_run(f, low, keep, coef, mix, old(s)@, x@.take(i as int)),
        decreases x@.len() - i,
    {
        let y = reverb_sample(fpu, low, keep, coef, mix, s, x[i]);
        out.push(y);
        i = i + 1;
        assert(x@.take(i as int).drop_last() =~= x@.take(i - 1));
    }
    assert(x@.take(i as int) =~= x@);
}

/// A node's memory.
#[derive(Debug)]
pub enum Kind {
    Noise(NoiseNode),
    Osc(OscNode),
    Dust(Dust),
    Dc(Single),
    Svf { mode: FilterMode, f: Svf },
    OnePole { high: bool, f: OnePole },
    Comb { node: CombNode, echo: bool },
    Resonators(BankNode),
    Decay(Single),
    Drive,
    Crush(CrushNode),
    Gain(Single),
    Mix,
    Mul,
    Reverb(ReverbNode),
    Limiter,
}

/// What a [`Kind`] holds.
pub enum KindView {
    Noise(NoiseNode),
    Osc(OscNode),
    Dust(Dust),
    Dc(Single),
    Svf { mode: FilterMode, f: Svf },
    OnePole { high: bool, f: OnePole },
    Comb { node: CombView, echo: bool },
    Resonators(BankView),
    Decay(Single),
    Drive,
    Crush(CrushNode),
    Gain(Single),
    Mix,
    Mul,
    Reverb(ReverbView),
    Limiter,
}

impl View for Kind {
    type V = KindView;

    open spec fn view(&self) -> KindView {
        match *self {
            Kind::Noise(s) => KindView::Noise(s),
            Kind::Osc(s) => KindView::Osc(s),
            Kind::Dust(s) => KindView::Dust(s),
            Kind::Dc(s) => KindView::Dc(s),
            Kind::Svf { mode, f } => KindView::Svf { mode, f },
            Kind::OnePole { high, f } => KindView::OnePole { high, f },
            Kind::Comb { node, echo } => KindView::Comb { node: node@, echo },
            Kind::Resonators(s) => KindView::Resonators(s@),
            Kind::Decay(s) => KindView::Decay(s),
            Kind::Drive => KindView::Drive,
            Kind::Crush(s) => KindView::Crush(s),
            Kind::Gain(s) => KindView::Gain(s),
            Kind::Mix => KindView::Mix,
            Kind::Mul => KindView::Mul,
            Kind::Reverb(s) => KindView::Reverb(s@),
            Kind::Limiter => KindView::Limiter,
        }
    }
}

/// Samples of a delay of `ms` milliseconds, at most what a line can hold.
pub open spec fn line_samples(f: Sums, ms: Single, sr: Single) -> int {
    let n = f(Prim::Mul, f(Prim::Mul, ms, Single::of(P0_001)), sr).whole();
    if n > LONGEST_LINE {
        LONGEST_LINE as int
    } else {
        n
    }
}

/// An empty line of that many samples: at least four, and four more.
pub open spec fn empty_line(samples: int) -> Seq<Single> {
    crate::blocks::silence((if samples < 4 { 8 } else { samples + 4 }) as nat)
}

fn new_line<F: Fn(Prim, Single, Single) -> Single>(fpu: &F, ms: Single, sr: Single) -> (r: DelayLine)
    requires
        total(*fpu),
    ensures
        r.wf(),
        forall|f: Sums| #[trigger] meant(*fpu, f) ==> r.history() == empty_line(line_samples(f, ms, sr)),
{
    let n = fpu(Prim::Mul, fpu(Prim::Mul, ms, Single::of(P0_001)), sr).trunc();
    let samples: usize = if n > LONGEST_LINE as u64 { LONGEST_LINE } else { n as usize };
    DelayLine::new(samples)
}

/// An empty room of a length in milliseconds.
pub open spec fn empty_room(f: Sums, ms: Single, sr: Single) -> RoomView {
    RoomView { history: empty_line(line_samples(f, ms, sr)), damp: OnePole { y: Single::of(ZERO) } }
}

pub fn new_room<F: Fn(Prim, Single, Single) -> Single>(fpu: &F, ms: Single, sr: Single) -> (r: RoomNode)
    requires
        total(*fpu),
    ensures
        r.wf(),
        forall|f: Sums| #[trigger] meant(*fpu, f) ==> r@ == empty_room(f, ms, sr),
{
    RoomNode { line: new_line(fpu, ms, sr), damp: OnePole::default() }
}

/// Seed of the node at a position.
pub open spec fn node_seed(position: int) -> u32 {
    ((0x6a00_0000 + (position * 2_654_435_761) % 0x1_0000_0000) % 0x1_0000_0000) as u32
}

/// A node of a plan that has heard nothing yet.
pub open spec fn fresh_kind(f: Sums, plan: Plan, sr: Single, seed: u32) -> KindView {
    match plan {
        Plan::Noise(color) => KindView::Noise(
            NoiseNode { color, noise: Noise::seeded_with(seed), brown: Brown { y: Single::of(ZERO) } },
        ),
        Plan::Osc(wave) => KindView::Osc(
            OscNode { wave, osc: Oscillator::seeded_with(seed), phase: Single::of(ZERO), dt: Single::of(N1) },
        ),
        Plan::Dust => KindView::Dust(Dust { rng: Rng::seeded_with(seed) }),
        Plan::Dc => KindView::Dc(Single::of(UNSET)),
        Plan::Svf(mode) => KindView::Svf { mode, f: Svf::silent() },
        Plan::OnePole { high } => KindView::OnePole { high, f: OnePole { y: Single::of(ZERO) } },
        Plan::Comb { max_ms, echo } => KindView::Comb {
            node: CombView { history: empty_line(line_samples(f, max_ms, sr)), delay: Single::of(UNSET) },
            echo,
        },
        Plan::Resonators { freqs, random, spread } => KindView::Resonators(
            BankView {
                filters: Seq::new(freqs.len(), |k: int| Svf::silent()),
                freqs,
                random,
                spread,
                rng: Rng::seeded_with(seed),
            },
        ),
        Plan::Decay => KindView::Decay(Single::of(ZERO)),
        Plan::Drive => KindView::Drive,
        Plan::Crush => KindView::Crush(CrushNode { hold: Single::of(ZERO), count: Single::of(ZERO) }),
        Plan::Gain => KindView::Gain(Single::of(UNSET)),
        Plan::Mix => KindView::Mix,
        Plan::Mul => KindView::Mul,
        Plan::Reverb => KindView::Reverb(
            ReverbView {
                send: OnePole { y: Single::of(ZERO) },
                a: empty_room(f, Single::of(P29_7), sr),
                b: empty_room(f, Single::of(P37_1), sr),
                c: empty_room(f, Single::of(P41_1), sr),
                d: empty_room(f, Single::of(P43_7), sr),
            },
        ),
        Plan::Limiter => KindView::Limiter,
    }
}

/// The step that takes a value to its target in the samples of a block.
pub open spec fn block_step(f: Sums, target: Single, last: Single, n: nat) -> Single {
    f(Prim::Div, f(Prim::Sub, target, last), crate::single::integer(n))
}

/// A value that was never set starts at its target.
pub open spec fn settled(last: Single, target: Single) -> Single {
    if last.finite() {
        last
    } else {
        target
    }
}

/// Output samples of a product.
pub open spec fn products(f: Sums, x: Seq<Single>, by: Seq<Single>) -> Seq<Single> {
    Seq::new(x.len(), |i: int| f(Prim::Mul, x[i], by[i]))
}

/// Memory and output of a node after a block: `pv` are its arguments, `x` and `by` its inputs.
pub open spec fn processed(f: Sums, kind: KindView, pv: Seq<Single>, x: Seq<Single>, by: Seq<Single>, sr: Single) -> (
    KindView,
    Seq<Single>,
) {
    let n = x.len();
    match kind {
        KindView::Noise(s) => {
            let (t, out) = noise_run(f, s, x);
            (KindView::Noise(t), out)
        },
        KindView::Osc(s) => {
            let target = f(Prim::Div, pv[0], sr).within(Single::of(ZERO), Single::of(P0_45));
            let dt = if s.dt.below(Single::of(ZERO)) {
                target
            } else {
                s.dt
            };
            let (t, out) = osc_run(f, block_step(f, target, dt, n), pv[1], OscNode { dt, ..s }, x);
            (KindView::Osc(OscNode { dt: target, ..t }), out)
        },
        KindView::Dust(s) => {
            let (t, out) = dust_run(f, f(Prim::Div, pv[0].larger(Single::of(ZERO)), sr), s, x);
            (KindView::Dust(t), out)
        },
        KindView::Dc(last) => {
            let from = settled(last, pv[0]);
            let (_, out) = dc_run(f, block_step(f, pv[0], from, n), from, x);
            (KindView::Dc(pv[0]), out)
        },
        KindView::Svf { mode, f: s } => {
            let (t, out) = svf_run(f, s.tuned(f, mode, pv[0], pv[1], sr), x);
            (KindView::Svf { mode, f: t }, out)
        },
        KindView::OnePole { high, f: s } => {
            let (t, out) = pole_run(f, high, crate::blocks::cutoff_coef(f, pv[0].within(Single::of(ONE), f(Prim::Mul, sr, Single::of(P0_49))), sr), s, x);
            (KindView::OnePole { high, f: t }, out)
        },
        KindView::Comb { node: s, echo } => {
            let target = f(Prim::Mul, f(Prim::Mul, pv[0], Single::of(P0_001)), sr).within(Single::of(ONE), crate::blocks::longest_delay(s.history));
            let from = settled(s.delay, target);
            let (t, out) = comb_run(
                f,
                block_step(f, target, from, n),
                pv[1].within(Single::of(ZERO), Single::of(P0_97)),
                pv[2].within(Single::of(ZERO), Single::of(ONE)),
                echo,
                CombView { delay: from, ..s },
                x,
            );
            (KindView::Comb { node: CombView { delay: target, ..t }, echo }, out)
        },
        KindView::Resonators(s) => {
            let tuned = if !s.random || s.spread.at_most(Single::of(ZERO)) {
                BankView { filters: tuned_bank(f, s, pv[1], pv[0], sr), ..s }
            } else {
                s
            };
            let count = crate::single::integer(s.filters.len());
            let (t, out) = bank_run(f, pv[1], pv[0], f(Prim::Div, Single::of(ONE), f(Prim::Sqrt, count, Single::of(ZERO))), sr, tuned, x);
            (KindView::Resonators(t), out)
        },
        KindView::Decay(s) => {
            let e = f(Prim::Div, Single::of(N1), f(Prim::Mul, f(Prim::Mul, pv[0].larger(Single::of(P0_05)), Single::of(P0_001)), sr));
            let (t, out) = decay_run(f, f(Prim::Exp, e, Single::of(ZERO)), s, x);
            (KindView::Decay(t), out)
        },
        KindView::Drive => {
            let a = pv[0].within(Single::of(ZERO), Single::of(ONE));
            let (_, out) = drive_run(f, f(Prim::Add, Single::of(ONE), f(Prim::Mul, a, Single::of(P15))), f(Prim::Sub, Single::of(ONE), f(Prim::Mul, Single::of(HALF), a)), (), x);
            (KindView::Drive, out)
        },
        KindView::Crush(s) => {
            let bits = f(Prim::Sub, pv[0].within(Single::of(ONE), Single::of(P16)), Single::of(ONE));
            let (t, out) = crush_run(f, f(Prim::Exp2, bits, Single::of(ZERO)), pv[1].larger(Single::of(ONE)), s, x);
            (KindView::Crush(t), out)
        },
        KindView::Gain(last) => {
            let from = settled(last, pv[0]);
            let (_, out) = gain_run(f, block_step(f, pv[0], from, n), from, x);
            (KindView::Gain(pv[0]), out)
        },
        KindView::Mix => (kind, x),
        KindView::Mul => (kind, products(f, x, by)),
        KindView::Reverb(s) => {
            let secs = pv[0].within(Single::of(P0_1), Single::of(P10));
            let e = f(Prim::Div, Single::of(N0_26), secs);
            let (t, out) = reverb_run(
                f,
                crate::blocks::cutoff_coef(f, Single::of(P180), sr),
                f(Prim::Exp, e, Single::of(ZERO)),
                f(Prim::Sub, Single::of(ONE), f(Prim::Mul, Single::of(P0_9), pv[2].within(Single::of(ZERO), Single::of(ONE)))),
                pv[1].within(Single::of(ZERO), Single::of(ONE)),
                s,
                x,
            );
            (KindView::Reverb(t), out)
        },
        KindView::Limiter => {
            let (_, out) = limiter_run(f, (), x);
            (KindView::Limiter, out)
        },
    }
}

/// A node that forgets what it has heard but not how its values are ramped.
pub open spec fn recovered(kind: KindView) -> KindView {
    match kind {
        KindView::Svf { mode, f } => KindView::Svf { mode, f: f.cleared() },
        KindView::OnePole { high, f: _ } => KindView::OnePole { high, f: OnePole { y: Single::of(ZERO) } },
        KindView::Comb { node, echo } => KindView::Comb {
            node: CombView { history: crate::blocks::silence(node.history.len()), ..node },
            echo,
        },
        KindView::Resonators(s) => KindView::Resonators(
            BankView { filters: Seq::new(s.filters.len(), |k: int| s.filters[k].cleared()), ..s },
        ),
        KindView::Decay(_) => KindView::Decay(Single::of(ZERO)),
        KindView::Noise(s) => KindView::Noise(NoiseNode { brown: Brown { y: Single::of(ZERO) }, ..s }),
        KindView::Reverb(s) => KindView::Reverb(
            ReverbView {
                send: OnePole { y: Single::of(ZERO) },
                a: cleared_room(s.a),
                b: cleared_room(s.b),
                c: cleared_room(s.c),
                d: cleared_room(s.d),
            },
        ),
        other => other,
    }
}

pub open spec fn cleared_room(s: RoomView) -> RoomView {
    RoomView { history: crate::blocks::silence(s.history.len()), damp: OnePole { y: Single::of(ZERO) } }
}

fn clear_room(s: &mut RoomNode)
    requires
        old(s).wf(),
    ensures
        final(s).wf(),
        final(s)@ == cleared_room(old(s)@),
{
    s.line.clear();
    s.damp = OnePole::default();
}

/// A node whose next block jumps to its arguments.
pub open spec fn snapped_kind(kind: KindView) -> KindView {
    match kind {
        KindView::Osc(s) => KindView::Osc(OscNode { dt: Single::of(N1), ..s }),
        KindView::Gain(_) => KindView::Gain(Single::of(UNSET)),
        KindView::Dc(_) => KindView::Dc(Single::of(UNSET)),
        KindView::Comb { node, echo } => KindView::Comb { node: CombView { delay: Single::of(UNSET), ..node }, echo },
        other => other,
    }
}

impl Kind {
    pub open spec fn wf(self) -> bool {
        match self {
            Kind::Comb { node, .. } => node.wf(),
            Kind::Resonators(s) => s.wf(),
            Kind::Reverb(s) => s.wf(),
            _ => true,
        }
    }

    /// A node of a design that has heard nothing yet.
    pub fn new<F: Fn(Prim, Single, Single) -> Single>(fpu: &F, design: Design, sr: Single, seed: u32) -> (r: Kind)
        requires
            total(*fpu),
            design.wf(),
        ensures
            r.wf(),
            forall|f: Sums| #[trigger] meant(*fpu, f) ==> r@ == fresh_kind(f, design@, sr, seed),
    {
        match design {
            Design::Noise(color) => Kind::Noise(
                NoiseNode { color, noise: Noise::new(seed), brown: Brown::default() },
            ),
            Design::Osc(wave) => Kind::Osc(
                OscNode { wave, osc: Oscillator::new(seed), phase: Single::of(ZERO), dt: Single::of(N1) },
            ),
            Design::Dust => Kind::Dust(Dust::new(seed)),
            Design::Dc => Kind::Dc(Single::of(UNSET)),
            Design::Svf(mode) => Kind::Svf { mode, f: Svf::default() },
            Design::OnePole { high } => Kind::OnePole { high, f: OnePole::default() },
            Design::Comb { max_ms, echo } => Kind::Comb {
                node: CombNode { line: new_line(fpu, max_ms, sr), delay: Single::of(UNSET) },
                echo,
            },
            Design::Resonators { freqs, random, spread } => {
                let filters: Vec<Svf> = vec![Svf::default(); freqs.len()];
                let node = BankNode { filters, freqs, random, spread, rng: Rng::new(seed) };
                assert(node.filters@ =~= Seq::new(node.freqs@.len(), |k: int| Svf::silent()));
                Kind::Resonators(node)
            },
            Design::Decay => Kind::Decay(Single::of(ZERO)),
            Design::Drive => Kind::Drive,
            Design::Crush => Kind::Crush(CrushNode { hold: Single::of(ZERO), count: Single::of(ZERO) }),
            Design::Gain => Kind::Gain(Single::of(UNSET)),
            Design::Mix => Kind::Mix,
            Design::Mul => Kind::Mul,
            Design::Reverb => {
                let a = new_room(fpu, Single::of(P29_7), sr);
                let b = new_room(fpu, Single::of(P37_1), sr);
                let c = new_room(fpu, Single::of(P41_1), sr);
                let d = new_room(fpu, Single::of(P43_7), sr);
                Kind::Reverb(ReverbNode { send: OnePole::default(), a, b, c, d })
            },
            Design::Limiter => Kind::Limiter,
        }
    }

    /// Forget what was heard, after a filter has blown up.
    pub fn reset(&mut self)
        requires
            old(self).wf(),
        ensures
            final(self).wf(),
            final(self)@ == recovered(old(self)@),
    {
        match self {
            Kind::Svf { mode: _, f } => f.reset(),
            Kind::OnePole { high: _, f } => {
                *f = OnePole::default();
            },
            Kind::Comb { node, echo: _ } => node.line.clear(),
            Kind::Resonators(s) => clear_bank(&mut s.filters),
            Kind::Decay(env) => {
                *env = Single::of(ZERO);
            },
            Kind::Noise(s) => {
                s.brown = Brown::default();
            },
            Kind::Reverb(s) => {
                s.send = OnePole::default();
                clear_room(&mut s.a);
                clear_room(&mut s.b);
                clear_room(&mut s.c);
                clear_room(&mut s.d);
            },
            _ => {},
        }
    }

    /// Jump to the arguments at the next block.
    pub fn snap(&mut self)
        requires
            old(self).wf(),
        ensures
            final(self).wf(),
            final(self)@ == snapped_kind(old(self)@),
    {
        match self {
            Kind::Osc(s) => {
                s.dt = Single::of(N1);
            },
            Kind::Gain(last) => {
                *last = Single::of(UNSET);
            },
            Kind::Dc(last) => {
                *last = Single::of(UNSET);
            },
            Kind::Comb { node, echo: _ } => {
                node.delay = Single::of(UNSET);
            },
            _ => {},
        }
    }
}

fn clear_bank(filters: &mut Vec<Svf>)
    ensures
        final(filters)@ == Seq::new(old(filters)@.len(), |k: int| old(filters)@[k].cleared()),
{
    let mut k: usize = 0;
    while k < filters.len()
        invariant
            k <= filters@.len() == old(filters)@.len(),
            forall|j: int| 0 <= j < k ==> #[trigger] filters@[j] == old(filters)@[j].cleared(),
            forall|j: int| k <= j < filters@.len() ==> #[trigger] filters@[j] == old(filters)@[j],
        decreases filters@.len() - k,
    {
        let mut filter = filters[k];
        filter.reset();
        filters.set(k, filter);
        k = k + 1;
    }
    assert(filters@ =~= Seq::new(old(filters)@.len(), |k: int| old(filters)@[k].cleared()));
}

fn step_of<F: Fn(Prim, Single, Single) -> Single>(fpu: &F, target: Single, last: Single, n: usize) -> (r: Single)
    requires
        total(*fpu),
        n <= 0x0100_0000,
    ensures
        forall|f: Sums| #[trigger] meant(*fpu, f) ==> r == block_step(f, target, last, n as nat),
{
    fpu(Prim::Div, fpu(Prim::Sub, target, last), exact(n as u32, 0))
}

fn start_of(last: Single, target: Single) -> (r: Single)
    ensures
        r == settled(last, target),
{
    if last.is_finite() {
        last
    } else {
        target
    }
}

fn copy_block(x: &Vec<Single>, out: &mut Vec<Single>)
    ensures
        final(out)@ == x@,
{
    out.clear();
    let mut i: usize = 0;
    while i < x.len()
        invariant
            i <= x@.len(),
            out@ == x@.take(i as int),
        decreases x@.len() - i,
    {
        out.push(x[i]);
        i = i + 1;
        assert(x@.take(i as int) =~= x@.take(i - 1).push(x@[i - 1]));
    }
    assert(x@.take(i as int) =~= x@);
}

fn product_block<F: Fn(Prim, Single, Single) -> Single>(fpu: &F, x: &Vec<Single>, by: &Vec<Single>, out: &mut Vec<Single>)
    requires
        total(*fpu),
        x@.len() == by@.len(),
    ensures
        final(out)@.len() == x@.len(),
        forall|f: Sums| #[trigger] meant(*fpu, f) ==> final(out)@ == products(f, x@, by@),
{
    out.clear();
    let mut i: usize = 0;
    while i < x.len()
        invariant
            i <= x@.len() == by@.len(),
            out@.len() == i,
            total(*fpu),
            forall|f: Sums| #[trigger] meant(*fpu, f) ==> forall|j: int| 0 <= j < i ==> #[trigger] out@[j] == f(Prim::Mul, x@[j], by@[j]),
        decreases x@.len() - i,
    {
        out.push(fpu(Prim::Mul, x[i], by[i]));
        i = i + 1;
    }
    proof {
        assert forall|f: Sums| #[trigger] meant(*fpu, f) implies out@ == products(f, x@, by@) by {
            assert(out@ =~= products(f, x@, by@));
        }
    }
}

/// Run a node for one block.
pub fn process<F: Fn(Prim, Single, Single) -> Single>(
    fpu: &F,
    kind: &mut Kind,
    pv: &Vec<Single>,
    x: &Vec<Single>,
    by: &Vec<Single>,
    out: &mut Vec<Single>,
    sr: Single,
)
    requires
        total(*fpu),
        old(kind).wf(),
        x@.len() == by@.len(),
        x@.len() <= 0x0100_0000,
        pv@.len() == 4,
    ensures
        final(kind).wf(),
        final(out)@.len() == x@.len(),
        forall|f: Sums| #[trigger] meant(*fpu, f) ==> (final(kind)@, final(out)@) == processed(f, old(kind)@, pv@, x@, by@, sr),
{
    let n = x.len();
    match kind {
        Kind::Noise(s) => noise_block(fpu, s, x, out),
        Kind::Osc(s) => {
            let target = fpu(Prim::Div, pv[0], sr).clamp(Single::of(ZERO), Single::of(P0_45));
            if s.dt.lt(Single::of(ZERO)) {
                s.dt = target;
            }
            let step = step_of(fpu, target, s.dt, n);
            osc_block(fpu, step, pv[1], s, x, out);
            s.dt = target;
        },
        Kind::Dust(s) => {
            let p = fpu(Prim::Div, pv[0].max(Single::of(ZERO)), sr);
            dust_block(fpu, p, s, x, out)
        },
        Kind::Dc(last) => {
            let mut level = start_of(*last, pv[0]);
            let step = step_of(fpu, pv[0], level, n);
            dc_block(fpu, step, &mut level, x, out);
            *last = pv[0];
        },
        Kind::Svf { mode, f } => {
            f.set(fpu, *mode, pv[0], pv[1], sr);
            svf_block(fpu, f, x, out)
        },
        Kind::OnePole { high, f } => {
            let c = hz_coef(fpu, pv[0].clamp(Single::of(ONE), fpu(Prim::Mul, sr, Single::of(P0_49))), sr);
            pole_block(fpu, *high, c, f, x, out)
        },
        Kind::Comb { node, echo } => {
            let target = fpu(Prim::Mul, fpu(Prim::Mul, pv[0], Single::of(P0_001)), sr).clamp(Single::of(ONE), node.line.max_delay());
            node.delay = start_of(node.delay, target);
            let step = step_of(fpu, target, node.delay, n);
            let (fb, mix) = (pv[1].clamp(Single::of(ZERO), Single::of(P0_97)), pv[2].clamp(Single::of(ZERO), Single::of(ONE)));
            comb_block(fpu, step, fb, mix, *echo, node, x, out);
            node.delay = target;
        },
        Kind::Resonators(s) => {
            // With a spread, resonators are tuned when struck instead of every block.
            if !s.random || s.spread.le(Single::of(ZERO)) {
                tune_bank(fpu, s, pv[1], pv[0], sr);
            }
            let count = exact(s.filters.len() as u32, 0);
            let norm = fpu(Prim::Div, Single::of(ONE), fpu(Prim::Sqrt, count, Single::of(ZERO)));
            bank_block(fpu, pv[1], pv[0], norm, sr, s, x, out)
        },
        Kind::Decay(s) => {
            let e = fpu(Prim::Div, Single::of(N1), fpu(Prim::Mul, fpu(Prim::Mul, pv[0].max(Single::of(P0_05)), Single::of(P0_001)), sr));
            let c = fpu(Prim::Exp, e, Single::of(ZERO));
            decay_block(fpu, c, s, x, out)
        },
        Kind::Drive => {
            let a = pv[0].clamp(Single::of(ZERO), Single::of(ONE));
            let (pre, post) = (fpu(Prim::Add, Single::of(ONE), fpu(Prim::Mul, a, Single::of(P15))), fpu(Prim::Sub, Single::of(ONE), fpu(Prim::Mul, Single::of(HALF), a)));
            drive_block(fpu, pre, post, &mut (), x, out)
        },
        Kind::Crush(s) => {
            let bits = fpu(Prim::Sub, pv[0].clamp(Single::of(ONE), Single::of(P16)), Single::of(ONE));
            let levels = fpu(Prim::Exp2, bits, Single::of(ZERO));
            crush_block(fpu, levels, pv[1].max(Single::of(ONE)), s, x, out)
        },
        Kind::Gain(last) => {
            let mut level = start_of(*last, pv[0]);
            let step = step_of(fpu, pv[0], level, n);
            gain_block(fpu, step, &mut level, x, out);
            *last = pv[0];
        },
        Kind::Mix => copy_block(x, out),
        Kind::Mul => product_block(fpu, x, by, out),
        Kind::Reverb(s) => {
            let secs = pv[0].clamp(Single::of(P0_1), Single::of(P10));
            let e = fpu(Prim::Div, Single::of(N0_26), secs);
            let low = hz_coef(fpu, Single::of(P180), sr);
            let keep = fpu(Prim::Exp, e, Single::of(ZERO));
            let coef = fpu(Prim::Sub, Single::of(ONE), fpu(Prim::Mul, Single::of(P0_9), pv[2].clamp(Single::of(ZERO), Single::of(ONE))));
            reverb_block(fpu, low, keep, coef, pv[1].clamp(Single::of(ZERO), Single::of(ONE)), s, x, out)
        },
        Kind::Limiter => limiter_block(fpu, &mut (), x, out),
    }
}

} // verus!
