//! Master effects applied after voice summing: drive, bit crusher, delay.
use vstd::prelude::*;

use crate::arith::{meant, total, Prim, Sums};
use crate::blocks::LONGEST_LINE;
use crate::math::soft_clip;
use crate::patch::FxParams;
use crate::single::{Single, HALF, ONE, ZERO};

verus! {

/// Pattern of 0.98.
pub const P0_98: u32 = 0x3f7a_e148;

/// Pattern of 15.
pub const P15: u32 = 0x4170_0000;

/// Pattern of 16.
pub const P16: u32 = 0x4180_0000;

/// Pattern of the longest supported delay time in seconds (sizes the delay line at construction).
pub const MAX_DELAY_SECS: u32 = 0x3f80_0000;

/// Nothing but samples `start..end` differs.
pub open spec fn same_outside(a: Seq<Single>, b: Seq<Single>, start: int, end: int) -> bool {
    &&& a.len() == b.len()
    &&& forall|j: int| 0 <= j < a.len() && !(start <= j < end) ==> a[j] == #[trigger] b[j]
}

/// A sample driven into saturation.
pub open spec fn driven(f: Sums, drive: Single, v: Single) -> Single {
    f(Prim::Mul, crate::math::saturated(f, f(Prim::Mul, v, f(Prim::Add, Single::of(ONE), f(Prim::Mul, drive, Single::of(P15))))), f(Prim::Sub, Single::of(ONE), f(Prim::Mul, Single::of(HALF), drive)))
}

fn drive_span<F: Fn(Prim, Single, Single) -> Single>(fpu: &F, drive: Single, buf: &mut Vec<Single>, start: usize, end: usize)
    requires
        total(*fpu),
        start <= end <= old(buf)@.len(),
    ensures
        same_outside(old(buf)@, final(buf)@, start as int, end as int),
        forall|f: Sums| #[trigger] meant(*fpu, f) ==> forall|j: int|
            start <= j < end ==> #[trigger] final(buf)@[j] == driven(f, drive, old(buf)@[j]),
{
    let pre = fpu(Prim::Add, Single::of(ONE), fpu(Prim::Mul, drive, Single::of(P15)));
    let post = fpu(Prim::Sub, Single::of(ONE), fpu(Prim::Mul, Single::of(HALF), drive));
    let mut i: usize = start;
    while i < end
        invariant
            start <= i <= end <= buf@.len(),
            same_outside(old(buf)@, buf@, start as int, i as int),
            total(*fpu),
            forall|f: Sums| #[trigger] meant(*fpu, f) ==> pre == f(Prim::Add, Single::of(ONE), f(Prim::Mul, drive, Single::of(P15))) && post == f(Prim::Sub, Single::of(ONE), f(Prim::Mul, Single::of(HALF), drive)),
            forall|f: Sums| #[trigger] meant(*fpu, f) ==> forall|j: int|
                start <= j < i ==> #[trigger] buf@[j] == driven(f, drive, old(buf)@[j]),
        decreases end - i,
    {
        let v = buf[i];
        assert(v == old(buf)@[i as int]);
        let y = fpu(Prim::Mul, soft_clip(fpu, fpu(Prim::Mul, v, pre)), post);
        buf.set(i, y);
        i = i + 1;
    }
}

/// Sample held by the crusher, and how long it has been held.
#[derive(Clone, Copy, Debug, PartialEq, Eq, Structural)]
pub struct Hold {
    pub hold: Single,
    pub hold_count: Single,
}

/// The crusher lowers the bit depth.
pub open spec fn crushes_bits(p: FxParams) -> bool {
    Single::of(ONE).at_most(p.bit_depth)
}

/// The crusher lowers the sample rate.
pub open spec fn crushes_rate(p: FxParams) -> bool {
    Single::of(ONE).below(p.downsample)
}

/// Quantisation levels of a bit depth.
pub open spec fn levels(f: Sums, bit_depth: Single) -> Single {
    f(Prim::Exp2, f(Prim::Sub, bit_depth.within(Single::of(ONE), Single::of(P16)), Single::of(ONE)), Single::of(ZERO))
}

/// One sample through the bit crusher.
pub open spec fn crush_tick(f: Sums, p: FxParams, steps: Single, s: Hold, v: Single) -> (Hold, Single) {
    let count = f(Prim::Add, s.hold_count, Single::of(ONE));
    let s2 = if !crushes_rate(p) {
        s
    } else if p.downsample.at_most(count) {
        Hold { hold: v, hold_count: f(Prim::Sub, count, p.downsample) }
    } else {
        Hold { hold_count: count, ..s }
    };
    let x = if crushes_rate(p) {
        s2.hold
    } else {
        v
    };
    (s2, if crushes_bits(p) {
        f(Prim::Div, f(Prim::Round, f(Prim::Mul, x, steps), Single::of(ZERO)), steps)
    } else {
        x
    })
}

/// The same for a run of samples.
pub open spec fn crush_run(f: Sums, p: FxParams, steps: Single, s: Hold, x: Seq<Single>) -> (Hold, Seq<Single>)
    decreases x.len(),
{
    if x.len() == 0 {
        (s, seq![])
    } else {
        let (t, out) = crush_run(f, p, steps, s, x.drop_last());
        let (u, y) = crush_tick(f, p, steps, t, x.last());
        (u, out.push(y))
    }
}

fn crush_sample<F: Fn(Prim, Single, Single) -> Single>(fpu: &F, p: FxParams, steps: Single, s: &mut Hold, v: Single) -> (y: Single)
    requires
        total(*fpu),
    ensures
        forall|f: Sums| #[trigger] meant(*fpu, f) ==> (*final(s), y) == crush_tick(f, p, steps, *old(s), v),
{
    let mut x = v;
    if Single::of(ONE).lt(p.downsample) {
        s.hold_count = fpu(Prim::Add, s.hold_count, Single::of(ONE));
        if p.downsample.le(s.hold_count) {
            s.hold_count = fpu(Prim::Sub, s.hold_count, p.downsample);
            s.hold = x;
        }
        x = s.hold;
    }
    if Single::of(ONE).le(p.bit_depth) {
        x = fpu(Prim::Div, fpu(Prim::Round, fpu(Prim::Mul, x, steps), Single::of(ZERO)), steps);
    }
    x
}

fn crush_span<F: Fn(Prim, Single, Single) -> Single>(fpu: &F, p: FxParams, steps: Single, s: &mut Hold, buf: &mut Vec<Single>, start: usize, end: usize)
    requires
        total(*fpu),
        start <= end <= old(buf)@.len(),
    ensures
        final(buf)@.len() == old(buf)@.len(),
        same_outside(old(buf)@, final(buf)@, start as int, end as int),
        forall|f: Sums| #[trigger] meant(*fpu, f) ==> (*final(s), final(buf)@.subrange(start as int, end as int)) == crush_run(
            f, p, steps,
            *old(s),
            old(buf)@.subrange(start as int, end as int),
        ),
{
    let mut i: usize = start;
    let ghost before = buf@;
    assert(before.subrange(start as int, start as int) =~= seq![]);
    while i < end
        invariant
            start <= i <= end <= buf@.len(),
            buf@.len() == before.len(),
            before == old(buf)@,
            same_outside(before, buf@, start as int, i as int),
            total(*fpu),
            forall|f: Sums| #[trigger] meant(*fpu, f) ==> (*s, buf@.subrange(start as int, i as int)) == crush_run(
                f, p, steps,
                *old(s),
                before.subrange(start as int, i as int),
            ),
        decreases end - i,
    {
        let ghost last = buf@;
        let y = crush_sample(fpu, p, steps, s, buf[i]);
        buf.set(i, y);
        i = i + 1;
        assert(before.subrange(start as int, i as int).drop_last() =~= before.subrange(start as int, i - 1));
        assert(buf@.subrange(start as int, i as int) =~= last.subrange(start as int, i - 1).push(y));
    }
}

/// Ring of the last samples fed to the delay.
pub struct Echo {
    pub delay: Vec<Single>,
    pub delay_pos: usize,
}

impl Echo {
    pub open spec fn wf(self) -> bool {
        2 <= self.delay@.len() <= LONGEST_LINE && self.delay_pos < self.delay@.len()
    }
}

impl View for Echo {
    type V = Seq<Single>;

    /// What was fed, oldest first.
    open spec fn view(&self) -> Seq<Single> {
        self.delay@.skip(self.delay_pos as int) + self.delay@.take(self.delay_pos as int)
    }
}

/// Delay in samples.
pub open spec fn lag(f: Sums, secs: Single, sample_rate: Single, len: int) -> int {
    let d = f(Prim::Mul, secs, sample_rate).whole() as int;
    if d < 1 {
        1
    } else if d > len - 1 {
        len - 1
    } else {
        d
    }
}

/// One sample through a delay of `d` samples.
pub open spec fn echo_tick(f: Sums, p: FxParams, d: usize, feedback: Single, s: Seq<Single>, v: Single) -> (Seq<Single>, Single) {
    let r = s[s.len() - d];
    (s.drop_first().push(f(Prim::Add, v, f(Prim::Mul, r, feedback))), f(Prim::Add, v, f(Prim::Mul, r, p.delay_mix)))
}

/// The same for a run of samples.
pub open spec fn echo_run(f: Sums, p: FxParams, d: usize, feedback: Single, s: Seq<Single>, x: Seq<Single>) -> (Seq<Single>, Seq<Single>)
    decreases x.len(),
{
    if x.len() == 0 {
        (s, seq![])
    } else {
        let (t, out) = echo_run(f, p, d, feedback, s, x.drop_last());
        let (u, y) = echo_tick(f, p, d, feedback, t, x.last());
        (u, out.push(y))
    }
}

fn echo_sample<F: Fn(Prim, Single, Single) -> Single>(fpu: &F, p: FxParams, d: usize, feedback: Single, s: &mut Echo, v: Single) -> (y: Single)
    requires
        total(*fpu),
        1 <= d < old(s)@.len(),
        old(s).wf(),
    ensures
        final(s).wf(),
        final(s)@.len() == old(s)@.len(),
        forall|f: Sums| #[trigger] meant(*fpu, f) ==> (final(s)@, y) == echo_tick(f, p, d, feedback, old(s)@, v),
{
    let len = s.delay.len();
    let at: usize = if s.delay_pos >= d { s.delay_pos - d } else { s.delay_pos + len - d };
    let r = s.delay[at];
    let ghost past = s@;
    assert(past[past.len() - d] == r);
    let fed = fpu(Prim::Add, v, fpu(Prim::Mul, r, feedback));
    let pos = s.delay_pos;
    s.delay.set(pos, fed);
    s.delay_pos = s.delay_pos + 1;
    if s.delay_pos == len {
        s.delay_pos = 0;
    }
    assert(s@ =~= past.drop_first().push(fed));
    fpu(Prim::Add, v, fpu(Prim::Mul, r, p.delay_mix))
}

fn echo_span<F: Fn(Prim, Single, Single) -> Single>(fpu: &F, p: FxParams, d: usize, feedback: Single, s: &mut Echo, buf: &mut Vec<Single>, start: usize, end: usize)
    requires
        total(*fpu),
        start <= end <= old(buf)@.len(),
        1 <= d < old(s)@.len(),
        old(s).wf(),
    ensures
        final(buf)@.len() == old(buf)@.len(),
        same_outside(old(buf)@, final(buf)@, start as int, end as int),
        final(s).wf(),
        final(s)@.len() == old(s)@.len(),
        forall|f: Sums| #[trigger] meant(*fpu, f) ==> (final(s)@, final(buf)@.subrange(start as int, end as int)) == echo_run(
            f, p, d, feedback,
            old(s)@,
            old(buf)@.subrange(start as int, end as int),
        ),
{
    let mut i: usize = start;
    let ghost before = buf@;
    assert(before.subrange(start as int, start as int) =~= seq![]);
    while i < end
        invariant
            start <= i <= end <= buf@.len(),
            buf@.len() == before.len(),
            before == old(buf)@,
            same_outside(before, buf@, start as int, i as int),
            total(*fpu),
            s.wf(),
            1 <= d < s@.len(),
            s@.len() == old(s)@.len(),
            forall|f: Sums| #[trigger] meant(*fpu, f) ==> (s@, buf@.subrange(start as int, i as int)) == echo_run(
                f, p, d, feedback,
                old(s)@,
                before.subrange(start as int, i as int),
            ),
        decreases end - i,
    {
        let ghost last = buf@;
        let y = echo_sample(fpu, p, d, feedback, s, buf[i]);
        buf.set(i, y);
        i = i + 1;
        assert(before.subrange(start as int, i as int).drop_last() =~= before.subrange(start as int, i - 1));
        assert(buf@.subrange(start as int, i as int) =~= last.subrange(start as int, i - 1).push(y));
    }
}

pub struct Effects {
    pub echo: Echo,
    pub hold: Hold,
    pub sample_rate: Single,
}

/// Effects as a value.
#[verifier::ext_equal]
pub struct EffectsView {
    /// What was fed to the delay, oldest first.
    pub echo: Seq<Single>,
    pub hold: Hold,
    pub sample_rate: Single,
}

/// Samples a delay line of a rate holds.
pub open spec fn line_length(f: Sums, sample_rate: Single) -> int {
    let n = f(Prim::Mul, Single::of(MAX_DELAY_SECS), sample_rate).whole() as int;
    if n < 2 {
        2
    } else if n > LONGEST_LINE {
        LONGEST_LINE as int
    } else {
        n
    }
}

impl EffectsView {
    pub open spec fn started(f: Sums, sample_rate: Single) -> EffectsView {
        EffectsView {
            echo: Seq::new(line_length(f, sample_rate) as nat, |j: int| Single::of(ZERO)),
            hold: Hold { hold: Single::of(ZERO), hold_count: Single::of(ZERO) },
            sample_rate,
        }
    }

    /// With nothing held and nothing in the delay.
    pub open spec fn cleared(self) -> EffectsView {
        EffectsView {
            echo: Seq::new(self.echo.len(), |j: int| Single::of(ZERO)),
            hold: Hold { hold: Single::of(ZERO), hold_count: Single::of(ZERO) },
            ..self
        }
    }

    /// The effects after a run of samples, and the samples.
    pub open spec fn processed(self, f: Sums, p: FxParams, x: Seq<Single>) -> (EffectsView, Seq<Single>) {
        let a = if Single::of(ZERO).below(p.drive) {
            x.map_values(|v: Single| driven(f, p.drive, v))
        } else {
            x
        };
        let (hold, b) = if crushes_bits(p) || crushes_rate(p) {
            crush_run(f, p, levels(f, p.bit_depth), self.hold, a)
        } else {
            (self.hold, a)
        };
        let (echo, c) = if (Single::of(ZERO).below(p.delay_time) && Single::of(ZERO).below(p.delay_mix)) {
            echo_run(
                f,
                p,
                lag(f, p.delay_time, self.sample_rate, self.echo.len() as int) as usize,
                p.delay_feedback.within(Single::of(ZERO), Single::of(P0_98)),
                self.echo,
                b,
            )
        } else {
            (self.echo, b)
        };
        (EffectsView { echo, hold, ..self }, c)
    }
}

impl View for Effects {
    type V = EffectsView;

    open spec fn view(&self) -> EffectsView {
        EffectsView { echo: self.echo@, hold: self.hold, sample_rate: self.sample_rate }
    }
}

impl Effects {
    pub open spec fn wf(self) -> bool {
        self.echo.wf()
    }

    pub fn new<F: Fn(Prim, Single, Single) -> Single>(fpu: &F, sample_rate: Single) -> (r: Effects)
        requires
            total(*fpu),
        ensures
            r.wf(),
            r@.sample_rate == sample_rate,
            forall|f: Sums| #[trigger] meant(*fpu, f) ==> r@ == EffectsView::started(f, sample_rate),
    {
        let wanted: u64 = fpu(Prim::Mul, Single::of(MAX_DELAY_SECS), sample_rate).trunc();
        let len: usize = if wanted < 2 {
            2
        } else if wanted > LONGEST_LINE as u64 {
            LONGEST_LINE
        } else {
            wanted as usize
        };
        let mut delay: Vec<Single> = Vec::new();
        while delay.len() < len
            invariant
                delay@.len() <= len,
                forall|j: int| 0 <= j < delay@.len() ==> delay@[j] == Single::of(ZERO),
            decreases len - delay@.len(),
        {
            delay.push(Single::of(ZERO));
        }
        let r = Effects {
            echo: Echo { delay, delay_pos: 0 },
            hold: Hold { hold: Single::of(ZERO), hold_count: Single::of(ZERO) },
            sample_rate,
        };
        assert(r@.echo =~= Seq::new(len as nat, |j: int| Single::of(ZERO)));
        r
    }

    pub fn sample_rate(&self) -> (r: Single)
        ensures
            r == self.sample_rate,
            r == self@.sample_rate,
    {
        self.sample_rate
    }

    pub fn reset(&mut self)
        requires
            old(self).wf(),
        ensures
            final(self).wf(),
            final(self)@ == old(self)@.cleared(),
    {
        let len = self.echo.delay.len();
        let mut i: usize = 0;
        while i < len
            invariant
                i <= len,
                self.echo.delay@.len() == len,
                self.sample_rate == old(self).sample_rate,
                forall|j: int| 0 <= j < i ==> self.echo.delay@[j] == Single::of(ZERO),
            decreases len - i,
        {
            self.echo.delay.set(i, Single::of(ZERO));
            i = i + 1;
        }
        self.echo.delay_pos = 0;
        self.hold = Hold { hold: Single::of(ZERO), hold_count: Single::of(ZERO) };
        assert(self@ =~= old(self)@.cleared());
    }

    /// Process samples `start..end` in place. Allocation free.
    pub fn process<F: Fn(Prim, Single, Single) -> Single>(&mut self, fpu: &F, p: &FxParams, buf: &mut Vec<Single>, start: usize, end: usize)
        requires
            total(*fpu),
            old(self).wf(),
            start <= end <= old(buf)@.len(),
        ensures
            final(self).wf(),
            same_outside(old(buf)@, final(buf)@, start as int, end as int),
            forall|f: Sums| #[trigger] meant(*fpu, f) ==> (final(self)@, final(buf)@.subrange(start as int, end as int)) == old(self)@.processed(
                f,
                *p,
                old(buf)@.subrange(start as int, end as int),
            ),
    {
        let ghost x = buf@.subrange(start as int, end as int);
        if Single::of(ZERO).lt(p.drive) {
            drive_span(fpu, p.drive, buf, start, end);
            assert(forall|f: Sums| #[trigger] meant(*fpu, f) ==> buf@.subrange(start as int, end as int) =~= x.map_values(|v: Single| driven(f, p.drive, v)));
        }
        if Single::of(ONE).le(p.bit_depth) || Single::of(ONE).lt(p.downsample) {
            let steps = fpu(Prim::Exp2, fpu(Prim::Sub, p.bit_depth.clamp(Single::of(ONE), Single::of(P16)), Single::of(ONE)), Single::of(ZERO));
            crush_span(fpu, *p, steps, &mut self.hold, buf, start, end);
        }
        if Single::of(ZERO).lt(p.delay_time) && Single::of(ZERO).lt(p.delay_mix) {
            let len = self.echo.delay.len();
            let wanted: u64 = fpu(Prim::Mul, p.delay_time, self.sample_rate).trunc();
            let d: usize = if wanted < 1 {
                1
            } else if wanted > (len - 1) as u64 {
                len - 1
            } else {
                wanted as usize
            };
            let feedback = p.delay_feedback.clamp(Single::of(ZERO), Single::of(P0_98));
            echo_span(fpu, *p, d, feedback, &mut self.echo, buf, start, end);
        }
    }
}

/// Effects that are all off leave the samples and themselves alone.
pub proof fn lemma_effects_off(e: EffectsView, f: Sums, p: FxParams, x: Seq<Single>)
    requires
        !Single::of(ZERO).below(p.drive),
        !crushes_bits(p),
        !crushes_rate(p),
        !Single::of(ZERO).below(p.delay_time) || !Single::of(ZERO).below(p.delay_mix),
    ensures
        e.processed(f, p, x) == (e, x),
{
}

proof fn lemma_crush_splits(f: Sums, p: FxParams, steps: Single, s: Hold, x: Seq<Single>, y: Seq<Single>)
    ensures
        crush_run(f, p, steps, s, x + y) == ({
            let (t, a) = crush_run(f, p, steps, s, x);
            let (u, b) = crush_run(f, p, steps, t, y);
            (u, a + b)
        }),
        crush_run(f, p, steps, s, x).1.len() == x.len(),
    decreases x.len() + y.len(),
{
    if y.len() == 0 {
        assert(x + y =~= x);
        assert(crush_run(f, p, steps, s, x).1 + seq![] =~= crush_run(f, p, steps, s, x).1);
        if x.len() > 0 {
            lemma_crush_splits(f, p, steps, s, x.drop_last(), y);
        }
    } else {
        lemma_crush_splits(f, p, steps, s, x, y.drop_last());
        assert((x + y).drop_last() =~= x + y.drop_last());
        let (t, a) = crush_run(f, p, steps, s, x);
        let (u, b) = crush_run(f, p, steps, t, y.drop_last());
        let z = crush_tick(f, p, steps, u, y.last()).1;
        assert((a + b).push(z) =~= a + b.push(z));
    }
}

proof fn lemma_echo_splits(f: Sums, p: FxParams, d: usize, feedback: Single, s: Seq<Single>, x: Seq<Single>, y: Seq<Single>)
    ensures
        echo_run(f, p, d, feedback, s, x + y) == ({
            let (t, a) = echo_run(f, p, d, feedback, s, x);
            let (u, b) = echo_run(f, p, d, feedback, t, y);
            (u, a + b)
        }),
        echo_run(f, p, d, feedback, s, x).1.len() == x.len(),
        s.len() > 0 ==> echo_run(f, p, d, feedback, s, x).0.len() == s.len(),
    decreases x.len() + y.len(),
{
    if y.len() == 0 {
        assert(x + y =~= x);
        assert(echo_run(f, p, d, feedback, s, x).1 + seq![] =~= echo_run(f, p, d, feedback, s, x).1);
        if x.len() > 0 {
            lemma_echo_splits(f, p, d, feedback, s, x.drop_last(), y);
        }
    } else {
        lemma_echo_splits(f, p, d, feedback, s, x, y.drop_last());
        assert((x + y).drop_last() =~= x + y.drop_last());
        let (t, a) = echo_run(f, p, d, feedback, s, x);
        let (u, b) = echo_run(f, p, d, feedback, t, y.drop_last());
        let z = echo_tick(f, p, d, feedback, u, y.last()).1;
        assert((a + b).push(z) =~= a + b.push(z));
    }
}

/// The effects keep what they need between runs of samples: two runs give what one run over both
/// gives.
pub proof fn lemma_effects_process_in_parts(e: EffectsView, f: Sums, p: FxParams, x: Seq<Single>, y: Seq<Single>)
    requires
        e.echo.len() > 0,
    ensures
        e.processed(f, p, x + y) == ({
            let (t, a) = e.processed(f, p, x);
            let (u, b) = t.processed(f, p, y);
            (u, a + b)
        }),
        e.processed(f, p, x).1.len() == x.len(),
        e.processed(f, p, x).0.echo.len() == e.echo.len(),
{
    let drive = |v: Single| driven(f, p.drive, v);
    let on = Single::of(ZERO).below(p.drive);
    let (ax, ay, axy) = if on {
        (x.map_values(drive), y.map_values(drive), (x + y).map_values(drive))
    } else {
        (x, y, x + y)
    };
    assert(axy =~= ax + ay);
    let steps = levels(f, p.bit_depth);
    lemma_crush_splits(f, p, steps, e.hold, ax, ay);
    let crush = crushes_bits(p) || crushes_rate(p);
    let (bx, by) = if crush {
        let (t, a) = crush_run(f, p, steps, e.hold, ax);
        (a, crush_run(f, p, steps, t, ay).1)
    } else {
        (ax, ay)
    };
    let d = lag(f, p.delay_time, e.sample_rate, e.echo.len() as int) as usize;
    lemma_echo_splits(f, p, d, p.delay_feedback.within(Single::of(ZERO), Single::of(P0_98)), e.echo, bx, by);
}

} // verus!
