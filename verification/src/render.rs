//! Offline rendering helpers for tests, tooling and baking sounds to samples.
use vstd::prelude::*;

use crate::arith::{meant, total, Prim, Sums};
use crate::patch::Patch;
use crate::single::{from_u64, Single, ZERO};
use crate::synth::{Command, Synth, SynthView};

verus! {

/// Samples rendered between two looks at whether there is silence.
pub const STEP: usize = 256;

/// What is still heard once `done` samples are out: blocks until silence or `max` samples.
pub open spec fn until_silent(s: SynthView, f: Sums, done: nat, max: nat) -> Seq<Single>
    decreases max + STEP - done,
{
    if done >= max {
        seq![]
    } else {
        let (t, block) = s.rendered(f, STEP as nat);
        if t.silent() {
            block
        } else {
            block + until_silent(t, f, done + STEP as nat, max)
        }
    }
}

/// Sample at which an event is due.
pub open spec fn due_at(f: Sums, sample_rate: Single, time: Single) -> int {
    f(Prim::Mul, time, sample_rate).whole()
}

/// The synth after the events from `next` on that are due at sample `now`, and the next event.
pub open spec fn caught_up(s: SynthView, f: Sums, sample_rate: Single, events: Seq<(Single, Command)>, next: nat, now: nat) -> (SynthView, nat)
    decreases events.len() - next,
{
    if next < events.len() && due_at(f, sample_rate, events[next as int].0) <= now {
        caught_up(s.applied(f, events[next as int].1), f, sample_rate, events, next + 1, now)
    } else {
        (s, next)
    }
}

/// Samples to render before the next event: at least one, at most a block.
pub open spec fn stride(f: Sums, sample_rate: Single, events: Seq<(Single, Command)>, next: nat, now: nat) -> nat {
    if next < events.len() {
        let gap = due_at(f, sample_rate, events[next as int].0) - now;
        if gap < 1 {
            1
        } else if gap > STEP {
            STEP as nat
        } else {
            gap as nat
        }
    } else {
        STEP as nat
    }
}

/// Sample of the last event.
pub open spec fn last_due(f: Sums, sample_rate: Single, events: Seq<(Single, Command)>) -> int {
    if events.len() == 0 {
        0
    } else {
        due_at(f, sample_rate, events.last().0)
    }
}

/// What is still heard once `done` samples are out and the events before `next` are applied.
pub open spec fn with_events(s: SynthView, f: Sums, sample_rate: Single, events: Seq<(Single, Command)>, next: nat, done: nat, max: nat) -> Seq<
    Single,
>
    decreases max + STEP - done,
{
    if done >= max {
        seq![]
    } else {
        let (t, after) = caught_up(s, f, sample_rate, events, next, done);
        let n = stride(f, sample_rate, events, after, done);
        let (u, block) = t.rendered(f, n);
        if after >= events.len() && done > last_due(f, sample_rate, events) && u.silent() {
            block
        } else {
            block + with_events(u, f, sample_rate, events, after, done + n, max)
        }
    }
}

/// Render a one-shot of `patch` (its base note / duration) to mono samples.
/// Rendering stops once the synth is silent or `max_secs` is reached.
pub fn render_one_shot<F: Fn(Prim, Single, Single) -> Single>(fpu: &F, patch: &Patch, sample_rate: Single, max_secs: Single) -> (r: Vec<Single>)
    requires
        total(*fpu),
    ensures
        forall|f: Sums| #[trigger] meant(*fpu, f) ==> ({
            let s = SynthView { patch: *patch, ..SynthView::started(f, sample_rate) };
            r@ == until_silent(s.triggered(f), f, 0, f(Prim::Mul, max_secs, sample_rate).whole() as nat)
        }),
{
    let mut synth = Synth::with_patch(fpu, sample_rate, *patch);
    synth.trigger(fpu);
    render_until_silent(fpu, &mut synth, max_secs)
}

fn silent_block(n: usize) -> (r: Vec<Single>)
    ensures
        r@.len() == n,
{
    let mut block: Vec<Single> = Vec::new();
    while block.len() < n
        invariant
            block@.len() <= n,
        decreases n - block@.len(),
    {
        block.push(Single::of(ZERO));
    }
    block
}

fn append_block(out: &mut Vec<Single>, block: &Vec<Single>)
    ensures
        final(out)@ == old(out)@ + block@,
{
    let mut i: usize = 0;
    let ghost before = out@;
    while i < block.len()
        invariant
            i <= block@.len(),
            out@ == before + block@.take(i as int),
        decreases block@.len() - i,
    {
        out.push(block[i]);
        i = i + 1;
        assert(block@.take(i as int) =~= block@.take(i - 1).push(block@[i - 1]));
    }
    assert(block@.take(i as int) =~= block@);
}

fn render_until_silent<F: Fn(Prim, Single, Single) -> Single>(fpu: &F, synth: &mut Synth, max_secs: Single) -> (r: Vec<Single>)
    requires
        total(*fpu),
        old(synth).wf(),
    ensures
        final(synth).wf(),
        forall|f: Sums| #[trigger] meant(*fpu, f) ==> r@ == until_silent(old(synth)@, f, 0, f(Prim::Mul, max_secs, old(synth).sample_rate).whole() as nat),
{
    let max: u64 = fpu(Prim::Mul, max_secs, synth.sample_rate()).trunc();
    let mut out: Vec<Single> = Vec::new();
    let mut block = silent_block(STEP);
    while (out.len() as u64) < max
        invariant_except_break
            forall|f: Sums| #[trigger] meant(*fpu, f) ==> until_silent(old(synth)@, f, 0, max as nat) == out@ + until_silent(synth@, f, out@.len(), max as nat),
        invariant
            total(*fpu),
            synth.wf(),
            block@.len() == STEP,
        ensures
            forall|f: Sums| #[trigger] meant(*fpu, f) ==> until_silent(old(synth)@, f, 0, max as nat) == out@,
        decreases max + STEP - out@.len(),
    {
        let ghost before = synth@;
        let ghost done = out@;
        synth.render_mono(fpu, &mut block);
        append_block(&mut out, &block);
        assert(forall|f: Sums| #[trigger] meant(*fpu, f) ==> done + (block@ + until_silent(synth@, f, out@.len(), max as nat)) =~= out@ + until_silent(
            synth@,
            f,
            out@.len(),
            max as nat,
        ));
        if synth.is_silent() {
            break;
        }
    }
    out
}

/// Apply the events from `next` on that are due; how long until the one after them is, and its
/// place.
fn catch_up<F: Fn(Prim, Single, Single) -> Single>(fpu: &F, synth: &mut Synth, sample_rate: Single, events: &Vec<(Single, Command)>, start: usize, now: usize) -> (r: (
    usize,
    usize,
))
    requires
        total(*fpu),
        old(synth).wf(),
        start <= events@.len(),
        old(synth).counter <= start,
    ensures
        final(synth).wf(),
        start <= r.0 <= events@.len(),
        final(synth).counter <= r.0,
        1 <= r.1 <= STEP,
        forall|f: Sums| #[trigger] meant(*fpu, f) ==> (final(synth)@, r.0 as nat) == caught_up(old(synth)@, f, sample_rate, events@, start as nat, now as nat) && r.1 == stride(
            f,
            sample_rate,
            events@,
            r.0 as nat,
            now as nat,
        ),
{
    let mut next: usize = start;
    while next < events.len()
        invariant
            total(*fpu),
            synth.wf(),
            start <= next <= events@.len(),
            synth.counter <= next,
            forall|f: Sums| #[trigger] meant(*fpu, f) ==> caught_up(synth@, f, sample_rate, events@, next as nat, now as nat) == caught_up(
                old(synth)@,
                f,
                sample_rate,
                events@,
                start as nat,
                now as nat,
            ),
        decreases events@.len() - next,
    {
        let (time, cmd) = events[next];
        let at: u64 = fpu(Prim::Mul, time, sample_rate).trunc();
        if at > now as u64 {
            let gap = at - now as u64;
            return (next, if gap > STEP as u64 { STEP } else { gap as usize });
        }
        synth.apply(fpu, cmd);
        next = next + 1;
    }
    (next, STEP)
}

/// Render `events` (time in seconds, command) and keep going until silence or `max_secs`.
pub fn render_events<F: Fn(Prim, Single, Single) -> Single>(fpu: &F, patch: &Patch, sample_rate: Single, events: &Vec<(Single, Command)>, max_secs: Single) -> (r: Vec<Single>)
    requires
        total(*fpu),
    ensures
        forall|f: Sums| #[trigger] meant(*fpu, f) ==> r@ == with_events(
            SynthView { patch: *patch, ..SynthView::started(f, sample_rate) },
            f,
            sample_rate,
            events@,
            0,
            0,
            f(Prim::Mul, max_secs, sample_rate).whole() as nat,
        ),
{
    let mut synth = Synth::with_patch(fpu, sample_rate, *patch);
    let ghost start = synth@;
    let mut out: Vec<Single> = Vec::new();
    let mut next: usize = 0;
    let max: u64 = fpu(Prim::Mul, max_secs, sample_rate).trunc();
    let last: u64 = if events.len() == 0 {
        0
    } else {
        let time = events[events.len() - 1].0;
        fpu(Prim::Mul, time, sample_rate).trunc()
    };
    while (out.len() as u64) < max
        invariant_except_break
            forall|f: Sums| #[trigger] meant(*fpu, f) ==> with_events(start, f, sample_rate, events@, 0, 0, max as nat) == out@ + with_events(
                synth@,
                f,
                sample_rate,
                events@,
                next as nat,
                out@.len(),
                max as nat,
            ),
        invariant
            total(*fpu),
            synth.wf(),
            next <= events@.len(),
            synth.counter <= next,
            forall|f: Sums| #[trigger] meant(*fpu, f) ==> last == last_due(f, sample_rate, events@),
        ensures
            forall|f: Sums| #[trigger] meant(*fpu, f) ==> with_events(start, f, sample_rate, events@, 0, 0, max as nat) == out@,
        decreases max + STEP - out@.len(),
    {
        let now = out.len();
        let ghost done = out@;
        let (after, n) = catch_up(fpu, &mut synth, sample_rate, events, next, now);
        next = after;
        let mut block = silent_block(n);
        synth.render_mono(fpu, &mut block);
        append_block(&mut out, &block);
        assert(forall|f: Sums| #[trigger] meant(*fpu, f) ==> ({
            let rest = with_events(synth@, f, sample_rate, events@, next as nat, out@.len(), max as nat);
            done + (block@ + rest) =~= out@ + rest
        }));
        if next >= events.len() && now as u64 > last && synth.is_silent() {
            break;
        }
    }
    out
}

/// Largest absolute value of some samples.
pub open spec fn peak_of(samples: Seq<Single>) -> Single
    decreases samples.len(),
{
    if samples.len() == 0 {
        Single::of(ZERO)
    } else {
        peak_of(samples.drop_last()).larger(samples.last().absolute())
    }
}

/// Peak absolute sample value.
pub fn peak(samples: &Vec<Single>) -> (r: Single)
    ensures
        r == peak_of(samples@),
{
    let mut m = Single::of(ZERO);
    let mut i: usize = 0;
    assert(samples@.take(0) =~= seq![]);
    while i < samples.len()
        invariant
            i <= samples@.len(),
            m == peak_of(samples@.take(i as int)),
        decreases samples@.len() - i,
    {
        m = m.max(samples[i].abs());
        i = i + 1;
        assert(samples@.take(i as int).drop_last() =~= samples@.take(i - 1));
    }
    assert(samples@.take(i as int) =~= samples@);
    m
}

/// The peak is at least as loud as every sample that is a number.
pub proof fn lemma_peak_bounds_samples(samples: Seq<Single>, i: int)
    requires
        0 <= i < samples.len(),
        !samples[i].nan(),
    ensures
        !peak_of(samples).nan(),
        samples[i].absolute().at_most(peak_of(samples)),
    decreases samples.len(),
{
    lemma_peak_is_number(samples.drop_last());
    if i < samples.len() - 1 {
        lemma_peak_bounds_samples(samples.drop_last(), i);
    }
}

proof fn lemma_peak_is_number(samples: Seq<Single>)
    ensures
        !peak_of(samples).nan(),
    decreases samples.len(),
{
    if samples.len() > 0 {
        lemma_peak_is_number(samples.drop_last());
    }
}

/// Sum of the squares of some samples.
pub open spec fn energy(f: Sums, samples: Seq<Single>) -> Single
    decreases samples.len(),
{
    if samples.len() == 0 {
        Single::of(ZERO)
    } else {
        let (sum, s) = (energy(f, samples.drop_last()), samples.last());
        f(Prim::Add, sum, f(Prim::Mul, s, s))
    }
}

/// Root mean square level.
pub fn rms<F: Fn(Prim, Single, Single) -> Single>(fpu: &F, samples: &Vec<Single>) -> (r: Single)
    requires
        total(*fpu),
    ensures
        samples@.len() == 0 ==> r == Single::of(ZERO),
        forall|f: Sums| #[trigger] meant(*fpu, f) ==> r == if samples@.len() == 0 {
            Single::of(ZERO)
        } else {
            let (sum, n) = (energy(f, samples@), crate::single::counted(samples@.len()));
            f(Prim::Sqrt, f(Prim::Div, sum, n), Single::of(ZERO))
        },
{
    if samples.len() == 0 {
        return Single::of(ZERO);
    }
    let mut sum = Single::of(ZERO);
    let mut i: usize = 0;
    assert(samples@.take(0) =~= seq![]);
    while i < samples.len()
        invariant
            total(*fpu),
            i <= samples@.len(),
            forall|f: Sums| #[trigger] meant(*fpu, f) ==> sum == energy(f, samples@.take(i as int)),
        decreases samples@.len() - i,
    {
        let s = samples[i];
        sum = fpu(Prim::Add, sum, fpu(Prim::Mul, s, s));
        i = i + 1;
        assert(samples@.take(i as int).drop_last() =~= samples@.take(i - 1));
    }
    assert(samples@.take(i as int) =~= samples@);
    let n = from_u64(samples.len() as u64);
    fpu(Prim::Sqrt, fpu(Prim::Div, sum, n), Single::of(ZERO))
}

} // verus!
