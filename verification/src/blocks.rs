//! Small reusable signal blocks shared by the generators and the graph runtime.
use vstd::prelude::*;

use crate::arith::{meant, total, Prim, Sums};
use crate::math::{cycle, swing, Rng};
use crate::single::{from_size, Single, HALF, ONE, PI, TAU, ZERO};

verus! {

/// Number of samples per control block in generators and graph models.
pub const BLOCK: usize = 32;

/// Pattern of -3: a decay to 5 %.
pub const SETTLE_95: u32 = 0xc040_0000;

/// Patterns of 0.3 and 1: the amplitudes of an impulse.
pub const DUST_LOW: u32 = 0x3e99_999a;

/// Patterns of 0.02, 1.02 and 3.5: input, leak and level of brown noise.
pub const BROWN_IN: u32 = 0x3ca3_d70a;

pub const BROWN_LEAK: u32 = 0x3f82_8f5c;

pub const BROWN_LEVEL: u32 = 0x4060_0000;

/// Pattern of 1e-20: smaller filter states count as silence.
pub const SILENCE: u32 = 0x1e3c_e508;

/// Longest delay line, in samples: no more can be addressed. An allocation is at most half of what
/// `usize` counts, and a sample takes four bytes.
pub const LONGEST_LINE: usize = usize::MAX / 8 - 8;

/// Coefficient of a one-pole filter with a cutoff in Hz.
pub open spec fn cutoff_coef(f: Sums, hz: Single, sample_rate: Single) -> Single {
    let x = f(
        Prim::Div,
        f(Prim::Mul, Single::of(TAU).negated(), hz.larger(Single::of(ZERO))),
        sample_rate,
    );
    f(Prim::Sub, Single::of(ONE), f(Prim::Exp, x, x))
}

/// Coefficient that settles to 95 % in `secs` when applied once per `dt` seconds.
pub open spec fn settling(f: Sums, secs: Single, dt: Single) -> Single {
    if secs.at_most(Single::of(ZERO)) {
        Single::of(ONE)
    } else {
        let x = f(Prim::Div, f(Prim::Mul, Single::of(SETTLE_95), dt), secs);
        f(Prim::Sub, Single::of(ONE), f(Prim::Exp, x, x))
    }
}

/// One-pole coefficient for a cutoff in Hz.
pub fn hz_coef<A: Fn(Prim, Single, Single) -> Single>(a: &A, hz: Single, sample_rate: Single) -> (r: Single)
    requires
        total(*a),
    ensures
        forall|f: Sums| #[trigger] meant(*a, f) ==> r == cutoff_coef(f, hz, sample_rate),
{
    let x = a(Prim::Div, a(Prim::Mul, Single::of(TAU).neg(), hz.max(Single::of(ZERO))), sample_rate);
    a(Prim::Sub, Single::of(ONE), a(Prim::Exp, x, x))
}

/// One-pole coefficient that settles (~95%) in `secs` when applied once per `dt` seconds.
pub fn settle_coef<A: Fn(Prim, Single, Single) -> Single>(a: &A, secs: Single, dt: Single) -> (r: Single)
    requires
        total(*a),
    ensures
        forall|f: Sums| #[trigger] meant(*a, f) ==> r == settling(f, secs, dt),
        secs.at_most(Single::of(ZERO)) ==> r == Single::of(ONE),
{
    if secs.le(Single::of(ZERO)) {
        Single::of(ONE)
    } else {
        let x = a(Prim::Div, a(Prim::Mul, Single::of(SETTLE_95), dt), secs);
        a(Prim::Sub, Single::of(ONE), a(Prim::Exp, x, x))
    }
}

/// Poisson impulse generator ("dust"): sparse random impulses at an average rate.
#[derive(Clone, Copy, Debug, PartialEq, Eq, Structural)]
pub struct Dust {
    pub rng: Rng,
}

impl Dust {
    /// Whether the next tick with probability `p` strikes.
    pub open spec fn strikes(self, p: Single) -> bool {
        crate::math::unipolar(self.rng.fraction()).below(p)
    }

    /// The generator after that tick: a strike also draws its amplitude.
    pub open spec fn ticked(self, p: Single) -> Dust {
        Dust { rng: if self.strikes(p) { self.rng.advanced().advanced() } else { self.rng.advanced() } }
    }

    /// The impulse, 0 or an amplitude from 0.3 to 1.
    pub open spec fn impulse(self, f: Sums, p: Single) -> Single {
        if self.strikes(p) {
            crate::math::drawn_from(
                f,
                Single::of(DUST_LOW),
                Single::of(ONE),
                crate::math::unipolar(self.rng.advanced().fraction()),
            )
        } else {
            Single::of(ZERO)
        }
    }

    pub fn new(seed: u32) -> (r: Dust)
        ensures
            r.rng == Rng::seeded_with(seed),
            r.rng.wf(),
    {
        Dust { rng: Rng::new(seed) }
    }

    /// `p` is the per-sample probability (rate / sample_rate). Returns 0 or an amplitude 0.3..1.
    pub fn tick<A: Fn(Prim, Single, Single) -> Single>(&mut self, a: &A, p: Single) -> (r: Single)
        requires
            total(*a),
        ensures
            *final(self) == old(self).ticked(p),
            forall|f: Sums| #[trigger] meant(*a, f) ==> r == old(self).impulse(f, p),
            !old(self).strikes(p) ==> r == Single::of(ZERO),
            old(self).strikes(p) ==> Single::of(DUST_LOW).at_most(r) && r.below(Single::of(ONE)),
    {
        if self.rng.chance(p) {
            self.rng.range(a, Single::of(DUST_LOW), Single::of(ONE))
        } else {
            Single::of(ZERO)
        }
    }

    /// The stream the impulses are drawn from; what is drawn from it here is gone for them.
    pub fn rng(&mut self) -> (r: &mut Rng)
        ensures
            *r == old(self).rng,
            final(self).rng == *final(r),
    {
        &mut self.rng
    }
}

/// Smooth random control signal in [-1, 1]: random targets joined by cosine segments.
#[derive(Clone, Copy, Debug, PartialEq, Eq, Structural)]
pub struct SlowNoise {
    pub rng: Rng,
    pub phase: Single,
    pub a: Single,
    pub b: Single,
}

impl SlowNoise {
    /// The signal a seed starts: at its first target, heading for the second.
    pub open spec fn seeded_with(seed: u32) -> SlowNoise {
        let first = Rng::seeded_with(seed);
        SlowNoise {
            rng: first.advanced().advanced(),
            phase: Single::of(ZERO),
            a: crate::math::bipolar(first.fraction()),
            b: crate::math::bipolar(first.advanced().fraction()),
        }
    }

    /// The signal after `dt` seconds at `rate` new targets per second.
    pub open spec fn advanced(self, f: Sums, rate: Single, dt: Single) -> SlowNoise {
        let phase = f(Prim::Add, self.phase, f(Prim::Mul, rate.larger(Single::of(ZERO)), dt));
        if Single::of(ONE).at_most(phase) {
            SlowNoise {
                rng: self.rng.advanced(),
                phase: f(Prim::Sub, phase, f(Prim::Floor, phase, phase)),
                a: self.b,
                b: crate::math::bipolar(self.rng.fraction()),
            }
        } else {
            SlowNoise { phase, ..self }
        }
    }

    /// The value at the current phase: a cosine segment between the two targets.
    pub open spec fn level(self, f: Sums) -> Single {
        let x = f(Prim::Mul, self.phase, Single::of(PI));
        let t = f(Prim::Sub, Single::of(HALF), f(Prim::Mul, Single::of(HALF), f(Prim::Cos, x, x)));
        crate::math::swung(crate::math::between(f, self.a, self.b, t))
    }

    pub fn new(seed: u32) -> (r: SlowNoise)
        ensures
            r == SlowNoise::seeded_with(seed),
    {
        let mut rng = Rng::new(seed);
        let a = rng.next_bipolar();
        let b = rng.next_bipolar();
        SlowNoise { rng, phase: Single::of(ZERO), a, b }
    }

    /// Advance by `dt` seconds at `rate_hz` new targets per second.
    pub fn advance<A: Fn(Prim, Single, Single) -> Single>(&mut self, a: &A, rate_hz: Single, dt: Single) -> (r: Single)
        requires
            total(*a),
        ensures
            forall|f: Sums| #[trigger]
                meant(*a, f) ==> *final(self) == old(self).advanced(f, rate_hz, dt) && r
                    == old(self).advanced(f, rate_hz, dt).level(f),
            crate::math::in_swing(r),
    {
        self.phase = a(Prim::Add, self.phase, a(Prim::Mul, rate_hz.max(Single::of(ZERO)), dt));
        if Single::of(ONE).le(self.phase) {
            self.phase = a(Prim::Sub, self.phase, a(Prim::Floor, self.phase, self.phase));
            self.a = self.b;
            self.b = self.rng.next_bipolar();
        }
        let x = a(Prim::Mul, self.phase, Single::of(PI));
        let t = a(Prim::Sub, Single::of(HALF), a(Prim::Mul, Single::of(HALF), a(Prim::Cos, x, x)));
        swing(a(Prim::Add, self.a, a(Prim::Mul, a(Prim::Sub, self.b, self.a), t)))
    }
}

/// Brown (red) noise: leaky integrated white noise, roughly unit level.
#[derive(Clone, Copy, Debug, PartialEq, Eq, Structural)]
pub struct Brown {
    pub y: Single,
}

impl Default for Brown {
    fn default() -> (r: Brown)
        ensures
            r.y == Single::of(ZERO),
    {
        Brown { y: Single::of(ZERO) }
    }
}

impl Brown {
    pub open spec fn integrated(self, f: Sums, white: Single) -> Single {
        f(
            Prim::Div,
            f(Prim::Add, self.y, f(Prim::Mul, Single::of(BROWN_IN), white)),
            Single::of(BROWN_LEAK),
        )
    }

    /// The sample heard.
    pub open spec fn sound(self, f: Sums, white: Single) -> Single {
        f(Prim::Mul, self.integrated(f, white), Single::of(BROWN_LEVEL))
    }

    pub fn tick<A: Fn(Prim, Single, Single) -> Single>(&mut self, a: &A, white: Single) -> (r: Single)
        requires
            total(*a),
        ensures
            forall|f: Sums| #[trigger]
                meant(*a, f) ==> final(self).y == old(self).integrated(f, white) && r == old(self).sound(f, white),
    {
        self.y = a(
            Prim::Div,
            a(Prim::Add, self.y, a(Prim::Mul, Single::of(BROWN_IN), white)),
            Single::of(BROWN_LEAK),
        );
        a(Prim::Mul, self.y, Single::of(BROWN_LEVEL))
    }
}

/// One-pole low-pass state; high-pass is `x - lp`.
#[derive(Clone, Copy, Debug, PartialEq, Eq, Structural)]
pub struct OnePole {
    pub y: Single,
}

impl Default for OnePole {
    fn default() -> (r: OnePole)
        ensures
            r.y == Single::of(ZERO),
    {
        OnePole { y: Single::of(ZERO) }
    }
}

impl OnePole {
    /// The state after a sample; a state that has faded to silence becomes zero.
    pub open spec fn smoothed(self, f: Sums, x: Single, coef: Single) -> Single {
        let y = f(Prim::Add, self.y, f(Prim::Mul, f(Prim::Sub, x, self.y), coef));
        if y.absolute().below(Single::of(SILENCE)) {
            Single::of(ZERO)
        } else {
            y
        }
    }

    pub fn lp<A: Fn(Prim, Single, Single) -> Single>(&mut self, a: &A, x: Single, coef: Single) -> (r: Single)
        requires
            total(*a),
        ensures
            r == final(self).y,
            forall|f: Sums| #[trigger] meant(*a, f) ==> r == old(self).smoothed(f, x, coef),
            !r.absolute().below(Single::of(SILENCE)) || r == Single::of(ZERO),
    {
        self.y = a(Prim::Add, self.y, a(Prim::Mul, a(Prim::Sub, x, self.y), coef));
        if self.y.abs().lt(Single::of(SILENCE)) {
            self.y = Single::of(ZERO);
        }
        self.y
    }

    pub fn hp<A: Fn(Prim, Single, Single) -> Single>(&mut self, a: &A, x: Single, coef: Single) -> (r: Single)
        requires
            total(*a),
        ensures
            forall|f: Sums| #[trigger]
                meant(*a, f) ==> final(self).y == old(self).smoothed(f, x, coef) && r == f(
                    Prim::Sub,
                    x,
                    old(self).smoothed(f, x, coef),
                ),
    {
        let y = self.lp(a, x, coef);
        a(Prim::Sub, x, y)
    }
}

/// The longest delay that can be read from a line with that history.
pub open spec fn longest_delay(history: Seq<Single>) -> Single {
    crate::single::sized((history.len() - 3) as nat)
}

/// Sample `k` writes back, counted from 1; none at all means the oldest.
pub open spec fn tap(history: Seq<Single>, k: int) -> Single {
    if k == 0 {
        history.last()
    } else {
        history[k - 1]
    }
}

/// The sample `delay` writes back, brought into the line and taken from between its two neighbours.
pub open spec fn delayed(f: Sums, history: Seq<Single>, delay: Single) -> Single {
    let d = delay.within(Single::of(ONE), longest_delay(history));
    let k: int = if d.whole() < history.len() - 3 {
        d.whole() as int
    } else {
        history.len() - 3
    };
    crate::math::between(
        f,
        tap(history, k),
        tap(history, k + 1),
        f(Prim::Sub, d, crate::single::sized(k as nat)),
    )
}

/// A history after one more sample; what is no number is kept as silence.
pub open spec fn remembered(history: Seq<Single>, x: Single) -> Seq<Single> {
    seq![if x.finite() { x } else { Single::of(ZERO) }] + history.drop_last()
}

/// Silence.
pub open spec fn silence(n: nat) -> Seq<Single> {
    Seq::new(n, |k: int| Single::of(ZERO))
}

/// Fractional delay line with linear interpolation. Allocates once at construction.
#[derive(Clone, Debug)]
pub struct DelayLine {
    pub buf: Vec<Single>,
    pub pos: usize,
}

impl DelayLine {
    /// At least eight samples, at most [`LONGEST_LINE`] and eight, with the next one to write
    /// inside.
    pub open spec fn wf(self) -> bool {
        8 <= self.buf@.len() <= LONGEST_LINE + 8 && self.pos < self.buf@.len()
    }

    /// What was written, latest first.
    pub open spec fn history(self) -> Seq<Single> {
        Seq::new(
            self.buf@.len(),
            |k: int| self.buf@[if k < self.pos { self.pos - 1 - k } else { self.pos + self.buf@.len() - 1 - k }],
        )
    }

    /// The longest delay that can be read.
    pub open spec fn reach(self) -> int {
        self.buf@.len() - 3
    }

    /// Silence of `max_samples` samples, at least four, and four more.
    pub fn new(max_samples: usize) -> (r: DelayLine)
        requires
            max_samples <= LONGEST_LINE,
        ensures
            r.wf(),
            r.reach() == (if max_samples < 4 { 4 } else { max_samples as int }) + 1,
            r.history() == silence(r.buf@.len()),
    {
        let kept: usize = if max_samples < 4 { 4 } else { max_samples };
        let buf: Vec<Single> = vec![Single::of(ZERO); kept + 4];
        DelayLine { buf, pos: 0 }
    }

    pub fn max_delay(&self) -> (r: Single)
        requires
            self.wf(),
        ensures
            r == longest_delay(self.history()),
    {
        from_size(self.buf.len() - 3)
    }

    /// Read `delay` samples back (clamped to the line length).
    pub fn read<A: Fn(Prim, Single, Single) -> Single>(&self, a: &A, delay: Single) -> (r: Single)
        requires
            self.wf(),
            total(*a),
        ensures
            forall|f: Sums| #[trigger] meant(*a, f) ==> r == delayed(f, self.history(), delay),
    {
        let len = self.buf.len();
        let last = from_size(len - 3);
        let d = delay.clamp(Single::of(ONE), last);
        let whole: u64 = d.trunc();
        let di: usize = if whole < (len - 3) as u64 { whole as usize } else { len - 3 };
        let frac = a(Prim::Sub, d, from_size(di));
        let i0 = (self.pos + len - di) % len;
        let i1 = (i0 + len - 1) % len;
        proof {
            self.lemma_taps(di as int, i0 as int, i1 as int);
        }
        a(Prim::Add, self.buf[i0], a(Prim::Mul, a(Prim::Sub, self.buf[i1], self.buf[i0]), frac))
    }

    /// Where the ring keeps two neighbouring samples.
    proof fn lemma_taps(&self, k: int, i0: int, i1: int)
        requires
            self.wf(),
            0 <= k <= self.reach(),
            i0 == (self.pos + self.buf@.len() - k) % self.buf@.len() as int,
            i1 == (i0 + self.buf@.len() - 1) % self.buf@.len() as int,
        ensures
            0 <= i0 < self.buf@.len(),
            0 <= i1 < self.buf@.len(),
            self.buf@[i0] == tap(self.history(), k),
            self.buf@[i1] == tap(self.history(), k + 1),
    {
        let (p, n) = (self.pos as int, self.buf@.len() as int);
        if k <= p {
            assert((p + n - k) % n == p - k) by (nonlinear_arith)
                requires
                    0 <= k <= p < n,
            ;
        } else {
            assert((p + n - k) % n == p + n - k) by (nonlinear_arith)
                requires
                    0 <= p < k <= n,
            ;
        }
        if i0 >= 1 {
            assert((i0 + n - 1) % n == i0 - 1) by (nonlinear_arith)
                requires
                    1 <= i0 < n,
            ;
        } else {
            assert((i0 + n - 1) % n == n - 1) by (nonlinear_arith)
                requires
                    i0 == 0,
                    n > 0,
            ;
        }
    }

    /// Append a sample; what is no number is kept as silence.
    pub fn write(&mut self, x: Single)
        requires
            old(self).wf(),
        ensures
            final(self).wf(),
            final(self).buf@.len() == old(self).buf@.len(),
            final(self).history() == remembered(old(self).history(), x),
    {
        let kept = if x.is_finite() { x } else { Single::of(ZERO) };
        self.buf.set(self.pos, kept);
        self.pos = self.pos + 1;
        if self.pos == self.buf.len() {
            self.pos = 0;
        }
    }

    pub fn clear(&mut self)
        requires
            old(self).wf(),
        ensures
            final(self).wf(),
            final(self).buf@.len() == old(self).buf@.len(),
            final(self).history() == silence(old(self).buf@.len()),
    {
        let mut i: usize = 0;
        while i < self.buf.len()
            invariant
                i <= self.buf@.len() == old(self).buf@.len(),
                self.pos == old(self).pos,
                forall|k: int| 0 <= k < i ==> self.buf@[k] == Single::of(ZERO),
            decreases self.buf@.len() - i,
        {
            self.buf.set(i, Single::of(ZERO));
            i = i + 1;
        }
    }
}

/// What a delay line gives back of a write: the sample written last is one write back, and every
/// further write moves it one step on, up to the length of the line.
pub proof fn lemma_line_keeps_writes(history: Seq<Single>, x: Single, k: int)
    requires
        history.len() > 0,
        x.finite(),
        1 <= k < history.len(),
    ensures
        tap(remembered(history, x), 1) == x,
        tap(remembered(history, x), k + 1) == tap(history, k),
        remembered(history, x).len() == history.len(),
{
}

/// Phase accumulator in [0, 1). Returns true on wrap.
#[derive(Clone, Copy, Debug, PartialEq, Eq, Structural)]
pub struct Phasor {
    pub phase: Single,
}

impl Default for Phasor {
    fn default() -> (r: Phasor)
        ensures
            r == Phasor::start(),
    {
        Phasor { phase: Single::of(ZERO) }
    }
}

impl Phasor {
    pub open spec fn start() -> Phasor {
        Phasor { phase: Single::of(ZERO) }
    }

    /// The next step completes a cycle.
    pub open spec fn wraps(self, f: Sums, inc: Single) -> bool {
        Single::of(ONE).at_most(f(Prim::Add, self.phase, inc))
    }

    /// A step later: the fraction of the sum, kept in [0, 1).
    pub open spec fn moved(self, f: Sums, inc: Single) -> Phasor {
        let moved = f(Prim::Add, self.phase, inc);
        Phasor {
            phase: crate::math::cycled(
                if self.wraps(f, inc) || moved.below(Single::of(ZERO)) {
                    f(Prim::Sub, moved, f(Prim::Floor, moved, moved))
                } else {
                    moved
                },
            ),
        }
    }

    pub open spec fn sine(self, f: Sums) -> Single {
        let x = f(Prim::Mul, self.phase, Single::of(TAU));
        f(Prim::Sin, x, x)
    }

    pub fn tick<A: Fn(Prim, Single, Single) -> Single>(&mut self, a: &A, inc: Single) -> (r: bool)
        requires
            total(*a),
        ensures
            forall|f: Sums| #[trigger]
                meant(*a, f) ==> r == old(self).wraps(f, inc) && *final(self) == old(self).moved(f, inc),
            crate::math::in_cycle(final(self).phase),
    {
        let moved = a(Prim::Add, self.phase, inc);
        let wraps = Single::of(ONE).le(moved);
        if wraps || moved.lt(Single::of(ZERO)) {
            self.phase = cycle(a(Prim::Sub, moved, a(Prim::Floor, moved, moved)));
        } else {
            self.phase = cycle(moved);
        }
        wraps
    }

    pub fn sin<A: Fn(Prim, Single, Single) -> Single>(&self, a: &A) -> (r: Single)
        requires
            total(*a),
        ensures
            forall|f: Sums| #[trigger] meant(*a, f) ==> r == self.sine(f),
    {
        let x = a(Prim::Mul, self.phase, Single::of(TAU));
        a(Prim::Sin, x, x)
    }
}

} // verus!
