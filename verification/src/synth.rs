//! Polyphonic synthesizer: voice allocation, master effects, command handling.
use vstd::prelude::*;

use crate::arith::{meant, total, Prim, Sums};
use crate::effects::{same_outside, Effects, EffectsView};
use crate::math::limit;
use crate::patch::{ParamId, Patch};
use crate::single::{Single, HALF, ONE, TWO, ZERO};
use crate::voice::Voice;

verus! {

/// Pattern of -48.
pub const N48: u32 = 0xc240_0000;

/// Pattern of -9.21.
pub const N9_21: u32 = 0xc113_5c29;

/// Pattern of -1.
pub const N1: u32 = 0xbf80_0000;

/// Pattern of 0.0001.
pub const P0_0001: u32 = 0x38d1_b717;

/// Pattern of 0.25.
pub const P0_25: u32 = 0x3e80_0000;

/// Pattern of 48.
pub const P48: u32 = 0x4240_0000;

pub const MAX_VOICES: usize = 32;

/// Internal processing chunk; larger output buffers are processed in pieces of this size.
pub const MAX_BLOCK: usize = 256;

/// One interleaved stereo sample.
#[derive(Clone, Copy, Debug, PartialEq, Eq, Structural)]
pub struct StereoFrame {
    pub left: Single,
    pub right: Single,
}

impl Default for StereoFrame {
    fn default() -> (r: StereoFrame)
        ensures
            r == (StereoFrame { left: Single::of(ZERO), right: Single::of(ZERO) }),
    {
        StereoFrame { left: Single::of(ZERO), right: Single::of(ZERO) }
    }
}

/// Everything the game thread can ask the synth to do. `Copy` so it can travel through a
/// lock-free queue without allocation.
// `SetPatch` carries the whole patch by value on purpose: no heap, no sharing with the
// audio thread.
#[derive(Clone, Copy, Debug, PartialEq, Eq, Structural)]
pub enum Command {
    /// Start a note. `duration` > 0 auto-releases after that many seconds.
    NoteOn { note: Single, velocity: Single, duration: Single },
    NoteOff { note: Single },
    /// Play the patch's `base_note` for its `duration` (one-shot sound effect).
    Trigger,
    /// Release all held notes.
    AllNotesOff,
    /// Stop everything immediately (no release tails).
    Panic,
    SetPatch(Patch),
    SetParam(ParamId, Single),
    /// -1..1, scaled by `pitch/bend_range`.
    PitchBend(Single),
    /// Extra master gain multiplier 0..2 (independent of the patch).
    MasterGain(Single),
}

impl Command {
    /// The command starts a note.
    pub open spec fn starts_note(self) -> bool {
        self is NoteOn || self is Trigger
    }
}

/// A released voice that may be taken over by level.
pub open spec fn fading(v: Voice) -> bool {
    v.let_go() && !v.sound.amp_env.level.nan()
}

/// Voice `i` of the first `poly` is the one to play next: a free one first, then the quietest
/// released one, then the oldest.
pub open spec fn next_voice(voices: Seq<Voice>, poly: int, i: int) -> bool {
    &&& 0 <= i < poly
    &&& if exists|j: int| 0 <= j < poly && !(#[trigger] voices[j]).active {
        !voices[i].active && forall|j: int| 0 <= j < i ==> (#[trigger] voices[j]).active
    } else if exists|j: int| 0 <= j < poly && fading(#[trigger] voices[j]) {
        &&& fading(voices[i])
        &&& forall|j: int| 0 <= j < poly && fading(#[trigger] voices[j]) ==> if j < i {
            voices[i].sound.amp_env.level.below(voices[j].sound.amp_env.level)
        } else {
            !voices[j].sound.amp_env.level.below(voices[i].sound.amp_env.level)
        }
    } else if exists|j: int| 0 <= j < poly && !(#[trigger] voices[j]).let_go() {
        &&& !voices[i].let_go()
        &&& forall|j: int| 0 <= j < poly && !(#[trigger] voices[j]).let_go() ==> if j < i {
            voices[i].age < voices[j].age
        } else {
            voices[i].age <= voices[j].age
        }
    } else {
        i == 0
    }
}

/// There is one voice to play next.
pub proof fn lemma_one_next_voice(voices: Seq<Voice>, poly: int, i: int, j: int)
    requires
        next_voice(voices, poly, i),
        next_voice(voices, poly, j),
    ensures
        i == j,
{
    assert(voices[i] == voices[i] && voices[j] == voices[j]);
}

/// A note never takes a sounding voice while one is free, and takes a held one only when none is
/// fading.
pub proof fn lemma_stealing_is_last(voices: Seq<Voice>, poly: int, i: int, j: int)
    requires
        next_voice(voices, poly, i),
        0 <= j < poly,
    ensures
        !voices[j].active ==> !voices[i].active,
        voices[i].active && fading(voices[j]) ==> fading(voices[i]),
{
}

/// The voice to play next.
pub open spec fn slot(voices: Seq<Voice>, poly: int) -> int {
    choose|i: int| next_voice(voices, poly, i)
}

/// Voices a patch may use.
pub open spec fn voice_limit(p: Patch) -> int {
    if p.polyphony < 1 {
        1
    } else if p.polyphony > MAX_VOICES {
        MAX_VOICES as int
    } else {
        p.polyphony as int
    }
}

/// One sample through the master gain and limiter; the state is the peak meter.
pub open spec fn master_tick(f: Sums, gain: Single, decay: Single, s: Single, v: Single) -> (Single, Single) {
    let y = crate::math::limited(f, f(Prim::Mul, v, gain));
    (f(Prim::Mul, s, decay).larger(y.absolute()), y)
}

/// The same for a run of samples.
pub open spec fn master_run(f: Sums, gain: Single, decay: Single, s: Single, x: Seq<Single>) -> (Single, Seq<Single>)
    decreases x.len(),
{
    if x.len() == 0 {
        (s, seq![])
    } else {
        let (t, out) = master_run(f, gain, decay, s, x.drop_last());
        let (u, y) = master_tick(f, gain, decay, t, x.last());
        (u, out.push(y))
    }
}

fn master_sample<F: Fn(Prim, Single, Single) -> Single>(fpu: &F, gain: Single, decay: Single, s: &mut Single, v: Single) -> (y: Single)
    requires
        total(*fpu),
    ensures
        forall|f: Sums| #[trigger] meant(*fpu, f) ==> (*final(s), y) == master_tick(f, gain, decay, *old(s), v),
{
    let y = limit(fpu, fpu(Prim::Mul, v, gain));
    *s = fpu(Prim::Mul, *s, decay).max(y.abs());
    y
}

fn master_span<F: Fn(Prim, Single, Single) -> Single>(fpu: &F, gain: Single, decay: Single, s: &mut Single, buf: &mut Vec<Single>, start: usize, end: usize)
    requires
        total(*fpu),
        start <= end <= old(buf)@.len(),
    ensures
        final(buf)@.len() == old(buf)@.len(),
        same_outside(old(buf)@, final(buf)@, start as int, end as int),
        forall|f: Sums| #[trigger] meant(*fpu, f) ==> (*final(s), final(buf)@.subrange(start as int, end as int)) == master_run(
            f, gain, decay,
            *old(s),
            old(buf)@.subrange(start as int, end as int),
        ),
{
    let mut i: usize = start;
    let ghost before = buf@;
    assert(before.subrange(start as int, start as int) =~= seq![]);
    while i < end
        invariant
            start <= i <= end <= buf@.len(),
            buf@.len() == before.len(),
            before == old(buf)@,
            same_outside(before, buf@, start as int, i as int),
            total(*fpu),
            forall|f: Sums| #[trigger] meant(*fpu, f) ==> (*s, buf@.subrange(start as int, i as int)) == master_run(
                f, gain, decay,
                *old(s),
                before.subrange(start as int, i as int),
            ),
        decreases end - i,
    {
        let ghost last = buf@;
        let y = master_sample(fpu, gain, decay, s, buf[i]);
        buf.set(i, y);
        i = i + 1;
        assert(before.subrange(start as int, i as int).drop_last() =~= before.subrange(start as int, i - 1));
        assert(buf@.subrange(start as int, i as int) =~= last.subrange(start as int, i - 1).push(y));
    }
}

/// Samples with the first `k` voices added, and the voices after that.
pub open spec fn sung(f: Sums, p: Patch, sample_rate: Single, bend: Single, voices: Seq<Voice>, x: Seq<Single>, k: nat) -> (
    Seq<Voice>,
    Seq<Single>,
)
    decreases k,
{
    if k == 0 {
        (voices, x)
    } else {
        let (vs, y) = sung(f, p, sample_rate, bend, voices, x, (k - 1) as nat);
        let (v, z) = vs[k - 1].played(f, p, sample_rate, bend, y);
        (vs.update(k - 1, v), z)
    }
}

/// A synth as a value.
#[verifier::ext_equal]
pub struct SynthView {
    pub sample_rate: Single,
    pub patch: Patch,
    pub voices: Seq<Voice>,
    pub counter: u64,
    pub pitch_bend: Single,
    pub transpose: Single,
    pub master_gain: Single,
    pub fx: EffectsView,
    pub peak: Single,
    pub peak_decay: Single,
}

pub open spec fn zeros(n: nat) -> Seq<Single> {
    Seq::new(n, |j: int| Single::of(ZERO))
}

impl SynthView {
    /// A silent synth with the default patch.
    #[verifier::opaque]
    pub open spec fn started(f: Sums, sample_rate: Single) -> SynthView {
        SynthView {
            sample_rate,
            patch: Patch::plain(),
            voices: Seq::new(MAX_VOICES as nat, |i: int| Voice::idle(0x1000_0001u32.wrapping_mul((i + 1) as u32))),
            counter: 0,
            pitch_bend: Single::of(ZERO),
            transpose: Single::of(ZERO),
            master_gain: Single::of(ONE),
            fx: EffectsView::started(f, sample_rate),
            peak: Single::of(ZERO),
            peak_decay: Single::of(ONE),
        }.retuned(f, sample_rate)
    }

    /// At another sample rate, silent.
    pub open spec fn retuned(self, f: Sums, sample_rate: Single) -> SynthView {
        SynthView {
            sample_rate,
            fx: if Single::of(HALF).below(f(Prim::Sub, self.fx.sample_rate, sample_rate).absolute()) {
                EffectsView::started(f, sample_rate)
            } else {
                self.fx
            },
            peak_decay: f(Prim::Exp, f(Prim::Div, Single::of(N9_21), f(Prim::Mul, Single::of(P0_25), sample_rate)), Single::of(ZERO)),
            ..self
        }.panicked()
    }

    /// Everything stopped.
    pub open spec fn panicked(self) -> SynthView {
        SynthView {
            voices: self.voices.map_values(|v: Voice| v.killed()),
            fx: self.fx.cleared(),
            peak: Single::of(ZERO),
            ..self
        }
    }

    /// With a note started on the next voice.
    #[verifier::opaque]
    pub open spec fn noted(self, f: Sums, note: Single, velocity: Single, duration: Single) -> SynthView {
        let poly = voice_limit(self.patch);
        let i = slot(self.voices, poly);
        let age = (self.counter + 1) as u64;
        let v = self.voices[i].started(f, self.patch, self.sample_rate, note, velocity, duration, age, poly == 1);
        SynthView { counter: age, voices: self.voices.update(i, v), ..self }
    }

    /// With the patch's base note started.
    pub open spec fn triggered(self, f: Sums) -> SynthView {
        self.noted(f, self.patch.base_note, Single::of(ONE), self.patch.duration)
    }

    /// With the held voices of a note released.
    pub open spec fn unnoted(self, note: Single) -> SynthView {
        let key = note.nearest_int();
        SynthView {
            voices: self.voices.map_values(|v: Voice| if v.active && v.key == key && !v.let_go() { v.released() } else { v }),
            ..self
        }
    }

    /// With every sounding voice released.
    pub open spec fn hushed(self) -> SynthView {
        SynthView {
            voices: self.voices.map_values(|v: Voice| if v.active { v.released() } else { v }),
            ..self
        }
    }

    /// With a parameter of the patch set.
    pub open spec fn with_param(self, id: ParamId, v: Single) -> SynthView {
        if v.finite() {
            SynthView { patch: self.patch.with(id, v), ..self }
        } else {
            self
        }
    }

    /// After a command.
    #[verifier::opaque]
    pub open spec fn applied(self, f: Sums, cmd: Command) -> SynthView {
        match cmd {
            Command::NoteOn { note, velocity, duration } => self.noted(f, note, velocity, duration),
            Command::NoteOff { note } => self.unnoted(note),
            Command::Trigger => self.triggered(f),
            Command::AllNotesOff => self.hushed(),
            Command::Panic => self.panicked(),
            Command::SetPatch(p) => SynthView { patch: p, ..self },
            Command::SetParam(id, v) => self.with_param(id, v),
            Command::PitchBend(b) => SynthView { pitch_bend: b.within(Single::of(N1), Single::of(ONE)), ..self },
            Command::MasterGain(m) => SynthView { master_gain: m.within(Single::of(ZERO), Single::of(TWO)), ..self },
        }
    }

    /// No voice sounds and the effect tail has faded out.
    pub open spec fn silent(self) -> bool {
        self.peak.below(Single::of(P0_0001)) && forall|i: int| 0 <= i < self.voices.len() ==> !(#[trigger] self.voices[i]).active
    }

    /// The synth after a chunk, and the chunk.
    #[verifier::opaque]
    pub open spec fn chunk(self, f: Sums, n: nat) -> (SynthView, Seq<Single>) {
        let bend = f(Prim::Add, f(Prim::Mul, self.pitch_bend, self.patch.pitch.bend_range), self.transpose);
        let (voices, x) = sung(f, self.patch, self.sample_rate, bend, self.voices, zeros(n), self.voices.len());
        let (fx, y) = self.fx.processed(f, self.patch.fx, x);
        let (peak, z) = master_run(f, f(Prim::Mul, self.patch.gain, self.master_gain), self.peak_decay, self.peak, y);
        (SynthView {
            voices,
            fx,
            peak: if peak.finite() {
                peak
            } else {
                Single::of(ZERO)
            },
            ..self
        }, z)
    }

    /// The synth after `n` samples, and the samples.
    pub open spec fn rendered(self, f: Sums, n: nat) -> (SynthView, Seq<Single>)
        decreases n,
    {
        if n == 0 {
            (self, seq![])
        } else {
            let m: nat = if n < MAX_BLOCK { n } else { MAX_BLOCK as nat };
            let (s, head) = self.chunk(f, m);
            let (t, tail) = s.rendered(f, (n - m) as nat);
            (t, head + tail)
        }
    }
}

/// Rendering a number of whole chunks and then more gives what rendering at once gives.
pub proof fn lemma_render_in_parts(s: SynthView, f: Sums, chunks: nat, n: nat)
    ensures
        s.rendered(f, chunks * (MAX_BLOCK as nat) + n) == ({
            let (t, head) = s.rendered(f, chunks * (MAX_BLOCK as nat));
            let (u, tail) = t.rendered(f, n);
            (u, head + tail)
        }),
    decreases chunks,
{
    let total = chunks * (MAX_BLOCK as nat) + n;
    if chunks == 0 {
        assert(s.rendered(f, 0).1 + s.rendered(f, n).1 =~= s.rendered(f, n).1);
    } else {
        let fewer = (chunks - 1) as nat;
        assert(chunks * (MAX_BLOCK as nat) == fewer * (MAX_BLOCK as nat) + MAX_BLOCK) by (nonlinear_arith)
            requires
                chunks == fewer + 1,
        ;
        let (a, first) = s.chunk(f, MAX_BLOCK as nat);
        lemma_render_in_parts(a, f, fewer, n);
        let (t, head) = a.rendered(f, fewer * (MAX_BLOCK as nat));
        let (u, tail) = t.rendered(f, n);
        assert(s.rendered(f, total) == (a.rendered(f, (total - MAX_BLOCK) as nat).0, first + a.rendered(f, (total - MAX_BLOCK) as nat).1));
        assert(first + (head + tail) =~= (first + head) + tail);
    }
}

/// A panic leaves the synth silent, whatever it played.
pub proof fn lemma_panic_silences(s: SynthView)
    ensures
        s.panicked().silent(),
{
}

/// Releasing every note leaves no sounding voice held.
pub proof fn lemma_hush_releases(s: SynthView, i: int)
    requires
        0 <= i < s.voices.len(),
        s.voices[i].active,
    ensures
        s.hushed().voices[i].let_go(),
{
}

/// A note-off leaves no sounding voice of its key held, and no other voice changed.
pub proof fn lemma_note_off_releases_its_key(s: SynthView, note: Single, i: int)
    requires
        0 <= i < s.voices.len(),
    ensures
        s.voices[i].active && s.voices[i].key == note.nearest_int() ==> s.unnoted(note).voices[i].let_go(),
        !(s.voices[i].active && s.voices[i].key == note.nearest_int()) ==> s.unnoted(note).voices[i] == s.voices[i],
{
}

pub struct Synth {
    pub sample_rate: Single,
    pub patch: Patch,
    pub voices: Vec<Voice>,
    pub counter: u64,
    pub pitch_bend: Single,
    pub transpose: Single,
    pub master_gain: Single,
    pub fx: Effects,
    pub peak: Single,
    pub peak_decay: Single,
    /// Room for one chunk.
    pub scratch: Vec<Single>,
}

impl View for Synth {
    type V = SynthView;

    open spec fn view(&self) -> SynthView {
        SynthView {
            sample_rate: self.sample_rate,
            patch: self.patch,
            voices: self.voices@,
            counter: self.counter,
            pitch_bend: self.pitch_bend,
            transpose: self.transpose,
            master_gain: self.master_gain,
            fx: self.fx@,
            peak: self.peak,
            peak_decay: self.peak_decay,
        }
    }
}

fn clear_span(buf: &mut Vec<Single>, start: usize, end: usize)
    requires
        start <= end <= old(buf)@.len(),
    ensures
        same_outside(old(buf)@, final(buf)@, start as int, end as int),
        final(buf)@.subrange(start as int, end as int) == zeros((end - start) as nat),
{
    let mut i: usize = start;
    while i < end
        invariant
            start <= i <= end <= buf@.len(),
            same_outside(old(buf)@, buf@, start as int, i as int),
            forall|j: int| start <= j < i ==> buf@[j] == Single::of(ZERO),
        decreases end - i,
    {
        buf.set(i, Single::of(ZERO));
        i = i + 1;
    }
    assert(buf@.subrange(start as int, end as int) =~= zeros((end - start) as nat));
}

impl Synth {
    pub open spec fn wf(self) -> bool {
        self.voices@.len() == MAX_VOICES && self.scratch@.len() == MAX_BLOCK && self.fx.wf()
    }

    /// Allocates the effect buffers; do this on the game thread, not in the audio callback.
    pub fn new<F: Fn(Prim, Single, Single) -> Single>(fpu: &F, sample_rate: Single) -> (r: Synth)
        requires
            total(*fpu),
        ensures
            r.wf(),
            r@.counter == 0,
            r@.sample_rate == sample_rate,
            r@.silent(),
            forall|f: Sums| #[trigger] meant(*fpu, f) ==> r@ == SynthView::started(f, sample_rate),
    {
        proof {
            reveal(SynthView::started);
        }
        let mut voices: Vec<Voice> = Vec::new();
        while voices.len() < MAX_VOICES
            invariant
                voices@.len() <= MAX_VOICES,
                forall|i: int| 0 <= i < voices@.len() ==> #[trigger] voices@[i] == Voice::idle(0x1000_0001u32.wrapping_mul((i + 1) as u32)),
            decreases MAX_VOICES - voices@.len(),
        {
            let n: u32 = voices.len() as u32 + 1;
            voices.push(Voice::new(0x1000_0001u32.wrapping_mul(n)));
        }
        let mut scratch: Vec<Single> = Vec::new();
        while scratch.len() < MAX_BLOCK
            invariant
                scratch@.len() <= MAX_BLOCK,
            decreases MAX_BLOCK - scratch@.len(),
        {
            scratch.push(Single::of(ZERO));
        }
        let mut s = Synth {
            sample_rate,
            patch: Patch::default(),
            voices,
            counter: 0,
            pitch_bend: Single::of(ZERO),
            transpose: Single::of(ZERO),
            master_gain: Single::of(ONE),
            fx: Effects::new(fpu, sample_rate),
            peak: Single::of(ZERO),
            peak_decay: Single::of(ONE),
            scratch,
        };
        assert(s@.voices =~= Seq::new(MAX_VOICES as nat, |i: int| Voice::idle(0x1000_0001u32.wrapping_mul((i + 1) as u32))));
        s.set_sample_rate(fpu, sample_rate);
        s
    }

    pub fn with_patch<F: Fn(Prim, Single, Single) -> Single>(fpu: &F, sample_rate: Single, patch: Patch) -> (r: Synth)
        requires
            total(*fpu),
        ensures
            r.wf(),
            r@.counter == 0,
            r@.sample_rate == sample_rate,
            r@.silent(),
            forall|f: Sums| #[trigger] meant(*fpu, f) ==> r@ == (SynthView { patch, ..SynthView::started(f, sample_rate) }),
    {
        let mut s = Synth::new(fpu, sample_rate);
        s.patch = patch;
        s
    }

    pub fn sample_rate(&self) -> (r: Single)
        ensures
            r == self@.sample_rate,
    {
        self.sample_rate
    }

    /// Changing the rate reallocates the delay line if needed; call from the game thread.
    pub fn set_sample_rate<F: Fn(Prim, Single, Single) -> Single>(&mut self, fpu: &F, sample_rate: Single)
        requires
            total(*fpu),
            old(self).wf(),
        ensures
            final(self).wf(),
            final(self)@.silent(),
            final(self)@.sample_rate == sample_rate,
            final(self)@.counter == old(self)@.counter,
            final(self)@.patch == old(self)@.patch,
            forall|f: Sums| #[trigger] meant(*fpu, f) ==> final(self)@ == old(self)@.retuned(f, sample_rate),
    {
        self.sample_rate = sample_rate;
        let current = self.fx.sample_rate();
        if Single::of(HALF).lt(fpu(Prim::Sub, current, sample_rate).abs()) {
            self.fx = Effects::new(fpu, sample_rate);
        }
        // Peak meter falls from 1.0 to silence (-80 dB) in a quarter second.
        self.peak_decay = fpu(Prim::Exp, fpu(Prim::Div, Single::of(N9_21), fpu(Prim::Mul, Single::of(P0_25), sample_rate)), Single::of(ZERO));
        self.panic();
    }

    pub fn patch(&self) -> (r: &Patch)
        ensures
            *r == self@.patch,
    {
        &self.patch
    }

    pub fn patch_mut(&mut self) -> (r: &mut Patch)
        ensures
            *r == old(self).patch,
            *final(self) == (Synth { patch: *final(r), ..*old(self) }),
    {
        &mut self.patch
    }

    pub fn set_patch(&mut self, patch: Patch)
        requires
            old(self).wf(),
        ensures
            final(self).wf(),
            final(self)@ == (SynthView { patch, ..old(self)@ }),
    {
        self.patch = patch;
    }

    pub fn set_param(&mut self, id: ParamId, value: Single)
        requires
            old(self).wf(),
        ensures
            final(self).wf(),
            final(self)@ == old(self)@.with_param(id, value),
    {
        self.patch.set(id, value);
    }

    pub fn get_param(&self, id: ParamId) -> (r: Single)
        ensures
            r == self@.patch.value(id),
    {
        self.patch.get(id)
    }

    pub fn set_pitch_bend(&mut self, bend: Single)
        requires
            old(self).wf(),
        ensures
            final(self).wf(),
            final(self)@ == (SynthView { pitch_bend: bend.within(Single::of(N1), Single::of(ONE)), ..old(self)@ }),
    {
        self.pitch_bend = bend.clamp(Single::of(N1), Single::of(ONE));
    }

    /// Global transposition in semitones applied to every voice (e.g. host pitch scaling).
    pub fn set_transpose(&mut self, semitones: Single)
        requires
            old(self).wf(),
        ensures
            final(self).wf(),
            final(self)@ == (SynthView {
                transpose: if semitones.finite() {
                    semitones.within(Single::of(N48), Single::of(P48))
                } else {
                    Single::of(ZERO)
                },
                ..old(self)@
            }),
    {
        self.transpose = if semitones.is_finite() { semitones.clamp(Single::of(N48), Single::of(P48)) } else { Single::of(ZERO) };
    }

    pub fn set_master_gain(&mut self, gain: Single)
        requires
            old(self).wf(),
        ensures
            final(self).wf(),
            final(self)@ == (SynthView { master_gain: gain.within(Single::of(ZERO), Single::of(TWO)), ..old(self)@ }),
    {
        self.master_gain = gain.clamp(Single::of(ZERO), Single::of(TWO));
    }

    pub fn active_voices(&self) -> (r: usize)
        ensures
            r == self@.voices.filter(|v: Voice| v.active).len(),
    {
        let mut n: usize = 0;
        let mut i: usize = 0;
        let ghost sounding = |v: Voice| v.active;
        proof {
            reveal(Seq::filter);
            assert(self.voices@.take(0) =~= seq![]);
        }
        while i < self.voices.len()
            invariant
                n <= i <= self.voices@.len(),
                sounding == (|v: Voice| v.active),
                n == self.voices@.take(i as int).filter(sounding).len(),
            decreases self.voices@.len() - i,
        {
            proof {
                reveal(Seq::filter);
                assert(self.voices@.take(i + 1).drop_last() =~= self.voices@.take(i as int));
            }
            if self.voices[i].is_active() {
                n = n + 1;
            }
            i = i + 1;
        }
        assert(self.voices@.take(i as int) =~= self.voices@);
        n
    }

    /// True when no voice is sounding and the effect tail has faded out.
    pub fn is_silent(&self) -> (r: bool)
        ensures
            r == self@.silent(),
    {
        if !self.peak.lt(Single::of(P0_0001)) {
            return false;
        }
        let mut i: usize = 0;
        while i < self.voices.len()
            invariant
                i <= self.voices@.len(),
                forall|j: int| 0 <= j < i ==> !(#[trigger] self.voices@[j]).active,
            decreases self.voices@.len() - i,
        {
            if self.voices[i].is_active() {
                assert(self@.voices[i as int].active);
                return false;
            }
            i = i + 1;
        }
        true
    }

    /// Recent output peak level (0..1), decays over ~250 ms. Useful for meters.
    pub fn peak(&self) -> (r: Single)
        ensures
            r == self@.peak,
    {
        self.peak
    }

    pub fn apply<F: Fn(Prim, Single, Single) -> Single>(&mut self, fpu: &F, cmd: Command)
        requires
            total(*fpu),
            old(self).wf(),
            cmd.starts_note() ==> old(self).counter < u64::MAX,
        ensures
            final(self).wf(),
            final(self).counter == if cmd.starts_note() {
                old(self).counter + 1
            } else {
                old(self).counter as int
            },
            forall|f: Sums| #[trigger] meant(*fpu, f) ==> final(self)@ == old(self)@.applied(f, cmd),
    {
        proof {
            reveal(SynthView::applied);
        }
        match cmd {
            Command::NoteOn { note, velocity, duration } => self.play(fpu, note, velocity, duration),
            Command::NoteOff { note } => self.note_off(note),
            Command::Trigger => self.trigger(fpu),
            Command::AllNotesOff => self.all_notes_off(),
            Command::Panic => self.panic(),
            Command::SetPatch(p) => self.set_patch(p),
            Command::SetParam(id, v) => self.set_param(id, v),
            Command::PitchBend(b) => self.set_pitch_bend(b),
            Command::MasterGain(m) => self.set_master_gain(m),
        }
    }

    pub fn note_on<F: Fn(Prim, Single, Single) -> Single>(&mut self, fpu: &F, note: Single, velocity: Single)
        requires
            total(*fpu),
            old(self).wf(),
            old(self).counter < u64::MAX,
        ensures
            final(self).wf(),
            forall|f: Sums| #[trigger] meant(*fpu, f) ==> final(self)@ == old(self)@.noted(f, note, velocity, Single::of(ZERO)),
    {
        self.play(fpu, note, velocity, Single::of(ZERO));
    }

    /// Start a note that auto-releases after `duration` seconds (0 = hold until note-off).
    pub fn play<F: Fn(Prim, Single, Single) -> Single>(&mut self, fpu: &F, note: Single, velocity: Single, duration: Single)
        requires
            total(*fpu),
            old(self).wf(),
            old(self).counter < u64::MAX,
        ensures
            final(self).wf(),
            final(self).counter == old(self).counter + 1,
            final(self).sample_rate == old(self).sample_rate,
            forall|f: Sums| #[trigger] meant(*fpu, f) ==> final(self)@ == old(self)@.noted(f, note, velocity, duration),
    {
        proof {
            reveal(SynthView::noted);
        }
        self.counter = self.counter + 1;
        let poly: usize = if self.patch.polyphony < 1 {
            1
        } else if self.patch.polyphony as usize > MAX_VOICES {
            MAX_VOICES
        } else {
            self.patch.polyphony as usize
        };
        let legato = poly == 1;
        let idx = self.allocate(poly);
        proof {
            lemma_one_next_voice(self.voices@, poly as int, idx as int, slot(self.voices@, poly as int));
        }
        let (patch, sr, age) = (self.patch, self.sample_rate, self.counter);
        let mut voice = self.voices[idx];
        voice.note_on(fpu, &patch, sr, note, velocity, duration, age, legato);
        self.voices.set(idx, voice);
    }

    /// Play the patch's base note for its configured duration.
    pub fn trigger<F: Fn(Prim, Single, Single) -> Single>(&mut self, fpu: &F)
        requires
            total(*fpu),
            old(self).wf(),
            old(self).counter < u64::MAX,
        ensures
            final(self).wf(),
            final(self).counter == old(self).counter + 1,
            final(self).sample_rate == old(self).sample_rate,
            forall|f: Sums| #[trigger] meant(*fpu, f) ==> final(self)@ == old(self)@.triggered(f),
    {
        let (note, duration) = (self.patch.base_note, self.patch.duration);
        self.play(fpu, note, Single::of(ONE), duration);
    }

    pub fn note_off(&mut self, note: Single)
        requires
            old(self).wf(),
        ensures
            final(self).wf(),
            final(self)@ == old(self)@.unnoted(note),
    {
        let key = note.round();
        let mut i: usize = 0;
        let ghost voices = self.voices@;
        while i < self.voices.len()
            invariant
                i <= self.voices@.len() == voices.len(),
                voices == old(self).voices@,
                old(self).wf(),
                key == note.nearest_int(),
                self@ == (SynthView { voices: self.voices@, ..old(self)@ }),
                self.wf(),
                forall|j: int| i <= j < voices.len() ==> self.voices@[j] == voices[j],
                forall|j: int| 0 <= j < i ==> #[trigger] self.voices@[j] == old(self)@.unnoted(note).voices[j],
            decreases self.voices@.len() - i,
        {
            let mut v = self.voices[i];
            if v.is_active() && v.key() == key && !v.is_released() {
                v.release();
                self.voices.set(i, v);
            }
            i = i + 1;
        }
        assert(self.voices@ =~= old(self)@.unnoted(note).voices);
    }

    pub fn all_notes_off(&mut self)
        requires
            old(self).wf(),
        ensures
            final(self).wf(),
            final(self)@ == old(self)@.hushed(),
    {
        let mut i: usize = 0;
        let ghost voices = self.voices@;
        while i < self.voices.len()
            invariant
                i <= self.voices@.len() == voices.len(),
                voices == old(self).voices@,
                old(self).wf(),
                self@ == (SynthView { voices: self.voices@, ..old(self)@ }),
                self.wf(),
                forall|j: int| i <= j < voices.len() ==> self.voices@[j] == voices[j],
                forall|j: int| 0 <= j < i ==> #[trigger] self.voices@[j] == old(self)@.hushed().voices[j],
            decreases self.voices@.len() - i,
        {
            let mut v = self.voices[i];
            if v.is_active() {
                v.release();
                self.voices.set(i, v);
            }
            i = i + 1;
        }
        assert(self.voices@ =~= old(self)@.hushed().voices);
    }

    pub fn panic(&mut self)
        requires
            old(self).wf(),
        ensures
            final(self).wf(),
            final(self)@.silent(),
            final(self)@ == old(self)@.panicked(),
    {
        let mut i: usize = 0;
        let ghost voices = self.voices@;
        while i < self.voices.len()
            invariant
                i <= self.voices@.len() == voices.len(),
                voices == old(self).voices@,
                old(self).wf(),
                self@ == (SynthView { voices: self.voices@, ..old(self)@ }),
                self.wf(),
                forall|j: int| i <= j < voices.len() ==> self.voices@[j] == voices[j],
                forall|j: int| 0 <= j < i ==> #[trigger] self.voices@[j] == old(self)@.panicked().voices[j],
            decreases self.voices@.len() - i,
        {
            let mut v = self.voices[i];
            v.kill();
            self.voices.set(i, v);
            i = i + 1;
        }
        assert(self.voices@ =~= old(self)@.panicked().voices);
        self.fx.reset();
        self.peak = Single::of(ZERO);
        proof {
            lemma_panic_silences(old(self)@);
        }
    }

    /// Pick a voice index within the first `poly` slots: free first, then the quietest
    /// released voice, then the oldest.
    fn allocate(&self, poly: usize) -> (r: usize)
        requires
            1 <= poly <= self.voices@.len(),
        ensures
            next_voice(self.voices@, poly as int, r as int),
    {
        let mut i: usize = 0;
        while i < poly
            invariant
                i <= poly <= self.voices@.len(),
                forall|j: int| 0 <= j < i ==> (#[trigger] self.voices@[j]).active,
            decreases poly - i,
        {
            if !self.voices[i].is_active() {
                return i;
            }
            i = i + 1;
        }
        let mut quietest: Option<usize> = None;
        let mut oldest: Option<usize> = None;
        i = 0;
        while i < poly
            invariant
                i <= poly <= self.voices@.len(),
                match quietest {
                    Some(q) => {
                        &&& q < i
                        &&& fading(self.voices@[q as int])
                        &&& forall|j: int| 0 <= j < i && fading(#[trigger] self.voices@[j]) ==> if j < q {
                            self.voices@[q as int].sound.amp_env.level.below(self.voices@[j].sound.amp_env.level)
                        } else {
                            !self.voices@[j].sound.amp_env.level.below(self.voices@[q as int].sound.amp_env.level)
                        }
                    },
                    None => forall|j: int| 0 <= j < i ==> !fading(#[trigger] self.voices@[j]),
                },
                match oldest {
                    Some(q) => {
                        &&& q < i
                        &&& !self.voices@[q as int].let_go()
                        &&& forall|j: int| 0 <= j < i && !(#[trigger] self.voices@[j]).let_go() ==> if j < q {
                            self.voices@[q as int].age < self.voices@[j].age
                        } else {
                            self.voices@[q as int].age <= self.voices@[j].age
                        }
                    },
                    None => forall|j: int| 0 <= j < i ==> (#[trigger] self.voices@[j]).let_go(),
                },
            decreases poly - i,
        {
            let v = &self.voices[i];
            if v.is_released() {
                if !v.level().is_nan() {
                    let quieter = match quietest {
                        Some(q) => v.level().lt(self.voices[q].level()),
                        None => true,
                    };
                    if quieter {
                        quietest = Some(i);
                    }
                }
            } else {
                let older = match oldest {
                    Some(q) => v.age() < self.voices[q].age(),
                    None => true,
                };
                if older {
                    oldest = Some(i);
                }
            }
            i = i + 1;
        }
        match (quietest, oldest) {
            (Some(q), _) => q,
            (None, Some(q)) => q,
            (None, None) => 0,
        }
    }

    /// Render mono audio into `out`, overwriting it.
    pub fn render_mono<F: Fn(Prim, Single, Single) -> Single>(&mut self, fpu: &F, out: &mut Vec<Single>)
        requires
            total(*fpu),
            old(self).wf(),
        ensures
            final(self).wf(),
            final(self).counter == old(self).counter,
            final(out)@.len() == old(out)@.len(),
            forall|f: Sums| #[trigger] meant(*fpu, f) ==> (final(self)@, final(out)@) == old(self)@.rendered(f, old(out)@.len()),
    {
        let len = out.len();
        let mut at: usize = 0;
        assert(out@.take(0) =~= seq![]);
        while at < len
            invariant
                total(*fpu),
                at <= len == out@.len() == old(out)@.len(),
                self.wf(),
                self.counter == old(self).counter,
                forall|f: Sums| #[trigger] meant(*fpu, f) ==> old(self)@.rendered(f, len as nat) == ({
                    let (t, tail) = self@.rendered(f, (len - at) as nat);
                    (t, out@.take(at as int) + tail)
                }),
            decreases len - at,
        {
            let next: usize = if len - at < MAX_BLOCK { len } else { at + MAX_BLOCK };
            let ghost done = out@.take(at as int);
            clear_span(out, at, next);
            assert(out@.take(at as int) =~= done);
            self.render_chunk(fpu, out, at, next);
            assert(out@.take(at as int) =~= done);
            assert(out@.take(next as int) =~= done + out@.subrange(at as int, next as int));
            assert(forall|f: Sums| #[trigger] meant(*fpu, f) ==> ({
                let tail = self@.rendered(f, (len - next) as nat).1;
                done + (out@.subrange(at as int, next as int) + tail) =~= out@.take(next as int) + tail
            }));
            at = next;
        }
        assert(out@.take(at as int) + seq![] =~= out@);
    }

    /// Render stereo audio into `out`, overwriting it.
    pub fn render<F: Fn(Prim, Single, Single) -> Single>(&mut self, fpu: &F, out: &mut Vec<StereoFrame>)
        requires
            total(*fpu),
            old(self).wf(),
        ensures
            final(self).wf(),
            final(self).counter == old(self).counter,
            final(out)@.len() == old(out)@.len(),
            forall|f: Sums| #[trigger] meant(*fpu, f) ==> final(self)@ == old(self)@.rendered(f, old(out)@.len()).0,
            forall|f: Sums| #[trigger] meant(*fpu, f) ==> final(out)@ == old(self)@.rendered(f, old(out)@.len()).1.map_values(|y: Single| StereoFrame { left: y, right: y }),
    {
        let len = out.len();
        let mut at: usize = 0;
        let mut scratch: Vec<Single> = Vec::new();
        std::mem::swap(&mut scratch, &mut self.scratch);
        let ghost stereo = |y: Single| StereoFrame { left: y, right: y };
        let ghost mut done: Seq<Single> = seq![];
        while at < len
            invariant
                total(*fpu),
                at <= len == out@.len() == old(out)@.len(),
                scratch@.len() == MAX_BLOCK,
                self.voices@.len() == MAX_VOICES,
                self.fx.wf(),
                self.counter == old(self).counter,
                stereo == (|y: Single| StereoFrame { left: y, right: y }),
                done.len() == at,
                out@.take(at as int) == done.map_values(stereo),
                forall|f: Sums| #[trigger] meant(*fpu, f) ==> old(self)@.rendered(f, len as nat) == ({
                    let (t, tail) = self@.rendered(f, (len - at) as nat);
                    (t, done + tail)
                }),
            decreases len - at,
        {
            let next: usize = if len - at < MAX_BLOCK { len } else { at + MAX_BLOCK };
            let n = next - at;
            clear_span(&mut scratch, 0, n);
            self.render_chunk(fpu, &mut scratch, 0, n);
            let ghost before = out@;
            let mut i: usize = 0;
            while i < n
                invariant
                    i <= n <= scratch@.len(),
                    at + n == next <= len == out@.len() == before.len(),
                    forall|j: int| 0 <= j < at ==> out@[j] == before[j],
                    forall|j: int| at <= j < at + i ==> #[trigger] out@[j] == (StereoFrame { left: scratch@[j - at], right: scratch@[j - at] }),
                decreases n - i,
            {
                let y = scratch[i];
                out.set(at + i, StereoFrame { left: y, right: y });
                i = i + 1;
            }
            let ghost part = scratch@.subrange(0, n as int);
            assert(out@.take(next as int) =~= (done + part).map_values(stereo)) by {
                assert(forall|j: int| 0 <= j < at ==> out@[j] == before.take(at as int)[j]);
            }
            assert(forall|f: Sums| #[trigger] meant(*fpu, f) ==> ({
                let tail = self@.rendered(f, (len - next) as nat).1;
                done + (part + tail) =~= (done + part) + tail
            }));
            proof {
                done = done + part;
            }
            at = next;
        }
        std::mem::swap(&mut scratch, &mut self.scratch);
        assert(out@.take(at as int) =~= out@);
        assert(done + seq![] =~= done);
    }

    fn render_chunk<F: Fn(Prim, Single, Single) -> Single>(&mut self, fpu: &F, buf: &mut Vec<Single>, start: usize, end: usize)
        requires
            total(*fpu),
            old(self).voices@.len() == MAX_VOICES,
            old(self).fx.wf(),
            start <= end <= old(buf)@.len(),
            old(buf)@.subrange(start as int, end as int) == zeros((end - start) as nat),
        ensures
            final(self).voices@.len() == MAX_VOICES,
            final(self).fx.wf(),
            final(self).scratch == old(self).scratch,
            final(self).counter == old(self).counter,
            same_outside(old(buf)@, final(buf)@, start as int, end as int),
            forall|f: Sums| #[trigger] meant(*fpu, f) ==> (final(self)@, final(buf)@.subrange(start as int, end as int)) == old(self)@.chunk(f, (end - start) as nat),
    {
        proof {
            reveal(SynthView::chunk);
        }
        let (patch, sr) = (self.patch, self.sample_rate);
        let bend = fpu(Prim::Add, fpu(Prim::Mul, self.pitch_bend, patch.pitch.bend_range), self.transpose);
        let mut i: usize = 0;
        let count = self.voices.len();
        while i < count
            invariant
                total(*fpu),
                i <= count == self.voices@.len() == old(self).voices@.len() == MAX_VOICES,
                start <= end <= buf@.len(),
                same_outside(old(buf)@, buf@, start as int, end as int),
                old(buf)@.subrange(start as int, end as int) == zeros((end - start) as nat),
                *self == (Synth { voices: self.voices, ..*old(self) }),
                forall|f: Sums| #[trigger] meant(*fpu, f) ==> (self.voices@, buf@.subrange(start as int, end as int)) == sung(
                    f,
                    patch,
                    sr,
                    bend,
                    old(self).voices@,
                    zeros((end - start) as nat),
                    i as nat,
                ),
            decreases count - i,
        {
            let mut v = self.voices[i];
            v.render(fpu, &patch, sr, bend, buf, start, end);
            self.voices.set(i, v);
            i = i + 1;
        }
        self.fx.process(fpu, &patch.fx, buf, start, end);
        let gain = fpu(Prim::Mul, patch.gain, self.master_gain);
        let mut peak = self.peak;
        master_span(fpu, gain, self.peak_decay, &mut peak, buf, start, end);
        self.peak = if peak.is_finite() { peak } else { Single::of(ZERO) };
    }
}

/// No sample leaves the master limiter above full scale.
proof fn lemma_master_in_scale(f: Sums, gain: Single, decay: Single, s: Single, x: Seq<Single>, i: int)
    requires
        0 <= i < x.len(),
    ensures
        master_run(f, gain, decay, s, x).1.len() == x.len(),
        crate::math::never_loud(master_run(f, gain, decay, s, x).1[i]),
    decreases x.len(),
{
    reveal_with_fuel(master_run, 2);
    if i < x.len() - 1 {
        lemma_master_in_scale(f, gain, decay, s, x.drop_last(), i);
    } else if x.len() > 1 {
        lemma_master_in_scale(f, gain, decay, s, x.drop_last(), 0);
    }
}


/// No number a synth renders is above full scale.
pub proof fn lemma_synth_in_scale(s: SynthView, f: Sums, n: nat, i: int)
    requires
        0 <= i < s.rendered(f, n).1.len(),
    ensures
        crate::math::never_loud(s.rendered(f, n).1[i]),
    decreases n,
{
    let m: nat = if n < MAX_BLOCK { n } else { MAX_BLOCK as nat };
    let (t, head) = s.chunk(f, m);
    if i < head.len() {
        reveal(SynthView::chunk);
        let bend = f(Prim::Add, f(Prim::Mul, s.pitch_bend, s.patch.pitch.bend_range), s.transpose);
        let x = sung(f, s.patch, s.sample_rate, bend, s.voices, zeros(m), s.voices.len()).1;
        let y = s.fx.processed(f, s.patch.fx, x).1;
        let gain = f(Prim::Mul, s.patch.gain, s.master_gain);
        if y.len() > 0 {
            lemma_master_in_scale(f, gain, s.peak_decay, s.peak, y, 0);
            lemma_master_in_scale(f, gain, s.peak_decay, s.peak, y, i);
        }
    } else {
        lemma_synth_in_scale(t, f, (n - m) as nat, i - head.len());
    }
}

/// Two runs through the master gain and limiter give what one run over both gives, and the peak
/// meter stays in [0, 1].
pub proof fn lemma_master_runs_in_parts(f: Sums, gain: Single, decay: Single, s: Single, x: Seq<Single>, y: Seq<Single>)
    ensures
        master_run(f, gain, decay, s, x + y) == ({
            let (t, a) = master_run(f, gain, decay, s, x);
            let (u, b) = master_run(f, gain, decay, t, y);
            (u, a + b)
        }),
        crate::math::shares_multiply(f) && crate::math::is_share(s) && crate::math::is_share(decay)
            ==> crate::math::is_share(master_run(f, gain, decay, s, x).0),
    decreases x.len() + y.len(),
{
    if y.len() == 0 {
        assert(x + y =~= x);
        assert(master_run(f, gain, decay, s, x).1 + seq![] =~= master_run(f, gain, decay, s, x).1);
        if x.len() > 0 {
            lemma_master_runs_in_parts(f, gain, decay, s, x.drop_last(), y);
            let t = master_run(f, gain, decay, s, x.drop_last()).0;
            if crate::math::shares_multiply(f) && crate::math::is_share(s) && crate::math::is_share(decay) {
                assert(crate::math::is_share(f(Prim::Mul, t, decay)));
            }
        }
    } else {
        lemma_master_runs_in_parts(f, gain, decay, s, x, y.drop_last());
        assert((x + y).drop_last() =~= x + y.drop_last());
        let (t, a) = master_run(f, gain, decay, s, x);
        let (u, b) = master_run(f, gain, decay, t, y.drop_last());
        let z = master_tick(f, gain, decay, u, y.last()).1;
        assert((a + b).push(z) =~= a + b.push(z));
    }
}

/// A voice that is not sung yet takes no part.
proof fn lemma_sung_frame(f: Sums, p: Patch, sample_rate: Single, bend: Single, voices: Seq<Voice>, x: Seq<Single>, k: nat, j: int, w: Voice)
    requires
        k <= j < voices.len(),
    ensures
        sung(f, p, sample_rate, bend, voices, x, k).0.len() == voices.len(),
        sung(f, p, sample_rate, bend, voices, x, k).0[j] == voices[j],
        sung(f, p, sample_rate, bend, voices.update(j, w), x, k) == ({
            let (vs, y) = sung(f, p, sample_rate, bend, voices, x, k);
            (vs.update(j, w), y)
        }),
    decreases k,
{
    if k > 0 {
        lemma_sung_frame(f, p, sample_rate, bend, voices, x, (k - 1) as nat, j, w);
        lemma_sung_frame(f, p, sample_rate, bend, voices, x, (k - 1) as nat, k - 1, w);
        let (vs, y) = sung(f, p, sample_rate, bend, voices, x, (k - 1) as nat);
        let v = vs[k - 1].played(f, p, sample_rate, bend, y).0;
        assert(vs.update(j, w).update(k - 1, v) =~= vs.update(k - 1, v).update(j, w));
    }
}

proof fn lemma_sung_in_parts(f: Sums, p: Patch, sample_rate: Single, bend: Single, voices: Seq<Voice>, x: Seq<Single>, y: Seq<Single>, k: nat)
    requires
        x.len() == crate::voice::CONTROL_BLOCK,
        k <= voices.len(),
    ensures
        sung(f, p, sample_rate, bend, voices, x + y, k) == ({
            let (vs, a) = sung(f, p, sample_rate, bend, voices, x, k);
            let (ws, b) = sung(f, p, sample_rate, bend, vs, y, k);
            (ws, a + b)
        }),
        sung(f, p, sample_rate, bend, voices, x, k).0.len() == voices.len(),
        sung(f, p, sample_rate, bend, voices, x, k).1.len() == x.len(),
    decreases k,
{
    if k > 0 {
        let less = (k - 1) as nat;
        lemma_sung_in_parts(f, p, sample_rate, bend, voices, x, y, less);
        let (vs, a) = sung(f, p, sample_rate, bend, voices, x, less);
        let (ws, b) = sung(f, p, sample_rate, bend, vs, y, less);
        let v = voices[k - 1];
        lemma_sung_frame(f, p, sample_rate, bend, voices, x, less, k - 1, v);
        crate::voice::lemma_voice_adds(v, f, p, sample_rate, bend, a, a);
        crate::voice::lemma_voice_plays_in_parts(v, f, p, sample_rate, bend, a, b);
        let (v1, a1) = v.played(f, p, sample_rate, bend, a);
        let (v2, b1) = v1.played(f, p, sample_rate, bend, b);
        lemma_sung_frame(f, p, sample_rate, bend, vs, y, less, k - 1, v1);
        assert(ws[k - 1] == v);
        assert(ws.update(k - 1, v1).update(k - 1, v2) =~= ws.update(k - 1, v2));
        assert(sung(f, p, sample_rate, bend, vs.update(k - 1, v1), y, k) == (ws.update(k - 1, v2), b1));
        assert(sung(f, p, sample_rate, bend, voices, x + y, k) == (ws.update(k - 1, v2), a1 + b1));
    }
}

/// What two runs of a synth need to be one: an echo line, a peak meter in [0, 1], and arithmetic
/// that keeps it there.
pub open spec fn steady(s: SynthView, f: Sums) -> bool {
    &&& s.fx.echo.len() > 0
    &&& crate::math::shares_multiply(f)
    &&& crate::math::is_share(s.peak)
    &&& crate::math::is_share(s.peak_decay)
}

proof fn lemma_chunk_keeps_steady(s: SynthView, f: Sums, n: nat)
    requires
        steady(s, f),
    ensures
        steady(s.chunk(f, n).0, f),
{
    reveal(SynthView::chunk);
    let bend = f(Prim::Add, f(Prim::Mul, s.pitch_bend, s.patch.pitch.bend_range), s.transpose);
    let x = sung(f, s.patch, s.sample_rate, bend, s.voices, zeros(n), s.voices.len()).1;
    crate::effects::lemma_effects_process_in_parts(s.fx, f, s.patch.fx, x, x);
    let y = s.fx.processed(f, s.patch.fx, x).1;
    lemma_master_runs_in_parts(f, f(Prim::Mul, s.patch.gain, s.master_gain), s.peak_decay, s.peak, y, y);
}

proof fn lemma_chunk_splits(s: SynthView, f: Sums, n: nat)
    requires
        steady(s, f),
    ensures
        s.chunk(f, crate::voice::CONTROL_BLOCK as nat + n) == ({
            let (t, a) = s.chunk(f, crate::voice::CONTROL_BLOCK as nat);
            let (u, b) = t.chunk(f, n);
            (u, a + b)
        }),
{
    reveal(SynthView::chunk);
    let bend = f(Prim::Add, f(Prim::Mul, s.pitch_bend, s.patch.pitch.bend_range), s.transpose);
    let (x, y) = (zeros(crate::voice::CONTROL_BLOCK as nat), zeros(n));
    let k = s.voices.len();
    assert(zeros(crate::voice::CONTROL_BLOCK as nat + n) =~= x + y);
    lemma_sung_in_parts(f, s.patch, s.sample_rate, bend, s.voices, x, y, k);
    let (vs, a) = sung(f, s.patch, s.sample_rate, bend, s.voices, x, k);
    let (ws, b) = sung(f, s.patch, s.sample_rate, bend, vs, y, k);
    crate::effects::lemma_effects_process_in_parts(s.fx, f, s.patch.fx, a, b);
    let (fx, c) = s.fx.processed(f, s.patch.fx, a);
    let (_, d) = fx.processed(f, s.patch.fx, b);
    let gain = f(Prim::Mul, s.patch.gain, s.master_gain);
    lemma_master_runs_in_parts(f, gain, s.peak_decay, s.peak, c, d);
    let (t, head) = s.chunk(f, crate::voice::CONTROL_BLOCK as nat);
    assert(t.peak == master_run(f, gain, s.peak_decay, s.peak, c).0);
}

/// As many samples as asked for, a control block at a time.
spec fn finely(s: SynthView, f: Sums, n: nat) -> (SynthView, Seq<Single>)
    decreases n,
{
    if n == 0 {
        (s, seq![])
    } else {
        let m: nat = if n < crate::voice::CONTROL_BLOCK { n } else { crate::voice::CONTROL_BLOCK as nat };
        let (t, head) = s.chunk(f, m);
        let (u, tail) = finely(t, f, (n - m) as nat);
        (u, head + tail)
    }
}

proof fn lemma_chunk_finely(s: SynthView, f: Sums, n: nat)
    requires
        steady(s, f),
        n > 0,
    ensures
        s.chunk(f, n) == finely(s, f, n),
        steady(finely(s, f, n).0, f),
    decreases n,
{
    lemma_chunk_keeps_steady(s, f, n);
    let b = crate::voice::CONTROL_BLOCK as nat;
    if n <= b {
        let (t, head) = s.chunk(f, n);
        assert(finely(t, f, 0) == (t, Seq::<Single>::empty()));
        assert(head + Seq::<Single>::empty() =~= head);
    } else {
        let rest = (n - b) as nat;
        lemma_chunk_splits(s, f, rest);
        lemma_chunk_keeps_steady(s, f, b);
        lemma_chunk_finely(s.chunk(f, b).0, f, rest);
    }
}

proof fn lemma_finely_splits(s: SynthView, f: Sums, k: nat, n: nat)
    ensures
        finely(s, f, k * (crate::voice::CONTROL_BLOCK as nat) + n) == ({
            let (t, a) = finely(s, f, k * (crate::voice::CONTROL_BLOCK as nat));
            let (u, b) = finely(t, f, n);
            (u, a + b)
        }),
    decreases k,
{
    let b = crate::voice::CONTROL_BLOCK as nat;
    if k == 0 {
        assert(finely(s, f, 0).1 + finely(s, f, n).1 =~= finely(s, f, n).1);
    } else {
        let fewer = (k - 1) as nat;
        assert(k * b == fewer * b + b) by (nonlinear_arith)
            requires
                k == fewer + 1,
        ;
        let (t, head) = s.chunk(f, b);
        lemma_finely_splits(t, f, fewer, n);
        let (u, mid) = finely(t, f, fewer * b);
        let tail = finely(u, f, n).1;
        assert(finely(s, f, k * b + n) == (finely(t, f, fewer * b + n).0, head + finely(t, f, fewer * b + n).1));
        assert(finely(s, f, k * b) == (u, head + mid));
        assert(head + (mid + tail) =~= (head + mid) + tail);
    }
}

proof fn lemma_rendered_finely(s: SynthView, f: Sums, n: nat)
    requires
        steady(s, f),
    ensures
        s.rendered(f, n) == finely(s, f, n),
        steady(s.rendered(f, n).0, f),
    decreases n,
{
    if n > 0 {
        let m: nat = if n < MAX_BLOCK { n } else { MAX_BLOCK as nat };
        lemma_chunk_finely(s, f, m);
        let (t, head) = s.chunk(f, m);
        lemma_rendered_finely(t, f, (n - m) as nat);
        if n < MAX_BLOCK {
            assert(head + Seq::<Single>::empty() =~= head);
            assert(t.rendered(f, 0) == (t, Seq::<Single>::empty()));
        } else {
            assert(8 * (crate::voice::CONTROL_BLOCK as nat) == MAX_BLOCK);
            lemma_finely_splits(s, f, 8, (n - m) as nat);
        }
    }
}

/// Rendering may be cut at any control block: rendering a number of control blocks and then more
/// gives what rendering at once gives.
pub proof fn lemma_render_in_control_blocks(s: SynthView, f: Sums, blocks: nat, n: nat)
    requires
        steady(s, f),
    ensures
        s.rendered(f, blocks * (crate::voice::CONTROL_BLOCK as nat) + n) == ({
            let (t, head) = s.rendered(f, blocks * (crate::voice::CONTROL_BLOCK as nat));
            let (u, tail) = t.rendered(f, n);
            (u, head + tail)
        }),
        steady(s.rendered(f, n).0, f),
{
    let b = blocks * (crate::voice::CONTROL_BLOCK as nat);
    lemma_rendered_finely(s, f, b + n);
    lemma_rendered_finely(s, f, b);
    lemma_rendered_finely(s, f, n);
    lemma_rendered_finely(s.rendered(f, b).0, f, n);
    lemma_finely_splits(s, f, blocks, n);
}

/// Two synths that differ in their peak meters at most.
pub open spec fn same_but_peak(a: SynthView, b: SynthView) -> bool {
    a == (SynthView { peak: a.peak, ..b })
}

/// The same samples, and synths that differ in their peak meters at most.
pub open spec fn sounds_alike(a: (SynthView, Seq<Single>), b: (SynthView, Seq<Single>)) -> bool {
    same_but_peak(a.0, b.0) && a.1 == b.1
}

proof fn lemma_master_ignores_peak(f: Sums, gain: Single, decay: Single, s: Single, t: Single, x: Seq<Single>)
    ensures
        master_run(f, gain, decay, s, x).1 == master_run(f, gain, decay, t, x).1,
    decreases x.len(),
{
    if x.len() > 0 {
        lemma_master_ignores_peak(f, gain, decay, s, t, x.drop_last());
    }
}

proof fn lemma_chunk_ignores_peak(s: SynthView, t: SynthView, f: Sums, n: nat)
    requires
        same_but_peak(s, t),
    ensures
        sounds_alike(s.chunk(f, n), t.chunk(f, n)),
        s.fx.echo.len() > 0 ==> s.chunk(f, n).0.fx.echo.len() == s.fx.echo.len(),
{
    reveal(SynthView::chunk);
    let bend = f(Prim::Add, f(Prim::Mul, s.pitch_bend, s.patch.pitch.bend_range), s.transpose);
    let x = sung(f, s.patch, s.sample_rate, bend, s.voices, zeros(n), s.voices.len()).1;
    let y = s.fx.processed(f, s.patch.fx, x).1;
    if s.fx.echo.len() > 0 {
        crate::effects::lemma_effects_process_in_parts(s.fx, f, s.patch.fx, x, x);
    }
    lemma_master_ignores_peak(f, f(Prim::Mul, s.patch.gain, s.master_gain), s.peak_decay, s.peak, t.peak, y);
}

proof fn lemma_finely_ignores_peak(s: SynthView, t: SynthView, f: Sums, n: nat)
    requires
        same_but_peak(s, t),
    ensures
        sounds_alike(finely(s, f, n), finely(t, f, n)),
    decreases n,
{
    if n > 0 {
        let m: nat = if n < crate::voice::CONTROL_BLOCK { n } else { crate::voice::CONTROL_BLOCK as nat };
        lemma_chunk_ignores_peak(s, t, f, m);
        lemma_finely_ignores_peak(s.chunk(f, m).0, t.chunk(f, m).0, f, (n - m) as nat);
    }
}

proof fn lemma_chunk_splits_but_peak(s: SynthView, f: Sums, n: nat)
    requires
        s.fx.echo.len() > 0,
    ensures
        sounds_alike(
            s.chunk(f, crate::voice::CONTROL_BLOCK as nat + n),
            ({
                let (t, a) = s.chunk(f, crate::voice::CONTROL_BLOCK as nat);
                let (u, b) = t.chunk(f, n);
                (u, a + b)
            }),
        ),
{
    reveal(SynthView::chunk);
    let bend = f(Prim::Add, f(Prim::Mul, s.pitch_bend, s.patch.pitch.bend_range), s.transpose);
    let (x, y) = (zeros(crate::voice::CONTROL_BLOCK as nat), zeros(n));
    let k = s.voices.len();
    assert(zeros(crate::voice::CONTROL_BLOCK as nat + n) =~= x + y);
    lemma_sung_in_parts(f, s.patch, s.sample_rate, bend, s.voices, x, y, k);
    let (vs, a) = sung(f, s.patch, s.sample_rate, bend, s.voices, x, k);
    let (ws, b) = sung(f, s.patch, s.sample_rate, bend, vs, y, k);
    crate::effects::lemma_effects_process_in_parts(s.fx, f, s.patch.fx, a, b);
    let (fx, c) = s.fx.processed(f, s.patch.fx, a);
    let (_, d) = fx.processed(f, s.patch.fx, b);
    let gain = f(Prim::Mul, s.patch.gain, s.master_gain);
    lemma_master_runs_in_parts(f, gain, s.peak_decay, s.peak, c, d);
    let t = s.chunk(f, crate::voice::CONTROL_BLOCK as nat).0;
    lemma_master_ignores_peak(f, gain, s.peak_decay, t.peak, master_run(f, gain, s.peak_decay, s.peak, c).0, d);
}

proof fn lemma_chunk_sounds_finely(s: SynthView, f: Sums, n: nat)
    requires
        s.fx.echo.len() > 0,
        n > 0,
    ensures
        sounds_alike(s.chunk(f, n), finely(s, f, n)),
    decreases n,
{
    let b = crate::voice::CONTROL_BLOCK as nat;
    if n <= b {
        let (t, head) = s.chunk(f, n);
        assert(finely(t, f, 0) == (t, Seq::<Single>::empty()));
        assert(head + Seq::<Single>::empty() =~= head);
    } else {
        let rest = (n - b) as nat;
        lemma_chunk_splits_but_peak(s, f, rest);
        lemma_chunk_ignores_peak(s, s, f, b);
        lemma_chunk_sounds_finely(s.chunk(f, b).0, f, rest);
    }
}

proof fn lemma_rendered_sounds_finely(s: SynthView, f: Sums, n: nat)
    requires
        s.fx.echo.len() > 0,
    ensures
        sounds_alike(s.rendered(f, n), finely(s, f, n)),
        s.rendered(f, n).0.fx.echo.len() > 0,
    decreases n,
{
    if n > 0 {
        let m: nat = if n < MAX_BLOCK { n } else { MAX_BLOCK as nat };
        lemma_chunk_sounds_finely(s, f, m);
        lemma_chunk_ignores_peak(s, s, f, m);
        let (t, head) = s.chunk(f, m);
        let rest = (n - m) as nat;
        lemma_rendered_sounds_finely(t, f, rest);
        lemma_finely_ignores_peak(t, finely(s, f, m).0, f, rest);
        if n < MAX_BLOCK {
            assert(head + Seq::<Single>::empty() =~= head);
            assert(t.rendered(f, 0) == (t, Seq::<Single>::empty()));
        } else {
            assert(8 * (crate::voice::CONTROL_BLOCK as nat) == MAX_BLOCK);
            lemma_finely_splits(s, f, 8, rest);
        }
    }
}

/// Whatever the arithmetic, cutting at a control block does not change the sound: the samples are the
/// same, and so is the synth but for its peak meter.
pub proof fn lemma_sound_in_control_blocks(s: SynthView, f: Sums, blocks: nat, n: nat)
    requires
        s.fx.echo.len() > 0,
    ensures
        sounds_alike(
            s.rendered(f, blocks * (crate::voice::CONTROL_BLOCK as nat) + n),
            ({
                let (t, head) = s.rendered(f, blocks * (crate::voice::CONTROL_BLOCK as nat));
                let (u, tail) = t.rendered(f, n);
                (u, head + tail)
            }),
        ),
{
    let b = blocks * (crate::voice::CONTROL_BLOCK as nat);
    lemma_rendered_sounds_finely(s, f, b + n);
    lemma_rendered_sounds_finely(s, f, b);
    let t = s.rendered(f, b).0;
    lemma_rendered_sounds_finely(t, f, n);
    lemma_finely_ignores_peak(t, finely(s, f, b).0, f, n);
    lemma_finely_splits(s, f, blocks, n);
}

} // verus!
