//! What a host's audio callback does with an instrument: starting, taking commands, mixing blocks of
//! frames, and telling when a one-shot is over.
//!
//! The game's thread publishes parameters through a [`Shared`] value; a deck polls it without
//! blocking before every block. Each deck has two forms of that: the ones that poll, and the ones
//! that take what a poll brought.
use rtrb::Consumer;
use vstd::prelude::*;

use crate::arith::{meant, total, Prim, Sums};
use crate::blocks::silence;
use crate::instrument::{Instrument, InstrumentView};
use crate::jet::{JetCommand, JetEngine, JetParams, JetView};
use crate::patch::Patch;
use crate::queue::{instrument_next, instrument_waiting, jet_next, jet_waiting, notes_next, notes_waiting};
use crate::shared::Shared;
use crate::single::{from_u64, Single, ONE, ZERO};
use crate::synth::{Command, StereoFrame, Synth, SynthView};

verus! {

/// Pattern of 12.
pub const P12: u32 = 0x4140_0000;

/// Pattern of 0.05.
pub const P0_05: u32 = 0x3d4c_cccd;

/// Pattern of 0.0001.
pub const P0_0001: u32 = 0x38d1_b717;

/// Pattern of 1000.
pub const P1000: u32 = 0x447a_0000;

/// Pattern of 48000.
pub const P48000: u32 = 0x473b_8000;

/// Most parameters a shared set of values holds.
pub const MAX_PARAMS: usize = 64;

/// One sample on both channels.
pub open spec fn on_both(y: Single) -> StereoFrame {
    StereoFrame { left: y, right: y }
}

/// Mono samples as stereo frames.
pub open spec fn framed(x: Seq<Single>) -> Seq<StereoFrame> {
    x.map_values(|y: Single| on_both(y))
}

/// Put mono samples on both channels of a buffer of the same length.
pub fn fill_frames(mono: &Vec<Single>, out: &mut Vec<StereoFrame>)
    requires
        mono@.len() == old(out)@.len(),
    ensures
        final(out)@ == framed(mono@),
{
    let mut i: usize = 0;
    while i < mono.len()
        invariant
            i <= mono@.len() == out@.len(),
            forall|j: int| 0 <= j < i ==> #[trigger] out@[j] == on_both(mono@[j]),
        decreases mono@.len() - i,
    {
        let y = mono[i];
        out.set(i, StereoFrame { left: y, right: y });
        i = i + 1;
    }
    assert(out@ =~= framed(mono@));
}

/// A buffer brought to a length; what it holds does not matter.
fn sized(buf: &mut Vec<Single>, n: usize)
    ensures
        final(buf)@.len() == n,
{
    if buf.len() > n {
        buf.truncate(n);
    }
    while buf.len() < n
        invariant
            buf@.len() <= n,
        decreases n - buf@.len(),
    {
        buf.push(Single::of(ZERO));
    }
}

/// Semitones that a player's pitch scale stands for: the scale arrives as a resampling ratio.
pub open spec fn transposition(f: Sums, rate_scale: Single) -> Single {
    if Single::of(ZERO).below(rate_scale) && Single::of(P0_0001).below(f(Prim::Sub, rate_scale, Single::of(ONE)).absolute()) {
        f(Prim::Mul, Single::of(P12), f(Prim::Log2, rate_scale, Single::of(ZERO)))
    } else {
        Single::of(ZERO)
    }
}

/// The same, computed.
pub fn transpose_for<F: Fn(Prim, Single, Single) -> Single>(fpu: &F, rate_scale: Single) -> (r: Single)
    requires
        total(*fpu),
    ensures
        forall|f: Sums| #[trigger] meant(*fpu, f) ==> r == transposition(f, rate_scale),
{
    if Single::of(ZERO).lt(rate_scale) && Single::of(P0_0001).lt(fpu(Prim::Sub, rate_scale, Single::of(ONE)).abs()) {
        fpu(Prim::Mul, Single::of(P12), fpu(Prim::Log2, rate_scale, Single::of(ZERO)))
    } else {
        Single::of(ZERO)
    }
}

/// A sample rate a host asks for, or 48000 where it asks for nonsense.
pub open spec fn host_rate(sample_rate: Single) -> Single {
    if sample_rate.finite() && Single::of(P1000).below(sample_rate) {
        sample_rate
    } else {
        Single::of(P48000)
    }
}

/// The same, computed.
pub fn rate_for(sample_rate: Single) -> (r: Single)
    ensures
        r == host_rate(sample_rate),
{
    if sample_rate.is_finite() && Single::of(P1000).lt(sample_rate) {
        sample_rate
    } else {
        Single::of(P48000)
    }
}

/// A transposition as the synth takes it: four octaves at most, none where it is no number.
pub open spec fn usable(semitones: Single) -> Single {
    if semitones.finite() {
        semitones.within(Single::of(crate::synth::N48), Single::of(crate::synth::P48))
    } else {
        Single::of(ZERO)
    }
}

/// A synth being played, as a value.
pub struct SynthDeckView {
    pub synth: SynthView,
    pub one_shot: bool,
    pub playing: bool,
    pub frames: u64,
}

impl SynthDeckView {
    /// With the patch a poll brought, if it brought one.
    pub open spec fn synced(self, fresh: Option<Patch>) -> SynthDeckView {
        match fresh {
            Some(patch) => SynthDeckView { synth: SynthView { patch, ..self.synth }, ..self },
            None => self,
        }
    }

    /// Started from the beginning: silent, and a one-shot fires.
    pub open spec fn started(self, f: Sums, fresh: Option<Patch>) -> SynthDeckView {
        let s = self.synced(fresh).synth.panicked();
        SynthDeckView {
            synth: if self.one_shot {
                s.triggered(f)
            } else {
                s
            },
            playing: true,
            frames: 0,
            ..self
        }
    }

    pub open spec fn stopped(self) -> SynthDeckView {
        SynthDeckView { synth: self.synth.panicked(), playing: false, ..self }
    }

    /// With commands taken, one after another.
    pub open spec fn commanded(self, f: Sums, cmds: Seq<Command>) -> SynthDeckView
        decreases cmds.len(),
    {
        if cmds.len() == 0 {
            self
        } else {
            let before = self.commanded(f, cmds.drop_last());
            SynthDeckView { synth: before.synth.applied(f, cmds.last()), ..before }
        }
    }

    /// A one-shot is over once it has died out, but not within its first twentieth of a second.
    pub open spec fn over(self, f: Sums) -> bool {
        self.one_shot && self.synth.silent() && f(Prim::Mul, self.synth.sample_rate, Single::of(P0_05)).below(
            crate::single::counted(self.frames as nat),
        )
    }

    /// After `n` frames, and the frames.
    pub open spec fn mixed(self, f: Sums, fresh: Option<Patch>, rate_scale: Single, n: nat) -> (SynthDeckView, Seq<StereoFrame>) {
        let bent = SynthView { transpose: usable(transposition(f, rate_scale)), ..self.synced(fresh).synth };
        let (synth, out) = bent.rendered(f, n);
        let t = SynthDeckView { synth, frames: (self.frames + n) as u64, ..self };
        (SynthDeckView { playing: t.playing && !t.over(f), ..t }, framed(out))
    }
}

/// A synth being played.
pub struct SynthDeck {
    pub synth: Synth,
    pub one_shot: bool,
    pub playing: bool,
    pub frames: u64,
    /// Version of the shared patch that was taken last.
    pub seen: u32,
}

impl View for SynthDeck {
    type V = SynthDeckView;

    open spec fn view(&self) -> SynthDeckView {
        SynthDeckView { synth: self.synth@, one_shot: self.one_shot, playing: self.playing, frames: self.frames }
    }
}

impl SynthDeck {
    pub open spec fn wf(self) -> bool {
        self.synth.wf()
    }

    /// A deck that does not play yet, with the patch published last.
    pub fn new<F: Fn(Prim, Single, Single) -> Single>(fpu: &F, sample_rate: Single, patch: Patch, seen: u32, one_shot: bool) -> (r: SynthDeck)
        requires
            total(*fpu),
        ensures
            r.wf(),
            r.seen == seen,
            r@.synth.counter == 0,
            forall|f: Sums| #[trigger] meant(*fpu, f) ==> r@ == (SynthDeckView {
                synth: SynthView { patch, ..SynthView::started(f, sample_rate) },
                one_shot,
                playing: false,
                frames: 0,
            }),
    {
        SynthDeck { synth: Synth::with_patch(fpu, sample_rate, patch), one_shot, playing: false, frames: 0, seen }
    }

    /// Take the patch a poll brought, if it brought one.
    pub fn sync(&mut self, fresh: Option<Patch>)
        requires
            old(self).wf(),
        ensures
            final(self).wf(),
            final(self).seen == old(self).seen,
            final(self)@ == old(self)@.synced(fresh),
    {
        match fresh {
            Some(patch) => self.synth.set_patch(patch),
            None => {},
        }
    }

    /// Start from the beginning; a one-shot fires.
    pub fn begin<F: Fn(Prim, Single, Single) -> Single>(&mut self, fpu: &F, fresh: Option<Patch>)
        requires
            total(*fpu),
            old(self).wf(),
            old(self)@.one_shot ==> old(self)@.synth.counter < u64::MAX,
        ensures
            final(self).wf(),
            final(self).seen == old(self).seen,
            forall|f: Sums| #[trigger] meant(*fpu, f) ==> final(self)@ == old(self)@.started(f, fresh),
    {
        self.sync(fresh);
        self.synth.panic();
        self.frames = 0;
        self.playing = true;
        if self.one_shot {
            self.synth.trigger(fpu);
        }
    }

    /// Start from the beginning with the patch published last, where the lock on it is free.
    pub fn start<F: Fn(Prim, Single, Single) -> Single>(&mut self, fpu: &F, shared: &Shared<Patch>)
        requires
            total(*fpu),
            old(self).wf(),
            old(self)@.one_shot ==> old(self)@.synth.counter < u64::MAX,
        ensures
            final(self).wf(),
            forall|f: Sums| #[trigger] meant(*fpu, f) ==> exists|fresh: Option<Patch>| final(self)@ == #[trigger] old(self)@.started(f, fresh),
    {
        let fresh = shared.poll(&mut self.seen);
        self.begin(fpu, fresh);
    }

    /// Silence immediately.
    pub fn stop(&mut self)
        requires
            old(self).wf(),
        ensures
            final(self).wf(),
            final(self).seen == old(self).seen,
            final(self)@ == old(self)@.stopped(),
    {
        self.playing = false;
        self.synth.panic();
    }

    pub fn is_playing(&self) -> (r: bool)
        ensures
            r == self@.playing,
    {
        self.playing
    }

    /// Frames rendered since the start.
    pub fn frames_rendered(&self) -> (r: u64)
        ensures
            r == self@.frames,
    {
        self.frames
    }

    /// Take a command from the game's thread.
    pub fn apply<F: Fn(Prim, Single, Single) -> Single>(&mut self, fpu: &F, cmd: Command)
        requires
            total(*fpu),
            old(self).wf(),
            cmd.starts_note() ==> old(self)@.synth.counter < u64::MAX,
        ensures
            final(self).wf(),
            final(self).seen == old(self).seen,
            forall|f: Sums| #[trigger] meant(*fpu, f) ==> final(self)@ == (SynthDeckView {
                synth: old(self)@.synth.applied(f, cmd),
                ..old(self)@
            }),
    {
        self.synth.apply(fpu, cmd);
    }

    /// Take the commands that wait in a queue, in their order;
    /// those that come once no more notes can be numbered stay there.
    pub fn drain<F: Fn(Prim, Single, Single) -> Single>(&mut self, fpu: &F, rx: &mut Consumer<Command>)
        requires
            total(*fpu),
            old(self).wf(),
        ensures
            final(self).wf(),
            final(self).seen == old(self).seen,
            exists|cmds: Seq<Command>| {
                &&& #[trigger] crate::queue::taken_in_order(crate::queue::notes_known(&*old(rx)), cmds, crate::queue::notes_known(&*final(rx)))
                &&& forall|f: Sums| #[trigger] meant(*fpu, f) ==> final(self)@ == old(self)@.commanded(f, cmds)
                &&& final(self)@.synth.counter == u64::MAX || crate::queue::notes_known(&*final(rx)).len() == 0
                &&& old(self)@.synth.counter == u64::MAX ==> cmds.len() == 0
            },
            old(self)@.synth.counter == u64::MAX ==> final(self)@ == old(self)@,
    {
        let ghost mut cmds: Seq<Command> = seq![];
        let count = notes_waiting(rx);
        let mut i: usize = 0;
        assert(forall|f: Sums| #[trigger] meant(*fpu, f) ==> self@ == old(self)@.commanded(f, cmds));
        assert(cmds + crate::queue::notes_known(&*rx) =~= crate::queue::notes_known(&*rx));
        while i < count
            invariant
                i <= count,
                count - i == crate::queue::notes_known(&*rx).len(),
                crate::queue::taken_in_order(crate::queue::notes_known(&*old(rx)), cmds, crate::queue::notes_known(&*rx)),
                total(*fpu),
                self.wf(),
                self.seen == old(self).seen,
                old(self)@.synth.counter == u64::MAX ==> cmds.len() == 0 && self@ == old(self)@,
                forall|f: Sums| #[trigger] meant(*fpu, f) ==> self@ == old(self)@.commanded(f, cmds),
            decreases count - i,
        {
            if self.synth.counter == u64::MAX {
                assert(crate::queue::taken_in_order(crate::queue::notes_known(&*old(rx)), cmds, crate::queue::notes_known(&*rx)));
                return;
            }
            let ghost known = crate::queue::notes_known(&*rx);
            match notes_next(rx) {
                Some(cmd) => {
                    self.apply(fpu, cmd);
                    proof {
                        let more = cmds.push(cmd);
                        assert(more.drop_last() =~= cmds);
                        assert(forall|f: Sums| #[trigger] meant(*fpu, f) ==> self@ == old(self)@.commanded(f, more));
                        assert(cmds + known =~= more + known.skip(1));
                        cmds = more;
                    }
                },
                None => {},
            }
            i = i + 1;
        }
        assert(crate::queue::taken_in_order(crate::queue::notes_known(&*old(rx)), cmds, crate::queue::notes_known(&*rx)));
    }

    /// Mix the next frames with the patch a poll brought.
    pub fn fill<F: Fn(Prim, Single, Single) -> Single>(&mut self, fpu: &F, fresh: Option<Patch>, rate_scale: Single, out: &mut Vec<StereoFrame>)
        requires
            total(*fpu),
            old(self).wf(),
            old(self)@.frames + old(out)@.len() <= u64::MAX,
        ensures
            final(self).wf(),
            final(self).seen == old(self).seen,
            final(out)@.len() == old(out)@.len(),
            forall|f: Sums| #[trigger] meant(*fpu, f) ==> (final(self)@, final(out)@) == old(self)@.mixed(f, fresh, rate_scale, old(out)@.len()),
    {
        self.sync(fresh);
        self.synth.set_transpose(transpose_for(fpu, rate_scale));
        self.synth.render(fpu, out);
        self.frames = self.frames + out.len() as u64;
        let young = fpu(Prim::Mul, self.synth.sample_rate(), Single::of(P0_05));
        if self.one_shot && self.synth.is_silent() && young.lt(from_u64(self.frames)) {
            self.playing = false;
        }
        proof {
            assert forall|f: Sums| #[trigger] meant(*fpu, f) implies (self@, out@) == old(self)@.mixed(f, fresh, rate_scale, old(out)@.len()) by {
                assert((|y: Single| StereoFrame { left: y, right: y }) =~= (|y: Single| on_both(y)));
            }
        }
    }

    /// Mix the next frames with the patch published last, where the lock on it is free.
    pub fn mix<F: Fn(Prim, Single, Single) -> Single>(&mut self, fpu: &F, shared: &Shared<Patch>, rate_scale: Single, out: &mut Vec<StereoFrame>)
        requires
            total(*fpu),
            old(self).wf(),
            old(self)@.frames + old(out)@.len() <= u64::MAX,
        ensures
            final(self).wf(),
            final(out)@.len() == old(out)@.len(),
            forall|f: Sums| #[trigger] meant(*fpu, f) ==> exists|fresh: Option<Patch>|
                (final(self)@, final(out)@) == #[trigger] old(self)@.mixed(f, fresh, rate_scale, old(out)@.len()),
    {
        let fresh = shared.poll(&mut self.seen);
        self.fill(fpu, fresh, rate_scale, out);
    }
}

/// A jet engine being played, as a value.
pub struct JetDeckView {
    pub engine: JetView,
    pub initial_throttle: Single,
    pub start_spooled: bool,
    pub playing: bool,
    pub frames: u64,
}

impl JetDeckView {
    /// With the parameters a poll brought, if it brought some.
    pub open spec fn synced(self, f: Sums, fresh: Option<JetParams>) -> JetDeckView {
        match fresh {
            Some(p) => JetDeckView { engine: self.engine.applied(f, JetCommand::SetParams(p)), ..self },
            None => self,
        }
    }

    /// Started at the initial throttle, spooled up to it or not.
    pub open spec fn started(self, f: Sums, fresh: Option<JetParams>) -> JetDeckView {
        let e = self.synced(f, fresh).engine.applied(f, JetCommand::Throttle(self.initial_throttle));
        JetDeckView {
            engine: if self.start_spooled {
                e.applied(f, JetCommand::SnapRpm)
            } else {
                e
            },
            playing: true,
            frames: 0,
            ..self
        }
    }

    /// With commands taken, one after another.
    pub open spec fn commanded(self, f: Sums, cmds: Seq<JetCommand>) -> JetDeckView
        decreases cmds.len(),
    {
        if cmds.len() == 0 {
            self
        } else {
            let before = self.commanded(f, cmds.drop_last());
            JetDeckView { engine: before.engine.applied(f, cmds.last()), ..before }
        }
    }

    /// After frames in place of `x`, and the frames.
    pub open spec fn mixed(self, f: Sums, fresh: Option<JetParams>, x: Seq<Single>) -> (JetDeckView, Seq<StereoFrame>) {
        let (engine, out) = self.synced(f, fresh).engine.rendered(f, x);
        (JetDeckView { engine, frames: (self.frames + x.len()) as u64, ..self }, framed(out))
    }
}

/// A jet engine being played.
pub struct JetDeck {
    pub engine: JetEngine,
    pub initial_throttle: Single,
    pub start_spooled: bool,
    pub playing: bool,
    pub frames: u64,
    /// Version of the shared parameters that was taken last.
    pub seen: u32,
    pub mono: Vec<Single>,
}

impl View for JetDeck {
    type V = JetDeckView;

    open spec fn view(&self) -> JetDeckView {
        JetDeckView {
            engine: self.engine@,
            initial_throttle: self.initial_throttle,
            start_spooled: self.start_spooled,
            playing: self.playing,
            frames: self.frames,
        }
    }
}

/// Fill a buffer with the next frames of an engine.
fn engine_frames<F: Fn(Prim, Single, Single) -> Single>(fpu: &F, engine: &mut JetEngine, mono: &mut Vec<Single>, out: &mut Vec<StereoFrame>)
    requires
        total(*fpu),
        old(engine).wf(),
    ensures
        final(engine).wf(),
        final(out)@.len() == old(out)@.len(),
        forall|f: Sums| #[trigger] meant(*fpu, f) ==> ({
            let (e, y) = old(engine)@.rendered(f, silence(old(out)@.len()));
            final(engine)@ == e && final(out)@ == framed(y)
        }),
{
    sized(mono, out.len());
    let ghost before = mono@;
    engine.render_mono(fpu, mono);
    fill_frames(mono, out);
    proof {
        assert forall|f: Sums| #[trigger] meant(*fpu, f) implies ({
            let (e, y) = old(engine)@.rendered(f, silence(old(out)@.len()));
            engine@ == e && out@ == framed(y)
        }) by {
            crate::jet::lemma_jet_overwrites(old(engine)@, f, before, silence(old(out)@.len()));
        }
    }
}

impl JetDeck {
    pub open spec fn wf(self) -> bool {
        self.engine.wf()
    }

    /// A deck that does not play yet, with the parameters published last.
    pub fn new<F: Fn(Prim, Single, Single) -> Single>(fpu: &F, sample_rate: Single, params: JetParams, seen: u32, initial_throttle: Single, start_spooled: bool) -> (r: JetDeck)
        requires
            total(*fpu),
        ensures
            r.wf(),
            r.seen == seen,
            forall|f: Sums| #[trigger] meant(*fpu, f) ==> r@ == (JetDeckView {
                engine: JetView::started(f, sample_rate, params),
                initial_throttle,
                start_spooled,
                playing: false,
                frames: 0,
            }),
    {
        JetDeck {
            engine: JetEngine::new(fpu, sample_rate, params),
            initial_throttle,
            start_spooled,
            playing: false,
            frames: 0,
            seen,
            mono: Vec::new(),
        }
    }

    /// Take the parameters a poll brought, if it brought some.
    pub fn sync(&mut self, fresh: Option<JetParams>)
        requires
            old(self).wf(),
        ensures
            final(self).wf(),
            final(self).seen == old(self).seen,
            final(self).frames == old(self).frames,
            forall|f: Sums| final(self)@ == #[trigger] old(self)@.synced(f, fresh),
    {
        match fresh {
            Some(p) => self.engine.set_params(p),
            None => {},
        }
    }

    /// Start at the initial throttle.
    pub fn begin<F: Fn(Prim, Single, Single) -> Single>(&mut self, fpu: &F, fresh: Option<JetParams>)
        requires
            total(*fpu),
            old(self).wf(),
        ensures
            final(self).wf(),
            final(self).seen == old(self).seen,
            forall|f: Sums| #[trigger] meant(*fpu, f) ==> final(self)@ == old(self)@.started(f, fresh),
    {
        self.sync(fresh);
        let ghost synced = self@;
        self.engine.set_throttle(self.initial_throttle);
        if self.start_spooled {
            self.engine.snap_rpm(fpu);
        }
        self.frames = 0;
        self.playing = true;
        proof {
            assert forall|f: Sums| #[trigger] meant(*fpu, f) implies self@ == old(self)@.started(f, fresh) by {
                assert(synced == old(self)@.synced(f, fresh));
            }
        }
    }

    /// Start at the initial throttle with the parameters published last, where the lock on them is
    /// free.
    pub fn start<F: Fn(Prim, Single, Single) -> Single>(&mut self, fpu: &F, shared: &Shared<JetParams>)
        requires
            total(*fpu),
            old(self).wf(),
        ensures
            final(self).wf(),
            forall|f: Sums| #[trigger] meant(*fpu, f) ==> exists|fresh: Option<JetParams>|
                final(self)@ == #[trigger] old(self)@.started(f, fresh),
    {
        let fresh = shared.poll(&mut self.seen);
        assert(self@ == old(self)@);
        self.begin(fpu, fresh);
        assert(forall|f: Sums| #[trigger] meant(*fpu, f) ==> self@ == old(self)@.started(f, fresh));
    }

    /// The engine keeps its state.
    pub fn stop(&mut self)
        requires
            old(self).wf(),
        ensures
            final(self).wf(),
            final(self).seen == old(self).seen,
            final(self)@ == (JetDeckView { playing: false, ..old(self)@ }),
    {
        self.playing = false;
    }

    pub fn is_playing(&self) -> (r: bool)
        ensures
            r == self@.playing,
    {
        self.playing
    }

    /// Frames rendered since the start.
    pub fn frames_rendered(&self) -> (r: u64)
        ensures
            r == self@.frames,
    {
        self.frames
    }

    /// Take a command from the game's thread.
    pub fn apply<F: Fn(Prim, Single, Single) -> Single>(&mut self, fpu: &F, cmd: JetCommand)
        requires
            total(*fpu),
            old(self).wf(),
        ensures
            final(self).wf(),
            final(self).seen == old(self).seen,
            forall|f: Sums| #[trigger] meant(*fpu, f) ==> final(self)@ == (JetDeckView {
                engine: old(self)@.engine.applied(f, cmd),
                ..old(self)@
            }),
    {
        self.engine.apply(fpu, cmd);
    }

    /// Take the commands that wait in a queue, in their order.
    pub fn drain<F: Fn(Prim, Single, Single) -> Single>(&mut self, fpu: &F, rx: &mut Consumer<JetCommand>)
        requires
            total(*fpu),
            old(self).wf(),
        ensures
            final(self).wf(),
            final(self).seen == old(self).seen,
            exists|cmds: Seq<JetCommand>| {
                &&& #[trigger] crate::queue::taken_in_order(crate::queue::jet_known(&*old(rx)), cmds, crate::queue::jet_known(&*final(rx)))
                &&& forall|f: Sums| #[trigger] meant(*fpu, f) ==> final(self)@ == old(self)@.commanded(f, cmds)
                &&& crate::queue::jet_known(&*final(rx)).len() == 0
            },
    {
        let ghost mut cmds: Seq<JetCommand> = seq![];
        let count = jet_waiting(rx);
        let mut i: usize = 0;
        assert(forall|f: Sums| #[trigger] meant(*fpu, f) ==> self@ == old(self)@.commanded(f, cmds));
        assert(cmds + crate::queue::jet_known(&*rx) =~= crate::queue::jet_known(&*rx));
        while i < count
            invariant
                i <= count,
                count - i == crate::queue::jet_known(&*rx).len(),
                crate::queue::taken_in_order(crate::queue::jet_known(&*old(rx)), cmds, crate::queue::jet_known(&*rx)),
                total(*fpu),
                self.wf(),
                self.seen == old(self).seen,
                forall|f: Sums| #[trigger] meant(*fpu, f) ==> self@ == old(self)@.commanded(f, cmds),
            decreases count - i,
        {
            let ghost known = crate::queue::jet_known(&*rx);
            match jet_next(rx) {
                Some(cmd) => {
                    self.apply(fpu, cmd);
                    proof {
                        let more = cmds.push(cmd);
                        assert(more.drop_last() =~= cmds);
                        assert(forall|f: Sums| #[trigger] meant(*fpu, f) ==> self@ == old(self)@.commanded(f, more));
                        assert(cmds + known =~= more + known.skip(1));
                        cmds = more;
                    }
                },
                None => {},
            }
            i = i + 1;
        }
        assert(crate::queue::taken_in_order(crate::queue::jet_known(&*old(rx)), cmds, crate::queue::jet_known(&*rx)));
    }

    /// Mix the next frames with the parameters a poll brought.
    pub fn fill<F: Fn(Prim, Single, Single) -> Single>(&mut self, fpu: &F, fresh: Option<JetParams>, out: &mut Vec<StereoFrame>)
        requires
            total(*fpu),
            old(self).wf(),
            old(self)@.frames + old(out)@.len() <= u64::MAX,
        ensures
            final(self).wf(),
            final(self).seen == old(self).seen,
            final(out)@.len() == old(out)@.len(),
            forall|f: Sums| #[trigger] meant(*fpu, f) ==> (final(self)@, final(out)@) == old(self)@.mixed(f, fresh, silence(old(out)@.len())),
    {
        self.sync(fresh);
        let ghost synced = self@;
        engine_frames(fpu, &mut self.engine, &mut self.mono, out);
        self.frames = self.frames + out.len() as u64;
        proof {
            assert forall|f: Sums| #[trigger] meant(*fpu, f) implies (self@, out@) == old(self)@.mixed(f, fresh, silence(old(out)@.len())) by {
                assert(synced == old(self)@.synced(f, fresh));
            }
        }
    }

    /// Mix the next frames with the parameters published last, where the lock on them is free.
    pub fn mix<F: Fn(Prim, Single, Single) -> Single>(&mut self, fpu: &F, shared: &Shared<JetParams>, out: &mut Vec<StereoFrame>)
        requires
            total(*fpu),
            old(self).wf(),
            old(self)@.frames + old(out)@.len() <= u64::MAX,
        ensures
            final(self).wf(),
            final(out)@.len() == old(out)@.len(),
            forall|f: Sums| #[trigger] meant(*fpu, f) ==> exists|fresh: Option<JetParams>|
                (final(self)@, final(out)@) == #[trigger] old(self)@.mixed(f, fresh, silence(old(out)@.len())),
    {
        let fresh = shared.poll(&mut self.seen);
        self.fill(fpu, fresh, out);
    }
}

/// Parameter values shared from a sound's definition to what plays it. The generation changes whenever
/// the model itself changes, so that values meant for another set of parameters are never applied.
#[derive(Clone, Copy)]
pub struct ParamBlock {
    pub generation: u32,
    pub count: usize,
    pub values: [Single; 64],
}

impl ParamBlock {
    /// The values it holds.
    pub open spec fn held(self) -> Seq<Single> {
        self.values@.take(
            if self.count < MAX_PARAMS {
                self.count as int
            } else {
                MAX_PARAMS as int
            },
        )
    }
}

/// What the game's thread asks of a playing instrument.
#[derive(Clone, Copy)]
pub enum InstrumentCommand {
    Input(usize, Single),
    Param(usize, Single),
    Preset(usize),
    Snap,
    /// Fire an event again.
    Trigger,
}

/// An instrument being played, as a value.
pub struct InstrumentDeckView {
    pub instrument: InstrumentView,
    pub generation: u32,
    pub start_snapped: bool,
    pub playing: bool,
    pub frames: u64,
}

impl InstrumentDeckView {
    /// With the values a poll brought, if it brought some of the same generation.
    pub open spec fn synced(self, fresh: Option<ParamBlock>) -> InstrumentDeckView {
        match fresh {
            Some(b) if b.generation == self.generation => InstrumentDeckView {
                instrument: self.instrument.with_params(b.held()),
                ..self
            },
            _ => self,
        }
    }

    /// Started, snapped to the inputs or not; an event fires.
    pub open spec fn started(self, f: Sums, fresh: Option<ParamBlock>) -> InstrumentDeckView {
        let i = self.synced(fresh).instrument;
        let j = if self.start_snapped {
            i.snapped(f)
        } else {
            i
        };
        InstrumentDeckView {
            instrument: if j.one_shot() {
                j.fired(f)
            } else {
                j
            },
            playing: true,
            frames: 0,
            ..self
        }
    }

    pub open spec fn applied(self, f: Sums, cmd: InstrumentCommand) -> InstrumentDeckView {
        let i = self.instrument;
        InstrumentDeckView {
            instrument: match cmd {
                InstrumentCommand::Input(k, v) => i.with_input(k as int, v),
                InstrumentCommand::Param(k, v) => i.with_param(k as int, v),
                InstrumentCommand::Preset(k) => i.with_preset(k as int),
                InstrumentCommand::Snap => i.snapped(f),
                InstrumentCommand::Trigger => i.fired(f),
            },
            ..self
        }
    }

    /// With commands taken, one after another.
    pub open spec fn commanded(self, f: Sums, cmds: Seq<InstrumentCommand>) -> InstrumentDeckView
        decreases cmds.len(),
    {
        if cmds.len() == 0 {
            self
        } else {
            self.commanded(f, cmds.drop_last()).applied(f, cmds.last())
        }
    }

    /// After frames in place of `x`, and the frames. An event that has rung out plays no more.
    pub open spec fn mixed(self, f: Sums, fresh: Option<ParamBlock>, x: Seq<Single>) -> (InstrumentDeckView, Seq<StereoFrame>) {
        let (instrument, out) = self.synced(fresh).instrument.rendered(f, x);
        let over = instrument.one_shot() && instrument.finished(f);
        (
            InstrumentDeckView { instrument, playing: self.playing && !over, frames: (self.frames + x.len()) as u64, ..self },
            framed(out),
        )
    }
}

/// Set the first parameters of an instrument to the values of a block.
pub fn take_values(instrument: &mut Instrument, block: &ParamBlock)
    requires
        old(instrument).wf(),
    ensures
        final(instrument).wf(),
        final(instrument).shown() == old(instrument).shown(),
        final(instrument)@ == old(instrument)@.with_params(block.held()),
{
    let count: usize = if block.count < MAX_PARAMS { block.count } else { MAX_PARAMS };
    let mut i: usize = 0;
    assert(block.values@.take(0) =~= seq![]);
    while i < count
        invariant
            i <= count <= MAX_PARAMS == block.values@.len(),
            instrument.wf(),
            instrument.shown() == old(instrument).shown(),
            instrument@ == old(instrument)@.with_params(block.values@.take(i as int)),
        decreases count - i,
    {
        instrument.set_param(i, block.values[i]);
        i = i + 1;
        assert(block.values@.take(i as int).drop_last() =~= block.values@.take(i - 1));
    }
}

/// Set inputs of an instrument.
pub fn take_inputs(instrument: &mut Instrument, inputs: &Vec<(usize, Single)>)
    requires
        old(instrument).wf(),
    ensures
        final(instrument).wf(),
        final(instrument).shown() == old(instrument).shown(),
        final(instrument)@ == old(instrument)@.with_inputs(inputs@),
{
    let mut i: usize = 0;
    assert(inputs@.take(0) =~= seq![]);
    while i < inputs.len()
        invariant
            i <= inputs@.len(),
            instrument.wf(),
            instrument.shown() == old(instrument).shown(),
            instrument@ == old(instrument)@.with_inputs(inputs@.take(i as int)),
        decreases inputs@.len() - i,
    {
        let (index, value) = inputs[i];
        instrument.set_input(index, value);
        i = i + 1;
        assert(inputs@.take(i as int).drop_last() =~= inputs@.take(i - 1));
    }
    assert(inputs@.take(i as int) =~= inputs@);
}

/// An instrument being played.
pub struct InstrumentDeck {
    pub instrument: Instrument,
    pub generation: u32,
    pub start_snapped: bool,
    pub playing: bool,
    pub frames: u64,
    /// Version of the shared values that was taken last.
    pub seen: u32,
    pub mono: Vec<Single>,
}

impl View for InstrumentDeck {
    type V = InstrumentDeckView;

    open spec fn view(&self) -> InstrumentDeckView {
        InstrumentDeckView {
            instrument: self.instrument@,
            generation: self.generation,
            start_snapped: self.start_snapped,
            playing: self.playing,
            frames: self.frames,
        }
    }
}

impl InstrumentDeck {
    pub open spec fn wf(self) -> bool {
        self.instrument.wf()
    }

    /// A deck that does not play yet, with the values published last and the inputs to start with.
    pub fn new(instrument: Instrument, block: ParamBlock, inputs: &Vec<(usize, Single)>, seen: u32, start_snapped: bool) -> (r: InstrumentDeck)
        requires
            instrument.wf(),
        ensures
            r.wf(),
            r.instrument.shown() == instrument.shown(),
            r.seen == seen,
            r@ == (InstrumentDeckView {
                instrument: instrument@.with_params(block.held()).with_inputs(inputs@),
                generation: block.generation,
                start_snapped,
                playing: false,
                frames: 0,
            }),
    {
        let mut instrument = instrument;
        take_values(&mut instrument, &block);
        take_inputs(&mut instrument, inputs);
        InstrumentDeck {
            instrument,
            generation: block.generation,
            start_snapped,
            playing: false,
            frames: 0,
            seen,
            mono: Vec::new(),
        }
    }

    /// Take the values a poll brought, if they are meant for this model.
    pub fn sync(&mut self, fresh: Option<ParamBlock>)
        requires
            old(self).wf(),
        ensures
            final(self).wf(),
            final(self).instrument.shown() == old(self).instrument.shown(),
            final(self).seen == old(self).seen,
            final(self)@ == old(self)@.synced(fresh),
    {
        match fresh {
            Some(block) => {
                if block.generation == self.generation {
                    take_values(&mut self.instrument, &block);
                }
            },
            None => {},
        }
    }

    /// Start with the values a poll brought.
    pub fn begin<F: Fn(Prim, Single, Single) -> Single>(&mut self, fpu: &F, fresh: Option<ParamBlock>)
        requires
            total(*fpu),
            old(self).wf(),
        ensures
            final(self).wf(),
            final(self).instrument.shown() == old(self).instrument.shown(),
            final(self).seen == old(self).seen,
            forall|f: Sums| #[trigger] meant(*fpu, f) ==> final(self)@ == old(self)@.started(f, fresh),
    {
        self.sync(fresh);
        if self.start_snapped {
            self.instrument.snap(fpu);
        }
        if self.instrument.is_one_shot() {
            self.instrument.trigger(fpu);
        }
        self.frames = 0;
        self.playing = true;
    }

    /// Start with the values published last, where the lock on them is free.
    pub fn start<F: Fn(Prim, Single, Single) -> Single>(&mut self, fpu: &F, shared: &Shared<ParamBlock>)
        requires
            total(*fpu),
            old(self).wf(),
        ensures
            final(self).wf(),
            final(self).instrument.shown() == old(self).instrument.shown(),
            forall|f: Sums| #[trigger] meant(*fpu, f) ==> exists|fresh: Option<ParamBlock>|
                final(self)@ == #[trigger] old(self)@.started(f, fresh),
    {
        let fresh = shared.poll(&mut self.seen);
        assert(self@ == old(self)@);
        self.begin(fpu, fresh);
        assert(forall|f: Sums| #[trigger] meant(*fpu, f) ==> self@ == old(self)@.started(f, fresh));
    }

    /// The instrument keeps its state.
    pub fn stop(&mut self)
        requires
            old(self).wf(),
        ensures
            final(self).wf(),
            final(self).seen == old(self).seen,
            final(self).instrument.shown() == old(self).instrument.shown(),
            final(self)@ == (InstrumentDeckView { playing: false, ..old(self)@ }),
    {
        self.playing = false;
    }

    pub fn is_playing(&self) -> (r: bool)
        ensures
            r == self@.playing,
    {
        self.playing
    }

    /// Frames rendered since the start.
    pub fn frames_rendered(&self) -> (r: u64)
        ensures
            r == self@.frames,
    {
        self.frames
    }

    /// Take a command from the game's thread.
    pub fn apply<F: Fn(Prim, Single, Single) -> Single>(&mut self, fpu: &F, cmd: InstrumentCommand)
        requires
            total(*fpu),
            old(self).wf(),
        ensures
            final(self).wf(),
            final(self).instrument.shown() == old(self).instrument.shown(),
            final(self).seen == old(self).seen,
            forall|f: Sums| #[trigger] meant(*fpu, f) ==> final(self)@ == old(self)@.applied(f, cmd),
    {
        match cmd {
            InstrumentCommand::Input(i, v) => self.instrument.set_input(i, v),
            InstrumentCommand::Param(i, v) => self.instrument.set_param(i, v),
            InstrumentCommand::Preset(i) => {
                let _ = self.instrument.load_preset(i);
            },
            InstrumentCommand::Snap => self.instrument.snap(fpu),
            InstrumentCommand::Trigger => self.instrument.trigger(fpu),
        }
    }

    /// Take the commands that wait in a queue, in their order.
    pub fn drain<F: Fn(Prim, Single, Single) -> Single>(&mut self, fpu: &F, rx: &mut Consumer<InstrumentCommand>)
        requires
            total(*fpu),
            old(self).wf(),
        ensures
            final(self).wf(),
            final(self).instrument.shown() == old(self).instrument.shown(),
            final(self).seen == old(self).seen,
            exists|cmds: Seq<InstrumentCommand>| {
                &&& #[trigger] crate::queue::taken_in_order(crate::queue::instrument_known(&*old(rx)), cmds, crate::queue::instrument_known(&*final(rx)))
                &&& forall|f: Sums| #[trigger] meant(*fpu, f) ==> final(self)@ == old(self)@.commanded(f, cmds)
                &&& crate::queue::instrument_known(&*final(rx)).len() == 0
            },
    {
        let ghost mut cmds: Seq<InstrumentCommand> = seq![];
        let count = instrument_waiting(rx);
        let mut i: usize = 0;
        assert(forall|f: Sums| #[trigger] meant(*fpu, f) ==> self@ == old(self)@.commanded(f, cmds));
        assert(cmds + crate::queue::instrument_known(&*rx) =~= crate::queue::instrument_known(&*rx));
        while i < count
            invariant
                i <= count,
                count - i == crate::queue::instrument_known(&*rx).len(),
                crate::queue::taken_in_order(crate::queue::instrument_known(&*old(rx)), cmds, crate::queue::instrument_known(&*rx)),
                total(*fpu),
                self.wf(),
                self.instrument.shown() == old(self).instrument.shown(),
                self.seen == old(self).seen,
                forall|f: Sums| #[trigger] meant(*fpu, f) ==> self@ == old(self)@.commanded(f, cmds),
            decreases count - i,
        {
            let ghost known = crate::queue::instrument_known(&*rx);
            match instrument_next(rx) {
                Some(cmd) => {
                    self.apply(fpu, cmd);
                    proof {
                        let more = cmds.push(cmd);
                        assert(more.drop_last() =~= cmds);
                        assert(forall|f: Sums| #[trigger] meant(*fpu, f) ==> self@ == old(self)@.commanded(f, more));
                        assert(cmds + known =~= more + known.skip(1));
                        cmds = more;
                    }
                },
                None => {},
            }
            i = i + 1;
        }
        assert(crate::queue::taken_in_order(crate::queue::instrument_known(&*old(rx)), cmds, crate::queue::instrument_known(&*rx)));
    }

    /// Mix the next frames with the values a poll brought.
    pub fn fill<F: Fn(Prim, Single, Single) -> Single>(&mut self, fpu: &F, fresh: Option<ParamBlock>, out: &mut Vec<StereoFrame>)
        requires
            total(*fpu),
            old(self).wf(),
            old(self)@.frames + old(out)@.len() <= u64::MAX,
        ensures
            final(self).wf(),
            final(self).instrument.shown() == old(self).instrument.shown(),
            final(self).seen == old(self).seen,
            final(out)@.len() == old(out)@.len(),
            forall|f: Sums| #[trigger] meant(*fpu, f) ==> (final(self)@, final(out)@) == old(self)@.mixed(f, fresh, silence(old(out)@.len())),
    {
        self.sync(fresh);
        let ghost synced = self@;
        sized(&mut self.mono, out.len());
        let ghost before = self.mono@;
        self.instrument.render_mono(fpu, &mut self.mono);
        fill_frames(&self.mono, out);
        self.frames = self.frames + out.len() as u64;
        if self.instrument.is_one_shot() && self.instrument.is_finished(fpu) {
            self.playing = false;
        }
        proof {
            assert forall|f: Sums| #[trigger] meant(*fpu, f) implies (self@, out@) == old(self)@.mixed(f, fresh, silence(old(out)@.len())) by {
                crate::instrument::lemma_instrument_overwrites(synced.instrument, f, before, silence(old(out)@.len()));
            }
        }
    }

    /// Mix the next frames with the values published last, where the lock on them is free.
    pub fn mix<F: Fn(Prim, Single, Single) -> Single>(&mut self, fpu: &F, shared: &Shared<ParamBlock>, out: &mut Vec<StereoFrame>)
        requires
            total(*fpu),
            old(self).wf(),
            old(self)@.frames + old(out)@.len() <= u64::MAX,
        ensures
            final(self).wf(),
            final(self).instrument.shown() == old(self).instrument.shown(),
            final(out)@.len() == old(out)@.len(),
            forall|f: Sums| #[trigger] meant(*fpu, f) ==> exists|fresh: Option<ParamBlock>|
                (final(self)@, final(out)@) == #[trigger] old(self)@.mixed(f, fresh, silence(old(out)@.len())),
    {
        let fresh = shared.poll(&mut self.seen);
        self.fill(fpu, fresh, out);
    }
}

/// A stopped synth is silent.
pub proof fn lemma_stop_silences(d: SynthDeckView)
    ensures
        d.stopped().synth.silent(),
        !d.stopped().playing,
{
    crate::synth::lemma_panic_silences(d.synth);
}

/// Values meant for another model change nothing.
pub proof fn lemma_stale_values_are_ignored(d: InstrumentDeckView, block: ParamBlock)
    requires
        block.generation != d.generation,
    ensures
        d.synced(Some(block)) == d,
{
}

} // verus!
