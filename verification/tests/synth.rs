use gamesynth::arith::Prim;
use gamesynth::env::AdsrParams;
use gamesynth::filter::FilterMode;
use gamesynth::math::Rng;
use gamesynth::osc::Waveform;
use gamesynth::params::ParamKind;
use gamesynth::patch::{ParamId, Patch};
use gamesynth::render::{peak, render_events, render_one_shot, rms};
use gamesynth::sfx::{mutate, SfxPreset};
use gamesynth::single::Single;
use gamesynth::synth::{Command, StereoFrame, Synth, MAX_VOICES};

const SR: f32 = 48000.0;

fn s(x: f32) -> Single {
    Single { bits: x.to_bits() }
}

fn v(x: Single) -> f32 {
    f32::from_bits(x.bits)
}

fn fpu(p: Prim, x: Single, y: Single) -> Single {
    let (a, b) = (v(x), v(y));
    s(match p {
        Prim::Add => a + b,
        Prim::Sub => a - b,
        Prim::Mul => a * b,
        Prim::Div => a / b,
        Prim::Rem => a.rem_euclid(b),
        Prim::Pow => a.powf(b),
        Prim::Sqrt => a.sqrt(),
        Prim::Exp => a.exp(),
        Prim::Exp2 => a.exp2(),
        Prim::Ln => a.ln(),
        Prim::Log2 => a.log2(),
        Prim::Sin => a.sin(),
        Prim::Cos => a.cos(),
        Prim::Tan => a.tan(),
        Prim::Floor => a.floor(),
        Prim::Fract => a.fract(),
        Prim::Round => a.round(),
    })
}

fn floats(x: &[Single]) -> Vec<f32> {
    x.iter().map(|y| v(*y)).collect()
}

fn level(x: &[Single]) -> f32 {
    v(rms(&fpu, &x.to_vec()))
}

fn top(x: &[Single]) -> f32 {
    v(peak(&x.to_vec()))
}

fn adsr(a: f32, d: f32, su: f32, r: f32) -> AdsrParams {
    AdsrParams::new(s(a), s(d), s(su), s(r))
}

fn sine_patch() -> Patch {
    let mut p = Patch::default();
    p.osc1.wave = Waveform::Sine;
    p.filter.mode = FilterMode::Off;
    p.amp_env = adsr(0.0, 0.0, 1.0, 0.01);
    // Stay below the master limiter knee so tests measure the raw signal.
    p.gain = s(0.5);
    p
}

fn all_finite(x: &[Single]) -> bool {
    x.iter().all(|y| v(*y).is_finite())
}

fn crossings(x: &[f32]) -> usize {
    x.windows(2).filter(|w| (w[0] < 0.0) != (w[1] < 0.0)).count()
}

fn zeros(n: usize) -> Vec<Single> {
    vec![s(0.0); n]
}

#[test]
fn sine_has_expected_amplitude_and_frequency() {
    let p = sine_patch();
    let mut synth = Synth::with_patch(&fpu, s(SR), p);
    synth.note_on(&fpu, s(69.0), s(1.0));
    let mut out = zeros(SR as usize);
    synth.render_mono(&fpu, &mut out);
    assert!(all_finite(&out));
    let pk = top(&out[1000..]);
    assert!((pk - 0.5).abs() < 0.01, "peak {pk}");
    // Count zero crossings over one second: 440 Hz -> ~880 crossings.
    let crossings = crossings(&floats(&out));
    assert!((crossings as i32 - 880).abs() <= 2, "crossings {crossings}");
}

#[test]
fn envelope_releases_to_silence() {
    let mut p = sine_patch();
    p.amp_env = adsr(0.01, 0.1, 0.5, 0.1);
    let events = vec![
        (s(0.0), Command::NoteOn { note: s(60.0), velocity: s(1.0), duration: s(0.0) }),
        (s(0.5), Command::NoteOff { note: s(60.0) }),
    ];
    let out = render_events(&fpu, &p, s(SR), &events, s(5.0));
    let secs = out.len() as f32 / SR;
    assert!(secs > 0.5 && secs < 1.5, "rendered {secs}s");
    // Sustain portion should sit near 0.5 * gain(0.5) = 0.25 peak.
    let sustain = top(&out[(0.3 * SR) as usize..(0.45 * SR) as usize]);
    assert!((sustain - 0.25).abs() < 0.02, "sustain {sustain}");
    assert!(top(&out[out.len() - 100..]) < 1e-3);
}

#[test]
fn lowpass_attenuates_high_frequencies() {
    let mut p = sine_patch();
    p.filter.mode = FilterMode::LowPass;
    p.filter.cutoff_hz = s(500.0);
    p.filter.resonance = s(0.0);
    let render = |note: f32| {
        let mut synth = Synth::with_patch(&fpu, s(SR), p);
        synth.note_on(&fpu, s(note), s(1.0));
        let mut out = zeros(SR as usize / 2);
        synth.render_mono(&fpu, &mut out);
        level(&out[4800..])
    };
    let low = render(45.0); // ~110 Hz
    let high = render(105.0); // ~3520 Hz
    assert!(low > 0.3, "low {low}");
    assert!(high < low * 0.1, "high {high} low {low}");
}

#[test]
fn polyphony_and_voice_stealing() {
    let mut p = sine_patch();
    p.polyphony = 4;
    let mut synth = Synth::with_patch(&fpu, s(SR), p);
    for n in 0..10 {
        synth.note_on(&fpu, s(50.0 + n as f32), s(1.0));
    }
    assert_eq!(synth.active_voices(), 4);
    synth.all_notes_off();
    let mut out = zeros(SR as usize / 2);
    synth.render_mono(&fpu, &mut out);
    assert!(synth.is_silent());
    assert_eq!(synth.active_voices(), 0);
}

#[test]
fn mono_legato_glides() {
    let mut p = sine_patch();
    p.polyphony = 1;
    p.pitch.glide = s(0.1);
    let events = vec![
        (s(0.0), Command::NoteOn { note: s(60.0), velocity: s(1.0), duration: s(0.0) }),
        (s(0.2), Command::NoteOn { note: s(72.0), velocity: s(1.0), duration: s(0.0) }),
        (s(0.6), Command::AllNotesOff),
    ];
    let out = render_events(&fpu, &p, s(SR), &events, s(2.0));
    assert!(all_finite(&out));
    // No discontinuity larger than the maximum slope of a 523 Hz sine at 48 kHz (~0.07).
    let max_step = floats(&out).windows(2).map(|w| (w[1] - w[0]).abs()).fold(0.0f32, f32::max);
    assert!(max_step < 0.1, "max step {max_step}");
}

#[test]
fn all_sfx_presets_render_clean_one_shots() {
    for i in 0..SfxPreset::COUNT {
        let preset = SfxPreset::from_index(i);
        for seed in 0..25u32 {
            let patch = preset.generate(&fpu, seed);
            let out = render_one_shot(&fpu, &patch, s(SR), s(6.0));
            assert!(all_finite(&out), "{preset:?} seed {seed} produced NaN/inf");
            assert!(top(&out) > 0.05, "{preset:?} seed {seed} is silent");
            assert!(top(&out) <= 1.0, "{preset:?} seed {seed} peak {}", top(&out));
            let secs = out.len() as f32 / SR;
            assert!(secs < 6.0, "{preset:?} seed {seed} never went silent");
            // Deterministic for a given seed.
            assert_eq!(preset.generate(&fpu, seed), patch);
        }
    }
}

#[test]
fn param_table_round_trips() {
    let mut p = Patch::default();
    for i in 0..ParamId::COUNT {
        let id = ParamId::nth(i);
        assert_eq!(id.index(), i);
        assert_eq!(ParamId::from_name(id.name()), Some(id));
        let x = p.get(id);
        p.set(id, x);
        assert_eq!(p.get(id), x, "{id:?}");
    }
    p.set(ParamId::FilterCutoff, s(1e9));
    assert_eq!(v(p.filter.cutoff_hz), 20000.0);
    p.set(ParamId::Osc1Wave, s(5.0));
    assert_eq!(p.osc1.wave, Waveform::WhiteNoise);
    p.set(ParamId::Polyphony, s(99.0));
    assert_eq!(p.polyphony as usize, MAX_VOICES);
    p.set(ParamId::Gain, s(f32::NAN));
    assert!(v(p.gain).is_finite());
}

#[test]
fn effects_and_lfo_stay_bounded() {
    let mut p = Patch::default();
    p.osc2.wave = Waveform::Pulse;
    p.osc2.level = s(0.7);
    p.osc3.wave = Waveform::PinkNoise;
    p.osc3.level = s(0.3);
    p.filter.resonance = s(1.0);
    p.filter.cutoff_hz = s(300.0);
    p.filter.env_amount = s(5.0);
    p.lfo.pitch = s(2.0);
    p.lfo.cutoff = s(3.0);
    p.lfo.amp = s(0.5);
    p.lfo.pulse_width = s(0.4);
    p.fx.drive = s(1.0);
    p.fx.bit_depth = s(4.0);
    p.fx.downsample = s(6.0);
    p.fx.delay_time = s(0.25);
    p.fx.delay_feedback = s(0.6);
    p.fx.delay_mix = s(0.8);
    p.duration = s(1.0);
    let out = render_one_shot(&fpu, &p, s(SR), s(10.0));
    assert!(all_finite(&out));
    assert!(top(&out) <= 1.0);
    assert!((out.len() as f32 / SR) < 10.0, "delay tail never decayed");
}

#[test]
fn stereo_render_matches_mono() {
    let p = SfxPreset::Pickup.generate(&fpu, 3);
    let mut a = Synth::with_patch(&fpu, s(SR), p);
    let mut b = Synth::with_patch(&fpu, s(SR), p);
    a.trigger(&fpu);
    b.trigger(&fpu);
    let mut mono = zeros(4096);
    let mut stereo = vec![StereoFrame::default(); 4096];
    a.render_mono(&fpu, &mut mono);
    b.render(&fpu, &mut stereo);
    for (m, s) in mono.iter().zip(&stereo) {
        assert_eq!(*m, s.left);
        assert_eq!(s.left, s.right);
    }
}

#[test]
fn renders_faster_than_real_time() {
    let mut p = Patch::default();
    p.osc2.level = s(0.5);
    p.osc3.wave = Waveform::WhiteNoise;
    p.osc3.level = s(0.2);
    p.lfo.pitch = s(0.1);
    p.polyphony = MAX_VOICES as u8;
    p.fx.delay_time = s(0.3);
    p.fx.delay_mix = s(0.3);
    let mut synth = Synth::with_patch(&fpu, s(SR), p);
    for n in 0..MAX_VOICES {
        synth.note_on(&fpu, s(40.0 + n as f32), s(1.0));
    }
    let secs = 2.0;
    let mut out = vec![StereoFrame::default(); 512];
    let start = std::time::Instant::now();
    for _ in 0..((secs * SR) as usize / 512) {
        synth.render(&fpu, &mut out);
    }
    let elapsed = start.elapsed().as_secs_f32();
    // 32 voices should cost far less than one core even in a dev build.
    assert!(elapsed < secs * 0.5, "took {elapsed}s for {secs}s of audio");
}

#[test]
fn a_free_voice_comes_before_a_stolen_one() {
    let mut p = sine_patch();
    p.polyphony = 3;
    p.amp_env = adsr(0.0, 0.0, 1.0, 2.0);
    let mut synth = Synth::with_patch(&fpu, s(SR), p);
    for n in [60.0, 62.0, 64.0] {
        synth.note_on(&fpu, s(n), s(1.0));
    }
    let keys = |y: &Synth| -> Vec<i32> { y.voices.iter().take(4).map(|w| w.key()).collect() };
    assert_eq!(keys(&synth), [60, 62, 64, -1]);
    // The quietest released voice goes first.
    synth.note_off(s(64.0));
    let mut out = zeros(4800);
    synth.render_mono(&fpu, &mut out);
    synth.note_off(s(62.0));
    synth.note_on(&fpu, s(65.0), s(1.0));
    assert_eq!(keys(&synth), [60, 62, 65, -1]);
    // Then the other one, then the oldest held one.
    synth.note_on(&fpu, s(67.0), s(1.0));
    assert_eq!(keys(&synth), [60, 67, 65, -1]);
    synth.note_on(&fpu, s(69.0), s(1.0));
    assert_eq!(keys(&synth), [69, 67, 65, -1]);
    synth.note_on(&fpu, s(71.0), s(1.0));
    assert_eq!(keys(&synth), [69, 67, 71, -1]);
}

#[test]
fn commands_reach_the_synth() {
    let mut synth = Synth::new(&fpu, s(SR));
    assert!(synth.is_silent());
    synth.apply(&fpu, Command::PitchBend(s(3.0)));
    assert_eq!(v(synth.pitch_bend), 1.0);
    synth.apply(&fpu, Command::MasterGain(s(-1.0)));
    assert_eq!(v(synth.master_gain), 0.0);
    synth.apply(&fpu, Command::SetParam(ParamId::Gain, s(0.25)));
    assert_eq!(v(synth.get_param(ParamId::Gain)), 0.25);
    synth.apply(&fpu, Command::Trigger);
    assert_eq!(synth.active_voices(), 1);
    assert_eq!(synth.voices[0].key(), 60);
    synth.apply(&fpu, Command::Panic);
    assert!(synth.is_silent());
    let mut patch = Patch::default();
    patch.gain = s(1.5);
    synth.apply(&fpu, Command::SetPatch(patch));
    assert_eq!(*synth.patch(), patch);
    synth.patch_mut().gain = s(0.75);
    assert_eq!(v(synth.patch().gain), 0.75);
    synth.set_transpose(s(100.0));
    assert_eq!(v(synth.transpose), 48.0);
    synth.set_transpose(s(f32::NAN));
    assert_eq!(v(synth.transpose), 0.0);
    synth.set_sample_rate(&fpu, s(44100.0));
    assert_eq!(v(synth.sample_rate()), 44100.0);
    assert_eq!(synth.fx.echo.delay.len(), 44100);
}

#[test]
fn rendering_whole_chunks_first_changes_nothing() {
    let p = SfxPreset::Laser.generate(&fpu, 5);
    let mut a = Synth::with_patch(&fpu, s(SR), p);
    let mut b = Synth::with_patch(&fpu, s(SR), p);
    a.trigger(&fpu);
    b.trigger(&fpu);
    let mut whole = zeros(1000);
    a.render_mono(&fpu, &mut whole);
    let (mut head, mut tail) = (zeros(512), zeros(488));
    b.render_mono(&fpu, &mut head);
    b.render_mono(&fpu, &mut tail);
    head.extend_from_slice(&tail);
    assert_eq!(whole, head);
}

#[test]
fn delay_repeats_what_it_heard() {
    let mut fx = gamesynth::effects::Effects::new(&fpu, s(1000.0));
    let mut p = Patch::default().fx;
    p.delay_time = s(0.01);
    p.delay_mix = s(0.5);
    p.delay_feedback = s(0.5);
    let mut buf = zeros(32);
    buf[0] = s(1.0);
    fx.process(&fpu, &p, &mut buf, 0, 32);
    let y = floats(&buf);
    assert_eq!((y[0], y[10], y[20], y[30]), (1.0, 0.5, 0.25, 0.125));
    assert!(y.iter().enumerate().all(|(i, x)| i % 10 == 0 || *x == 0.0));
    fx.reset();
    let mut quiet = zeros(32);
    fx.process(&fpu, &p, &mut quiet, 0, 32);
    assert!(floats(&quiet).iter().all(|x| *x == 0.0));
}

#[test]
fn crusher_holds_and_quantises() {
    let mut fx = gamesynth::effects::Effects::new(&fpu, s(1000.0));
    let mut p = Patch::default().fx;
    p.downsample = s(2.0);
    p.bit_depth = s(2.0);
    let mut buf: Vec<Single> = [0.1, 0.3, 0.6, 0.9].iter().map(|x| s(*x)).collect();
    fx.process(&fpu, &p, &mut buf, 0, 4);
    // Two levels a side: every second sample is taken and rounded to halves.
    assert_eq!(floats(&buf), [0.0, 0.5, 0.5, 1.0]);
}

#[test]
fn one_shot_lengths() {
    let mut p = Patch::default();
    assert!(p.one_shot_length(&fpu).is_none());
    p.set_sfx_envelope(&fpu, s(0.5), s(1.0), s(0.25));
    assert_eq!(v(p.duration), 1.5);
    assert_eq!(v(p.one_shot_length(&fpu).unwrap()), 1.75);
    p.duration = s(0.0);
    p.amp_env = adsr(0.5, 0.25, 0.0, 1.0);
    assert_eq!(v(p.one_shot_length(&fpu).unwrap()), 1.0);
}

#[test]
fn mutations_stay_in_range() {
    let mut p = SfxPreset::Laser.generate(&fpu, 1);
    let before = p;
    let mut rng = Rng::new(9);
    for _ in 0..50 {
        mutate(&fpu, &mut p, &mut rng, s(1.0));
    }
    assert_ne!(p, before);
    assert_eq!((p.gain, p.polyphony), (before.gain, before.polyphony));
    for i in 0..ParamId::COUNT {
        let id = ParamId::nth(i);
        let x = v(p.get(id));
        let (lo, hi) = match id.kind() {
            ParamKind::Float { min, max, .. } => (v(min), v(max)),
            ParamKind::Exp { min, max } => (v(min), v(max)),
            ParamKind::Int { min, max } => (min as f32, max as f32),
            ParamKind::Enum(c) => (0.0, c.count() as f32 - 1.0),
        };
        assert!(lo <= x && x <= hi, "{id:?} {x}");
    }
}

#[test]
fn preset_names_are_found_in_any_case() {
    for i in 0..SfxPreset::COUNT {
        let p = SfxPreset::from_index(i);
        assert_eq!(SfxPreset::from_name(&p.name().to_uppercase()), Some(p));
        assert_eq!(p.index(), i);
    }
    let names: Vec<_> = (0..SfxPreset::COUNT).map(|i| SfxPreset::from_index(i).name()).collect();
    assert_eq!(
        names,
        ["Pickup", "Laser", "Explosion", "PowerUp", "Hit", "Jump", "Blip", "Arrow", "Shoot", "Throw", "Random"]
    );
    assert_eq!(SfxPreset::from_name("nope"), None);
    assert_eq!(SfxPreset::from_index(99), SfxPreset::Random);
}

#[test]
fn levels_of_samples() {
    let x: Vec<Single> = [0.5, -1.5, f32::NAN, 1.0].iter().map(|y| s(*y)).collect();
    assert_eq!(v(peak(&x)), 1.5);
    assert_eq!(v(peak(&vec![])), 0.0);
    let y: Vec<Single> = [3.0, -4.0, 3.0, 4.0].iter().map(|z| s(*z)).collect();
    assert_eq!(v(rms(&fpu, &y)), 12.5f32.sqrt());
    assert_eq!(v(rms(&fpu, &vec![])), 0.0);
}

#[test]
fn weapon_presets_differ_by_seed() {
    for p in [SfxPreset::Arrow, SfxPreset::Shoot, SfxPreset::Throw] {
        let (a, b) = (p.generate(&fpu, 1), p.generate(&fpu, 2));
        assert_ne!(a, b, "{p:?}");
        assert_eq!(a.osc1.wave, Waveform::WhiteNoise);
        assert!(v(a.duration) > 0.0, "{p:?} is a one-shot");
    }
}

#[test]
fn mutations_keep_to_their_share_of_the_range() {
    for (seed, amount) in [(1u32, 0.0f32), (2, 0.05), (3, 0.3), (4, 1.0)] {
        let before = SfxPreset::Shoot.generate(&fpu, seed);
        let mut p = before;
        mutate(&fpu, &mut p, &mut Rng::new(seed), s(amount));
        assert_eq!(p == before, amount == 0.0, "amount {amount}");
        for i in 0..ParamId::COUNT {
            let id = ParamId::nth(i);
            let (lo, hi, _) = id.kind().limits();
            let step = (v(p.get(id)) - v(before.get(id))).abs();
            let reach = (v(hi) - v(lo)) * amount;
            assert!(step <= reach * 1.0001 + 1e-6, "{id:?} moved {step}, {reach} allowed");
        }
    }
}

#[test]
fn rendering_may_be_cut_at_control_blocks() {
    let mut p = SfxPreset::Laser.generate(&fpu, 5);
    p.fx.delay_time = s(0.01);
    p.fx.delay_mix = s(0.5);
    let mut a = Synth::with_patch(&fpu, s(SR), p);
    let mut b = Synth::with_patch(&fpu, s(SR), p);
    a.trigger(&fpu);
    b.trigger(&fpu);
    let mut whole = zeros(1000);
    a.render_mono(&fpu, &mut whole);
    let mut parts = Vec::new();
    for n in [32, 96, 320, 552] {
        let mut part = zeros(n);
        b.render_mono(&fpu, &mut part);
        parts.extend_from_slice(&part);
    }
    assert_eq!(whole, parts);
    assert_eq!(a.peak(), b.peak());
}

#[test]
fn a_voice_adds_to_what_is_there() {
    let p = sine_patch();
    let mut quiet = gamesynth::voice::Voice::new(1);
    quiet.note_on(&fpu, &p, s(SR), s(60.0), s(1.0), s(0.0), 1, false);
    let mut busy = quiet;
    let mut x = zeros(100);
    let mut y: Vec<Single> = (0..100).map(|i| s(i as f32 * 0.25)).collect();
    quiet.render(&fpu, &p, s(SR), s(0.0), &mut x, 0, 100);
    busy.render(&fpu, &p, s(SR), s(0.0), &mut y, 0, 100);
    assert_eq!(quiet, busy);
    assert!(x.iter().any(|a| v(*a) != 0.0));
    for i in 0..100 {
        assert_eq!(v(y[i]), i as f32 * 0.25 + v(x[i]));
    }
    quiet.kill();
    let before = y.clone();
    let still = quiet;
    quiet.render(&fpu, &p, s(SR), s(0.0), &mut y, 0, 100);
    assert_eq!(y, before);
    assert_eq!(quiet, still);
}

#[test]
fn generated_patches_are_one_shots() {
    for i in 0..SfxPreset::COUNT {
        for seed in 0..200u32 {
            let p = SfxPreset::from_index(i).generate(&fpu, seed);
            assert_eq!((v(p.amp_env.sustain), p.polyphony), (1.0, 4));
            assert!(v(p.duration) > 0.0);
            assert!(v(p.one_shot_length(&fpu).unwrap()) > 0.0);
        }
    }
}
