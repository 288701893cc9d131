use gamesynth::arith::Prim;
use gamesynth::deck::{
    fill_frames, rate_for, transpose_for, InstrumentCommand, InstrumentDeck, JetDeck, ParamBlock, SynthDeck,
};
use gamesynth::generators::create;
use gamesynth::graph::host::Host;
use gamesynth::graph::spec::{Arg, GraphSpec, InputSpecFile, MetaSpec, ModelSpec, NodeSpec, ParamSpecFile};
use gamesynth::instrument::Instrument;
use gamesynth::jet::{JetCommand, JetEngine, JetPreset};
use gamesynth::patch::Patch;
use gamesynth::sfx::SfxPreset;
use gamesynth::shared::Shared;
use gamesynth::single::Single;
use gamesynth::studio::{build_generator, build_graph, is_json, is_object, join_generator_names, missing_file_text, Definition, Place};
use gamesynth::synth::{Command, StereoFrame, Synth};
use indexmap::IndexMap;
use rtrb::RingBuffer;

const SR: f32 = 48000.0;

fn s(x: f32) -> Single {
    Single { bits: x.to_bits() }
}

fn v(x: Single) -> f32 {
    f32::from_bits(x.bits)
}

fn fpu(p: Prim, x: Single, y: Single) -> Single {
    let (a, b) = (v(x), v(y));
    s(match p {
        Prim::Add => a + b,
        Prim::Sub => a - b,
        Prim::Mul => a * b,
        Prim::Div => a / b,
        Prim::Rem => a.rem_euclid(b),
        Prim::Pow => a.powf(b),
        Prim::Sqrt => a.sqrt(),
        Prim::Exp => a.exp(),
        Prim::Exp2 => a.exp2(),
        Prim::Ln => a.ln(),
        Prim::Log2 => a.log2(),
        Prim::Sin => a.sin(),
        Prim::Cos => a.cos(),
        Prim::Tan => a.tan(),
        Prim::Floor => a.floor(),
        Prim::Fract => a.fract(),
        Prim::Round => a.round(),
    })
}


fn number(text: &String) -> Single {
    s(text.parse().unwrap())
}

fn show(text: &String) -> String {
    format!("{:?}", text.parse::<f32>().unwrap())
}

fn room(n: usize) -> Vec<StereoFrame> {
    vec![StereoFrame { left: s(9.0), right: s(9.0) }; n]
}

fn loudest(out: &[StereoFrame]) -> f32 {
    out.iter().fold(0.0, |p, y| p.max(v(y.left).abs()).max(v(y.right).abs()))
}

fn block(generation: u32, first: f32) -> ParamBlock {
    let mut values = [s(0.0); 64];
    values[0] = s(first);
    ParamBlock { generation, count: 1, values }
}

fn beep(params: usize) -> ModelSpec {
    let empty = String::new;
    let mut args: IndexMap<String, Arg> = IndexMap::new();
    args.insert("freq".to_string(), Arg::Text("p0".to_string()));
    ModelSpec {
        model: MetaSpec { name: "beep".to_string(), category: empty(), doc: "a tone".to_string(), version: 0, one_shot: false },
        inputs: [("on".to_string(), InputSpecFile { default: s(0.75), doc: empty(), smooth: None })].into_iter().collect(),
        params: (0..params)
            .map(|i| {
                let p = ParamSpecFile { default: s(440.0), min: s(100.0), max: s(2000.0), scale: empty(), group: empty() };
                (format!("p{i}"), p)
            })
            .collect(),
        signals: IndexMap::new(),
        graph: GraphSpec {
            nodes: vec![NodeSpec { id: "o".to_string(), kind: "sine".to_string(), inputs: vec![], by: vec![], args }],
            out: "o".to_string(),
        },
        presets: IndexMap::new(),
    }
}

#[test]
fn both_channels_carry_the_sample() {
    let mono: Vec<Single> = (0..5).map(|i| s(i as f32)).collect();
    let mut out = room(5);
    fill_frames(&mono, &mut out);
    for i in 0..5 {
        assert_eq!((v(out[i].left), v(out[i].right)), (i as f32, i as f32));
    }
}

#[test]
fn pitch_scale_becomes_semitones() {
    assert_eq!(v(transpose_for(&fpu, s(2.0))), 12.0);
    assert_eq!(v(transpose_for(&fpu, s(0.5))), -12.0);
    assert_eq!(v(transpose_for(&fpu, s(1.00005))), 0.0);
    assert_eq!(v(transpose_for(&fpu, s(0.0))), 0.0);
    assert_eq!(v(transpose_for(&fpu, s(-3.0))), 0.0);
}

#[test]
fn senseless_rates_are_replaced() {
    assert_eq!(v(rate_for(s(44100.0))), 44100.0);
    assert_eq!(v(rate_for(s(1000.0))), 48000.0);
    assert_eq!(v(rate_for(s(f32::NAN))), 48000.0);
    assert_eq!(v(rate_for(s(f32::INFINITY))), 48000.0);
}

#[test]
fn a_one_shot_plays_and_finishes() {
    let shared = Shared::new(SfxPreset::Blip.generate(&fpu, 3));
    let (patch, version) = shared.snapshot();
    let mut deck = SynthDeck::new(&fpu, s(SR), patch, version, true);
    assert!(!deck.is_playing());
    deck.start(&fpu, &shared);
    assert!(deck.is_playing());
    let mut heard: f32 = 0.0;
    let mut blocks = 0;
    while deck.is_playing() && blocks < 2000 {
        let mut out = room(480);
        deck.mix(&fpu, &shared, s(1.0), &mut out);
        heard = heard.max(loudest(&out));
        blocks += 1;
    }
    assert!(heard > 0.05, "{heard}");
    assert!(!deck.is_playing());
    assert!(blocks >= 6);
    assert_eq!(deck.frames_rendered(), blocks * 480);
    deck.start(&fpu, &shared);
    assert_eq!(deck.frames_rendered(), 0);
    assert!(deck.is_playing());
}

#[test]
fn an_instrument_waits_for_notes_and_stops_at_once() {
    let shared = Shared::new(Patch::default());
    let (patch, version) = shared.snapshot();
    let mut deck = SynthDeck::new(&fpu, s(SR), patch, version, false);
    deck.start(&fpu, &shared);
    let mut out = room(4800);
    deck.mix(&fpu, &shared, s(1.0), &mut out);
    assert_eq!(loudest(&out), 0.0);
    assert!(deck.is_playing());
    deck.apply(&fpu, Command::NoteOn { note: s(60.0), velocity: s(1.0), duration: s(0.0) });
    deck.mix(&fpu, &shared, s(1.0), &mut out);
    assert!(loudest(&out) > 0.05);
    deck.stop();
    assert!(!deck.is_playing());
    deck.mix(&fpu, &shared, s(1.0), &mut out);
    assert_eq!(loudest(&out), 0.0);
}

#[test]
fn queued_commands_are_taken_in_order() {
    let (mut tx, mut rx) = RingBuffer::new(8);
    let mut deck = SynthDeck::new(&fpu, s(SR), Patch::default(), 1, false);
    deck.begin(&fpu, None);
    assert!(tx.push(Command::MasterGain(s(0.5))).is_ok());
    assert!(tx.push(Command::Trigger).is_ok());
    assert!(tx.push(Command::MasterGain(s(1.5))).is_ok());
    deck.drain(&fpu, &mut rx);
    assert_eq!(v(deck.synth.master_gain), 1.5);
    assert_eq!(deck.synth.active_voices(), 1);
    assert!(rx.pop().is_err());
    deck.drain(&fpu, &mut rx);
    assert_eq!(deck.synth.active_voices(), 1);

    let (mut tx, mut rx) = RingBuffer::new(8);
    let mut jet = JetDeck::new(&fpu, s(SR), JetPreset::Racer.params(), 1, s(0.0), false);
    assert!(tx.push(JetCommand::Throttle(s(0.25))).is_ok());
    assert!(tx.push(JetCommand::Throttle(s(0.75))).is_ok());
    jet.drain(&fpu, &mut rx);
    assert_eq!(v(jet.engine.throttle()), 0.75);

    let (mut tx, mut rx) = RingBuffer::new(8);
    let none = ParamBlock { generation: 0, count: 0, values: [s(0.0); 64] };
    let made = build_generator(&fpu, "fire", s(SR)).unwrap();
    let mut deck = InstrumentDeck::new(made, none, &vec![], 1, true);
    assert!(tx.push(InstrumentCommand::Input(0, s(0.5))).is_ok());
    assert!(tx.push(InstrumentCommand::Input(0, s(9.0))).is_ok());
    deck.drain(&fpu, &mut rx);
    assert_eq!(v(deck.instrument.input(0)), 1.0);
}

#[test]
fn a_deck_follows_the_shared_patch() {
    let shared = Shared::new(Patch::default());
    let (patch, version) = shared.snapshot();
    let mut deck = SynthDeck::new(&fpu, s(SR), patch, version, false);
    let mut silent = Patch::default();
    silent.gain = s(0.0);
    shared.publish(silent);
    deck.start(&fpu, &shared);
    deck.apply(&fpu, Command::NoteOn { note: s(60.0), velocity: s(1.0), duration: s(0.0) });
    let mut out = room(4800);
    deck.mix(&fpu, &shared, s(1.0), &mut out);
    assert_eq!(loudest(&out), 0.0);
    shared.publish(Patch::default());
    deck.mix(&fpu, &shared, s(1.0), &mut out);
    assert!(loudest(&out) > 0.05);
}

#[test]
fn a_deck_mixes_what_the_synth_renders() {
    let mut deck = SynthDeck::new(&fpu, s(SR), Patch::default(), 1, false);
    let mut synth = Synth::with_patch(&fpu, s(SR), Patch::default());
    deck.begin(&fpu, None);
    deck.apply(&fpu, Command::Trigger);
    synth.apply(&fpu, Command::Trigger);
    synth.set_transpose(s(12.0));
    let mut out = room(1000);
    deck.fill(&fpu, None, s(2.0), &mut out);
    let mut mono = vec![s(0.0); 1000];
    synth.render_mono(&fpu, &mut mono);
    for i in 0..1000 {
        assert_eq!(out[i].left.bits, mono[i].bits);
        assert_eq!(out[i].right.bits, mono[i].bits);
    }
}

#[test]
fn a_jet_starts_spooled_or_idle() {
    let params = JetPreset::Racer.params();
    let shared = Shared::new(params);
    let mut idle = JetDeck::new(&fpu, s(SR), params, 1, s(1.0), false);
    let mut spooled = JetDeck::new(&fpu, s(SR), params, 1, s(1.0), true);
    idle.start(&fpu, &shared);
    spooled.start(&fpu, &shared);
    assert!(v(idle.engine.rpm()) < v(spooled.engine.rpm()));
    assert_eq!(v(spooled.engine.throttle()), 1.0);
    let mut out = room(777);
    spooled.mix(&fpu, &shared, &mut out);
    assert!(loudest(&out) > 0.01);
    assert_eq!(spooled.frames_rendered(), 777);
    spooled.apply(&fpu, JetCommand::Throttle(s(0.25)));
    assert_eq!(v(spooled.engine.throttle()), 0.25);
    shared.publish(JetPreset::Heavy.params());
    spooled.mix(&fpu, &shared, &mut out);
    assert_eq!(*spooled.engine.params(), JetPreset::Heavy.params());
    spooled.stop();
    assert!(!spooled.is_playing());
}

#[test]
fn a_jet_deck_does_not_hear_old_buffers() {
    let params = JetPreset::Turbine.params();
    let mut deck = JetDeck::new(&fpu, s(SR), params, 1, s(0.5), true);
    let mut engine = JetEngine::new(&fpu, s(SR), params);
    engine.set_throttle(s(0.5));
    engine.snap_rpm(&fpu);
    deck.begin(&fpu, None);
    for n in [320, 64, 96] {
        let mut out = room(n);
        deck.fill(&fpu, None, &mut out);
        let mut mono = vec![s(3.0); n];
        engine.render_mono(&fpu, &mut mono);
        for i in 0..n {
            assert_eq!(out[i].left.bits, mono[i].bits);
        }
    }
}

#[test]
fn values_of_another_generation_are_ignored() {
    let made = create(&fpu, "wind", s(SR)).unwrap();
    let plain = made.param(0);
    let mut deck = InstrumentDeck::new(Instrument::Native(made), ParamBlock { generation: 3, count: 0, values: [s(0.0); 64] }, &vec![], 1, true);
    assert_eq!(deck.instrument.param(0), plain);
    let low = v(deck.instrument.desc().params[0].kind.limits().0);
    deck.sync(Some(block(2, low)));
    assert_eq!(deck.instrument.param(0), plain);
    deck.sync(Some(block(3, low)));
    assert_eq!(v(deck.instrument.param(0)), low);
}

#[test]
fn an_instrument_deck_takes_commands() {
    let made = create(&fpu, "rain", s(SR)).unwrap();
    let shared = Shared::new(ParamBlock { generation: 1, count: 0, values: [s(0.0); 64] });
    let (values, version) = shared.snapshot();
    let mut deck = InstrumentDeck::new(Instrument::Native(made), values, &vec![], version, true);
    deck.start(&fpu, &shared);
    assert!(deck.is_playing());
    deck.apply(&fpu, InstrumentCommand::Input(0, s(1.0)));
    assert_eq!(v(deck.instrument.input(0)), 1.0);
    deck.apply(&fpu, InstrumentCommand::Snap);
    let mut out = room(9600);
    deck.mix(&fpu, &shared, &mut out);
    assert!(loudest(&out) > 0.01);
    assert_eq!(deck.frames_rendered(), 9600);
    let top = deck.instrument.desc().params[0].kind.limits().1;
    deck.apply(&fpu, InstrumentCommand::Param(0, s(1e9)));
    assert_eq!(deck.instrument.param(0), top);
    deck.apply(&fpu, InstrumentCommand::Preset(0));
    assert_eq!(deck.instrument.param(0), deck.instrument.desc().params[0].default);
    deck.stop();
    assert!(!deck.is_playing());
}

#[test]
fn an_event_fires_at_the_start_and_finishes() {
    let none = ParamBlock { generation: 0, count: 0, values: [s(0.0); 64] };
    let shared = Shared::new(none);
    let mut d = Definition::new(&fpu);
    assert!(!d.is_one_shot());
    d.install(build_generator(&fpu, "explosion", s(SR)));
    assert!(d.is_one_shot());
    assert!(d.set_start_input("power", s(0.25)));
    assert!(d.set_start_input("distance", s(0.5)));
    assert!(d.set_start_input("power", s(1.0)));
    assert!(!d.set_start_input("colour", s(1.0)));
    assert_eq!(d.start_inputs.len(), 2);
    let made = build_generator(&fpu, "explosion", s(SR)).unwrap();
    let mut deck = InstrumentDeck::new(made, none, &d.start_inputs, 1, true);
    let power = deck.instrument.desc().input_index("power").unwrap();
    assert_eq!(v(deck.instrument.input(power)), 1.0);
    deck.start(&fpu, &shared);
    let mut heard: f32 = 0.0;
    let mut blocks = 0;
    while deck.is_playing() && blocks < 200 {
        let mut out = room(4800);
        deck.mix(&fpu, &shared, &mut out);
        heard = heard.max(loudest(&out));
        blocks += 1;
    }
    assert!(heard > 0.05 && blocks > 2 && blocks < 200, "{heard} {blocks}");
    deck.apply(&fpu, InstrumentCommand::Trigger);
    let mut out = room(4800);
    deck.mix(&fpu, &shared, &mut out);
    assert!(loudest(&out) > 0.05);
    d.install(build_generator(&fpu, "wind", s(SR)));
    assert!(d.start_inputs.is_empty());
}

#[test]
fn both_engines_play_behind_one_interface() {
    let host = Host { fpu: &fpu, number: &number, show: &show };
    let mut g = build_graph(&host, &beep(1), s(SR)).unwrap();
    assert_eq!(g.desc().engine.name(), "graph");
    assert_eq!(v(g.sample_rate()), SR);
    g.set_param(0, s(1e9));
    assert_eq!(v(g.param(0)), 2000.0);
    assert_eq!(g.params_vec().len(), 1);
    assert!(g.load_preset(0));
    assert_eq!(v(g.param(0)), 440.0);
    assert!(!g.load_preset(9));
    let mut out = vec![s(7.0); 480];
    g.snap(&fpu);
    g.render_mono(&fpu, &mut out);
    assert!(v(g.peak()) > 0.5);
    g.trigger(&fpu);
    assert!(!g.is_finished(&fpu));
    let mut n = build_generator(&fpu, "Explosion", s(SR)).unwrap();
    assert_eq!(n.desc().engine.name(), "native");
    assert!(n.is_finished(&fpu));
    n.trigger(&fpu);
    assert!(!n.is_finished(&fpu));
    n.render_mono(&fpu, &mut out);
    assert!(v(n.peak()) > 0.0);
}

#[test]
fn texts_tell_what_they_are() {
    assert!(is_json("  \n\t{ \"model\": {} }"));
    assert!(!is_json("[model]"));
    assert!(!is_json("   "));
    assert!(is_json("\u{a0}{"));
    assert_eq!(missing_file_text("res://a.toml"), "config_file 'res://a.toml' does not exist");
    let names = join_generator_names(", ");
    assert!(names.starts_with("jet, hover, "), "{names}");
    assert_eq!(names.split(", ").count(), 32);
    match build_generator(&fpu, "wnd", s(SR)) {
        Err(e) => assert_eq!(e, format!("unknown generator 'wnd'. Available: {names}")),
        Ok(_) => panic!("no such generator"),
    }
}

#[test]
fn a_definition_chooses_its_place() {
    let mut d = Definition::new(&fpu);
    assert!(d.place() == Place::Builtin);
    d.config = "  \n ".to_string();
    assert!(d.place() == Place::Builtin);
    d.config = " [model] ".to_string();
    assert!(d.place() == Place::Inline);
    d.config_file = "x.toml".to_string();
    assert!(d.place() == Place::File);
}

#[test]
fn a_definition_keeps_values_and_errors() {
    let mut d = Definition::new(&fpu);
    assert!(d.is_native());
    assert_eq!(d.generator, "wind");
    let name = d.proto.as_ref().unwrap().desc().params[0].name.clone();
    let top = d.proto.as_ref().unwrap().desc().params[0].kind.limits().1;
    assert!(d.set_param_by_name(&name, s(1e9)));
    assert_eq!(d.param_by_name(&name), top);
    assert!(!d.set_param_by_name("nope", s(1.0)));
    assert_eq!(v(d.param_by_name("nope")), 0.0);
    let b = d.block();
    assert_eq!(b.generation, 0);
    assert_eq!(b.count, d.proto.as_ref().unwrap().desc().params.len());
    assert_eq!(b.values[0], top);
    assert!(d.set_preset("default"));
    assert_eq!(d.preset, "default");
    assert_eq!(d.param_by_name(&name), d.proto.as_ref().unwrap().desc().params[0].default);
    assert!(!d.set_preset("no such preset"));
    assert_eq!(v(d.input_default("nope")), 0.0);

    let host = Host { fpu: &fpu, number: &number, show: &show };
    d.install(build_graph(&host, &beep(64), s(SR)));
    assert_eq!(d.error, "");
    assert!(!d.is_native());
    assert_eq!(d.generation, 1);
    assert_eq!(d.preset, "");
    assert_eq!(v(d.input_default("on")), 0.75);
    assert_eq!(d.block().count, 64);
    assert_eq!(v(d.block().values[63]), 440.0);
    d.set_param(63, s(100.0));
    assert_eq!(v(d.block().values[63]), 100.0);

    d.install(build_graph(&host, &beep(65), s(SR)));
    assert_eq!(d.error, "too large: at most 16 inputs, 64 params and 128 signals");
    assert!(d.proto.is_none());
    assert_eq!(d.block().count, 0);
    assert_eq!(d.generation, 2);

    d.generation = u32::MAX;
    d.install(Err("broken".to_string()));
    assert_eq!(d.error, "broken");
    assert_eq!(d.generation, 0);
    assert!(!d.set_preset("default"));
}

#[test]
fn parameters_come_from_json() {
    let mut d = Definition::new(&fpu);
    let names: Vec<String> = d.proto.as_ref().unwrap().desc().params.iter().map(|p| p.name.clone()).collect();
    let (first, last) = (names[0].clone(), names[names.len() - 1].clone());
    let kinds: Vec<_> = d.proto.as_ref().unwrap().desc().params.iter().map(|p| p.kind).collect();
    let top = v(kinds[0].limits().1);
    let low = v(kinds[names.len() - 1].limits().0);
    let text = format!(r#"{{ "{first}": 1e9, "zz/unknown": 3, "{last}": {low:?}, "yy": "text", "{}": null }}"#, names[1]);
    let before = d.param_by_name(&names[1]);
    let mut skipped = d.set_params_json(&text).unwrap();
    skipped.sort();
    let mut want = vec!["yy".to_string(), "zz/unknown".to_string(), names[1].clone()];
    want.sort();
    assert_eq!(skipped, want);
    assert_eq!(v(d.param_by_name(&first)), top, "values are brought into range");
    assert_eq!(v(d.param_by_name(&last)), low);
    assert_eq!(d.param_by_name(&names[1]), before);
    assert!(is_object(&text) && is_object("{}") && !is_object("[1]") && !is_object("{"));
    assert!(d.set_params_json("[1, 2]").is_none());
    assert!(d.set_params_json("").is_none());
    assert_eq!(d.set_params_json("{}"), Some(vec![]));
    d.proto = None;
    assert!(d.set_params_json(&text).is_none());
}

#[test]
fn entries_are_taken_in_order() {
    let mut d = Definition::new(&fpu);
    let name = d.proto.as_ref().unwrap().desc().params[0].name.clone();
    let (lo, hi, _) = d.proto.as_ref().unwrap().desc().params[0].kind.limits();
    let half = (v(lo) as f64 + v(hi) as f64) / 2.0;
    let entries = vec![
        (name.clone(), Some((v(hi) as f64).to_bits())),
        ("no such".to_string(), Some(1.0f64.to_bits())),
        (name.clone(), Some(half.to_bits())),
        (name.clone(), None),
        (name.clone(), Some(f64::NAN.to_bits())),
    ];
    assert_eq!(d.take_params(&entries), vec!["no such".to_string(), name.clone()]);
    assert_eq!(v(d.param_by_name(&name)), half as f32);
}

#[test]
fn parameters_go_to_json_and_back() {
    let mut d = Definition::new(&fpu);
    let show = |x: Single| format!("{:?}", v(x) as f64);
    let text = d.params_json(&show);
    assert!(text.starts_with("{\n  \""), "{text}");
    let names: Vec<String> = d.proto.as_ref().unwrap().desc().params.iter().map(|p| p.name.clone()).collect();
    for name in &names {
        let line = format!("\"{name}\": {:?}", v(d.param_by_name(name)) as f64);
        assert!(text.contains(&line), "{line} in {text}");
    }
    let saved: Vec<_> = names.iter().map(|n| d.param_by_name(n)).collect();
    for i in 0..names.len() {
        let top = d.proto.as_ref().unwrap().desc().params[i].kind.limits().1;
        d.set_param(i, top);
    }
    assert_eq!(d.set_params_json(&text), Some(vec![]));
    assert_eq!(names.iter().map(|n| d.param_by_name(n)).collect::<Vec<_>>(), saved);
    d.proto = None;
    assert_eq!(d.params_json(&show), "{}");
}
