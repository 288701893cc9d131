use gamesynth::arith::Prim;
use gamesynth::double::Double;
use gamesynth::graph::assemble::{parse_color, parse_mode, parse_route, Color};
use gamesynth::graph::host::Host;
use gamesynth::graph::library::node_library;
use gamesynth::graph::model::GraphModel;
use gamesynth::graph::order::topo_order;
use gamesynth::graph::spec::{
    Arg, GraphSpec, InputRef, InputSpecFile, MetaSpec, ModelError, ModelSpec, NodeSpec, Number, ParamSpecFile,
};
use gamesynth::filter::FilterMode;
use gamesynth::single::Single;
use indexmap::IndexMap;
use toml::{Table, Value};

const SR: f32 = 48000.0;

fn s(x: f32) -> Single {
    Single { bits: x.to_bits() }
}

fn v(x: Single) -> f32 {
    f32::from_bits(x.bits)
}

fn fpu(p: Prim, x: Single, y: Single) -> Single {
    let (a, b) = (v(x), v(y));
    s(match p {
        Prim::Add => a + b,
        Prim::Sub => a - b,
        Prim::Mul => a * b,
        Prim::Div => a / b,
        Prim::Rem => a.rem_euclid(b),
        Prim::Pow => a.powf(b),
        Prim::Sqrt => a.sqrt(),
        Prim::Exp => a.exp(),
        Prim::Exp2 => a.exp2(),
        Prim::Ln => a.ln(),
        Prim::Log2 => a.log2(),
        Prim::Sin => a.sin(),
        Prim::Cos => a.cos(),
        Prim::Tan => a.tan(),
        Prim::Floor => a.floor(),
        Prim::Fract => a.fract(),
        Prim::Round => a.round(),
    })
}

fn number(text: &String) -> Single {
    s(text.parse().unwrap())
}

fn show(text: &String) -> String {
    format!("{:?}", text.parse::<f32>().unwrap())
}

fn num(x: &Value) -> f64 {
    match x {
        Value::Integer(i) => *i as f64,
        Value::Float(f) => *f,
        _ => panic!("no number"),
    }
}

fn single(t: &Table, key: &str, default: f32) -> Single {
    s(t.get(key).map(|x| num(x) as f32).unwrap_or(default))
}

fn text(t: &Table, key: &str) -> String {
    t.get(key).and_then(|x| x.as_str()).unwrap_or("").to_string()
}

fn arg(x: &Value) -> Arg {
    match x {
        Value::String(t) => Arg::Text(t.clone()),
        Value::Array(l) => Arg::List(l.iter().map(|x| Double { bits: num(x).to_bits() }).collect()),
        other => Arg::Num(Number { value: Double { bits: num(other).to_bits() }, text: format!("{}", num(other)) }),
    }
}

fn refs(t: &Table, key: &str) -> Vec<InputRef> {
    let Some(Value::Array(list)) = t.get(key) else { return Vec::new() };
    list.iter()
        .map(|x| match x {
            Value::String(id) => InputRef::Id(id.clone()),
            Value::Table(t) => InputRef::Full { from: text(t, "from"), gain: t.get("gain").map(arg) },
            _ => panic!("no reference"),
        })
        .collect()
}

fn section(t: &Table, key: &str) -> Table {
    t.get(key).and_then(|x| x.as_table()).cloned().unwrap_or_default()
}

fn model_spec(t: &Table) -> ModelSpec {
    let meta = section(t, "model");
    let graph = section(t, "graph");
    let nodes = match graph.get("nodes") {
        Some(Value::Array(list)) => list
            .iter()
            .map(|x| {
                let t = x.as_table().unwrap();
                let known = ["id", "type", "in", "by"];
                NodeSpec {
                    id: text(t, "id"),
                    kind: text(t, "type"),
                    inputs: refs(t, "in"),
                    by: refs(t, "by"),
                    args: t.iter().filter(|(k, _)| !known.contains(&k.as_str())).map(|(k, x)| (k.clone(), arg(x))).collect(),
                }
            })
            .collect(),
        _ => Vec::new(),
    };
    ModelSpec {
        model: MetaSpec {
            name: text(&meta, "name"),
            category: text(&meta, "category"),
            doc: text(&meta, "doc"),
            version: 0,
            one_shot: meta.get("one_shot").and_then(|x| x.as_bool()).unwrap_or(false),
        },
        inputs: section(t, "inputs")
            .iter()
            .map(|(k, x)| {
                let t = x.as_table().unwrap();
                let smooth = t.get("smooth").map(|x| s(num(x) as f32));
                (k.clone(), InputSpecFile { default: single(t, "default", 0.0), doc: text(t, "doc"), smooth })
            })
            .collect(),
        params: section(t, "params")
            .iter()
            .map(|(k, x)| {
                let t = x.as_table().unwrap();
                let p = ParamSpecFile {
                    default: single(t, "default", 0.0),
                    min: single(t, "min", 0.0),
                    max: single(t, "max", 0.0),
                    scale: text(t, "scale"),
                    group: text(t, "group"),
                };
                (k.clone(), p)
            })
            .collect(),
        signals: section(t, "signals").iter().map(|(k, x)| (k.clone(), arg(x))).collect(),
        graph: GraphSpec { nodes, out: text(&graph, "out") },
        presets: section(t, "presets")
            .iter()
            .map(|(k, x)| {
                let values: IndexMap<String, Single> =
                    x.as_table().unwrap().iter().map(|(k, x)| (k.clone(), s(num(x) as f32))).collect();
                (k.clone(), values)
            })
            .collect(),
    }
}

fn from_text(text: &str) -> Result<GraphModel, ModelError> {
    let table: Table = text.parse().map_err(|e: toml::de::Error| ModelError(format!("TOML: {e}")))?;
    let host = Host { fpu: &fpu, number: &number, show: &show };
    GraphModel::from_spec(&host, &model_spec(&table), s(SR))
}

fn render(m: &mut GraphModel, secs: f32) -> Vec<f32> {
    let mut out = vec![s(0.0); (secs * SR) as usize];
    m.render_mono(&fpu, &mut out);
    out.into_iter().map(v).collect()
}

fn peak(x: &[f32]) -> f32 {
    x.iter().fold(0.0, |p, y| p.max(y.abs()))
}

#[test]
fn bad_files_are_rejected_with_useful_messages() {
    let base = |nodes: &str, extra: &str| format!("{extra}\n[graph]\nnodes = [{nodes}]\nout = \"a\"\n");
    let cases: &[(&str, String)] = &[
        ("unknown type 'wobble'", base(r#"{ id = "a", type = "wobble" }"#, "")),
        ("unknown argument 'cutof'", base(r#"{ id = "n", type = "noise" }, { id = "a", type = "svf", in = ["n"], cutof = 100 }"#, "")),
        ("missing required 'cutoff'", base(r#"{ id = "n", type = "noise" }, { id = "a", type = "svf", in = ["n"] }"#, "")),
        ("unknown name 'trottle'", base(r#"{ id = "a", type = "sine", freq = "trottle * 100" }"#, "[inputs]\nthrottle = {}")),
        ("'zz' is not a node id", base(r#"{ id = "a", type = "gain", gain = 1, in = ["zz"] }"#, "")),
        ("form a loop", base(r#"{ id = "a", type = "gain", gain = 1, in = ["b"] }, { id = "b", type = "gain", gain = 1, in = ["a"] }"#, "")),
        ("duplicate node id", base(r#"{ id = "a", type = "noise" }, { id = "a", type = "noise" }"#, "")),
        ("needs at least one input", base(r#"{ id = "a", type = "limiter" }"#, "")),
        ("takes no `in`", base(r#"{ id = "n", type = "noise" }, { id = "a", type = "sine", freq = 1, in = ["n"] }"#, "")),
        ("already defined", base(r#"{ id = "a", type = "noise" }"#, "[inputs]\nx = {}\n[signals]\nx = \"1\"")),
        ("reserved word", base(r#"{ id = "a", type = "noise" }"#, "[inputs]\nlerp = {}")),
        ("signals form a loop", base(r#"{ id = "a", type = "noise" }"#, "[signals]\np = \"q + 1\"\nq = \"p * 2\"")),
        ("default within the range", base(r#"{ id = "a", type = "noise" }"#, "[params]\ng = { default = 5, min = 0, max = 1 }")),
        ("unknown param 'nope'", base(r#"{ id = "a", type = "noise" }"#, "[presets.x]\nnope = 1")),
        ("TOML", "this is not toml [".to_string()),
    ];
    for (expect, text) in cases {
        match from_text(text) {
            Ok(_) => panic!("accepted a bad file; expected error containing \"{expect}\""),
            Err(e) => assert!(e.0.contains(expect), "expected \"{expect}\" in: {}", e.0),
        }
    }
    let many: String = (0..300).map(|i| format!("{{ id = \"n{i}\", type = \"noise\" }},")).collect();
    assert!(from_text(&format!("[graph]\nnodes = [{many}]\nout = \"n0\"")).unwrap_err().0.contains("between 1 and"));
}

#[test]
fn a_steam_vent_is_built_from_its_file() {
    let text = r#"
[model]
name = "steam_vent"

[inputs]
pressure = { default = 0.5, doc = "Leak to full blast", smooth = 0.05 }

[params]
pipe_hz = { default = 900, min = 150, max = 4000, scale = "exp", group = "pipe" }
gain    = { default = 1.0, min = 0, max = 2, group = "master" }

[signals]
level = "pow(pressure, 1.5) * (0.7 + 0.3 * sh(14))"

[graph]
nodes = [
  { id = "white", type = "noise" },
  { id = "throat", type = "svf", mode = "bandpass", in = ["white"], cutoff = "pipe_hz * (0.7 + 0.8 * pressure)", resonance = 0.7 },
  { id = "out", type = "gain", in = ["throat"], gain = "gain * level" },
]
out = "out"

[presets.narrow_pipe]
pipe_hz = 2400
"#;
    let mut m = from_text(text).unwrap();
    assert_eq!(m.desc().name, "steam_vent");
    assert_eq!(m.desc().inputs[0].name, "pressure");
    assert_eq!(m.desc().inputs[0].doc, "Leak to full blast");
    assert_eq!(v(m.input(0)), 0.5);
    let hz = m.desc().param_index("pipe/pipe_hz").unwrap();
    assert!(m.desc().param_index("master/gain").is_some());
    assert_eq!(m.desc().presets[1].name, "narrow_pipe");
    assert!(m.load_preset(1));
    assert_eq!(v(m.param(hz)), 2400.0);
    m.set_input(0, s(1.0));
    m.snap();
    let out = render(&mut m, 1.0);
    assert!(out.iter().all(|x| x.is_finite()));
    assert!(peak(&out) <= 1.0 && peak(&out) > 0.02, "{}", peak(&out));
}

#[test]
fn signals_may_be_declared_in_any_order() {
    let text = "[inputs]\nx = { default = 1 }\n[signals]\nb = \"a * 2\"\na = \"x + 1\"\n[graph]\nnodes = [{ id = \"o\", type = \"dc\", value = \"b\" }]\nout = \"o\"";
    let mut m = from_text(text).unwrap();
    render(&mut m, 0.01);
    assert_eq!(m.signal("b").map(v), Some(4.0));
}

#[test]
fn messages_are_exact() {
    let base = |nodes: &str, extra: &str| format!("{extra}\n[graph]\nnodes = [{nodes}]\nout = \"a\"\n");
    let one = r#"{ id = "a", type = "noise" }"#;
    let err = |nodes: &str, extra: &str| from_text(&base(nodes, extra)).unwrap_err().0;
    assert_eq!(
        err(r#"{ id = "throat", type = "svf", in = ["throat"], cutof = 1 }"#, ""),
        "nodes form a loop: throat. Feedback between nodes is not supported; use a comb or delay node."
    );
    let noise = r#"{ id = "n", type = "noise" }, "#;
    let node = |rest: &str| format!("{noise}{{ id = \"a\", in = [\"n\"], {rest} }}");
    assert_eq!(err(&node("type = \"svf\", cutof = 1"), ""), "node 'a' (svf): unknown argument 'cutof'. Valid: cutoff, resonance, mode");
    assert_eq!(err(&node("type = \"mix\", x = 1"), ""), "node 'a' (mix): unknown argument 'x'. Valid: (none)");
    assert_eq!(err(&node("type = \"svf\", cutoff = 9, mode = 3"), ""), "node 'a' (svf): 'mode' must be a string");
    assert_eq!(err(&node("type = \"svf\", cutoff = 9, mode = \"PEAK\""), ""), "node 'a' (svf): unknown mode 'peak' (lowpass, highpass, bandpass, notch)");
    assert_eq!(err(r#"{ id = "a", type = "noise", color = "Blue" }"#, ""), "node 'a' (noise): unknown color 'blue' (white, pink, brown)");
    assert_eq!(err(&node("type = \"gain\", gain = [1]"), ""), "node 'a' (gain) gain: expected a number or a formula, got a list");
    assert_eq!(err(&node("type = \"gain\", gain = \"1 +\""), ""), "node 'a' (gain) gain: unexpected end of expression in \"1 +\"");
    assert_eq!(err(&node("type = \"gain\", gain = \"1 2\""), ""), "node 'a' (gain) gain: unexpected Num(2.0) in \"1 2\"");
    assert_eq!(err(&node("type = \"delay\", ms = 1, max_ms = 2001"), ""), "node 'a' (delay): max_ms must be a number up to 2000");
    assert_eq!(err(&node("type = \"comb\", ms = 1, max_ms = 0"), ""), "node 'a' (comb): max_ms must be a number up to 2000");
    assert_eq!(err(&node("type = \"resonators\", freqs = []"), ""), "node 'a' (resonators): needs freqs = [..] with 1 to 32 positive numbers");
    assert_eq!(err(&node("type = \"resonators\", freqs = [1, -1]"), ""), "node 'a' (resonators): needs freqs = [..] with 1 to 32 positive numbers");
    assert_eq!(err(&node("type = \"resonators\", freqs = [1], route = \"x\""), ""), "node 'a' (resonators): unknown route 'x' (all, random)");
    assert_eq!(err(&node("type = \"resonators\", freqs = [1], spread = 5"), ""), "node 'a' (resonators): spread must be a number of octaves from 0 to 4");
    assert_eq!(err(&node("type = \"mul\""), ""), "node 'a' (mul): needs `by = [...]` as its second factor");
    assert_eq!(err(&node("type = \"mix\", by = [\"n\"]"), ""), "node 'a' (mix): `by` is only used by mul");
    assert_eq!(err(r#"{ id = "b", type = "noise" }"#, ""), "[graph] out = 'a' is not a node id");
    assert_eq!(err(one, "[inputs]\n\"a-b\" = {}"), "[inputs] 'a-b': names must be identifiers (letters, digits, _) so formulas can use them");
    assert_eq!(err(one, "[inputs]\nrnd = {}"), "[inputs] 'rnd' is a reserved word");
    assert_eq!(err(one, "[params]\np = { default = 1, min = 0, max = 2, scale = \"exp\" }"), "[params] 'p': an exp scale needs min > 0");
    assert_eq!(err(one, "[params]\np = { default = 1, min = 0, max = 2, scale = \"cubic\" }"), "[params] 'p': unknown scale 'cubic' (use \"lin\" or \"exp\")");
    assert_eq!(err(one, "[signals]\nx = [1]"), "[signals] 'x': expected a formula");
    assert_eq!(err(one, "[signals]\nx = \"1 $\""), "[signals] 'x': unexpected character '$' in \"1 $\"");
    assert_eq!(err(one, "[signals]\nx = \"nope\""), "[signals] 'x': unknown name 'nope' in \"nope\"");
    assert_eq!(err(one, "[signals]\np = \"q\"\nq = \"p\""), "signals form a loop: p, q. ");
    assert_eq!(err("", ""), "[graph] needs between 1 and 256 nodes");
    let many: String = (0..17).map(|i| format!("i{i} = {{}}\n")).collect();
    assert_eq!(err(one, &format!("[inputs]\n{many}")), "too large: at most 16 inputs, 64 params and 128 signals");
}

#[test]
fn a_beep_has_its_pitch_and_level() {
    let text = r#"
[model]
name = "beep"
[inputs]
on = { default = 1 }
[params]
hz = { default = 440, min = 100, max = 2000, scale = "exp" }
[graph]
nodes = [{ id = "o", type = "sine", freq = "hz" }, { id = "g", type = "gain", in = ["o"], gain = "on * 0.5" }]
out = "g"
"#;
    let mut beep = from_text(text).unwrap();
    assert_eq!(beep.desc().name, "beep");
    assert_eq!(beep.desc().category, "custom");
    assert_eq!(beep.desc().engine.name(), "graph");
    assert_eq!(beep.desc().params[0].name, "tuning/hz");
    let out = render(&mut beep, 0.5);
    assert!((peak(&out) - 0.5).abs() < 0.01);
    let crossings = out.windows(2).filter(|w| (w[0] < 0.0) != (w[1] < 0.0)).count();
    assert!((crossings as i32 - 440).abs() <= 2, "440 Hz for 0.5 s: {crossings}");
}

#[test]
fn controls_clamp_and_presets_load() {
    let text = r#"
[inputs]
x = { default = 7 }
[params]
a = { default = 1, min = 0, max = 2, group = "g" }
b = { default = 5, min = 1, max = 3000, scale = "exp" }
[graph]
nodes = [{ id = "o", type = "dc", value = "a + x" }]
out = "o"
[presets.Loud]
b = 99999
"#;
    let mut m = from_text(text).unwrap();
    assert_eq!(v(m.input(0)), 1.0, "defaults are brought into range");
    m.set_input(0, s(5.0));
    assert_eq!(v(m.input(0)), 1.0);
    m.set_input(0, s(f32::NAN));
    assert_eq!(v(m.input(0)), 0.0);
    m.set_input(9, s(1.0));
    assert_eq!(v(m.input(9)), 0.0);
    m.set_param(1, s(1e9));
    assert_eq!(v(m.param(1)), 3000.0);
    m.set_param(1, s(f32::INFINITY));
    assert_eq!(v(m.param(1)), 3000.0, "what is no number is ignored");
    assert!(m.load_preset(0));
    assert_eq!(v(m.param(1)), 5.0);
    assert_eq!(m.desc().preset_index("loud"), Some(1));
    assert!(m.load_preset(1));
    assert_eq!(m.params_vec().into_iter().map(v).collect::<Vec<_>>(), vec![1.0, 3000.0]);
    assert!(!m.load_preset(2));
    assert!(m.set_param_by_name("g/a", s(2.0)));
    assert_eq!(v(m.param(0)), 2.0);
    assert!(!m.set_param_by_name("a", s(2.0)));
    assert!(m.set_input_by_name("x", s(0.5)));
    assert!(!m.set_input_by_name("y", s(0.5)));
    m.snap();
    let out = render(&mut m, 0.01);
    assert_eq!(out[0], v(gamesynth::math::limit(&fpu, s(2.5))), "a snapped model starts at its inputs");
}

#[test]
fn one_shots_wait_for_their_trigger() {
    let text = r#"
[model]
one_shot = true
[signals]
env = "exp(0 - t / 0.05)"
[graph]
nodes = [{ id = "o", type = "sine", freq = "400 + 200 * rnd" }, { id = "g", type = "gain", in = ["o"], gain = "env" }]
out = "g"
"#;
    let mut m = from_text(text).unwrap();
    assert!(m.desc().one_shot);
    assert!(render(&mut m, 0.2).iter().all(|x| *x == 0.0));
    assert!(!m.is_finished(&fpu));
    m.trigger();
    let first = render(&mut m, 2.0);
    assert!(peak(&first) > 0.1);
    assert!(m.is_finished(&fpu));
    m.trigger();
    assert!(!m.is_finished(&fpu));
    let again = render(&mut m, 2.0);
    assert!(first.iter().zip(&again).any(|(a, b)| (a - b).abs() > 1e-3), "rnd varies each trigger");
}

#[test]
fn every_node_type_builds_and_stays_bounded() {
    let lib = node_library();
    assert_eq!(lib.len(), 21);
    for info in &lib {
        let args: String = info.params.iter().map(|p| format!(", {} = {}", p.name, if p.default.is_none() { 300 } else { 1 })).collect();
        let source = ["noise", "sine", "saw", "tri", "pulse", "dust", "dc"].contains(&info.name);
        let inputs = if source { "" } else { ", in = [\"n\"]" };
        let by = if info.name == "mul" { ", by = [\"n\"]" } else { "" };
        let freqs = if info.name == "resonators" { ", freqs = [200, 300], route = \"random\", spread = 0.5" } else { "" };
        let text = format!(
            "[graph]\nnodes = [{{ id = \"n\", type = \"noise\", color = \"pink\" }}, {{ id = \"a\", type = \"{}\"{inputs}{by}{freqs}{args} }}]\nout = \"a\"",
            info.name
        );
        let mut m = from_text(&text).unwrap_or_else(|e| panic!("{}: {}", info.name, e.0));
        assert_eq!(m.node_count(), 2);
        let out = render(&mut m, 0.5);
        assert!(out.iter().all(|x| x.is_finite() && x.abs() <= 1.0), "{}", info.name);
        assert!(peak(&out) > 0.0, "{} is silent", info.name);
    }
}

#[test]
fn rendering_in_blocks_is_rendering_at_once() {
    let text = "[signals]\nw = \"sh(30)\"\n[graph]\nnodes = [{ id = \"n\", type = \"noise\" }, { id = \"c\", type = \"comb\", ms = \"2 + w\", in = [\"n\"] }]\nout = \"c\"";
    let (mut a, mut b) = (from_text(text).unwrap(), from_text(text).unwrap());
    let whole = render(&mut a, 0.02);
    let mut parts = Vec::new();
    while parts.len() < whole.len() {
        let n = (whole.len() - parts.len()).min(64);
        let mut out = vec![s(0.0); n];
        b.render_mono(&fpu, &mut out);
        parts.extend(out.into_iter().map(v));
    }
    assert_eq!(whole, parts);
}

#[test]
fn a_node_that_blows_up_recovers() {
    let text = "[inputs]\nx = {}\n[graph]\nnodes = [{ id = \"d\", type = \"dc\", value = \"1e30 * x + 0.1\" }, { id = \"g\", type = \"gain\", in = [\"d\"], gain = 1 }]\nout = \"g\"";
    let mut m = from_text(text).unwrap();
    m.set_input(0, s(1.0));
    m.snap();
    assert_eq!(peak(&render(&mut m, 0.01)), 0.0);
    m.set_input(0, s(0.0));
    m.snap();
    assert!((peak(&render(&mut m, 0.01)) - 0.1).abs() < 1e-6);
}

#[test]
fn orders_put_dependencies_first() {
    assert_eq!(topo_order(&vec![vec![2], vec![0], vec![]]).unwrap(), vec![2, 0, 1]);
    assert_eq!(topo_order(&vec![vec![1], vec![0], vec![], vec![0]]).unwrap_err(), vec![0, 1, 3]);
    assert_eq!(topo_order(&vec![]).unwrap(), Vec::<usize>::new());
}

#[test]
fn words_of_nodes_have_short_forms() {
    assert_eq!(parse_color("red"), Some(Color::Brown));
    assert_eq!(parse_color("blue"), None);
    assert_eq!(parse_mode("bp"), Some(FilterMode::BandPass));
    assert_eq!(parse_mode("LP"), None);
    assert_eq!(parse_route("random"), Some(true));
    assert_eq!(parse_route("none"), None);
}

#[test]
fn words_of_nodes_are_read_in_lower_case() {
    let text = "[graph]\nnodes = [{ id = \"n\", type = \"noise\", color = \"ROSA\" }]\nout = \"n\"";
    assert!(from_text(text).unwrap_err().0.contains("'rosa'"));
    let text = "[graph]\nnodes = [{ id = \"n\", type = \"noise\", color = \"BROWN\" }]\nout = \"n\"";
    assert!(from_text(text).is_ok());
}

#[test]
fn doubles_narrow_to_the_nearest_single() {
    for x in [0.0, -0.0, 1.0, -2.5, 0.1, 1e-40, 1.4e-45, 7e-46, 1e-300, 3.4e38, 3.5e38, -1e300, 16777217.0, 16777219.0, 440.0, f64::INFINITY, 2e-45] {
        let d = Double { bits: x.to_bits() };
        assert_eq!(d.narrow().bits, (x as f32).to_bits(), "{x}");
    }
    assert!(v(Double { bits: f64::NAN.to_bits() }.narrow()).is_nan());
}

const JET_LITE: &str = r#"
[model]
name = "jet_lite"

[inputs]
throttle = { default = 0 }
boost    = { default = 0 }
speed    = { default = 0 }

[params]
spool_up    = { default = 1.2, min = 0.1, max = 10, scale = "exp", group = "spool" }
spool_down  = { default = 2.0, min = 0.1, max = 10, scale = "exp", group = "spool" }
idle        = { default = 0.28, min = 0, max = 0.6, group = "spool" }
whine_hz    = { default = 2100, min = 200, max = 8000, scale = "exp", group = "whine" }
whine_level = { default = 0.12, min = 0, max = 1, group = "whine" }
roar_hz     = { default = 900, min = 100, max = 4000, scale = "exp", group = "roar" }
roar_level  = { default = 1.0, min = 0, max = 2, group = "roar" }
gain        = { default = 1.0, min = 0, max = 2, group = "master" }

[signals]
rpm = "slew((idle + (1 - idle) * throttle) * (1 + 0.25 * boost), spool_up, spool_down)"

[graph]
nodes = [
  { id = "white", type = "noise" },
  { id = "roar", type = "svf", mode = "lowpass", in = ["white"], cutoff = "roar_hz * (0.3 + rpm) * (1 + 0.3 * speed)" },
  { id = "whine", type = "sine", freq = "whine_hz * rpm" },
  { id = "core", type = "mix", in = [{ from = "roar", gain = "roar_level * rpm" }, { from = "whine", gain = "whine_level * rpm" }] },
  { id = "out", type = "gain", in = ["core"], gain = "gain" },
]
out = "out"

[presets.heavy]
whine_hz = 1400
idle = 0.22
"#;

const GEIGER: &str = r#"
[model]
name = "geiger"

[inputs]
radiation = { default = 0.2 }

[params]
max_rate = { default = 400, min = 1, max = 3000, scale = "exp", group = "clicks" }
gain     = { default = 1.0, min = 0, max = 2, group = "master" }

[graph]
nodes = [
  { id = "tube", type = "dust", rate = "1 + max_rate * pow(radiation, 2)" },
  { id = "click", type = "highpass", in = ["tube"], cutoff = 400 },
  { id = "out", type = "gain", in = ["click"], gain = "gain" },
]
out = "out"
"#;

fn rms(x: &[f32]) -> f32 {
    (x.iter().map(|y| y * y).sum::<f32>() / x.len() as f32).sqrt()
}

#[test]
fn file_order_is_kept_and_names_are_grouped() {
    let m = from_text(JET_LITE).unwrap();
    let inputs: Vec<_> = m.desc().inputs.iter().map(|i| i.name.as_str()).collect();
    assert_eq!(inputs, ["throttle", "boost", "speed"]);
    assert_eq!(m.desc().params[0].name, "spool/spool_up");
    assert_eq!(m.desc().params.last().unwrap().name, "master/gain");
    assert_eq!(m.desc().presets[1].name, "heavy");
    assert_eq!(v(m.desc().presets[1].values[m.desc().param_index("whine/whine_hz").unwrap()]), 1400.0);
}

#[test]
fn graph_jet_spools_like_the_native_one() {
    let mut g = from_text(JET_LITE).unwrap();
    let mut n = gamesynth::generators::create(&fpu, "jet", s(SR)).unwrap();
    let native = |n: &mut gamesynth::generators::Model, secs: f32| {
        let mut out = vec![s(0.0); (secs * SR) as usize];
        n.render_mono(&fpu, &mut out);
        out.into_iter().map(v).collect::<Vec<f32>>()
    };
    let rpm = |g: &GraphModel| v(g.signal("rpm").unwrap());
    assert!((rpm(&g) - 0.0).abs() < 1e-6);
    render(&mut g, 0.01);
    assert!((rpm(&g) - 0.28).abs() < 1e-3, "starts at idle");
    g.set_input(0, s(1.0));
    n.set_input(0, s(1.0));
    render(&mut g, 0.1);
    assert!(rpm(&g) < 0.5, "rpm must not jump");
    render(&mut g, 1.1);
    let after = rpm(&g);
    assert!(after > 0.93 && after < 1.0, "rpm after spool_up: {after}");
    // Same ballpark loudness as the hand-written engine at full throttle.
    native(&mut n, 1.2);
    let (a, b) = (rms(&render(&mut g, 2.0)), rms(&native(&mut n, 2.0)));
    assert!(a > b * 0.5 && a < b * 2.0, "graph {a} vs native {b}");
}

#[test]
fn params_inputs_and_json() {
    let mut m = from_text(GEIGER).unwrap();
    let i = m.desc().param_index("clicks/max_rate").unwrap();
    m.set_param(i, s(1e9));
    assert_eq!(v(m.param(i)), 3000.0);
    m.set_input(0, s(5.0));
    assert_eq!(v(m.input(0)), 1.0);
    let quiet = {
        let mut q = from_text(GEIGER).unwrap();
        q.set_input(0, s(0.0));
        q.snap();
        rms(&render(&mut q, 2.0))
    };
    m.snap();
    assert!(rms(&render(&mut m, 2.0)) > quiet * 3.0);

    let json = r#"{ "model": {"name": "beep"}, "inputs": {"on": {"default": 1}},
        "params": {"hz": {"default": 440, "min": 100, "max": 2000, "scale": "exp"}},
        "graph": {"nodes": [{"id": "o", "type": "sine", "freq": "hz"}, {"id": "g", "type": "gain", "in": ["o"], "gain": "on * 0.5"}], "out": "g"} }"#;
    let table: Table = serde_json::from_str(json).unwrap();
    let host = Host { fpu: &fpu, number: &number, show: &show };
    let mut beep = GraphModel::from_spec(&host, &model_spec(&table), s(SR)).unwrap();
    let out = render(&mut beep, 0.5);
    assert!((peak(&out) - 0.5).abs() < 0.01);
    let crossings = out.windows(2).filter(|w| (w[0] < 0.0) != (w[1] < 0.0)).count();
    assert!((crossings as i32 - 440).abs() <= 2, "440 Hz for 0.5 s: {crossings}");
}

#[test]
fn signals_are_read_by_name_after_rendering() {
    let text = "[inputs]\nx = { default = 0.5, smooth = 0 }\n[signals]\na = \"x + 1\"\nb = \"a * 2\"\n[graph]\nnodes = [{ id = \"o\", type = \"dc\", value = \"b * 0.1\" }]\nout = \"o\"";
    let mut m = from_text(text).unwrap();
    m.snap();
    render(&mut m, 0.01);
    assert_eq!(v(m.signal("a").unwrap()), 1.5);
    assert_eq!(v(m.signal("b").unwrap()), 3.0);
    assert!(m.signal("c").is_none());
    m.set_input(0, s(1.0));
    m.trigger();
    m.snap();
    render(&mut m, 0.01);
    assert_eq!(v(m.signal("b").unwrap()), 4.0);
}

#[test]
fn graph_cost_relative_to_native() {
    let mut g = from_text(JET_LITE).unwrap();
    let mut n = gamesynth::generators::create(&fpu, "jet", s(SR)).unwrap();
    g.set_input(0, s(0.8));
    n.set_input(0, s(0.8));
    let mut buf = vec![s(0.0); 512];
    let start = std::time::Instant::now();
    for _ in 0..(4 * SR as usize / 512) {
        g.render_mono(&fpu, &mut buf);
    }
    let tg = start.elapsed().as_secs_f64();
    let start = std::time::Instant::now();
    for _ in 0..(4 * SR as usize / 512) {
        n.render_mono(&fpu, &mut buf);
    }
    let tn = start.elapsed().as_secs_f64();
    println!("graph jet_lite ({} nodes): {:.1}x real time, native jet: {:.1}x real time, ratio {:.2}", g.node_count(), 4.0 / tg, 4.0 / tn, tg / tn);
    assert!(tg < 4.0 * 0.25, "graph model must stay well under real time: {tg}s for 4 s");
}
