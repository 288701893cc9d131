use gamesynth::arith::Prim;
use gamesynth::graph::expr::{ExprState, Program};
use gamesynth::graph::formula::{compile, variables};
use gamesynth::graph::parse::{ExprError, NameTable};
use gamesynth::single::Single;

fn s(x: f32) -> Single {
    Single { bits: x.to_bits() }
}

fn v(x: Single) -> f32 {
    f32::from_bits(x.bits)
}

fn fpu(p: Prim, x: Single, y: Single) -> Single {
    let (a, b) = (v(x), v(y));
    s(match p {
        Prim::Add => a + b,
        Prim::Sub => a - b,
        Prim::Mul => a * b,
        Prim::Div => a / b,
        Prim::Rem => a.rem_euclid(b),
        Prim::Pow => a.powf(b),
        Prim::Sqrt => a.sqrt(),
        Prim::Exp => a.exp(),
        Prim::Exp2 => a.exp2(),
        Prim::Ln => a.ln(),
        Prim::Log2 => a.log2(),
        Prim::Sin => a.sin(),
        Prim::Cos => a.cos(),
        Prim::Tan => a.tan(),
        Prim::Floor => a.floor(),
        Prim::Fract => a.fract(),
        Prim::Round => a.round(),
    })
}

fn number(text: &String) -> Single {
    s(text.parse().unwrap())
}

fn show(text: &String) -> String {
    format!("{:?}", text.parse::<f32>().unwrap())
}

fn build(src: &str, names: &Vec<String>, states: &mut Vec<ExprState>) -> Result<Program, ExprError> {
    compile(src, NameTable::Of(names), states, &number, &fpu)
}

fn eval(src: &str, vars: &[(&str, f32)]) -> f32 {
    let mut states = Vec::new();
    let names: Vec<String> = vars.iter().map(|x| x.0.to_string()).collect();
    let values: Vec<Single> = vars.iter().map(|x| s(x.1)).collect();
    let p = build(src, &names, &mut states).unwrap();
    v(p.eval(&fpu, &values, &mut states, s(0.001)))
}

#[test]
fn arithmetic_and_precedence() {
    assert_eq!(eval("1 + 2 * 3", &[]), 7.0);
    assert_eq!(eval("(1 + 2) * 3", &[]), 9.0);
    assert_eq!(eval("-2 ^ 2", &[]), -4.0);
    assert_eq!(eval("2 ^ 3 ^ 2", &[]), 512.0);
    assert_eq!(eval("10 / 4 - 0.5", &[]), 2.0);
    assert_eq!(eval("1.5e2 + .5", &[]), 150.5);
    assert_eq!(eval("3 > 2", &[]), 1.0);
}

#[test]
fn functions_and_variables() {
    assert_eq!(eval("lerp(10, 20, t)", &[("t", 0.25)]), 12.5);
    assert_eq!(eval("clamp(x * 4, 0, 1)", &[("x", 0.5)]), 1.0);
    assert_eq!(eval("select(x > 0.5, 7, 9)", &[("x", 0.2)]), 9.0);
    assert!((eval("roar_hz * exp2(2 * (rpm - 1))", &[("roar_hz", 900.0), ("rpm", 0.5)]) - 450.0).abs() < 1e-3);
    assert!((eval("midi(69)", &[]) - 440.0).abs() < 1e-3);
    assert_eq!(eval("1 / 0", &[]), 0.0, "non-finite results are sanitised");
}

#[test]
fn errors_are_reported() {
    let mut st = Vec::new();
    let none: Vec<String> = Vec::new();
    let mut err = |src: &str| build(src, &none, &mut st).unwrap_err().message(&show);
    assert!(err("1 +").contains("end of expression"));
    assert!(err("foo").contains("unknown name 'foo'"));
    assert!(err("lerp(1, 2)").contains("takes 3"));
    assert!(err("wat(1)").contains("unknown function"));
    assert!(err("(1 + 2").contains("missing ')'"));
    assert!(build("2 $ 3", &none, &mut Vec::new()).is_err());
}

#[test]
fn slew_has_inertia_and_direction() {
    let mut states = Vec::new();
    let p = compile("slew(x, 1, 4)", NameTable::Any, &mut states, &number, &fpu).unwrap();
    assert_eq!(v(p.eval(&fpu, &vec![s(0.0)], &mut states, s(0.01))), 0.0);
    let mut y = 0.0;
    for _ in 0..100 {
        y = v(p.eval(&fpu, &vec![s(1.0)], &mut states, s(0.01)));
    }
    assert!(y > 0.93 && y < 1.0, "after 1 s up: {y}");
    for _ in 0..100 {
        y = v(p.eval(&fpu, &vec![s(0.0)], &mut states, s(0.01)));
    }
    assert!(y > 0.4, "falls slower than it rises: {y}");
}

#[test]
fn variables_lists_dependencies() {
    assert_eq!(variables("a * lerp(b, 2, a)").unwrap(), vec!["a", "b", "a"]);
}

#[test]
fn every_fault_has_its_message() {
    let none: Vec<String> = Vec::new();
    let err = |src: &str| build(src, &none, &mut Vec::new()).unwrap_err().message(&show);
    assert_eq!(err("1.2.3"), "bad number '1.2.3'");
    assert_eq!(err("2 $ 3"), "unexpected character '$'");
    assert_eq!(err("  "), "empty expression");
    assert_eq!(err("1 +"), "unexpected end of expression");
    assert_eq!(err("1 2"), "unexpected Num(2.0)");
    assert_eq!(err("1 x"), "unexpected Ident(\"x\")");
    assert_eq!(err("* 2"), "unexpected Op('*')");
    assert_eq!(err(")"), "unexpected RParen");
    assert_eq!(err(", 1"), "unexpected Comma");
    assert_eq!(err("1 ("), "unexpected LParen");
    assert_eq!(err("(1"), "missing ')'");
    assert_eq!(err("nope"), "unknown name 'nope'");
    assert_eq!(err("nope(1)"), "unknown function 'nope'");
    assert_eq!(err("min(1)"), "min() takes 2 argument(s), got 1");
    assert_eq!(err("lfo()"), "lfo() takes 1 argument(s), got 0");
    let deep = format!("{}1{}", "1+(".repeat(24), ")".repeat(24));
    assert_eq!(err(&deep), "expression too deeply nested (needs 25 stack slots, limit 24)");
    let mut full = vec![ExprState::Phase(s(0.0)); 65535];
    let e = compile("lfo(1)", NameTable::Any, &mut full, &number, &fpu).unwrap_err();
    assert_eq!(e.message(&show), "too many stateful function calls");
    assert_eq!(full.len(), 65535);
}

#[test]
fn constants_fold_and_states_append_even_on_errors() {
    let none: Vec<String> = Vec::new();
    let mut states = Vec::new();
    let p = build("2 * tau / pi", &none, &mut states).unwrap();
    assert_eq!(v(p.as_const().unwrap()), 4.0);
    assert!(build("lfo(1) + nope", &none, &mut states).is_err());
    assert_eq!(states.len(), 1);
    assert!(build("lag(1)", &none, &mut states).is_err(), "counted before its arguments are");
    assert_eq!(states.len(), 2);
    let p = build("lfo(1) * 0", &none, &mut states).unwrap();
    assert!(p.as_const().is_none());
}

#[test]
fn deepest_formula_that_fits() {
    let deep = format!("{}1{}", "1+(".repeat(23), ")".repeat(23));
    assert_eq!(eval(&deep, &[]), 24.0);
}

#[test]
fn stateful_functions_move_with_time() {
    let none: Vec<String> = Vec::new();
    let mut states = Vec::new();
    let p = build("ramp(10)", &none, &mut states).unwrap();
    let first = v(p.eval(&fpu, &vec![], &mut states, s(0.025)));
    let second = v(p.eval(&fpu, &vec![], &mut states, s(0.025)));
    assert_eq!((first, second), (0.25, 0.5));
    let mut states = Vec::new();
    let p = build("sh(1000)", &none, &mut states).unwrap();
    let a = v(p.eval(&fpu, &vec![], &mut states, s(0.001)));
    assert!(a != 0.0 && a >= -1.0 && a < 1.0);
    let mut states = Vec::new();
    let p = build("noise(5)", &none, &mut states).unwrap();
    let a = v(p.eval(&fpu, &vec![], &mut states, s(0.05)));
    let b = v(p.eval(&fpu, &vec![], &mut states, s(0.05)));
    assert!(a != b && a.abs() <= 1.0 && b.abs() <= 1.0);
    let mut states = Vec::new();
    let names = vec!["x".to_string()];
    let p = build("lag(x, 1)", &names, &mut states).unwrap();
    assert_eq!(v(p.eval(&fpu, &vec![s(3.0)], &mut states, s(0.01))), 3.0, "starts at its target");
    assert!(v(p.eval(&fpu, &vec![s(5.0)], &mut states, s(0.01))) < 3.1);
    states[0].snap();
    assert_eq!(v(p.eval(&fpu, &vec![s(5.0)], &mut states, s(0.01))), 5.0);
}

#[test]
fn pure_functions_have_exact_values() {
    assert_eq!(eval("abs(-3)", &[]), 3.0);
    assert_eq!(eval("sqrt(-4)", &[]), 0.0);
    assert_eq!(eval("sqrt(9)", &[]), 3.0);
    assert_eq!(eval("floor(-1.5)", &[]), -2.0);
    assert_eq!(eval("db(20)", &[]), 10.0);
    assert_eq!(eval("min(2, 1) + max(2, 1)", &[]), 3.0);
    assert_eq!(eval("smoothstep(0, 1, 0.5)", &[]), 0.5);
    assert_eq!(eval("smoothstep(0, 1, 7)", &[]), 1.0);
    assert_eq!(eval("exp(0) + ln(1) + cos(0) + sin(0) + exp2(3)", &[]), 10.0);
    assert_eq!(eval("pow(2, 5) - 2 ^ 5", &[]), 0.0);
    assert_eq!(eval("2 < 1", &[]), 0.0);
    assert_eq!(eval("ln(0)", &[]), 1e-30f32.ln());
}

#[test]
fn variables_are_the_names_that_stand_alone() {
    let list = |src: &str| variables(src).unwrap();
    assert_eq!(list("-x ^ (y < sin(pi * z)) + tau / x"), vec!["x", "y", "z", "x"]);
    assert_eq!(list("clamp(sin(a), lerp(b, c, 2), noise(3))"), vec!["a", "b", "c"]);
    assert!(list("pi + 2").is_empty());
    assert!(variables("sin(").is_err());
    assert!(variables("nope(a)").is_err());
}

#[test]
fn followers_stay_on_their_way() {
    let names = vec!["x".to_string()];
    let mut states = Vec::new();
    let p = build("slew(x, 0.05, 0.2)", &names, &mut states).unwrap();
    let mut at = v(p.eval(&fpu, &vec![s(0.25)], &mut states, s(0.001)));
    assert_eq!(at, 0.25, "the first value is the target");
    for target in [1.0f32, -0.5] {
        for _ in 0..2000 {
            let next = v(p.eval(&fpu, &vec![s(target)], &mut states, s(0.001)));
            assert!((next - at) * (target - at) >= 0.0 && (target - next) * (target - at) >= 0.0, "{at} {next}");
            at = next;
        }
        assert!((at - target).abs() < 1e-3);
    }
    let mut states = Vec::new();
    let p = build("ramp(7)", &names, &mut states).unwrap();
    for _ in 0..500 {
        let r = v(p.eval(&fpu, &vec![s(0.0)], &mut states, s(0.01)));
        assert!((0.0..1.0).contains(&r), "{r}");
    }
}
