# gamesynth

A software synthesizer for game audio, verified with Verus: a polyphonic subtractive synth with
retro sound effects, a procedural jet engine, a library of native sound generators, and models
described by files.

## Layout

- `src/` is the verified library.
  - `single`, `double`: floating-point numbers as bit patterns, with their order and rounding.
  - `arith`: the floating-point unit. The library does no floating-point arithmetic itself: every
    function that needs some takes a closure that does one operation per call, and its contract says
    what it computes for every meaning the closure may have.
  - `math`, `blocks`, `noise`, `osc`, `env`, `filter`, `lfo`, `effects`: building blocks.
  - `params`, `patch`, `sfx`: parameter tables, patches, and generated sound effects.
  - `voice`, `synth`, `render`: the polyphonic synth and offline rendering.
  - `jet`: the jet engine.
  - `native`, `generators`: native generators, continuous sounds and events.
  - `graph`: model files compiled into graphs of nodes, with their formula language.
  - `instrument`, `deck`, `shared`, `studio`: one interface to both kinds of model, what a host's
    audio callback does, sharing between threads, and a sound's definition as an editor sees it.
- `tests/` runs the library on the machine's floats.
- `app/` binds it: machine floats, JSON and TOML, a C interface for WebAssembly hosts, and Godot
  classes.

## Reading a contract

`meant(*fpu, f)` says that the closure `fpu` computes the mathematical function `f`. A clause
`forall|f: Sums| meant(*fpu, f) ==> r == x(f, ..)` therefore fixes the result for every closure that
gives equal arguments equal results. Views (`SynthView`, `JetView`, `NativeView`, `Running`) are the
states of the running parts as values.
