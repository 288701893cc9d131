pub mod arith;
pub mod blocks;
pub mod deck;
pub mod double;
pub mod effects;
pub mod env;
pub mod filter;
pub mod generators;
pub mod graph;
pub mod instrument;
pub mod jet;
pub mod laws;
pub mod lfo;
pub mod math;
pub mod model;
pub mod native;
pub mod noise;
pub mod osc;
pub mod params;
pub mod patch;
pub mod queue;
pub mod render;
pub mod rounding;
pub mod sfx;
pub mod shared;
pub mod single;
pub mod studio;
pub mod synth;
pub mod text;
pub mod voice;
