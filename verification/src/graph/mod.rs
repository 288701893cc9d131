//! File-defined sound models: a description compiled into a graph of nodes.
pub mod assemble;
pub mod expr;
pub mod formula;
pub mod grammar;
pub mod host;
pub mod library;
pub mod meaning;
pub mod model;
pub mod node;
pub mod order;
pub mod parse;
pub mod run;
pub mod spec;
pub mod tables;
pub mod token;
pub mod wiring;
