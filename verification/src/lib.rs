//! A small step-based automation scripting engine.
//!
//! A script is an ordered sequence of single-entry mapping records ("steps").
//! Each step either assigns a variable, writes a line of output, runs a
//! control-flow construct (`if`, `while`, `each`, `break`, `call`, `def`),
//! spawns a command through a host capability (`exec`), or ends the run
//! (`exit`). The engine's behaviour is stated against a small-step relational
//! semantics over mathematical views of the interpreter state.

pub mod binding;
pub mod break_step;
pub mod call;
pub mod def;
pub mod each;
pub mod echo;
pub mod exec;
pub mod exit;
pub mod expr;
pub mod flow;
pub mod host;
pub mod if_step;
pub mod laws;
pub mod node;
pub mod scalar;
pub mod script;
pub mod semantics;
pub mod step;
pub mod strmap;
pub mod text;
pub mod value;
pub mod var;
pub mod while_step;
pub mod writer;

pub use flow::{Error, Flow};
pub use node::Node;
pub use script::Script;
pub use value::Value;
