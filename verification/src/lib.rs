//! Compile-time and run-time state of a small language that reshapes
//! structured records: scoped variable bindings, the program-wide environment
//! with its read-only rules, the run-time variable store, and the entry points
//! that put parsing before compilation.
//!
//! Beside that core stand the decisions of two neighbours in the pipeline:
//! how the internal metrics system is set up and what a snapshot adds
//! ([`metrics`]), and which collectors and devices the host metrics source
//! reports ([`host_metrics`]).

pub mod compile;
pub mod context;
pub mod host_metrics;
pub mod ident;
pub mod kind;
pub mod metrics;
pub mod path;
pub mod state;
pub mod table;
pub mod text;
pub mod type_def;
pub mod value;

pub use compile::{compile, compile_with_external, compile_with_state};
