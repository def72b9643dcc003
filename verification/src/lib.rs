//! Decision core of a competitive-programming judge.
//!
//! The crate holds everything a judge decides: which commands a language
//! descriptor yields, how a workspace is laid out, which limits a sandbox
//! enforces, what each tick of the resource monitor concludes, and how the
//! final verdict is put together. Spawning processes, moving bytes through
//! pipes and talking to the kernel are left to the caller, which feeds its
//! observations back in as plain values.
//!
//! A run goes like this. `Judge::new` lists the files of the workspace,
//! `Judge::compile` takes the judge past the build, and `Judge::run` plans the
//! run on one input: what to start, what to feed, and the sandbox to start
//! the submission in. While the two processes run, every poll of the
//! submission goes through `Sandbox::monitor` and every chunk that a pump
//! reads through `Pump::accept`. `Run::finish` turns the monitor's outcome,
//! the checker's exit status and the collected output into `Metrics`.

pub mod judge;
pub mod language;
pub mod metrics;
pub mod sandbox;
pub mod time;
pub mod verdict;

pub use judge::{Code, Judge, Pump, Run};
pub use language::Language;
pub use metrics::Metrics;
pub use sandbox::{Resource, Sandbox};
pub use time::Span;
pub use verdict::Verdict;
