use crate::sandbox::Outcome;
use crate::time::Span;
use crate::verdict::Verdict;
use vstd::prelude::*;

verus! {

/// What one run yields: the verdict, the CPU time at termination or at the
/// limit, the memory in bytes, and what the submission wrote.
#[derive(Debug)]
pub struct Metrics {
    pub verdict: Verdict,
    pub run_time: Span,
    pub memory_usage: u64,
    pub stdout: Vec<u8>,
    pub stderr: Vec<u8>,
}

/// The verdict of a run. What the monitor found comes first; only where it
/// found nothing does the checker decide, and any failure of the checker
/// counts as a wrong answer.
pub open spec fn final_verdict(outcome: Outcome, checker_succeeded: bool) -> Verdict {
    match outcome.verdict {
        Some(verdict) => verdict,
        None => if checker_succeeded {
            Verdict::Accepted
        } else {
            Verdict::WrongAnswer
        },
    }
}

impl Metrics {
    /// The metrics of a submission that did not compile: no output and no
    /// resources used.
    pub fn compilation_error() -> (metrics: Metrics)
        ensures
            metrics.verdict == Verdict::CompilationError,
            metrics.run_time.nanos == 0,
            metrics.memory_usage == 0,
            metrics.stdout@ == Seq::<u8>::empty(),
            metrics.stderr@ == Seq::<u8>::empty(),
    {
        Metrics {
            verdict: Verdict::CompilationError,
            run_time: Span { nanos: 0 },
            memory_usage: 0,
            stdout: Vec::new(),
            stderr: Vec::new(),
        }
    }

    /// Puts the metrics of a run together from the monitor's outcome, the
    /// checker's exit status and the collected output.
    pub fn new(outcome: Outcome, checker_succeeded: bool, stdout: Vec<u8>, stderr: Vec<u8>) -> (metrics:
        Metrics)
        ensures
            metrics.verdict == final_verdict(outcome, checker_succeeded),
            metrics.run_time == outcome.cpu_time,
            metrics.memory_usage == outcome.memory,
            metrics.stdout == stdout,
            metrics.stderr == stderr,
    {
        let verdict = match outcome.verdict {
            Some(verdict) => verdict,
            None => if checker_succeeded {
                Verdict::Accepted
            } else {
                Verdict::WrongAnswer
            },
        };
        Metrics {
            verdict,
            run_time: outcome.cpu_time,
            memory_usage: outcome.memory,
            stdout,
            stderr,
        }
    }
}

} // verus!
