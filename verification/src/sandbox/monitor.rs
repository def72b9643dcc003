use crate::sandbox::Sandbox;
use crate::time::Span;
use crate::verdict::Verdict;
use vstd::prelude::*;

verus! {

/// Pause between two polls, in nanoseconds: 10 ms.
pub const POLL_NANOS: u128 = 10_000_000;

/// CPU time, in nanoseconds, that a busy process gains between two polls
/// at the very least: 1 ms. A tick that gains no more counts as idle.
pub const MIN_CPU_USAGE_PER_POLL_NANOS: u128 = 1_000_000;

/// How long, in nanoseconds, a process may stay idle: 100 ms.
pub const IDLE_TIME_LIMIT_NANOS: u128 = 100_000_000;

/// The signal the kernel's out-of-memory killer sends.
pub const SIGKILL: i32 = 9;

/// What the monitor carries from one poll to the next.
#[derive(Debug, Clone, Copy, PartialEq, Eq, Structural)]
pub struct Monitor {
    /// CPU time the group had used at the previous poll.
    pub prev_cpu: Span,
    /// Largest memory usage seen so far, in bytes.
    pub peak_memory: u64,
    /// When the current idle stretch began, on the monitor's own clock.
    pub idle_start: Option<Span>,
}

/// What one poll found. Times are read on a clock that starts when the
/// monitor does.
#[derive(Debug, Clone, Copy, PartialEq, Eq, Structural)]
pub enum Poll {
    /// The child is gone. `signal` is the signal that ended it, if one did;
    /// `memory_limit` is the group's hard limit in bytes.
    Exited { success: bool, signal: Option<i32>, memory_limit: u64 },
    /// The child still runs. `elapsed` is the monitor's clock; `cpu_usage`
    /// and `memory_usage` are the group's two counters.
    Running { elapsed: Span, cpu_usage: Span, memory_usage: u64 },
}

/// The monitor's result: a verdict where the run itself settles one, the
/// CPU time to report, and the memory to report in bytes.
#[derive(Debug, Clone, Copy, PartialEq, Eq, Structural)]
pub struct Outcome {
    pub verdict: Option<Verdict>,
    pub cpu_time: Span,
    pub memory: u64,
}

/// What to do after a poll: pause for the sandbox's poll interval and poll
/// again with the new state, or stop with an outcome.
#[derive(Debug, Clone, Copy, PartialEq, Eq, Structural)]
pub enum Step {
    Continue(Monitor),
    Done(Outcome),
}

/// Distance between two CPU readings.
pub open spec fn cpu_gain(prev: Span, now: Span) -> int {
    if now.nanos >= prev.nanos {
        now.nanos - prev.nanos
    } else {
        prev.nanos - now.nanos
    }
}

/// Time since `since` on a clock that reads `now`; zero if the clock fell
/// behind.
pub open spec fn time_since(since: Span, now: Span) -> int {
    if now.nanos >= since.nanos {
        now.nanos - since.nanos
    } else {
        0
    }
}

/// The larger of two byte counts.
pub open spec fn larger(a: u64, b: u64) -> u64 {
    if a >= b {
        a
    } else {
        b
    }
}

impl Monitor {
    /// The state before the first poll, given the group's CPU counter.
    pub fn new(cpu_usage: Span) -> (state: Monitor)
        ensures
            state == (Monitor { prev_cpu: cpu_usage, peak_memory: 0, idle_start: None }),
    {
        Monitor { prev_cpu: cpu_usage, peak_memory: 0, idle_start: None }
    }

    /// Outcome for a child that ended by itself: no verdict after a clean
    /// exit, memory limit exceeded (reporting the limit) after `SIGKILL`,
    /// runtime error otherwise.
    pub open spec fn exited(self, success: bool, signal: Option<i32>, memory_limit: u64) -> Outcome {
        if success {
            Outcome { verdict: None, cpu_time: self.prev_cpu, memory: self.peak_memory }
        } else if signal == Some(SIGKILL) {
            Outcome {
                verdict: Some(Verdict::MemoryLimitExceeded),
                cpu_time: self.prev_cpu,
                memory: memory_limit,
            }
        } else {
            Outcome {
                verdict: Some(Verdict::RuntimeError),
                cpu_time: self.prev_cpu,
                memory: self.peak_memory,
            }
        }
    }

    /// Whether a tick with CPU reading `cpu_usage` counts as idle.
    pub open spec fn idle_at(self, cpu_usage: Span) -> bool {
        cpu_gain(self.prev_cpu, cpu_usage) <= MIN_CPU_USAGE_PER_POLL_NANOS
    }

    /// Whether the idle stretch has lasted too long by `elapsed`.
    pub open spec fn idle_too_long(self, elapsed: Span, cpu_usage: Span) -> bool {
        &&& self.idle_at(cpu_usage)
        &&& self.idle_start matches Some(since)
        &&& time_since(since, elapsed) >= IDLE_TIME_LIMIT_NANOS
    }

    /// The state after a tick that tripped nothing.
    pub open spec fn advanced(self, elapsed: Span, cpu_usage: Span, memory_usage: u64) -> Monitor {
        Monitor {
            prev_cpu: cpu_usage,
            peak_memory: larger(self.peak_memory, memory_usage),
            idle_start: if self.idle_at(cpu_usage) {
                match self.idle_start {
                    Some(since) => Some(since),
                    None => Some(elapsed),
                }
            } else {
                None
            },
        }
    }
}

impl Sandbox {
    /// Whether a tick at `elapsed` with CPU reading `cpu_usage` is past the
    /// CPU limit or the wall-clock limit.
    pub open spec fn out_of_time(&self, elapsed: Span, cpu_usage: Span) -> bool {
        cpu_usage.nanos >= self.cpu_usage_limit.nanos || elapsed.nanos
            >= self.wall_time_limit.nanos
    }

    /// One tick of the monitor, as a function of the state and the poll.
    ///
    /// An exit ends the run. Otherwise the idle check comes first and
    /// reports the CPU reading; the limit check comes second and reports the
    /// CPU limit; a tick that trips neither hands on the new state.
    pub open spec fn step(&self, state: Monitor, poll: Poll) -> Step {
        match poll {
            Poll::Exited { success, signal, memory_limit } => Step::Done(
                state.exited(success, signal, memory_limit),
            ),
            Poll::Running { elapsed, cpu_usage, memory_usage } => {
                if state.idle_too_long(elapsed, cpu_usage) {
                    Step::Done(
                        Outcome {
                            verdict: Some(Verdict::IdleTimeLimitExceeded),
                            cpu_time: cpu_usage,
                            memory: larger(state.peak_memory, memory_usage),
                        },
                    )
                } else if self.out_of_time(elapsed, cpu_usage) {
                    Step::Done(
                        Outcome {
                            verdict: Some(Verdict::TimeLimitExceeded),
                            cpu_time: self.cpu_usage_limit,
                            memory: larger(state.peak_memory, memory_usage),
                        },
                    )
                } else {
                    Step::Continue(state.advanced(elapsed, cpu_usage, memory_usage))
                }
            },
        }
    }

    /// Where the monitor stands after the polls in `polls`, taken in order
    /// from `state`. Polls after the one that ended the run are ignored.
    pub open spec fn run(&self, state: Monitor, polls: Seq<Poll>) -> Step
        decreases polls.len(),
    {
        if polls.len() == 0 {
            Step::Continue(state)
        } else {
            match self.step(state, polls[0]) {
                Step::Continue(next) => self.run(next, polls.skip(1)),
                Step::Done(outcome) => Step::Done(outcome),
            }
        }
    }

    /// Decides one tick of the monitoring loop.
    ///
    /// The caller polls the child and the group, hands the finding in, and
    /// on `Step::Continue` pauses for `poll_interval` before it polls again.
    pub fn monitor(&self, state: Monitor, poll: Poll) -> (step: Step)
        ensures
            step == self.step(state, poll),
    {
        match poll {
            Poll::Exited { success, signal, memory_limit } => {
                if success {
                    Step::Done(
                        Outcome {
                            verdict: None,
                            cpu_time: state.prev_cpu,
                            memory: state.peak_memory,
                        },
                    )
                } else {
                    let killed = match signal {
                        Some(number) => number == SIGKILL,
                        None => false,
                    };
                    if killed {
                        Step::Done(
                            Outcome {
                                verdict: Some(Verdict::MemoryLimitExceeded),
                                cpu_time: state.prev_cpu,
                                memory: memory_limit,
                            },
                        )
                    } else {
                        Step::Done(
                            Outcome {
                                verdict: Some(Verdict::RuntimeError),
                                cpu_time: state.prev_cpu,
                                memory: state.peak_memory,
                            },
                        )
                    }
                }
            },
            Poll::Running { elapsed, cpu_usage, memory_usage } => {
                let peak: u64 = if state.peak_memory >= memory_usage {
                    state.peak_memory
                } else {
                    memory_usage
                };
                let gain: u128 = if cpu_usage.nanos >= state.prev_cpu.nanos {
                    cpu_usage.nanos - state.prev_cpu.nanos
                } else {
                    state.prev_cpu.nanos - cpu_usage.nanos
                };
                let mut idle_start: Option<Span> = None;
                if gain <= MIN_CPU_USAGE_PER_POLL_NANOS {
                    match state.idle_start {
                        Some(since) => {
                            if elapsed.nanos >= since.nanos && elapsed.nanos - since.nanos
                                >= IDLE_TIME_LIMIT_NANOS {
                                return Step::Done(
                                    Outcome {
                                        verdict: Some(Verdict::IdleTimeLimitExceeded),
                                        cpu_time: cpu_usage,
                                        memory: peak,
                                    },
                                );
                            }
                            idle_start = Some(since);
                        },
                        None => {
                            idle_start = Some(elapsed);
                        },
                    }
                }
                if cpu_usage.nanos >= self.cpu_usage_limit.nanos || elapsed.nanos
                    >= self.wall_time_limit.nanos {
                    return Step::Done(
                        Outcome {
                            verdict: Some(Verdict::TimeLimitExceeded),
                            cpu_time: self.cpu_usage_limit,
                            memory: peak,
                        },
                    );
                }
                Step::Continue(Monitor { prev_cpu: cpu_usage, peak_memory: peak, idle_start })
            },
        }
    }
}

/// The CPU time a step stands at: the last reading while the run goes on,
/// the reported time once it is over.
pub open spec fn run_time(step: Step) -> Span {
    match step {
        Step::Continue(state) => state.prev_cpu,
        Step::Done(outcome) => outcome.cpu_time,
    }
}

/// The memory a step stands at: the peak so far while the run goes on, the
/// reported memory once it is over.
pub open spec fn memory_of(step: Step) -> u64 {
    match step {
        Step::Continue(state) => state.peak_memory,
        Step::Done(outcome) => outcome.memory,
    }
}

/// The CPU readings in `polls` never fall: each is at least the reading
/// before it, and the first at least `start`.
pub open spec fn cumulative(start: Span, polls: Seq<Poll>) -> bool
    decreases polls.len(),
{
    if polls.len() == 0 {
        true
    } else {
        match polls[0] {
            Poll::Running { cpu_usage, .. } => start.nanos <= cpu_usage.nanos && cumulative(
                cpu_usage,
                polls.skip(1),
            ),
            Poll::Exited { .. } => cumulative(start, polls.skip(1)),
        }
    }
}

/// The child stays within both time limits and is never idle for too long
/// while it runs, and the last poll, and only the last, finds that it has
/// exited cleanly.
pub open spec fn clean_run(sandbox: Sandbox, state: Monitor, polls: Seq<Poll>) -> bool
    decreases polls.len(),
{
    if polls.len() == 0 {
        false
    } else {
        match polls[0] {
            Poll::Exited { success, .. } => success && polls.len() == 1,
            Poll::Running { elapsed, cpu_usage, memory_usage } => {
                &&& !sandbox.out_of_time(elapsed, cpu_usage)
                &&& !state.idle_too_long(elapsed, cpu_usage)
                &&& clean_run(
                    sandbox,
                    state.advanced(elapsed, cpu_usage, memory_usage),
                    polls.skip(1),
                )
            },
        }
    }
}

/// Every poll in `polls` that reads the group's hard limit reads `limit`.
pub open spec fn limit_readings_are(polls: Seq<Poll>, limit: u64) -> bool {
    forall|k: int|
        0 <= k < polls.len() ==> (#[trigger] polls[k] matches Poll::Exited { memory_limit, .. }
            ==> memory_limit == limit)
}

/// No memory reading in `polls`, usage or limit, is above `bound`.
pub open spec fn memory_readings_within(polls: Seq<Poll>, bound: u64) -> bool {
    forall|k: int|
        0 <= k < polls.len() ==> match #[trigger] polls[k] {
            Poll::Running { memory_usage, .. } => memory_usage <= bound,
            Poll::Exited { memory_limit, .. } => memory_limit <= bound,
        }
}

/// With a CPU counter that never falls, and starting at or below the CPU
/// limit, a run's CPU time is at or above where it started.
pub proof fn lemma_run_time_at_least_start(sandbox: Sandbox, state: Monitor, polls: Seq<Poll>)
    requires
        state.prev_cpu.nanos <= sandbox.cpu_usage_limit.nanos,
        cumulative(state.prev_cpu, polls),
    ensures
        state.prev_cpu.nanos <= run_time(sandbox.run(state, polls)).nanos,
    decreases polls.len(),
{
    if polls.len() > 0 {
        if let Step::Continue(next) = sandbox.step(state, polls[0]) {
            lemma_run_time_at_least_start(sandbox, next, polls.skip(1));
        }
    }
}

/// The reported CPU time never decreases from poll to poll: with a CPU
/// counter that never falls, and starting at or below the CPU limit, the run
/// stands after `j` polls at or above where it stood after `i <= j`.
pub proof fn lemma_run_time_never_decreases(
    sandbox: Sandbox,
    state: Monitor,
    polls: Seq<Poll>,
    i: int,
    j: int,
)
    requires
        state.prev_cpu.nanos <= sandbox.cpu_usage_limit.nanos,
        cumulative(state.prev_cpu, polls),
        0 <= i <= j <= polls.len(),
    ensures
        run_time(sandbox.run(state, polls.take(i))).nanos <= run_time(
            sandbox.run(state, polls.take(j)),
        ).nanos,
    decreases polls.len(),
{
    if i == 0 {
        lemma_cumulative_prefix(state.prev_cpu, polls, j);
        lemma_run_time_at_least_start(sandbox, state, polls.take(j));
    } else {
        assert(polls.take(i)[0] == polls[0]);
        assert(polls.take(j)[0] == polls[0]);
        assert(polls.take(i).skip(1) =~= polls.skip(1).take(i - 1));
        assert(polls.take(j).skip(1) =~= polls.skip(1).take(j - 1));
        if let Step::Continue(next) = sandbox.step(state, polls[0]) {
            lemma_run_time_never_decreases(sandbox, next, polls.skip(1), i - 1, j - 1);
        }
    }
}

/// A prefix of non-falling readings is non-falling.
pub proof fn lemma_cumulative_prefix(start: Span, polls: Seq<Poll>, n: int)
    requires
        cumulative(start, polls),
        0 <= n <= polls.len(),
    ensures
        cumulative(start, polls.take(n)),
    decreases polls.len(),
{
    if n > 0 {
        assert(polls.take(n)[0] == polls[0]);
        assert(polls.take(n).skip(1) =~= polls.skip(1).take(n - 1));
        match polls[0] {
            Poll::Running { cpu_usage, .. } => {
                lemma_cumulative_prefix(cpu_usage, polls.skip(1), n - 1);
            },
            Poll::Exited { .. } => {
                lemma_cumulative_prefix(start, polls.skip(1), n - 1);
            },
        }
    }
}

/// A run that ends with memory limit exceeded reports the configured limit,
/// given that this is what the group's limit probe reads.
pub proof fn lemma_memory_limit_exceeded_reports_limit(
    sandbox: Sandbox,
    state: Monitor,
    polls: Seq<Poll>,
    limit: u64,
)
    requires
        sandbox.run(state, polls) matches Step::Done(outcome) && outcome.verdict == Some(
            Verdict::MemoryLimitExceeded,
        ),
        limit_readings_are(polls, limit),
    ensures
        memory_of(sandbox.run(state, polls)) == limit,
    decreases polls.len(),
{
    let first = polls[0];
    if let Step::Continue(next) = sandbox.step(state, first) {
        assert forall|k: int| 0 <= k < polls.skip(1).len() implies (#[trigger] polls.skip(1)[k]
            matches Poll::Exited { memory_limit, .. } ==> memory_limit == limit) by {
            assert(polls.skip(1)[k] == polls[k + 1]);
        }
        lemma_memory_limit_exceeded_reports_limit(sandbox, next, polls.skip(1), limit);
    }
}

/// The memory a run stands at is never above what was read: if the peak so
/// far and every reading in `polls` are within `bound`, so is the memory
/// after them.
pub proof fn lemma_memory_within_readings(
    sandbox: Sandbox,
    state: Monitor,
    polls: Seq<Poll>,
    bound: u64,
)
    requires
        state.peak_memory <= bound,
        memory_readings_within(polls, bound),
    ensures
        memory_of(sandbox.run(state, polls)) <= bound,
    decreases polls.len(),
{
    if polls.len() > 0 {
        let first = polls[0];
        if let Step::Continue(next) = sandbox.step(state, first) {
            assert forall|k: int| 0 <= k < polls.skip(1).len() implies match #[trigger] polls.skip(
                1,
            )[k] {
                Poll::Running { memory_usage, .. } => memory_usage <= bound,
                Poll::Exited { memory_limit, .. } => memory_limit <= bound,
            } by {
                assert(polls.skip(1)[k] == polls[k + 1]);
            }
            lemma_memory_within_readings(sandbox, next, polls.skip(1), bound);
        }
    }
}

/// A poll that finds the child past the CPU limit or the wall-clock limit
/// ends the run: no child outlives the wall-clock limit by more than the
/// pause between two polls.
pub proof fn lemma_out_of_time_ends_run(sandbox: Sandbox, state: Monitor, poll: Poll)
    requires
        poll matches Poll::Running { elapsed, cpu_usage, .. } && sandbox.out_of_time(
            elapsed,
            cpu_usage,
        ),
    ensures
        sandbox.step(state, poll) matches Step::Done(outcome) && (outcome.verdict == Some(
            Verdict::TimeLimitExceeded,
        ) || outcome.verdict == Some(Verdict::IdleTimeLimitExceeded)),
{
}

/// The monitor settles none of the verdicts that are the checker's or the
/// compiler's to give.
pub proof fn lemma_monitor_verdicts(sandbox: Sandbox, state: Monitor, polls: Seq<Poll>)
    requires
        sandbox.run(state, polls) is Done,
    ensures
        match sandbox.run(state, polls)->Done_0.verdict {
            Some(verdict) => verdict == Verdict::TimeLimitExceeded || verdict
                == Verdict::IdleTimeLimitExceeded || verdict == Verdict::MemoryLimitExceeded
                || verdict == Verdict::RuntimeError,
            None => true,
        },
    decreases polls.len(),
{
    if let Step::Continue(next) = sandbox.step(state, polls[0]) {
        lemma_monitor_verdicts(sandbox, next, polls.skip(1));
    }
}

/// A clean run ends without a verdict of the monitor's own, at a CPU time
/// within the limit, provided the CPU counter stood within the limit when
/// the monitor began.
pub proof fn lemma_clean_run_has_no_verdict(sandbox: Sandbox, state: Monitor, polls: Seq<Poll>)
    requires
        state.prev_cpu.nanos <= sandbox.cpu_usage_limit.nanos,
        clean_run(sandbox, state, polls),
    ensures
        sandbox.run(state, polls) matches Step::Done(outcome) && outcome.verdict is None
            && outcome.cpu_time.nanos <= sandbox.cpu_usage_limit.nanos,
    decreases polls.len(),
{
    if let Step::Continue(next) = sandbox.step(state, polls[0]) {
        lemma_clean_run_has_no_verdict(sandbox, next, polls.skip(1));
    }
}

} // verus!
