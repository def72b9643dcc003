use crate::language::Language;
use crate::metrics::{final_verdict, Metrics};
use crate::sandbox::monitor::{
    clean_run, lemma_clean_run_has_no_verdict, lemma_monitor_verdicts,
};
use crate::sandbox::{Monitor, Outcome, Poll, Resource, Sandbox, SandboxError, Step};
use crate::time::Span;
use crate::verdict::Verdict;
use vstd::prelude::*;
use vstd::slice::slice_to_vec;
use vstd::string::StringExecFns;

verus! {

/// Logical name of the submission.
pub const MAIN: &'static str = "main";

/// Logical name of the checker.
pub const CHECKER: &'static str = "checker";

/// Size of the buffer a pump reads into, in bytes.
pub const BUFFER_SIZE: usize = 512;

/// The byte that ends the input line.
pub const NEWLINE: u8 = 10;

/// Permissions of the checker's file: read and execute for all, write for
/// the owner.
pub const CHECKER_MODE: u32 = 0o755;

/// A program: its text and the language it is written in.
#[derive(Debug, Clone, Copy)]
pub struct Code<'a> {
    pub language: Language,
    pub content: &'a [u8],
}

/// How far a judge has come.
#[derive(Debug, Clone, Copy, PartialEq, Eq, Structural)]
pub enum Stage {
    Created,
    Compiled,
}

/// A file to be written into the workspace, created or truncated. `mode`
/// holds the permissions to create it with; without one the file gets what
/// the system gives a new file.
#[derive(Debug)]
pub struct WorkspaceFile {
    pub name: String,
    pub content: Vec<u8>,
    pub mode: Option<u32>,
}

/// Where one of a process's standard streams goes.
#[derive(Debug, Clone, Copy, PartialEq, Eq, Structural)]
pub enum Stream {
    /// To a pipe that the judge holds the other end of.
    Piped,
    /// Nowhere.
    Discarded,
}

/// How to start a process: the argument vector, to be run in the workspace,
/// where its three standard streams go, and whether it starts inside the
/// run's sandbox.
#[derive(Debug)]
pub struct Launch {
    pub command: Vec<String>,
    pub stdin: Stream,
    pub stdout: Stream,
    pub stderr: Stream,
    pub sandboxed: bool,
}

/// Why a judge refused.
#[derive(Debug, Clone, Copy, PartialEq, Eq, Structural)]
pub enum JudgeError {
    /// The submission has not been compiled yet.
    NotCompiled,
    /// The judge was built without a checker.
    MissingChecker,
    /// No sandbox could be set up.
    Sandbox(SandboxError),
}

/// A submission being judged: where its workspace is, the languages of the
/// submission and of its checker, and the limits that it runs under.
#[derive(Debug)]
pub struct Judge {
    pub project_path: String,
    pub language: Language,
    pub checker_language: Option<Language>,
    pub is_interactive: bool,
    pub resource: Resource,
    pub time_limit: Span,
    pub stage: Stage,
}

/// `stem` with `extension` behind a dot, or `stem` alone where the extension
/// is empty.
pub open spec fn file_name(stem: Seq<char>, extension: Seq<char>) -> Seq<char> {
    if extension.len() == 0 {
        stem
    } else {
        stem + seq!['.'] + extension
    }
}

/// Name of the file that holds the submission's source.
pub open spec fn source_name(language: Language) -> Seq<char> {
    file_name(MAIN@, language.extension@)
}

/// Name of the file that is started to run a program called `stem`: the
/// source itself for an interpreted language, the bare name otherwise.
pub open spec fn program_name(stem: Seq<char>, language: Language) -> Seq<char> {
    if language.interpreted() {
        file_name(stem, language.extension@)
    } else {
        stem
    }
}

/// `input` as one line.
pub open spec fn input_line(input: Seq<u8>) -> Seq<u8> {
    input.push(NEWLINE)
}

/// The first line of a stream of bytes, without the byte that ends it.
pub open spec fn first_line(stream: Seq<u8>) -> Seq<u8>
    decreases stream.len(),
{
    if stream.len() == 0 || stream[0] == NEWLINE {
        Seq::empty()
    } else {
        seq![stream[0]] + first_line(stream.skip(1))
    }
}

fn make_file_name(stem: &str, extension: &str) -> (name: String)
    ensures
        name@ == file_name(stem@, extension@),
{
    let mut name = String::from_str(stem);
    if extension.unicode_len() > 0 {
        name.append(".");
        name.append(extension);
        proof {
            reveal_strlit(".");
            assert("."@ =~= seq!['.']);
        }
    }
    name
}

fn make_program_name(stem: &str, language: &Language) -> (name: String)
    ensures
        name@ == program_name(stem@, *language),
{
    if language.is_interpreted() {
        make_file_name(stem, language.extension)
    } else {
        String::from_str(stem)
    }
}

fn make_input_line(input: &[u8]) -> (line: Vec<u8>)
    ensures
        line@ == input_line(input@),
{
    let mut line = slice_to_vec(input);
    line.push(NEWLINE);
    line
}

/// What a pump does after a chunk.
#[derive(Debug, Clone, Copy, PartialEq, Eq, Structural)]
pub enum Next {
    /// Nothing more.
    Stop,
    /// Read the next chunk.
    Read,
    /// Flush the writer, then read the next chunk.
    FlushThenRead,
}

/// One direction of the plumbing between the submission and the checker,
/// with the buffer that is its alone.
///
/// A pump reads a chunk of at most `BUFFER_SIZE` bytes, writes it to its
/// writer if it has one, and tells `accept` how that went. It stops when its
/// reader is at its end or its writer turns a chunk down, and flushes its
/// writer after every chunk that went through.
#[derive(Debug)]
pub struct Pump {
    /// Whether chunks are passed on to a writer.
    pub forwards: bool,
    /// Whether a copy of what went through is kept.
    pub keeps: bool,
    /// The copy.
    pub collected: Vec<u8>,
}

/// What it takes to run a compiled submission on one input.
///
/// The caller starts `checker`, creates the group of `sandbox`, and starts
/// `main` inside it. It then writes `checker_input` to the checker and, if
/// there is one, `main_input` to the submission, each followed by a flush,
/// and only then starts the pumps, side by side with the monitor.
///
/// `stdout` moves the submission's standard output to the checker's
/// standard input, `stderr` takes the submission's standard error in, and
/// `relay`, in an interactive run, moves the checker's standard output to
/// the submission's standard input. In a run that is not interactive the
/// submission's standard input is closed once `main_input` is written.
#[derive(Debug)]
pub struct Run {
    pub checker: Launch,
    pub main: Launch,
    pub sandbox: Sandbox,
    pub checker_input: Vec<u8>,
    pub main_input: Option<Vec<u8>>,
    pub stdout: Pump,
    pub stderr: Pump,
    pub relay: Option<Pump>,
}

impl Launch {
    /// Whether this starts the program `name` of `language` with its
    /// standard input and output piped.
    pub open spec fn starts(
        &self,
        language: Language,
        name: Seq<char>,
        stderr: Stream,
        sandboxed: bool,
    ) -> bool {
        &&& self.command.deep_view() == language.run_command(name)
        &&& self.stdin == Stream::Piped
        &&& self.stdout == Stream::Piped
        &&& self.stderr == stderr
        &&& self.sandboxed == sandboxed
    }
}

impl Pump {
    /// Whether this is a pump of the given kind that has moved nothing yet.
    pub open spec fn fresh(&self, forwards: bool, keeps: bool) -> bool {
        &&& self.forwards == forwards
        &&& self.keeps == keeps
        &&& self.collected@ == Seq::<u8>::empty()
    }

    /// Whether the pump goes on after a chunk: not at the end of the stream,
    /// which an empty chunk marks, and not after its writer turned the chunk
    /// down.
    pub open spec fn goes_on(&self, chunk: Seq<u8>, delivered: bool) -> bool {
        chunk.len() > 0 && (delivered || !self.forwards)
    }

    /// A pump that has moved nothing yet.
    pub fn new(forwards: bool, keeps: bool) -> (pump: Pump)
        ensures
            pump.fresh(forwards, keeps),
    {
        Pump { forwards, keeps, collected: Vec::new() }
    }

    /// What the pump does after a chunk: nothing if it does not go on, and
    /// otherwise the next read, after a flush where it has a writer.
    pub open spec fn next(&self, chunk: Seq<u8>, delivered: bool) -> Next {
        if !self.goes_on(chunk, delivered) {
            Next::Stop
        } else if self.forwards {
            Next::FlushThenRead
        } else {
            Next::Read
        }
    }

    /// Accounts for a chunk that was read and, where the pump has a writer,
    /// written to it; `delivered` tells whether the writer took it. Returns
    /// what to do next. A chunk is kept only if the pump keeps a copy and
    /// goes on.
    pub fn accept(&mut self, chunk: &[u8], delivered: bool) -> (next: Next)
        ensures
            next == old(self).next(chunk@, delivered),
            final(self).forwards == old(self).forwards,
            final(self).keeps == old(self).keeps,
            final(self).collected@ == if old(self).goes_on(chunk@, delivered) && old(self).keeps {
                old(self).collected@ + chunk@
            } else {
                old(self).collected@
            },
    {
        if chunk.len() == 0 || (self.forwards && !delivered) {
            return Next::Stop;
        }
        if self.keeps {
            append_bytes(&mut self.collected, chunk);
        }
        if self.forwards {
            Next::FlushThenRead
        } else {
            Next::Read
        }
    }
}

impl Judge {
    /// Why `run` refuses, if it does. A judge that is not compiled comes
    /// first, one without a checker second, a sandbox that cannot be set up
    /// last.
    pub open spec fn run_error(&self) -> Option<JudgeError> {
        if self.stage != Stage::Compiled {
            Some(JudgeError::NotCompiled)
        } else if self.checker_language is None {
            Some(JudgeError::MissingChecker)
        } else {
            match crate::sandbox::setup_error(self.resource, self.time_limit) {
                Some(error) => Some(JudgeError::Sandbox(error)),
                None => None,
            }
        }
    }

    /// Whether `run` is this judge's run on `input`, with nothing moved yet.
    /// The checker starts outside the sandbox with its standard error
    /// discarded, the submission inside it with all three streams piped,
    /// both from their run templates. The sandbox is one for the judge's
    /// resource and time limit. The checker gets the input line, and the
    /// submission gets either the input line or, in an interactive run,
    /// what the checker writes.
    pub open spec fn plans(&self, run: &Run, input: Seq<u8>) -> bool {
        &&& self.checker_language matches Some(checker)
        &&& run.checker.starts(checker, CHECKER@, Stream::Discarded, false)
        &&& run.main.starts(self.language, MAIN@, Stream::Piped, true)
        &&& run.sandbox.enforces(self.resource, self.time_limit)
        &&& run.checker_input@ == input_line(input)
        &&& match run.main_input {
            Some(line) => !self.is_interactive && line@ == input_line(input),
            None => self.is_interactive,
        }
        &&& run.stdout.fresh(true, true)
        &&& run.stderr.fresh(false, true)
        &&& match run.relay {
            Some(relay) => self.is_interactive && relay.fresh(true, false),
            None => !self.is_interactive,
        }
    }

    /// Sets up a judge for a submission and, if given, its checker, and
    /// lists the files to write into the fresh workspace at `project_path`:
    /// first the submission's source, then the checker. The checker keeps
    /// its extension only if its language is interpreted, and is written
    /// with `CHECKER_MODE` whether it holds source or a built executable.
    pub fn new<'a>(
        project_path: String,
        main: Code<'a>,
        checker: Option<Code<'a>>,
        is_interactive: bool,
        resource: Resource,
        time_limit: Span,
    ) -> (created: (Judge, Vec<WorkspaceFile>))
        ensures
            created.0 == (Judge {
                project_path,
                language: main.language,
                checker_language: match checker {
                    Some(code) => Some(code.language),
                    None => None,
                },
                is_interactive,
                resource,
                time_limit,
                stage: Stage::Created,
            }),
            created.1@.len() == if checker is Some {
                2int
            } else {
                1int
            },
            created.1@[0].name@ == source_name(main.language),
            created.1@[0].content@ == main.content@,
            created.1@[0].mode is None,
            checker matches Some(code) ==> {
                &&& created.1@[1].name@ == program_name(CHECKER@, code.language)
                &&& created.1@[1].content@ == code.content@
                &&& created.1@[1].mode == Some(CHECKER_MODE)
            },
    {
        let mut files: Vec<WorkspaceFile> = Vec::new();
        files.push(
            WorkspaceFile {
                name: make_file_name(MAIN, main.language.extension),
                content: slice_to_vec(main.content),
                mode: None,
            },
        );
        let checker_language = match checker {
            Some(code) => {
                files.push(
                    WorkspaceFile {
                        name: make_program_name(CHECKER, &code.language),
                        content: slice_to_vec(code.content),
                        mode: Some(CHECKER_MODE),
                    },
                );
                Some(code.language)
            },
            None => None,
        };
        let judge = Judge {
            project_path,
            language: main.language,
            checker_language,
            is_interactive,
            resource,
            time_limit,
            stage: Stage::Created,
        };
        (judge, files)
    }

    /// The command that builds the submission, to be run in the workspace;
    /// `None` if its language needs no build.
    pub fn compile_command(&self) -> (command: Option<Vec<String>>)
        ensures
            command.deep_view() == self.language.compile_command(MAIN@),
    {
        self.language.get_compile_command(MAIN)
    }

    /// Takes the judge to the compiled stage, given how the build command
    /// ended. A language that needs no build always gets there, and
    /// `build_succeeded` is not looked at; otherwise a failed build is a
    /// compilation error.
    pub fn compile(self, build_succeeded: bool) -> (compiled: Result<Judge, Verdict>)
        ensures
            match compiled {
                Ok(judge) => (self.language.interpreted() || build_succeeded) && judge == (Judge {
                    stage: Stage::Compiled,
                    ..self
                }),
                Err(verdict) => !self.language.interpreted() && !build_succeeded && verdict
                    == Verdict::CompilationError,
            },
    {
        if !self.language.is_interpreted() && !build_succeeded {
            return Err(Verdict::CompilationError);
        }
        Ok(
            Judge {
                project_path: self.project_path,
                language: self.language,
                checker_language: self.checker_language,
                is_interactive: self.is_interactive,
                resource: self.resource,
                time_limit: self.time_limit,
                stage: Stage::Compiled,
            },
        )
    }

    /// Name, inside the workspace, of the file that holds the compiled
    /// submission. Its bytes can serve as the checker of another judge.
    pub fn executable(&self) -> (name: Result<String, JudgeError>)
        ensures
            match name {
                Ok(name) => self.stage == Stage::Compiled && name@ == program_name(
                    MAIN@,
                    self.language,
                ),
                Err(error) => self.stage != Stage::Compiled && error == JudgeError::NotCompiled,
            },
    {
        match self.stage {
            Stage::Compiled => Ok(make_program_name(MAIN, &self.language)),
            Stage::Created => Err(JudgeError::NotCompiled),
        }
    }

    /// Plans the run of the compiled submission on `input`.
    pub fn run(&self, input: &[u8]) -> (run: Result<Run, JudgeError>)
        ensures
            match run {
                Ok(run) => self.run_error() is None && self.plans(&run, input@),
                Err(error) => self.run_error() == Some(error),
            },
    {
        match self.stage {
            Stage::Compiled => {},
            Stage::Created => {
                return Err(JudgeError::NotCompiled);
            },
        }
        let checker = match self.checker_language {
            Some(checker) => checker,
            None => {
                return Err(JudgeError::MissingChecker);
            },
        };
        let sandbox = match Sandbox::new(self.resource, self.time_limit) {
            Ok(sandbox) => sandbox,
            Err(error) => {
                return Err(JudgeError::Sandbox(error));
            },
        };
        let (main_input, relay) = if self.is_interactive {
            (None, Some(Pump::new(true, false)))
        } else {
            (Some(make_input_line(input)), None)
        };
        Ok(
            Run {
                checker: Launch {
                    command: checker.get_run_command(CHECKER),
                    stdin: Stream::Piped,
                    stdout: Stream::Piped,
                    stderr: Stream::Discarded,
                    sandboxed: false,
                },
                main: Launch {
                    command: self.language.get_run_command(MAIN),
                    stdin: Stream::Piped,
                    stdout: Stream::Piped,
                    stderr: Stream::Piped,
                    sandboxed: true,
                },
                sandbox,
                checker_input: make_input_line(input),
                main_input,
                stdout: Pump::new(true, true),
                stderr: Pump::new(false, true),
                relay,
            },
        )
    }
}

impl Run {
    /// Every byte the checker has taken on its standard input: the input
    /// line, then the submission's output as far as it went through.
    pub open spec fn checker_feed(&self) -> Seq<u8> {
        self.checker_input@ + self.stdout.collected@
    }

    /// Whether the verdict hangs on the checker: it does exactly when the
    /// monitor found nothing wrong. Otherwise the checker is not waited
    /// for.
    pub fn awaits_checker(&self, outcome: &Outcome) -> (awaits: bool)
        ensures
            awaits == (outcome.verdict is None),
    {
        outcome.verdict.is_none()
    }

    /// Ends the run. `checker_succeeded` tells whether the checker exited
    /// with status zero, and counts only where the verdict hangs on it.
    pub fn finish(self, outcome: Outcome, checker_succeeded: bool) -> (metrics: Metrics)
        ensures
            metrics.verdict == final_verdict(outcome, checker_succeeded),
            metrics.run_time == outcome.cpu_time,
            metrics.memory_usage == outcome.memory,
            metrics.stdout@ == self.stdout.collected@,
            metrics.stderr@ == self.stderr.collected@,
    {
        Metrics::new(outcome, checker_succeeded, self.stdout.collected, self.stderr.collected)
    }
}

fn append_bytes(buffer: &mut Vec<u8>, chunk: &[u8])
    ensures
        final(buffer)@ == old(buffer)@ + chunk@,
{
    let mut at: usize = 0;
    while at < chunk.len()
        invariant
            at <= chunk@.len(),
            buffer@ == old(buffer)@ + chunk@.take(at as int),
        decreases chunk@.len() - at,
    {
        buffer.push(chunk[at]);
        at += 1;
        assert(chunk@.take(at as int) =~= chunk@.take(at - 1).push(chunk@[at - 1]));
    }
    assert(chunk@.take(at as int) =~= chunk@);
}

/// The checker reads the test input as its first line, and is handed it
/// once: whatever the submission has written, the bytes the checker has
/// taken begin with the input line, and all that follows the line is the
/// submission's output. The input must fit on a line.
pub proof fn lemma_checker_reads_input_first(run: Run, input: Seq<u8>)
    requires
        run.checker_input@ == input_line(input),
        !input.contains(NEWLINE),
    ensures
        first_line(run.checker_feed()) == input,
        run.checker_feed().skip(input.len() as int + 1) == run.stdout.collected@,
{
    lemma_first_line_of_line(input, run.stdout.collected@);
    assert(run.checker_feed().skip(input.len() as int + 1) =~= run.stdout.collected@);
}

/// A line followed by anything has the line's content as its first line.
pub proof fn lemma_first_line_of_line(line: Seq<u8>, rest: Seq<u8>)
    requires
        !line.contains(NEWLINE),
    ensures
        first_line(input_line(line) + rest) == line,
    decreases line.len(),
{
    let stream = input_line(line) + rest;
    if line.len() == 0 {
        assert(stream[0] == NEWLINE);
    } else {
        assert(line.contains(line[0]));
        assert(stream[0] == line[0]);
        assert forall|b: u8| line.skip(1).contains(b) implies line.contains(b) by {
            let i = choose|i: int| 0 <= i < line.skip(1).len() && line.skip(1)[i] == b;
            assert(line[i + 1] == b);
        }
        assert(stream.skip(1) =~= input_line(line.skip(1)) + rest);
        lemma_first_line_of_line(line.skip(1), rest);
        assert(seq![line[0]] + line.skip(1) =~= line);
    }
}

/// A submission that stays within the CPU and the wall-clock limit, is
/// never idle for too long, exits cleanly, and satisfies the checker is
/// accepted, with a run time within the CPU limit.
pub proof fn lemma_clean_run_is_accepted(sandbox: Sandbox, state: Monitor, polls: Seq<Poll>)
    requires
        state.prev_cpu.nanos <= sandbox.cpu_usage_limit.nanos,
        clean_run(sandbox, state, polls),
    ensures
        sandbox.run(state, polls) matches Step::Done(outcome) && final_verdict(outcome, true)
            == Verdict::Accepted && outcome.cpu_time.nanos <= sandbox.cpu_usage_limit.nanos,
{
    lemma_clean_run_has_no_verdict(sandbox, state, polls);
}

/// A submission is accepted only where the monitor found nothing wrong and
/// the checker was satisfied.
pub proof fn lemma_accepted_needs_checker(
    sandbox: Sandbox,
    state: Monitor,
    polls: Seq<Poll>,
    checker_succeeded: bool,
)
    requires
        sandbox.run(state, polls) matches Step::Done(outcome) && final_verdict(
            outcome,
            checker_succeeded,
        ) == Verdict::Accepted,
    ensures
        checker_succeeded,
        sandbox.run(state, polls) matches Step::Done(outcome) && outcome.verdict is None,
{
    lemma_monitor_verdicts(sandbox, state, polls);
}

} // verus!
