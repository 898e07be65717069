//! The task dispatcher: forward a command line to `taskit`, installing it with
//! `cargo install taskit` first when it cannot be found.
use vstd::prelude::*;

use std::io::Write;

use crate::text::{owned, texts};

verus! {

/// The program the dispatcher forwards to.
pub const TASKIT_BIN: &'static str = "taskit";

/// The program that installs it.
pub const CARGO_BIN: &'static str = "cargo";

/// How a process ended: its exit code, when it has one, and whether it succeeded.
#[derive(Clone, Copy, Debug, PartialEq, Eq, Structural)]
pub struct ProcessOutcome {
    code: Option<i32>,
    success: bool,
}

/// What a process outcome records.
pub struct OutcomeView {
    pub code: Option<i32>,
    pub success: bool,
}

impl View for ProcessOutcome {
    type V = OutcomeView;

    closed spec fn view(&self) -> OutcomeView {
        OutcomeView { code: self.code, success: self.success }
    }
}

/// The exit code the dispatcher passes on for an outcome: its own code, or 1 when it has none.
pub open spec fn exit_code_of(outcome: OutcomeView) -> i32 {
    match outcome.code {
        Some(code) => code,
        None => 1,
    }
}

impl ProcessOutcome {
    /// A successful run: exit code 0.
    pub fn success() -> (res: ProcessOutcome)
        ensures
            res@ == (OutcomeView { code: Some(0), success: true }),
    {
        ProcessOutcome { code: Some(0), success: true }
    }

    /// A failed run with exit code `code`.
    pub fn failure(code: i32) -> (res: ProcessOutcome)
        ensures
            res@ == (OutcomeView { code: Some(code), success: false }),
    {
        ProcessOutcome { code: Some(code), success: false }
    }

    /// A run ended by a signal, or with no known status: no code, not successful.
    pub fn terminated_by_signal() -> (res: ProcessOutcome)
        ensures
            res@ == (OutcomeView { code: None, success: false }),
    {
        ProcessOutcome { code: None, success: false }
    }

    /// The outcome of a finished process, from its exit code (if any) and success flag.
    pub fn from_status(code: Option<i32>, success: bool) -> (res: ProcessOutcome)
        ensures
            res@ == (OutcomeView { code, success }),
    {
        ProcessOutcome { code, success }
    }

    /// Whether the process succeeded.
    pub fn success_status(self) -> (res: bool)
        ensures
            res == self@.success,
    {
        self.success
    }

    /// The exit code to pass on: the process's own, or 1 when it has none.
    pub fn exit_code(self) -> (res: i32)
        ensures
            res == exit_code_of(self@),
    {
        match self.code {
            Some(code) => code,
            None => 1,
        }
    }
}

/// A program to run and its arguments.
pub struct CommandInvocation {
    program: String,
    args: Vec<String>,
}

impl CommandInvocation {
    /// The program's name.
    pub closed spec fn spec_program(&self) -> Seq<char> {
        self.program@
    }

    /// The arguments, in order.
    pub closed spec fn spec_args(&self) -> Seq<Seq<char>> {
        texts(self.args@)
    }

    /// An invocation of `program` with `args`.
    pub fn new(program: &str, args: Vec<String>) -> (res: CommandInvocation)
        ensures
            res.spec_program() == program@,
            res.spec_args() == texts(args@),
    {
        CommandInvocation { program: owned(program), args }
    }

    /// The program's name.
    pub fn program(&self) -> (res: &str)
        ensures
            res@ == self.spec_program(),
    {
        self.program.as_str()
    }

    /// The arguments, in order.
    pub fn args(&self) -> (res: &[String])
        ensures
            texts(res@) == self.spec_args(),
    {
        self.args.as_slice()
    }
}

#[verifier::external_type_specification]
#[verifier::external_body]
pub struct ExIoError(std::io::Error);

/// Why a process could not be started: the program was not found, or something else.
#[derive(Clone, Copy, Debug, PartialEq, Eq, Structural)]
pub enum SpawnFailure {
    NotFound,
    Other,
}

/// What a process run came to.
#[derive(Clone, Copy, Debug, PartialEq, Eq, Structural)]
pub enum RunReport {
    Exited(ProcessOutcome),
    CouldNotStart(SpawnFailure),
}

/// Tells apart the kinds of `std::io::Error` that the dispatcher treats differently:
/// `ErrorKind::NotFound` and every other kind. Nothing is stated of which kind an error has.
#[verifier::external_body]
fn spawn_failure_of(error: &std::io::Error) -> (res: SpawnFailure) {
    if error.kind() == std::io::ErrorKind::NotFound {
        SpawnFailure::NotFound
    } else {
        SpawnFailure::Other
    }
}

/// Calls `<std::io::Error as ToString>::to_string`; nothing is stated of the text.
#[verifier::external_body]
fn error_text(error: &std::io::Error) -> (res: String) {
    error.to_string()
}

/// Why a process could not be started, as the dispatcher sees it: the kind of failure and
/// the error's text.
pub struct SpawnError {
    pub kind: SpawnFailure,
    pub message: String,
}

impl SpawnError {
    /// The spawn error for a `std::io::Error`: not found or another kind, and its text.
    pub fn from_io_error(error: &std::io::Error) -> (res: SpawnError) {
        SpawnError { kind: spawn_failure_of(error), message: error_text(error) }
    }
}

/// How a run went, as the dispatcher decides on it.
pub open spec fn report_of(result: Result<ProcessOutcome, SpawnError>) -> RunReport {
    match result {
        Ok(outcome) => RunReport::Exited(outcome),
        Err(error) => RunReport::CouldNotStart(error.kind),
    }
}

impl RunReport {
    /// How a run went, as the dispatcher decides on it.
    pub fn of(result: &Result<ProcessOutcome, SpawnError>) -> (res: RunReport)
        ensures
            res == report_of(*result),
    {
        match result {
            Ok(outcome) => RunReport::Exited(*outcome),
            Err(error) => RunReport::CouldNotStart(error.kind),
        }
    }
}

/// One run a runner made: what it was asked to run, and how that went.
pub struct RunRecord {
    pub invocation: CommandInvocation,
    pub report: RunReport,
}

/// Runs invocations for the dispatcher, and keeps the record of the runs it made.
pub trait ProcessRunner {
    /// The runs made so far, oldest first.
    spec fn history(&self) -> Vec<RunRecord>;

    /// Runs `invocation` to completion and reports how it ended, or why it could not start;
    /// the run is added to the history with the report of what was returned.
    fn run(&mut self, invocation: &CommandInvocation) -> (res: Result<ProcessOutcome, SpawnError>)
        ensures
            final(self).history()@.len() == old(self).history()@.len() + 1,
            final(self).history()@.drop_last() == old(self).history()@,
            final(self).history()@.last().invocation.spec_program() == invocation.spec_program(),
            final(self).history()@.last().invocation.spec_args() == invocation.spec_args(),
            final(self).history()@.last().report == report_of(res),
    ;
}

/// Writes `line` and a newline to standard error with `writeln!`, ignoring a failed write.
#[verifier::external_body]
fn report_line(line: &str) {
    let _ = writeln!(std::io::stderr(), "{}", line);
}

/// Which program to run next.
#[derive(Clone, Copy, Debug, PartialEq, Eq, Structural)]
pub enum Program {
    /// `taskit` with the caller's arguments.
    Taskit,
    /// `cargo install taskit`.
    InstallTaskit,
}

/// Where the dispatcher stands.
#[derive(Clone, Copy, Debug, PartialEq, Eq, Structural)]
pub enum DispatchStage {
    /// `taskit` is being run for the first time.
    FirstRun,
    /// `taskit` was not found and is being installed.
    Installing,
    /// `taskit` is being run again after installing it.
    Retry,
    /// The dispatcher has its exit code.
    Finished,
}

/// What the dispatcher tells the user on standard error.
#[derive(Clone, Copy, Debug, PartialEq, Eq, Structural)]
pub enum Notice {
    Silent,
    /// `failed to run taskit: ` and the error.
    TaskitFailed,
    /// `taskit not found, installing via cargo install taskit...`
    Installing,
    /// `failed to install taskit`
    InstallFailed,
    /// `failed to run cargo install taskit: ` and the error.
    InstallCouldNotStart,
    /// `failed to run taskit after install: ` and the error.
    RetryFailed,
}

/// What the dispatcher does next: run a program, or exit with a code.
#[derive(Clone, Copy, Debug, PartialEq, Eq, Structural)]
pub enum Next {
    Run(Program),
    Exit(i32),
}

/// The dispatcher's decision in `stage` on how the last run ended: the next stage, what to
/// do, and what to tell the user.
pub open spec fn dispatch_next(stage: DispatchStage, report: RunReport) -> (DispatchStage, Next, Notice) {
    match (stage, report) {
        (DispatchStage::FirstRun, RunReport::Exited(outcome)) => (DispatchStage::Finished, Next::Exit(exit_code_of(outcome@)), Notice::Silent),
        (DispatchStage::FirstRun, RunReport::CouldNotStart(SpawnFailure::NotFound)) => (DispatchStage::Installing, Next::Run(Program::InstallTaskit), Notice::Installing),
        (DispatchStage::FirstRun, RunReport::CouldNotStart(SpawnFailure::Other)) => (DispatchStage::Finished, Next::Exit(1), Notice::TaskitFailed),
        (DispatchStage::Installing, RunReport::Exited(outcome)) => if outcome@.success {
            (DispatchStage::Retry, Next::Run(Program::Taskit), Notice::Silent)
        } else {
            (DispatchStage::Finished, Next::Exit(exit_code_of(outcome@)), Notice::InstallFailed)
        },
        (DispatchStage::Installing, RunReport::CouldNotStart(_)) => (DispatchStage::Finished, Next::Exit(1), Notice::InstallCouldNotStart),
        (DispatchStage::Retry, RunReport::Exited(outcome)) => (DispatchStage::Finished, Next::Exit(exit_code_of(outcome@)), Notice::Silent),
        (DispatchStage::Retry, RunReport::CouldNotStart(_)) => (DispatchStage::Finished, Next::Exit(1), Notice::RetryFailed),
        (DispatchStage::Finished, _) => (DispatchStage::Finished, Next::Exit(1), Notice::Silent),
    }
}

/// The dispatcher's decision in `stage` on how the last run ended.
pub fn decide(stage: DispatchStage, report: RunReport) -> (res: (DispatchStage, Next, Notice))
    ensures
        res == dispatch_next(stage, report),
{
    match (stage, report) {
        (DispatchStage::FirstRun, RunReport::Exited(outcome)) => (DispatchStage::Finished, Next::Exit(outcome.exit_code()), Notice::Silent),
        (DispatchStage::FirstRun, RunReport::CouldNotStart(SpawnFailure::NotFound)) => (DispatchStage::Installing, Next::Run(Program::InstallTaskit), Notice::Installing),
        (DispatchStage::FirstRun, RunReport::CouldNotStart(SpawnFailure::Other)) => (DispatchStage::Finished, Next::Exit(1), Notice::TaskitFailed),
        (DispatchStage::Installing, RunReport::Exited(outcome)) => if outcome.success_status() {
            (DispatchStage::Retry, Next::Run(Program::Taskit), Notice::Silent)
        } else {
            (DispatchStage::Finished, Next::Exit(outcome.exit_code()), Notice::InstallFailed)
        },
        (DispatchStage::Installing, RunReport::CouldNotStart(_)) => (DispatchStage::Finished, Next::Exit(1), Notice::InstallCouldNotStart),
        (DispatchStage::Retry, RunReport::Exited(outcome)) => (DispatchStage::Finished, Next::Exit(outcome.exit_code()), Notice::Silent),
        (DispatchStage::Retry, RunReport::CouldNotStart(_)) => (DispatchStage::Finished, Next::Exit(1), Notice::RetryFailed),
        (DispatchStage::Finished, _) => (DispatchStage::Finished, Next::Exit(1), Notice::Silent),
    }
}

/// Replays the dispatcher on the run reports `trace`, starting from the first run of
/// `taskit`: the stage reached and, once finished, the exit code.
pub open spec fn replay(trace: Seq<RunReport>) -> (DispatchStage, Option<i32>)
    decreases trace.len(),
{
    if trace.len() == 0 {
        (DispatchStage::FirstRun, None)
    } else {
        let (stage, code) = replay(trace.drop_last());
        if stage == DispatchStage::Finished {
            (stage, code)
        } else {
            let (next_stage, next, _) = dispatch_next(stage, trace.last());
            (next_stage, match next {
                Next::Exit(c) => Some(c),
                Next::Run(_) => None,
            })
        }
    }
}

/// The line written for `notice`, given the text of the error behind it; nothing when silent.
pub open spec fn notice_text(notice: Notice, error: Seq<char>) -> Option<Seq<char>> {
    match notice {
        Notice::Silent => None,
        Notice::TaskitFailed => Some("failed to run taskit: "@ + error),
        Notice::Installing => Some("taskit not found, installing via cargo install taskit..."@),
        Notice::InstallFailed => Some("failed to install taskit"@),
        Notice::InstallCouldNotStart => Some("failed to run cargo install taskit: "@ + error),
        Notice::RetryFailed => Some("failed to run taskit after install: "@ + error),
    }
}

/// The line written for `notice`, given the text of the error behind it.
fn notice_line(notice: Notice, error: &String) -> (res: Option<String>)
    ensures
        match notice_text(notice, error@) {
            Some(line) => res matches Some(s) && s@ == line,
            None => res is None,
        },
{
    match notice {
        Notice::Silent => None,
        Notice::TaskitFailed => {
            let mut s = owned("failed to run taskit: ");
            s.append(error.as_str());
            Some(s)
        },
        Notice::Installing => Some(owned("taskit not found, installing via cargo install taskit...")),
        Notice::InstallFailed => Some(owned("failed to install taskit")),
        Notice::InstallCouldNotStart => {
            let mut s = owned("failed to run cargo install taskit: ");
            s.append(error.as_str());
            Some(s)
        },
        Notice::RetryFailed => {
            let mut s = owned("failed to run taskit after install: ");
            s.append(error.as_str());
            Some(s)
        },
    }
}

/// The invocation for `program`: `taskit` with a copy of `args`, or `cargo install taskit`.
pub fn invocation_for(program: Program, args: &Vec<String>) -> (res: CommandInvocation)
    ensures
        program == Program::Taskit ==> res.spec_program() == TASKIT_BIN@ && res.spec_args() == texts(args@),
        program == Program::InstallTaskit ==> res.spec_program() == CARGO_BIN@ && res.spec_args() == seq!["install"@, "taskit"@],
{
    match program {
        Program::Taskit => {
            let mut copy: Vec<String> = Vec::new();
            let mut i: usize = 0;
            while i < args.len()
                invariant
                    i <= args.len(),
                    copy@ == args@.subrange(0, i as int),
                decreases args.len() - i,
            {
                copy.push(args[i].clone());
                i = i + 1;
                assert(copy@ =~= args@.subrange(0, i as int));
            }
            assert(args@.subrange(0, args@.len() as int) =~= args@);
            CommandInvocation::new(TASKIT_BIN, copy)
        },
        Program::InstallTaskit => {
            let mut install: Vec<String> = Vec::new();
            install.push(owned("install"));
            install.push(owned("taskit"));
            assert(texts(install@) =~= seq!["install"@, "taskit"@]);
            CommandInvocation::new(CARGO_BIN, install)
        },
    }
}

/// The program the dispatcher runs in `stage`: `cargo install taskit` while installing,
/// `taskit` otherwise.
pub open spec fn program_for(stage: DispatchStage) -> Program {
    match stage {
        DispatchStage::Installing => Program::InstallTaskit,
        _ => Program::Taskit,
    }
}

/// Whether `invocation` runs `program`: `taskit` with the arguments `args`, or
/// `cargo install taskit`.
pub open spec fn runs_program(invocation: CommandInvocation, program: Program, args: Seq<Seq<char>>) -> bool {
    match program {
        Program::Taskit => invocation.spec_program() == TASKIT_BIN@ && invocation.spec_args() == args,
        Program::InstallTaskit => invocation.spec_program() == CARGO_BIN@ && invocation.spec_args()
            == seq!["install"@, "taskit"@],
    }
}

/// The reports of a sequence of runs.
pub open spec fn reports_of(records: Seq<RunRecord>) -> Seq<RunReport> {
    records.map_values(|r: RunRecord| r.report)
}

/// The runs in `records` are those the dispatcher makes: each one is made while the reports
/// before it have not finished the dispatch, and runs the program of the stage they lead to.
pub open spec fn dispatched(records: Seq<RunRecord>, args: Seq<Seq<char>>) -> bool {
    forall|k: int|
        0 <= k < records.len() ==> {
            &&& replay(reports_of(records).take(k)).0 != DispatchStage::Finished
            &&& runs_program(
                #[trigger] records[k].invocation,
                program_for(replay(reports_of(records).take(k)).0),
                args,
            )
        }
}

/// Forwards `args` to `taskit` through `runner`, installing `taskit` and retrying once when it
/// is not found, and returns the exit code to end with. The runs it adds to the runner's
/// history are the dispatcher's (at most three), and the code is what the dispatcher decides
/// for the reports the runner returned.
pub fn run_with<R: ProcessRunner>(args: Vec<String>, runner: &mut R) -> (code: i32)
    ensures
        final(runner).history()@.take(old(runner).history()@.len() as int) == old(runner).history()@,
        final(runner).history()@.len() <= old(runner).history()@.len() + 3,
        dispatched(final(runner).history()@.skip(old(runner).history()@.len() as int), texts(args@)),
        replay(reports_of(final(runner).history()@.skip(old(runner).history()@.len() as int)))
            == (DispatchStage::Finished, Some(code)),
{
    let mut stage = DispatchStage::FirstRun;
    let mut program = Program::Taskit;
    let ghost base = old(runner).history()@;
    let ghost mut records: Seq<RunRecord> = Seq::empty();
    let mut runs: usize = 0;
    loop
        invariant
            stage != DispatchStage::Finished,
            runner.history()@ == base + records,
            base == old(runner).history()@,
            replay(reports_of(records)) == (stage, None::<i32>),
            records.len() == runs,
            program == program_for(stage),
            dispatched(records, texts(args@)),
            stage == DispatchStage::FirstRun ==> runs == 0,
            stage == DispatchStage::Installing ==> runs == 1,
            stage == DispatchStage::Retry ==> runs == 2,
        decreases 3 - runs,
    {
        let invocation = invocation_for(program, &args);
        let result = runner.run(&invocation);
        let report = RunReport::of(&result);
        let error = match result {
            Ok(_) => String::new(),
            Err(e) => e.message,
        };
        let (next_stage, next, notice) = decide(stage, report);
        proof {
            let record = runner.history()@.last();
            let next_records = records.push(record);
            assert(runner.history()@ =~= base + next_records) by {
                let h = runner.history()@;
                assert(h.drop_last() == base + records);
                assert(h =~= h.drop_last().push(h.last()));
                assert((base + records).push(record) =~= base + next_records);
            }
            assert(reports_of(next_records).drop_last() =~= reports_of(records));
            assert(reports_of(next_records).last() == report);
            assert forall|k: int| 0 <= k < next_records.len() implies {
                &&& replay(reports_of(next_records).take(k)).0 != DispatchStage::Finished
                &&& runs_program(
                    #[trigger] next_records[k].invocation,
                    program_for(replay(reports_of(next_records).take(k)).0),
                    texts(args@),
                )
            } by {
                if k < records.len() {
                    assert(reports_of(next_records).take(k) =~= reports_of(records).take(k));
                    assert(next_records[k] == records[k]);
                } else {
                    assert(reports_of(next_records).take(k) =~= reports_of(records));
                }
            }
            records = next_records;
        }
        runs = runs + 1;
        if let Some(line) = notice_line(notice, &error) {
            report_line(line.as_str());
        }
        match next {
            Next::Exit(code) => {
                proof {
                    assert(runner.history()@.take(base.len() as int) =~= base);
                    assert(runner.history()@.skip(base.len() as int) =~= records);
                }
                return code;
            },
            Next::Run(p) => {
                stage = next_stage;
                program = p;
            },
        }
    }
}

/// Where the dispatcher stands after `trace`: it has finished with a code, or it is in the
/// stage that matches the number of runs so far.
proof fn lemma_replay_stage(trace: Seq<RunReport>)
    ensures
        replay(trace).0 == DispatchStage::Finished <==> replay(trace).1 is Some,
        replay(trace).0 == DispatchStage::FirstRun ==> trace.len() == 0,
        replay(trace).0 == DispatchStage::Installing ==> trace.len() == 1,
        replay(trace).0 == DispatchStage::Retry ==> trace.len() == 2,
    decreases trace.len(),
{
    if trace.len() > 0 {
        lemma_replay_stage(trace.drop_last());
    }
}

/// The dispatcher runs `taskit` at most twice and installs it at most once: whatever the
/// runs report, it has finished with an exit code after three of them.
pub proof fn lemma_dispatch_finishes(trace: Seq<RunReport>)
    requires
        trace.len() >= 3,
    ensures
        replay(trace).0 == DispatchStage::Finished,
        replay(trace).1 is Some,
{
    lemma_replay_stage(trace);
}

/// A run that exits ends the dispatch with that run's exit code, unless it is the
/// installation, which ends it only when it fails. A run that cannot start ends it with 1,
/// except that a first run which cannot find `taskit` goes on to install it.
pub proof fn lemma_exit_codes_pass_through(stage: DispatchStage, outcome: ProcessOutcome)
    requires
        stage != DispatchStage::Finished,
    ensures
        stage != DispatchStage::Installing ==> dispatch_next(stage, RunReport::Exited(outcome)).1 == Next::Exit(exit_code_of(outcome@)),
        stage == DispatchStage::Installing && !outcome@.success ==> dispatch_next(stage, RunReport::Exited(outcome)).1 == Next::Exit(exit_code_of(outcome@)),
        stage == DispatchStage::Installing && outcome@.success ==> dispatch_next(stage, RunReport::Exited(outcome)).1 == Next::Run(Program::Taskit),
        dispatch_next(stage, RunReport::CouldNotStart(SpawnFailure::Other)).1 == Next::Exit(1),
        stage != DispatchStage::FirstRun ==> dispatch_next(stage, RunReport::CouldNotStart(SpawnFailure::NotFound)).1 == Next::Exit(1),
{
}

} // verus!
