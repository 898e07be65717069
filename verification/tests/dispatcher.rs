use std::{collections::VecDeque, io};

use disyn::dispatch::{
    decide, run_with, CommandInvocation, DispatchStage, Next, Notice, ProcessOutcome,
    ProcessRunner, Program, RunRecord, RunReport, SpawnError, SpawnFailure,
};

#[derive(Default)]
struct FakeRunner {
    calls: Vec<(String, Vec<String>)>,
    records: Vec<RunRecord>,
    results: VecDeque<io::Result<ProcessOutcome>>,
}

impl FakeRunner {
    fn with_results(results: impl IntoIterator<Item = io::Result<ProcessOutcome>>) -> Self {
        Self {
            calls: Vec::new(),
            records: Vec::new(),
            results: results.into_iter().collect(),
        }
    }
}

impl ProcessRunner for FakeRunner {
    fn history(&self) -> Vec<RunRecord> {
        self.records
            .iter()
            .map(|r| RunRecord {
                invocation: CommandInvocation::new(r.invocation.program(), r.invocation.args().to_vec()),
                report: r.report,
            })
            .collect()
    }

    fn run(&mut self, invocation: &CommandInvocation) -> Result<ProcessOutcome, SpawnError> {
        self.calls.push((
            invocation.program().to_owned(),
            invocation.args().iter().map(|arg| arg.to_owned()).collect(),
        ));

        let result = self
            .results
            .pop_front()
            .unwrap_or_else(|| panic!("unexpected invocation: {:?}", invocation.program()))
            .map_err(|e| SpawnError::from_io_error(&e));
        self.records.push(RunRecord {
            invocation: CommandInvocation::new(invocation.program(), invocation.args().to_vec()),
            report: RunReport::of(&result),
        });
        result
    }
}

fn args(items: &[&str]) -> Vec<String> {
    items.iter().map(|s| s.to_string()).collect()
}

#[test]
fn forwards_arguments_to_taskit_and_preserves_exit_code() {
    let mut runner = FakeRunner::with_results([Ok(ProcessOutcome::failure(7))]);

    let code = run_with(args(&["ci", "--fail-fast"]), &mut runner);

    assert_eq!(code, 7);
    assert_eq!(
        runner.calls,
        vec![(
            "taskit".to_owned(),
            vec!["ci".to_owned(), "--fail-fast".to_owned()]
        )]
    );
}

#[test]
fn installs_taskit_and_retries_when_taskit_is_missing() {
    let mut runner = FakeRunner::with_results([
        Err(io::Error::from(io::ErrorKind::NotFound)),
        Ok(ProcessOutcome::success()),
        Ok(ProcessOutcome::failure(3)),
    ]);

    let code = run_with(args(&["fmt", "--check"]), &mut runner);

    assert_eq!(code, 3);
    assert_eq!(
        runner.calls,
        vec![
            (
                "taskit".to_owned(),
                vec!["fmt".to_owned(), "--check".to_owned()]
            ),
            (
                "cargo".to_owned(),
                vec!["install".to_owned(), "taskit".to_owned()]
            ),
            (
                "taskit".to_owned(),
                vec!["fmt".to_owned(), "--check".to_owned()]
            ),
        ]
    );
}

#[test]
fn returns_install_failure_code_without_retrying_taskit() {
    let mut runner = FakeRunner::with_results([
        Err(io::Error::from(io::ErrorKind::NotFound)),
        Ok(ProcessOutcome::failure(42)),
    ]);

    let code = run_with(args(&["test"]), &mut runner);

    assert_eq!(code, 42);
    assert_eq!(
        runner.calls,
        vec![
            ("taskit".to_owned(), vec!["test".to_owned()]),
            (
                "cargo".to_owned(),
                vec!["install".to_owned(), "taskit".to_owned()]
            ),
        ]
    );
}

#[test]
fn unrelated_taskit_spawn_errors_do_not_attempt_install() {
    let mut runner =
        FakeRunner::with_results([Err(io::Error::from(io::ErrorKind::PermissionDenied))]);

    let code = run_with(args(&["pre-push"]), &mut runner);

    assert_eq!(code, 1);
    assert_eq!(
        runner.calls,
        vec![("taskit".to_owned(), vec!["pre-push".to_owned()])]
    );
}

#[test]
fn signal_termination_maps_to_failure_exit_code() {
    let mut runner = FakeRunner::with_results([Ok(ProcessOutcome::terminated_by_signal())]);

    let code = run_with(args(&["ci"]), &mut runner);

    assert_eq!(code, 1);
}

#[test]
fn retry_that_cannot_start_exits_with_one() {
    let mut runner = FakeRunner::with_results([
        Err(io::Error::from(io::ErrorKind::NotFound)),
        Ok(ProcessOutcome::success()),
        Err(io::Error::from(io::ErrorKind::NotFound)),
    ]);
    assert_eq!(run_with(args(&["ci"]), &mut runner), 1);
    assert_eq!(runner.calls.len(), 3);
}

#[test]
fn install_that_cannot_start_exits_with_one() {
    let mut runner = FakeRunner::with_results([
        Err(io::Error::from(io::ErrorKind::NotFound)),
        Err(io::Error::from(io::ErrorKind::NotFound)),
    ]);
    assert_eq!(run_with(args(&[]), &mut runner), 1);
    assert_eq!(runner.calls.len(), 2);
}

#[test]
fn successful_first_run_exits_with_zero() {
    let mut runner = FakeRunner::with_results([Ok(ProcessOutcome::success())]);
    assert_eq!(run_with(args(&["build"]), &mut runner), 0);
}

#[test]
fn outcomes_report_their_codes() {
    assert_eq!(ProcessOutcome::success().exit_code(), 0);
    assert!(ProcessOutcome::success().success_status());
    assert_eq!(ProcessOutcome::failure(9).exit_code(), 9);
    assert!(!ProcessOutcome::failure(9).success_status());
    assert_eq!(ProcessOutcome::terminated_by_signal().exit_code(), 1);
    assert!(!ProcessOutcome::terminated_by_signal().success_status());
    assert_eq!(ProcessOutcome::from_status(Some(4), false), ProcessOutcome::failure(4));
}

#[test]
fn decisions_follow_the_protocol() {
    let missing = RunReport::CouldNotStart(SpawnFailure::NotFound);
    let other = RunReport::CouldNotStart(SpawnFailure::Other);
    assert_eq!(
        decide(DispatchStage::FirstRun, missing),
        (DispatchStage::Installing, Next::Run(Program::InstallTaskit), Notice::Installing)
    );
    assert_eq!(
        decide(DispatchStage::FirstRun, other),
        (DispatchStage::Finished, Next::Exit(1), Notice::TaskitFailed)
    );
    assert_eq!(
        decide(DispatchStage::Installing, RunReport::Exited(ProcessOutcome::success())),
        (DispatchStage::Retry, Next::Run(Program::Taskit), Notice::Silent)
    );
    assert_eq!(
        decide(DispatchStage::Installing, RunReport::Exited(ProcessOutcome::failure(5))),
        (DispatchStage::Finished, Next::Exit(5), Notice::InstallFailed)
    );
    assert_eq!(
        decide(DispatchStage::Retry, other),
        (DispatchStage::Finished, Next::Exit(1), Notice::RetryFailed)
    );
}

#[test]
fn the_history_records_each_run_and_its_report() {
    let mut runner = FakeRunner::with_results([
        Err(io::Error::from(io::ErrorKind::NotFound)),
        Ok(ProcessOutcome::failure(42)),
    ]);
    assert_eq!(run_with(args(&["test"]), &mut runner), 42);
    let history = runner.history();
    assert_eq!(history.len(), 2);
    assert_eq!(history[0].report, RunReport::CouldNotStart(SpawnFailure::NotFound));
    assert_eq!(history[1].invocation.program(), "cargo");
    assert_eq!(history[1].report, RunReport::Exited(ProcessOutcome::failure(42)));
}
