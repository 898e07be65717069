use disyn::error::Error;
use disyn::executor::{step_output, ExecAction, ShellExecutor, ShellRun, StepOutcome};
use disyn::json::Json;
use disyn::types::{ApprovedPlan, CostEstimate, PlannedStep, VerificationReport};

fn plan(n: usize) -> ApprovedPlan {
    ApprovedPlan {
        steps: (0..n)
            .map(|i| PlannedStep {
                idempotency_key: 7 + i as u128,
                action: format!("echo {i}"),
                parameters: Json::Null,
                estimated_cost: CostEstimate { class: None, input_tokens: 0, output_tokens: 0 },
            })
            .collect(),
        verification: VerificationReport { passed: true, violations: vec![] },
    }
}

fn run(success: bool, code: Option<i32>, ms: u64) -> ShellRun {
    ShellRun { success, exit_code: code, output: "{\"stdout\":\"\"}".into(), elapsed_ms: ms }
}

#[test]
fn report_sums_wall_time_and_keeps_keys() {
    let exec = ShellExecutor::default();
    let report = exec.report(&plan(3), &vec![run(true, Some(0), 5), run(false, Some(2), 7), run(false, None, 1)]);
    assert_eq!(report.total_cost.wall_time_ms, 13);
    assert_eq!(report.total_cost.total_tokens, 0);
    let keys: Vec<u128> = report.results.iter().map(|r| r.idempotency_key).collect();
    assert_eq!(keys, vec![7, 8, 9]);
    assert_eq!(report.results[0].error, None);
    assert_eq!(report.results[1].error.as_deref(), Some("exit code: 2"));
    assert_eq!(report.results[2].error.as_deref(), Some("exit code: -1"));
    assert_eq!(report.results[2].step_index, 2);
}

#[test]
fn timeouts_name_the_step_and_the_limit() {
    let exec = ShellExecutor::new(12);
    assert_eq!(exec.step_timeout_secs(), 12);
    match exec.timeout_error(4) {
        Error::Execution(m) => assert_eq!(m, "step 4 timed out after 12s"),
        _ => panic!("expected an execution error"),
    }
}

#[test]
fn default_timeout_is_thirty_seconds() {
    assert_eq!(ShellExecutor::default().step_timeout_secs(), 30);
}

#[test]
fn negative_exit_codes_keep_their_sign() {
    let exec = ShellExecutor::new(1);
    let p = plan(1);
    let r = exec.step_result(&p.steps[0], 0, &run(false, Some(i32::MIN), 0));
    assert_eq!(r.error.as_deref(), Some("exit code: -2147483648"));
}

fn finished(success: bool, code: Option<i32>, out: &[u8], ms: u64) -> StepOutcome {
    StepOutcome::Finished { success, exit_code: code, stdout: out.to_vec(), stderr: vec![], elapsed_ms: ms }
}

#[test]
fn step_output_is_the_json_object_of_the_run() {
    assert_eq!(step_output(b"hi\n", b"\xff", 12), "{\"stderr\":\"\u{fffd}\",\"stdout\":\"hi\\n\",\"wall_time_ms\":12}");
}

#[test]
fn steps_run_in_order_and_accumulate_wall_time() {
    let exec = ShellExecutor::new(30);
    let p = plan(2);
    let (mut progress, action) = exec.start(&p);
    assert!(matches!(action, ExecAction::Run(0)));
    let action = exec.advance(&p, &mut progress, finished(false, Some(3), b"", 4));
    assert!(matches!(action, ExecAction::Run(1)));
    let action = exec.advance(&p, &mut progress, finished(true, Some(0), b"hi\n", 6));
    assert!(matches!(action, ExecAction::Finished));
    let report = progress.into_report();
    assert_eq!(report.results.len(), 2);
    assert_eq!(report.results[0].error.as_deref(), Some("exit code: 3"));
    assert_eq!(report.results[1].step_index, 1);
    assert_eq!(report.results[1].idempotency_key, 8);
    assert!(report.results[1].success);
    assert!(report.results[1].output.contains("\"stdout\":\"hi\\n\""));
    assert_eq!(report.total_cost.wall_time_ms, 10);
}

#[test]
fn a_timed_out_step_stops_the_execution() {
    let exec = ShellExecutor::new(5);
    let p = plan(3);
    let (mut progress, _) = exec.start(&p);
    let _ = exec.advance(&p, &mut progress, finished(true, Some(0), b"", 1));
    match exec.advance(&p, &mut progress, StepOutcome::TimedOut) {
        ExecAction::Failed(Error::Execution(m)) => assert_eq!(m, "step 1 timed out after 5s"),
        _ => panic!("expected the timeout error"),
    }
    assert_eq!(progress.results.len(), 1);
    match exec.advance(&p, &mut progress, StepOutcome::SpawnFailed("no shell".into())) {
        ExecAction::Failed(Error::Execution(m)) => assert_eq!(m, "no shell"),
        _ => panic!("expected the spawn error"),
    }
}

#[test]
fn an_empty_plan_finishes_at_once() {
    let exec = ShellExecutor::new(5);
    let (progress, action) = exec.start(&plan(0));
    assert!(matches!(action, ExecAction::Finished));
    assert!(progress.into_report().results.is_empty());
}
