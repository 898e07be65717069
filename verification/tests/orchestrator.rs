use disyn::budget::BudgetManager;
use disyn::error::Error;
use disyn::json::Json;
use disyn::orchestrator::{Command, Event, Orchestrator, Phase};
use disyn::repair::PatternRepairEngine;
use disyn::rule_set::RuleSetVerifier;
use disyn::telemetry::{SpanKind, SpanMetadata};
use disyn::types::{
    CostEstimate, ExecutionReport, PlanDraft, PlannedStep, ResourceUsage, Severity, StepResult,
    VerificationLayer, VerificationReport, Violation,
};

fn step(key: u128, action: &str) -> PlannedStep {
    PlannedStep {
        idempotency_key: key,
        action: action.into(),
        parameters: Json::Null,
        estimated_cost: CostEstimate { class: None, input_tokens: 0, output_tokens: 0 },
    }
}

fn draft(actions: &[&str]) -> PlanDraft {
    PlanDraft {
        steps: actions.iter().enumerate().map(|(i, a)| step(i as u128 + 100, a)).collect(),
        rationale: "r".into(),
    }
}

/// Drives the controller with the default verifier and repair engine; `proposals` answers
/// replans. Returns the outcome and the spans emitted.
fn drive(
    core: &mut Orchestrator,
    first: PlanDraft,
    mut proposals: Vec<PlanDraft>,
    repair: bool,
) -> (Result<ExecutionReport, Error>, Vec<(SpanKind, SpanMetadata)>, Vec<Vec<u128>>) {
    let verifier = RuleSetVerifier::new();
    let engine = PatternRepairEngine;
    let mut spans = Vec::new();
    let mut executed = Vec::new();
    let mut first = Some(first);
    let mut cmd = core.begin();
    loop {
        let event = match cmd {
            Command::Extract => Event::Extracted,
            Command::Retrieve => Event::Retrieved,
            Command::Propose => Event::Proposed(first.take().unwrap()),
            Command::Emit(kind, meta) => {
                spans.push((kind, meta));
                Event::Emitted
            }
            Command::Verify => Event::Verified(verifier.verify(core.draft())),
            Command::Repair => Event::Repaired(if repair {
                engine.repair(core.draft(), core.report())
            } else {
                None
            }),
            Command::Replan => Event::Proposed(proposals.remove(0)),
            Command::Execute(plan) => {
                executed.push(plan.steps.iter().map(|s| s.idempotency_key).collect());
                assert!(plan.verification.passed);
                Event::Executed(ExecutionReport {
                    results: plan
                        .steps
                        .iter()
                        .enumerate()
                        .map(|(i, s)| StepResult {
                            idempotency_key: s.idempotency_key,
                            step_index: i,
                            success: true,
                            output: "{}".into(),
                            error: None,
                        })
                        .collect(),
                    total_cost: ResourceUsage { total_tokens: 50, symbolic_tokens: 50, neural_tokens: 0, wall_time_ms: 1 },
                })
            }
            Command::Persist => Event::Persisted,
            Command::Finish(outcome) => return (outcome, spans, executed),
        };
        assert!(core.accepts(&event));
        assert!(core.fits(&event));
        cmd = core.step(event);
    }
}

#[test]
fn clean_draft_is_executed_and_charged() {
    let mut core = Orchestrator::new(BudgetManager::new(1000, 1, 3, 1000));
    let (outcome, spans, executed) = drive(&mut core, draft(&["echo a", "echo b"]), vec![], true);
    let report = outcome.ok().unwrap();
    assert_eq!(report.results.len(), 2);
    assert_eq!(executed, vec![vec![100, 101]]);
    let kinds: Vec<SpanKind> = spans.iter().map(|s| s.0).collect();
    assert_eq!(kinds, vec![SpanKind::ProposalGenerate, SpanKind::VerifierCheck, SpanKind::ExecutorDispatch]);
    assert_eq!(spans[0].1, SpanMetadata::StepCount(2));
    assert_eq!(spans[1].1, SpanMetadata::Check { violations: 0, passed: true });
    assert_eq!(core.phase(), Phase::Done);
    assert!(!core.budget().can_afford(&CostEstimate { class: None, input_tokens: 951, output_tokens: 0 }));
    assert!(core.budget().can_afford(&CostEstimate { class: None, input_tokens: 950, output_tokens: 0 }));
}

#[test]
fn blocked_steps_are_repaired_before_execution() {
    let mut core = Orchestrator::new(BudgetManager::new(1000, 1, 3, 1000));
    let (outcome, spans, executed) = drive(&mut core, draft(&["", "echo ok", ""]), vec![], true);
    assert!(outcome.is_ok());
    assert_eq!(executed, vec![vec![101]]);
    let kinds: Vec<SpanKind> = spans.iter().map(|s| s.0).collect();
    assert_eq!(
        kinds,
        vec![
            SpanKind::ProposalGenerate,
            SpanKind::VerifierCheck,
            SpanKind::RepairApply,
            SpanKind::VerifierCheck,
            SpanKind::ExecutorDispatch,
        ]
    );
    assert_eq!(spans[1].1, SpanMetadata::Check { violations: 2, passed: false });
    assert_eq!(spans[2].1, SpanMetadata::Repair { applied: true });
    assert!(core.budget().can_repair());
}

#[test]
fn failed_repair_replans_once_then_executes() {
    let mut core = Orchestrator::new(BudgetManager::new(1000, 1, 3, 1000));
    let (outcome, spans, executed) = drive(&mut core, draft(&[""]), vec![draft(&["echo fresh"])], false);
    assert!(outcome.is_ok());
    assert_eq!(executed, vec![vec![100]]);
    assert!(!core.budget().can_replan());
    let kinds: Vec<SpanKind> = spans.iter().map(|s| s.0).collect();
    assert_eq!(
        kinds,
        vec![
            SpanKind::ProposalGenerate,
            SpanKind::VerifierCheck,
            SpanKind::RepairApply,
            SpanKind::VerifierCheck,
            SpanKind::ExecutorDispatch,
        ]
    );
}

#[test]
fn rejection_after_replan_reports_the_violations() {
    let mut core = Orchestrator::new(BudgetManager::new(1000, 1, 3, 1000));
    let (outcome, _, executed) = drive(&mut core, draft(&[""]), vec![draft(&["", ""])], false);
    assert!(executed.is_empty());
    match outcome {
        Err(Error::Verification { violations, messages }) => {
            assert_eq!(violations, 2);
            assert_eq!(messages, vec!["step action must not be empty"; 2]);
        }
        _ => panic!("expected a verification error"),
    }
}

#[test]
fn no_replan_budget_rejects_at_once() {
    let mut core = Orchestrator::new(BudgetManager::new(1000, 0, 0, 1000));
    let (outcome, spans, _) = drive(&mut core, draft(&["", "x"]), vec![], true);
    assert!(matches!(outcome, Err(Error::Verification { violations: 1, .. })));
    let kinds: Vec<SpanKind> = spans.iter().map(|s| s.0).collect();
    assert_eq!(kinds, vec![SpanKind::ProposalGenerate, SpanKind::VerifierCheck]);
}

#[test]
fn repair_budget_is_shared_across_runs() {
    let mut core = Orchestrator::new(BudgetManager::new(10_000, 0, 1, 10_000));
    let (first, _, _) = drive(&mut core, draft(&["", "a"]), vec![], true);
    assert!(first.is_ok());
    assert!(!core.budget().can_repair());
    let (second, _, _) = drive(&mut core, draft(&["", "a"]), vec![], true);
    assert!(matches!(second, Err(Error::Verification { violations: 1, .. })));
}

#[test]
fn events_out_of_turn_are_not_accepted() {
    let mut core = Orchestrator::new(BudgetManager::new(100, 1, 1, 100));
    assert!(!core.accepts(&Event::Emitted));
    let _ = core.begin();
    assert!(core.accepts(&Event::Extracted));
    assert!(!core.accepts(&Event::Emitted));
    assert!(!core.accepts(&Event::Persisted));
}

fn blocking_report() -> VerificationReport {
    VerificationReport {
        passed: false,
        violations: vec![Violation {
            rule_id: "r".into(),
            layer: VerificationLayer::L0Format,
            severity: Severity::Blocking,
            message: "bad".into(),
            step_index: 0,
        }],
    }
}

#[test]
fn third_repair_is_verified_and_executed() {
    let mut core = Orchestrator::new(BudgetManager::new(1000, 1, 3, 1000));
    let mut verifications = 0;
    let mut executed = false;
    let mut checks = Vec::new();
    let mut cmd = core.begin();
    loop {
        let event = match cmd {
            Command::Extract => Event::Extracted,
            Command::Retrieve => Event::Retrieved,
            Command::Propose => Event::Proposed(draft(&["a"])),
            Command::Emit(_, meta) => {
                checks.push(meta);
                Event::Emitted
            }
            Command::Verify => {
                verifications += 1;
                Event::Verified(if verifications <= 3 {
                    blocking_report()
                } else {
                    VerificationReport { passed: true, violations: vec![] }
                })
            }
            Command::Repair => Event::Repaired(Some(draft(&["b"]))),
            Command::Replan => panic!("no replan expected"),
            Command::Execute(plan) => {
                executed = true;
                assert_eq!(plan.steps[0].action, "b");
                Event::Executed(ExecutionReport {
                    results: vec![],
                    total_cost: ResourceUsage { total_tokens: 0, symbolic_tokens: 0, neural_tokens: 0, wall_time_ms: 0 },
                })
            }
            Command::Persist => Event::Persisted,
            Command::Finish(outcome) => {
                assert!(outcome.is_ok());
                break;
            }
        };
        assert!(core.accepts(&event));
        assert!(core.fits(&event));
        cmd = core.step(event);
    }
    assert_eq!(verifications, 4);
    assert!(executed);
    assert!(!core.budget().can_repair());
    assert!(checks.contains(&SpanMetadata::Check { violations: 0, passed: true }));
}

#[test]
fn a_failed_port_call_ends_the_run() {
    let mut core = Orchestrator::new(BudgetManager::new(1000, 1, 3, 1000));
    assert!(matches!(core.begin(), Command::Extract));
    assert!(matches!(core.step(Event::Extracted), Command::Retrieve));
    let event = Event::Failed(Error::Memory("down".into()));
    assert!(core.accepts(&event));
    match core.step(event) {
        Command::Finish(Err(Error::Memory(m))) => assert_eq!(m, "down"),
        _ => panic!("expected the memory error"),
    }
    assert_eq!(core.phase(), Phase::Done);
    assert!(!core.accepts(&Event::Retrieved));
}
