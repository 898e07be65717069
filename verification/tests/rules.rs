use disyn::json::{Json, JsonMembers};
use disyn::repair::PatternRepairEngine;
use disyn::rule_set::{LayerRule, NonEmptyActionRule, RuleSetVerifier};
use disyn::types::{
    CostClass, CostEstimate, PlanDraft, PlannedStep, Severity, VerificationLayer,
    VerificationReport, Violation,
};

fn empty_object() -> Json {
    Json::Object(JsonMembers::End)
}

fn step(key: u128, action: &str) -> PlannedStep {
    PlannedStep {
        idempotency_key: key,
        action: action.into(),
        parameters: empty_object(),
        estimated_cost: CostEstimate {
            class: Some(CostClass::Symbolic),
            input_tokens: 0,
            output_tokens: 0,
        },
    }
}

#[test]
fn removes_blocking_steps() {
    let engine = PatternRepairEngine;
    let draft = PlanDraft {
        steps: vec![
            PlannedStep {
                idempotency_key: 0,
                action: "".into(),
                parameters: empty_object(),
                estimated_cost: CostEstimate {
                    class: Some(CostClass::Symbolic),
                    input_tokens: 0,
                    output_tokens: 0,
                },
            },
            PlannedStep {
                idempotency_key: 0,
                action: "echo hello".into(),
                parameters: empty_object(),
                estimated_cost: CostEstimate {
                    class: Some(CostClass::Symbolic),
                    input_tokens: 10,
                    output_tokens: 5,
                },
            },
        ],
        rationale: "test".into(),
    };
    let report = VerificationReport {
        passed: false,
        violations: vec![Violation {
            rule_id: "non-empty-action".into(),
            layer: VerificationLayer::L0Format,
            severity: Severity::Blocking,
            message: "empty".into(),
            step_index: 0,
        }],
    };
    let fixed = engine.repair(&draft, &report).unwrap();
    assert_eq!(fixed.steps.len(), 1);
    assert_eq!(fixed.steps[0].action, "echo hello");
}

#[test]
fn empty_plan_passes() {
    let v = RuleSetVerifier::default();
    let draft = PlanDraft {
        steps: vec![],
        rationale: "no-op".into(),
    };
    let report = v.verify(&draft);
    assert!(report.passed);
}

#[test]
fn step_with_empty_action_fails() {
    let v = RuleSetVerifier::default();
    let draft = PlanDraft {
        steps: vec![PlannedStep {
            idempotency_key: 0,
            action: "".into(),
            parameters: empty_object(),
            estimated_cost: CostEstimate {
                class: Some(CostClass::Symbolic),
                input_tokens: 0,
                output_tokens: 0,
            },
        }],
        rationale: "test".into(),
    };
    let report = v.verify(&draft);
    assert!(!report.passed);
    assert_eq!(report.violations.len(), 1);
}

#[test]
fn repair_with_no_violations_does_nothing() {
    let engine = PatternRepairEngine;
    let draft = PlanDraft { steps: vec![step(1, "ls")], rationale: "r".into() };
    let report = VerificationReport { passed: true, violations: vec![] };
    assert!(engine.repair(&draft, &report).is_none());
}

#[test]
fn repair_keeps_keys_and_notes_the_count() {
    let engine = PatternRepairEngine;
    let draft = PlanDraft {
        steps: vec![step(11, "a"), step(22, ""), step(33, "c"), step(44, "")],
        rationale: "plan".into(),
    };
    let warning = Violation {
        rule_id: "w".into(),
        layer: VerificationLayer::L6Resource,
        severity: Severity::Warning,
        message: "slow".into(),
        step_index: 0,
    };
    let block = |i: usize| Violation {
        rule_id: "b".into(),
        layer: VerificationLayer::L0Format,
        severity: Severity::Blocking,
        message: "bad".into(),
        step_index: i,
    };
    let report = VerificationReport { passed: false, violations: vec![warning, block(1), block(3), block(3)] };
    let fixed = engine.repair(&draft, &report).unwrap();
    let keys: Vec<u128> = fixed.steps.iter().map(|s| s.idempotency_key).collect();
    assert_eq!(keys, vec![11, 33]);
    assert_eq!(fixed.rationale, "plan (repaired: removed 3 blocking steps)");
}

#[test]
fn warnings_alone_remove_nothing() {
    let engine = PatternRepairEngine;
    let draft = PlanDraft { steps: vec![step(5, "a")], rationale: "x".into() };
    let report = VerificationReport {
        passed: true,
        violations: vec![Violation {
            rule_id: "w".into(),
            layer: VerificationLayer::L1DataSource,
            severity: Severity::Info,
            message: "note".into(),
            step_index: 0,
        }],
    };
    let fixed = engine.repair(&draft, &report).unwrap();
    assert_eq!(fixed.steps.len(), 1);
    assert_eq!(fixed.rationale, "x (repaired: removed 0 blocking steps)");
}

#[test]
fn default_verifier_reports_each_empty_action() {
    let v = RuleSetVerifier::new();
    let draft = PlanDraft { steps: vec![step(1, "a"), step(2, ""), step(3, ""), step(4, "d")], rationale: "r".into() };
    let report = v.verify(&draft);
    assert!(!report.passed);
    let indices: Vec<usize> = report.violations.iter().map(|v| v.step_index).collect();
    assert_eq!(indices, vec![1, 2]);
    for v in &report.violations {
        assert_eq!(v.rule_id, "non-empty-action");
        assert_eq!(v.message, "step action must not be empty");
        assert_eq!(v.layer, VerificationLayer::L0Format);
        assert_eq!(v.severity, Severity::Blocking);
    }
}

#[test]
fn verifying_the_repaired_draft_passes() {
    let v = RuleSetVerifier::new();
    let engine = PatternRepairEngine;
    let draft = PlanDraft { steps: vec![step(1, ""), step(2, "ok"), step(3, "")], rationale: "r".into() };
    let report = v.verify(&draft);
    let fixed = engine.repair(&draft, &report).unwrap();
    let again = v.verify(&fixed);
    assert!(again.passed);
    assert!(again.violations.is_empty());
}

#[test]
fn registered_rules_join_their_layer() {
    let mut v = RuleSetVerifier::new();
    v.register(NonEmptyActionRule);
    let blocked = PlanDraft { steps: vec![step(1, ""), step(2, "b")], rationale: "r".into() };
    let report = v.verify(&blocked);
    assert!(!report.passed);
    let indices: Vec<usize> = report.violations.iter().map(|v| v.step_index).collect();
    assert_eq!(indices, vec![0, 0]);
    let clean = PlanDraft { steps: vec![step(1, "a"), step(2, "b")], rationale: "r".into() };
    let report = v.verify(&clean);
    assert!(report.passed);
    assert!(report.violations.is_empty());
}

#[test]
fn non_empty_action_rule_reports_its_identity() {
    let rule = NonEmptyActionRule;
    assert_eq!(rule.rule_id(), "non-empty-action");
    assert_eq!(rule.layer(), VerificationLayer::L0Format);
}
