use disyn::budget::BudgetManager;
use disyn::types::{CostClass, CostEstimate, ResourceUsage};

#[test]
fn budget_starts_with_capacity() {
    let b = BudgetManager::new(1000, 1, 3, 500);
    assert!(b.can_afford(&CostEstimate {
        class: None,
        input_tokens: 500,
        output_tokens: 200,
    }));
}

#[test]
fn budget_rejects_when_exceeded() {
    let mut b = BudgetManager::new(100, 1, 3, 100);
    b.record(&ResourceUsage {
        total_tokens: 90,
        symbolic_tokens: 0,
        neural_tokens: 90,
        wall_time_ms: 100,
    });
    assert!(!b.can_afford(&CostEstimate {
        class: None,
        input_tokens: 50,
        output_tokens: 50,
    }));
}

#[test]
fn replan_attempts_decrement() {
    let mut b = BudgetManager::new(1000, 2, 3, 500);
    assert!(b.can_replan());
    b.record_replan();
    b.record_replan();
    assert!(!b.can_replan());
}

#[test]
fn repair_attempts_decrement() {
    let mut b = BudgetManager::new(1000, 1, 3, 500);
    assert!(b.can_repair());
    b.record_repair();
    b.record_repair();
    b.record_repair();
    assert!(!b.can_repair());
}

#[test]
fn neural_budget_rejects_when_class_exceeded() {
    let mut b = BudgetManager::new(10_000, 1, 3, 100);
    b.record(&ResourceUsage {
        total_tokens: 90,
        symbolic_tokens: 0,
        neural_tokens: 90,
        wall_time_ms: 10,
    });
    assert!(!b.can_afford_neural(&CostEstimate {
        class: Some(CostClass::Neural),
        input_tokens: 50,
        output_tokens: 50,
    }));
}

#[test]
fn affordability_includes_the_exact_limit() {
    let b = BudgetManager::new(100, 0, 0, 100);
    let exact = CostEstimate { class: None, input_tokens: 60, output_tokens: 40 };
    let over = CostEstimate { class: None, input_tokens: 60, output_tokens: 41 };
    assert!(b.can_afford(&exact));
    assert!(!b.can_afford(&over));
    assert!(b.can_afford_neural(&exact));
    assert!(!b.can_afford_neural(&over));
}

#[test]
fn neural_affordable_estimates_are_affordable() {
    let mut b = BudgetManager::new(1000, 1, 1, 200);
    b.record(&ResourceUsage { total_tokens: 100, symbolic_tokens: 50, neural_tokens: 50, wall_time_ms: 0 });
    let e = CostEstimate { class: Some(CostClass::Neural), input_tokens: 100, output_tokens: 50 };
    assert!(b.can_afford_neural(&e));
    assert!(b.can_afford(&e));
    let bigger = CostEstimate { class: Some(CostClass::Neural), input_tokens: 100, output_tokens: 51 };
    assert!(!b.can_afford_neural(&bigger));
    assert!(b.can_afford(&bigger));
}

#[test]
fn recording_usage_only_narrows_the_budget() {
    let mut b = BudgetManager::new(100, 1, 1, 100);
    let e = CostEstimate { class: None, input_tokens: 30, output_tokens: 0 };
    assert!(b.can_afford(&e));
    b.record(&ResourceUsage { total_tokens: 80, symbolic_tokens: 80, neural_tokens: 0, wall_time_ms: 0 });
    assert!(!b.can_afford(&e));
    assert!(b.can_afford_neural(&CostEstimate { class: None, input_tokens: 20, output_tokens: 0 }));
}

#[test]
fn zero_repair_allowance_refuses_at_once() {
    let b = BudgetManager::new(1000, 0, 0, 500);
    assert!(!b.can_repair());
    assert!(!b.can_replan());
}
