//! Token and retry budgets: an aggregate token pool, a separate pool for neural calls, and
//! counters for repair attempts and neural replans.
use vstd::prelude::*;

use crate::types::{CostEstimate, ResourceUsage};

verus! {

/// The limits of a budget and what has been used of each.
pub struct BudgetState {
    pub max_tokens: u64,
    pub max_neural_replans: u32,
    pub max_repair_attempts: u32,
    pub max_neural_tokens: u64,
    pub used_tokens: u64,
    pub neural_replans: u32,
    pub repair_attempts: u32,
    pub used_neural_tokens: u64,
    pub used_symbolic_tokens: u64,
}

/// The tokens an estimate asks for: its input and output tokens together.
pub open spec fn needed(estimate: CostEstimate) -> nat {
    (estimate.input_tokens + estimate.output_tokens) as nat
}

impl BudgetState {
    /// The aggregate pool can take `estimate`.
    pub open spec fn affords(self, estimate: CostEstimate) -> bool {
        self.used_tokens + needed(estimate) <= self.max_tokens
    }

    /// Both the neural pool and the aggregate pool can take `estimate`.
    pub open spec fn affords_neural(self, estimate: CostEstimate) -> bool {
        self.used_neural_tokens + needed(estimate) <= self.max_neural_tokens
            && self.used_tokens + needed(estimate) <= self.max_tokens
    }

    /// Checking `estimate` against the pools cannot overflow the counters.
    pub open spec fn can_check(self, estimate: CostEstimate) -> bool {
        &&& self.used_tokens + needed(estimate) <= u64::MAX
        &&& self.used_neural_tokens + needed(estimate) <= u64::MAX
    }

    /// Recording `usage` cannot overflow the counters.
    pub open spec fn can_record(self, usage: ResourceUsage) -> bool {
        &&& self.used_tokens + usage.total_tokens <= u64::MAX
        &&& self.used_neural_tokens + usage.neural_tokens <= u64::MAX
        &&& self.used_symbolic_tokens + usage.symbolic_tokens <= u64::MAX
    }

    /// The budget after `usage` has been recorded.
    pub open spec fn after_record(self, usage: ResourceUsage) -> BudgetState {
        BudgetState {
            used_tokens: (self.used_tokens + usage.total_tokens) as u64,
            used_neural_tokens: (self.used_neural_tokens + usage.neural_tokens) as u64,
            used_symbolic_tokens: (self.used_symbolic_tokens + usage.symbolic_tokens) as u64,
            ..self
        }
    }

    /// Another repair attempt is allowed.
    pub open spec fn repair_allowed(self) -> bool {
        self.repair_attempts < self.max_repair_attempts
    }

    /// Another neural replan is allowed.
    pub open spec fn replan_allowed(self) -> bool {
        self.neural_replans < self.max_neural_replans
    }

    /// The budget after one more repair attempt.
    pub open spec fn after_repair(self) -> BudgetState {
        BudgetState { repair_attempts: (self.repair_attempts + 1) as u32, ..self }
    }

    /// The budget after one more neural replan.
    pub open spec fn after_replan(self) -> BudgetState {
        BudgetState { neural_replans: (self.neural_replans + 1) as u32, ..self }
    }

    /// No counter has gone past its limit.
    pub open spec fn within_limits(self) -> bool {
        &&& self.repair_attempts <= self.max_repair_attempts
        &&& self.neural_replans <= self.max_neural_replans
    }
}

/// Enforces the token and retry budgets of a run.
pub struct BudgetManager {
    max_tokens: u64,
    max_neural_replans: u32,
    max_repair_attempts: u32,
    used_tokens: u64,
    neural_replans: u32,
    repair_attempts: u32,
    max_neural_tokens: u64,
    used_neural_tokens: u64,
    used_symbolic_tokens: u64,
}

impl View for BudgetManager {
    type V = BudgetState;

    closed spec fn view(&self) -> BudgetState {
        BudgetState {
            max_tokens: self.max_tokens,
            max_neural_replans: self.max_neural_replans,
            max_repair_attempts: self.max_repair_attempts,
            max_neural_tokens: self.max_neural_tokens,
            used_tokens: self.used_tokens,
            neural_replans: self.neural_replans,
            repair_attempts: self.repair_attempts,
            used_neural_tokens: self.used_neural_tokens,
            used_symbolic_tokens: self.used_symbolic_tokens,
        }
    }
}

impl BudgetManager {
    /// A budget with nothing used yet.
    pub fn new(
        max_tokens: u64,
        max_neural_replans: u32,
        max_repair_attempts: u32,
        max_neural_tokens: u64,
    ) -> (res: BudgetManager)
        ensures
            res@ == (BudgetState {
                max_tokens,
                max_neural_replans,
                max_repair_attempts,
                max_neural_tokens,
                used_tokens: 0,
                neural_replans: 0,
                repair_attempts: 0,
                used_neural_tokens: 0,
                used_symbolic_tokens: 0,
            }),
    {
        BudgetManager {
            max_tokens,
            max_neural_replans,
            max_repair_attempts,
            used_tokens: 0,
            neural_replans: 0,
            repair_attempts: 0,
            max_neural_tokens,
            used_neural_tokens: 0,
            used_symbolic_tokens: 0,
        }
    }

    /// Whether the aggregate pool can take `estimate`.
    pub fn can_afford(&self, estimate: &CostEstimate) -> (res: bool)
        requires
            self@.can_check(*estimate),
        ensures
            res == self@.affords(*estimate),
    {
        let needed: u64 = estimate.input_tokens as u64 + estimate.output_tokens as u64;
        self.used_tokens + needed <= self.max_tokens
    }

    /// Whether both the neural pool and the aggregate pool can take `estimate`.
    pub fn can_afford_neural(&self, estimate: &CostEstimate) -> (res: bool)
        requires
            self@.can_check(*estimate),
        ensures
            res == self@.affords_neural(*estimate),
    {
        let needed: u64 = estimate.input_tokens as u64 + estimate.output_tokens as u64;
        self.used_neural_tokens + needed <= self.max_neural_tokens && self.used_tokens + needed
            <= self.max_tokens
    }

    /// Adds `usage` to what has been used.
    pub fn record(&mut self, usage: &ResourceUsage)
        requires
            old(self)@.can_record(*usage),
        ensures
            final(self)@ == old(self)@.after_record(*usage),
    {
        self.used_tokens = self.used_tokens + usage.total_tokens;
        self.used_neural_tokens = self.used_neural_tokens + usage.neural_tokens;
        self.used_symbolic_tokens = self.used_symbolic_tokens + usage.symbolic_tokens;
    }

    /// Whether another repair attempt is allowed.
    pub fn can_repair(&self) -> (res: bool)
        ensures
            res == self@.repair_allowed(),
    {
        self.repair_attempts < self.max_repair_attempts
    }

    /// Counts one repair attempt.
    pub fn record_repair(&mut self)
        requires
            old(self)@.repair_attempts < u32::MAX,
        ensures
            final(self)@ == old(self)@.after_repair(),
    {
        self.repair_attempts = self.repair_attempts + 1;
    }

    /// Whether another neural replan is allowed.
    pub fn can_replan(&self) -> (res: bool)
        ensures
            res == self@.replan_allowed(),
    {
        self.neural_replans < self.max_neural_replans
    }

    /// Whether `usage` can be recorded without overflowing a counter.
    pub fn can_record_checked(&self, usage: &ResourceUsage) -> (res: bool)
        ensures
            res == self@.can_record(*usage),
    {
        usage.total_tokens <= u64::MAX - self.used_tokens && usage.neural_tokens <= u64::MAX
            - self.used_neural_tokens && usage.symbolic_tokens <= u64::MAX
            - self.used_symbolic_tokens
    }

    /// Counts one neural replan.
    pub fn record_replan(&mut self)
        requires
            old(self)@.neural_replans < u32::MAX,
        ensures
            final(self)@ == old(self)@.after_replan(),
    {
        self.neural_replans = self.neural_replans + 1;
    }
}

/// Whatever the neural pool can take, the aggregate pool can take too.
pub proof fn lemma_neural_affordable_is_affordable(budget: BudgetState, estimate: CostEstimate)
    requires
        budget.affords_neural(estimate),
    ensures
        budget.affords(estimate),
{
}

/// Recording usage never makes an estimate affordable that was not affordable before.
pub proof fn lemma_recording_only_narrows(
    budget: BudgetState,
    usage: ResourceUsage,
    estimate: CostEstimate,
)
    requires
        budget.can_record(usage),
    ensures
        budget.after_record(usage).affords(estimate) ==> budget.affords(estimate),
        budget.after_record(usage).affords_neural(estimate) ==> budget.affords_neural(estimate),
{
}

/// A smaller estimate is affordable whenever a larger one is.
pub proof fn lemma_affordability_is_monotone(
    budget: BudgetState,
    smaller: CostEstimate,
    larger: CostEstimate,
)
    requires
        needed(smaller) <= needed(larger),
        budget.affords(larger),
    ensures
        budget.affords(smaller),
{
}

/// The budget after `count` repair attempts have been counted.
pub open spec fn after_repairs(budget: BudgetState, count: nat) -> BudgetState
    decreases count,
{
    if count == 0 {
        budget
    } else {
        after_repairs(budget, (count - 1) as nat).after_repair()
    }
}

/// The budget after `count` neural replans have been counted.
pub open spec fn after_replans(budget: BudgetState, count: nat) -> BudgetState
    decreases count,
{
    if count == 0 {
        budget
    } else {
        after_replans(budget, (count - 1) as nat).after_replan()
    }
}

/// A budget that starts with no repairs allows exactly `max_repair_attempts` of them: after
/// `count` attempts another is allowed iff `count` is below the limit.
pub proof fn lemma_repair_allowance(budget: BudgetState, count: nat)
    requires
        budget.repair_attempts == 0,
        count <= u32::MAX,
    ensures
        after_repairs(budget, count).repair_attempts == count,
        after_repairs(budget, count).max_repair_attempts == budget.max_repair_attempts,
        after_repairs(budget, count).repair_allowed() <==> count < budget.max_repair_attempts,
    decreases count,
{
    if count > 0 {
        lemma_repair_allowance(budget, (count - 1) as nat);
    }
}

/// A budget that starts with no replans allows exactly `max_neural_replans` of them.
pub proof fn lemma_replan_allowance(budget: BudgetState, count: nat)
    requires
        budget.neural_replans == 0,
        count <= u32::MAX,
    ensures
        after_replans(budget, count).neural_replans == count,
        after_replans(budget, count).max_neural_replans == budget.max_neural_replans,
        after_replans(budget, count).replan_allowed() <==> count < budget.max_neural_replans,
    decreases count,
{
    if count > 0 {
        lemma_replan_allowance(budget, (count - 1) as nat);
    }
}

} // verus!
