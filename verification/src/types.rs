//! The values that flow through the pipeline, from a proposed plan to an execution report.
use vstd::prelude::*;

use crate::json::Json;

verus! {

/// The ten classes of constraint that a plan step is checked against, lowest first.
#[derive(Clone, Copy, Debug, PartialEq, Eq, Structural, PartialOrd, Ord, Hash)]
pub enum VerificationLayer {
    L0Format,
    L1DataSource,
    L2UserConstraints,
    L3ToolContract,
    L4Provenance,
    L5Temporal,
    L6Resource,
    L7Semantic,
    L8Mathematical,
    L9Location,
}

/// The number of verification layers.
pub const LAYER_COUNT: usize = 10;

impl VerificationLayer {
    /// The position of the layer in the taxonomy, 0 to 9.
    pub open spec fn spec_index(self) -> nat {
        match self {
            VerificationLayer::L0Format => 0,
            VerificationLayer::L1DataSource => 1,
            VerificationLayer::L2UserConstraints => 2,
            VerificationLayer::L3ToolContract => 3,
            VerificationLayer::L4Provenance => 4,
            VerificationLayer::L5Temporal => 5,
            VerificationLayer::L6Resource => 6,
            VerificationLayer::L7Semantic => 7,
            VerificationLayer::L8Mathematical => 8,
            VerificationLayer::L9Location => 9,
        }
    }

    pub fn index(&self) -> (n: usize)
        ensures
            n == self.spec_index(),
            n < LAYER_COUNT,
    {
        match self {
            VerificationLayer::L0Format => 0,
            VerificationLayer::L1DataSource => 1,
            VerificationLayer::L2UserConstraints => 2,
            VerificationLayer::L3ToolContract => 3,
            VerificationLayer::L4Provenance => 4,
            VerificationLayer::L5Temporal => 5,
            VerificationLayer::L6Resource => 6,
            VerificationLayer::L7Semantic => 7,
            VerificationLayer::L8Mathematical => 8,
            VerificationLayer::L9Location => 9,
        }
    }
}

/// Whether an operation is cheap and deterministic or an expensive model call.
#[derive(Clone, Copy, Debug, PartialEq, Eq, Structural)]
pub enum CostClass {
    Symbolic,
    Neural,
}

/// The tokens a step is expected to consume.
#[derive(Clone, Copy, Debug, PartialEq, Eq, Structural)]
pub struct CostEstimate {
    pub class: Option<CostClass>,
    pub input_tokens: u32,
    pub output_tokens: u32,
}

/// One proposed action. `idempotency_key` is the 128-bit value of the step's UUID.
pub struct PlannedStep {
    pub idempotency_key: u128,
    pub action: String,
    pub parameters: Json,
    pub estimated_cost: CostEstimate,
}

impl Clone for PlannedStep {
    fn clone(&self) -> (res: PlannedStep)
        ensures
            res == *self,
    {
        PlannedStep {
            idempotency_key: self.idempotency_key,
            action: self.action.clone(),
            parameters: self.parameters.deep_clone(),
            estimated_cost: self.estimated_cost,
        }
    }
}

/// A copy of `steps`, element for element.
pub fn clone_steps(steps: &Vec<PlannedStep>) -> (res: Vec<PlannedStep>)
    ensures
        res@ == steps@,
{
    let mut res: Vec<PlannedStep> = Vec::new();
    let mut i: usize = 0;
    while i < steps.len()
        invariant
            i <= steps.len(),
            res@ == steps@.subrange(0, i as int),
        decreases steps.len() - i,
    {
        res.push(steps[i].clone());
        i = i + 1;
        assert(res@ =~= steps@.subrange(0, i as int));
    }
    assert(steps@.subrange(0, steps@.len() as int) =~= steps@);
    res
}

/// A proposed plan: its steps in order and the reason given for it.
pub struct PlanDraft {
    pub steps: Vec<PlannedStep>,
    pub rationale: String,
}

impl Clone for PlanDraft {
    fn clone(&self) -> (res: PlanDraft)
        ensures
            res.steps@ == self.steps@,
            res.rationale == self.rationale,
    {
        PlanDraft { steps: clone_steps(&self.steps), rationale: self.rationale.clone() }
    }
}

/// How serious a violation is; only `Blocking` stops a plan.
#[derive(Clone, Copy, Debug, PartialEq, Eq, Structural)]
pub enum Severity {
    Blocking,
    Warning,
    Info,
}

/// A rule's finding about one step of a plan.
pub struct Violation {
    pub rule_id: String,
    pub layer: VerificationLayer,
    pub severity: Severity,
    pub message: String,
    pub step_index: usize,
}

impl Clone for Violation {
    fn clone(&self) -> (res: Violation)
        ensures
            res == *self,
    {
        Violation {
            rule_id: self.rule_id.clone(),
            layer: self.layer,
            severity: self.severity,
            message: self.message.clone(),
            step_index: self.step_index,
        }
    }
}

/// What a violation says, with its texts as character sequences.
pub struct ViolationView {
    pub rule_id: Seq<char>,
    pub layer: VerificationLayer,
    pub severity: Severity,
    pub message: Seq<char>,
    pub step_index: usize,
}

impl View for Violation {
    type V = ViolationView;

    open spec fn view(&self) -> ViolationView {
        ViolationView {
            rule_id: self.rule_id@,
            layer: self.layer,
            severity: self.severity,
            message: self.message@,
            step_index: self.step_index,
        }
    }
}

/// The views of a sequence of violations.
pub open spec fn views(violations: Seq<Violation>) -> Seq<ViolationView> {
    violations.map_values(|v: Violation| v@)
}

/// Whether any of `violations` is blocking.
pub open spec fn any_blocking(violations: Seq<ViolationView>) -> bool {
    exists|i: int| 0 <= i < violations.len() && #[trigger] violations[i].severity == Severity::Blocking
}

/// The messages of `violations`, in order.
pub open spec fn messages_of(violations: Seq<Violation>) -> Seq<String> {
    violations.map_values(|v: Violation| v.message)
}

/// Whether a plan passed, with every finding against it.
pub struct VerificationReport {
    pub passed: bool,
    pub violations: Vec<Violation>,
}

/// A copy of `violations`, element for element.
pub fn clone_violations(violations: &Vec<Violation>) -> (res: Vec<Violation>)
    ensures
        res@ == violations@,
{
    let mut res: Vec<Violation> = Vec::new();
    let mut i: usize = 0;
    while i < violations.len()
        invariant
            i <= violations.len(),
            res@ == violations@.subrange(0, i as int),
        decreases violations.len() - i,
    {
        res.push(violations[i].clone());
        i = i + 1;
        assert(res@ =~= violations@.subrange(0, i as int));
    }
    assert(violations@.subrange(0, violations@.len() as int) =~= violations@);
    res
}

/// Whether any of `violations` is blocking.
pub fn has_blocking(violations: &Vec<Violation>) -> (res: bool)
    ensures
        res == any_blocking(views(violations@)),
{
    let mut i: usize = 0;
    while i < violations.len()
        invariant
            i <= violations.len(),
            forall|j: int| 0 <= j < i ==> violations@[j].severity != Severity::Blocking,
        decreases violations.len() - i,
    {
        if violations[i].severity == Severity::Blocking {
            assert(views(violations@)[i as int].severity == Severity::Blocking);
            return true;
        }
        i = i + 1;
    }
    assert forall|j: int| 0 <= j < views(violations@).len() implies #[trigger] views(violations@)[j].severity != Severity::Blocking by {
        assert(views(violations@)[j] == violations@[j]@);
    }
    false
}

/// The messages of `violations`, in order.
pub fn violation_messages(violations: &Vec<Violation>) -> (res: Vec<String>)
    ensures
        res@ == messages_of(violations@),
{
    let mut res: Vec<String> = Vec::new();
    let mut i: usize = 0;
    while i < violations.len()
        invariant
            i <= violations.len(),
            res@ == messages_of(violations@.subrange(0, i as int)),
        decreases violations.len() - i,
    {
        res.push(violations[i].message.clone());
        i = i + 1;
        assert(res@ =~= messages_of(violations@.subrange(0, i as int)));
    }
    assert(violations@.subrange(0, violations@.len() as int) =~= violations@);
    res
}

impl Clone for VerificationReport {
    fn clone(&self) -> (res: VerificationReport)
        ensures
            res.passed == self.passed,
            res.violations@ == self.violations@,
    {
        VerificationReport { passed: self.passed, violations: clone_violations(&self.violations) }
    }
}

/// A plan that passed verification, with the report that passed it.
pub struct ApprovedPlan {
    pub steps: Vec<PlannedStep>,
    pub verification: VerificationReport,
}

/// The resources a run consumed.
#[derive(Clone, Copy, Debug, PartialEq, Eq, Structural)]
pub struct ResourceUsage {
    pub total_tokens: u64,
    pub symbolic_tokens: u64,
    pub neural_tokens: u64,
    pub wall_time_ms: u64,
}

/// The outcome of one executed step. `output` is the step's output as JSON text.
pub struct StepResult {
    pub idempotency_key: u128,
    pub step_index: usize,
    pub success: bool,
    pub output: String,
    pub error: Option<String>,
}

impl Clone for StepResult {
    fn clone(&self) -> (res: StepResult)
        ensures
            res == *self,
    {
        StepResult {
            idempotency_key: self.idempotency_key,
            step_index: self.step_index,
            success: self.success,
            output: self.output.clone(),
            error: match &self.error {
                Some(e) => Some(e.clone()),
                None => None,
            },
        }
    }
}

/// What an executed plan produced.
pub struct ExecutionReport {
    pub results: Vec<StepResult>,
    pub total_cost: ResourceUsage,
}

/// What an execution report holds, with its results as a sequence.
pub struct ExecutionReportView {
    pub results: Seq<StepResult>,
    pub total_cost: ResourceUsage,
}

impl View for ExecutionReport {
    type V = ExecutionReportView;

    open spec fn view(&self) -> ExecutionReportView {
        ExecutionReportView { results: self.results@, total_cost: self.total_cost }
    }
}

impl Clone for ExecutionReport {
    fn clone(&self) -> (res: ExecutionReport)
        ensures
            res@ == self@,
    {
        let mut results: Vec<StepResult> = Vec::new();
        let mut i: usize = 0;
        while i < self.results.len()
            invariant
                i <= self.results.len(),
                results@ == self.results@.subrange(0, i as int),
            decreases self.results.len() - i,
        {
            results.push(self.results[i].clone());
            i = i + 1;
            assert(results@ =~= self.results@.subrange(0, i as int));
        }
        assert(self.results@.subrange(0, self.results@.len() as int) =~= self.results@);
        ExecutionReport { results, total_cost: self.total_cost }
    }
}

/// What was extracted from an observation: named entities and subject-predicate-object
/// relations between them.
pub struct Facts {
    pub entities: Vec<String>,
    pub relations: Vec<(String, String, String)>,
}

/// A stored episode judged relevant to a query. Its match score is
/// `matched_entities / query_entities`.
pub struct WeightedPassage {
    pub content: String,
    pub source_episode_index: usize,
    pub matched_entities: usize,
    pub query_entities: usize,
}

/// A raw input entering the pipeline. `timestamp` counts microseconds since the Unix epoch,
/// UTC.
pub struct Observation {
    pub source: String,
    pub payload: Json,
    pub timestamp: i64,
}

/// A past observation and what came of it. `timestamp` counts microseconds since the Unix
/// epoch, UTC.
pub struct Episode {
    pub observation: Observation,
    pub outcome: Option<String>,
    pub timestamp: i64,
}

/// What memory recalls for a query: past episodes, a summary line when anything matched, and
/// the passages that matched.
pub struct MemoryContext {
    pub relevant_episodes: Vec<Episode>,
    pub summary: Option<String>,
    pub weighted_passages: Vec<WeightedPassage>,
}

} // verus!
