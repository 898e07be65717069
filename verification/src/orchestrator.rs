//! The decisions of a pipeline run: verify the proposed draft, repair it while the budget
//! allows, replan once when verification still fails, then execute the approved plan, persist
//! the report and record its cost.
//!
//! The controller is a state machine. Each call of `step` takes the outcome of the work it
//! asked for last and returns the next piece of work as a `Command`; the caller performs it
//! (model calls, verification, execution, storage, telemetry) and reports back an `Event`.
use vstd::prelude::*;

use crate::budget::{BudgetManager, BudgetState};
use crate::error::Error;
use crate::telemetry::{SpanKind, SpanMetadata};
use crate::types::{
    clone_steps, messages_of, violation_messages, ApprovedPlan, ExecutionReport, PlanDraft,
    PlannedStep, ResourceUsage, StepResult, VerificationReport, Violation,
};

verus! {

/// How many repairs one verification pass may make; each repaired draft is verified again.
pub const MAX_VERIFY_ITERATIONS: usize = 3;

/// Where a run stands.
#[derive(Clone, Copy, Debug, PartialEq, Eq, Structural)]
pub enum Phase {
    /// No run has started.
    Idle,
    /// Facts are being extracted from the observation.
    Extracting,
    /// Memory is being searched for the facts.
    Retrieving,
    /// The first draft is being proposed.
    Proposing,
    /// The proposal span is being emitted.
    ProposalSpan,
    /// The current draft is being verified.
    Verifying,
    /// The span for the latest verification is being emitted.
    CheckSpan,
    /// The current draft is being repaired against the latest report.
    Repairing,
    /// The span for the latest repair is being emitted.
    RepairSpan,
    /// A fresh draft is being proposed.
    Replanning,
    /// The approved plan is being executed.
    Executing,
    /// The execution span is being emitted.
    ExecutionSpan,
    /// The execution report is being persisted.
    Persisting,
    /// The run has finished.
    Done,
}

/// The work the controller asks for next.
pub enum Command {
    /// Extract facts from the observation; answer with `Event::Extracted`.
    Extract,
    /// Retrieve memory for the facts; answer with `Event::Retrieved`.
    Retrieve,
    /// Propose the first draft; answer with `Event::Proposed`.
    Propose,
    /// Emit a span of this kind with this metadata.
    Emit(SpanKind, SpanMetadata),
    /// Verify the current draft (`Orchestrator::draft`); answer with `Event::Verified`.
    Verify,
    /// Repair the current draft against the latest report (`Orchestrator::draft`,
    /// `Orchestrator::report`); answer with `Event::Repaired`.
    Repair,
    /// Propose a fresh draft; answer with `Event::Proposed`.
    Replan,
    /// Execute this plan; answer with `Event::Executed`.
    Execute(ApprovedPlan),
    /// Persist the execution report (`Orchestrator::execution`); answer with `Event::Persisted`.
    Persist,
    /// The run is over, with this outcome.
    Finish(Result<ExecutionReport, Error>),
}

/// The outcome of the work the controller asked for.
pub enum Event {
    Extracted,
    Retrieved,
    Proposed(PlanDraft),
    Verified(VerificationReport),
    Repaired(Option<PlanDraft>),
    Emitted,
    Executed(ExecutionReport),
    Persisted,
    /// The work failed with this error.
    Failed(Error),
}

/// What a command asks for, with its data as sequences.
pub enum CommandView {
    Extract,
    Retrieve,
    Propose,
    Emit(SpanKind, SpanMetadata),
    Verify,
    Repair,
    Replan,
    Execute { steps: Seq<PlannedStep>, passed: bool, violations: Seq<Violation> },
    Persist,
    FinishOk { results: Seq<StepResult>, total_cost: ResourceUsage },
    FinishRejected { count: usize, messages: Seq<String> },
    FinishFailed(Error),
}

/// What finishing with `error` looks like: a rejection carries its count and messages.
pub open spec fn error_view(error: Error) -> CommandView {
    match error {
        Error::Verification { violations, messages } => CommandView::FinishRejected {
            count: violations,
            messages: messages@,
        },
        _ => CommandView::FinishFailed(error),
    }
}

impl View for Command {
    type V = CommandView;

    open spec fn view(&self) -> CommandView {
        match self {
            Command::Extract => CommandView::Extract,
            Command::Retrieve => CommandView::Retrieve,
            Command::Propose => CommandView::Propose,
            Command::Emit(kind, metadata) => CommandView::Emit(*kind, *metadata),
            Command::Verify => CommandView::Verify,
            Command::Repair => CommandView::Repair,
            Command::Replan => CommandView::Replan,
            Command::Execute(plan) => CommandView::Execute {
                steps: plan.steps@,
                passed: plan.verification.passed,
                violations: plan.verification.violations@,
            },
            Command::Persist => CommandView::Persist,
            Command::Finish(Ok(report)) => CommandView::FinishOk {
                results: report.results@,
                total_cost: report.total_cost,
            },
            Command::Finish(Err(error)) => error_view(*error),
        }
    }
}

/// The state of the controller.
pub struct OrchestratorView {
    pub budget: BudgetState,
    pub phase: Phase,
    pub draft: PlanDraft,
    pub report: VerificationReport,
    pub repaired: Option<PlanDraft>,
    pub iteration: nat,
    pub replanned: bool,
    pub executed_steps: nat,
    pub execution: Option<ExecutionReport>,
}

/// Decides each stage of a run from the outcome of the one before.
pub struct Orchestrator {
    budget: BudgetManager,
    phase: Phase,
    draft: PlanDraft,
    report: VerificationReport,
    repaired: Option<PlanDraft>,
    iteration: usize,
    replanned: bool,
    executed_steps: usize,
    execution: Option<ExecutionReport>,
}

impl View for Orchestrator {
    type V = OrchestratorView;

    closed spec fn view(&self) -> OrchestratorView {
        OrchestratorView {
            budget: self.budget@,
            phase: self.phase,
            draft: self.draft,
            report: self.report,
            repaired: self.repaired,
            iteration: self.iteration as nat,
            replanned: self.replanned,
            executed_steps: self.executed_steps as nat,
            execution: self.execution,
        }
    }
}

/// The event that answers the command issued in `phase`.
pub open spec fn expects(phase: Phase, event: Event) -> bool {
    match phase {
        Phase::ProposalSpan | Phase::CheckSpan | Phase::RepairSpan | Phase::ExecutionSpan => event is Emitted,
        Phase::Verifying => event is Verified,
        Phase::Repairing => event is Repaired,
        Phase::Extracting => event is Extracted || event is Failed,
        Phase::Retrieving => event is Retrieved || event is Failed,
        Phase::Proposing | Phase::Replanning => event is Proposed || event is Failed,
        Phase::Executing => event is Executed || event is Failed,
        Phase::Persisting => event is Persisted || event is Failed,
        Phase::Idle | Phase::Done => false,
    }
}

/// A verification pass has failed with the latest report: replan if this run has not yet
/// replanned and the budget allows it, otherwise finish with the report's violations.
pub open spec fn pass_failed(pre: OrchestratorView, post: OrchestratorView, cmd: CommandView) -> bool {
    if !pre.replanned && pre.budget.replan_allowed() {
        &&& post == OrchestratorView {
            phase: Phase::Replanning,
            replanned: true,
            budget: pre.budget.after_replan(),
            ..pre
        }
        &&& cmd == CommandView::Replan
    } else {
        &&& post == OrchestratorView { phase: Phase::Done, ..pre }
        &&& cmd == CommandView::FinishRejected {
            count: pre.report.violations@.len() as usize,
            messages: messages_of(pre.report.violations@),
        }
    }
}

/// One step of a run: from state `pre`, on `event`, the controller moves to `post` and asks
/// for `cmd`.
pub open spec fn transition(
    pre: OrchestratorView,
    event: Event,
    post: OrchestratorView,
    cmd: CommandView,
) -> bool {
    match (pre.phase, event) {
        (Phase::ProposalSpan, Event::Emitted) => {
            &&& post == OrchestratorView { phase: Phase::Verifying, ..pre }
            &&& cmd == CommandView::Verify
        },
        (Phase::Extracting, Event::Extracted) => {
            &&& post == OrchestratorView { phase: Phase::Retrieving, ..pre }
            &&& cmd == CommandView::Retrieve
        },
        (Phase::Retrieving, Event::Retrieved) => {
            &&& post == OrchestratorView { phase: Phase::Proposing, ..pre }
            &&& cmd == CommandView::Propose
        },
        (Phase::Proposing, Event::Proposed(first)) => {
            &&& post == OrchestratorView { phase: Phase::ProposalSpan, draft: first, ..pre }
            &&& cmd == CommandView::Emit(
                SpanKind::ProposalGenerate,
                SpanMetadata::StepCount(first.steps@.len() as usize),
            )
        },
        (Phase::Extracting, Event::Failed(error))
        | (Phase::Retrieving, Event::Failed(error))
        | (Phase::Proposing, Event::Failed(error))
        | (Phase::Replanning, Event::Failed(error))
        | (Phase::Executing, Event::Failed(error))
        | (Phase::Persisting, Event::Failed(error)) => {
            &&& post == OrchestratorView { phase: Phase::Done, ..pre }
            &&& cmd == error_view(error)
        },
        (Phase::Verifying, Event::Verified(report)) => {
            &&& post == OrchestratorView { phase: Phase::CheckSpan, report, ..pre }
            &&& cmd == CommandView::Emit(
                SpanKind::VerifierCheck,
                SpanMetadata::Check {
                    violations: report.violations@.len() as usize,
                    passed: report.passed,
                },
            )
        },
        (Phase::CheckSpan, Event::Emitted) => {
            if pre.report.passed {
                &&& post == OrchestratorView {
                    phase: Phase::Executing,
                    executed_steps: pre.draft.steps@.len(),
                    ..pre
                }
                &&& cmd == CommandView::Execute {
                    steps: pre.draft.steps@,
                    passed: pre.report.passed,
                    violations: pre.report.violations@,
                }
            } else if pre.iteration < MAX_VERIFY_ITERATIONS && pre.budget.repair_allowed() {
                &&& post == OrchestratorView {
                    phase: Phase::Repairing,
                    budget: pre.budget.after_repair(),
                    ..pre
                }
                &&& cmd == CommandView::Repair
            } else {
                pass_failed(pre, post, cmd)
            }
        },
        (Phase::Repairing, Event::Repaired(outcome)) => {
            &&& post == OrchestratorView { phase: Phase::RepairSpan, repaired: outcome, ..pre }
            &&& cmd == CommandView::Emit(
                SpanKind::RepairApply,
                SpanMetadata::Repair { applied: outcome is Some },
            )
        },
        (Phase::RepairSpan, Event::Emitted) => {
            match pre.repaired {
                Some(fixed) => {
                    &&& post == OrchestratorView {
                        phase: Phase::Verifying,
                        draft: fixed,
                        repaired: None,
                        iteration: pre.iteration + 1,
                        ..pre
                    }
                    &&& cmd == CommandView::Verify
                },
                None => pass_failed(pre, post, cmd),
            }
        },
        (Phase::Replanning, Event::Proposed(fresh)) => {
            &&& post == OrchestratorView {
                phase: Phase::Verifying,
                draft: fresh,
                iteration: 0,
                ..pre
            }
            &&& cmd == CommandView::Verify
        },
        (Phase::Executing, Event::Executed(report)) => {
            &&& post == OrchestratorView {
                phase: Phase::ExecutionSpan,
                execution: Some(report),
                ..pre
            }
            &&& cmd == CommandView::Emit(
                SpanKind::ExecutorDispatch,
                SpanMetadata::StepCount(pre.executed_steps as usize),
            )
        },
        (Phase::ExecutionSpan, Event::Emitted) => {
            &&& post == OrchestratorView { phase: Phase::Persisting, ..pre }
            &&& cmd == CommandView::Persist
        },
        (Phase::Persisting, Event::Persisted) => {
            &&& pre.execution is Some
            &&& post == OrchestratorView {
                phase: Phase::Done,
                budget: pre.budget.after_record(pre.execution->0.total_cost),
                execution: None,
                ..pre
            }
            &&& cmd == CommandView::FinishOk {
                results: pre.execution->0.results@,
                total_cost: pre.execution->0.total_cost,
            }
        },
        _ => false,
    }
}

/// The state after a run begins: the budget carries over from earlier runs.
pub open spec fn begun(pre: OrchestratorView) -> OrchestratorView {
    OrchestratorView {
        phase: Phase::Extracting,
        repaired: None,
        iteration: 0,
        replanned: false,
        executed_steps: 0,
        execution: None,
        ..pre
    }
}

/// The controller's own invariant: a verification pass never makes more than
/// `MAX_VERIFY_ITERATIONS` repairs, and a repair under way has not used them up.
pub open spec fn consistent(state: OrchestratorView) -> bool {
    &&& state.iteration <= MAX_VERIFY_ITERATIONS
    &&& (state.phase == Phase::Repairing || state.phase == Phase::RepairSpan)
        ==> state.iteration < MAX_VERIFY_ITERATIONS
    &&& state.phase == Phase::Replanning ==> state.replanned
}

/// The step on `event` can be taken without overflowing a counter: when the report has been
/// persisted, recording the execution's cost fits in the budget's counters.
pub open spec fn step_fits(state: OrchestratorView, event: Event) -> bool {
    (state.phase == Phase::Persisting && event is Persisted) ==> (state.execution matches Some(
        report,
    ) && state.budget.can_record(report.total_cost))
}

impl Orchestrator {
    /// A controller with no run started, holding `budget`.
    pub fn new(budget: BudgetManager) -> (res: Orchestrator)
        ensures
            res@.phase == Phase::Idle,
            res@.budget == budget@,
            res@.iteration == 0,
            !res@.replanned,
            consistent(res@),
    {
        Orchestrator {
            budget,
            phase: Phase::Idle,
            draft: PlanDraft { steps: Vec::new(), rationale: String::new() },
            report: VerificationReport { passed: false, violations: Vec::new() },
            repaired: None,
            iteration: 0,
            replanned: false,
            executed_steps: 0,
            execution: None,
        }
    }

    /// The draft under consideration.
    pub fn draft(&self) -> (res: &PlanDraft)
        ensures
            *res == self@.draft,
    {
        &self.draft
    }

    /// The latest verification report.
    pub fn report(&self) -> (res: &VerificationReport)
        ensures
            *res == self@.report,
    {
        &self.report
    }

    /// The execution report awaiting persistence, if any.
    pub fn execution(&self) -> (res: Option<&ExecutionReport>)
        ensures
            match res {
                Some(r) => self@.execution == Some(*r),
                None => self@.execution is None,
            },
    {
        match &self.execution {
            Some(r) => Some(r),
            None => None,
        }
    }

    /// Where the run stands.
    pub fn phase(&self) -> (res: Phase)
        ensures
            res == self@.phase,
    {
        self.phase
    }

    /// The budget, with what earlier runs used of it.
    pub fn budget(&self) -> (res: &BudgetManager)
        ensures
            res@ == self@.budget,
    {
        &self.budget
    }

    /// Whether `event` answers the command issued last.
    pub fn accepts(&self, event: &Event) -> (res: bool)
        ensures
            res == expects(self@.phase, *event),
    {
        match (self.phase, event) {
            (Phase::ProposalSpan, Event::Emitted) => true,
            (Phase::CheckSpan, Event::Emitted) => true,
            (Phase::RepairSpan, Event::Emitted) => true,
            (Phase::ExecutionSpan, Event::Emitted) => true,
            (Phase::Verifying, Event::Verified(_)) => true,
            (Phase::Repairing, Event::Repaired(_)) => true,
            (Phase::Extracting, Event::Extracted) => true,
            (Phase::Retrieving, Event::Retrieved) => true,
            (Phase::Proposing, Event::Proposed(_)) => true,
            (Phase::Replanning, Event::Proposed(_)) => true,
            (Phase::Executing, Event::Executed(_)) => true,
            (Phase::Persisting, Event::Persisted) => true,
            (Phase::Extracting, Event::Failed(_)) => true,
            (Phase::Retrieving, Event::Failed(_)) => true,
            (Phase::Proposing, Event::Failed(_)) => true,
            (Phase::Replanning, Event::Failed(_)) => true,
            (Phase::Executing, Event::Failed(_)) => true,
            (Phase::Persisting, Event::Failed(_)) => true,
            _ => false,
        }
    }

    /// Whether the step on `event` can be taken without overflowing a counter.
    pub fn fits(&self, event: &Event) -> (res: bool)
        ensures
            res == step_fits(self@, *event),
    {
        match (&self.phase, &self.execution, event) {
            (Phase::Persisting, Some(report), Event::Persisted) => self.budget.can_record_checked(&report.total_cost),
            (Phase::Persisting, None, Event::Persisted) => false,
            _ => true,
        }
    }

    /// Starts a run: asks for the facts of the observation.
    pub fn begin(&mut self) -> (cmd: Command)
        ensures
            final(self)@ == begun(old(self)@),
            consistent(final(self)@),
            cmd@ == CommandView::Extract,
    {
        self.phase = Phase::Extracting;
        self.repaired = None;
        self.iteration = 0;
        self.replanned = false;
        self.executed_steps = 0;
        self.execution = None;
        Command::Extract
    }

    /// The outcome of a failed verification pass.
    fn fail_pass(&mut self) -> (cmd: Command)
        ensures
            pass_failed(old(self)@, final(self)@, cmd@),
    {
        if !self.replanned && self.budget.can_replan() {
            self.budget.record_replan();
            self.replanned = true;
            self.phase = Phase::Replanning;
            Command::Replan
        } else {
            self.phase = Phase::Done;
            let messages = violation_messages(&self.report.violations);
            Command::Finish(Err(Error::Verification { violations: self.report.violations.len(), messages }))
        }
    }

    /// Takes the outcome of the last command and decides the next one.
    pub fn step(&mut self, event: Event) -> (cmd: Command)
        requires
            expects(old(self)@.phase, event),
            step_fits(old(self)@, event),
            consistent(old(self)@),
        ensures
            transition(old(self)@, event, final(self)@, cmd@),
            consistent(final(self)@),
    {
        match event {
            Event::Emitted => {
                match self.phase {
                    Phase::ProposalSpan => {
                        self.phase = Phase::Verifying;
                        Command::Verify
                    },
                    Phase::CheckSpan => {
                        if self.report.passed {
                            let steps = clone_steps(&self.draft.steps);
                            let verification = self.report.clone();
                            self.executed_steps = steps.len();
                            self.phase = Phase::Executing;
                            Command::Execute(ApprovedPlan { steps, verification })
                        } else if self.iteration < MAX_VERIFY_ITERATIONS && self.budget.can_repair() {
                            self.budget.record_repair();
                            self.phase = Phase::Repairing;
                            Command::Repair
                        } else {
                            self.fail_pass()
                        }
                    },
                    Phase::RepairSpan => {
                        match self.repaired.take() {
                            Some(fixed) => {
                                self.draft = fixed;
                                self.iteration = self.iteration + 1;
                                self.phase = Phase::Verifying;
                                Command::Verify
                            },
                            None => self.fail_pass(),
                        }
                    },
                    _ => {
                        self.phase = Phase::Persisting;
                        Command::Persist
                    },
                }
            },
            Event::Verified(report) => {
                self.report = report;
                self.phase = Phase::CheckSpan;
                Command::Emit(
                    SpanKind::VerifierCheck,
                    SpanMetadata::Check {
                        violations: self.report.violations.len(),
                        passed: self.report.passed,
                    },
                )
            },
            Event::Repaired(outcome) => {
                let applied = outcome.is_some();
                self.repaired = outcome;
                self.phase = Phase::RepairSpan;
                Command::Emit(SpanKind::RepairApply, SpanMetadata::Repair { applied })
            },
            Event::Extracted => {
                self.phase = Phase::Retrieving;
                Command::Retrieve
            },
            Event::Retrieved => {
                self.phase = Phase::Proposing;
                Command::Propose
            },
            Event::Proposed(fresh) => {
                if self.phase == Phase::Proposing {
                    let count = fresh.steps.len();
                    self.draft = fresh;
                    self.phase = Phase::ProposalSpan;
                    Command::Emit(SpanKind::ProposalGenerate, SpanMetadata::StepCount(count))
                } else {
                    self.draft = fresh;
                    self.iteration = 0;
                    self.phase = Phase::Verifying;
                    Command::Verify
                }
            },
            Event::Failed(error) => {
                self.phase = Phase::Done;
                Command::Finish(Err(error))
            },
            Event::Executed(report) => {
                self.execution = Some(report);
                self.phase = Phase::ExecutionSpan;
                Command::Emit(
                    SpanKind::ExecutorDispatch,
                    SpanMetadata::StepCount(self.executed_steps),
                )
            },
            Event::Persisted => {
                let report = self.execution.take().unwrap();
                self.budget.record(&report.total_cost);
                self.phase = Phase::Done;
                Command::Finish(Ok(report))
            },
        }
    }
}

/// How much work a run has left, at most: every step lowers it, so a run finishes after at
/// most 40 steps. A verification pass counts down its rounds; the second pass (after a replan)
/// ranks below the replan, which ranks below the first pass.
pub open spec fn progress(state: OrchestratorView) -> nat {
    let round = (MAX_VERIFY_ITERATIONS - state.iteration) * 4;
    let pass_rank = match state.phase {
        Phase::Verifying => round + 3,
        Phase::CheckSpan => round + 2,
        Phase::Repairing => round + 1,
        _ => round,
    };
    match state.phase {
        Phase::Idle | Phase::Done => 0,
        Phase::Persisting => 1,
        Phase::ExecutionSpan => 2,
        Phase::Executing => 3,
        Phase::Replanning => 20,
        Phase::ProposalSpan => 37,
        Phase::Proposing => 38,
        Phase::Retrieving => 39,
        Phase::Extracting => 40,
        _ => if state.replanned {
            (4 + pass_rank) as nat
        } else {
            (21 + pass_rank) as nat
        },
    }
}

/// Every run terminates: each step strictly lowers `progress`, which starts at 37 when a run
/// begins.
pub proof fn lemma_step_makes_progress(
    pre: OrchestratorView,
    event: Event,
    post: OrchestratorView,
    cmd: CommandView,
)
    requires
        consistent(pre),
        transition(pre, event, post, cmd),
    ensures
        progress(post) < progress(pre),
        progress(pre) <= 40,
{
}

/// A run that has just begun has its full allowance of steps.
pub proof fn lemma_begun_progress(pre: OrchestratorView)
    ensures
        progress(begun(pre)) == 40,
        consistent(begun(pre)),
{
}

/// Every verification is followed through: a draft whose verification passes is executed,
/// however many repairs led to it, and the plan holds the draft's steps.
pub proof fn lemma_passing_verification_executes(
    verifying: OrchestratorView,
    report: VerificationReport,
    checked: OrchestratorView,
    span: CommandView,
    next: OrchestratorView,
    cmd: CommandView,
)
    requires
        verifying.phase == Phase::Verifying,
        report.passed,
        transition(verifying, Event::Verified(report), checked, span),
        transition(checked, Event::Emitted, next, cmd),
    ensures
        next.phase == Phase::Executing,
        cmd == (CommandView::Execute {
            steps: verifying.draft.steps@,
            passed: true,
            violations: report.violations@,
        }),
{
}

/// A failed port call ends the run with its error: nothing more is asked for, and the budget
/// records nothing.
pub proof fn lemma_failure_ends_run(
    pre: OrchestratorView,
    error: Error,
    post: OrchestratorView,
    cmd: CommandView,
)
    requires
        transition(pre, Event::Failed(error), post, cmd),
    ensures
        post.phase == Phase::Done,
        post.budget == pre.budget,
        cmd == error_view(error),
{
}

/// A plan is executed only after it passed: the plan handed to execution holds exactly the
/// steps of the draft that was just verified, with the passing report it received.
pub proof fn lemma_only_verified_plans_execute(
    verifying: OrchestratorView,
    report: VerificationReport,
    checked: OrchestratorView,
    span: CommandView,
    next: OrchestratorView,
    cmd: CommandView,
)
    requires
        verifying.phase == Phase::Verifying,
        transition(verifying, Event::Verified(report), checked, span),
        transition(checked, Event::Emitted, next, cmd),
        cmd is Execute,
    ensures
        report.passed,
        cmd == (CommandView::Execute {
            steps: verifying.draft.steps@,
            passed: true,
            violations: report.violations@,
        }),
{
}

/// Whatever the step, a command to execute carries a passing report.
pub proof fn lemma_execute_carries_passing_report(
    pre: OrchestratorView,
    event: Event,
    post: OrchestratorView,
    cmd: CommandView,
)
    requires
        transition(pre, event, post, cmd),
        cmd is Execute,
    ensures
        cmd->Execute_passed,
        cmd->Execute_steps == pre.draft.steps@,
        pre.phase == Phase::CheckSpan,
{
}

/// A repair is asked for only while the budget allows one, and asking for it uses one repair
/// attempt; no other step touches the repair counter. So a budget within its limits stays
/// within them.
pub proof fn lemma_repairs_stay_within_budget(
    pre: OrchestratorView,
    event: Event,
    post: OrchestratorView,
    cmd: CommandView,
)
    requires
        transition(pre, event, post, cmd),
    ensures
        cmd is Repair ==> pre.budget.repair_allowed() && post.budget.repair_attempts
            == pre.budget.repair_attempts + 1,
        !(cmd is Repair) ==> post.budget.repair_attempts == pre.budget.repair_attempts,
        post.budget.max_repair_attempts == pre.budget.max_repair_attempts,
        post.budget.max_neural_replans == pre.budget.max_neural_replans,
        pre.budget.within_limits() ==> post.budget.within_limits(),
{
}

/// A run replans at most once, and only while the budget allows a replan, which it uses up.
pub proof fn lemma_replan_at_most_once(
    pre: OrchestratorView,
    event: Event,
    post: OrchestratorView,
    cmd: CommandView,
)
    requires
        transition(pre, event, post, cmd),
    ensures
        cmd is Replan ==> !pre.replanned && post.replanned && pre.budget.replan_allowed()
            && post.budget.neural_replans == pre.budget.neural_replans + 1,
        !(cmd is Replan) ==> post.budget.neural_replans == pre.budget.neural_replans,
        pre.replanned ==> post.replanned,
{
}

/// A verification pass repairs at most `MAX_VERIFY_ITERATIONS` times: a repair is asked for
/// only in a round that has not used them up, and rounds never exceed that number.
pub proof fn lemma_repairs_per_pass_bounded(
    pre: OrchestratorView,
    event: Event,
    post: OrchestratorView,
    cmd: CommandView,
)
    requires
        consistent(pre),
        transition(pre, event, post, cmd),
    ensures
        cmd is Repair ==> pre.iteration < MAX_VERIFY_ITERATIONS,
        post.iteration <= MAX_VERIFY_ITERATIONS,
{
}

/// A run that verification rejects (rather than a failed port call) reports exactly the
/// violations of the last verification: their number and their messages.
pub proof fn lemma_rejection_reports_last_verification(
    pre: OrchestratorView,
    event: Event,
    post: OrchestratorView,
    cmd: CommandView,
)
    requires
        transition(pre, event, post, cmd),
        !(event is Failed),
        cmd is FinishRejected,
    ensures
        post.phase == Phase::Done,
        cmd == (CommandView::FinishRejected {
            count: post.report.violations@.len() as usize,
            messages: messages_of(post.report.violations@),
        }),
{
}

/// Each run starts afresh: whatever earlier runs did, a run that begins has not replanned and
/// has made no repairs in its pass; only the budget carries over.
pub proof fn lemma_run_starts_afresh(pre: OrchestratorView)
    ensures
        !begun(pre).replanned,
        begun(pre).iteration == 0,
        begun(pre).execution is None,
        begun(pre).phase == Phase::Extracting,
        begun(pre).budget == pre.budget,
{
}

/// Only a replan marks a run as replanned: every other step leaves the mark as it was.
pub proof fn lemma_replanned_only_by_replan(
    pre: OrchestratorView,
    event: Event,
    post: OrchestratorView,
    cmd: CommandView,
)
    requires
        transition(pre, event, post, cmd),
        !(cmd is Replan),
    ensures
        post.replanned == pre.replanned,
{
}

/// A run that has not replanned yet replans when a verification pass fails and no repair is
/// left for it, as long as the budget allows a replan.
pub proof fn lemma_failed_pass_replans(
    pre: OrchestratorView,
    post: OrchestratorView,
    cmd: CommandView,
)
    requires
        pre.phase == Phase::CheckSpan,
        !pre.report.passed,
        !(pre.iteration < MAX_VERIFY_ITERATIONS && pre.budget.repair_allowed()),
        !pre.replanned,
        pre.budget.replan_allowed(),
        transition(pre, Event::Emitted, post, cmd),
    ensures
        cmd == CommandView::Replan,
        post.phase == Phase::Replanning,
{
}

} // verus!
