//! The shell executor's bookkeeping: how a finished shell run becomes a step result, how a
//! timed-out step is reported, and how the results add up to an execution report.
use vstd::prelude::*;

use crate::error::Error;
use crate::json::{
    is_integer_text, is_natural_text, json_rendering, json_text, renderable, Json, JsonMembers,
    JsonView,
};
use crate::text::{decimal, digit_char, i64_text, owned, signed_decimal, u64_text};
use crate::types::{ApprovedPlan, ExecutionReport, PlannedStep, ResourceUsage, StepResult};

verus! {

/// The per-step timeout used when none is configured, in seconds.
pub const DEFAULT_STEP_TIMEOUT_SECS: u64 = 30;

/// Runs each approved step as a shell command, with a timeout per step.
pub struct ShellExecutor {
    step_timeout_secs: u64,
}

/// How one shell command ended: whether it succeeded, its exit code if it has one, its output
/// as JSON text, and how long it took.
pub struct ShellRun {
    pub success: bool,
    pub exit_code: Option<i32>,
    pub output: String,
    pub elapsed_ms: u64,
}

/// The error text of a failed step: `exit code: ` and its code, or -1 when it has none.
pub open spec fn exit_error_text(exit_code: Option<i32>) -> Seq<char> {
    "exit code: "@ + signed_decimal(
        match exit_code {
            Some(c) => c as int,
            None => -1,
        },
    )
}

/// The result recorded for `step`, run as step `index`, given how its command ended.
pub open spec fn result_matches(result: StepResult, step: PlannedStep, index: usize, run: ShellRun) -> bool {
    &&& result.idempotency_key == step.idempotency_key
    &&& result.step_index == index
    &&& result.success == run.success
    &&& result.output == run.output
    &&& if run.success {
        result.error is None
    } else {
        result.error matches Some(e) && e@ == exit_error_text(run.exit_code)
    }
}

/// The total wall time of the first `n` runs.
pub open spec fn total_wall_time(runs: Seq<ShellRun>, n: int) -> int
    decreases n,
{
    if n <= 0 {
        0
    } else {
        total_wall_time(runs, n - 1) + runs[n - 1].elapsed_ms
    }
}

impl ShellExecutor {
    /// The per-step timeout, in seconds.
    pub closed spec fn spec_timeout(&self) -> u64 {
        self.step_timeout_secs
    }

    /// An executor that gives each step `step_timeout_secs` seconds.
    pub fn new(step_timeout_secs: u64) -> (res: ShellExecutor)
        ensures
            res.spec_timeout() == step_timeout_secs,
    {
        ShellExecutor { step_timeout_secs }
    }

    /// The per-step timeout, in seconds.
    pub fn step_timeout_secs(&self) -> (res: u64)
        ensures
            res == self.spec_timeout(),
    {
        self.step_timeout_secs
    }

    /// The error for step `index` running out of time.
    pub fn timeout_error(&self, index: usize) -> (res: Error)
        ensures
            res matches Error::Execution(m) && m@ == "step "@ + decimal(index as nat)
                + " timed out after "@ + decimal(self.spec_timeout() as nat) + "s"@,
    {
        let mut m = owned("step ");
        let i = u64_text(index as u64);
        m.append(i.as_str());
        m.append(" timed out after ");
        let t = u64_text(self.step_timeout_secs);
        m.append(t.as_str());
        m.append("s");
        Error::Execution(m)
    }

    /// The result recorded for `step`, run as step `index`.
    pub fn step_result(&self, step: &PlannedStep, index: usize, run: &ShellRun) -> (res: StepResult)
        ensures
            result_matches(res, *step, index, *run),
    {
        let error = if run.success {
            None
        } else {
            let code: i64 = match run.exit_code {
                Some(c) => c as i64,
                None => -1,
            };
            let mut e = owned("exit code: ");
            let digits = i64_text(code);
            e.append(digits.as_str());
            Some(e)
        };
        StepResult {
            idempotency_key: step.idempotency_key,
            step_index: index,
            success: run.success,
            output: run.output.clone(),
            error,
        }
    }

    /// The report of a plan whose every step ran: one result per step, in order, and the
    /// total wall time; no tokens are spent by shell steps.
    pub fn report(&self, plan: &ApprovedPlan, runs: &Vec<ShellRun>) -> (res: ExecutionReport)
        requires
            runs@.len() == plan.steps@.len(),
            total_wall_time(runs@, runs@.len() as int) <= u64::MAX,
        ensures
            res.results@.len() == plan.steps@.len(),
            forall|i: int| 0 <= i < res.results@.len() ==> result_matches(
                #[trigger] res.results@[i],
                plan.steps@[i],
                i as usize,
                runs@[i],
            ),
            res.total_cost == (ResourceUsage {
                total_tokens: 0,
                symbolic_tokens: 0,
                neural_tokens: 0,
                wall_time_ms: total_wall_time(runs@, runs@.len() as int) as u64,
            }),
    {
        let mut results: Vec<StepResult> = Vec::new();
        let mut total_wall_ms: u64 = 0;
        let mut i: usize = 0;
        while i < runs.len()
            invariant
                i <= runs.len(),
                runs@.len() == plan.steps@.len(),
                total_wall_time(runs@, runs@.len() as int) <= u64::MAX,
                total_wall_ms == total_wall_time(runs@, i as int),
                results@.len() == i,
                forall|j: int| 0 <= j < i ==> result_matches(#[trigger] results@[j], plan.steps@[j], j as usize, runs@[j]),
            decreases runs.len() - i,
        {
            proof {
                lemma_wall_time_grows(runs@, i + 1, runs@.len() as int);
            }
            total_wall_ms = total_wall_ms + runs[i].elapsed_ms;
            let r = self.step_result(&plan.steps[i], i, &runs[i]);
            results.push(r);
            i = i + 1;
        }
        ExecutionReport {
            results,
            total_cost: ResourceUsage {
                total_tokens: 0,
                symbolic_tokens: 0,
                neural_tokens: 0,
                wall_time_ms: total_wall_ms,
            },
        }
    }
}

/// The wall time of fewer runs is no more than that of more runs.
proof fn lemma_wall_time_grows(runs: Seq<ShellRun>, m: int, n: int)
    requires
        0 <= m <= n <= runs.len(),
    ensures
        total_wall_time(runs, m) <= total_wall_time(runs, n),
    decreases n - m,
{
    if m < n {
        lemma_wall_time_grows(runs, m, n - 1);
    }
}

impl Default for ShellExecutor {
    fn default() -> (res: ShellExecutor)
        ensures
            res.spec_timeout() == DEFAULT_STEP_TIMEOUT_SECS,
    {
        ShellExecutor::new(DEFAULT_STEP_TIMEOUT_SECS)
    }
}

/// What `String::from_utf8_lossy` gives for bytes: each invalid sequence becomes U+FFFD. It
/// depends on the bytes alone.
pub uninterp spec fn lossy_utf8(bytes: Seq<u8>) -> Seq<char>;

/// Calls `String::from_utf8_lossy` and takes the text as an owned `String`; the text is named
/// `lossy_utf8` of the bytes.
#[verifier::external_body]
fn lossy_text(bytes: &[u8]) -> (res: String)
    ensures
        res@ == lossy_utf8(bytes@),
{
    String::from_utf8_lossy(bytes).into_owned()
}

/// The output object recorded for a finished step: its standard output and error as text,
/// and its wall time in milliseconds.
pub open spec fn output_view(stdout: Seq<char>, stderr: Seq<char>, wall_time_ms: u64) -> JsonView {
    JsonView::Object(
        seq![
            ("stdout"@, JsonView::Str(stdout)),
            ("stderr"@, JsonView::Str(stderr)),
            ("wall_time_ms"@, JsonView::Number(decimal(wall_time_ms as nat))),
        ],
    )
}

/// The output text recorded for a finished step: the JSON text of its output object.
pub fn step_output(stdout: &[u8], stderr: &[u8], wall_time_ms: u64) -> (res: String)
    ensures
        res@ == json_rendering(output_view(lossy_utf8(stdout@), lossy_utf8(stderr@), wall_time_ms)),
{
    let out = lossy_text(stdout);
    let err = lossy_text(stderr);
    let wall = u64_text(wall_time_ms);
    let ghost (o, e, w) = (out@, err@, wall@);
    reveal_with_fuel(JsonMembers::spec_views, 2);
    let last = JsonMembers::Member(owned("wall_time_ms"), Box::new(Json::Number(wall)), Box::new(JsonMembers::End));
    assert(last.spec_views() =~= seq![("wall_time_ms"@, JsonView::Number(w))]);
    let middle = JsonMembers::Member(owned("stderr"), Box::new(Json::Str(err)), Box::new(last));
    assert(middle.spec_views() =~= seq![("stderr"@, JsonView::Str(e)), ("wall_time_ms"@, JsonView::Number(w))]);
    let members = JsonMembers::Member(owned("stdout"), Box::new(Json::Str(out)), Box::new(middle));
    assert(members.spec_views() =~= seq![
        ("stdout"@, JsonView::Str(o)),
        ("stderr"@, JsonView::Str(e)),
        ("wall_time_ms"@, JsonView::Number(w)),
    ]);
    let doc = Json::Object(members);
    assert(doc.spec_view() == output_view(lossy_utf8(stdout@), lossy_utf8(stderr@), wall_time_ms));
    proof {
        lemma_decimal_is_natural(wall_time_ms as nat);
        reveal_strlit("stdout");
        reveal_strlit("stderr");
        reveal_strlit("wall_time_ms");
        let names = seq!["stdout"@, "stderr"@, "wall_time_ms"@];
        assert(names[0][3] != names[1][3]);
        assert(names[0][0] != names[2][0]);
        assert(names[1][0] != names[2][0]);
        assert(is_integer_text(w));
        let members = seq![
            ("stdout"@, JsonView::Str(o)),
            ("stderr"@, JsonView::Str(e)),
            ("wall_time_ms"@, JsonView::Number(w)),
        ];
        assert(renderable(JsonView::Str(o)));
        assert(renderable(JsonView::Str(e)));
        assert(renderable(JsonView::Number(w)));
        assert forall|i: int, j: int| 0 <= i < j < members.len() implies (#[trigger] members[i]).0
            != (#[trigger] members[j]).0 by {
            if i == 0 && j == 1 {
                assert(members[i].0[3] != members[j].0[3]);
            } else {
                assert(members[i].0[0] != members[j].0[0]);
            }
        }
        assert forall|i: int| 0 <= i < members.len() implies renderable(#[trigger] members[i].1) by {
        }
        assert(doc.spec_view() == JsonView::Object(members));
        assert(renderable(JsonView::Object(members)));
    }
    json_text(&doc)
}

/// The decimal text of a natural number is a digit run without leading zeros.
proof fn lemma_decimal_is_natural(n: nat)
    ensures
        is_natural_text(decimal(n)),
        n > 0 ==> decimal(n)[0] != '0',
    decreases n,
{
    if n >= 10 {
        lemma_decimal_is_natural(n / 10);
        let d = decimal(n);
        assert(d == decimal(n / 10) + seq![digit_char((n % 10) as int)]);
        assert(d[0] == decimal(n / 10)[0]);
    }
}

/// How one shell step went: it finished (with its status, exit code if any, output bytes and
/// wall time), it ran out of time, or it could not be started (with the error's text).
pub enum StepOutcome {
    Finished {
        success: bool,
        exit_code: Option<i32>,
        stdout: Vec<u8>,
        stderr: Vec<u8>,
        elapsed_ms: u64,
    },
    TimedOut,
    SpawnFailed(String),
}

/// What the executor does next: run the step with this index, report success, or stop with
/// an error.
pub enum ExecAction {
    Run(usize),
    Finished,
    Failed(Error),
}

/// The results gathered so far and their total wall time.
pub struct ExecProgress {
    pub results: Vec<StepResult>,
    pub total_wall_ms: u64,
}

/// The result recorded for `step`, run as step `index`, that finished with `success`,
/// `exit_code` and output text `output`.
pub open spec fn finished_result(
    result: StepResult,
    step: PlannedStep,
    index: usize,
    success: bool,
    exit_code: Option<i32>,
    output: Seq<char>,
) -> bool {
    &&& result.idempotency_key == step.idempotency_key
    &&& result.step_index == index
    &&& result.success == success
    &&& result.output@ == output
    &&& if success {
        result.error is None
    } else {
        result.error matches Some(e) && e@ == exit_error_text(exit_code)
    }
}

impl ExecProgress {
    /// The report of a run whose every step finished: the results, and their total wall time
    /// with no tokens spent.
    pub fn into_report(self) -> (res: ExecutionReport)
        ensures
            res.results@ == self.results@,
            res.total_cost == (ResourceUsage {
                total_tokens: 0,
                symbolic_tokens: 0,
                neural_tokens: 0,
                wall_time_ms: self.total_wall_ms,
            }),
    {
        ExecutionReport {
            results: self.results,
            total_cost: ResourceUsage {
                total_tokens: 0,
                symbolic_tokens: 0,
                neural_tokens: 0,
                wall_time_ms: self.total_wall_ms,
            },
        }
    }
}

impl ShellExecutor {
    /// Starts executing `plan`: nothing gathered yet, and the first step to run, or success at
    /// once when the plan has no steps.
    pub fn start(&self, plan: &ApprovedPlan) -> (res: (ExecProgress, ExecAction))
        ensures
            res.0.results@.len() == 0,
            res.0.total_wall_ms == 0,
            plan.steps@.len() == 0 ==> res.1 is Finished,
            plan.steps@.len() > 0 ==> res.1 == ExecAction::Run(0),
    {
        let progress = ExecProgress { results: Vec::new(), total_wall_ms: 0 };
        if plan.steps.len() == 0 {
            (progress, ExecAction::Finished)
        } else {
            (progress, ExecAction::Run(0))
        }
    }

    /// Takes how the next step (the one at index `progress.results.len()`) went and decides
    /// what follows. A finished step adds its result and its wall time, and the step after it
    /// runs, or the execution is finished after the last one; a step that runs out of time
    /// stops the execution with the timeout error, and one that cannot start stops it with its
    /// error's text. Steps thus run once each, in order, and none runs after a failed one.
    pub fn advance(&self, plan: &ApprovedPlan, progress: &mut ExecProgress, outcome: StepOutcome) -> (res: ExecAction)
        requires
            old(progress).results@.len() < plan.steps@.len(),
            outcome matches StepOutcome::Finished { elapsed_ms, .. } ==> old(progress).total_wall_ms
                + elapsed_ms <= u64::MAX,
        ensures
            match outcome {
                StepOutcome::Finished { success, exit_code, stdout, stderr, elapsed_ms } => {
                    let i = old(progress).results@.len();
                    &&& final(progress).total_wall_ms == old(progress).total_wall_ms + elapsed_ms
                    &&& final(progress).results@.len() == i + 1
                    &&& final(progress).results@.drop_last() == old(progress).results@
                    &&& finished_result(
                        final(progress).results@.last(),
                        plan.steps@[i as int],
                        i as usize,
                        success,
                        exit_code,
                        json_rendering(output_view(lossy_utf8(stdout@), lossy_utf8(stderr@), elapsed_ms)),
                    )
                    &&& if i + 1 < plan.steps@.len() {
                        res == ExecAction::Run((i + 1) as usize)
                    } else {
                        res is Finished
                    }
                },
                StepOutcome::TimedOut => {
                    &&& *final(progress) == *old(progress)
                    &&& res matches ExecAction::Failed(Error::Execution(m)) && m@ == "step "@
                        + decimal(old(progress).results@.len()) + " timed out after "@
                        + decimal(self.spec_timeout() as nat) + "s"@
                },
                StepOutcome::SpawnFailed(why) => {
                    &&& *final(progress) == *old(progress)
                    &&& res matches ExecAction::Failed(Error::Execution(m)) && m@ == why@
                },
            },
    {
        let i = progress.results.len();
        let n = plan.steps.len();
        match outcome {
            StepOutcome::Finished { success, exit_code, stdout, stderr, elapsed_ms } => {
                let output = step_output(stdout.as_slice(), stderr.as_slice(), elapsed_ms);
                let run = ShellRun { success, exit_code, output, elapsed_ms };
                let result = self.step_result(&plan.steps[i], i, &run);
                progress.results.push(result);
                progress.total_wall_ms = progress.total_wall_ms + elapsed_ms;
                if i + 1 < n {
                    ExecAction::Run(i + 1)
                } else {
                    ExecAction::Finished
                }
            },
            StepOutcome::TimedOut => ExecAction::Failed(self.timeout_error(i)),
            StepOutcome::SpawnFailed(why) => ExecAction::Failed(Error::Execution(why)),
        }
    }
}

/// A step's recorded result reports the run's own status: it succeeded exactly when the run
/// did, and it carries an error exactly when the run failed.
pub proof fn lemma_result_reports_the_run(result: StepResult, step: PlannedStep, index: usize, run: ShellRun)
    requires
        result_matches(result, step, index, run),
    ensures
        result.success == run.success,
        result.error is None <==> result.success,
        result.idempotency_key == step.idempotency_key,
        result.step_index == index,
{
}

/// A finished step's recorded result reports that step's status: it succeeded exactly when the
/// step did, and it carries an error exactly when the step failed.
pub proof fn lemma_finished_result_reports_the_step(
    result: StepResult,
    step: PlannedStep,
    index: usize,
    success: bool,
    exit_code: Option<i32>,
    output: Seq<char>,
)
    requires
        finished_result(result, step, index, success, exit_code, output),
    ensures
        result.success == success,
        result.error is None <==> result.success,
        result.idempotency_key == step.idempotency_key,
        result.step_index == index,
{
}

} // verus!
