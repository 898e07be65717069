//! Deterministic repair: drop the steps that a blocking violation points at.
use vstd::prelude::*;

use crate::rule_set::empty_action_violations;
use crate::text::{decimal, u64_text};
use crate::types::{views, PlanDraft, PlannedStep, Severity, VerificationReport, ViolationView};

verus! {

/// The step indices named by the blocking violations, in order (repeats included).
pub open spec fn blocking_indices(violations: Seq<ViolationView>) -> Seq<usize>
    decreases violations.len(),
{
    if violations.len() == 0 {
        Seq::empty()
    } else {
        let rest = blocking_indices(violations.drop_last());
        if violations.last().severity == Severity::Blocking {
            rest.push(violations.last().step_index)
        } else {
            rest
        }
    }
}

/// The steps whose index is not in `blocked`, in the order they came.
pub open spec fn retained(steps: Seq<PlannedStep>, blocked: Seq<usize>) -> Seq<PlannedStep>
    decreases steps.len(),
{
    if steps.len() == 0 {
        Seq::empty()
    } else {
        let rest = retained(steps.drop_last(), blocked);
        if blocked.contains((steps.len() - 1) as usize) {
            rest
        } else {
            rest.push(steps.last())
        }
    }
}

/// The rationale of a repaired draft: the given one, then a note of how many blocking
/// violations were acted on.
pub open spec fn repaired_rationale(rationale: Seq<char>, removed: nat) -> Seq<char> {
    rationale + " (repaired: removed "@ + decimal(removed) + " blocking steps)"@
}

/// Repairs a draft by removing every step that a blocking violation points at.
pub struct PatternRepairEngine;

impl Default for PatternRepairEngine {
    fn default() -> (res: PatternRepairEngine) {
        PatternRepairEngine
    }
}

/// Whether `index` occurs in `indices`.
fn occurs(indices: &Vec<usize>, index: usize) -> (res: bool)
    ensures
        res == indices@.contains(index),
{
    let mut i: usize = 0;
    while i < indices.len()
        invariant
            i <= indices.len(),
            forall|j: int| 0 <= j < i ==> indices@[j] != index,
        decreases indices.len() - i,
    {
        if indices[i] == index {
            return true;
        }
        i = i + 1;
    }
    false
}

impl PatternRepairEngine {
    /// Nothing to repair when the report has no violations. Otherwise a new draft holding the
    /// steps that no blocking violation points at, in order and unchanged (idempotency keys
    /// included), whose rationale notes how many blocking violations there were.
    pub fn repair(&self, draft: &PlanDraft, report: &VerificationReport) -> (res: Option<
        PlanDraft,
    >)
        ensures
            report.violations@.len() == 0 ==> res is None,
            report.violations@.len() > 0 ==> (res matches Some(fixed) && fixed.steps@ == retained(
                draft.steps@,
                blocking_indices(views(report.violations@)),
            ) && fixed.rationale@ == repaired_rationale(
                draft.rationale@,
                blocking_indices(views(report.violations@)).len(),
            )),
    {
        if report.violations.len() == 0 {
            return None;
        }
        let violations = &report.violations;
        let mut blocked: Vec<usize> = Vec::new();
        let mut i: usize = 0;
        while i < violations.len()
            invariant
                i <= violations.len(),
                blocked@ == blocking_indices(views(violations@.subrange(0, i as int))),
            decreases violations.len() - i,
        {
            let ghost prefix = violations@.subrange(0, i + 1);
            assert(views(prefix).drop_last() =~= views(violations@.subrange(0, i as int)));
            assert(views(prefix).last() == violations@[i as int]@);
            if violations[i].severity == Severity::Blocking {
                blocked.push(violations[i].step_index);
            }
            i = i + 1;
        }
        assert(violations@.subrange(0, violations@.len() as int) =~= violations@);
        let steps = &draft.steps;
        let mut kept: Vec<PlannedStep> = Vec::new();
        let mut j: usize = 0;
        while j < steps.len()
            invariant
                j <= steps.len(),
                kept@ == retained(steps@.subrange(0, j as int), blocked@),
            decreases steps.len() - j,
        {
            let ghost prefix = steps@.subrange(0, j + 1);
            assert(prefix.drop_last() =~= steps@.subrange(0, j as int));
            if !occurs(&blocked, j) {
                kept.push(steps[j].clone());
            }
            j = j + 1;
        }
        assert(steps@.subrange(0, steps@.len() as int) =~= steps@);
        let mut rationale = draft.rationale.clone();
        rationale.append(" (repaired: removed ");
        let count = u64_text(blocked.len() as u64);
        rationale.append(count.as_str());
        rationale.append(" blocking steps)");
        Some(PlanDraft { steps: kept, rationale })
    }
}

/// Each step of a repaired draft is an unblocked step of the input draft, unchanged; every
/// unblocked step of the input draft is kept.
pub proof fn lemma_retained_steps(steps: Seq<PlannedStep>, blocked: Seq<usize>)
    ensures
        forall|j: int|
            0 <= j < retained(steps, blocked).len() ==> exists|i: int|
                0 <= i < steps.len() && !blocked.contains(i as usize) && #[trigger] retained(
                    steps,
                    blocked,
                )[j] == steps[i],
        forall|i: int|
            0 <= i < steps.len() && !blocked.contains(i as usize) ==> retained(
                steps,
                blocked,
            ).contains(#[trigger] steps[i]),
        retained(steps, blocked).len() <= steps.len(),
    decreases steps.len(),
{
    if steps.len() > 0 {
        let rest = steps.drop_last();
        lemma_retained_steps(rest, blocked);
        let r = retained(steps, blocked);
        let rr = retained(rest, blocked);
        assert forall|j: int| 0 <= j < r.len() implies exists|i: int|
            0 <= i < steps.len() && !blocked.contains(i as usize) && #[trigger] r[j] == steps[i] by {
            if j < rr.len() {
                assert(r[j] == rr[j]);
                let i = choose|i: int|
                    0 <= i < rest.len() && !blocked.contains(i as usize) && rr[j] == rest[i];
                assert(steps[i] == rest[i]);
            } else {
                assert(r[j] == steps[steps.len() - 1]);
            }
        }
        assert forall|i: int| 0 <= i < steps.len() && !blocked.contains(i as usize) implies r.contains(
            #[trigger] steps[i],
        ) by {
            if i < rest.len() {
                assert(steps[i] == rest[i]);
                assert(rr.contains(rest[i]));
                let k = choose|k: int| 0 <= k < rr.len() && rr[k] == rest[i];
                assert(r[k] == rr[k]);
            } else {
                assert(r[r.len() - 1] == steps[i]);
            }
        }
    }
}

/// The blocking indices of the empty-action rule's report are exactly the indices of the
/// steps with an empty action.
proof fn lemma_empty_action_blocking(steps: Seq<PlannedStep>)
    requires
        steps.len() <= usize::MAX,
    ensures
        forall|i: int|
            0 <= i < steps.len() ==> (blocking_indices(empty_action_violations(steps)).contains(
                i as usize,
            ) <==> (#[trigger] steps[i]).action@.len() == 0),
        forall|i: int|
            0 <= i < blocking_indices(empty_action_violations(steps)).len() ==> #[trigger] blocking_indices(
                empty_action_violations(steps),
            )[i] < steps.len(),
    decreases steps.len(),
{
    if steps.len() > 0 {
        let rest = steps.drop_last();
        lemma_empty_action_blocking(rest);
        let b = blocking_indices(empty_action_violations(steps));
        let br = blocking_indices(empty_action_violations(rest));
        let n = steps.len() - 1;
        if steps.last().action@.len() == 0 {
            assert(empty_action_violations(steps).drop_last() == empty_action_violations(rest));
            assert(b == br.push(n as usize));
        } else {
            assert(b == br);
        }
        assert forall|i: int| 0 <= i < steps.len() implies (b.contains(i as usize) <==> (
        #[trigger] steps[i]).action@.len() == 0) by {
            if i < n {
                assert(steps[i] == rest[i]);
                if b.contains(i as usize) {
                    let k = choose|k: int| 0 <= k < b.len() && b[k] == i as usize;
                    if k < br.len() {
                        assert(br[k] == i as usize);
                    }
                }
                if br.contains(i as usize) {
                    let k = choose|k: int| 0 <= k < br.len() && br[k] == i as usize;
                    assert(b[k] == br[k]);
                }
            } else {
                if b.contains(i as usize) && steps.last().action@.len() != 0 {
                    let k = choose|k: int| 0 <= k < b.len() && b[k] == i as usize;
                    assert(br[k] < rest.len());
                }
                if steps.last().action@.len() == 0 {
                    assert(b[b.len() - 1] == n as usize);
                }
            }
        }
    }
}

/// Steps without an empty action give the empty-action rule nothing to report.
proof fn lemma_no_empty_actions(steps: Seq<PlannedStep>)
    requires
        forall|i: int| 0 <= i < steps.len() ==> (#[trigger] steps[i]).action@.len() != 0,
    ensures
        empty_action_violations(steps).len() == 0,
    decreases steps.len(),
{
    if steps.len() > 0 {
        let rest = steps.drop_last();
        assert forall|i: int| 0 <= i < rest.len() implies (#[trigger] rest[i]).action@.len() != 0 by {
            assert(rest[i] == steps[i]);
        }
        lemma_no_empty_actions(rest);
        assert(steps.last() == steps[steps.len() - 1]);
    }
}

/// Repair undoes what the default verifier rejects: after the steps named by its blocking
/// violations are removed, the empty-action rule finds nothing more.
pub proof fn lemma_repair_clears_empty_actions(steps: Seq<PlannedStep>)
    requires
        steps.len() <= usize::MAX,
    ensures
        empty_action_violations(
            retained(steps, blocking_indices(empty_action_violations(steps))),
        ).len() == 0,
{
    let blocked = blocking_indices(empty_action_violations(steps));
    let kept = retained(steps, blocked);
    lemma_empty_action_blocking(steps);
    lemma_retained_steps(steps, blocked);
    assert forall|j: int| 0 <= j < kept.len() implies (#[trigger] kept[j]).action@.len() != 0 by {
        let i = choose|i: int| 0 <= i < steps.len() && !blocked.contains(i as usize) && kept[j] == steps[i];
    }
    lemma_no_empty_actions(kept);
}

/// The steps whose action is not empty, in order.
pub open spec fn non_empty_actions(steps: Seq<PlannedStep>) -> Seq<PlannedStep>
    decreases steps.len(),
{
    if steps.len() == 0 {
        Seq::empty()
    } else {
        let rest = non_empty_actions(steps.drop_last());
        if steps.last().action@.len() != 0 {
            rest.push(steps.last())
        } else {
            rest
        }
    }
}

/// Removing the steps named in `blocked` keeps exactly the steps with an action, when
/// `blocked` names exactly the steps without one.
proof fn lemma_retained_non_empty(steps: Seq<PlannedStep>, blocked: Seq<usize>)
    requires
        steps.len() <= usize::MAX,
        forall|i: int|
            0 <= i < steps.len() ==> (blocked.contains(i as usize) <==> (#[trigger] steps[i]).action@.len()
                == 0),
    ensures
        retained(steps, blocked) == non_empty_actions(steps),
    decreases steps.len(),
{
    if steps.len() > 0 {
        let rest = steps.drop_last();
        assert forall|i: int| 0 <= i < rest.len() implies (blocked.contains(i as usize) <==> (
        #[trigger] rest[i]).action@.len() == 0) by {
            assert(rest[i] == steps[i]);
        }
        lemma_retained_non_empty(rest, blocked);
        assert(steps[steps.len() - 1] == steps.last());
    }
}

/// One repair of what the default verifier reports keeps exactly the steps whose action is
/// not empty, in order and unchanged.
pub proof fn lemma_repair_keeps_non_empty_actions(steps: Seq<PlannedStep>)
    requires
        steps.len() <= usize::MAX,
    ensures
        retained(steps, blocking_indices(empty_action_violations(steps))) == non_empty_actions(
            steps,
        ),
{
    lemma_empty_action_blocking(steps);
    lemma_retained_non_empty(steps, blocking_indices(empty_action_violations(steps)));
}

/// Every blocking violation counts, whatever its layer or rule: a step index is named for
/// removal exactly when some violation with `Blocking` severity points at it.
pub proof fn lemma_blocking_indices_exact(violations: Seq<ViolationView>)
    ensures
        forall|i: usize|
            #[trigger] blocking_indices(violations).contains(i) <==> exists|k: int|
                0 <= k < violations.len() && violations[k].severity == Severity::Blocking
                    && violations[k].step_index == i,
    decreases violations.len(),
{
    if violations.len() > 0 {
        let rest = violations.drop_last();
        lemma_blocking_indices_exact(rest);
        let b = blocking_indices(violations);
        let br = blocking_indices(rest);
        let last = violations.last();
        assert forall|i: usize| #[trigger] b.contains(i) <==> exists|k: int|
            0 <= k < violations.len() && violations[k].severity == Severity::Blocking
                && violations[k].step_index == i by {
            if b.contains(i) {
                let j = choose|j: int| 0 <= j < b.len() && b[j] == i;
                if j < br.len() {
                    assert(br[j] == b[j]);
                    assert(br.contains(i));
                    let k = choose|k: int|
                        0 <= k < rest.len() && rest[k].severity == Severity::Blocking
                            && rest[k].step_index == i;
                    assert(violations[k] == rest[k]);
                } else {
                    assert(violations[violations.len() - 1] == last);
                }
            }
            if exists|k: int|
                0 <= k < violations.len() && violations[k].severity == Severity::Blocking
                    && violations[k].step_index == i {
                let k = choose|k: int|
                    0 <= k < violations.len() && violations[k].severity == Severity::Blocking
                        && violations[k].step_index == i;
                if k < rest.len() {
                    assert(rest[k] == violations[k]);
                    assert(br.contains(i));
                    let j = choose|j: int| 0 <= j < br.len() && br[j] == i;
                    assert(b[j] == br[j]);
                } else {
                    assert(last == violations[k]);
                    assert(b[b.len() - 1] == i);
                }
            }
        }
    }
}

/// Removing the steps named in `blocked` removes at least one step when it names a step that
/// is there.
proof fn lemma_retained_shrinks(steps: Seq<PlannedStep>, blocked: Seq<usize>, i: int)
    requires
        0 <= i < steps.len(),
        blocked.contains(i as usize),
    ensures
        retained(steps, blocked).len() < steps.len(),
    decreases steps.len(),
{
    lemma_retained_steps(steps.drop_last(), blocked);
    if i < steps.len() - 1 {
        lemma_retained_shrinks(steps.drop_last(), blocked, i);
    }
}

/// A blocking violation pointing at a step of the draft, from any layer, takes that step out:
/// the repaired draft is shorter than the draft.
pub proof fn lemma_blocked_step_is_removed(steps: Seq<PlannedStep>, violations: Seq<ViolationView>, k: int)
    requires
        0 <= k < violations.len(),
        violations[k].severity == Severity::Blocking,
        violations[k].step_index < steps.len(),
    ensures
        blocking_indices(violations).contains(violations[k].step_index),
        retained(steps, blocking_indices(violations)).len() < steps.len(),
{
    lemma_blocking_indices_exact(violations);
    assert(blocking_indices(violations).contains(violations[k].step_index));
    lemma_retained_shrinks(steps, blocking_indices(violations), violations[k].step_index as int);
}

} // verus!
