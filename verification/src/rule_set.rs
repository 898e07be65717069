//! Layered rule verification: rules are grouped by verification layer and run from the lowest
//! layer up, stopping after the first layer that leaves a blocking violation.
use vstd::prelude::*;

use crate::text::owned;
use crate::types::{
    any_blocking, has_blocking, views, PlanDraft, PlannedStep, Severity, VerificationLayer,
    VerificationReport, Violation, ViolationView, LAYER_COUNT,
};

verus! {

/// A check that belongs to one verification layer. A rule states its layer and what it finds
/// as spec functions, and its `layer` and `check` are verified against them.
pub trait LayerRule: Send + Sync {
    /// The layer this rule belongs to.
    spec fn spec_layer(&self) -> VerificationLayer;

    /// What this rule reports on `draft`.
    spec fn findings(&self, draft: PlanDraft) -> Seq<ViolationView>;

    /// The layer this rule belongs to.
    fn layer(&self) -> (res: VerificationLayer)
        ensures
            res == self.spec_layer(),
    ;

    /// The rule's identifier.
    fn rule_id(&self) -> &str;

    /// The violations this rule finds in `draft`.
    fn check(&self, draft: &PlanDraft) -> (res: Vec<Violation>)
        ensures
            views(res@) == self.findings(*draft),
    ;
}

/// What the empty-action rule reports for each of `steps` that has an empty action, in order.
pub open spec fn empty_action_violations(steps: Seq<PlannedStep>) -> Seq<ViolationView>
    decreases steps.len(),
{
    if steps.len() == 0 {
        Seq::empty()
    } else {
        let rest = empty_action_violations(steps.drop_last());
        if steps.last().action@.len() == 0 {
            rest.push(
                ViolationView {
                    rule_id: "non-empty-action"@,
                    layer: VerificationLayer::L0Format,
                    severity: Severity::Blocking,
                    message: "step action must not be empty"@,
                    step_index: (steps.len() - 1) as usize,
                },
            )
        } else {
            rest
        }
    }
}

/// Rejects steps whose action is empty.
pub struct NonEmptyActionRule;

impl LayerRule for NonEmptyActionRule {
    open spec fn spec_layer(&self) -> VerificationLayer {
        VerificationLayer::L0Format
    }

    open spec fn findings(&self, draft: PlanDraft) -> Seq<ViolationView> {
        empty_action_violations(draft.steps@)
    }

    fn layer(&self) -> (res: VerificationLayer)
        ensures
            res == VerificationLayer::L0Format,
    {
        VerificationLayer::L0Format
    }

    fn rule_id(&self) -> (res: &str)
        ensures
            res@ == "non-empty-action"@,
    {
        proof {
            reveal_strlit("non-empty-action");
        }
        "non-empty-action"
    }

    /// One blocking violation per step with an empty action, in step order.
    fn check(&self, draft: &PlanDraft) -> (res: Vec<Violation>)
        ensures
            views(res@) == empty_action_violations(draft.steps@),
    {
        let steps = &draft.steps;
        let mut res: Vec<Violation> = Vec::new();
        let mut i: usize = 0;
        while i < steps.len()
            invariant
                i <= steps.len(),
                views(res@) == empty_action_violations(steps@.subrange(0, i as int)),
            decreases steps.len() - i,
        {
            let ghost prefix = steps@.subrange(0, i + 1);
            assert(prefix.drop_last() =~= steps@.subrange(0, i as int));
            if steps[i].action.as_str().is_empty() {
                proof {
                    assert(steps[i as int].action@.len() == 0);
                }
                let v = Violation {
                    rule_id: owned(self.rule_id()),
                    layer: self.layer(),
                    severity: Severity::Blocking,
                    message: owned("step action must not be empty"),
                    step_index: i,
                };
                res.push(v);
                assert(views(res@) =~= empty_action_violations(prefix));
            } else {
                proof {
                    assert(steps[i as int].action@.len() != 0);
                }
            }
            i = i + 1;
        }
        assert(steps@.subrange(0, steps@.len() as int) =~= steps@);
        res
    }
}

/// `rule`, boxed as a rule of the user's.
fn custom_entry<R: LayerRule + 'static>(rule: R) -> (res: RegisteredRule)
    ensures
        res == RegisteredRule::Custom(Box::new(rule)),
{
    RegisteredRule::Custom(Box::new(rule))
}

/// A registered rule: the built-in empty-action rule held by value, or a rule of the user's.
pub enum RegisteredRule {
    EmptyAction(NonEmptyActionRule),
    Custom(Box<dyn LayerRule>),
}

impl RegisteredRule {
    /// What the rule reports on `draft`: the empty actions for the built-in rule, and what a
    /// user's rule says it finds.
    pub open spec fn findings(self, draft: PlanDraft) -> Seq<ViolationView> {
        match self {
            RegisteredRule::EmptyAction(_) => empty_action_violations(draft.steps@),
            RegisteredRule::Custom(rule) => rule.findings(draft),
        }
    }

    /// What the rule reports on `draft`.
    pub fn check(&self, draft: &PlanDraft) -> (res: Vec<Violation>)
        ensures
            views(res@) == self.findings(*draft),
    {
        match self {
            RegisteredRule::EmptyAction(rule) => rule.check(draft),
            RegisteredRule::Custom(rule) => rule.check(draft),
        }
    }
}

/// The findings of the rules of one layer, concatenated in registration order.
pub open spec fn concat_findings(found: Seq<Seq<ViolationView>>) -> Seq<ViolationView>
    decreases found.len(),
{
    if found.len() == 0 {
        Seq::empty()
    } else {
        concat_findings(found.drop_last()) + found.last()
    }
}

/// Everything found by the first `k` layers that ran.
pub open spec fn found_by(found: Seq<Seq<Seq<ViolationView>>>, k: nat) -> Seq<ViolationView>
    decreases k,
{
    if k == 0 || found.len() < k {
        Seq::empty()
    } else {
        found_by(found, (k - 1) as nat) + concat_findings(found[k - 1])
    }
}

/// `found` holds, for each rule of a layer in order, what that rule finds in `draft`.
pub open spec fn layer_findings_fit(
    rules: Seq<RegisteredRule>,
    found: Seq<Seq<ViolationView>>,
    draft: PlanDraft,
) -> bool {
    &&& found.len() == rules.len()
    &&& forall|j: int| 0 <= j < rules.len() ==> found[j] == (#[trigger] rules[j]).findings(draft)
}

/// `found` is how a layered verification of `draft` can have gone: the layers ran from the
/// lowest up, each with the findings of its own rules; a layer ran only while nothing blocking
/// had been found; and the run stopped early only because something blocking had been found.
pub open spec fn layered_run(
    layers: Seq<Seq<RegisteredRule>>,
    found: Seq<Seq<Seq<ViolationView>>>,
    draft: PlanDraft,
) -> bool {
    &&& found.len() <= layers.len()
    &&& forall|k: int| 0 <= k < found.len() ==> layer_findings_fit(layers[k], #[trigger] found[k], draft)
    &&& forall|k: int| 0 <= k < found.len() ==> !any_blocking(#[trigger] found_by(found, k as nat))
    &&& found.len() == layers.len() || any_blocking(found_by(found, found.len()))
}

/// Runs registered rules layer by layer, lowest layer first.
pub struct RuleSetVerifier {
    rules: Vec<Vec<RegisteredRule>>,
}

impl RuleSetVerifier {
    /// The rules of each layer, indexed by layer, in registration order.
    pub closed spec fn layers(&self) -> Seq<Seq<RegisteredRule>> {
        self.rules@.map_values(|slot: Vec<RegisteredRule>| slot@)
    }

    /// There is one slot per layer.
    pub closed spec fn wf(&self) -> bool {
        self.rules@.len() == LAYER_COUNT
    }

    /// The layers hold the built-in empty-action rule alone.
    pub open spec fn only_builtin(&self) -> bool {
        &&& self.layers().len() == LAYER_COUNT
        &&& self.layers()[0] == seq![RegisteredRule::EmptyAction(NonEmptyActionRule)]
        &&& forall|k: int| 1 <= k < LAYER_COUNT ==> (#[trigger] self.layers()[k]).len() == 0
    }

    /// A verifier with the empty-action rule registered.
    pub fn new() -> (res: RuleSetVerifier)
        ensures
            res.wf(),
            res.only_builtin(),
    {
        let mut rules: Vec<Vec<RegisteredRule>> = Vec::new();
        let mut first: Vec<RegisteredRule> = Vec::new();
        first.push(RegisteredRule::EmptyAction(NonEmptyActionRule));
        rules.push(first);
        let mut k: usize = 1;
        while k < LAYER_COUNT
            invariant
                1 <= k <= LAYER_COUNT,
                rules@.len() == k,
                rules@[0]@ == seq![RegisteredRule::EmptyAction(NonEmptyActionRule)],
                forall|i: int| 1 <= i < k ==> (#[trigger] rules@[i])@.len() == 0,
            decreases LAYER_COUNT - k,
        {
            rules.push(Vec::new());
            k = k + 1;
        }
        let v = RuleSetVerifier { rules };
        proof {
            assert forall|i: int| 1 <= i < LAYER_COUNT implies (#[trigger] v.layers()[i]).len() == 0 by {
                assert(v.layers()[i] == v.rules@[i]@);
            }
        }
        v
    }

    /// Adds `rule` after the rules already registered for the layer it names.
    pub fn register<R: LayerRule + 'static>(&mut self, rule: R)
        requires
            old(self).wf(),
        ensures
            final(self).wf(),
            final(self).layers() == old(self).layers().update(
                rule.spec_layer().spec_index() as int,
                old(self).layers()[rule.spec_layer().spec_index() as int].push(
                    RegisteredRule::Custom(Box::new(rule)),
                ),
            ),
    {
        let k = rule.layer().index();
        let ghost before = self.rules@;
        let entry = custom_entry(rule);
        let ghost entry_view = entry;
        let mut slot = self.rules.remove(k);
        assert(slot == before[k as int]);
        slot.push(entry);
        let ghost new_slot = slot;
        self.rules.insert(k, slot);
        proof {
            assert(self.rules@[k as int] == new_slot);
            assert forall|i: int| 0 <= i < LAYER_COUNT && i != k implies self.rules@[i] == before[i] by {
            }
            let old_layers = before.map_values(|slot: Vec<RegisteredRule>| slot@);
            assert(self.layers() =~= old_layers.update(
                k as int,
                old_layers[k as int].push(entry_view),
            ));
        }
    }

    /// Checks `draft` layer by layer, from the lowest, and reports every violation found,
    /// stopping after the first layer that leaves a blocking violation; the draft passes when
    /// none is blocking.
    pub fn verify(&self, draft: &PlanDraft) -> (res: VerificationReport)
        requires
            self.wf(),
        ensures
            exists|found: Seq<Seq<Seq<ViolationView>>>|
                layered_run(self.layers(), found, *draft) && views(res.violations@) == #[trigger] found_by(
                    found,
                    found.len(),
                ),
            res.passed == !any_blocking(views(res.violations@)),
    {
        let mut violations: Vec<Violation> = Vec::new();
        let ghost mut found: Seq<Seq<Seq<ViolationView>>> = Seq::empty();
        let mut k: usize = 0;
        while k < LAYER_COUNT
            invariant
                self.wf(),
                k <= LAYER_COUNT,
                found.len() == k,
                forall|i: int| 0 <= i < k ==> layer_findings_fit(self.layers()[i], #[trigger] found[i], *draft),
                forall|i: int| 0 <= i < k ==> !any_blocking(#[trigger] found_by(found, i as nat)),
                views(violations@) == found_by(found, k as nat),
            ensures
                found.len() <= LAYER_COUNT,
                forall|i: int| 0 <= i < found.len() ==> layer_findings_fit(self.layers()[i], #[trigger] found[i], *draft),
                forall|i: int| 0 <= i < found.len() ==> !any_blocking(#[trigger] found_by(found, i as nat)),
                found.len() == LAYER_COUNT || any_blocking(found_by(found, found.len())),
                views(violations@) == found_by(found, found.len()),
            decreases LAYER_COUNT - k,
        {
            if has_blocking(&violations) {
                break;
            }
            let slot = &self.rules[k];
            assert(slot@ == self.layers()[k as int]);
            let ghost base = views(violations@);
            let ghost mut layer: Seq<Seq<ViolationView>> = Seq::empty();
            let mut j: usize = 0;
            while j < slot.len()
                invariant
                    j <= slot.len(),
                    layer.len() == j,
                    slot@ == self.layers()[k as int],
                    forall|i: int| 0 <= i < j ==> layer[i] == (#[trigger] slot@[i]).findings(*draft),
                    views(violations@) == base + concat_findings(layer),
                decreases slot.len() - j,
            {
                let mut more = slot[j].check(draft);
                let ghost prior = violations@;
                let ghost these = views(more@);
                violations.append(&mut more);
                proof {
                    assert(layer.push(these).drop_last() =~= layer);
                    assert(views(violations@) =~= views(prior) + these);
                    assert(base + concat_findings(layer.push(these)) =~= base + concat_findings(layer) + these);
                    layer = layer.push(these);
                }
                j = j + 1;
            }
            proof {
                let next = found.push(layer);
                assert forall|i: int| 0 <= i <= k implies #[trigger] found_by(next, i as nat) == found_by(found, i as nat) || i == k + 1 by {
                    lemma_found_by_prefix(found, layer, i as nat);
                }
                lemma_found_by_prefix(found, layer, k as nat);
                assert(next[k as int] == layer);
                assert(found_by(next, (k + 1) as nat) == found_by(next, k as nat) + concat_findings(layer));
                assert forall|i: int| 0 <= i < k + 1 implies layer_findings_fit(self.layers()[i], #[trigger] next[i], *draft) by {
                    if i < k {
                        assert(next[i] == found[i]);
                    }
                }
                assert forall|i: int| 0 <= i < k + 1 implies !any_blocking(#[trigger] found_by(next, i as nat)) by {
                    lemma_found_by_prefix(found, layer, i as nat);
                }
                found = next;
            }
            k = k + 1;
        }
        let passed = !has_blocking(&violations);
        VerificationReport { passed, violations }
    }
}

/// Extending the run by one layer leaves what the earlier layers found unchanged.
proof fn lemma_found_by_prefix(found: Seq<Seq<Seq<ViolationView>>>, layer: Seq<Seq<ViolationView>>, i: nat)
    requires
        i <= found.len(),
    ensures
        found_by(found.push(layer), i) == found_by(found, i),
    decreases i,
{
    if i > 0 {
        lemma_found_by_prefix(found, layer, (i - 1) as nat);
        assert(found.push(layer)[i - 1] == found[i - 1]);
    }
}

/// Layers without rules find nothing, so after the first layer nothing is added.
proof fn lemma_builtin_run(found: Seq<Seq<Seq<ViolationView>>>, layers: Seq<Seq<RegisteredRule>>, draft: PlanDraft, k: nat)
    requires
        1 <= k <= found.len(),
        layers.len() == LAYER_COUNT,
        layers[0] == seq![RegisteredRule::EmptyAction(NonEmptyActionRule)],
        forall|i: int| 1 <= i < LAYER_COUNT ==> (#[trigger] layers[i]).len() == 0,
        layered_run(layers, found, draft),
    ensures
        found_by(found, k) == empty_action_violations(draft.steps@),
    decreases k,
{
    assert(layer_findings_fit(layers[0], found[0], draft));
    if k == 1 {
        assert(layers[0][0] is EmptyAction);
        assert(found[0].len() == 1);
        assert(found[0][0] == empty_action_violations(draft.steps@));
        assert(found[0].drop_last() =~= Seq::<Seq<ViolationView>>::empty());
        assert(concat_findings(found[0].drop_last()) =~= Seq::<ViolationView>::empty());
        assert(found[0].last() == found[0][0]);
        assert(concat_findings(found[0]) =~= found[0][0]);
        assert(found_by(found, 0) =~= Seq::<ViolationView>::empty());
        assert(found_by(found, 1) =~= empty_action_violations(draft.steps@));
    } else {
        lemma_builtin_run(found, layers, draft, (k - 1) as nat);
        assert(layer_findings_fit(layers[k - 1], found[k - 1], draft));
        assert(found[k - 1] =~= Seq::<Seq<ViolationView>>::empty());
        assert(found_by(found, k) =~= found_by(found, (k - 1) as nat));
    }
}

/// The default verifier reports exactly the steps with an empty action: whatever else, its
/// only rule is the built-in one, so any way its verification can go finds those violations.
pub proof fn lemma_default_verifier_is_exact(
    verifier: RuleSetVerifier,
    found: Seq<Seq<Seq<ViolationView>>>,
    draft: PlanDraft,
)
    requires
        verifier.only_builtin(),
        layered_run(verifier.layers(), found, draft),
    ensures
        found_by(found, found.len()) == empty_action_violations(draft.steps@),
{
    let layers = verifier.layers();
    if found.len() == 0 {
        assert(any_blocking(found_by(found, 0)));
        assert(found_by(found, 0) =~= Seq::<ViolationView>::empty());
        assert(false);
    } else {
        lemma_builtin_run(found, layers, draft, found.len());
    }
}

/// A draft that passes has been checked by every layer: the run stops early only on a
/// blocking violation.
pub proof fn lemma_passing_runs_every_layer(
    layers: Seq<Seq<RegisteredRule>>,
    found: Seq<Seq<Seq<ViolationView>>>,
    draft: PlanDraft,
)
    requires
        layered_run(layers, found, draft),
        !any_blocking(found_by(found, found.len())),
    ensures
        found.len() == layers.len(),
{
}

impl Default for RuleSetVerifier {
    fn default() -> (res: RuleSetVerifier)
        ensures
            res.wf(),
            res.only_builtin(),
    {
        RuleSetVerifier::new()
    }
}

} // verus!
