//! Formal-of-thought verification: grounded yes/no facts are composed into safety clauses,
//! and a deterministic verifier decides whether the clauses hold.
use vstd::prelude::*;

use crate::text::{join, owned, texts, join_texts};

verus! {

/// A yes/no question about a trajectory, tied to a verification layer by number.
pub struct AtomicFact {
    pub id: String,
    pub query: String,
    pub layer: u8,
}

/// An atomic fact with the answer found for it and the evidence for that answer.
pub struct GroundedFact {
    pub fact: AtomicFact,
    pub value: bool,
    pub evidence: String,
}

/// The grounded facts read off a slice of a trajectory.
pub struct GroundedExtraction {
    pub facts: Vec<GroundedFact>,
    pub trajectory_span: std::ops::Range<usize>,
}

/// How a clause combines with the others.
#[derive(Clone, Copy, Debug, PartialEq, Eq, Structural)]
pub enum ClauseCombinator {
    And,
    Or,
    Not,
    Leaf,
}

/// A constraint on one grounded fact; advisory clauses are never enforced.
pub struct SafetyClause {
    pub fact_id: String,
    pub advisory: bool,
    pub combinator: ClauseCombinator,
}

/// The clauses a plan must satisfy, with room for a formal rendering of them.
pub struct FormalSpec {
    pub clauses: Vec<SafetyClause>,
    pub formal_text: Option<String>,
}

/// The verdict on a formal specification.
pub enum ProofVerdict {
    Safe,
    Unsafe { violated_facts: Vec<String> },
    Unknown { reason: String },
}

/// How far an agent's deception goes.
#[derive(Clone, Copy, Debug, PartialEq, Eq, Structural)]
pub enum DeceptionLevel {
    L1SimpleOmission,
    L2SelectiveReporting,
    L3FabricatedProvenance,
    L4MultiStepDeception,
}

/// Whether deception was found, how far it went, and the facts that show it.
pub struct DeceptionReport {
    pub detected: bool,
    pub level: Option<DeceptionLevel>,
    pub evidence_fact_ids: Vec<String>,
}

impl DeceptionReport {
    /// The report that finds nothing.
    pub fn none() -> (res: DeceptionReport)
        ensures
            !res.detected,
            res.level is None,
            res.evidence_fact_ids@.len() == 0,
    {
        DeceptionReport { detected: false, level: None, evidence_fact_ids: Vec::new() }
    }
}

/// Turns grounded facts into a specification and decides it.
pub trait FormalVerifier {
    fn synthesize(&self, extraction: &GroundedExtraction) -> FormalSpec;

    fn verify_spec(&self, spec: &FormalSpec, extraction: &GroundedExtraction) -> ProofVerdict;

    /// Looks for deception in the extraction. An implementation may detect it; the provided
    /// scan finds nothing.
    fn scan_deception(&self, extraction: &GroundedExtraction) -> (res: DeceptionReport)
        default_ensures
            !res.detected,
            res.level is None,
            res.evidence_fact_ids@.len() == 0,
    {
        DeceptionReport::none()
    }
}

/// The answer recorded for fact `id`: that of the last grounded fact with this id, as a later
/// entry replaces an earlier one in a lookup table.
pub open spec fn fact_value(facts: Seq<GroundedFact>, id: Seq<char>) -> Option<bool>
    decreases facts.len(),
{
    if facts.len() == 0 {
        None
    } else if facts.last().fact.id@ == id {
        Some(facts.last().value)
    } else {
        fact_value(facts.drop_last(), id)
    }
}

/// Whether one clause holds. A `Not` clause holds when its fact is false or absent; every
/// other clause holds when its fact is true or absent (the benefit of the doubt).
pub open spec fn clause_holds(clause: SafetyClause, facts: Seq<GroundedFact>) -> bool {
    match clause.combinator {
        ClauseCombinator::Not => !(match fact_value(facts, clause.fact_id@) {
            Some(v) => v,
            None => false,
        }),
        _ => match fact_value(facts, clause.fact_id@) {
            Some(v) => v,
            None => true,
        },
    }
}

/// The ids of the enforced clauses outside the `Or` group that fail, in order.
pub open spec fn plain_violations(clauses: Seq<SafetyClause>, facts: Seq<GroundedFact>) -> Seq<
    Seq<char>,
>
    decreases clauses.len(),
{
    if clauses.len() == 0 {
        Seq::empty()
    } else {
        let rest = plain_violations(clauses.drop_last(), facts);
        let c = clauses.last();
        if !c.advisory && c.combinator != ClauseCombinator::Or && !clause_holds(c, facts) {
            rest.push(c.fact_id@)
        } else {
            rest
        }
    }
}

/// The enforced `Or` clauses, in order.
pub open spec fn or_group(clauses: Seq<SafetyClause>) -> Seq<SafetyClause>
    decreases clauses.len(),
{
    if clauses.len() == 0 {
        Seq::empty()
    } else {
        let rest = or_group(clauses.drop_last());
        let c = clauses.last();
        if !c.advisory && c.combinator == ClauseCombinator::Or {
            rest.push(c)
        } else {
            rest
        }
    }
}

/// The group of enforced `Or` clauses is violated: it is not empty and none of it holds.
pub open spec fn or_group_violated(clauses: Seq<SafetyClause>, facts: Seq<GroundedFact>) -> bool {
    let group = or_group(clauses);
    group.len() > 0 && forall|i: int| 0 <= i < group.len() ==> !clause_holds(#[trigger] group[i], facts)
}

/// The ids of a sequence of clauses, in order.
pub open spec fn clause_ids(clauses: Seq<SafetyClause>) -> Seq<Seq<char>> {
    clauses.map_values(|c: SafetyClause| c.fact_id@)
}

/// How a violated `Or` group is reported: `or-group(` then its ids joined by commas, then `)`.
pub open spec fn or_group_label(clauses: Seq<SafetyClause>) -> Seq<char> {
    "or-group("@ + join(clause_ids(or_group(clauses)), ","@) + ")"@
}

/// Everything a specification reports as violated, in the order the verifier lists it.
pub open spec fn violated_facts(clauses: Seq<SafetyClause>, facts: Seq<GroundedFact>) -> Seq<
    Seq<char>,
> {
    plain_violations(clauses, facts) + if or_group_violated(clauses, facts) {
        seq![or_group_label(clauses)]
    } else {
        Seq::empty()
    }
}

/// `verdict` is the verdict on `clauses` given `facts`: safe when nothing is violated, unsafe
/// listing the violations otherwise.
pub open spec fn verdict_matches(
    verdict: ProofVerdict,
    clauses: Seq<SafetyClause>,
    facts: Seq<GroundedFact>,
) -> bool {
    match verdict {
        ProofVerdict::Safe => violated_facts(clauses, facts).len() == 0,
        ProofVerdict::Unsafe { violated_facts: v } => violated_facts(clauses, facts).len() > 0
            && texts(v@) == violated_facts(clauses, facts),
        ProofVerdict::Unknown { .. } => false,
    }
}

/// The clause that `synthesize` makes for a grounded fact: an enforced leaf on its id.
pub open spec fn leaf_clause_for(fact: GroundedFact) -> SafetyClause {
    SafetyClause { fact_id: fact.fact.id, advisory: false, combinator: ClauseCombinator::Leaf }
}

/// The answer recorded for `id` among `facts`.
pub fn lookup_fact(facts: &Vec<GroundedFact>, id: &String) -> (res: Option<bool>)
    ensures
        res == fact_value(facts@, id@),
{
    let mut found: Option<bool> = None;
    let mut i: usize = 0;
    while i < facts.len()
        invariant
            i <= facts.len(),
            found == fact_value(facts@.subrange(0, i as int), id@),
        decreases facts.len() - i,
    {
        assert(facts@.subrange(0, i + 1).drop_last() =~= facts@.subrange(0, i as int));
        if facts[i].fact.id == *id {
            found = Some(facts[i].value);
        }
        i = i + 1;
    }
    assert(facts@.subrange(0, facts@.len() as int) =~= facts@);
    found
}

/// Whether `clause` holds given `facts`.
pub fn evaluate_clause(clause: &SafetyClause, facts: &Vec<GroundedFact>) -> (res: bool)
    ensures
        res == clause_holds(*clause, facts@),
{
    let direct = lookup_fact(facts, &clause.fact_id);
    match clause.combinator {
        ClauseCombinator::Not => !match direct {
            Some(v) => v,
            None => false,
        },
        _ => match direct {
            Some(v) => v,
            None => true,
        },
    }
}

/// The verifier that decides clauses by looking up the grounded answers.
pub struct NoOpFormalVerifier;

impl Default for NoOpFormalVerifier {
    fn default() -> (res: NoOpFormalVerifier) {
        NoOpFormalVerifier
    }
}

impl FormalVerifier for NoOpFormalVerifier {
    /// One enforced leaf clause per grounded fact, in order, and no formal text.
    fn synthesize(&self, extraction: &GroundedExtraction) -> (res: FormalSpec)
        ensures
            res.clauses@ == extraction.facts@.map_values(|f: GroundedFact| leaf_clause_for(f)),
            res.formal_text is None,
    {
        let facts = &extraction.facts;
        let mut clauses: Vec<SafetyClause> = Vec::new();
        let mut i: usize = 0;
        while i < facts.len()
            invariant
                i <= facts.len(),
                clauses@ == facts@.subrange(0, i as int).map_values(
                    |f: GroundedFact| leaf_clause_for(f),
                ),
            decreases facts.len() - i,
        {
            clauses.push(
                SafetyClause {
                    fact_id: facts[i].fact.id.clone(),
                    advisory: false,
                    combinator: ClauseCombinator::Leaf,
                },
            );
            i = i + 1;
            assert(clauses@ =~= facts@.subrange(0, i as int).map_values(
                |f: GroundedFact| leaf_clause_for(f),
            ));
        }
        assert(facts@.subrange(0, facts@.len() as int) =~= facts@);
        FormalSpec { clauses, formal_text: None }
    }

    /// Safe exactly when every enforced clause outside the `Or` group holds and, if there are
    /// enforced `Or` clauses, at least one of them holds; otherwise unsafe, listing the failing
    /// ids and then, if the `Or` group failed, its label.
    fn verify_spec(&self, spec: &FormalSpec, extraction: &GroundedExtraction) -> (res:
        ProofVerdict)
        ensures
            verdict_matches(res, spec.clauses@, extraction.facts@),
    {
        let clauses = &spec.clauses;
        let facts = &extraction.facts;
        let ghost fs = facts@;
        let mut violated: Vec<String> = Vec::new();
        let mut or_ids: Vec<String> = Vec::new();
        let mut or_any_holds = false;
        let mut i: usize = 0;
        while i < clauses.len()
            invariant
                i <= clauses.len(),
                fs == facts@,
                texts(violated@) == plain_violations(clauses@.subrange(0, i as int), fs),
                texts(or_ids@) == clause_ids(or_group(clauses@.subrange(0, i as int))),
                or_any_holds == exists|j: int|
                    0 <= j < or_group(clauses@.subrange(0, i as int)).len() && clause_holds(
                        #[trigger] or_group(clauses@.subrange(0, i as int))[j],
                        fs,
                    ),
            decreases clauses.len() - i,
        {
            let ghost prefix = clauses@.subrange(0, i as int);
            let ghost next = clauses@.subrange(0, i + 1);
            assert(next.drop_last() =~= prefix);
            let c = &clauses[i];
            if !c.advisory {
                let holds = evaluate_clause(c, facts);
                if c.combinator == ClauseCombinator::Or {
                    let ghost old_ids = or_ids@;
                    or_ids.push(c.fact_id.clone());
                    if holds {
                        or_any_holds = true;
                    }
                    proof {
                        assert(or_group(next) == or_group(prefix).push(*c));
                        assert(texts(or_ids@) =~= texts(old_ids).push(c.fact_id@));
                        assert(clause_ids(or_group(prefix).push(*c)) =~= clause_ids(
                            or_group(prefix),
                        ).push(c.fact_id@));
                        assert(texts(or_ids@) =~= clause_ids(or_group(next)));
                        if holds {
                            assert(or_group(next)[or_group(prefix).len() as int] == *c);
                        } else {
                            assert forall|j: int|
                                0 <= j < or_group(next).len() && clause_holds(
                                    #[trigger] or_group(next)[j],
                                    fs,
                                ) implies 0 <= j < or_group(prefix).len() && clause_holds(
                                or_group(prefix)[j],
                                fs,
                            ) by {
                                if j < or_group(prefix).len() {
                                    assert(or_group(next)[j] == or_group(prefix)[j]);
                                }
                            }
                        }
                        assert forall|j: int|
                            0 <= j < or_group(prefix).len() && clause_holds(
                                #[trigger] or_group(prefix)[j],
                                fs,
                            ) implies 0 <= j < or_group(next).len() && clause_holds(
                            or_group(next)[j],
                            fs,
                        ) by {
                            assert(or_group(next)[j] == or_group(prefix)[j]);
                        }
                    }
                } else if !holds {
                    violated.push(c.fact_id.clone());
                    proof {
                        assert(texts(violated@) =~= plain_violations(next, fs));
                    }
                }
            }
            i = i + 1;
        }
        assert(clauses@.subrange(0, clauses@.len() as int) =~= clauses@);
        let ghost group = or_group(clauses@);
        if or_ids.len() > 0 && !or_any_holds {
            proof {
                assert(group.len() > 0) by {
                    assert(texts(or_ids@).len() == or_ids@.len());
                }
                assert forall|j: int| 0 <= j < group.len() implies !clause_holds(
                    #[trigger] group[j],
                    fs,
                ) by {}
            }
            let mut label = owned("or-group(");
            let ids = join_texts(&or_ids, ",");
            label.append(ids.as_str());
            label.append(")");
            violated.push(label);
            proof {
                assert(texts(violated@) =~= violated_facts(clauses@, fs));
            }
        } else {
            proof {
                if group.len() > 0 {
                    assert(texts(or_ids@).len() == or_ids@.len());
                    let j = choose|j: int| 0 <= j < group.len() && clause_holds(#[trigger] group[j], fs);
                    assert(!or_group_violated(clauses@, fs));
                }
                assert(violated_facts(clauses@, fs) =~= plain_violations(clauses@, fs));
            }
        }
        if violated.len() == 0 {
            ProofVerdict::Safe
        } else {
            ProofVerdict::Unsafe { violated_facts: violated }
        }
    }
}

/// Advisory clauses are never enforced: adding one to a specification leaves the list of
/// violations, and so the verdict, unchanged.
pub proof fn lemma_advisory_clause_changes_nothing(
    clauses: Seq<SafetyClause>,
    advisory: SafetyClause,
    facts: Seq<GroundedFact>,
)
    requires
        advisory.advisory,
    ensures
        violated_facts(clauses.push(advisory), facts) == violated_facts(clauses, facts),
{
    assert(clauses.push(advisory).drop_last() =~= clauses);
    assert(plain_violations(clauses.push(advisory), facts) == plain_violations(clauses, facts));
    assert(or_group(clauses.push(advisory)) == or_group(clauses));
}

/// For a fact that is recorded, a `Not` clause on it holds exactly when a leaf clause on it
/// fails.
pub proof fn lemma_negation_is_dual(
    fact_id: String,
    advisory: bool,
    facts: Seq<GroundedFact>,
)
    requires
        fact_value(facts, fact_id@) is Some,
    ensures
        clause_holds(SafetyClause { fact_id, advisory, combinator: ClauseCombinator::Not }, facts)
            <==> !clause_holds(
            SafetyClause { fact_id, advisory, combinator: ClauseCombinator::Leaf },
            facts,
        ),
{
}

/// Every fact of a sequence has a recorded answer.
proof fn lemma_fact_recorded(facts: Seq<GroundedFact>, i: int)
    requires
        0 <= i < facts.len(),
    ensures
        fact_value(facts, facts[i].fact.id@) is Some,
    decreases facts.len(),
{
    if facts.last().fact.id@ != facts[i].fact.id@ {
        lemma_fact_recorded(facts.drop_last(), i);
    }
}

/// When no two facts share an id, the recorded answer of each fact is its own value.
proof fn lemma_distinct_fact_value(facts: Seq<GroundedFact>, i: int)
    requires
        0 <= i < facts.len(),
        forall|a: int, b: int|
            0 <= a < facts.len() && 0 <= b < facts.len() && a != b ==> #[trigger] facts[a].fact.id@
                != #[trigger] facts[b].fact.id@,
    ensures
        fact_value(facts, facts[i].fact.id@) == Some(facts[i].value),
    decreases facts.len(),
{
    if i != facts.len() - 1 {
        assert(facts.last() == facts[facts.len() - 1]);
        lemma_distinct_fact_value(facts.drop_last(), i);
    }
}

/// The leaf clauses for the first `k` facts produce no `Or` group, and their violations are
/// empty exactly when each of their clauses holds.
proof fn lemma_leaf_prefix(facts: Seq<GroundedFact>, k: int)
    requires
        0 <= k <= facts.len(),
    ensures
        or_group(facts.subrange(0, k).map_values(|f: GroundedFact| leaf_clause_for(f))).len()
            == 0,
        plain_violations(
            facts.subrange(0, k).map_values(|f: GroundedFact| leaf_clause_for(f)),
            facts,
        ).len() == 0 <==> forall|i: int|
            0 <= i < k ==> clause_holds(#[trigger] leaf_clause_for(facts[i]), facts),
    decreases k,
{
    let cs = facts.subrange(0, k).map_values(|f: GroundedFact| leaf_clause_for(f));
    if k > 0 {
        let prev = facts.subrange(0, k - 1).map_values(|f: GroundedFact| leaf_clause_for(f));
        assert(cs.drop_last() =~= prev);
        assert(cs.last() == leaf_clause_for(facts[k - 1]));
        lemma_leaf_prefix(facts, k - 1);
        if plain_violations(prev, facts).len() == 0 && clause_holds(
            leaf_clause_for(facts[k - 1]),
            facts,
        ) {
            assert forall|i: int| 0 <= i < k implies clause_holds(
                #[trigger] leaf_clause_for(facts[i]),
                facts,
            ) by {
                if i < k - 1 {
                    assert(clause_holds(leaf_clause_for(facts[i]), facts));
                }
            }
        }
    }
}

/// A synthesized specification is safe exactly when no fact's recorded answer is false; when
/// no two facts share an id, exactly when every grounded fact is true.
pub proof fn lemma_synthesized_spec_verdict(facts: Seq<GroundedFact>)
    ensures
        violated_facts(facts.map_values(|f: GroundedFact| leaf_clause_for(f)), facts).len() == 0
            <==> forall|i: int|
            0 <= i < facts.len() ==> fact_value(facts, #[trigger] facts[i].fact.id@) != Some(
                false,
            ),
        (forall|a: int, b: int|
            0 <= a < facts.len() && 0 <= b < facts.len() && a != b ==> #[trigger] facts[a].fact.id@
                != #[trigger] facts[b].fact.id@) ==> (violated_facts(
            facts.map_values(|f: GroundedFact| leaf_clause_for(f)),
            facts,
        ).len() == 0 <==> forall|i: int| 0 <= i < facts.len() ==> #[trigger] facts[i].value),
{
    let cs = facts.map_values(|f: GroundedFact| leaf_clause_for(f));
    assert(facts.subrange(0, facts.len() as int) =~= facts);
    lemma_leaf_prefix(facts, facts.len() as int);
    assert(violated_facts(cs, facts) =~= plain_violations(cs, facts));
    let all_hold = forall|i: int|
        0 <= i < facts.len() ==> clause_holds(#[trigger] leaf_clause_for(facts[i]), facts);
    let none_false = forall|i: int|
        0 <= i < facts.len() ==> fact_value(facts, #[trigger] facts[i].fact.id@) != Some(false);
    if all_hold {
        assert forall|i: int| 0 <= i < facts.len() implies fact_value(
            facts,
            #[trigger] facts[i].fact.id@,
        ) != Some(false) by {
            assert(clause_holds(leaf_clause_for(facts[i]), facts));
            lemma_fact_recorded(facts, i);
        }
    }
    if none_false {
        assert forall|i: int| 0 <= i < facts.len() implies clause_holds(
            #[trigger] leaf_clause_for(facts[i]),
            facts,
        ) by {
            assert(fact_value(facts, facts[i].fact.id@) != Some(false));
            lemma_fact_recorded(facts, i);
        }
    }
    assert(all_hold == none_false);
    if forall|a: int, b: int|
        0 <= a < facts.len() && 0 <= b < facts.len() && a != b ==> #[trigger] facts[a].fact.id@
            != #[trigger] facts[b].fact.id@ {
        let all_true = forall|i: int| 0 <= i < facts.len() ==> #[trigger] facts[i].value;
        if all_true {
            assert forall|i: int| 0 <= i < facts.len() implies fact_value(
                facts,
                #[trigger] facts[i].fact.id@,
            ) != Some(false) by {
                assert(facts[i].value);
                lemma_distinct_fact_value(facts, i);
            }
        }
        if none_false {
            assert forall|i: int| 0 <= i < facts.len() implies #[trigger] facts[i].value by {
                assert(fact_value(facts, facts[i].fact.id@) != Some(false));
                lemma_distinct_fact_value(facts, i);
            }
        }
        assert(all_true == none_false);
    }
}

/// Every combinator but `Not` enforces its fact the same way: the clause holds exactly when
/// the fact is not recorded false. So an `And` or `Or` clause holds exactly when a leaf on the
/// same fact does, and a fact recorded false fails it.
pub proof fn lemma_non_negated_clauses_need_their_fact(clause: SafetyClause, facts: Seq<GroundedFact>)
    requires
        clause.combinator != ClauseCombinator::Not,
    ensures
        clause_holds(clause, facts) <==> fact_value(facts, clause.fact_id@) != Some(false),
        clause_holds(clause, facts) == clause_holds(
            SafetyClause { combinator: ClauseCombinator::Leaf, ..clause },
            facts,
        ),
{
}

/// An enforced `Leaf` or `And` clause whose fact is recorded false is reported: its id is
/// among the violated facts, so the verdict is unsafe.
pub proof fn lemma_false_fact_is_violated(clauses: Seq<SafetyClause>, facts: Seq<GroundedFact>, k: int)
    requires
        0 <= k < clauses.len(),
        !clauses[k].advisory,
        clauses[k].combinator == ClauseCombinator::Leaf || clauses[k].combinator
            == ClauseCombinator::And,
        fact_value(facts, clauses[k].fact_id@) == Some(false),
    ensures
        plain_violations(clauses, facts).contains(clauses[k].fact_id@),
        violated_facts(clauses, facts).contains(clauses[k].fact_id@),
        violated_facts(clauses, facts).len() > 0,
        forall|verdict: ProofVerdict| #[trigger] verdict_matches(verdict, clauses, facts) ==> verdict is Unsafe,
    decreases clauses.len(),
{
    let rest = clauses.drop_last();
    let pv = plain_violations(clauses, facts);
    if k < clauses.len() - 1 {
        assert(rest[k] == clauses[k]);
        lemma_false_fact_is_violated(rest, facts, k);
        let pr = plain_violations(rest, facts);
        let j = choose|j: int| 0 <= j < pr.len() && pr[j] == clauses[k].fact_id@;
        assert(pv[j] == pr[j]);
    } else {
        assert(pv[pv.len() - 1] == clauses[k].fact_id@);
    }
    let vf = violated_facts(clauses, facts);
    let j = choose|j: int| 0 <= j < pv.len() && pv[j] == clauses[k].fact_id@;
    assert(vf[j] == pv[j]);
}

} // verus!
