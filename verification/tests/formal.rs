use disyn::formal::{
    AtomicFact, ClauseCombinator, FormalSpec, FormalVerifier, GroundedExtraction, GroundedFact,
    NoOpFormalVerifier, ProofVerdict, SafetyClause,
};

fn make_extraction(facts: &[(&str, bool)]) -> GroundedExtraction {
    GroundedExtraction {
        facts: facts
            .iter()
            .map(|(id, val)| GroundedFact {
                fact: AtomicFact {
                    id: (*id).into(),
                    query: format!("Is {id} true?"),
                    layer: 0,
                },
                value: *val,
                evidence: String::new(),
            })
            .collect(),
        trajectory_span: 0..1,
    }
}

fn clause(id: &str, advisory: bool, combinator: ClauseCombinator) -> SafetyClause {
    SafetyClause { fact_id: id.into(), advisory, combinator }
}

#[test]
fn safe_when_all_facts_true() {
    let verifier = NoOpFormalVerifier;
    let extraction = make_extraction(&[("budget_ok", true)]);
    let spec = verifier.synthesize(&extraction);
    assert!(matches!(
        verifier.verify_spec(&spec, &extraction),
        ProofVerdict::Safe
    ));
}

#[test]
fn unsafe_when_fact_false() {
    let verifier = NoOpFormalVerifier;
    let extraction = make_extraction(&[("budget_ok", false)]);
    let spec = verifier.synthesize(&extraction);
    match verifier.verify_spec(&spec, &extraction) {
        ProofVerdict::Unsafe { violated_facts } => {
            assert_eq!(violated_facts, vec!["budget_ok"]);
        }
        _ => panic!("expected Unsafe"),
    }
}

#[test]
fn not_combinator_passes_when_fact_is_false() {
    let verifier = NoOpFormalVerifier;
    let extraction = make_extraction(&[("danger", false)]);
    let spec = FormalSpec {
        clauses: vec![SafetyClause {
            fact_id: "danger".into(),
            advisory: false,
            combinator: ClauseCombinator::Not,
        }],
        formal_text: None,
    };
    assert!(matches!(
        verifier.verify_spec(&spec, &extraction),
        ProofVerdict::Safe
    ));
}

#[test]
fn not_combinator_violates_when_fact_is_true() {
    let verifier = NoOpFormalVerifier;
    let extraction = make_extraction(&[("danger", true)]);
    let spec = FormalSpec {
        clauses: vec![SafetyClause {
            fact_id: "danger".into(),
            advisory: false,
            combinator: ClauseCombinator::Not,
        }],
        formal_text: None,
    };
    match verifier.verify_spec(&spec, &extraction) {
        ProofVerdict::Unsafe { violated_facts } => {
            assert_eq!(violated_facts, vec!["danger"]);
        }
        _ => panic!("expected Unsafe"),
    }
}

#[test]
fn or_group_passes_when_any_fact_true() {
    let verifier = NoOpFormalVerifier;
    let extraction = make_extraction(&[("a", true), ("b", false)]);
    let spec = FormalSpec {
        clauses: vec![
            SafetyClause {
                fact_id: "a".into(),
                advisory: false,
                combinator: ClauseCombinator::Or,
            },
            SafetyClause {
                fact_id: "b".into(),
                advisory: false,
                combinator: ClauseCombinator::Or,
            },
        ],
        formal_text: None,
    };
    assert!(matches!(
        verifier.verify_spec(&spec, &extraction),
        ProofVerdict::Safe
    ));
}

#[test]
fn or_group_violates_when_all_facts_false() {
    let verifier = NoOpFormalVerifier;
    let extraction = make_extraction(&[("a", false), ("b", false)]);
    let spec = FormalSpec {
        clauses: vec![
            SafetyClause {
                fact_id: "a".into(),
                advisory: false,
                combinator: ClauseCombinator::Or,
            },
            SafetyClause {
                fact_id: "b".into(),
                advisory: false,
                combinator: ClauseCombinator::Or,
            },
        ],
        formal_text: None,
    };
    match verifier.verify_spec(&spec, &extraction) {
        ProofVerdict::Unsafe { violated_facts } => {
            assert!(violated_facts[0].starts_with("or-group("));
        }
        _ => panic!("expected Unsafe"),
    }
}

#[test]
fn or_group_label_lists_every_member() {
    let verifier = NoOpFormalVerifier;
    let extraction = make_extraction(&[("a", false), ("b", false), ("c", false)]);
    let spec = FormalSpec {
        clauses: vec![
            clause("c", false, ClauseCombinator::Leaf),
            clause("a", false, ClauseCombinator::Or),
            clause("b", false, ClauseCombinator::Or),
        ],
        formal_text: None,
    };
    match verifier.verify_spec(&spec, &extraction) {
        ProofVerdict::Unsafe { violated_facts } => {
            assert_eq!(violated_facts, vec!["c".to_string(), "or-group(a,b)".to_string()]);
        }
        _ => panic!("expected Unsafe"),
    }
}

#[test]
fn advisory_clauses_are_not_enforced() {
    let verifier = NoOpFormalVerifier;
    let extraction = make_extraction(&[("soft", false), ("hard", true)]);
    let spec = FormalSpec {
        clauses: vec![
            clause("soft", true, ClauseCombinator::Leaf),
            clause("hard", false, ClauseCombinator::And),
            clause("soft", true, ClauseCombinator::Or),
        ],
        formal_text: None,
    };
    assert!(matches!(verifier.verify_spec(&spec, &extraction), ProofVerdict::Safe));
}

#[test]
fn absent_facts_get_the_benefit_of_the_doubt() {
    let verifier = NoOpFormalVerifier;
    let extraction = make_extraction(&[]);
    let spec = FormalSpec {
        clauses: vec![
            clause("missing", false, ClauseCombinator::Leaf),
            clause("also_missing", false, ClauseCombinator::Not),
        ],
        formal_text: None,
    };
    assert!(matches!(verifier.verify_spec(&spec, &extraction), ProofVerdict::Safe));
}

#[test]
fn later_answers_override_earlier_ones() {
    let verifier = NoOpFormalVerifier;
    let extraction = make_extraction(&[("x", true), ("x", false)]);
    let spec = FormalSpec { clauses: vec![clause("x", false, ClauseCombinator::Leaf)], formal_text: None };
    match verifier.verify_spec(&spec, &extraction) {
        ProofVerdict::Unsafe { violated_facts } => assert_eq!(violated_facts, vec!["x"]),
        _ => panic!("expected Unsafe"),
    }
}

#[test]
fn synthesized_spec_has_one_leaf_per_fact() {
    let verifier = NoOpFormalVerifier;
    let extraction = make_extraction(&[("a", true), ("b", false), ("c", true)]);
    let spec = verifier.synthesize(&extraction);
    assert_eq!(spec.clauses.len(), 3);
    assert!(spec.formal_text.is_none());
    for (c, id) in spec.clauses.iter().zip(["a", "b", "c"]) {
        assert_eq!(c.fact_id, id);
        assert!(!c.advisory);
        assert_eq!(c.combinator, ClauseCombinator::Leaf);
    }
    match verifier.verify_spec(&spec, &extraction) {
        ProofVerdict::Unsafe { violated_facts } => assert_eq!(violated_facts, vec!["b"]),
        _ => panic!("expected Unsafe"),
    }
}

#[test]
fn negation_is_the_dual_of_a_leaf() {
    let verifier = NoOpFormalVerifier;
    for value in [true, false] {
        let extraction = make_extraction(&[("f", value)]);
        let not_spec = FormalSpec { clauses: vec![clause("f", false, ClauseCombinator::Not)], formal_text: None };
        let leaf_spec = FormalSpec { clauses: vec![clause("f", false, ClauseCombinator::Leaf)], formal_text: None };
        let not_safe = matches!(verifier.verify_spec(&not_spec, &extraction), ProofVerdict::Safe);
        let leaf_safe = matches!(verifier.verify_spec(&leaf_spec, &extraction), ProofVerdict::Safe);
        assert_ne!(not_safe, leaf_safe);
    }
}

#[test]
fn deception_scan_finds_nothing_by_default() {
    let verifier = NoOpFormalVerifier;
    let report = verifier.scan_deception(&make_extraction(&[("a", true)]));
    assert!(!report.detected);
    assert!(report.level.is_none());
    assert!(report.evidence_fact_ids.is_empty());
}
