use disyn::error::Error;
use disyn::types::{VerificationLayer, VerificationReport};

#[test]
fn verification_report_passed_has_no_violations() {
    let report = VerificationReport {
        passed: true,
        violations: vec![],
    };
    assert!(report.passed);
    assert!(report.violations.is_empty());
}

#[test]
fn layers_are_numbered_in_order() {
    assert_eq!(VerificationLayer::L0Format.index(), 0);
    assert_eq!(VerificationLayer::L4Provenance.index(), 4);
    assert_eq!(VerificationLayer::L9Location.index(), 9);
    assert!(VerificationLayer::L0Format < VerificationLayer::L7Semantic);
}

#[test]
fn error_messages_name_the_failure() {
    assert_eq!(Error::Inference("timeout".into()).message(), "inference failed: timeout");
    assert_eq!(
        Error::Verification { violations: 12, messages: vec!["a".into()] }.message(),
        "verification failed: 12 violations"
    );
    assert_eq!(Error::RepairExhausted { attempts: 3 }.message(), "repair exhausted after 3 attempts");
    assert_eq!(Error::BudgetExceeded("neural".into()).message(), "budget exceeded: neural");
    assert_eq!(Error::Memory("poisoned".into()).message(), "memory store: poisoned");
    assert_eq!(Error::Execution("boom".into()).message(), "execution failed: boom");
    assert_eq!(Error::Other("plain".into()).message(), "plain");
    assert_eq!(Error::Verification { violations: 0, messages: vec![] }.message(), "verification failed: 0 violations");
}
