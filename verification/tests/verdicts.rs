use simics_fuzz::fault::{Fault, X86_64Fault};
use simics_fuzz::messages::StopReason;
use simics_fuzz::verdict::{classify, warrants_warning, ErrorPolicy, Verdict};

#[test]
fn normal_stop_passes() {
    assert_eq!(classify(&StopReason::Normal, ErrorPolicy::Tolerate), Verdict::Pass);
}

#[test]
fn fault_is_a_crash() {
    let fault = Fault::X86_64(X86_64Fault::from_code(14).unwrap());
    assert_eq!(fault, Fault::X86_64(X86_64Fault::Page));
    assert_eq!(classify(&StopReason::Crash(fault), ErrorPolicy::Tolerate), Verdict::Crash);
}

#[test]
fn timeout_is_a_timeout() {
    assert_eq!(classify(&StopReason::Timeout, ErrorPolicy::Tolerate), Verdict::Timeout);
}

#[test]
fn error_passes_unless_told_otherwise() {
    let reason = StopReason::Error("no such register".to_string());
    assert_eq!(classify(&reason, ErrorPolicy::Tolerate), Verdict::Pass);
    assert_eq!(classify(&reason, ErrorPolicy::TreatAsCrash), Verdict::Crash);
    assert!(warrants_warning(&reason));
    assert!(!warrants_warning(&StopReason::Normal));
}
