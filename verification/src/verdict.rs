//! The harness adapter's reading of a trial's end.

use crate::messages::StopReason;
use vstd::prelude::*;

verus! {

/// How one trial ended, as the search sees it.
#[derive(Clone, Copy, Debug, PartialEq, Eq, Structural)]
pub enum Verdict {
    /// The target ran to an end that is no finding.
    Pass,
    /// The target raised a fault.
    Crash,
    /// The trial ran past its time bound.
    Timeout,
}

/// What a stop with an error report counts as.
#[derive(Clone, Copy, Debug, PartialEq, Eq, Structural)]
pub enum ErrorPolicy {
    /// The error is worth a warning and the trial passes.
    Tolerate,
    /// The error counts as a crash of the target.
    TreatAsCrash,
}

/// The verdict that a stop reason receives under an error policy.
pub open spec fn spec_classify(reason: StopReason, policy: ErrorPolicy) -> Verdict {
    match reason {
        StopReason::Normal => Verdict::Pass,
        StopReason::Crash(_) => Verdict::Crash,
        StopReason::Timeout => Verdict::Timeout,
        StopReason::Error(_) => match policy {
            ErrorPolicy::Tolerate => Verdict::Pass,
            ErrorPolicy::TreatAsCrash => Verdict::Crash,
        },
    }
}

/// Turns the reason of a stop into a verdict. It reads nothing but the
/// reason: a normal stop passes, a fault is a crash, a timeout a timeout, and
/// an error passes unless the policy says otherwise.
pub fn classify(reason: &StopReason, policy: ErrorPolicy) -> (v: Verdict)
    ensures
        v == spec_classify(*reason, policy),
{
    match reason {
        StopReason::Normal => Verdict::Pass,
        StopReason::Crash(_) => Verdict::Crash,
        StopReason::Timeout => Verdict::Timeout,
        StopReason::Error(_) => match policy {
            ErrorPolicy::Tolerate => Verdict::Pass,
            ErrorPolicy::TreatAsCrash => Verdict::Crash,
        },
    }
}

/// Whether a stop is worth a warning in the log: an error report is, whatever
/// verdict it receives.
pub fn warrants_warning(reason: &StopReason) -> (b: bool)
    ensures
        b == (*reason is Error),
{
    match reason {
        StopReason::Error(_) => true,
        _ => false,
    }
}

impl Verdict {
    /// Whether the input of the trial belongs in the solutions corpus.
    pub fn is_solution(&self) -> (b: bool)
        ensures
            b == (*self == Verdict::Crash),
    {
        match self {
            Verdict::Crash => true,
            _ => false,
        }
    }
}

} // verus!
