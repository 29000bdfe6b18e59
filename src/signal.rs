use vstd::prelude::*;
use crate::error::text_eq;

verus! {

/// The status strings that the fingerprint service sends during enrollment.
#[derive(Clone, Copy, Debug, PartialEq, Eq, Structural)]
pub enum SignalKind {
    StagePassed,
    RetryScan,
    SwipeTooShort,
    FingerNotCentered,
    RemoveAndRetry,
    UnknownError,
    Completed,
    Failed,
    Disconnected,
    DataFull,
    TooFast,
    Duplicate,
    Cancelled,
}

/// The wire name of each status.
pub open spec fn signal_name(k: SignalKind) -> Seq<char> {
    match k {
        SignalKind::StagePassed => "enroll-stage-passed"@,
        SignalKind::RetryScan => "enroll-retry-scan"@,
        SignalKind::SwipeTooShort => "enroll-swipe-too-short"@,
        SignalKind::FingerNotCentered => "enroll-finger-not-centered"@,
        SignalKind::RemoveAndRetry => "enroll-remove-and-retry"@,
        SignalKind::UnknownError => "enroll-unknown-error"@,
        SignalKind::Completed => "enroll-completed"@,
        SignalKind::Failed => "enroll-failed"@,
        SignalKind::Disconnected => "enroll-disconnected"@,
        SignalKind::DataFull => "enroll-data-full"@,
        SignalKind::TooFast => "enroll-too-fast"@,
        SignalKind::Duplicate => "enroll-duplicate"@,
        SignalKind::Cancelled => "enroll-cancelled"@,
    }
}

/// The status that a wire string names, if any.
pub open spec fn kind_of(s: Seq<char>) -> Option<SignalKind> {
    if s == "enroll-stage-passed"@ {
        Some(SignalKind::StagePassed)
    } else if s == "enroll-retry-scan"@ {
        Some(SignalKind::RetryScan)
    } else if s == "enroll-swipe-too-short"@ {
        Some(SignalKind::SwipeTooShort)
    } else if s == "enroll-finger-not-centered"@ {
        Some(SignalKind::FingerNotCentered)
    } else if s == "enroll-remove-and-retry"@ {
        Some(SignalKind::RemoveAndRetry)
    } else if s == "enroll-unknown-error"@ {
        Some(SignalKind::UnknownError)
    } else if s == "enroll-completed"@ {
        Some(SignalKind::Completed)
    } else if s == "enroll-failed"@ {
        Some(SignalKind::Failed)
    } else if s == "enroll-disconnected"@ {
        Some(SignalKind::Disconnected)
    } else if s == "enroll-data-full"@ {
        Some(SignalKind::DataFull)
    } else if s == "enroll-too-fast"@ {
        Some(SignalKind::TooFast)
    } else if s == "enroll-duplicate"@ {
        Some(SignalKind::Duplicate)
    } else if s == "enroll-cancelled"@ {
        Some(SignalKind::Cancelled)
    } else {
        None
    }
}

/// A status after which the sensor asks for another scan.
pub open spec fn is_retryable(k: SignalKind) -> bool {
    k == SignalKind::RetryScan || k == SignalKind::SwipeTooShort || k
        == SignalKind::FingerNotCentered || k == SignalKind::RemoveAndRetry
}

/// A status that ends the enrollment.
pub open spec fn is_terminal(k: SignalKind) -> bool {
    k == SignalKind::Completed || k == SignalKind::Failed || k == SignalKind::Disconnected || k
        == SignalKind::DataFull || k == SignalKind::TooFast || k == SignalKind::Duplicate || k
        == SignalKind::Cancelled
}

impl SignalKind {
    /// Reads a status string; `None` for one outside the vocabulary.
    pub fn parse(s: &str) -> (r: Option<SignalKind>)
        ensures
            r == kind_of(s@),
    {
        if text_eq(s, "enroll-stage-passed") {
            Some(SignalKind::StagePassed)
        } else if text_eq(s, "enroll-retry-scan") {
            Some(SignalKind::RetryScan)
        } else if text_eq(s, "enroll-swipe-too-short") {
            Some(SignalKind::SwipeTooShort)
        } else if text_eq(s, "enroll-finger-not-centered") {
            Some(SignalKind::FingerNotCentered)
        } else if text_eq(s, "enroll-remove-and-retry") {
            Some(SignalKind::RemoveAndRetry)
        } else if text_eq(s, "enroll-unknown-error") {
            Some(SignalKind::UnknownError)
        } else if text_eq(s, "enroll-completed") {
            Some(SignalKind::Completed)
        } else if text_eq(s, "enroll-failed") {
            Some(SignalKind::Failed)
        } else if text_eq(s, "enroll-disconnected") {
            Some(SignalKind::Disconnected)
        } else if text_eq(s, "enroll-data-full") {
            Some(SignalKind::DataFull)
        } else if text_eq(s, "enroll-too-fast") {
            Some(SignalKind::TooFast)
        } else if text_eq(s, "enroll-duplicate") {
            Some(SignalKind::Duplicate)
        } else if text_eq(s, "enroll-cancelled") {
            Some(SignalKind::Cancelled)
        } else {
            None
        }
    }

    /// Whether this status ends the enrollment.
    pub fn terminal(&self) -> (r: bool)
        ensures
            r == is_terminal(*self),
    {
        match self {
            SignalKind::Completed | SignalKind::Failed | SignalKind::Disconnected
            | SignalKind::DataFull | SignalKind::TooFast | SignalKind::Duplicate
            | SignalKind::Cancelled => true,
            _ => false,
        }
    }
}

} // verus!
