//! Status enums shared by inspection, scoring, reporting and localisation.

use vstd::prelude::*;

verus! {

/// Status of a single check result.
#[derive(Debug, Clone, Copy, PartialEq, Eq, Structural)]
pub enum CheckStatus {
    Pass,
    Warning,
    Critical,
    Error,
}

/// Severity of a detected issue; ordered `Info < Warning < Critical`.
#[derive(Debug, Clone, Copy, PartialEq, Eq, Hash, PartialOrd, Ord, Structural)]
pub enum IssueSeverity {
    Info,
    Warning,
    Critical,
}

/// Overall cluster health classification.
#[derive(Debug, Clone, Copy, PartialEq, Eq, Structural)]
pub enum HealthStatus {
    Excellent,
    Good,
    Fair,
    Poor,
    Critical,
}

impl IssueSeverity {
    /// Position in the order `Info < Warning < Critical`.
    pub open spec fn rank(self) -> nat {
        match self {
            IssueSeverity::Info => 0,
            IssueSeverity::Warning => 1,
            IssueSeverity::Critical => 2,
        }
    }

    /// `self >= other` in the severity order.
    pub fn at_least(&self, other: &IssueSeverity) -> (r: bool)
        ensures
            r == (self.rank() >= other.rank()),
    {
        let a: u8 = match self {
            IssueSeverity::Info => 0,
            IssueSeverity::Warning => 1,
            IssueSeverity::Critical => 2,
        };
        let b: u8 = match other {
            IssueSeverity::Info => 0,
            IssueSeverity::Warning => 1,
            IssueSeverity::Critical => 2,
        };
        a >= b
    }
}

} // verus!
