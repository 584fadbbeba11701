//! Findings and their severities.
use vstd::prelude::*;

verus! {

/// How serious a finding is, from least to most.
#[derive(Debug, Clone, Copy, PartialEq, Eq, Structural, PartialOrd, Ord, Hash)]
pub enum Severity {
    Info,
    Low,
    Medium,
    High,
    Critical,
}

/// The name under which a severity is shown.
pub open spec fn severity_name(s: Severity) -> Seq<char> {
    match s {
        Severity::Info => "Info"@,
        Severity::Low => "Low"@,
        Severity::Medium => "Medium"@,
        Severity::High => "High"@,
        Severity::Critical => "Critical"@,
    }
}

/// The position of a severity in the order from `Info` to `Critical`.
pub open spec fn severity_rank(s: Severity) -> nat {
    match s {
        Severity::Info => 0,
        Severity::Low => 1,
        Severity::Medium => 2,
        Severity::High => 3,
        Severity::Critical => 4,
    }
}

impl Severity {
    /// The name of the severity, as reports print it.
    pub fn to_string(&self) -> (r: String)
        ensures
            r@ == severity_name(*self),
    {
        match self {
            Severity::Info => String::from_str("Info"),
            Severity::Low => String::from_str("Low"),
            Severity::Medium => String::from_str("Medium"),
            Severity::High => String::from_str("High"),
            Severity::Critical => String::from_str("Critical"),
        }
    }
}

/// A finding reported by a scanner.
#[derive(Debug, Clone)]
pub struct Findings {
    /// Id of finding
    pub id: String,
    /// Title of finding
    pub title: String,
    /// Severity of finding
    pub severity: Severity,
    /// Affected resource
    pub affected_resource: String,
    /// Advised action to take against the finding
    pub remediation: String,
    /// Compliance identifiers that the finding touches, once mapped
    pub compliance: Option<Vec<String>>,
}

/// The contents of a finding, as character sequences.
pub struct FindingView {
    pub id: Seq<char>,
    pub title: Seq<char>,
    pub severity: Severity,
    pub affected_resource: Seq<char>,
    pub remediation: Seq<char>,
    pub compliance: Option<Seq<Seq<char>>>,
}

/// The characters of each string.
pub open spec fn strings_view(v: Seq<String>) -> Seq<Seq<char>> {
    v.map_values(|s: String| s@)
}

impl View for Findings {
    type V = FindingView;

    open spec fn view(&self) -> FindingView {
        FindingView {
            id: self.id@,
            title: self.title@,
            severity: self.severity,
            affected_resource: self.affected_resource@,
            remediation: self.remediation@,
            compliance: match self.compliance {
                Some(v) => Some(strings_view(v@)),
                None => None,
            },
        }
    }
}

/// The contents of each finding.
pub open spec fn findings_view(v: Seq<Findings>) -> Seq<FindingView> {
    v.map_values(|f: Findings| f@)
}

/// A finding with no compliance identifiers yet.
pub open spec fn plain_finding(
    id: Seq<char>,
    title: Seq<char>,
    severity: Severity,
    affected_resource: Seq<char>,
    remediation: Seq<char>,
) -> FindingView {
    FindingView { id, title, severity, affected_resource, remediation, compliance: None }
}

} // verus!
