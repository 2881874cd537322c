use vstd::prelude::*;
use crate::ratio::Ratio;

verus! {

/// How far a reported value can be trusted.
#[derive(Debug, Clone, Copy, PartialEq, Eq, PartialOrd, Ord, Structural)]
pub enum ConfidenceLevel {
    High,
    Medium,
    Low,
}

impl ConfidenceLevel {
    /// The level's name as reports print it.
    pub open spec fn label(self) -> Seq<char> {
        match self {
            ConfidenceLevel::High => "High"@,
            ConfidenceLevel::Medium => "Medium"@,
            ConfidenceLevel::Low => "Low"@,
        }
    }

    /// The name as reports print it.
    pub fn name(&self) -> (s: &'static str)
        ensures
            s@ == self.label(),
    {
        match self {
            ConfidenceLevel::High => "High",
            ConfidenceLevel::Medium => "Medium",
            ConfidenceLevel::Low => "Low",
        }
    }
}

/// How serious a finding is.
#[derive(Debug, Clone, Copy, PartialEq, Eq, Structural)]
pub enum Severity {
    Low,
    Medium,
    High,
}

impl Severity {
    /// The severity's name as reports print it.
    pub open spec fn label(self) -> Seq<char> {
        match self {
            Severity::Low => "Low"@,
            Severity::Medium => "Medium"@,
            Severity::High => "High"@,
        }
    }

    /// The name as reports print it.
    pub fn name(&self) -> (s: &'static str)
        ensures
            s@ == self.label(),
    {
        match self {
            Severity::Low => "Low",
            Severity::Medium => "Medium",
            Severity::High => "High",
        }
    }
}

/// The resolved byte counts of a build and the two ratios derived from them.
#[derive(Debug, Clone, Copy, PartialEq, Eq, Structural)]
pub struct Metrics {
    pub new_bytes: u64,
    pub changed_content_bytes: u64,
    pub delta_efficiency: Ratio,
    pub waste_ratio: Ratio,
}

/// A file that weighs on the size of a patch.
#[derive(Debug, Clone, PartialEq, Eq)]
pub struct FileOffender {
    pub path: String,
    pub bytes: u64,
}

/// An offender, as plain values.
pub struct FileOffenderModel {
    pub path: Seq<char>,
    pub bytes: u64,
}

impl View for FileOffender {
    type V = FileOffenderModel;

    open spec fn view(&self) -> FileOffenderModel {
        FileOffenderModel { path: self.path@, bytes: self.bytes }
    }
}

impl DeepView for FileOffender {
    type V = FileOffenderModel;

    open spec fn deep_view(&self) -> FileOffenderModel {
        self@
    }
}

impl FileOffender {
    /// A copy that holds the same path and size.
    pub fn duplicate(&self) -> (r: FileOffender)
        ensures
            r == *self,
    {
        FileOffender { path: self.path.clone(), bytes: self.bytes }
    }
}

/// One thing that the rules found, with what supports it and what to do.
#[derive(Debug, Clone, PartialEq, Eq)]
pub struct Finding {
    pub id: String,
    pub severity: Severity,
    pub evidence: Vec<String>,
    pub likely_cause: String,
    pub suggested_actions: Vec<String>,
}

/// A finding, as plain values.
pub struct FindingModel {
    pub id: Seq<char>,
    pub severity: Severity,
    pub evidence: Seq<Seq<char>>,
    pub likely_cause: Seq<char>,
    pub suggested_actions: Seq<Seq<char>>,
}

impl View for Finding {
    type V = FindingModel;

    open spec fn view(&self) -> FindingModel {
        FindingModel {
            id: self.id@,
            severity: self.severity,
            evidence: self.evidence.deep_view(),
            likely_cause: self.likely_cause@,
            suggested_actions: self.suggested_actions.deep_view(),
        }
    }
}

impl DeepView for Finding {
    type V = FindingModel;

    open spec fn deep_view(&self) -> FindingModel {
        self@
    }
}

} // verus!
