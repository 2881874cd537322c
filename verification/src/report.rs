pub mod junit;
pub mod markdown;

use vstd::prelude::*;
use crate::baseline::Baseline;
use crate::parser::ParseMode;
use crate::ratio::Ratio;
use crate::types::{ConfidenceLevel, Finding, FindingModel, Metrics};

pub use junit::{join_lines, xml_escape};

verus! {

/// Where the analysed data came from.
#[derive(Debug, Clone, PartialEq, Eq)]
pub struct Inputs {
    pub input_path: String,
    pub parse_mode: String,
    pub sources: Vec<String>,
}

/// Where the analysed data came from, as plain values.
pub struct InputsModel {
    pub input_path: Seq<char>,
    pub parse_mode: Seq<char>,
    pub sources: Seq<Seq<char>>,
}

impl View for Inputs {
    type V = InputsModel;

    open spec fn view(&self) -> InputsModel {
        InputsModel {
            input_path: self.input_path@,
            parse_mode: self.parse_mode@,
            sources: self.sources.deep_view(),
        }
    }
}

/// The confidence in each metric and in the whole.
#[derive(Debug, Clone, Copy, PartialEq, Eq, Structural)]
pub struct ConfidenceSummary {
    pub new_bytes: ConfidenceLevel,
    pub changed_content_bytes: ConfidenceLevel,
    pub delta_efficiency: ConfidenceLevel,
    pub waste_ratio: ConfidenceLevel,
    pub overall: ConfidenceLevel,
}

/// A run held against its baseline.
#[derive(Debug, Clone, Copy, PartialEq, Eq, Structural)]
pub struct BaselineComparison {
    pub baseline_new_bytes: u64,
    pub regression_ratio: Ratio,
    pub delta_new_bytes: i64,
}

/// What the budget gate decided.
#[derive(Debug, Clone, PartialEq, Eq)]
pub struct BudgetResult {
    pub threshold_regression_ratio: Ratio,
    pub pass: bool,
    pub reason: String,
}

/// What the budget gate decided, as plain values.
pub struct BudgetResultModel {
    pub threshold_regression_ratio: Ratio,
    pub pass: bool,
    pub reason: Seq<char>,
}

impl View for BudgetResult {
    type V = BudgetResultModel;

    open spec fn view(&self) -> BudgetResultModel {
        BudgetResultModel {
            threshold_regression_ratio: self.threshold_regression_ratio,
            pass: self.pass,
            reason: self.reason@,
        }
    }
}

impl DeepView for BudgetResult {
    type V = BudgetResultModel;

    open spec fn deep_view(&self) -> BudgetResultModel {
        self@
    }
}

/// What is known of the build that was analysed.
#[derive(Debug, Clone, PartialEq, Eq)]
pub struct BuildMetadata {
    pub sha: Option<String>,
    pub branch: Option<String>,
    pub build_id: Option<String>,
}

/// What is known of the build, as plain values.
pub struct BuildMetadataModel {
    pub sha: Option<Seq<char>>,
    pub branch: Option<Seq<char>>,
    pub build_id: Option<Seq<char>>,
}

impl BuildMetadataModel {
    /// None of the three fields is there.
    pub open spec fn is_empty(self) -> bool {
        self.sha is None && self.branch is None && self.build_id is None
    }
}

impl View for BuildMetadata {
    type V = BuildMetadataModel;

    open spec fn view(&self) -> BuildMetadataModel {
        BuildMetadataModel {
            sha: self.sha.deep_view(),
            branch: self.branch.deep_view(),
            build_id: self.build_id.deep_view(),
        }
    }
}

impl DeepView for BuildMetadata {
    type V = BuildMetadataModel;

    open spec fn deep_view(&self) -> BuildMetadataModel {
        self@
    }
}

impl BuildMetadata {
    /// Whether none of the three fields is there.
    pub fn is_empty(&self) -> (b: bool)
        ensures
            b == self@.is_empty(),
    {
        self.sha.is_none() && self.branch.is_none() && self.build_id.is_none()
    }
}

/// The metrics of one depot.
#[derive(Debug, Clone, PartialEq, Eq)]
pub struct DepotReport {
    pub depot_id: String,
    pub metrics: Metrics,
    pub confidence: ConfidenceLevel,
}

/// The metrics of one depot, as plain values.
pub struct DepotReportModel {
    pub depot_id: Seq<char>,
    pub metrics: Metrics,
    pub confidence: ConfidenceLevel,
}

impl View for DepotReport {
    type V = DepotReportModel;

    open spec fn view(&self) -> DepotReportModel {
        DepotReportModel {
            depot_id: self.depot_id@,
            metrics: self.metrics,
            confidence: self.confidence,
        }
    }
}

impl DeepView for DepotReport {
    type V = DepotReportModel;

    open spec fn deep_view(&self) -> DepotReportModel {
        self@
    }
}

/// Everything one analysis produced.
#[derive(Debug, Clone, PartialEq, Eq)]
pub struct Report {
    pub report_version: String,
    pub inputs: Inputs,
    pub metrics: Metrics,
    pub confidence: ConfidenceSummary,
    pub findings: Vec<Finding>,
    pub baseline_comparison: Option<BaselineComparison>,
    pub budget: Option<BudgetResult>,
    pub build_metadata: Option<BuildMetadata>,
    pub per_depot: Vec<DepotReport>,
}

/// Everything one analysis produced, as plain values.
pub struct ReportModel {
    pub report_version: Seq<char>,
    pub inputs: InputsModel,
    pub metrics: Metrics,
    pub confidence: ConfidenceSummary,
    pub findings: Seq<FindingModel>,
    pub baseline_comparison: Option<BaselineComparison>,
    pub budget: Option<BudgetResultModel>,
    pub build_metadata: Option<BuildMetadataModel>,
    pub per_depot: Seq<DepotReportModel>,
}

impl View for Report {
    type V = ReportModel;

    open spec fn view(&self) -> ReportModel {
        ReportModel {
            report_version: self.report_version@,
            inputs: self.inputs@,
            metrics: self.metrics,
            confidence: self.confidence,
            findings: self.findings.deep_view(),
            baseline_comparison: self.baseline_comparison,
            budget: self.budget.deep_view(),
            build_metadata: self.build_metadata.deep_view(),
            per_depot: self.per_depot.deep_view(),
        }
    }
}

/// The build metadata that a report keeps: none where every field is absent.
pub open spec fn kept_metadata(meta: Option<BuildMetadataModel>) -> Option<BuildMetadataModel> {
    match meta {
        Some(m) => if m.is_empty() {
            None
        } else {
            Some(m)
        },
        None => None,
    }
}

/// How a run compares with a baseline. Against a baseline of zero the ratio
/// is one where the run is zero too, and without bound otherwise.
pub open spec fn comparison_of(baseline: u64, new_bytes: u64) -> BaselineComparison {
    BaselineComparison {
        baseline_new_bytes: baseline,
        regression_ratio: if baseline == 0 {
            if new_bytes == 0 {
                Ratio { num: 1, den: 1 }
            } else {
                Ratio { num: 1, den: 0 }
            }
        } else {
            Ratio { num: new_bytes, den: baseline }
        },
        delta_new_bytes: wrapped_difference(new_bytes, baseline),
    }
}

/// `new_bytes - baseline` as a signed 64-bit number. A difference that does
/// not fit wraps around, as two's complement does.
pub open spec fn wrapped_difference(new_bytes: u64, baseline: u64) -> i64 {
    let d = new_bytes as int - baseline as int;
    if d > i64::MAX {
        (d - 0x1_0000_0000_0000_0000) as i64
    } else if d < i64::MIN {
        (d + 0x1_0000_0000_0000_0000) as i64
    } else {
        d as i64
    }
}

/// The sentence that explains what the budget gate decided.
pub open spec fn budget_reason(pass: bool, ratio: Ratio, threshold: Ratio) -> Seq<char> {
    if pass {
        "within regression budget"@
    } else {
        "regression_ratio "@ + ratio.fixed3() + " exceeds threshold "@ + threshold.fixed3()
    }
}

/// What the budget gate decides: it passes where the regression ratio is
/// at most the threshold.
pub open spec fn budget_of(threshold: Ratio, comparison: BaselineComparison) -> BudgetResultModel {
    let pass = comparison.regression_ratio.at_most(threshold);
    BudgetResultModel {
        threshold_regression_ratio: threshold,
        pass,
        reason: budget_reason(pass, comparison.regression_ratio, threshold),
    }
}

/// The regression ratio in its three cases: one where the run and its
/// baseline are both zero, without bound where only the baseline is zero,
/// and the run over the baseline otherwise.
pub proof fn lemma_regression_ratio(baseline: u64, current: u64)
    ensures
        baseline == 0 && current == 0 ==> comparison_of(baseline, current).regression_ratio == (
        Ratio { num: 1, den: 1 }),
        baseline == 0 && current > 0 ==> comparison_of(baseline, current).regression_ratio.unbounded(),
        baseline > 0 ==> comparison_of(baseline, current).regression_ratio == (Ratio {
            num: current,
            den: baseline,
        }),
{
}

/// Holds the bytes of a run against those of its baseline.
pub fn compare_to_baseline(b: &Baseline, metrics: &Metrics) -> (r: BaselineComparison)
    ensures
        r == comparison_of(b.baseline_new_bytes, metrics.new_bytes),
        -0x8000_0000_0000_0000 <= metrics.new_bytes - b.baseline_new_bytes <= 0x7fff_ffff_ffff_ffff
            ==> r.delta_new_bytes == metrics.new_bytes - b.baseline_new_bytes,
{
    let baseline = b.baseline_new_bytes;
    let current = metrics.new_bytes;
    let regression_ratio = if baseline == 0 {
        if current == 0 {
            Ratio::one()
        } else {
            Ratio::infinity()
        }
    } else {
        Ratio::new(current, baseline)
    };
    let delta: i64 = if current >= baseline {
        let up: u64 = current - baseline;
        if up <= 0x7fff_ffff_ffff_ffff {
            up as i64
        } else {
            ((up as i128) - 0x1_0000_0000_0000_0000) as i64
        }
    } else {
        let down: u64 = baseline - current;
        if down <= 0x8000_0000_0000_0000 {
            (-(down as i128)) as i64
        } else {
            (0x1_0000_0000_0000_0000 - (down as i128)) as i64
        }
    };
    BaselineComparison { baseline_new_bytes: baseline, regression_ratio, delta_new_bytes: delta }
}

/// Holds a comparison against the allowed regression ratio.
pub fn evaluate_budget(threshold: Ratio, comparison: &BaselineComparison) -> (r: BudgetResult)
    ensures
        r@ == budget_of(threshold, *comparison),
{
    let pass = comparison.regression_ratio.le(&threshold);
    let mut reason = String::new();
    if pass {
        reason.append("within regression budget");
        assert(reason@ =~= budget_reason(pass, comparison.regression_ratio, threshold));
    } else {
        reason.append("regression_ratio ");
        comparison.regression_ratio.push_fixed3(&mut reason);
        reason.append(" exceeds threshold ");
        threshold.push_fixed3(&mut reason);
        assert(reason@ =~= budget_reason(pass, comparison.regression_ratio, threshold));
    }
    BudgetResult { threshold_regression_ratio: threshold, pass, reason }
}

impl Report {
    /// Puts a report together. Its sources and depots start empty, and build
    /// metadata without a single field is dropped.
    pub fn new(
        input: &str,
        mode: ParseMode,
        metrics: Metrics,
        confidence: ConfidenceSummary,
        findings: Vec<Finding>,
        baseline_comparison: Option<BaselineComparison>,
        budget: Option<BudgetResult>,
        build_metadata: Option<BuildMetadata>,
    ) -> (r: Report)
        ensures
            r@ == (ReportModel {
                report_version: "1.0.0"@,
                inputs: InputsModel {
                    input_path: input@,
                    parse_mode: mode.label(),
                    sources: Seq::empty(),
                },
                metrics,
                confidence,
                findings: findings.deep_view(),
                baseline_comparison,
                budget: budget.deep_view(),
                build_metadata: kept_metadata(build_metadata.deep_view()),
                per_depot: Seq::empty(),
            }),
    {
        let kept = match build_metadata {
            Some(m) => if m.is_empty() {
                None
            } else {
                Some(m)
            },
            None => None,
        };
        let r = Report {
            report_version: "1.0.0".to_owned(),
            inputs: Inputs {
                input_path: input.to_owned(),
                parse_mode: mode.name().to_owned(),
                sources: Vec::new(),
            },
            metrics,
            confidence,
            findings,
            baseline_comparison,
            budget,
            build_metadata: kept,
            per_depot: Vec::new(),
        };
        assert(r@.inputs.sources =~= Seq::empty());
        assert(r@.per_depot =~= Seq::empty());
        r
    }
}

} // verus!
