pub mod baseline;
pub mod parser;
pub mod pattern;
pub mod ratio;
pub mod report;
pub mod rules;
pub mod text;
pub mod types;

use vstd::prelude::*;
use crate::baseline::{baseline_in, Baseline, BaselineError};
use crate::parser::scan::{parse_buildoutput_dir, scan_outcome, LogFile, LogFileModel, ScanError};
use crate::parser::{
    DepotOutput, DepotOutputModel, ParseMode, ParsedBuildOutput, ParsedBuildOutputModel,
    SteamPipeCounters,
};
use crate::ratio::Ratio;
use crate::report::{
    budget_of, compare_to_baseline, comparison_of, evaluate_budget, kept_metadata,
    BaselineComparison, BudgetResultModel, BuildMetadata, BuildMetadataModel,
    ConfidenceSummary, DepotReport, DepotReportModel, InputsModel, Report, ReportModel,
};
use crate::rules::{findings_of, run_rules};
use crate::types::{ConfidenceLevel, Metrics};

verus! {

/// The confidence in a counter that was read from the logs: high where it
/// is there and positive, low otherwise.
pub open spec fn counter_confidence(counter: Option<u64>) -> ConfidenceLevel {
    match counter {
        Some(v) => if v > 0 {
            ConfidenceLevel::High
        } else {
            ConfidenceLevel::Low
        },
        None => ConfidenceLevel::Low,
    }
}

/// The bytes of the update. A positive predicted count stands as read. A
/// count of zero, or none at all, gives way to the changed content bytes,
/// and to zero where those are absent too.
pub open spec fn resolved_new_bytes(c: SteamPipeCounters) -> u64 {
    match c.predicted_update_bytes {
        Some(nb) => if nb > 0 {
            nb
        } else {
            match c.changed_content_bytes {
                Some(cb) => cb,
                None => 0,
            }
        },
        None => match c.changed_content_bytes {
            Some(cb) => cb,
            None => 0,
        },
    }
}

/// The bytes of changed content: as read, or else the predicted count, or
/// else zero.
pub open spec fn resolved_changed_bytes(c: SteamPipeCounters) -> u64 {
    match c.changed_content_bytes {
        Some(cb) => cb,
        None => match c.predicted_update_bytes {
            Some(nb) => nb,
            None => 0,
        },
    }
}

/// The share of the update that is changed content: `changed / new`, at
/// most one, and one where there is no update at all.
pub open spec fn efficiency_of(new_bytes: u64, changed: u64) -> Ratio {
    if new_bytes == 0 {
        Ratio { num: 1, den: 1 }
    } else if changed >= new_bytes {
        Ratio { num: new_bytes, den: new_bytes }
    } else {
        Ratio { num: changed, den: new_bytes }
    }
}

/// The share of the update that is not changed content: what the
/// efficiency leaves of one.
pub open spec fn waste_of(new_bytes: u64, changed: u64) -> Ratio {
    if new_bytes == 0 {
        Ratio { num: 0, den: 1 }
    } else if changed >= new_bytes {
        Ratio { num: 0, den: new_bytes }
    } else {
        Ratio { num: (new_bytes - changed) as u64, den: new_bytes }
    }
}

/// The metrics that a pair of counters resolves to.
pub open spec fn metrics_of(c: SteamPipeCounters) -> Metrics {
    let new_bytes = resolved_new_bytes(c);
    let changed = resolved_changed_bytes(c);
    Metrics {
        new_bytes,
        changed_content_bytes: changed,
        delta_efficiency: efficiency_of(new_bytes, changed),
        waste_ratio: waste_of(new_bytes, changed),
    }
}

/// The lower of two confidences, where anything paired with a low one is low.
pub open spec fn confidence_meet(a: ConfidenceLevel, b: ConfidenceLevel) -> ConfidenceLevel {
    if a == ConfidenceLevel::High && b == ConfidenceLevel::High {
        ConfidenceLevel::High
    } else if a == ConfidenceLevel::Low || b == ConfidenceLevel::Low {
        ConfidenceLevel::Low
    } else {
        ConfidenceLevel::Medium
    }
}

/// The confidence in the metrics of a pair of counters. A counter counts
/// as read only where the logs gave it a positive value; the two ratios
/// are of medium confidence always.
pub open spec fn confidence_of(c: SteamPipeCounters) -> ConfidenceSummary {
    let new_bytes = counter_confidence(c.predicted_update_bytes);
    let changed = counter_confidence(c.changed_content_bytes);
    ConfidenceSummary {
        new_bytes,
        changed_content_bytes: changed,
        delta_efficiency: ConfidenceLevel::Medium,
        waste_ratio: ConfidenceLevel::Medium,
        overall: confidence_meet(new_bytes, changed),
    }
}

/// The confidence in the whole, given the confidence in each counter.
pub fn confidence_overall(a: ConfidenceLevel, b: ConfidenceLevel) -> (r: ConfidenceLevel)
    ensures
        r == confidence_meet(a, b),
{
    match (a, b) {
        (ConfidenceLevel::High, ConfidenceLevel::High) => ConfidenceLevel::High,
        (ConfidenceLevel::High, ConfidenceLevel::Medium)
        | (ConfidenceLevel::Medium, ConfidenceLevel::High)
        | (ConfidenceLevel::Medium, ConfidenceLevel::Medium) => ConfidenceLevel::Medium,
        _ => ConfidenceLevel::Low,
    }
}

/// Resolves the counters of a parsed build into metrics, and says how far
/// each can be trusted.
pub fn compute_metrics(parsed: &ParsedBuildOutput) -> (r: (Metrics, ConfidenceSummary))
    ensures
        r.0 == metrics_of(parsed.counters),
        r.1 == confidence_of(parsed.counters),
        r.0.delta_efficiency.sums_to_one(r.0.waste_ratio),
{
    resolve_counters(&parsed.counters)
}

/// Resolves a pair of counters into metrics, and says how far each can be
/// trusted.
pub fn resolve_counters(c: &SteamPipeCounters) -> (r: (Metrics, ConfidenceSummary))
    ensures
        r.0 == metrics_of(*c),
        r.1 == confidence_of(*c),
        r.0.delta_efficiency.sums_to_one(r.0.waste_ratio),
{
    let mut new_bytes = c.predicted_update_bytes;
    let mut changed_content_bytes = c.changed_content_bytes;
    let mut new_conf = ConfidenceLevel::Low;
    let mut changed_conf = ConfidenceLevel::Low;
    if let Some(v) = new_bytes {
        if v > 0 {
            new_conf = ConfidenceLevel::High;
        }
    }
    if let Some(v) = changed_content_bytes {
        if v > 0 {
            changed_conf = ConfidenceLevel::High;
        }
    }
    if let (Some(0), Some(cb)) = (new_bytes, changed_content_bytes) {
        if cb > 0 {
            new_bytes = Some(cb);
            new_conf = ConfidenceLevel::Low;
        }
    }
    match (new_bytes, changed_content_bytes) {
        (Some(nb), None) => {
            changed_content_bytes = Some(nb);
            changed_conf = ConfidenceLevel::Low;
        },
        (None, Some(cb)) => {
            new_bytes = Some(cb);
            new_conf = ConfidenceLevel::Low;
        },
        (None, None) => {
            new_bytes = Some(0);
            changed_content_bytes = Some(0);
        },
        _ => {},
    }
    let nb: u64 = new_bytes.unwrap_or(0);
    let cb: u64 = changed_content_bytes.unwrap_or(0);
    let delta_efficiency = if nb == 0 {
        Ratio::one()
    } else if cb >= nb {
        Ratio::new(nb, nb)
    } else {
        Ratio::new(cb, nb)
    };
    let waste_ratio = if nb == 0 {
        Ratio::zero()
    } else if cb >= nb {
        Ratio::new(0, nb)
    } else {
        Ratio::new(nb - cb, nb)
    };
    proof {
        lemma_efficiency_and_waste_sum_to_one(nb, cb);
    }
    let metrics = Metrics { new_bytes: nb, changed_content_bytes: cb, delta_efficiency, waste_ratio };
    let confidence = ConfidenceSummary {
        new_bytes: new_conf,
        changed_content_bytes: changed_conf,
        delta_efficiency: ConfidenceLevel::Medium,
        waste_ratio: ConfidenceLevel::Medium,
        overall: confidence_overall(new_conf, changed_conf),
    };
    (metrics, confidence)
}

/// The overall confidence does not depend on the order of the two
/// confidences, a confidence paired with itself gives itself, and three
/// can be paired in any grouping.
pub proof fn lemma_confidence_meet_laws(a: ConfidenceLevel, b: ConfidenceLevel, c: ConfidenceLevel)
    ensures
        confidence_meet(a, b) == confidence_meet(b, a),
        confidence_meet(a, a) == a,
        confidence_meet(confidence_meet(a, b), c) == confidence_meet(a, confidence_meet(b, c)),
{
}

/// Efficiency and waste add up to exactly one, whatever the two counts are.
pub proof fn lemma_efficiency_and_waste_sum_to_one(new_bytes: u64, changed: u64)
    ensures
        efficiency_of(new_bytes, changed).sums_to_one(waste_of(new_bytes, changed)),
{
    let e = efficiency_of(new_bytes, changed);
    let w = waste_of(new_bytes, changed);
    if new_bytes > 0 {
        assert(e.den == new_bytes && w.den == new_bytes);
        assert(e.num + w.num == new_bytes);
        assert(e.num * w.den + w.num * e.den == e.den * w.den) by (nonlinear_arith)
            requires
                e.den == w.den,
                e.num + w.num == e.den,
        ;
    }
}

/// The two ratios of any pair of counters lie between zero and one, and
/// add up to exactly one.
pub proof fn lemma_metrics_ratios(c: SteamPipeCounters)
    ensures
        metrics_of(c).delta_efficiency.sums_to_one(metrics_of(c).waste_ratio),
        (Ratio { num: 0, den: 1 }).at_most(metrics_of(c).delta_efficiency),
        metrics_of(c).delta_efficiency.at_most(Ratio { num: 1, den: 1 }),
        (Ratio { num: 0, den: 1 }).at_most(metrics_of(c).waste_ratio),
        metrics_of(c).waste_ratio.at_most(Ratio { num: 1, den: 1 }),
{
    lemma_efficiency_and_waste_sum_to_one(resolved_new_bytes(c), resolved_changed_bytes(c));
}

/// Where there is no update, nothing is wasted: the efficiency is one and
/// the waste is zero.
pub proof fn lemma_no_update_no_waste(c: SteamPipeCounters)
    requires
        metrics_of(c).new_bytes == 0,
    ensures
        metrics_of(c).delta_efficiency == (Ratio { num: 1, den: 1 }),
        metrics_of(c).waste_ratio == (Ratio { num: 0, den: 1 }),
{
}

/// What an analysis is asked to do.
#[derive(Debug, Clone, PartialEq, Eq)]
pub struct AnalyzeOptions {
    /// A build that never states the predicted update bytes is an error.
    pub strict: bool,
    /// The bytes of an earlier report to hold the build against.
    pub baseline_json: Option<Vec<u8>>,
    /// The regression ratio that the build may reach.
    pub budget_ratio: Option<Ratio>,
    /// The most bytes of logs that are read.
    pub max_total_bytes_scanned: u64,
    pub build_metadata: Option<BuildMetadata>,
}

/// The bytes of logs that are read where nothing else is asked: 50 MiB.
pub const DEFAULT_MAX_TOTAL_BYTES_SCANNED: u64 = 52_428_800;

impl Default for AnalyzeOptions {
    fn default() -> (r: AnalyzeOptions)
        ensures
            !r.strict,
            r.baseline_json is None,
            r.budget_ratio is None,
            r.max_total_bytes_scanned == DEFAULT_MAX_TOTAL_BYTES_SCANNED,
            r.build_metadata is None,
    {
        AnalyzeOptions {
            strict: false,
            baseline_json: None,
            budget_ratio: None,
            max_total_bytes_scanned: DEFAULT_MAX_TOTAL_BYTES_SCANNED,
            build_metadata: None,
        }
    }
}

impl AnalyzeOptions {
    /// The mode in which the logs are read.
    pub open spec fn mode(self) -> ParseMode {
        if self.strict {
            ParseMode::Strict
        } else {
            ParseMode::BestEffort
        }
    }

    /// The mode in which the logs are read.
    pub fn parse_mode(&self) -> (m: ParseMode)
        ensures
            m == self.mode(),
    {
        if self.strict {
            ParseMode::Strict
        } else {
            ParseMode::BestEffort
        }
    }
}

/// Why an analysis came to nothing.
#[derive(Debug, Clone, PartialEq, Eq)]
pub enum AnalyzeError {
    /// The logs could not be read.
    Scan(ScanError),
    /// The baseline could not be read.
    Baseline(BaselineError),
}

impl AnalyzeError {
    /// The error in words, with where it happened in front.
    pub open spec fn text(self, input: Seq<char>) -> Seq<char> {
        match self {
            AnalyzeError::Scan(e) => "failed to parse BuildOutput at "@ + input + ": "@
                + e@.text(),
            AnalyzeError::Baseline(e) => "failed to load baseline: "@ + e.text(),
        }
    }

    /// The error in words, with where it happened in front.
    pub fn message(&self, input: &str) -> (s: String)
        ensures
            s@ == self.text(input@),
    {
        let mut s = String::new();
        match self {
            AnalyzeError::Scan(e) => {
                s.append("failed to parse BuildOutput at ");
                s.append(input);
                s.append(": ");
                let detail = e.message();
                s.append(detail.as_str());
                assert(s@ =~= "failed to parse BuildOutput at "@ + input@ + ": "@ + e@.text());
            },
            AnalyzeError::Baseline(e) => {
                s.append("failed to load baseline: ");
                let detail = e.message();
                s.append(detail.as_str());
                assert(s@ =~= "failed to load baseline: "@ + e.text());
            },
        }
        s
    }
}

/// The report on one depot: its own metrics and how far they can be trusted.
pub open spec fn depot_report_of(d: DepotOutputModel) -> DepotReportModel {
    DepotReportModel {
        depot_id: d.depot_id,
        metrics: metrics_of(d.counters),
        confidence: confidence_of(d.counters).overall,
    }
}

/// The result of the budget gate, which exists only where a threshold and
/// a comparison both do.
pub open spec fn budget_for(threshold: Option<Ratio>, comparison: Option<BaselineComparison>) -> Option<
    BudgetResultModel,
> {
    match (threshold, comparison) {
        (Some(t), Some(c)) => Some(budget_of(t, c)),
        _ => None,
    }
}

/// The comparison with a baseline, where there is one.
pub open spec fn comparison_for(baseline: Option<Baseline>, new_bytes: u64) -> Option<
    BaselineComparison,
> {
    match baseline {
        Some(b) => Some(comparison_of(b.baseline_new_bytes, new_bytes)),
        None => None,
    }
}

/// The report on a parsed build.
pub open spec fn report_of(
    input: Seq<char>,
    parsed: ParsedBuildOutputModel,
    baseline: Option<Baseline>,
    budget_ratio: Option<Ratio>,
    build_metadata: Option<BuildMetadataModel>,
) -> ReportModel {
    let metrics = metrics_of(parsed.counters);
    let comparison = comparison_for(baseline, metrics.new_bytes);
    ReportModel {
        report_version: "1.0.0"@,
        inputs: InputsModel {
            input_path: input,
            parse_mode: parsed.mode.label(),
            sources: parsed.sources,
        },
        metrics,
        confidence: confidence_of(parsed.counters),
        findings: findings_of(parsed, metrics),
        baseline_comparison: comparison,
        budget: budget_for(budget_ratio, comparison),
        build_metadata: kept_metadata(build_metadata),
        per_depot: Seq::new(parsed.per_depot.len(), |i: int| depot_report_of(parsed.per_depot[i])),
    }
}

/// The view of the baseline bytes that come with the options.
pub open spec fn baseline_bytes(opts: AnalyzeOptions) -> Option<Seq<u8>> {
    match opts.baseline_json {
        Some(bytes) => Some(bytes@),
        None => None,
    }
}

/// The report that the analysis of a parsed build comes to, and `None`
/// where a baseline is given that is no JSON document.
pub open spec fn analysis_report(
    input: Seq<char>,
    parsed: ParsedBuildOutputModel,
    opts: AnalyzeOptions,
) -> Option<ReportModel> {
    match baseline_bytes(opts) {
        Some(bytes) => match baseline_in(bytes) {
            Some(b) => Some(
                report_of(
                    input,
                    parsed,
                    Some(b),
                    opts.budget_ratio,
                    opts.build_metadata.deep_view(),
                ),
            ),
            None => None,
        },
        None => Some(
            report_of(input, parsed, None, opts.budget_ratio, opts.build_metadata.deep_view()),
        ),
    }
}

/// Whether `r` is what the analysis of a parsed build comes to: the report,
/// or the error of the baseline where that is no JSON document.
pub open spec fn analysis_outcome(
    input: Seq<char>,
    parsed: ParsedBuildOutputModel,
    opts: AnalyzeOptions,
    r: Result<Report, AnalyzeError>,
) -> bool {
    match analysis_report(input, parsed, opts) {
        Some(report) => r matches Ok(x) && x@ == report,
        None => r matches Err(AnalyzeError::Baseline(_)),
    }
}

fn depot_reports(depots: &Vec<DepotOutput>) -> (r: Vec<DepotReport>)
    ensures
        r.deep_view() == Seq::new(
            depots.deep_view().len(),
            |i: int| depot_report_of(depots.deep_view()[i]),
        ),
{
    let mut r: Vec<DepotReport> = Vec::new();
    let mut i: usize = 0;
    while i < depots.len()
        invariant
            i <= depots.len(),
            r.len() == i,
            forall|j: int| 0 <= j < i ==> r[j]@ == depot_report_of(#[trigger] depots[j]@),
        decreases depots.len() - i,
    {
        let d = &depots[i];
        let (metrics, confidence) = resolve_counters(&d.counters);
        r.push(DepotReport { depot_id: d.depot_id.clone(), metrics, confidence: confidence.overall });
        i += 1;
    }
    assert(r.deep_view() =~= Seq::new(
        depots.deep_view().len(),
        |i: int| depot_report_of(depots.deep_view()[i]),
    ));
    r
}

/// Analyses a parsed build: derives the metrics, holds them against the
/// rules, the baseline and the budget, and puts the report together.
pub fn analyze_parsed(input: &str, parsed: ParsedBuildOutput, opts: AnalyzeOptions) -> (r: Result<
    Report,
    AnalyzeError,
>)
    ensures
        analysis_outcome(input@, parsed@, opts, r),
{
    let (metrics, confidence) = compute_metrics(&parsed);
    let findings = run_rules(&parsed, &metrics);
    let baseline = match &opts.baseline_json {
        Some(bytes) => match Baseline::from_report_json(bytes.as_slice()) {
            Ok(b) => Some(b),
            Err(e) => {
                return Err(AnalyzeError::Baseline(e));
            },
        },
        None => None,
    };
    let comparison = match &baseline {
        Some(b) => Some(compare_to_baseline(b, &metrics)),
        None => None,
    };
    let budget = match (&opts.budget_ratio, &comparison) {
        (Some(threshold), Some(c)) => Some(evaluate_budget(*threshold, c)),
        _ => None,
    };
    let per_depot = depot_reports(&parsed.per_depot);
    let mut report = Report::new(
        input,
        parsed.mode,
        metrics,
        confidence,
        findings,
        comparison,
        budget,
        opts.build_metadata,
    );
    report.inputs.sources = parsed.sources;
    report.per_depot = per_depot;
    Ok(report)
}

/// Whether `r` is what the analysis of a tree of log files comes to: the
/// error of the scan where it fails, and the analysis of what the scan
/// yields otherwise.
pub open spec fn analysis_of_files(
    input: Seq<char>,
    files: Seq<LogFileModel>,
    opts: AnalyzeOptions,
    r: Result<Report, AnalyzeError>,
) -> bool {
    match scan_outcome(files, opts.mode(), opts.max_total_bytes_scanned) {
        Ok(parsed) => analysis_outcome(input, parsed, opts, r),
        Err(e) => r matches Err(AnalyzeError::Scan(x)) && x@ == e,
    }
}

/// Analyses the log files of a tree, given in the order in which the tree
/// was walked.
pub fn analyze_dir(input: &str, files: &Vec<LogFile>, opts: AnalyzeOptions) -> (r: Result<
    Report,
    AnalyzeError,
>)
    ensures
        analysis_of_files(input@, files.deep_view(), opts, r),
{
    let mode = opts.parse_mode();
    match parse_buildoutput_dir(files, mode, opts.max_total_bytes_scanned) {
        Ok(parsed) => analyze_parsed(input, parsed, opts),
        Err(e) => Err(AnalyzeError::Scan(e)),
    }
}

} // verus!
