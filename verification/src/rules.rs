use vstd::prelude::*;
use vstd::utf8::{encode_utf8, is_ascii_chars, is_ascii_chars_encode_utf8};
use crate::parser::{ParsedBuildOutput, ParsedBuildOutputModel};
use crate::ratio::Ratio;
use crate::text::{decimal, push_decimal, text_precedes};
use crate::types::{FileOffenderModel, Finding, FindingModel, Metrics, Severity};

verus! {

/// The size from which the largest offender is reported: 100 MiB.
pub const LARGE_OFFENDER_BYTES: u64 = 104_857_600;

/// At least half of a non-empty update is waste.
pub open spec fn high_waste_applies(m: Metrics) -> bool {
    (Ratio { num: 1, den: 2 }).at_most(m.waste_ratio) && m.new_bytes > 0
}

/// The first offender, which after sorting is the largest, is of the
/// reported size or more.
pub open spec fn large_offender_applies(offenders: Seq<FileOffenderModel>) -> bool {
    offenders.len() > 0 && offenders[0].bytes >= LARGE_OFFENDER_BYTES
}

/// The finding on high waste; its evidence is the waste ratio.
pub open spec fn high_waste_finding(m: Metrics) -> FindingModel {
    FindingModel {
        id: "HIGH_WASTE_RATIO"@,
        severity: Severity::High,
        evidence: seq!["waste_ratio="@ + m.waste_ratio.fixed3()],
        likely_cause: "Large packed file churn or content reorder causing many new chunks"@,
        suggested_actions: seq![
            "Avoid reordering assets inside large packed files between builds"@,
            "Split packs by level/realm to localize churn"@,
            "Align pack layout to stable boundaries (e.g., 1MB) where applicable"@,
        ],
    }
}

/// The finding on a large top offender; its evidence names the offender
/// and its size.
pub open spec fn large_offender_finding(o: FileOffenderModel) -> FindingModel {
    FindingModel {
        id: "LARGE_TOP_OFFENDER"@,
        severity: Severity::Medium,
        evidence: seq![o.path + " ("@ + decimal(o.bytes as nat) + " bytes)"@],
        likely_cause: "A large file dominates predicted update size"@,
        suggested_actions: seq![
            "If this is a pack file, consider splitting into multiple packs"@,
            "Ensure build process does not rewrite the whole file for small changes"@,
        ],
    }
}

/// The findings of a build: one for each rule that applies, ordered by
/// identifier.
pub open spec fn findings_of(parsed: ParsedBuildOutputModel, m: Metrics) -> Seq<FindingModel> {
    let waste = if high_waste_applies(m) {
        seq![high_waste_finding(m)]
    } else {
        Seq::empty()
    };
    let offender = if large_offender_applies(parsed.offenders) {
        seq![large_offender_finding(parsed.offenders[0])]
    } else {
        Seq::empty()
    };
    waste + offender
}

fn one_line(line: String) -> (v: Vec<String>)
    ensures
        v.deep_view() == seq![line@],
{
    let mut v: Vec<String> = Vec::new();
    v.push(line);
    assert(v.deep_view() =~= seq![line@]);
    v
}

fn high_waste(metrics: &Metrics) -> (f: Finding)
    ensures
        f@ == high_waste_finding(*metrics),
{
    let mut evidence = String::new();
    evidence.append("waste_ratio=");
    metrics.waste_ratio.push_fixed3(&mut evidence);
    assert(evidence@ =~= "waste_ratio="@ + metrics.waste_ratio.fixed3());
    let mut actions: Vec<String> = Vec::new();
    actions.push("Avoid reordering assets inside large packed files between builds".to_owned());
    actions.push("Split packs by level/realm to localize churn".to_owned());
    actions.push("Align pack layout to stable boundaries (e.g., 1MB) where applicable".to_owned());
    assert(actions.deep_view() =~= high_waste_finding(*metrics).suggested_actions);
    Finding {
        id: "HIGH_WASTE_RATIO".to_owned(),
        severity: Severity::High,
        evidence: one_line(evidence),
        likely_cause: "Large packed file churn or content reorder causing many new chunks".to_owned(),
        suggested_actions: actions,
    }
}

fn large_offender(path: &str, bytes: u64) -> (f: Finding)
    ensures
        f@ == large_offender_finding(FileOffenderModel { path: path@, bytes }),
{
    let mut evidence = String::new();
    evidence.append(path);
    evidence.append(" (");
    push_decimal(&mut evidence, bytes as u128);
    evidence.append(" bytes)");
    assert(evidence@ =~= path@ + " ("@ + decimal(bytes as nat) + " bytes)"@);
    let mut actions: Vec<String> = Vec::new();
    actions.push("If this is a pack file, consider splitting into multiple packs".to_owned());
    actions.push(
        "Ensure build process does not rewrite the whole file for small changes".to_owned(),
    );
    assert(actions.deep_view() =~= large_offender_finding(
        FileOffenderModel { path: path@, bytes },
    ).suggested_actions);
    Finding {
        id: "LARGE_TOP_OFFENDER".to_owned(),
        severity: Severity::Medium,
        evidence: one_line(evidence),
        likely_cause: "A large file dominates predicted update size".to_owned(),
        suggested_actions: actions,
    }
}

/// Holds a parsed build and its metrics against the rules.
pub fn run_rules(parsed: &ParsedBuildOutput, metrics: &Metrics) -> (findings: Vec<Finding>)
    ensures
        findings.deep_view() == findings_of(parsed@, *metrics),
{
    let mut findings: Vec<Finding> = Vec::new();
    let half = Ratio::new(1, 2);
    if half.le(&metrics.waste_ratio) && metrics.new_bytes > 0 {
        findings.push(high_waste(metrics));
    }
    if parsed.offenders.len() > 0 {
        let top = &parsed.offenders[0];
        if top.bytes >= LARGE_OFFENDER_BYTES {
            findings.push(large_offender(top.path.as_str(), top.bytes));
        }
    }
    assert(findings.deep_view() =~= findings_of(parsed@, *metrics));
    findings
}

/// The findings come in the order of their identifiers, and no identifier
/// comes twice.
pub proof fn lemma_findings_in_identifier_order(parsed: ParsedBuildOutputModel, m: Metrics)
    ensures
        forall|i: int, j: int|
            0 <= i < j < findings_of(parsed, m).len() ==> text_precedes(
                #[trigger] findings_of(parsed, m)[i].id,
                #[trigger] findings_of(parsed, m)[j].id,
            ),
{
    let first = "HIGH_WASTE_RATIO"@;
    let second = "LARGE_TOP_OFFENDER"@;
    reveal_strlit("HIGH_WASTE_RATIO");
    reveal_strlit("LARGE_TOP_OFFENDER");
    assert(is_ascii_chars(first));
    assert(is_ascii_chars(second));
    is_ascii_chars_encode_utf8(first);
    is_ascii_chars_encode_utf8(second);
    assert(first[0] == 'H' && second[0] == 'L');
    assert(encode_utf8(first)[0] == 0x48u8);
    assert(encode_utf8(second)[0] == 0x4cu8);
    assert(text_precedes(first, second));
}


} // verus!
