use patchwaste_core::parser::{ParseMode, ParsedBuildOutput, SteamPipeCounters};
use patchwaste_core::ratio::Ratio;
use patchwaste_core::rules::{run_rules, LARGE_OFFENDER_BYTES};
use patchwaste_core::types::{FileOffender, Finding, Metrics, Severity};

fn parsed(offenders: Vec<FileOffender>) -> ParsedBuildOutput {
    ParsedBuildOutput {
        mode: ParseMode::BestEffort,
        counters: SteamPipeCounters::default(),
        offenders,
        sources: vec![],
        per_depot: vec![],
    }
}

fn metrics(new_bytes: u64, waste: Ratio) -> Metrics {
    Metrics {
        new_bytes,
        changed_content_bytes: 0,
        delta_efficiency: Ratio { num: 0, den: 1 },
        waste_ratio: waste,
    }
}

fn offender(path: &str, bytes: u64) -> FileOffender {
    FileOffender { path: path.to_string(), bytes }
}

#[test]
fn high_waste_is_found_from_one_half() {
    let found = run_rules(&parsed(vec![]), &metrics(10, Ratio { num: 1, den: 2 }));
    assert_eq!(
        found,
        vec![Finding {
            id: "HIGH_WASTE_RATIO".to_string(),
            severity: Severity::High,
            evidence: vec!["waste_ratio=0.500".to_string()],
            likely_cause: "Large packed file churn or content reorder causing many new chunks"
                .to_string(),
            suggested_actions: vec![
                "Avoid reordering assets inside large packed files between builds".to_string(),
                "Split packs by level/realm to localize churn".to_string(),
                "Align pack layout to stable boundaries (e.g., 1MB) where applicable".to_string(),
            ],
        }]
    );
    assert!(run_rules(&parsed(vec![]), &metrics(10, Ratio { num: 499, den: 1000 })).is_empty());
    assert!(run_rules(&parsed(vec![]), &metrics(0, Ratio { num: 1, den: 1 })).is_empty());
}

#[test]
fn large_top_offender_is_found_from_100_mib() {
    assert_eq!(LARGE_OFFENDER_BYTES, 100 * 1024 * 1024);
    let found = run_rules(
        &parsed(vec![offender("big.pak", 104_857_600), offender("other", 1 << 40)]),
        &metrics(10, Ratio { num: 0, den: 1 }),
    );
    assert_eq!(
        found,
        vec![Finding {
            id: "LARGE_TOP_OFFENDER".to_string(),
            severity: Severity::Medium,
            evidence: vec!["big.pak (104857600 bytes)".to_string()],
            likely_cause: "A large file dominates predicted update size".to_string(),
            suggested_actions: vec![
                "If this is a pack file, consider splitting into multiple packs".to_string(),
                "Ensure build process does not rewrite the whole file for small changes"
                    .to_string(),
            ],
        }]
    );
    let below = run_rules(
        &parsed(vec![offender("big.pak", 104_857_599), offender("other", 1 << 40)]),
        &metrics(10, Ratio { num: 0, den: 1 }),
    );
    assert!(below.is_empty());
}

#[test]
fn findings_come_in_the_order_of_their_identifiers() {
    let p = parsed(vec![offender("big.pak", 1 << 30)]);
    let m = metrics(10, Ratio { num: 9, den: 10 });
    let found = run_rules(&p, &m);
    let ids: Vec<&str> = found.iter().map(|f| f.id.as_str()).collect();
    assert_eq!(ids, vec!["HIGH_WASTE_RATIO", "LARGE_TOP_OFFENDER"]);
    let mut sorted = ids.clone();
    sorted.sort();
    assert_eq!(ids, sorted);
}

#[test]
fn rules_give_the_same_findings_twice() {
    let p = parsed(vec![offender("big.pak", 1 << 30)]);
    let m = metrics(10, Ratio { num: 9, den: 10 });
    assert_eq!(run_rules(&p, &m), run_rules(&p, &m));
    let q = parsed(vec![]);
    let n = metrics(10, Ratio { num: 1, den: 10 });
    assert_eq!(run_rules(&q, &n), run_rules(&q, &n));
    assert!(run_rules(&q, &n).is_empty());
}
