use patchwaste_core::parser::{ParseMode, ParsedBuildOutput, SteamPipeCounters};
use patchwaste_core::ratio::Ratio;
use patchwaste_core::types::ConfidenceLevel;
use patchwaste_core::types::ConfidenceLevel::{High, Low, Medium};
use patchwaste_core::{compute_metrics, confidence_overall, resolve_counters};

fn parsed(predicted: Option<u64>, changed: Option<u64>) -> ParsedBuildOutput {
    ParsedBuildOutput {
        mode: ParseMode::BestEffort,
        counters: SteamPipeCounters {
            predicted_update_bytes: predicted,
            changed_content_bytes: changed,
        },
        offenders: vec![],
        sources: vec![],
        per_depot: vec![],
    }
}

#[test]
fn metrics_handle_zero_new_bytes_with_positive_changed_bytes() {
    let parsed = ParsedBuildOutput {
        mode: ParseMode::BestEffort,
        counters: SteamPipeCounters {
            predicted_update_bytes: Some(0),
            changed_content_bytes: Some(1024),
        },
        offenders: vec![],
        sources: vec!["x.log".to_string()],
        per_depot: vec![],
    };

    let (metrics, confidence) = compute_metrics(&parsed);

    assert_eq!(metrics.new_bytes, 1024);
    assert_eq!(metrics.changed_content_bytes, 1024);
    assert!(!metrics.delta_efficiency.le(&Ratio::zero()));
    assert_eq!(confidence.new_bytes, ConfidenceLevel::Low);
}

#[test]
fn metrics_waste_plus_efficiency_equals_one() {
    let pairs: [(u64, u64); 7] = [
        (1, 1),
        (12_345_678, 2_000_000),
        (9_999_999_999, 1),
        (3, 9_999_999_999),
        (u64::MAX, u64::MAX - 1),
        (7, 0),
        (1000, 999),
    ];
    for (new_bytes, changed) in pairs {
        let (m, _) = compute_metrics(&parsed(Some(new_bytes), Some(changed)));
        assert_eq!(m.delta_efficiency.den, m.waste_ratio.den);
        assert_eq!(m.delta_efficiency.num + m.waste_ratio.num, m.waste_ratio.den);
        assert!(m.delta_efficiency.le(&Ratio::one()));
        assert!(m.waste_ratio.le(&Ratio::one()));
    }
}

#[test]
fn metrics_follow_the_formulas() {
    let (m, c) = compute_metrics(&parsed(Some(12_345_678), Some(2_000_000)));
    assert_eq!(m.new_bytes, 12_345_678);
    assert_eq!(m.changed_content_bytes, 2_000_000);
    assert_eq!(m.delta_efficiency, Ratio { num: 2_000_000, den: 12_345_678 });
    assert_eq!(m.waste_ratio, Ratio { num: 10_345_678, den: 12_345_678 });
    assert_eq!(m.waste_ratio.to_fixed3(), "0.838");
    assert_eq!(c.new_bytes, ConfidenceLevel::High);
    assert_eq!(c.changed_content_bytes, ConfidenceLevel::High);
    assert_eq!(c.delta_efficiency, ConfidenceLevel::Medium);
    assert_eq!(c.waste_ratio, ConfidenceLevel::Medium);
    assert_eq!(c.overall, ConfidenceLevel::High);
}

#[test]
fn efficiency_is_held_at_one() {
    let (m, _) = compute_metrics(&parsed(Some(10), Some(25)));
    assert_eq!(m.new_bytes, 10);
    assert_eq!(m.changed_content_bytes, 25);
    assert_eq!(m.delta_efficiency, Ratio { num: 10, den: 10 });
    assert_eq!(m.waste_ratio, Ratio { num: 0, den: 10 });
}

#[test]
fn nothing_to_measure_means_nothing_wasted() {
    for counters in [(None, None), (Some(0), None), (None, Some(0)), (Some(0), Some(0))] {
        let (m, c) = compute_metrics(&parsed(counters.0, counters.1));
        assert_eq!(m.new_bytes, 0);
        assert_eq!(m.changed_content_bytes, 0);
        assert_eq!(m.delta_efficiency, Ratio { num: 1, den: 1 });
        assert_eq!(m.waste_ratio, Ratio { num: 0, den: 1 });
        assert_eq!(c.new_bytes, ConfidenceLevel::Low);
        assert_eq!(c.changed_content_bytes, ConfidenceLevel::Low);
        assert_eq!(c.overall, ConfidenceLevel::Low);
    }
}

#[test]
fn a_lone_counter_is_copied_into_the_other() {
    let (m, c) = compute_metrics(&parsed(Some(500), None));
    assert_eq!((m.new_bytes, m.changed_content_bytes), (500, 500));
    assert_eq!(c.new_bytes, ConfidenceLevel::High);
    assert_eq!(c.changed_content_bytes, ConfidenceLevel::Low);
    assert_eq!(c.overall, ConfidenceLevel::Low);

    let (m, c) = compute_metrics(&parsed(None, Some(300)));
    assert_eq!((m.new_bytes, m.changed_content_bytes), (300, 300));
    assert_eq!(c.new_bytes, ConfidenceLevel::Low);
    assert_eq!(c.changed_content_bytes, ConfidenceLevel::High);
    assert_eq!(c.overall, ConfidenceLevel::Low);
}

#[test]
fn resolve_counters_agrees_with_compute_metrics() {
    let counters = SteamPipeCounters {
        predicted_update_bytes: Some(8),
        changed_content_bytes: Some(2),
    };
    assert_eq!(resolve_counters(&counters), compute_metrics(&parsed(Some(8), Some(2))));
}

#[test]
fn confidence_meet_over_all_pairs() {
    assert_eq!(confidence_overall(High, High), High);
    assert_eq!(confidence_overall(High, Medium), Medium);
    assert_eq!(confidence_overall(Medium, High), Medium);
    assert_eq!(confidence_overall(Medium, Medium), Medium);
    assert_eq!(confidence_overall(High, Low), Low);
    assert_eq!(confidence_overall(Low, High), Low);
    assert_eq!(confidence_overall(Medium, Low), Low);
    assert_eq!(confidence_overall(Low, Medium), Low);
    assert_eq!(confidence_overall(Low, Low), Low);
}
