use patchwaste_core::parser::scan::{LogFile, ScanError};
use patchwaste_core::parser::{parse_buildoutput_dir, ParseMode};
use patchwaste_core::ratio::Ratio;
use patchwaste_core::report::BuildMetadata;
use patchwaste_core::types::ConfidenceLevel;
use patchwaste_core::{
    analyze_dir, analyze_parsed, AnalyzeError, AnalyzeOptions, DEFAULT_MAX_TOTAL_BYTES_SCANNED,
};

fn log(path: &str, contents: &str) -> LogFile {
    let name = path.rsplit('/').next().unwrap();
    let (stem, extension) = name.rsplit_once('.').unwrap();
    let parent = path.rsplit('/').nth(1).unwrap_or("");
    LogFile {
        path: path.to_string(),
        file_stem: stem.to_string(),
        parent_name: parent.to_string(),
        extension: extension.to_string(),
        contents: contents.as_bytes().to_vec(),
    }
}

fn synthetic_case_01() -> Vec<LogFile> {
    vec![log(
        "fixtures/synthetic_case_01/BuildOutput/steampipe_preview.log",
        "SteamPipe preview\nPREDICTED_UPDATE_BYTES=12345678\nCHANGED_CONTENT_BYTES=2000000\n",
    )]
}

#[test]
fn default_options_ask_for_a_lenient_scan_of_50_mib() {
    let opts = AnalyzeOptions::default();
    assert!(!opts.strict);
    assert_eq!(opts.baseline_json, None);
    assert_eq!(opts.budget_ratio, None);
    assert_eq!(opts.max_total_bytes_scanned, 50 * 1024 * 1024);
    assert_eq!(DEFAULT_MAX_TOTAL_BYTES_SCANNED, 50 * 1024 * 1024);
    assert_eq!(opts.build_metadata, None);
    assert_eq!(opts.parse_mode(), ParseMode::BestEffort);
    let strict = AnalyzeOptions { strict: true, ..AnalyzeOptions::default() };
    assert_eq!(strict.parse_mode(), ParseMode::Strict);
}

#[test]
fn analyze_fixture_produces_stable_report_json() {
    let input = "../../fixtures/synthetic_case_01/BuildOutput";
    let opts = AnalyzeOptions {
        strict: false,
        ..AnalyzeOptions::default()
    };

    let report = analyze_dir(input, &synthetic_case_01(), opts).expect("analyze_dir ok");

    assert_eq!(report.metrics.new_bytes, 12_345_678);
    assert_eq!(report.metrics.changed_content_bytes, 2_000_000);
    assert!(report
        .inputs
        .sources
        .iter()
        .any(|s| s.contains("steampipe_preview.log")));

    assert_eq!(report.report_version, "1.0.0");
    assert_eq!(report.inputs.input_path, input);
    assert_eq!(report.inputs.parse_mode, "BEST_EFFORT");
    assert_eq!(report.metrics.waste_ratio.to_fixed3(), "0.838");
    assert_eq!(report.metrics.delta_efficiency.to_fixed3(), "0.162");
    assert_eq!(report.confidence.overall, ConfidenceLevel::High);
    assert_eq!(report.findings.len(), 1);
    assert_eq!(report.findings[0].id, "HIGH_WASTE_RATIO");
    assert_eq!(report.findings[0].evidence, vec!["waste_ratio=0.838"]);
    assert_eq!(report.baseline_comparison, None);
    assert_eq!(report.budget, None);
    assert_eq!(report.build_metadata, None);
    assert!(report.per_depot.is_empty());
}

#[test]
fn strict_mode_requires_required_counter() {
    let input = "../../fixtures/synthetic_case_missing_required/BuildOutput";
    let files = vec![log(
        "fixtures/synthetic_case_missing_required/BuildOutput/steampipe_preview.log",
        "SteamPipe preview\nCHANGED_CONTENT_BYTES=2000000\n",
    )];
    let opts = AnalyzeOptions {
        strict: true,
        ..AnalyzeOptions::default()
    };

    let err = analyze_dir(input, &files, opts).unwrap_err();
    let msg = err.message(input);
    assert!(
        msg.to_lowercase().contains("missing required counter")
            || msg.to_lowercase().contains("insufficient input")
    );
    assert!(matches!(err, AnalyzeError::Scan(ScanError::InsufficientInput { .. })));
}

#[test]
fn strict_mode_without_any_log_is_insufficient_input() {
    let opts = AnalyzeOptions { strict: true, ..AnalyzeOptions::default() };
    let err = analyze_dir("empty", &vec![], opts).unwrap_err();
    assert_eq!(err, AnalyzeError::Scan(ScanError::InsufficientInput { log: None }));
    assert_eq!(
        err.message("empty"),
        "failed to parse BuildOutput at empty: insufficient input: missing required counter predicted_update_bytes; run BestEffort mode or provide logs containing PREDICTED_UPDATE_BYTES=..."
    );
}

#[test]
fn baseline_comparison_and_budget_gate_are_computed() {
    let input = "../../fixtures/synthetic_case_01/BuildOutput";
    let opts = AnalyzeOptions {
        baseline_json: Some(br#"{"metrics":{"new_bytes":1000}}"#.to_vec()),
        budget_ratio: Some(Ratio { num: 5, den: 4 }),
        ..AnalyzeOptions::default()
    };

    let report = analyze_dir(input, &synthetic_case_01(), opts).expect("analyze_dir with baseline");
    let cmp = report
        .baseline_comparison
        .as_ref()
        .expect("baseline comparison present");
    let budget = report.budget.as_ref().expect("budget result present");

    assert_eq!(cmp.baseline_new_bytes, 1000);
    assert!(!cmp.regression_ratio.le(&Ratio { num: 5, den: 4 }));
    assert!(!budget.pass);

    assert_eq!(cmp.regression_ratio.to_fixed3(), "12345.678");
    assert_eq!(cmp.delta_new_bytes, 12_344_678);
    assert_eq!(budget.reason, "regression_ratio 12345.678 exceeds threshold 1.250");
    let xml = report.to_junit_xml();
    assert!(xml.contains("tests=\"2\" failures=\"2\""));
}

#[test]
fn automation_dummy_fixture_is_parseable() {
    let input = "../../fixtures/automation_dummy/BuildOutput";
    let files = vec![log(
        "fixtures/automation_dummy/BuildOutput/build.log",
        "PREDICTED_UPDATE_BYTES=4194304\nCHANGED_CONTENT_BYTES=1048576\n",
    )];
    let report = analyze_dir(input, &files, AnalyzeOptions::default()).expect("analyze dummy fixture");

    assert_eq!(report.metrics.new_bytes, 4_194_304);
    assert_eq!(report.metrics.changed_content_bytes, 1_048_576);
}

#[test]
fn zero_predicted_bytes_give_way_to_changed_bytes() {
    let files = vec![log("out/a.log", "PREDICTED_UPDATE_BYTES=0\nCHANGED_CONTENT_BYTES=1024\n")];
    let report = analyze_dir("out", &files, AnalyzeOptions::default()).unwrap();
    assert_eq!(report.metrics.new_bytes, 1024);
    assert_eq!(report.metrics.changed_content_bytes, 1024);
    assert_eq!(report.confidence.new_bytes, ConfidenceLevel::Low);
    assert_eq!(report.confidence.changed_content_bytes, ConfidenceLevel::High);
    assert_eq!(report.confidence.overall, ConfidenceLevel::Low);
    assert!(report.findings.is_empty());
}

#[test]
fn no_findings_and_no_budget_give_one_passing_test_case() {
    let files = vec![log("out/a.log", "PREDICTED_UPDATE_BYTES=100\nCHANGED_CONTENT_BYTES=90\n")];
    let report = analyze_dir("out", &files, AnalyzeOptions::default()).unwrap();
    assert!(report.findings.is_empty());
    assert!(report.to_junit_xml().contains("tests=\"1\" failures=\"0\""));

    let opts = AnalyzeOptions {
        baseline_json: Some(br#"{"metrics":{"new_bytes":100}}"#.to_vec()),
        budget_ratio: Some(Ratio { num: 1, den: 1 }),
        ..AnalyzeOptions::default()
    };
    let report = analyze_dir("out", &files, opts).unwrap();
    assert!(report.budget.as_ref().unwrap().pass);
    assert!(report.to_junit_xml().contains("tests=\"1\" failures=\"0\""));
}

#[test]
fn budget_needs_both_a_threshold_and_a_baseline() {
    let files = synthetic_case_01();
    let only_threshold = AnalyzeOptions {
        budget_ratio: Some(Ratio { num: 5, den: 4 }),
        ..AnalyzeOptions::default()
    };
    let report = analyze_dir("x", &files, only_threshold).unwrap();
    assert_eq!(report.baseline_comparison, None);
    assert_eq!(report.budget, None);

    let only_baseline = AnalyzeOptions {
        baseline_json: Some(br#"{"metrics":{"new_bytes":0}}"#.to_vec()),
        ..AnalyzeOptions::default()
    };
    let report = analyze_dir("x", &files, only_baseline).unwrap();
    assert!(report.baseline_comparison.unwrap().regression_ratio.is_infinite());
    assert_eq!(report.budget, None);
}

#[test]
fn malformed_baseline_fails_the_analysis() {
    let opts = AnalyzeOptions {
        baseline_json: Some(b"{ not json".to_vec()),
        ..AnalyzeOptions::default()
    };
    let err = analyze_dir("x", &synthetic_case_01(), opts).unwrap_err();
    assert!(matches!(err, AnalyzeError::Baseline(_)));
    assert!(err.message("x").starts_with("failed to load baseline: parse json: "));
}

#[test]
fn depots_get_their_own_metrics() {
    let files = vec![
        log("out/481000/a.log", "PREDICTED_UPDATE_BYTES=100\nCHANGED_CONTENT_BYTES=25\n"),
        log("out/depot_482000.log", "PREDICTED_UPDATE_BYTES=0\nCHANGED_CONTENT_BYTES=8\n"),
    ];
    let opts = AnalyzeOptions {
        build_metadata: Some(BuildMetadata {
            sha: Some("abc".to_string()),
            branch: None,
            build_id: None,
        }),
        ..AnalyzeOptions::default()
    };
    let report = analyze_dir("out", &files, opts).unwrap();
    assert_eq!(report.inputs.sources, vec!["out/481000/a.log", "out/depot_482000.log"]);
    assert_eq!(report.build_metadata.as_ref().unwrap().sha.as_deref(), Some("abc"));
    assert_eq!(report.per_depot.len(), 2);
    assert_eq!(report.per_depot[0].depot_id, "481000");
    assert_eq!(report.per_depot[0].metrics.new_bytes, 100);
    assert_eq!(report.per_depot[0].metrics.waste_ratio, Ratio { num: 75, den: 100 });
    assert_eq!(report.per_depot[0].confidence, ConfidenceLevel::High);
    assert_eq!(report.per_depot[1].depot_id, "482000");
    assert_eq!(report.per_depot[1].metrics.new_bytes, 8);
    assert_eq!(report.per_depot[1].confidence, ConfidenceLevel::Low);
    assert_eq!(report.metrics.new_bytes, 8);
}

#[test]
fn analysis_of_a_parsed_build_agrees_with_the_analysis_of_its_files() {
    let files = synthetic_case_01();
    let parsed = parse_buildoutput_dir(&files, ParseMode::BestEffort, 1 << 30).unwrap();
    let direct = analyze_parsed("x", parsed, AnalyzeOptions::default()).unwrap();
    assert_eq!(direct, analyze_dir("x", &files, AnalyzeOptions::default()).unwrap());
}
