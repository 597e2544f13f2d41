use plugin_testkit::model::{ConformanceSummary, Moment, TestResult, TestStatus};
use plugin_testkit::report::{build_report, exit_code, listing, print, Line, Tone};
use plugin_testkit::rpc::{InitializeResult, PluginCapabilities, PluginInfo};

fn result(name: &str, status: TestStatus, duration_ms: u64) -> TestResult {
    TestResult {
        scenario: name.into(),
        status,
        duration_ms,
        notification_log: vec![],
        response: None,
        diagnostics: vec![],
    }
}

#[test]
fn summary_counts_correctly() {
    let results = vec![
        result("a", TestStatus::Pass, 1),
        result("b", TestStatus::Fail { reason: "x".into() }, 1),
        result("c", TestStatus::Skip { reason: "no cap".into() }, 0),
    ];
    let s = ConformanceSummary::from_results(&results);
    assert_eq!(s.total, 3);
    assert_eq!(s.passed, 1);
    assert_eq!(s.failed, 1);
    assert_eq!(s.skipped, 1);
    assert!(!s.overall_pass());
}

#[test]
fn skips_do_not_count_against_a_run() {
    let skipped = vec![result("a", TestStatus::Skip { reason: "r".into() }, 0)];
    assert!(ConformanceSummary::from_results(&skipped).overall_pass());
    assert!(!ConformanceSummary::from_results(&vec![]).overall_pass());
    assert!(!ConformanceSummary::default().overall_pass());
    assert!(TestStatus::Pass.is_pass());
    assert!(!TestStatus::Fail { reason: "".into() }.is_skip());
    assert!(TestStatus::Skip { reason: "".into() }.is_skip());
}

fn init() -> InitializeResult {
    InitializeResult {
        protocol_version: "1.0.0".into(),
        plugin_info: PluginInfo {
            name: "animus-subject-default".into(),
            version: "0.1.1".into(),
            plugin_kind: "subject_backend".into(),
            description: None,
        },
        capabilities: PluginCapabilities {
            methods: vec![],
            streaming: false,
            progress: false,
            cancellation: false,
            subject_kinds: vec![],
        },
    }
}

fn plain(lines: &[Line]) -> Vec<String> {
    lines
        .iter()
        .map(|l| l.spans.iter().map(|s| s.text.as_str()).collect::<String>())
        .collect()
}

#[test]
fn reports_are_shown() {
    let from = Moment { seconds: 1, nanos: 0 };
    let to = Moment { seconds: 2, nanos: 5 };
    let mut failed = result("subject-list", TestStatus::Fail { reason: "why".into() }, 12);
    failed.diagnostics.push("seen".into());
    let report = build_report(
        &init(),
        from,
        to,
        vec![
            result("handshake", TestStatus::Pass, 0),
            failed,
            result("subject-watch-stream", TestStatus::Skip { reason: "none".into() }, 83),
        ],
    );
    assert_eq!(report.started_at, from);
    assert_eq!(report.finished_at, to);
    assert_eq!(report.summary.failed, 1);
    assert!(report.host.is_empty());
    assert_eq!(exit_code(&report), 1);
    let lines = print(&report);
    assert_eq!(
        plain(&lines),
        vec![
            "",
            "==> conformance report: animus-subject-default v0.1.1",
            "    kind: subject_backend   protocol: 1.0.0",
            "",
            "  [PASS]  handshake                     0ms",
            "  [FAIL]  subject-list                  12ms",
            "        reason: why",
            "        note: seen",
            "  [SKIP]  subject-watch-stream          83ms",
            "        skip: none",
            "",
            "summary: total 3   passed 1   failed 1   skipped 1",
            "OVERALL: FAIL",
        ]
    );
    assert_eq!(lines[12].spans[0].tone, Tone::RedBold);
    assert!(lines[4].spans.iter().any(|s| s.text == "[PASS]" && s.tone == Tone::GreenBold));
}

#[test]
fn passing_reports_exit_with_zero() {
    let at = Moment { seconds: 0, nanos: 0 };
    let report = build_report(&init(), at, at, vec![result("handshake", TestStatus::Pass, 0)]);
    assert_eq!(exit_code(&report), 0);
    let lines = print(&report);
    let last = lines.last().expect("lines");
    assert_eq!(last.spans[0].text, "OVERALL: PASS");
    assert_eq!(last.spans[0].tone, Tone::GreenBold);
    assert_eq!(exit_code(&build_report(&init(), at, at, vec![])), 1);
}

#[test]
fn listings_are_tabbed() {
    assert_eq!(listing("a", "b c"), "a\tb c");
}
