use plugin_testkit::bench::{
    bench_request, default_model, first_cell, introduce, next_cell, resolve_scenarios,
    BenchOptions, BenchRun, BenchSample, BenchSuite, Cell, Introduction, Measure,
};
use plugin_testkit::bench_matrix::BenchMatrix;
use plugin_testkit::bench_report::{
    case_head, case_summary_line, csv_field, csv_report, csv_row, failure_line, has_failures,
    plugin_label, sample_line, suite_head, suite_line, summary_stats, BenchCaseReport, CaseRun,
    Phase, RateTexts, CSV_HEADER,
};
use plugin_testkit::codec::render;
use plugin_testkit::mock::Tool;
use plugin_testkit::report::{Line, Tone};
use plugin_testkit::rpc::Event;
use plugin_testkit::stats::{percentile_nearest_rank, sort, sum};

fn sample(iteration: u32, ttft_ms: u64, duration_ms: u64, output_bytes: usize) -> BenchSample {
    BenchSample { iteration, ttft_ms, duration_ms, notification_count: 1, output_bytes }
}

#[test]
fn summary_stats_returns_none_for_empty_samples() {
    assert!(summary_stats(&vec![]).is_none());
}

#[test]
fn summary_stats_computes_percentiles_averages_and_throughput() {
    let stats = summary_stats(&vec![
        sample(1, 30, 300, 300),
        sample(2, 10, 100, 100),
        sample(3, 20, 200, 200),
    ])
    .expect("non-empty samples should produce stats");

    assert_eq!(stats.sample_count, 3);
    assert_eq!(stats.ttft_min_ms, 10);
    assert_eq!(stats.ttft_median_ms, 20);
    assert_eq!(stats.ttft_p95_ms, 30);
    let ttft_avg_ms = stats.ttft_total_ms as f64 / stats.sample_count as f64;
    assert!((ttft_avg_ms - 20.0).abs() < f64::EPSILON);
    assert_eq!(stats.ttft_max_ms, 30);
    assert_eq!(stats.duration_min_ms, 100);
    assert_eq!(stats.duration_median_ms, 200);
    assert_eq!(stats.duration_p95_ms, 300);
    let duration_avg_ms = stats.duration_total_ms as f64 / stats.sample_count as f64;
    assert!((duration_avg_ms - 200.0).abs() < f64::EPSILON);
    assert_eq!(stats.duration_max_ms, 300);
    assert_eq!(stats.output_bytes_total, 600);
    let (bytes, ms) = stats.throughput();
    let throughput_bps = bytes as f64 * 1000.0 / ms as f64;
    assert!((throughput_bps - 1000.0).abs() < f64::EPSILON);
}

#[test]
fn summary_stats_handles_zero_total_duration() {
    let stats = summary_stats(&vec![sample(1, 1, 0, 100)]).expect("sample should produce stats");
    let (bytes, ms) = stats.throughput();
    assert_eq!(bytes as f64 * 1000.0 / ms as f64, 0.0);
}

#[test]
fn suite_presets_are_stable() {
    assert_eq!(BenchSuite::Smoke.scenarios(), vec!["streaming-short"]);
    assert_eq!(
        BenchSuite::Full.scenarios(),
        vec![
            "streaming-short",
            "streaming-medium",
            "streaming-long",
            "tool-call-single",
            "tool-call-parallel",
            "error-recovery"
        ]
    );
}

#[test]
fn scenario_resolution_preserves_legacy_default() {
    let cli = options();
    assert_eq!(resolve_scenarios(&cli), vec!["streaming-medium"]);
}

#[test]
fn csv_field_quotes_delimiters_and_quotes() {
    assert_eq!(csv_field("simple"), "simple");
    assert_eq!(csv_field("a,b"), "\"a,b\"");
    assert_eq!(csv_field("a\"b"), "\"a\"\"b\"");
}

fn options() -> BenchOptions {
    BenchOptions {
        plugin: vec!["plugin".to_string()],
        suite: None,
        scenarios: vec![],
        models: vec!["model".to_string()],
        iterations: 1,
        warmup_iterations: 0,
        timeout_ms: 1000,
        prompt: "prompt".to_string(),
        report_json: None,
        report_csv: None,
        fail_fast: false,
    }
}

#[test]
fn named_scenarios_win_over_presets() {
    let mut o = options();
    o.suite = Some(BenchSuite::Tools);
    assert_eq!(resolve_scenarios(&o), vec!["tool-call-single", "tool-call-parallel"]);
    o.scenarios = vec!["x".to_string()];
    assert_eq!(resolve_scenarios(&o), vec!["x"]);
    assert_eq!(
        BenchSuite::Streaming.scenarios(),
        vec!["streaming-short", "streaming-medium", "streaming-long"]
    );
}

#[test]
fn a_model_is_always_named() {
    assert_eq!(default_model(), format!("{}-sonnet-4-6", Tool::Claude.name()));
}

#[test]
fn csv_field_quotes_line_breaks() {
    assert_eq!(csv_field("a\nb"), "\"a\nb\"");
    assert_eq!(csv_field("a\rb"), "\"a\rb\"");
    assert_eq!(csv_field(""), "");
}

#[test]
fn percentiles_take_the_nearest_rank() {
    let values = sort(&(1..=20).rev().collect::<Vec<u64>>());
    assert_eq!(values[0], 1);
    assert_eq!(percentile_nearest_rank(&values, 50), 10);
    assert_eq!(percentile_nearest_rank(&values, 95), 19);
    assert_eq!(percentile_nearest_rank(&values, 100), 20);
    assert_eq!(percentile_nearest_rank(&values, 200), 20);
    assert_eq!(percentile_nearest_rank(&values, 0), 1);
    assert_eq!(percentile_nearest_rank(&vec![], 50), 0);
    assert_eq!(sum(&vec![u64::MAX, 1]), 1u128 << 64);
    for n in 1..400u64 {
        let v: Vec<u64> = (1..=n).collect();
        for p in [50u8, 95] {
            let rank = ((p as f64 / 100.0) * n as f64).ceil() as u64;
            assert_eq!(percentile_nearest_rank(&v, p), rank.max(1));
        }
    }
}

#[test]
fn cells_come_model_by_model() {
    assert_eq!(first_cell(1, 0, 1), None);
    let mut at = first_cell(2, 2, 2);
    let mut seen = vec![];
    while let Some(c) = at {
        seen.push((c.plugin, c.scenario, c.model));
        at = next_cell(c, 2, 2, 2, false, true);
    }
    assert_eq!(
        seen,
        vec![
            (0, 0, 0),
            (0, 0, 1),
            (0, 1, 0),
            (0, 1, 1),
            (1, 0, 0),
            (1, 0, 1),
            (1, 1, 0),
            (1, 1, 1)
        ]
    );
    let first = Cell { plugin: 0, scenario: 0, model: 0 };
    assert_eq!(next_cell(first, 2, 2, 2, true, true), None);
    assert!(next_cell(first, 2, 2, 2, true, false).is_some());
}

fn line(text: &str) -> Event {
    Event::Line(format!("{text}\n"))
}

#[test]
fn runs_are_measured() {
    let mut run = BenchRun::new(3);
    let thinking = r#"{"jsonrpc":"2.0","method":"agent/thinking","params":{"text":"hm"}}"#;
    assert_eq!(run.receive(line(thinking), 5), Measure::Pending);
    let output = r#"{"jsonrpc":"2.0","method":"agent/output","params":{"text":"é!"}}"#;
    assert_eq!(run.receive(line(output), 10), Measure::Pending);
    assert_eq!(run.receive(line(output), 20), Measure::Pending);
    assert_eq!(run.receive(line(r#"{"method":"other"}"#), 21), Measure::Pending);
    assert_eq!(run.receive(line(r#"{"jsonrpc":"2.0","id":9}"#), 22), Measure::Pending);
    let answer = r#"{"jsonrpc":"2.0","id":2,"result":{"session_id":"s","exit_code":0,"output":"0123456789"}}"#;
    assert_eq!(
        run.receive(line(answer), 30),
        Measure::Done(BenchSample {
            iteration: 3,
            ttft_ms: 10,
            duration_ms: 30,
            notification_count: 3,
            output_bytes: 10,
        })
    );
    let mut run = BenchRun::new(1);
    assert_eq!(
        run.receive(line(r#"{"jsonrpc":"2.0","id":2,"result":{}}"#), 7),
        Measure::Done(BenchSample {
            iteration: 1,
            ttft_ms: 7,
            duration_ms: 7,
            notification_count: 0,
            output_bytes: 0,
        })
    );
}

#[test]
fn runs_fail_for_a_reason() {
    let fail = |event: Event| match BenchRun::new(1).receive(event, 0) {
        Measure::Failed(m) => m,
        other => panic!("{other:?}"),
    };
    assert_eq!(fail(Event::Quiet), "bench iteration timed out");
    assert_eq!(fail(Event::Closed), "plugin stdout closed");
    assert_eq!(fail(line("oops")), "invalid JSON-RPC frame: oops");
    assert_eq!(
        fail(line(r#"{"jsonrpc":"2.0","id":2,"error":{"code":-1,"message":"no"}}"#)),
        "agent/run failed: no (code -1)"
    );
    assert_eq!(
        introduce(line(r#"{"jsonrpc":"2.0","id":1,"error":{"code":4,"message":"no"}}"#)),
        Introduction::Failed("initialize failed: no (code 4)".into())
    );
    assert_eq!(introduce(line(r#"{"jsonrpc":"2.0","id":3}"#)), Introduction::Pending);
    assert_eq!(introduce(line(r#"{"jsonrpc":"2.0","id":1,"result":{}}"#)), Introduction::Done);
}

#[test]
fn bench_requests_hold_the_settings() {
    assert_eq!(
        render(&bench_request("say hi", "m", "streaming-short", 2500)),
        r#"{"id":2,"jsonrpc":"2.0","method":"agent/run","params":{"cwd":".","env":{"MOCK_SCENARIO":"streaming-short"},"model":"m","prompt":"say hi","timeout_secs":2}}"#
    );
}

fn case(warmups: u32, iterations: u32, fail_fast: bool) -> CaseRun {
    CaseRun::new(
        "plug,in".into(),
        "/p".into(),
        "streaming-short".into(),
        "m".into(),
        "hi".into(),
        iterations,
        warmups,
        1000,
        fail_fast,
    )
}

fn play(mut run: CaseRun, outcomes: Vec<Result<BenchSample, String>>) -> BenchCaseReport {
    for outcome in outcomes {
        assert!(run.next().is_some());
        run.record(outcome);
    }
    assert_eq!(run.next(), None);
    run.finish()
}

#[test]
fn cases_warm_up_and_measure() {
    let run = case(1, 2, false);
    assert_eq!(run.next(), Some((Phase::Warmup, 1)));
    let report = play(run, vec![Ok(sample(1, 1, 1, 1)), Ok(sample(1, 5, 9, 3)), Ok(sample(2, 6, 8, 3))]);
    assert_eq!(report.samples.len(), 2);
    assert!(!report.has_failures());
    assert_eq!(report.status(), "pass");
    assert_eq!(report.summary.map(|s| s.ttft_max_ms), Some(6));
}

#[test]
fn cases_fail_with_any_run() {
    let report = play(case(1, 1, false), vec![Err("w".into()), Ok(sample(1, 1, 1, 1))]);
    assert!(report.has_failures());
    assert_eq!(report.errors[0].phase.name(), "warmup");
    assert!(report.summary.is_some());
    assert!(has_failures(&vec![report]));

    let mut run = case(2, 1, true);
    assert!(run.is_summarised());
    run.record(Err("w".into()));
    assert!(!run.is_summarised());

    let report = play(case(2, 1, true), vec![Err("w".into())]);
    assert!(report.summary.is_none());
    assert_eq!(report.status(), "fail");

    let report = play(case(0, 3, true), vec![Ok(sample(1, 4, 4, 4)), Err("m".into())]);
    assert_eq!(report.errors[0].iteration, 2);
    assert_eq!(report.errors[0].phase, Phase::Measurement);
    assert!(report.summary.is_some());
}

#[test]
fn headings_name_what_is_run() {
    let text = |l: Line| l.spans.iter().map(|s| s.text.as_str()).collect::<String>();
    assert_eq!(
        text(suite_head(1, 2, 3, 4, 5)),
        "==> bench suite plugins=1 scenarios=2 models=3 iterations=4 warmup=5"
    );
    assert_eq!(text(case_head("p", "s", "m")), "==> case plugin=p scenario=s model=m");
}

#[test]
fn bench_lines_are_aligned() {
    assert_eq!(
        sample_line(Phase::Warmup, 1, &sample(1, 12, 345, 6)),
        "  warmup  1 ttft    12ms total   345ms notifs    1 bytes      6"
    );
    assert_eq!(
        sample_line(Phase::Measurement, 10, &sample(10, 123456, 1, 1234567)),
        "  iter   10 ttft 123456ms total     1ms notifs    1 bytes 1234567"
    );
    let l = failure_line(Phase::Measurement, 2, "boom");
    assert_eq!(l.spans[0].text, "  iter    2 ");
    assert_eq!(l.spans[1].text, "FAIL boom");
    assert_eq!(l.spans[1].tone, Tone::Red);
    assert_eq!(
        case_summary_line(&None, ""),
        "  summary unavailable: no successful measured iterations"
    );
    let report = play(case(0, 1, false), vec![Ok(sample(1, 5, 10, 20))]);
    assert_eq!(
        case_summary_line(&report.summary, "2000.0"),
        "  summary ttft median     5ms p95     5ms | total median    10ms p95    10ms | throughput  2000.0 B/s"
    );
    assert_eq!(
        suite_line(&report),
        "  [PASS] plug,in                      streaming-short    m                        samples  1/1  ttft_p95     5ms dur_p95    10ms"
    );
    let broken = play(case(1, 1, true), vec![Err("x".into())]);
    assert_eq!(
        suite_line(&broken),
        "  [FAIL] plug,in                      streaming-short    m                        samples  0/1 "
    );
    assert_eq!(plugin_label(&Some("p".into())), "p");
    assert_eq!(plugin_label(&None), "plugin");
}

#[test]
fn csv_rows_match_their_header() {
    let rates = RateTexts {
        ttft_avg_ms: "5.000".into(),
        duration_avg_ms: "10.000".into(),
        notification_avg: "1.000".into(),
        throughput_bps: "2000.000".into(),
    };
    let report = play(case(0, 1, false), vec![Ok(sample(1, 5, 10, 20))]);
    assert_eq!(
        csv_row(&report, &rates),
        "\"plug,in\",/p,streaming-short,m,pass,1,0,5,5,5,5.000,5,10,10,10,10.000,10,1.000,20,2000.000"
    );
    assert_eq!(CSV_HEADER.split(',').count(), 20);
    assert_eq!(csv_report(&vec![]), format!("{CSV_HEADER}\n"));
    assert_eq!(
        csv_report(&vec!["a".into(), "b".into()]),
        format!("{CSV_HEADER}\na\nb\n")
    );
    let broken = play(case(1, 1, true), vec![Err("x".into())]);
    assert_eq!(
        csv_row(&broken, &rates),
        "\"plug,in\",/p,streaming-short,m,fail,0,1,,,,,,,,,,,,,"
    );
}

#[test]
fn case_reports_account_for_every_iteration() {
    let report = play(
        case(1, 4, false),
        vec![
            Err("w".into()),
            Ok(sample(1, 5, 9, 3)),
            Err("m".into()),
            Ok(sample(3, 6, 8, 3)),
            Ok(sample(4, 7, 7, 3)),
        ],
    );
    let measured = report.errors.iter().filter(|e| e.phase == Phase::Measurement).count();
    assert_eq!(report.samples.len() + measured, 4);
    let numbers: Vec<u32> = report.samples.iter().map(|s| s.iteration).collect();
    assert_eq!(numbers, vec![1, 3, 4]);
    assert_eq!(report.summary, summary_stats(&report.samples));
}

fn asked(plugins: Vec<&str>, scenarios: Vec<&str>, models: Vec<&str>, fail_fast: bool) -> BenchOptions {
    let owned = |list: Vec<&str>| list.into_iter().map(str::to_string).collect::<Vec<String>>();
    BenchOptions {
        plugin: owned(plugins),
        suite: None,
        scenarios: owned(scenarios),
        models: owned(models),
        iterations: 1,
        warmup_iterations: 0,
        timeout_ms: 1000,
        prompt: "hi".into(),
        report_json: None,
        report_csv: None,
        fail_fast,
    }
}

fn cells(cases: &[BenchCaseReport]) -> Vec<String> {
    cases.iter().map(|c| format!("{} {} {}", c.plugin_path, c.scenario, c.model)).collect()
}

#[test]
fn matrices_run_every_cell_in_order() {
    let mut matrix = BenchMatrix::begin(&asked(vec!["p", "q"], vec!["s"], vec!["m", "n"], false));
    assert_eq!(matrix.scenario_count(), 1);
    assert_eq!(matrix.next(), Some(("p", "s", "m")));
    while matrix.next().is_some() {
        matrix.record(play(case(0, 1, false), vec![Err("failed".into())]));
    }
    let cases = matrix.finish().expect("every cell has its case");
    assert_eq!(cells(&cases), vec!["p s m", "p s n", "q s m", "q s n"]);
    assert!(has_failures(&cases));
}

#[test]
fn matrices_stop_at_the_first_failure() {
    let mut matrix = BenchMatrix::begin(&asked(vec!["p"], vec!["s", "t"], vec!["m"], true));
    matrix.record(play(case(0, 1, true), vec![Ok(sample(1, 1, 1, 1))]));
    assert_eq!(matrix.next(), Some(("p", "t", "m")));
    let mut stopped = BenchMatrix::begin(&asked(vec!["p"], vec!["s", "t"], vec!["m"], true));
    stopped.record(play(case(0, 1, true), vec![Err("failed".into())]));
    assert_eq!(stopped.next(), None);
    stopped.record(play(case(0, 1, true), vec![Ok(sample(1, 1, 1, 1))]));
    assert_eq!(cells(&stopped.finish().expect("it was left")), vec!["p s m"]);
    assert!(matrix.finish().is_none());
    let empty = BenchMatrix::begin(&asked(vec!["p"], vec!["s"], vec![], true));
    assert_eq!(empty.finish().map(|c| c.len()), Some(0));
}

#[test]
fn higher_percents_give_no_smaller_values() {
    let values = vec![10, 20, 30, 40];
    assert_eq!(percentile_nearest_rank(&values, 0), 10);
    assert_eq!(percentile_nearest_rank(&values, 50), 20);
    assert_eq!(percentile_nearest_rank(&values, 100), 40);
    assert_eq!(percentile_nearest_rank(&values, 255), 40);
    for percent in 0..100u8 {
        assert!(
            percentile_nearest_rank(&values, percent) <= percentile_nearest_rank(&values, percent + 1)
        );
    }
    assert_eq!(percentile_nearest_rank(&vec![], 95), 0);
}
