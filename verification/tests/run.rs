use std::collections::VecDeque;

use plugin_testkit::codec::{parse, render};
use plugin_testkit::driver::{Command, Driver, News};
use plugin_testkit::fake_plugin::FakePlugin;
use plugin_testkit::harness::{
    decode_notification, decode_run_response, validate, CANCELLATION_CAPABILITY, HARNESS_NAME,
};
use plugin_testkit::json::Json;
use plugin_testkit::model::{
    AgentNotification, AgentRunResponse, ExpectedNotification, ExpectedResponse, MockHint, Moment,
    ScenarioFile, ScenarioMethod, ScenarioRequest, TestResult, TestStatus,
};
use plugin_testkit::report::build_report;
use plugin_testkit::rpc::{
    decode_line, encode_frame, handshake_on, initialize_request, Event, HandshakeStep, Incoming,
    InitializeResult,
};
use plugin_testkit::run::{
    gate, harness_wording, run_request, select_scenarios, Action, MatrixRun, ScenarioRun,
};

fn scenario(name: &str) -> ScenarioFile {
    ScenarioFile {
        name: name.to_string(),
        description: String::new(),
        timeout_ms: 3000,
        request: ScenarioRequest {
            prompt: "go".to_string(),
            model: None,
            system_prompt: None,
            cwd: None,
            session_id: None,
            env: vec![],
        },
        expected_notifications: vec![],
        allow_extra_notifications: true,
        expected_response: ExpectedResponse::default(),
        mock: MockHint::default(),
        requires_capabilities: vec![],
        skip_if_capabilities: vec![],
        method: ScenarioMethod::Run,
        cancel_after_ms: None,
    }
}

fn cancellation_scenario() -> ScenarioFile {
    let mut s = scenario("cancellation");
    s.request.prompt = "stream until cancelled".to_string();
    s.request.model = Some("test-model".to_string());
    s.requires_capabilities = vec!["$harness/cancellation-loop-v2".to_string()];
    s.cancel_after_ms = Some(50);
    s
}

fn line(text: &str) -> Event {
    Event::Line(format!("{text}\n"))
}

/// A plugin that answers each line, with a clock that only waiting moves.
struct Bench<F: FnMut(&str) -> (Vec<Json>, bool)> {
    plugin: F,
    open: bool,
    queue: VecDeque<String>,
    sent: Vec<String>,
    clock: u64,
}

impl<F: FnMut(&str) -> (Vec<Json>, bool)> Bench<F> {
    fn new(plugin: F) -> Self {
        Bench { plugin, open: true, queue: VecDeque::new(), sent: vec![], clock: 0 }
    }

    fn send(&mut self, frame: &Json) {
        let text = encode_frame(frame);
        self.sent.push(text.clone());
        if self.open {
            let (frames, goes_on) = (self.plugin)(&text);
            self.queue.extend(frames.iter().map(encode_frame));
            self.open = goes_on;
        }
    }

    fn read(&mut self, wait_ms: u64) -> Event {
        match self.queue.pop_front() {
            Some(text) => {
                self.clock += 1;
                Event::Line(text)
            }
            None if self.open => {
                self.clock += wait_ms;
                Event::Quiet
            }
            None => Event::Closed,
        }
    }

    fn run(&mut self, scenario: ScenarioFile) -> TestResult {
        let (mut driver, mut command) = Driver::start(scenario);
        loop {
            let news = match command {
                Command::Launch { .. } => News::Launched,
                Command::Send(frame) | Command::Cancel(frame) => {
                    self.send(&frame);
                    News::Sent
                }
                Command::Begin { ready, request } => {
                    self.send(&ready);
                    self.send(&request);
                    News::Sent
                }
                Command::Wait(ms) => News::Read(self.read(ms)),
                Command::Leave { ready } => {
                    self.send(&ready);
                    return driver.result(self.clock).expect("a result");
                }
                Command::Finish => return driver.result(self.clock).expect("a result"),
            };
            let (next, then) = driver.handle(news, self.clock);
            driver = next;
            command = then;
        }
    }
}

fn introduction(methods: &str) -> Json {
    parse(&format!(
        r#"{{"jsonrpc":"2.0","id":1,"result":{{"protocol_version":"1.0.0",
            "plugin_info":{{"name":"p","version":"1","plugin_kind":"provider"}},
            "capabilities":{{"methods":{methods}}}}}}}"#
    ))
    .expect("valid JSON")
}

/// A plugin that introduces itself and answers the run request with the given frames.
fn scripted(
    methods: &'static str,
    answer: Vec<&'static str>,
) -> impl FnMut(&str) -> (Vec<Json>, bool) {
    move |text: &str| {
        let frame = parse(text.trim()).expect("valid JSON");
        match frame.text_at("method") {
            Some("initialize") => (vec![introduction(methods)], true),
            Some("agent/run") | Some("agent/resume") => {
                (answer.iter().map(|t| parse(t).expect("valid JSON")).collect(), true)
            }
            _ => (vec![], true),
        }
    }
}

fn probe() -> InitializeResult {
    let mut plugin = FakePlugin::new();
    let (frames, _) = plugin.receive(&encode_frame(&initialize_request(1, HARNESS_NAME, true)));
    match handshake_on(Event::Line(encode_frame(&frames[0])), &harness_wording()) {
        HandshakeStep::Ready(init) => init,
        other => panic!("{other:?}"),
    }
}

#[test]
fn cancellation_dispatcher_drives_cancel_and_passes() {
    let mut plugin = FakePlugin::new();
    let mut bench = Bench::new(move |text: &str| plugin.receive(text));
    let result = bench.run(cancellation_scenario());
    let at = Moment { seconds: 0, nanos: 0 };
    let report = build_report(&probe(), at, at, vec![result]);
    assert_eq!(report.scenarios.len(), 1);
    let r = &report.scenarios[0];
    assert_eq!(
        r.status,
        TestStatus::Pass,
        "expected PASS, got {:?}; diagnostics={:?}",
        r.status,
        r.diagnostics
    );
    assert_eq!(r.notification_log.len(), 3);
    assert_eq!(r.diagnostics, vec!["ignored response with id Some(Number(3))"]);
    assert_eq!(
        bench.sent[3].trim(),
        r#"{"id":3,"jsonrpc":"2.0","method":"agent/cancel","params":{"session_id":"fake-session-1"}}"#
    );
}

#[test]
fn answered_runs_fail_where_they_are_to_be_cancelled() {
    let mut s = cancellation_scenario();
    s.requires_capabilities.clear();
    let methods = r#"["$harness/cancellation-loop-v2"]"#;
    let r = Bench::new(scripted(
        methods,
        vec![r#"{"jsonrpc":"2.0","id":2,"result":{"session_id":"s","exit_code":0,"output":""}}"#],
    ))
    .run(s.clone());
    assert_eq!(
        r.status,
        TestStatus::Fail { reason: "run ended without being cancelled".into() }
    );
    let r = Bench::new(scripted("[]", vec![])).run(s);
    assert_eq!(
        r.status,
        TestStatus::Skip { reason: format!("plugin lacks capability `{CANCELLATION_CAPABILITY}`") }
    );
}

#[test]
fn runs_to_be_cancelled_pass_however_early_they_end() {
    let mut s = cancellation_scenario();
    s.requires_capabilities.clear();
    let methods = r#"["$harness/cancellation-loop-v2"]"#;
    let fatal = r#"{"method":"agent/error","params":{"session_id":"s","message":"m","recoverable":false}}"#;
    let r = Bench::new(scripted(methods, vec![fatal])).run(s.clone());
    assert_eq!(r.status, TestStatus::Pass);
    let cancelled = r#"{"jsonrpc":"2.0","id":2,"error":{"code":-32002,"message":"cancelled"}}"#;
    let r = Bench::new(scripted(methods, vec![cancelled])).run(s);
    assert_eq!(r.status, TestStatus::Pass);
}

#[test]
fn answered_runs_are_judged() {
    let mut s = scenario("streaming-short");
    s.expected_notifications = vec![
        ExpectedNotification::Output { contains: Some("Hel".into()) },
        ExpectedNotification::Output { contains: Some("!".into()) },
    ];
    s.expected_response.output_contains = Some("Hello".into());
    s.expected_response.exit_code = Some(0);
    let mut bench = Bench::new(scripted(
        r#"["agent/run"]"#,
        vec![
            r#"{"method":"agent/output","params":{"text":"Hello ","session_id":"s"}}"#,
            r#"{"method":"agent/thinking","params":{}}"#,
            r#"{"method":"$/progress","params":{}}"#,
            r#"{"method":"agent/odd","params":{}}"#,
            r#"{"method":"agent/output","params":{"text":"!","final":true}}"#,
            r#"{"jsonrpc":"2.0","id":2,"result":{"session_id":"s","exit_code":0,"output":"Hello !"}}"#,
        ],
    ));
    let r = bench.run(s);
    assert_eq!(r.status, TestStatus::Pass);
    assert_eq!(r.scenario, "streaming-short");
    assert_eq!(r.notification_log.len(), 3);
    assert_eq!(r.diagnostics, vec!["unrecognized notification: agent/odd"]);
    assert_eq!(
        r.response,
        Some(AgentRunResponse { session_id: "s".into(), exit_code: 0, output: "Hello !".into() })
    );
    assert_eq!(
        bench.sent[1].trim(),
        r#"{"jsonrpc":"2.0","method":"initialized","params":{}}"#
    );
}

#[test]
fn skipped_scenarios_still_end_the_handshake() {
    let mut s = scenario("resume-session");
    s.requires_capabilities = vec!["agent/resume".into()];
    let mut bench = Bench::new(scripted(r#"["agent/run"]"#, vec![]));
    let r = bench.run(s);
    assert_eq!(
        r.status,
        TestStatus::Skip { reason: "plugin lacks capability `agent/resume`".into() }
    );
    assert_eq!(bench.sent.len(), 2);
    assert!(bench.sent[1].contains("initialized"));

    let mut s = scenario("tool-call-single");
    s.skip_if_capabilities = vec!["$harness/oai-style".into()];
    let r = Bench::new(scripted(r#"["$harness/oai-style"]"#, vec![])).run(s);
    assert_eq!(
        r.status,
        TestStatus::Skip { reason: "plugin advertises capability `$harness/oai-style`".into() }
    );
}

#[test]
fn gates_take_the_first_reason() {
    let mut s = cancellation_scenario();
    s.requires_capabilities = vec!["a".into(), "b".into()];
    s.skip_if_capabilities = vec!["c".into()];
    let caps = |list: &[&str]| list.iter().map(|c| c.to_string()).collect::<Vec<String>>();
    assert_eq!(gate(&s, &caps(&["c", "a"])).as_deref(), Some("plugin lacks capability `b`"));
    assert_eq!(
        gate(&s, &caps(&["c", "a", "b"])).as_deref(),
        Some("plugin advertises capability `c`")
    );
    assert_eq!(
        gate(&s, &caps(&["a", "b"])).as_deref(),
        Some("plugin lacks capability `$harness/cancellation-loop-v2`")
    );
    assert_eq!(gate(&s, &caps(&["a", "b", CANCELLATION_CAPABILITY])), None);
}

#[test]
fn failures_before_the_run_say_where() {
    let (driver, command) = Driver::start(scenario("s"));
    assert_eq!(command, Command::Launch { script: "s".into() });
    let (driver, command) = driver.handle(News::LaunchFailed("no such file".into()), 0);
    assert_eq!(command, Command::Finish);
    let r = driver.result(4).expect("result");
    assert_eq!(r.status, TestStatus::Fail { reason: "spawn: no such file".into() });
    assert_eq!(r.duration_ms, 4);

    let (driver, _) = Driver::start(scenario("s"));
    let (driver, command) = driver.handle(News::Launched, 0);
    assert_eq!(command, Command::Send(initialize_request(1, HARNESS_NAME, true)));
    let (driver, _) = driver.handle(News::SendFailed("broken pipe".into()), 1);
    assert_eq!(
        driver.result(0).expect("result").status,
        TestStatus::Fail { reason: "initialize: broken pipe".into() }
    );

    let reason = |event: Event| {
        let (driver, _) = Driver::start(scenario("s"));
        let (driver, _) = driver.handle(News::Launched, 0);
        let (driver, command) = driver.handle(News::Sent, 5);
        assert_eq!(command, Command::Wait(10_000));
        let (driver, command) = driver.handle(News::Read(line("")), 2005);
        assert_eq!(command, Command::Wait(8_000));
        let (driver, _) = driver.handle(News::Read(event), 2006);
        match driver.result(0).expect("result").status {
            TestStatus::Fail { reason } => reason,
            other => panic!("{other:?}"),
        }
    };
    assert_eq!(reason(Event::Quiet), "initialize: timed out waiting for initialize response");
    assert_eq!(reason(Event::Closed), "initialize: plugin stdout closed unexpectedly");
    assert_eq!(reason(Event::ReadFailed("e".into())), "initialize: e");
    assert_eq!(reason(line("{")), "initialize: invalid JSON-RPC frame: {");
    assert_eq!(
        reason(line(r#"{"jsonrpc":"2.0","id":1,"error":{"code":-5,"message":"no"}}"#)),
        "initialize: initialize failed: no (-5)"
    );
    assert_eq!(
        reason(line(r#"{"jsonrpc":"2.0","id":1}"#)),
        "initialize: initialize response had no result"
    );
    assert_eq!(reason(line(r#"{"id":1}"#)), "initialize: missing field `jsonrpc`");

    let (driver, _) = Driver::start(scenario("s"));
    let (driver, _) = driver.handle(News::Launched, 0);
    let (driver, _) = driver.handle(News::Sent, 0);
    let (driver, command) = driver.handle(News::Read(Event::Line(render(&introduction("[]")))), 0);
    assert!(matches!(command, Command::Begin { .. }));
    let (driver, _) = driver.handle(News::SendFailed("gone".into()), 0);
    assert_eq!(
        driver.result(0).expect("result").status,
        TestStatus::Fail { reason: "send request: gone".into() }
    );
}

#[test]
fn scenarios_without_end_have_no_result() {
    let (driver, _) = Driver::start(scenario("s"));
    assert_eq!(driver.result(0), None);
}

#[test]
fn runs_break_off() {
    let mut run = ScenarioRun::new(scenario("s"));
    assert_eq!(run.next(10), Action::Wait(2990));
    run.receive(Event::Quiet, 2990);
    assert_eq!(run.next(3000), Action::Finished);
    run.receive(line(r#"{"jsonrpc":"2.0","id":2,"result":null}"#), 3001);
    let r = run.finish(3001).expect("result");
    assert_eq!(r.status, TestStatus::Fail { reason: "timeout after 3000ms".into() });

    let mut run = ScenarioRun::new(scenario("s"));
    run.receive(line(r#"{"method":"agent/odd"}"#), 0);
    run.receive(Event::Closed, 1);
    let r = run.finish(1).expect("result");
    assert_eq!(
        r.status,
        TestStatus::Fail { reason: "read: plugin stdout closed unexpectedly".into() }
    );
    assert!(r.diagnostics.is_empty());
    assert_eq!(ScenarioRun::new(scenario("s")).finish(0), None);
}

#[test]
fn refused_runs_fail() {
    let mut run = ScenarioRun::new(scenario("s"));
    run.receive(line(r#"{"jsonrpc":"2.0","id":2,"error":{"code":-32002,"message":"stop"}}"#), 0);
    assert_eq!(run.next(0), Action::Finished);
    assert_eq!(
        run.finish(0).expect("result").status,
        TestStatus::Fail { reason: "plugin returned error: stop (code -32002)".into() }
    );
}

#[test]
fn odd_responses_are_noted() {
    let mut run = ScenarioRun::new(scenario("s"));
    run.receive(line(r#"{"jsonrpc":"2.0","id":"2","result":1}"#), 0);
    run.receive(line(r#"{"jsonrpc":"2.0","id":null}"#), 0);
    run.receive(line(r#"{"id":2}"#), 0);
    run.receive(line("null"), 0);
    run.receive(line(r#"{"jsonrpc":"2.0","id":2,"result":{"session_id":"s"}}"#), 0);
    let r = run.finish(0).expect("result");
    assert_eq!(r.status, TestStatus::Pass);
    assert_eq!(
        r.diagnostics,
        vec![
            "ignored response with id Some(String(\"2\"))",
            "ignored response with id None",
            "malformed response frame: missing field `jsonrpc`",
            "response did not match AgentRunResponse: missing field `exit_code`",
        ]
    );
    assert_eq!(r.response, None);
}

#[test]
fn cancellation_waits_for_its_delay() {
    let mut run = ScenarioRun::new(cancellation_scenario());
    assert_eq!(run.next(0), Action::Wait(3000));
    run.receive(line(r#"{"method":"agent/output","params":{"text":"a"}}"#), 10);
    assert_eq!(run.next(10), Action::Wait(2990));
    run.receive(line(r#"{"method":"agent/output","params":{"session_id":"s"}}"#), 20);
    assert_eq!(run.next(20), Action::Wait(50));
    assert_eq!(run.next(60), Action::Wait(10));
    assert!(matches!(run.next(70), Action::Send(_)));
    assert_eq!(run.next(70), Action::Wait(2930));
}

#[test]
fn run_requests_carry_the_scenario() {
    let mut s = scenario("s");
    assert_eq!(
        render(&run_request(&s)),
        r#"{"id":2,"jsonrpc":"2.0","method":"agent/run","params":{"cwd":".","env":{"MOCK_SCENARIO":"s"},"prompt":"go","timeout_secs":3}}"#
    );
    s.method = ScenarioMethod::Resume;
    s.timeout_ms = 250;
    s.mock.mock_scenario = Some("other".into());
    s.request.model = Some("m".into());
    s.request.system_prompt = Some("sp".into());
    s.request.session_id = Some("sid".into());
    s.request.cwd = Some("/w".into());
    s.request.env = vec![("A".into(), "1".into()), ("A".into(), "2".into())];
    assert_eq!(
        render(&run_request(&s)),
        r#"{"id":2,"jsonrpc":"2.0","method":"agent/resume","params":{"cwd":"/w","env":{"A":"2","MOCK_SCENARIO":"other"},"model":"m","prompt":"go","session_id":"sid","system_prompt":"sp","timeout_secs":1}}"#
    );
    s.request.env = vec![("MOCK_SCENARIO".into(), "mine".into())];
    assert_eq!(
        run_request(&s).get_or_null("params").get_or_null("env").text_at("MOCK_SCENARIO"),
        Some("mine")
    );
}

#[test]
fn notifications_are_decoded() {
    let params = parse(
        r#"{"session_id":"s","text":"t","final":true,"name":"n","arguments":[1],"server":"v",
            "output":{"a":1},"success":false,"message":"m","recoverable":true}"#,
    )
    .expect("valid JSON");
    assert_eq!(
        decode_notification("agent/output", &params),
        Some(AgentNotification::Output { session_id: "s".into(), text: "t".into(), is_final: true })
    );
    assert_eq!(
        decode_notification("agent/thinking", &params),
        Some(AgentNotification::Thinking { session_id: "s".into(), text: "t".into() })
    );
    assert_eq!(
        decode_notification("agent/toolCall", &params),
        Some(AgentNotification::ToolCall {
            session_id: "s".into(),
            name: "n".into(),
            arguments: Json::List(vec![Json::Unsigned(1)]),
            server: Some("v".into()),
        })
    );
    assert_eq!(
        decode_notification("agent/toolResult", &Json::Null),
        Some(AgentNotification::ToolResult {
            session_id: "".into(),
            name: "".into(),
            output: Json::Null,
            success: true,
        })
    );
    assert_eq!(
        decode_notification("agent/error", &params),
        Some(AgentNotification::Error {
            session_id: "s".into(),
            message: "m".into(),
            recoverable: true,
        })
    );
    assert_eq!(decode_notification("agent/other", &params), None);
}

#[test]
fn run_responses_are_strict() {
    let e = |text: &str| decode_run_response(&parse(text).expect("valid JSON")).unwrap_err();
    assert_eq!(e("{}"), "missing field `session_id`");
    assert_eq!(e(r#"{"session_id":1}"#), "invalid type for field `session_id`");
    assert_eq!(
        e(r#"{"session_id":"s","exit_code":3000000000,"output":""}"#),
        "invalid type for field `exit_code`"
    );
    assert_eq!(
        decode_run_response(&parse(r#"{"session_id":"s","exit_code":-1,"output":"o"}"#).unwrap()),
        Ok(AgentRunResponse { session_id: "s".into(), exit_code: -1, output: "o".into() })
    );
}

fn output(text: &str) -> AgentNotification {
    AgentNotification::Output { session_id: "s".into(), text: text.into(), is_final: false }
}

#[test]
fn expectations_are_a_subsequence() {
    let mut s = scenario("s");
    let expect = |c: &str| ExpectedNotification::Output { contains: Some(c.into()) };
    s.expected_notifications = vec![expect("a"), expect("b")];
    let log = vec![output("x"), output("a"), output("y"), output("b")];
    assert_eq!(validate(&s, &log, &None), Ok(()));
    s.expected_notifications = vec![expect("b"), expect("a")];
    assert_eq!(
        validate(&s, &log, &None),
        Err("expected notification `output` not found after index 4".to_string())
    );
    s.expected_notifications = vec![ExpectedNotification::ToolResult];
    assert_eq!(
        validate(&s, &log, &None),
        Err("expected notification `toolResult` not found after index 0".to_string())
    );
}

#[test]
fn responses_meet_their_expectations() {
    let mut s = scenario("s");
    let response = Some(AgentRunResponse {
        session_id: "s".into(),
        exit_code: 2,
        output: "é".into(),
    });
    assert_eq!(validate(&s, &vec![], &response), Ok(()));
    s.expected_response.min_output_len = Some(2);
    assert_eq!(validate(&s, &vec![], &response), Ok(()));
    s.expected_response.min_output_len = Some(3);
    assert_eq!(
        validate(&s, &vec![], &response),
        Err("response.output length 2 below min 3".to_string())
    );
    s.expected_response.output_contains = Some("z".into());
    assert_eq!(
        validate(&s, &vec![], &response),
        Err("response.output missing substring `z`".to_string())
    );
    s.expected_response = ExpectedResponse::default();
    s.expected_response.exit_code = Some(-1);
    assert_eq!(
        validate(&s, &vec![], &response),
        Err("response.exit_code 2 != expected -1".to_string())
    );
    assert_eq!(
        validate(&s, &vec![], &None),
        Err("no AgentRunResponse received but expected_response set".to_string())
    );
}

#[test]
fn only_the_named_scenario_is_run() {
    let all = || vec![scenario("a"), scenario("b"), scenario("a")];
    assert_eq!(select_scenarios(all(), &None).len(), 3);
    assert_eq!(select_scenarios(all(), &Some("a".into())).len(), 2);
    assert!(select_scenarios(all(), &Some("c".into())).is_empty());
}

#[test]
fn run_requests_read_back_as_sent() {
    let mut s = scenario("quoted");
    s.request.prompt = "say \"hi\"\nthen stop \u{1F980}".to_string();
    s.request.session_id = Some("s-1".to_string());
    s.request.env = vec![("A".to_string(), "line\nbreak".to_string())];
    let sent = run_request(&s);
    let line = encode_frame(&sent);
    assert_eq!(line.matches('\n').count(), 1);
    let Incoming::Frame(got) = decode_line(&line) else {
        panic!("the request did not read back");
    };
    assert_eq!(render(&got), render(&sent));
    let params = got.get("params").unwrap();
    assert_eq!(params.get("prompt"), Some(&Json::Text(s.request.prompt.clone())));
    let env = params.get("env").unwrap();
    assert_eq!(env.get("A"), Some(&Json::Text("line\nbreak".to_string())));
}

fn outcome(status: TestStatus) -> TestResult {
    TestResult {
        scenario: String::new(),
        status,
        duration_ms: 1,
        notification_log: vec![],
        response: None,
        diagnostics: vec![],
    }
}

#[test]
fn each_wanted_scenario_is_reported_once() {
    let all = || vec![scenario("b"), scenario("a"), scenario("b")];
    let at = Moment { seconds: 0, nanos: 0 };
    let mut run = match MatrixRun::begin(Ok::<_, String>(probe()), all(), &Some("b".into())) {
        Ok(run) => run,
        Err(e) => panic!("{e}"),
    };
    assert_eq!(run.next().map(|s| s.name.as_str()), Some("b"));
    run.record(outcome(TestStatus::Pass));
    assert_eq!(run.next().map(|s| s.name.as_str()), Some("b"));
    run.record(outcome(TestStatus::Skip { reason: "r".into() }));
    assert!(run.next().is_none());
    run.record(outcome(TestStatus::Fail { reason: "too many".into() }));
    let report = run.finish(at, at).expect("every scenario has its result");
    let names: Vec<&str> = report.scenarios.iter().map(|r| r.scenario.as_str()).collect();
    assert_eq!(names, vec!["b", "b"]);
    assert_eq!((report.summary.total, report.summary.passed, report.summary.skipped), (2, 1, 1));
    assert!(report.summary.overall_pass());
}

#[test]
fn runs_of_nothing_do_not_pass() {
    let at = Moment { seconds: 0, nanos: 0 };
    let only = Some("c".to_string());
    let run = MatrixRun::begin(Ok::<_, String>(probe()), vec![scenario("a")], &only);
    let report = run.ok().and_then(|r| r.finish(at, at)).expect("nothing is left to run");
    assert!(report.scenarios.is_empty());
    assert!(!report.summary.overall_pass());
    let unfinished = MatrixRun::begin(Ok::<_, String>(probe()), vec![scenario("a")], &None);
    assert!(unfinished.ok().and_then(|r| r.finish(at, at)).is_none());
    let refused = MatrixRun::begin(Err("no answer"), vec![scenario("a")], &None);
    assert_eq!(refused.err(), Some("no answer"));
}
