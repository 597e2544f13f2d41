use plugin_testkit::codec::{parse, render};
use plugin_testkit::conformance::Conformance;
use plugin_testkit::json::Json;
use plugin_testkit::model::{pass_or_fail, Moment, TestScenario, TestStatus};
use plugin_testkit::rpc::{
    Event, InitializeResult, PluginCapabilities, PluginInfo, PROTOCOL_VERSION,
};
use plugin_testkit::suite::{setup_failed, Session, Setup, Step};
use plugin_testkit::trigger::{
    external_config_missing, run_event_shape, run_watch_fires, watch_request, watch_send_failed,
    watch_setup_failed, Watch, WatchOutcome, TRIGGER_KIND,
};
use plugin_testkit::{log_storage, subject, transport};

fn init(plugin_kind: &str, methods: Vec<&str>, kinds: Vec<&str>) -> InitializeResult {
    InitializeResult {
        protocol_version: PROTOCOL_VERSION.to_string(),
        plugin_info: PluginInfo {
            name: "unit".to_string(),
            version: "0.0.0".to_string(),
            plugin_kind: plugin_kind.to_string(),
            description: None,
        },
        capabilities: PluginCapabilities {
            methods: methods.into_iter().map(str::to_string).collect(),
            streaming: true,
            progress: false,
            cancellation: true,
            subject_kinds: kinds.into_iter().map(str::to_string).collect(),
        },
    }
}

fn json(text: &str) -> Json {
    parse(text).expect("valid JSON")
}

fn reason(status: &TestStatus) -> &str {
    match status {
        TestStatus::Pass => "",
        TestStatus::Fail { reason } => reason,
        TestStatus::Skip { reason } => reason,
    }
}

fn now() -> Moment {
    Moment { seconds: 1_780_000_000, nanos: 123_000_000 }
}

#[test]
fn lib_baseline_scenarios_are_stable() {
    let s = log_storage::baseline_scenarios();
    assert_eq!(s.len(), 4);
    assert_eq!(s[0].name, "handshake");
    assert_eq!(s[3].name, "tail-replay");

    let s = subject::baseline_scenarios();
    assert_eq!(s.len(), 5);
    assert_eq!(s[0].name, "handshake");
    assert_eq!(s[4].name, "subject-watch-stream");

    let s = transport::baseline_scenarios();
    assert_eq!(s.len(), 4);
    assert_eq!(s[0].name, "handshake");
    assert_eq!(s[3].name, "serve-and-accept");

    let s = plugin_testkit::trigger::baseline_scenarios();
    assert_eq!(s.len(), 3);
    assert_eq!(s[0].name, "handshake");
    assert_eq!(s[2].name, "event-payload-shape");
}

#[test]
fn handshake_classifier_passes_only_log_storage_backend_kind() {
    assert_eq!(
        log_storage::run_handshake(
            &init(
                log_storage::PLUGIN_KIND_LOG_STORAGE_BACKEND,
                vec![log_storage::METHOD_LOG_STORAGE_STORE],
                vec![]
            ),
            0
        )
        .status,
        TestStatus::Pass
    );
    assert!(matches!(
        log_storage::run_handshake(&init("provider", vec![], vec![]), 0).status,
        TestStatus::Fail { reason } if reason.contains("expected `log_storage_backend`")
    ));
}

#[test]
fn handshake_classifier_passes_only_transport_backend_kind() {
    assert_eq!(
        transport::run_handshake(&init(transport::TRANSPORT_KIND, vec![], vec![]), 0).status,
        TestStatus::Pass
    );
    assert!(matches!(
        transport::run_handshake(&init("subject_backend", vec![], vec![]), 0).status,
        TestStatus::Fail { reason } if reason.contains("expected `transport_backend`")
    ));
}

#[test]
fn handshake_classifier_passes_only_trigger_backend_kind() {
    assert_eq!(
        plugin_testkit::trigger::run_handshake(&init(TRIGGER_KIND, vec![], vec![]), 0).status,
        TestStatus::Pass
    );
    assert!(matches!(
        plugin_testkit::trigger::run_handshake(&init("transport_backend", vec![], vec![]), 0).status,
        TestStatus::Fail { reason } if reason.contains("expected `trigger_backend`")
    ));
}

#[test]
fn subject_handshake_names_both_kinds() {
    let ok = subject::run_handshake(&init("subject_backend", vec![], vec![]), 7);
    assert_eq!(ok.status, TestStatus::Pass);
    assert_eq!(ok.duration_ms, 7);
    let bad = subject::run_handshake(&init("provider", vec![], vec![]), 0);
    assert_eq!(
        reason(&bad.status),
        "plugin_kind = `provider`, expected `subject_backend`"
    );
}

#[test]
fn setup_failures_say_which_step_failed() {
    let r = setup_failed("start-shutdown", Setup::FreePort, "none left", 3);
    assert_eq!(r.scenario, "start-shutdown");
    assert_eq!(reason(&r.status), "free_port: none left");
    assert_eq!(r.duration_ms, 3);
    assert_eq!(reason(&setup_failed("x", Setup::Spawn, "e", 0).status), "spawn: e");
    assert_eq!(reason(&setup_failed("x", Setup::Handshake, "e", 0).status), "handshake: e");
}

#[test]
fn sessions_number_their_requests() {
    let mut s = Session::new();
    assert!(s.has_ids());
    let (first, frame) = s.initialize("host");
    assert_eq!(first, 1);
    assert_eq!(frame.get("id"), Some(&Json::Unsigned(1)));
    let (second, frame) = s.request("health/check", Json::object());
    assert_eq!(second, 2);
    assert_eq!(frame.text_at("method"), Some("health/check"));
}

// ---------------------------------------------------------------------------
// Subject
// ---------------------------------------------------------------------------

#[test]
fn advertised_kinds_are_listed() {
    let r = subject::run_advertise_kinds(&init("subject_backend", vec!["a", "b"], vec!["task"]), 0);
    assert_eq!(r.status, TestStatus::Pass);
    assert_eq!(r.diagnostics, vec!["subject_kinds = [\"task\"]", "methods advertised: 2"]);
    let r = subject::run_advertise_kinds(&init("subject_backend", vec![], vec![]), 0);
    assert_eq!(reason(&r.status), "capabilities.subject_kinds is empty");
    assert_eq!(r.diagnostics, vec!["subject_kinds = []"]);
}

#[test]
fn methods_of_the_kind_come_first() {
    let both = init("s", vec!["subject/get", "task/get"], vec!["task"]);
    assert_eq!(subject::pick_method(&both, "get").as_deref(), Some("task/get"));
    let general = init("s", vec!["subject/get"], vec!["task"]);
    assert_eq!(subject::pick_method(&general, "get").as_deref(), Some("subject/get"));
    assert_eq!(subject::pick_method(&general, "watch"), None);
    let none = init("s", vec!["subject/list"], vec![]);
    assert_eq!(subject::list_method(&none).as_deref(), Some("subject/list"));
}

#[test]
fn list_accepts_objects_lists_and_null() {
    match subject::run_list(&init("s", vec!["task/list"], vec!["task"])) {
        Step::Call { method, params, budget_ms } => {
            assert_eq!(method, "task/list");
            assert_eq!(render(&params), "{}");
            assert_eq!(budget_ms, 5000);
        }
        other => panic!("{other:?}"),
    }
    assert_eq!(
        subject::run_list(&init("s", vec![], vec!["task"])),
        Step::Done {
            status: TestStatus::Skip { reason: "plugin advertises no `*/list` method".into() },
            diagnostics: vec![],
        }
    );
    for fine in ["{}", "[1]", "null"] {
        assert_eq!(
            subject::list_reply("task/list", &Ok(json(fine))),
            Step::Done { status: TestStatus::Pass, diagnostics: vec!["method = task/list".into()] }
        );
    }
    assert_eq!(
        subject::list_reply("task/list", &Ok(json("7"))),
        Step::Done {
            status: TestStatus::Fail {
                reason: "`task/list` returned non-object/array: 7".into()
            },
            diagnostics: vec![],
        }
    );
    assert_eq!(
        subject::list_reply("task/list", &Err("handshake".into())),
        Step::Done {
            status: TestStatus::Fail { reason: "task/list: handshake".into() },
            diagnostics: vec![],
        }
    );
}

fn crud_methods() -> InitializeResult {
    init(
        "subject_backend",
        vec!["task/create", "task/get", "task/update", "task/delete"],
        vec!["task"],
    )
}

#[test]
fn crud_goes_through_every_method() {
    let (crud, first) = subject::run_crud(&crud_methods(), 42);
    match first {
        Step::Call { method, params, .. } => {
            assert_eq!(method, "task/create");
            assert_eq!(params.text_at("title"), Some("subject-conformance-42"));
            assert_eq!(params.text_at("description"), Some("harness round-trip"));
        }
        other => panic!("{other:?}"),
    }
    let crud = crud.expect("plan");
    let (crud, step) = crud.reply(&Ok(json(r#"{"subject":{"id":"t-1"}}"#)));
    assert!(matches!(&step, Step::Call { method, params, .. }
        if method == "task/get" && render(params) == r#"{"id":"t-1"}"#));
    let (crud, step) = crud.reply(&Ok(Json::Null));
    assert!(matches!(&step, Step::Call { method, params, .. }
        if method == "task/update"
            && render(params) == r#"{"id":"t-1","patch":{"comment":"round-trip"}}"#));
    let (crud, step) = crud.reply(&Err("nope".into()));
    assert!(matches!(&step, Step::Call { method, .. } if method == "task/delete"));
    let (_, step) = crud.reply(&Err("gone".into()));
    assert_eq!(
        step,
        Step::Done {
            status: TestStatus::Pass,
            diagnostics: vec![
                "task/create → ok".into(),
                "task/get → ok".into(),
                "task/update attempted".into(),
                "task/delete returned: gone".into(),
            ],
        }
    );
}

#[test]
fn crud_fails_without_id_and_on_get() {
    let (crud, _) = subject::run_crud(&crud_methods(), 0);
    let (_, step) = crud.expect("plan").reply(&Ok(json(r#"{"id":""}"#)));
    assert_eq!(
        step,
        Step::Done {
            status: TestStatus::Fail {
                reason: r#"task/create returned no id; got {"id":""}"#.into()
            },
            diagnostics: vec!["task/create → ok".into()],
        }
    );
    let (crud, _) = subject::run_crud(&crud_methods(), 0);
    let (crud, _) = crud.expect("plan").reply(&Ok(json(r#"{"id":"x"}"#)));
    let (_, step) = crud.reply(&Err("no such".into()));
    assert!(matches!(step, Step::Done { status: TestStatus::Fail { reason }, .. }
        if reason == "task/get: no such"));
    let (crud, _) = subject::run_crud(&crud_methods(), 0);
    let (_, step) = crud.expect("plan").reply(&Err("full".into()));
    assert!(matches!(step, Step::Done { status: TestStatus::Fail { reason }, .. }
        if reason == "task/create: full"));
    let (none, step) = subject::run_crud(&init("s", vec![], vec![]), 0);
    assert!(none.is_none());
    assert!(matches!(step, Step::Done { status: TestStatus::Skip { reason }, .. }
        if reason == "plugin does not advertise `*/create`"));
}

#[test]
fn watch_may_be_unsupported() {
    assert!(matches!(
        subject::run_watch(&init("s", vec!["subject/watch"], vec![])),
        Step::Call { method, .. } if method == "subject/watch"
    ));
    assert!(matches!(
        subject::run_watch(&init("s", vec![], vec![])),
        Step::Done { status: TestStatus::Skip { .. }, .. }
    ));
    for allowed in ["x (code -32601)", "x (code -32001)", "Not Supported", "NOT found here"] {
        assert_eq!(
            subject::watch_reply("w", &Err(allowed.to_string())),
            Step::Done {
                status: TestStatus::Pass,
                diagnostics: vec!["w → unsupported (allowed)".into()],
            }
        );
    }
    assert!(matches!(
        subject::watch_reply("w", &Err("boom".into())),
        Step::Done { status: TestStatus::Fail { reason }, .. } if reason == "w: boom"
    ));
    assert!(matches!(
        subject::watch_reply("w", &Ok(Json::Null)),
        Step::Done { status: TestStatus::Pass, diagnostics } if diagnostics == vec!["w → ok"]
    ));
}

// ---------------------------------------------------------------------------
// Transport
// ---------------------------------------------------------------------------

#[test]
fn short_truncates_large_values_for_diagnostics() {
    let value = Json::object().with("message", Json::Text("x".repeat(200)));
    let rendered = transport::short(&value);
    assert!(rendered.len() <= 123);
    assert!(rendered.ends_with('…'));
}

#[test]
fn short_cuts_between_characters() {
    let value = Json::Text("é".repeat(100));
    let rendered = transport::short(&value);
    assert_eq!(rendered.chars().filter(|c| *c == 'é').count(), 59);
    assert!(rendered.len() <= 123);
    assert_eq!(transport::short(&json("{\"a\":1}")), "{\"a\":1}");
}

#[test]
fn transport_start_and_shutdown() {
    match transport::start_call("/tmp/c.sock", "/tmp", 8123) {
        Step::Call { method, params, budget_ms } => {
            assert_eq!(method, "transport/start");
            assert_eq!(params.text_at("bind_addr"), Some("127.0.0.1:8123"));
            assert_eq!(params.text_at("control_socket_path"), Some("/tmp/c.sock"));
            assert_eq!(params.text_at("project_root"), Some("/tmp"));
            assert_eq!(budget_ms, 5000);
        }
        other => panic!("{other:?}"),
    }
    let mut check = transport::StartShutdown::new();
    let step = check.reply(&Ok(json(r#"{"ok":true}"#)));
    assert!(matches!(step, Step::Call { method, budget_ms, .. }
        if method == "transport/shutdown" && budget_ms == 3000));
    let step = check.reply(&Err("late".into()));
    assert_eq!(
        step,
        Step::Done {
            status: TestStatus::Pass,
            diagnostics: vec![
                "transport/start → {\"ok\":true}".into(),
                "transport/shutdown errored: late".into(),
            ],
        }
    );
    let mut check = transport::StartShutdown::new();
    assert!(matches!(check.reply(&Err("busy".into())),
        Step::Done { status: TestStatus::Fail { reason }, .. } if reason == "transport/start: busy"));
}

#[test]
fn transport_schema_and_health() {
    let (mut check, first) = transport::SchemaHealth::new();
    assert!(matches!(first, Step::Call { method, .. } if method == "transport/schema"));
    assert!(matches!(check.reply(&Ok(Json::Null)),
        Step::Call { method, .. } if method == "health/check"));
    assert_eq!(
        check.reply(&Ok(json("{}"))),
        Step::Done {
            status: TestStatus::Pass,
            diagnostics: vec!["transport/schema → null".into(), "health/check → {}".into()],
        }
    );
    let (mut check, _) = transport::SchemaHealth::new();
    check.reply(&Ok(Json::Null));
    assert!(matches!(check.reply(&Err("down".into())),
        Step::Done { status: TestStatus::Fail { reason }, .. } if reason == "health/check: down"));
    let (mut check, _) = transport::SchemaHealth::new();
    assert!(matches!(check.reply(&Err("down".into())),
        Step::Done { status: TestStatus::Fail { reason }, .. } if reason == "transport/schema: down"));
}

#[test]
fn transport_serves_where_it_can_be_dialled() {
    assert_eq!(
        transport::serve_reply(9000, &Ok(Json::Null)),
        transport::Serve::Dial { port: 9000, after_ms: 75 }
    );
    assert_eq!(
        transport::serve_reply(9000, &Err("e".into())),
        transport::Serve::Shutdown(TestStatus::Fail { reason: "transport/start: e".into() })
    );
    assert_eq!(transport::dial_reply(9000, &None), TestStatus::Pass);
    assert_eq!(
        transport::dial_reply(9000, &Some("refused".into())),
        TestStatus::Fail { reason: "dial 127.0.0.1:9000: refused".into() }
    );
}

// ---------------------------------------------------------------------------
// Trigger
// ---------------------------------------------------------------------------

#[test]
fn watch_fires_classifier_distinguishes_pass_skip_and_fail() {
    let event = json(r#"{"event_id":"evt-1","trigger_id":"unit","payload":{}}"#);
    assert_eq!(
        run_watch_fires(&WatchOutcome::Ack { event: Some(event) }, 0).status,
        TestStatus::Pass
    );
    assert!(matches!(
        run_watch_fires(&WatchOutcome::Ack { event: None }, 0).status,
        TestStatus::Skip { reason } if reason.contains("no event in 3s")
    ));
    assert!(matches!(
        run_watch_fires(&WatchOutcome::NoAck("boom".to_string()), 0).status,
        TestStatus::Fail { reason } if reason.contains("boom")
    ));
    assert!(matches!(
        run_watch_fires(
            &WatchOutcome::NoAck("SLACK_APP_TOKEN unset".to_string()), 0).status,
        TestStatus::Skip { reason } if reason.contains("external configuration")
    ));
}

#[test]
fn event_shape_requires_flat_event_id() {
    let complete = WatchOutcome::Ack {
        event: Some(json(r#"{"event_id":"evt-1","trigger_id":"unit","payload":{"ok":true}}"#)),
    };
    assert_eq!(run_event_shape(&complete, 0).status, TestStatus::Pass);

    let minimal = WatchOutcome::Ack { event: Some(json(r#"{"event_id":"evt-1"}"#)) };
    assert_eq!(run_event_shape(&minimal, 0).status, TestStatus::Pass);

    let wrapped = WatchOutcome::Ack {
        event: Some(json(
            r#"{"id":100,"event":{"id":"evt-1","occurred_at":"2026-05-28T00:00:00Z","kind":"unit"}}"#,
        )),
    };
    assert!(matches!(
        run_event_shape(&wrapped, 0).status,
        TestStatus::Fail { reason } if reason.contains("event_id")
    ));

    let bad_type = WatchOutcome::Ack { event: Some(json(r#"{"event_id":7}"#)) };
    assert!(matches!(
        run_event_shape(&bad_type, 0).status,
        TestStatus::Fail { reason } if reason.contains("non-empty string")
    ));

    assert!(matches!(
        run_event_shape(&WatchOutcome::Ack { event: None }, 0).status,
        TestStatus::Skip { reason } if reason.contains("no event captured")
    ));
}

#[test]
fn event_shape_shows_the_event() {
    let outcome = WatchOutcome::Ack { event: Some(json(r#"{"event_id":""}"#)) };
    let r = run_event_shape(&outcome, 0);
    assert_eq!(reason(&r.status), "event_id must be a non-empty string, got \"\"");
    assert_eq!(r.diagnostics, vec!["event = {\"event_id\":\"\"}"]);
}

fn line(text: &str) -> Event {
    Event::Line(format!("{text}\n"))
}

#[test]
fn watch_ends_with_its_first_event() {
    let mut w = Watch::new();
    assert!(w.receive(line("")));
    assert!(w.receive(line(r#"{"jsonrpc":"2.0","id":7,"result":{}}"#)));
    assert!(w.receive(line(r#"{"jsonrpc":"2.0","id":100,"result":{}}"#)));
    assert!(!w.receive(line(r#"{"jsonrpc":"2.0","method":"trigger/event","params":{"event_id":"e"}}"#)));
    assert!(!w.receive(Event::Closed));
    assert_eq!(
        w.finish(),
        Some(WatchOutcome::Ack { event: Some(json(r#"{"event_id":"e"}"#)) })
    );
}

#[test]
fn watch_without_events_is_over_in_time() {
    let mut w = Watch::new();
    w.receive(line(r#"{"jsonrpc":"2.0","id":100,"result":{}}"#));
    assert!(!w.receive(Event::Quiet));
    assert_eq!(w.finish(), Some(WatchOutcome::Ack { event: None }));

    let mut w = Watch::new();
    w.receive(line(r#"{"id":100}"#));
    assert!(!w.receive(line("not json")));
    assert_eq!(
        w.finish(),
        Some(WatchOutcome::NoAck("no ack and no events within 3s".into()))
    );

    let mut w = Watch::new();
    let refused = r#"{"jsonrpc":"2.0","id":100,"error":{"code":-32601,"message":"API token"}}"#;
    assert!(!w.receive(line(refused)));
    let outcome = w.finish().expect("outcome");
    assert_eq!(outcome, WatchOutcome::NoAck("API token (code -32601)".into()));
    assert!(matches!(
        run_watch_fires(&outcome, 0).status,
        TestStatus::Skip { reason }
            if reason == "trigger/watch requires external configuration: API token (code -32601)"
    ));
    assert_eq!(
        watch_setup_failed(Setup::Spawn, "x"),
        WatchOutcome::NoAck("spawn: x".into())
    );
    assert_eq!(
        watch_send_failed("x"),
        WatchOutcome::NoAck("send watch: x".into())
    );
    assert_eq!(
        render(&watch_request()),
        r#"{"id":100,"jsonrpc":"2.0","method":"trigger/watch","params":{}}"#
    );
}

#[test]
fn missing_configuration_is_recognised() {
    for text in [
        "TOKEN must be set",
        "body must include a key",
        "Missing secret",
        "is not configured",
        "a key is REQUIRED",
        "unset",
        "bad API Token",
        "unauthorized",
    ] {
        assert!(external_config_missing(text), "{text}");
    }
    assert!(!external_config_missing("boom"));
}

// ---------------------------------------------------------------------------
// Log storage
// ---------------------------------------------------------------------------

#[test]
fn filtered_query_targets_unique_entry() {
    let entry = log_storage::log_entry("unit", "message", now());
    let query = log_storage::filtered_query(&entry.id, false);
    assert_eq!(query.source_name.as_deref(), Some(log_storage::SOURCE_NAME));
    assert_eq!(query.target_glob.as_deref(), Some(entry.target.as_str()));
    assert!(!query.follow);
}

#[test]
fn log_event_entry_ignores_other_tail_ids() {
    let entry = log_storage::log_entry("event", "message", now());
    let frame = event_frame(99, &entry);
    let decoded = log_storage::log_event_entry(&frame, 100).expect("decode frame");
    assert!(decoded.is_none());
}

#[test]
fn log_event_entry_decodes_matching_entry() {
    let entry = log_storage::log_entry("event", "message", now());
    let id = entry.id.clone();
    let frame = event_frame(100, &entry);
    let decoded = log_storage::log_event_entry(&frame, 100)
        .expect("decode frame")
        .expect("matching event");
    assert_eq!(decoded.id, id);
}

fn event_frame(id: u64, entry: &log_storage::LogEntry) -> Json {
    Json::object()
        .with("jsonrpc", Json::text("2.0"))
        .with("method", Json::text(log_storage::NOTIFICATION_LOG_STORAGE_EVENT))
        .with(
            "params",
            Json::object()
                .with("id", Json::Unsigned(id))
                .with("entry", log_storage::encode_entry(entry)),
        )
}

#[test]
fn log_entries_carry_their_moment() {
    let entry = log_storage::log_entry("unit", "message", now());
    assert_eq!(entry.id, "testkit-unit-1780000000123000000");
    assert_eq!(entry.target, "testkit.log_storage.testkit-unit-1780000000123000000");
    assert_eq!(entry.ts, "2026-05-28T20:26:40.123Z");
    assert_eq!(entry.level, "info");
    assert_eq!(entry.source, "plugin");
    assert_eq!(render(&entry.fields), r#"{"suite":"log-storage-conformance"}"#);
}

#[test]
fn log_entries_survive_their_json_form() {
    let entry = log_storage::log_entry("unit", "message", now());
    let text = render(&log_storage::encode_entry(&entry));
    assert_eq!(log_storage::decode_entry(&json(&text)), Ok(entry));
    let bad = json(
        r#"{"id":"a","ts":"yesterday","level":"info","source":"plugin","target":"t","message":"m"}"#,
    );
    assert_eq!(
        log_storage::decode_entry(&bad),
        Err("invalid type for field `ts`".to_string())
    );
    assert_eq!(
        log_storage::decode_entry(&json(r#"{"ts":"2026-05-28T00:00:00Z"}"#)),
        Err("missing field `id`".to_string())
    );
}

#[test]
fn log_event_errors_are_reported() {
    let frame = json(r#"{"method":"log_storage/event","params":{"id":1,"error":{"code":5}}}"#);
    assert_eq!(
        log_storage::log_event_entry(&frame, 1),
        Err("tail stream error: {\"code\":5}".to_string())
    );
    let frame = json(r#"{"method":"log_storage/event","params":{"id":1,"entry":{}}}"#);
    assert_eq!(
        log_storage::log_event_entry(&frame, 1),
        Err("decode log_storage/event entry".to_string())
    );
    let frame = json(r#"{"method":"log_storage/event","params":{"id":1}}"#);
    assert_eq!(log_storage::log_event_entry(&frame, 1), Ok(None));
}

#[test]
fn log_schema_must_agree_with_capabilities() {
    let schema = json(r#"{"supports_query":true,"supports_tail":false}"#);
    let methods = vec!["log_storage/query".to_string()];
    let (mut check, first) = log_storage::SchemaHealth::new(methods);
    assert!(matches!(first, Step::Call { method, .. } if method == "log_storage/schema"));
    assert!(matches!(check.reply(&Ok(schema.clone())),
        Step::Call { method, .. } if method == "health/check"));
    assert!(matches!(check.reply(&Ok(json(r#"{"status":"ok"}"#))),
        Step::Done { status: TestStatus::Pass, diagnostics } if diagnostics.len() == 2));

    let (mut check, _) = log_storage::SchemaHealth::new(vec![]);
    check.reply(&Ok(schema.clone()));
    assert!(matches!(check.reply(&Ok(json(r#"{"status":"ok"}"#))),
        Step::Done { status: TestStatus::Fail { reason }, .. }
            if reason == "schema supports_query=true but capabilities advertise query=false"));

    let both = vec!["log_storage/query".to_string(), "log_storage/tail".to_string()];
    let (mut check, _) = log_storage::SchemaHealth::new(both);
    check.reply(&Ok(schema.clone()));
    assert!(matches!(check.reply(&Ok(json(r#"{"status":"ok"}"#))),
        Step::Done { status: TestStatus::Fail { reason }, .. }
            if reason == "schema supports_tail=false but capabilities advertise tail=true"));

    let (mut check, _) = log_storage::SchemaHealth::new(vec![]);
    check.reply(&Ok(schema));
    assert!(matches!(check.reply(&Ok(json("{}"))),
        Step::Done { status: TestStatus::Fail { reason }, .. }
            if reason == "health/check missing status: {}"));

    let (mut check, _) = log_storage::SchemaHealth::new(vec![]);
    assert!(matches!(check.reply(&Ok(json("{}"))),
        Step::Done { status: TestStatus::Fail { reason }, .. }
            if reason == "log_storage/schema returned invalid schema: missing field `supports_query`; value={}"));
}

#[test]
fn stored_entries_must_be_found() {
    let entry = log_storage::log_entry("unit", "m", now());
    let (mut check, first) = log_storage::StoreQuery::new(&entry);
    match first {
        Step::Call { method, params, .. } => {
            assert_eq!(method, "log_storage/store");
            assert!(matches!(params.get("entries"), Some(Json::List(items)) if items.len() == 1));
        }
        other => panic!("{other:?}"),
    }
    match check.reply(&Ok(json(r#"{"stored":1}"#))) {
        Step::Call { method, params, .. } => {
            assert_eq!(method, "log_storage/query");
            assert_eq!(params.text_at("target_glob"), Some(entry.target.as_str()));
            assert_eq!(params.get("limit"), Some(&Json::Unsigned(5)));
            assert_eq!(params.truth_at("follow"), Some(false));
        }
        other => panic!("{other:?}"),
    }
    let found = Json::object().with(
        "entries",
        Json::List(vec![log_storage::encode_entry(&entry)]),
    );
    assert!(matches!(check.reply(&Ok(found)), Step::Done { status: TestStatus::Pass, diagnostics }
        if diagnostics == vec!["log_storage/store → {\"stored\":1}", "log_storage/query returned 1"]));

    let (mut check, _) = log_storage::StoreQuery::new(&entry);
    check.reply(&Ok(Json::Null));
    assert!(matches!(check.reply(&Ok(json(r#"{"entries":[]}"#))),
        Step::Done { status: TestStatus::Fail { reason }, .. }
            if reason == format!("query result did not include stored id {}", entry.id)));

    let (mut check, _) = log_storage::StoreQuery::new(&entry);
    check.reply(&Ok(Json::Null));
    assert!(matches!(check.reply(&Ok(Json::Null)),
        Step::Done { status: TestStatus::Fail { reason }, .. }
            if reason == "log_storage/query: decode LogQueryResult"));
}

#[test]
fn tails_replay_the_stored_entry() {
    let entry = log_storage::log_entry("tail", "m", now());
    let params = log_storage::tail_params(&entry.id);
    assert_eq!(params.truth_at("follow"), Some(false));
    assert_eq!(params.text_at("target_glob"), Some(entry.target.as_str()));
    let mut tail = log_storage::Tail::new(4);
    assert!(tail.goes_on(0));
    tail.receive(Event::Line(render(&event_frame(9, &entry))));
    tail.receive(Event::Line(render(&event_frame(4, &entry))));
    assert!(tail.goes_on(10));
    tail.receive(line(r#"{"jsonrpc":"2.0","id":4,"result":null}"#));
    assert!(!tail.goes_on(20));
    let got = tail.finish();
    assert!(matches!(&got, Ok(Some(e)) if e.id == entry.id));
    let (status, notes) = log_storage::replay_reply(&entry.id, &Ok(Json::Null), &got);
    assert_eq!(status, TestStatus::Pass);
    assert_eq!(notes[1], format!("log_storage/event entry id={}", entry.id));
    let (status, _) = log_storage::replay_reply("other", &Ok(Json::Null), &got);
    assert_eq!(
        reason(&status),
        format!("tail replay emitted id {}, expected other", entry.id)
    );
}

#[test]
fn tails_that_stay_silent_fail() {
    let tail = log_storage::Tail::new(4);
    assert!(!tail.goes_on(3000));
    assert_eq!(
        tail.finish(),
        Err("tail request was not acknowledged within deadline".to_string())
    );
    let mut tail = log_storage::Tail::new(4);
    tail.receive(Event::Quiet);
    assert_eq!(tail.finish(), Err("read deadline exceeded".to_string()));
    let mut tail = log_storage::Tail::new(4);
    tail.receive(line(r#"{"jsonrpc":"2.0","id":4,"error":{"code":1,"message":"no"}}"#));
    let got = tail.finish();
    assert_eq!(got, Err("log_storage/tail returned error: no (code 1)".to_string()));
    let (status, _) = log_storage::replay_reply("x", &Ok(Json::Null), &got);
    assert_eq!(
        reason(&status),
        "log_storage/tail: log_storage/tail returned error: no (code 1)"
    );
    let (status, notes) = log_storage::replay_reply("x", &Err("full".into()), &Ok(None));
    assert_eq!(reason(&status), "log_storage/store: full");
    assert!(notes.is_empty());
    let (status, _) = log_storage::replay_reply("x", &Ok(Json::Null), &Ok(None));
    assert_eq!(reason(&status), "tail replay did not emit stored id x");
    assert!(log_storage::tail_gate(&vec!["log_storage/tail".to_string()]).is_none());
    assert!(matches!(log_storage::tail_gate(&vec![]), Some(TestStatus::Skip { .. })));
}

fn all_pass(mut run: Conformance, checks: Vec<TestScenario>) {
    for check in &checks {
        assert_eq!(run.next(), Some(check.name));
        run.record(pass_or_fail("another name", TestStatus::Pass, 1, vec![]));
    }
    assert_eq!(run.next(), None);
    assert_eq!(run.recorded(), checks.len());
    assert_eq!(run.init().plugin_info.name, "unit");
    let report = run.finish(now(), now()).expect("every check has its result");
    let names: Vec<&str> = report.scenarios.iter().map(|r| r.scenario.as_str()).collect();
    let expected: Vec<&str> = checks.iter().map(|c| c.name).collect();
    assert_eq!(names, expected);
    assert_eq!(report.summary.passed, checks.len());
}

#[test]
fn suites_report_on_each_check_once() {
    let probe = || Ok::<InitializeResult, String>(init("k", vec![], vec![]));
    all_pass(subject::begin(probe()).expect("begins"), subject::baseline_scenarios());
    all_pass(transport::begin(probe()).expect("begins"), transport::baseline_scenarios());
    all_pass(
        plugin_testkit::trigger::begin(probe()).expect("begins"),
        plugin_testkit::trigger::baseline_scenarios(),
    );
    all_pass(log_storage::begin(probe()).expect("begins"), log_storage::baseline_scenarios());
}

#[test]
fn suites_need_an_introduction() {
    assert_eq!(subject::begin(Err("closed")).err(), Some("closed"));
    let begun = subject::begin(Ok::<_, String>(init("k", vec![], vec![]))).expect("begins");
    assert!(begun.finish(now(), now()).is_none());
}

#[test]
fn entries_from_before_the_epoch_read_back() {
    let at = Moment { seconds: -62_135_596_800, nanos: 1_000 };
    let entry = log_storage::log_entry("early", "m", at);
    assert_eq!(entry.ts, "0001-01-01T00:00:00.000001Z");
    assert_eq!(log_storage::decode_entry(&log_storage::encode_entry(&entry)), Ok(entry));
}

fn shutdown() -> transport::ServeStep {
    transport::ServeStep::Plain(Step::Call {
        method: "transport/shutdown".into(),
        params: Json::object(),
        budget_ms: 3_000,
    })
}

fn served(status: TestStatus) -> transport::ServeStep {
    transport::ServeStep::Plain(Step::Done { status, diagnostics: vec![] })
}

#[test]
fn transports_are_shut_down_however_serving_goes() {
    let mut check = transport::ServeAndAccept::new("/s", "/r", 9);
    assert_eq!(
        check.step(),
        transport::ServeStep::Plain(transport::start_call("/s", "/r", 9))
    );
    check.dialled(&Some("out of turn".into()));
    check.answer(&Ok(Json::Null));
    assert_eq!(check.step(), transport::ServeStep::Dial { port: 9, after_ms: 75 });
    check.dialled(&None);
    assert_eq!(check.step(), shutdown());
    check.answer(&Err("gone".into()));
    assert_eq!(check.step(), served(TestStatus::Pass));

    let mut check = transport::ServeAndAccept::new("/s", "/r", 9);
    check.answer(&Ok(Json::Null));
    check.dialled(&Some("refused".into()));
    assert_eq!(check.step(), shutdown());
    check.answer(&Ok(Json::Null));
    let refused = TestStatus::Fail { reason: "dial 127.0.0.1:9: refused".into() };
    assert_eq!(check.step(), served(refused));

    let mut check = transport::ServeAndAccept::new("/s", "/r", 9);
    check.answer(&Err("no".into()));
    assert_eq!(check.step(), shutdown());
    check.answer(&Ok(Json::Null));
    let failed = TestStatus::Fail { reason: "transport/start: no".into() };
    assert_eq!(check.step(), served(failed));
}

#[test]
fn tails_are_asked_for_after_a_store() {
    let methods = vec![log_storage::METHOD_LOG_STORAGE_TAIL.to_string()];
    let entry = || log_storage::log_entry("tail", "m", now());
    let status = |check: &log_storage::TailReplay| match check.step() {
        log_storage::ReplayStep::Plain(Step::Done { status, diagnostics }) => {
            Some((status, diagnostics.len()))
        }
        _ => None,
    };

    let mut check = log_storage::TailReplay::new(&methods, entry());
    assert_eq!(
        check.step(),
        log_storage::ReplayStep::Plain(log_storage::store_call(&entry()))
    );
    check.stored(&Ok(Json::Null));
    assert_eq!(
        check.step(),
        log_storage::ReplayStep::Tail { params: log_storage::tail_params(&entry().id) }
    );
    check.tailed(&Ok(Some(entry())));
    assert_eq!(status(&check), Some((TestStatus::Pass, 2)));

    let mut check = log_storage::TailReplay::new(&methods, entry());
    check.stored(&Err("full".into()));
    let failed = TestStatus::Fail { reason: "log_storage/store: full".into() };
    assert_eq!(status(&check), Some((failed, 0)));

    let check = log_storage::TailReplay::new(&vec![], entry());
    let skipped =
        TestStatus::Skip { reason: "plugin does not advertise log_storage/tail".into() };
    assert_eq!(status(&check), Some((skipped, 0)));
}
