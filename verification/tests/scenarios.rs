use plugin_testkit::loader::{load_scenario, load_scenario_dir, resolve, DirEntry};
use plugin_testkit::mock::Tool;
use plugin_testkit::model::{
    AgentNotification, ExpectedNotification, ScenarioMethod, TestkitError,
};
use plugin_testkit::json::Json;
use plugin_testkit::provider::{baseline_entries, baseline_scenarios};
use plugin_testkit::scenario::parse_scenario;

#[test]
fn parses_minimal_scenario() {
    let tool = Tool::Claude.name();
    let yaml = format!(
        r#"
name: streaming-short
description: just a hello
timeout_ms: 5000
request:
  prompt: "say hi"
  model: {tool}-sonnet-4-6
expected_notifications:
  - kind: output
    contains: "hi"
expected_response:
  min_output_len: 1
mock:
  tool: {tool}
  mock_scenario: streaming-short
skip_if_capabilities:
  - "$harness/incompatible"
"#
    );
    let s = parse_scenario(&yaml).unwrap();
    assert_eq!(s.name, "streaming-short");
    assert_eq!(s.expected_notifications.len(), 1);
    assert_eq!(s.skip_if_capabilities, vec!["$harness/incompatible"]);
    assert_eq!(s.mock.tool, Some(tool));
    assert_eq!(s.timeout_ms, 5000);
}

#[test]
fn matcher_contains_works() {
    let n = AgentNotification::Output {
        session_id: "s".into(),
        text: "hello world".into(),
        is_final: false,
    };
    let m = ExpectedNotification::Output { contains: Some("world".into()) };
    assert!(m.matches(&n));
    let bad = ExpectedNotification::Output { contains: Some("nope".into()) };
    assert!(!bad.matches(&n));
}

#[test]
fn matcher_variants_check_their_relevant_fields() {
    assert!(ExpectedNotification::Thinking.matches(&AgentNotification::Thinking {
        session_id: "s".into(),
        text: "thinking".into(),
    }));
    assert!(ExpectedNotification::ToolCall { name: Some("shell".into()) }.matches(
        &AgentNotification::ToolCall {
            session_id: "s".into(),
            name: "shell".into(),
            arguments: Json::Null,
            server: None,
        }
    ));
    assert!(!ExpectedNotification::ToolCall { name: Some("browser".into()) }.matches(
        &AgentNotification::ToolCall {
            session_id: "s".into(),
            name: "shell".into(),
            arguments: Json::Null,
            server: None,
        }
    ));
    assert!(ExpectedNotification::ToolResult.matches(&AgentNotification::ToolResult {
        session_id: "s".into(),
        name: "shell".into(),
        output: Json::Null,
        success: true,
    }));
    assert!(ExpectedNotification::Error { recoverable: Some(false) }.matches(
        &AgentNotification::Error {
            session_id: "s".into(),
            message: "terminal".into(),
            recoverable: false,
        }
    ));
}

#[test]
fn matcher_kinds_do_not_mix() {
    let n = AgentNotification::Thinking { session_id: "s".into(), text: "x".into() };
    for m in [
        ExpectedNotification::Output { contains: None },
        ExpectedNotification::ToolCall { name: None },
        ExpectedNotification::ToolResult,
        ExpectedNotification::Error { recoverable: None },
    ] {
        assert!(!m.matches(&n));
    }
    let labels: Vec<&str> = [
        ExpectedNotification::Output { contains: None },
        ExpectedNotification::Thinking,
        ExpectedNotification::ToolCall { name: None },
        ExpectedNotification::ToolResult,
        ExpectedNotification::Error { recoverable: None },
    ]
    .iter()
    .map(|m| m.label())
    .collect();
    assert_eq!(labels, vec!["output", "thinking", "toolCall", "toolResult", "error"]);
}

fn entry(name: &str, text: &str) -> DirEntry {
    let extension = name.rsplit('.').next().unwrap_or("").to_string();
    DirEntry { path: format!("dir/{name}"), extension, content: Ok(text.to_string()) }
}

#[test]
fn scenario_dir_loads_yaml_files_sorted_by_scenario_name() {
    let entries = vec![
        entry("z.yaml", "name: zeta\nrequest:\n  prompt: z\n"),
        entry("a.yml", "name: alpha\nrequest:\n  prompt: a\n"),
        entry("ignored.txt", "name: ignored\nrequest:\n  prompt: nope\n"),
    ];
    let scenarios = load_scenario_dir(&entries).expect("scenario dir should load");
    let names: Vec<&str> = scenarios.iter().map(|s| s.name.as_str()).collect();
    assert_eq!(names, vec!["alpha", "zeta"]);
}

#[test]
fn scenarios_with_one_name_keep_their_order() {
    let entries = vec![
        entry("1.yaml", "name: b\nrequest:\n  prompt: first\n"),
        entry("2.yaml", "name: a\nrequest:\n  prompt: x\n"),
        entry("3.yaml", "name: b\nrequest:\n  prompt: second\n"),
    ];
    let list = load_scenario_dir(&entries).expect("load");
    let prompts: Vec<&str> = list.iter().map(|s| s.request.prompt.as_str()).collect();
    assert_eq!(prompts, vec!["x", "first", "second"]);
}

#[test]
fn load_scenario_rejects_blank_names() {
    let err = load_scenario("blank.yaml", "name: '   '\nrequest:\n  prompt: nope\n")
        .expect_err("blank scenario name should fail");
    assert!(
        matches!(err, TestkitError::InvalidScenario(_, ref reason) if reason == "scenario name is empty"),
        "unexpected error: {}",
        err.message()
    );
    assert_eq!(err.message(), "invalid scenario `blank.yaml`: scenario name is empty");
}

#[test]
fn every_load_error_has_its_words() {
    let err = load_scenario("x.yaml", "request:\n  prompt: p\n").expect_err("no name");
    assert_eq!(err.message(), "yaml: missing field `name`");
    assert!(matches!(load_scenario("x.yaml", "a: [\n"), Err(TestkitError::Yaml(_))));
    let unreadable = DirEntry {
        path: "x.yaml".into(),
        extension: "yaml".into(),
        content: Err("denied".into()),
    };
    let err = load_scenario_dir(&vec![unreadable]).expect_err("unreadable");
    assert_eq!(err, TestkitError::Io("denied".into()));
    assert_eq!(err.message(), "io: denied");
    assert_eq!(TestkitError::Json("bad".into()).message(), "json: bad");
}

#[test]
fn resolve_needs_scenarios() {
    assert_eq!(
        resolve("some/dir", &Ok(vec![])),
        Err("no scenarios found in some/dir".to_string())
    );
    assert_eq!(
        resolve("some/dir", &Err("missing".into())),
        Err("loading scenarios from some/dir".to_string())
    );
    let bad = vec![entry("a.yaml", "name: ''\nrequest:\n  prompt: p\n")];
    assert_eq!(
        resolve("some/dir", &Ok(bad)),
        Err("loading scenarios from some/dir".to_string())
    );
    let list = resolve("scenarios", &Ok(baseline_entries())).expect("baseline");
    let names: Vec<&str> = list.iter().map(|s| s.name.as_str()).collect();
    assert_eq!(
        names,
        vec![
            "cancellation",
            "error-recovery",
            "resume-session",
            "streaming-long",
            "streaming-medium",
            "streaming-short",
            "tool-call-parallel",
            "tool-call-parallel-oai",
            "tool-call-single",
            "tool-call-single-oai",
        ]
    );
}

#[test]
fn scenario_defaults() {
    let s = parse_scenario("name: n\nrequest:\n  prompt: p\n").expect("minimal");
    assert_eq!(s.description, "");
    assert_eq!(s.timeout_ms, 10_000);
    assert_eq!(s.method, ScenarioMethod::Run);
    assert_eq!(s.cancel_after_ms, None);
    assert!(!s.allow_extra_notifications);
    assert!(s.expected_notifications.is_empty());
    assert_eq!(s.expected_response.exit_code, None);
    assert_eq!(s.mock.tool, None);
    assert_eq!(s.request.cwd, None);
    assert!(s.request.env.is_empty());
}

#[test]
fn scenario_takes_every_field() {
    let s = parse_scenario(
        "name: n
method: resume
timeout_ms: 250
cancel_after_ms: 100
allow_extra_notifications: true
requires_capabilities: [agent/resume]
request:
  prompt: p
  system_prompt: sys
  cwd: /work
  session_id: s-1
  env:
    KEY: VALUE
    PORT: 8080
    FLAG: true
expected_notifications:
  - kind: thinking
  - kind: tool_call
    name: shell
  - kind: tool_result
  - kind: error
    recoverable: false
  - kind: output
expected_response:
  output_contains: x
  min_output_len: 3
  exit_code: -1
unknown_field: 7
",
    )
    .expect("full");
    assert_eq!(s.method, ScenarioMethod::Resume);
    assert_eq!(s.cancel_after_ms, Some(100));
    assert_eq!(s.requires_capabilities, vec!["agent/resume"]);
    assert_eq!(s.request.session_id.as_deref(), Some("s-1"));
    let mut env = s.request.env.clone();
    env.sort();
    assert_eq!(
        env,
        vec![
            ("FLAG".to_string(), "true".to_string()),
            ("KEY".to_string(), "VALUE".to_string()),
            ("PORT".to_string(), "8080".to_string()),
        ]
    );
    assert_eq!(
        s.expected_notifications,
        vec![
            ExpectedNotification::Thinking,
            ExpectedNotification::ToolCall { name: Some("shell".into()) },
            ExpectedNotification::ToolResult,
            ExpectedNotification::Error { recoverable: Some(false) },
            ExpectedNotification::Output { contains: None },
        ]
    );
    assert_eq!(s.expected_response.exit_code, Some(-1));
    assert_eq!(s.expected_response.min_output_len, Some(3));
}

#[test]
fn scenario_errors_name_the_field() {
    let e = |text: &str| parse_scenario(text).expect_err("must fail");
    assert_eq!(e("name: n\n"), "missing field `request`");
    assert_eq!(e("name: n\nrequest: {}\n"), "missing field `prompt`");
    assert_eq!(
        e("name: [1]\nrequest:\n  prompt: p\n"),
        "invalid type for field `name`"
    );
    assert_eq!(
        e("name: n\nrequest:\n  prompt: p\ntimeout_ms: soon\n"),
        "invalid type for field `timeout_ms`"
    );
    assert_eq!(
        e("name: n\nrequest:\n  prompt: p\nmethod: walk\n"),
        "unknown variant `walk`, expected `run` or `resume`"
    );
    assert_eq!(
        e("name: n\nrequest:\n  prompt: p\nexpected_notifications:\n  - kind: song\n"),
        "unknown variant `song`, expected one of `output`, `thinking`, `tool_call`, `tool_result`, `error`"
    );
    assert_eq!(
        e("name: n\nrequest:\n  prompt: p\n  env:\n    A: [1]\n"),
        "invalid type for field `env`"
    );
    assert_eq!(
        e("name: n\nrequest:\n  prompt: p\nexpected_response:\n  exit_code: 99999999999\n"),
        "invalid type for field `exit_code`"
    );
}

#[test]
fn empty_sections_stand_for_none() {
    let s = parse_scenario(
        "name: n\ndescription:\nrequest:\n  prompt: 42\n  env:\nmock:\nrequires_capabilities:\nexpected_notifications:\n",
    )
    .expect("empty sections");
    assert_eq!(s.description, "");
    assert_eq!(s.request.prompt, "42");
    assert!(s.request.env.is_empty());
    assert!(s.requires_capabilities.is_empty());
    assert!(s.expected_notifications.is_empty());
}

#[test]
fn baseline_scenarios_parse_and_have_expected_names() {
    let scenarios = baseline_scenarios().unwrap();
    let names: Vec<&str> = scenarios.iter().map(|s| s.name.as_str()).collect();
    assert!(names.contains(&"streaming-short"));
    assert!(names.contains(&"streaming-long"));
    assert!(names.contains(&"tool-call-single"));
    assert!(names.contains(&"resume-session"));
    assert!(names.contains(&"tool-call-single-oai"));
    assert!(names.contains(&"tool-call-parallel-oai"));
    assert_eq!(scenarios.len(), 10);
}

#[test]
fn all_baseline_scenarios_have_a_mock_hint_or_explicit_skip() {
    let scenarios = baseline_scenarios().expect("scenarios load");
    for s in &scenarios {
        let has_mock = s.mock.tool.is_some();
        let is_skip_scenario = !s.requires_capabilities.is_empty();
        assert!(
            has_mock || is_skip_scenario,
            "scenario `{}` has neither a mock hint nor requires_capabilities",
            s.name
        );
    }
}

#[test]
fn cancellation_is_intentionally_gated_until_v0_2_0() {
    let scenarios = baseline_scenarios().expect("scenarios load");
    let cancel = scenarios
        .iter()
        .find(|s| s.name == "cancellation")
        .expect("cancellation scenario present");
    assert!(
        cancel.requires_capabilities.iter().any(|c| c.starts_with("$harness/")),
        "cancellation scenario should require a harness-internal capability so all \
         real plugins SKIP it cleanly"
    );
    assert!(cancel.cancel_after_ms.is_some());
}

#[test]
fn patterns_can_be_lists() {
    let with = |pattern: &str| {
        parse_scenario(&format!(
            "name: n\nrequest:\n  prompt: p\nexpected_notifications:\n  - {pattern}\n"
        ))
        .map(|s| s.expected_notifications)
    };
    assert_eq!(
        with("[output, hi]"),
        Ok(vec![ExpectedNotification::Output { contains: Some("hi".into()) }])
    );
    assert_eq!(with("[output]"), Ok(vec![ExpectedNotification::Output { contains: None }]));
    assert_eq!(with("[tool_call, null]"), Ok(vec![ExpectedNotification::ToolCall { name: None }]));
    assert_eq!(
        with("[error, true]"),
        Ok(vec![ExpectedNotification::Error { recoverable: Some(true) }])
    );
    assert_eq!(with("[thinking]"), Ok(vec![ExpectedNotification::Thinking]));
    assert_eq!(
        with("[thinking, x]"),
        Err("invalid length 1, expected 0 elements in sequence".to_string())
    );
    assert_eq!(
        with("[output, a, b]"),
        Err("invalid length 2, expected 1 element in sequence".to_string())
    );
    assert_eq!(with("[]"), Err("missing field `kind`".to_string()));
    assert!(with("[song, x]").unwrap_err().starts_with("unknown variant `song`"));
    assert!(with("[output, 1]").is_err());
    assert!(with("[[output]]").is_err());
}
