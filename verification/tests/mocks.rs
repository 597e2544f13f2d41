use plugin_testkit::codec::{parse, render};
use plugin_testkit::fake_plugin::FakePlugin;
use plugin_testkit::json::Json;
use plugin_testkit::launch::{
    backend_environment, first_existing, mock_candidates, plugin_environment, search_path,
    server_environment, shims, Mocks,
};
use plugin_testkit::mock::{perform, tool_called, Output, Tool, DEFAULT_SCRIPT};
use plugin_testkit::oai::{
    chat_completions, choose_port, has_assistant_history, list_models, parse_args, parse_port,
    Args,
};

fn lines(tool: Tool, script: &str) -> Vec<String> {
    perform(tool, script).iter().filter_map(|o| o.line()).collect()
}

#[test]
fn streams_begin_and_end_like_the_tool() {
    assert_eq!(
        lines(Tool::Claude, "streaming-short"),
        vec![
            r#"{"session_id":"mock-session-streaming-short","subtype":"init","type":"system"}"#,
            r#"{"delta":{"text":"Hello ","type":"text_delta"},"index":0,"session_id":"mock-session-streaming-short","type":"content_block_delta"}"#,
            r#"{"delta":{"text":"world","type":"text_delta"},"index":0,"session_id":"mock-session-streaming-short","type":"content_block_delta"}"#,
            r#"{"delta":{"text":"!","type":"text_delta"},"index":0,"session_id":"mock-session-streaming-short","type":"content_block_delta"}"#,
            r#"{"duration_ms":5,"is_error":false,"num_turns":1,"result":"Hello world!","session_id":"mock-session-streaming-short","subtype":"success","type":"result"}"#,
        ]
    );
    assert_eq!(
        lines(Tool::Codex, "streaming-short"),
        vec![
            r#"{"thread_id":"mock-codex-streaming-short","type":"thread.started"}"#,
            r#"{"type":"turn.started"}"#,
            r#"{"item":{"text":"Hello ","type":"agent_message"},"type":"item.completed"}"#,
            r#"{"item":{"text":"Hello world","type":"agent_message"},"type":"item.completed"}"#,
            r#"{"item":{"text":"Hello world!","type":"agent_message"},"type":"item.completed"}"#,
            r#"{"type":"turn.completed","usage":{"input_tokens":4,"output_tokens":8}}"#,
        ]
    );
    assert_eq!(
        lines(Tool::Gemini, "resume-session"),
        vec![
            r#"{"session_id":"mock-gemini-resume-session"}"#,
            r#"{"partialResult":{"text":"Hello "},"type":"partialResult"}"#,
            r#"{"partialResult":{"text":"world"},"type":"partialResult"}"#,
            r#"{"partialResult":{"text":"!"},"type":"partialResult"}"#,
            r#"{"response":"Hello world!"}"#,
            r#"{"stats":{"candidatesTokenCount":8,"promptTokenCount":4}}"#,
        ]
    );
    assert_eq!(
        lines(Tool::Opencode, "no-such-script"),
        vec![
            r#"{"text":"Hello ","type":"text"}"#,
            r#"{"text":"world","type":"text"}"#,
            r#"{"text":"!","type":"text"}"#,
            r#"{"content":"Hello world!"}"#,
        ]
    );
    assert_eq!(lines(Tool::Opencode, DEFAULT_SCRIPT).len(), 4);
}

#[test]
fn tool_calls_stand_behind_the_first_text() {
    assert_eq!(
        lines(Tool::Opencode, "tool-call-parallel"),
        vec![
            r#"{"text":"Parallel ops: ","type":"text"}"#,
            r#"{"tool_use":{"id":"tool_a","input":{"cmd":"pwd"},"name":"shell"},"type":"tool_use"}"#,
            r#"{"tool_use":{"id":"tool_b","input":{"cmd":"whoami"},"name":"shell"},"type":"tool_use"}"#,
            r#"{"tool_result":{"content":"/tmp","tool_use_id":"tool_a"},"type":"tool_result"}"#,
            r#"{"tool_result":{"content":"user","tool_use_id":"tool_b"},"type":"tool_result"}"#,
            r#"{"text":"complete.","type":"text"}"#,
            r#"{"content":"Parallel ops: complete."}"#,
        ]
    );
    let codex = lines(Tool::Codex, "tool-call-single");
    assert_eq!(
        codex[3],
        r#"{"item":{"arguments":"{\"cmd\":\"ls\"}","call_id":"call_1","name":"shell","type":"function_call"},"type":"item.completed"}"#
    );
    assert_eq!(
        codex[5],
        r#"{"item":{"text":"Looking up... done.","type":"agent_message"},"type":"item.completed"}"#
    );
    let stream = lines(Tool::Claude, "tool-call-single");
    assert_eq!(
        stream[2],
        r#"{"message":{"content":[{"id":"toolu_1","input":{"cmd":"ls"},"name":"shell","type":"tool_use"}]},"session_id":"mock-session-tool-call-single","type":"assistant"}"#
    );
    let gemini = lines(Tool::Gemini, "tool-call-single");
    assert_eq!(
        gemini[3],
        r#"{"functionResponse":{"name":"shell","response":{"stdout":"file_a\nfile_b\n"}},"type":"functionResponse"}"#
    );
}

#[test]
fn garbled_lines_are_no_json() {
    let all = lines(Tool::Gemini, "error-recovery");
    assert_eq!(all[2], "{not-json-at-all");
    assert_eq!(parse(&all[2]), None);
    assert_eq!(all[4], r#"{"response":"Working... recovered."}"#);
}

#[test]
fn long_scripts_have_their_length() {
    assert_eq!(lines(Tool::Claude, "streaming-medium").len(), 42);
    assert_eq!(lines(Tool::Claude, "streaming-long").len(), 302);
    let codex = lines(Tool::Codex, "streaming-medium");
    assert!(codex[41].contains("word0 word1 "));
    assert!(codex[41].contains("word39 "));
    let slow = perform(Tool::Opencode, "cancellation");
    assert_eq!(slow.len(), 241);
    assert_eq!(slow[1], Output::Pause(50));
    assert_eq!(perform(Tool::Gemini, "cancellation").len(), 6);
}

#[test]
fn tools_are_named_by_their_variable() {
    assert_eq!(Tool::Codex.name(), "codex");
    assert_eq!(Tool::Opencode.variable(), "OPENCODE_BIN");
    assert_eq!(format!("{}_BIN", Tool::Claude.name().to_uppercase()), Tool::Claude.variable());
    assert_eq!(Tool::Gemini.name(), "gemini");
}

#[test]
fn ports_are_parsed() {
    assert_eq!(parse_port("8080"), Some(8080));
    assert_eq!(parse_port("+007"), Some(7));
    assert_eq!(parse_port("65535"), Some(65535));
    for bad in ["", "+", "-1", "65536", "99999999999999999999", "8 0", "0x10", "++1"] {
        assert_eq!(parse_port(bad), None, "{bad}");
        assert!(bad.parse::<u16>().is_err());
    }
    assert_eq!(choose_port(Some(1), &Some("2".into())), 1);
    assert_eq!(choose_port(None, &Some("2".into())), 2);
    assert_eq!(choose_port(None, &Some("x".into())), 18080);
    assert_eq!(choose_port(None, &None), 18080);
}

#[test]
fn arguments_are_parsed() {
    let args = |list: &[&str]| parse_args(&list.iter().map(|s| s.to_string()).collect());
    assert_eq!(args(&[]), Args { port: None, scenario: None });
    assert_eq!(
        args(&["--port", "1", "x", "--scenario", "s", "--port", "2"]),
        Args { port: Some(2), scenario: Some("s".into()) }
    );
    assert_eq!(
        args(&["--scenario", "s", "--scenario"]),
        Args { port: None, scenario: None }
    );
    assert_eq!(args(&["--port", "1", "--port", "y"]).port, None);
    assert_eq!(args(&["--port", "1", "--port"]).port, None);
    assert_eq!(args(&["--port", "--scenario", "s"]), Args { port: None, scenario: None });
}

fn request(extra: &str) -> Json {
    parse(&format!(r#"{{"stream":true{extra}}}"#)).expect("valid JSON")
}

#[test]
fn completions_stream() {
    let answer = chat_completions(&request(r#","model":"m""#), &None).expect("a stream");
    assert_eq!(
        answer,
        vec![
            r#"{"choices":[{"delta":{"content":"Hello "},"index":0}],"id":"chatcmpl-mock","model":"m","object":"chat.completion.chunk"}"#,
            r#"{"choices":[{"delta":{"content":"world"},"index":0}],"id":"chatcmpl-mock","model":"m","object":"chat.completion.chunk"}"#,
            r#"{"choices":[{"delta":{"content":"!"},"index":0}],"id":"chatcmpl-mock","model":"m","object":"chat.completion.chunk"}"#,
            r#"{"choices":[{"delta":{},"finish_reason":"stop","index":0}],"id":"chatcmpl-mock","model":"m","object":"chat.completion.chunk"}"#,
            "[DONE]",
        ]
    );
    assert_eq!(
        chat_completions(&Json::object(), &None),
        Err((400, "mock-oai requires stream:true".to_string()))
    );
    let len = |script: &str| {
        chat_completions(&request(""), &Some(script.to_string())).expect("a stream").len()
    };
    assert_eq!(len("streaming-medium"), 42);
    assert_eq!(len("streaming-long"), 302);
    assert_eq!(len("tool-call-parallel"), 5);
    assert_eq!(len("unknown"), 5);
    let single = chat_completions(&request(""), &Some("tool-call-single".into())).unwrap();
    assert_eq!(
        single[1],
        r#"{"choices":[{"delta":{"tool_calls":[{"function":{"arguments":"","name":"shell"},"id":"call_1","index":0,"type":"function"}]},"index":0}],"id":"chatcmpl-mock","model":"gpt-5","object":"chat.completion.chunk"}"#
    );
    assert_eq!(single.len(), 6);
    let garbled = chat_completions(&request(""), &Some("error-recovery".into())).unwrap();
    assert_eq!(garbled[1], "{not-json-at-all");
}

#[test]
fn continuations_are_resumed_whatever_is_set() {
    let more = request(r#","messages":[{"role":"user"},{"role":"assistant","content":"x"}]"#);
    assert!(has_assistant_history(&more));
    let a = chat_completions(&more, &Some("streaming-long".into())).unwrap();
    assert_eq!(a, chat_completions(&more, &None).unwrap());
    assert!(a[1].contains("again"));
    assert!(has_assistant_history(&request(r#","messages":[{"role":"tool"}]"#)));
    assert!(!has_assistant_history(&request(r#","messages":[{"role":"user"}]"#)));
    assert!(!has_assistant_history(&request(r#","messages":{"role":"tool"}"#)));
    assert_eq!(
        render(&list_models()),
        r#"{"data":[{"id":"gpt-5","object":"model"},{"id":"gpt-5-mini","object":"model"}],"object":"list"}"#
    );
}

#[test]
fn the_fake_plugin_streams_until_cancelled() {
    let mut p = FakePlugin::new();
    assert_eq!(p.receive("oops"), (vec![], true));
    assert_eq!(p.receive(r#"{"method":"initialized"}"#), (vec![], true));
    let (out, goes_on) = p.receive(r#"{"id":"r","method":"agent/run"}"#);
    assert!(goes_on);
    assert_eq!(
        out.iter().map(render).collect::<Vec<_>>()[1],
        r#"{"jsonrpc":"2.0","method":"agent/output","params":{"final":false,"session_id":"fake-session-1","text":"tick1 "}}"#
    );
    let (out, goes_on) = p.receive(r#"{"id":9,"method":"agent/cancel"}"#);
    assert!(!goes_on);
    assert_eq!(
        out.iter().map(render).collect::<Vec<_>>(),
        vec![
            r#"{"id":9,"jsonrpc":"2.0","result":{}}"#,
            r#"{"error":{"code":-32002,"message":"cancelled"},"id":"r","jsonrpc":"2.0"}"#,
        ]
    );
    let mut idle = FakePlugin::new();
    assert_eq!(idle.receive(r#"{"method":"agent/cancel"}"#).0.len(), 1);
    let (out, goes_on) = idle.receive(r#"{"id":3,"method":"shutdown"}"#);
    assert_eq!(render(&out[0]), r#"{"id":3,"jsonrpc":"2.0","result":{}}"#);
    assert!(!goes_on);
}

fn mocks() -> Mocks {
    Mocks {
        claude: None,
        codex: Some("/m/codex".into()),
        gemini: None,
        opencode: Some("/m/opencode".into()),
    }
}

#[test]
fn plugins_are_told_where_the_mocks_are() {
    let pair = |a: &str, b: &str| (a.to_string(), b.to_string());
    assert_eq!(
        plugin_environment(&Some("s".into()), &mocks(), Some(9)),
        vec![
            pair("MOCK_SCENARIO", "s"),
            pair("CODEX_BIN", "/m/codex"),
            pair("OPENCODE_BIN", "/m/opencode"),
            pair("ANIMUS_TESTKIT", "1"),
            pair("OPENAI_API_KEY", "mock-oai-test-key"),
            pair("OPENAI_BASE_URL", "http://127.0.0.1:9/v1"),
        ]
    );
    let none = Mocks { claude: None, codex: None, gemini: None, opencode: None };
    assert_eq!(plugin_environment(&None, &none, None), vec![pair("ANIMUS_TESTKIT", "1")]);
    assert_eq!(
        shims(&mocks()),
        vec![pair("codex", "/m/codex"), pair("opencode", "/m/opencode")]
    );
}

#[test]
fn release_builds_are_preferred() {
    let places = || mock_candidates("/w", "codex");
    assert_eq!(places().0, "/w/target/release/mock-codex");
    assert_eq!(places().1, "/w/target/debug/mock-codex");
    assert_eq!(first_existing(places(), true, true), Some(places().0));
    assert_eq!(first_existing(places(), false, true), Some(places().1));
    assert_eq!(first_existing(places(), false, false), None);
}

#[test]
fn copies_are_found_first() {
    assert_eq!(search_path(Some("/s"), vec!["/a", "/b"]), vec!["/s", "/a", "/b"]);
    assert_eq!(search_path(None, vec!["/a", "/b"]), vec!["/a", "/b"]);
    assert_eq!(search_path(Some("/s"), vec![]), vec!["/s"]);
}

#[test]
fn programs_stand_in_for_tools_by_name() {
    for tool in [Tool::Claude, Tool::Codex, Tool::Gemini, Tool::Opencode] {
        assert_eq!(tool_called(&tool.name()), Some(tool));
        assert_eq!(tool_called(&format!("mock-{}", tool.name())), Some(tool));
    }
    assert_eq!(tool_called("mock-"), None);
    assert_eq!(tool_called("mock-oai"), None);
    assert_eq!(tool_called("animus-plugin-harness"), None);
}

#[test]
fn servers_and_backends_are_told_what_they_need() {
    assert_eq!(
        server_environment(8080, &Some("streaming-short".into())),
        vec![
            ("MOCK_OAI_PORT".to_string(), "8080".to_string()),
            ("MOCK_SCENARIO".to_string(), "streaming-short".to_string()),
        ]
    );
    assert_eq!(
        server_environment(1, &None),
        vec![("MOCK_OAI_PORT".to_string(), "1".to_string())]
    );
    assert_eq!(backend_environment(Some("/t/log")), vec![("ANIMUS_LOG_FILE_PATH", "/t/log")]);
    assert!(backend_environment::<String>(None).is_empty());
}
