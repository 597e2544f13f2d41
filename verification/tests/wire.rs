use plugin_testkit::codec::{debug_text, parse, parse_yaml, render, RAW_VALUE_KEY};
use plugin_testkit::json::Json;
use plugin_testkit::rpc::{
    answers, call_on, decode_initialize_result, decode_line, decode_response, encode_frame,
    initialize_request, notification, read_frame, request, CallStep, Event, FrameStep, Incoming,
    RpcError,
};
use plugin_testkit::suite::suite_wording;

#[test]
fn json_is_read() {
    assert_eq!(parse(" null "), Some(Json::Null));
    assert_eq!(parse("true"), Some(Json::Bool(true)));
    assert_eq!(parse("18446744073709551615"), Some(Json::Unsigned(u64::MAX)));
    assert_eq!(parse("-9223372036854775808"), Some(Json::Negative(i64::MIN)));
    assert_eq!(parse(r#""a\n\u00e9""#), Some(Json::text("a\né")));
    assert!(matches!(parse("1.5"), Some(Json::Decimal(_))));
    assert_eq!(parse("{"), None);
    assert_eq!(parse(""), None);
    assert_eq!(parse("1 2"), None);
}

#[test]
fn json_is_written() {
    let v = Json::object()
        .with("b", Json::List(vec![Json::Null, Json::Bool(false), Json::Negative(-3)]))
        .with("a", Json::text("x\n\"é"))
        .with("b", Json::Unsigned(7));
    assert_eq!(render(&v), r#"{"a":"x\n\"é","b":7}"#);
    assert_eq!(render(&parse("1.25e2").expect("valid JSON")), "125.0");
    assert_eq!(render(&Json::List(vec![])), "[]");
}

#[test]
fn json_survives_a_round_trip() {
    for text in [
        r#"{"a":{"b":[1,-2,"x",true,null]},"c":0.1}"#,
        r#"["\u0001","\\","/"]"#,
        "-0.5",
        r#""" "#,
    ] {
        let once = parse(text).expect("valid JSON");
        let again = parse(&render(&once)).expect("valid JSON");
        assert_eq!(again, once);
    }
    let mut deep = Json::Null;
    for _ in 0..127 {
        deep = Json::List(vec![deep]);
    }
    assert_eq!(parse(&render(&deep)), Some(deep.clone()));
    assert_eq!(parse(&render(&Json::List(vec![deep]))), None);
}

#[test]
fn fields_are_looked_up() {
    let v = parse(r#"{"t":"x","b":true,"n":5,"z":null}"#).expect("valid JSON");
    assert_eq!(v.text_at("t"), Some("x"));
    assert_eq!(v.text_at("b"), None);
    assert_eq!(v.truth_at("b"), Some(true));
    assert_eq!(v.truth_or("q", true), true);
    assert_eq!(v.text_or_empty("n"), "");
    assert_eq!(v.get("q"), None);
    assert_eq!(v.get("z"), Some(&Json::Null));
    assert!(v.get("n").expect("there").is_number(5));
    assert!(!Json::Negative(-5).is_number(5));
    assert!(Json::Negative(5).is_number(5));
    assert_eq!(v.get_or_null("q"), Json::Null);
    assert_eq!(Json::text("s").with("a", Json::Null), Json::text("s"));
    assert_eq!(Json::List(vec![]).get("a"), None);
}

#[test]
fn debugging_text_names_the_variants() {
    assert_eq!(debug_text(&Json::Unsigned(3)), "Number(3)");
    assert_eq!(debug_text(&Json::text("a\"b")), "String(\"a\\\"b\")");
    assert_eq!(debug_text(&Json::Null), "Null");
}

#[test]
fn yaml_is_read_as_json() {
    let v = parse_yaml("a: 1\nb: [x, null, 2.5]\nc: {d: true}\n").expect("valid YAML");
    assert_eq!(render(&v), r#"{"a":1,"b":["x",null,2.5],"c":{"d":true}}"#);
    assert!(parse_yaml("a: [").is_err());
}

#[test]
fn frames_are_one_line_each() {
    let frame = notification("m", Json::object().with("text", Json::text("two\nlines")));
    let text = encode_frame(&frame);
    assert_eq!(text, "{\"jsonrpc\":\"2.0\",\"method\":\"m\",\"params\":{\"text\":\"two\\nlines\"}}\n");
    match decode_line(&text) {
        Incoming::Frame(back) => assert_eq!(render(&back), render(&frame)),
        other => panic!("{other:?}"),
    }
    assert_eq!(decode_line(" \t\r\n"), Incoming::Blank);
    assert_eq!(decode_line("  oops \n"), Incoming::Invalid("oops".into()));
}

#[test]
fn requests_are_built() {
    assert_eq!(
        render(&request(9, "m", Json::Null)),
        r#"{"id":9,"jsonrpc":"2.0","method":"m","params":null}"#
    );
    assert_eq!(
        render(&initialize_request(1, "host", false)),
        r#"{"id":1,"jsonrpc":"2.0","method":"initialize","params":{"capabilities":{"cancellation":false,"progress":false,"streaming":true},"host_info":{"name":"host","version":"0.3.0"},"protocol_version":"1.0.0"}}"#
    );
}

#[test]
fn responses_are_decoded() {
    let r = decode_response(&parse(r#"{"jsonrpc":"2.0","id":1,"result":{"a":1}}"#).unwrap())
        .expect("a response");
    assert_eq!(r.id, Some(Json::Unsigned(1)));
    assert!(r.error.is_none());
    let r = decode_response(
        &parse(r#"{"jsonrpc":"2.0","id":null,"result":null,"error":{"code":-1,"message":"m"}}"#)
            .unwrap(),
    )
    .expect("a response");
    assert_eq!(r.id, None);
    assert_eq!(r.result, None);
    assert_eq!(r.error, Some(RpcError { code: -1, message: "m".into() }));
    let e = |text: &str| decode_response(&parse(text).unwrap()).unwrap_err();
    assert_eq!(e("{}"), "missing field `jsonrpc`");
    assert_eq!(e(r#"{"jsonrpc":2}"#), "invalid type for field `jsonrpc`");
    assert_eq!(e(r#"{"jsonrpc":"2.0","error":{}}"#), "missing field `code`");
    assert_eq!(
        e(r#"{"jsonrpc":"2.0","error":{"code":"x","message":"m"}}"#),
        "invalid type for field `code`"
    );
}

#[test]
fn introductions_are_decoded() {
    let init = decode_initialize_result(
        &parse(
            r#"{"protocol_version":"1","plugin_info":{"name":"n","version":"v","plugin_kind":"k",
                "description":"d"},"capabilities":{"methods":["a"],"streaming":true,
                "subject_kinds":["task"],"mcp_tools":[]}}"#,
        )
        .unwrap(),
    )
    .expect("an introduction");
    assert_eq!(init.plugin_info.description.as_deref(), Some("d"));
    assert_eq!(init.capabilities.methods, vec!["a"]);
    assert_eq!(init.capabilities.subject_kinds, vec!["task"]);
    assert!(init.capabilities.streaming);
    assert!(!init.capabilities.cancellation);
    let e = |text: &str| decode_initialize_result(&parse(text).unwrap()).unwrap_err();
    assert_eq!(e("{}"), "missing field `protocol_version`");
    assert_eq!(e(r#"{"protocol_version":"1"}"#), "missing field `plugin_info`");
    assert_eq!(
        e(r#"{"protocol_version":"1","plugin_info":{"name":"n","version":"v","plugin_kind":"k"}}"#),
        "missing field `capabilities`"
    );
    assert_eq!(
        e(r#"{"protocol_version":"1","plugin_info":{"name":"n","version":"v","plugin_kind":"k"},
            "capabilities":{"methods":[1]}}"#),
        "invalid type for field `methods`"
    );
}

#[test]
fn calls_wait_for_their_own_answer() {
    let on = |text: &str| call_on(Event::Line(text.into()), &suite_wording(), 2, "m");
    assert_eq!(on(r#"{"jsonrpc":"2.0","id":1,"result":5}"#), CallStep::Pending);
    assert_eq!(on(r#"{"jsonrpc":"2.0","id":2.0,"result":5}"#), CallStep::Pending);
    assert_eq!(on(r#"{"method":"x"}"#), CallStep::Pending);
    assert_eq!(on(""), CallStep::Pending);
    assert_eq!(on(r#"{"jsonrpc":"2.0","id":2,"result":5}"#), CallStep::Done(Json::Unsigned(5)));
    assert_eq!(on(r#"{"jsonrpc":"2.0","id":2}"#), CallStep::Done(Json::Null));
    assert_eq!(
        on(r#"{"jsonrpc":"2.0","id":2,"error":{"code":7,"message":"no"}}"#),
        CallStep::Failed("m returned error: no (code 7)".into())
    );
    assert_eq!(on(r#"{"id":2}"#), CallStep::Failed("missing field `jsonrpc`".into()));
    assert!(answers(&parse(r#"{"id":2}"#).unwrap(), 2));
    assert!(!answers(&Json::Null, 2));
}

#[test]
fn reading_fails_in_the_words_of_the_suite() {
    let on = |event: Event| read_frame(event, &suite_wording());
    assert_eq!(on(Event::Closed), FrameStep::Failed("plugin stdout closed".into()));
    assert_eq!(on(Event::Quiet), FrameStep::Failed("read deadline exceeded".into()));
    assert_eq!(on(Event::ReadFailed("e".into())), FrameStep::Failed("e".into()));
    assert_eq!(on(Event::Line("x\n".into())), FrameStep::Failed("invalid JSON frame: x".into()));
    assert_eq!(on(Event::Line("\n".into())), FrameStep::Again);
    assert_eq!(on(Event::Line("3".into())), FrameStep::Frame(Json::Unsigned(3)));
}

#[test]
fn marked_objects_read_as_what_they_spell_out() {
    let marked = Json::object().with(RAW_VALUE_KEY, Json::text("1"));
    assert_eq!(parse(&render(&marked)), Some(Json::Unsigned(1)));
    let nested = Json::object().with("a", Json::object().with("b", Json::text("1")));
    assert_eq!(parse(&render(&nested)), Some(nested));
}
