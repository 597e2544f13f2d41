//! A provider plugin that streams until it is cancelled.

use crate::harness::{
    notification_of, sends, CANCELLATION_CAPABILITY, CANCEL_REQUEST_ID, REQUEST_CANCELLED,
    RUN_REQUEST_ID,
};
use crate::json::{items_view, Json, JsonView};
use crate::mock::{field, t};
use crate::model::{NotificationView, ScenarioView};
use crate::rpc::{
    brings, decode_line, frame_keys_differ, incoming, introduces, notification, notification_view,
    opt_json, refuses, request_view, response_of, says, EventView, Incoming, IncomingView,
    InitializeResultView, PluginCapabilitiesView, PluginInfoView,
};
use crate::run::{
    cancel_view, cancellation_passes, fresh_run, next_action, received, result_of, run_method,
    run_params, ActionView,
};
use crate::text::{decimal, has_prefix, same, usize_to_string};
use crate::views::{group_views, views};
use vstd::prelude::*;

verus! {

broadcast use group_views;

/// The session of every run.
pub const SESSION_ID: &'static str = "fake-session-1";

/// How many notifications a run begins with.
pub const TICKS: usize = 3;

/// The plugin: the id of the run under way, if there is one.
#[derive(Debug, PartialEq)]
pub struct FakePlugin {
    run_request: Option<Json>,
}

impl View for FakePlugin {
    type V = Option<JsonView>;

    closed spec fn view(&self) -> Option<JsonView> {
        opt_json(self.run_request)
    }
}

/// A response with a result.
pub open spec fn result_frame(id: JsonView, result: JsonView) -> JsonView {
    field("jsonrpc"@, t("2.0"@)).with("id"@, id).with("result"@, result)
}

fn make_result(id: Json, result: Json) -> (r: Json)
    ensures
        r@ == result_frame(id@, result@),
{
    Json::object().with("jsonrpc", Json::text("2.0")).with("id", id).with("result", result)
}

/// What the plugin says of itself.
pub open spec fn introduction() -> JsonView {
    field("protocol_version"@, t("1.0.0"@)).with(
        "plugin_info"@,
        field("name"@, t("fake-cancellable-plugin"@)).with("version"@, t("0.0.0"@)).with(
            "plugin_kind"@,
            t("provider"@),
        ).with("description"@, t("test fixture"@)),
    ).with(
        "capabilities"@,
        field(
            "methods"@,
            JsonView::List(
                seq![t("agent/run"@), t("agent/cancel"@), t(CANCELLATION_CAPABILITY@)],
            ),
        ).with("streaming"@, JsonView::Bool(true)).with("progress"@, JsonView::Bool(false)).with(
            "cancellation"@,
            JsonView::Bool(true),
        ).with("subject_kinds"@, JsonView::List(Seq::empty())).with(
            "mcp_tools"@,
            JsonView::List(Seq::empty()),
        ),
    )
}

fn make_introduction() -> (r: Json)
    ensures
        r@ == introduction(),
{
    let info = Json::object().with("name", Json::text("fake-cancellable-plugin")).with(
        "version",
        Json::text("0.0.0"),
    ).with("plugin_kind", Json::text("provider")).with("description", Json::text("test fixture"));
    let mut methods: Vec<Json> = Vec::new();
    methods.push(Json::text("agent/run"));
    methods.push(Json::text("agent/cancel"));
    methods.push(Json::text(CANCELLATION_CAPABILITY));
    assert(items_view(methods@) =~= seq![
        t("agent/run"@),
        t("agent/cancel"@),
        t(CANCELLATION_CAPABILITY@),
    ]);
    let kinds: Vec<Json> = Vec::new();
    let tools: Vec<Json> = Vec::new();
    assert(items_view(kinds@) =~= Seq::<JsonView>::empty());
    assert(items_view(tools@) =~= Seq::<JsonView>::empty());
    let capabilities = Json::object().with("methods", Json::List(methods)).with(
        "streaming",
        Json::Bool(true),
    ).with("progress", Json::Bool(false)).with("cancellation", Json::Bool(true)).with(
        "subject_kinds",
        Json::List(kinds),
    ).with("mcp_tools", Json::List(tools));
    Json::object().with("protocol_version", Json::text("1.0.0")).with("plugin_info", info).with(
        "capabilities",
        capabilities,
    )
}

/// One notification of a run.
pub open spec fn tick(i: int) -> JsonView {
    notification_view(
        "agent/output"@,
        field("session_id"@, t(SESSION_ID@)).with(
            "text"@,
            t("tick"@ + decimal(i as nat) + " "@),
        ).with("final"@, JsonView::Bool(false)),
    )
}

/// The notifications that a run begins with.
pub open spec fn ticks() -> Seq<JsonView> {
    Seq::new(TICKS as nat, |i: int| tick(i))
}

fn make_ticks() -> (r: Vec<Json>)
    ensures
        views(r@) == ticks(),
{
    let mut r: Vec<Json> = Vec::new();
    let mut i: usize = 0;
    assert(views(r@) =~= ticks().take(0));
    while i < TICKS
        invariant
            i <= TICKS,
            views(r@) == ticks().take(i as int),
        decreases TICKS - i,
    {
        let mut text = "tick".to_owned();
        text.append(usize_to_string(i).as_str());
        text.append(" ");
        r.push(
            notification(
                "agent/output",
                Json::object().with("session_id", Json::text(SESSION_ID)).with(
                    "text",
                    Json::Text(text),
                ).with("final", Json::Bool(false)),
            ),
        );
        i += 1;
        assert(views(r@) =~= ticks().take(i as int));
    }
    assert(ticks().take(i as int) =~= ticks());
    r
}

/// The response to a run that was cancelled.
pub open spec fn cancelled(id: JsonView) -> JsonView {
    field("jsonrpc"@, t("2.0"@)).with("id"@, id).with(
        "error"@,
        field("code"@, JsonView::Int(-32002)).with("message"@, t("cancelled"@)),
    )
}

/// The plugin after a frame: its state, what it writes, and whether it goes on.
pub open spec fn plugin_frame(run: Option<JsonView>, frame: JsonView) -> (
    Option<JsonView>,
    Seq<JsonView>,
    bool,
) {
    let method = frame.text_or_empty("method"@);
    let id = frame.get_or_null("id"@);
    if method == "initialize"@ {
        (run, seq![result_frame(id, introduction())], true)
    } else if method == "agent/run"@ {
        (frame.get("id"@), ticks(), true)
    } else if method == "agent/cancel"@ {
        let ack = result_frame(id, JsonView::object());
        match run {
            Some(run_id) => (None, seq![ack, cancelled(run_id)], false),
            None => (None, seq![ack], false),
        }
    } else if method == "shutdown"@ {
        (run, seq![result_frame(id, JsonView::object())], false)
    } else {
        (run, Seq::empty(), true)
    }
}

/// The plugin after a line; one that is no frame is passed over.
pub open spec fn plugin_line(run: Option<JsonView>, line: Seq<char>) -> (
    Option<JsonView>,
    Seq<JsonView>,
    bool,
) {
    match incoming(line) {
        IncomingView::Frame(frame) => plugin_frame(run, frame),
        _ => (run, Seq::empty(), true),
    }
}

impl FakePlugin {
    /// The plugin before its first line.
    pub fn new() -> (r: FakePlugin)
        ensures
            r@ is None,
    {
        FakePlugin { run_request: None }
    }

    fn take_frame(&mut self, frame: &Json) -> (r: (Vec<Json>, bool))
        ensures
            (final(self)@, views(r.0@), r.1) == plugin_frame(old(self)@, frame@),
    {
        let method = frame.text_or_empty("method");
        let id = frame.get_or_null("id");
        let mut out: Vec<Json> = Vec::new();
        if same(method.as_str(), "initialize") {
            out.push(make_result(id, make_introduction()));
            assert(views(out@) =~= seq![result_frame(frame@.get_or_null("id"@), introduction())]);
            (out, true)
        } else if same(method.as_str(), "agent/run") {
            self.run_request = match frame.get("id") {
                Some(v) => Some(v.clone()),
                None => None,
            };
            (make_ticks(), true)
        } else if same(method.as_str(), "agent/cancel") {
            let ghost before = self@;
            out.push(make_result(id, Json::object()));
            let run = self.run_request.take();
            if let Some(run_id) = run {
                out.push(
                    Json::object().with("jsonrpc", Json::text("2.0")).with("id", run_id).with(
                        "error",
                        Json::object().with("code", Json::Negative(-32002)).with(
                            "message",
                            Json::text("cancelled"),
                        ),
                    ),
                );
            }
            assert(views(out@) =~= plugin_frame(before, frame@).1);
            (out, false)
        } else if same(method.as_str(), "shutdown") {
            out.push(make_result(id, Json::object()));
            assert(views(out@) =~= seq![
                result_frame(frame@.get_or_null("id"@), JsonView::object()),
            ]);
            (out, false)
        } else {
            (out, true)
        }
    }

    /// Takes a line: what to write, and whether to go on.
    pub fn receive(&mut self, line: &str) -> (r: (Vec<Json>, bool))
        ensures
            (final(self)@, views(r.0@), r.1) == plugin_line(old(self)@, line@),
    {
        match decode_line(line) {
            Incoming::Frame(frame) => self.take_frame(&frame),
            _ => (Vec::new(), true),
        }
    }
}

/// A run that is cancelled is answered, with its own id, as cancelled; and the plugin ends.
pub proof fn cancel_answers_run(before: Option<JsonView>, run: JsonView, cancel: JsonView)
    requires
        run.text_at("method"@) == Some("agent/run"@),
        run.get("id"@) is Some,
        cancel.text_at("method"@) == Some("agent/cancel"@),
    ensures
        ({
            let (state, wrote, goes_on) = plugin_frame(before, run);
            let (_, answers, after) = plugin_frame(state, cancel);
            &&& wrote == ticks()
            &&& goes_on
            &&& answers.last() == cancelled(run.get("id"@)->0)
            &&& !after
        }),
{
    reveal_strlit("agent/run");
    reveal_strlit("agent/cancel");
    reveal_strlit("initialize");
    assert("agent/run"@.len() == 9);
    assert("agent/cancel"@.len() == 12);
    assert("initialize"@.len() == 10);
}

/// The notifications of a run name the session, and do not end the run.
proof fn ticks_name_session(i: int)
    ensures
        tick(i).get("id"@) is None,
        tick(i).text_at("method"@) == Some("agent/output"@),
        !has_prefix("agent/output"@, "$/"@),
        notification_of("agent/output"@, tick(i).get_or_null("params"@)) matches Some(n)
            && n.session() == SESSION_ID@ && n.session().len() > 0 && !n.is_fatal(),
{
    reveal_strlit("jsonrpc");
    reveal_strlit("id");
    reveal_strlit("method");
    reveal_strlit("params");
    reveal_strlit("session_id");
    reveal_strlit("text");
    reveal_strlit("final");
    reveal_strlit("agent/output");
    reveal_strlit("$/");
    reveal_strlit("fake-session-1");
    assert("jsonrpc"@.len() == 7 && "id"@.len() == 2);
    assert("method"@.len() == 6 && "params"@.len() == 6);
    assert("method"@[0] == 'm' && "params"@[0] == 'p');
    assert("session_id"@.len() == 10 && "text"@.len() == 4 && "final"@.len() == 5);
    assert("agent/output"@.subrange(0, 2)[0] == 'a' && "$/"@[0] == '$');
    assert(SESSION_ID@.len() == 14);
}

/// The answer to a run that was cancelled is read as such.
proof fn cancelled_reads_back(id: JsonView)
    requires
        !(id is Null),
    ensures
        response_of(cancelled(id)) matches Ok(r) && r.id == Some(id) && r.error is Some
            && r.error->0.code == REQUEST_CANCELLED,
{
    reveal_strlit("jsonrpc");
    reveal_strlit("id");
    reveal_strlit("error");
    reveal_strlit("code");
    reveal_strlit("message");
    assert("jsonrpc"@.len() == 7 && "message"@.len() == 7);
    assert("id"@.len() == 2 && "error"@.len() == 5 && "code"@.len() == 4);
}

/// A scenario that cancels passes with this plugin. The run request is answered with notifications;
/// after the first of them and the delay the cancel request for its session goes out; and the
/// answer that the plugin then gives to the run ends the scenario with a pass.
pub proof fn cancelled_run_passes(
    s: ScenarioView,
    note: Seq<char>,
    noted_at: int,
    cancel_at: int,
    answer: Seq<char>,
    answered_at: int,
    duration_ms: int,
)
    requires
        s.method is Run,
        s.cancel_after_ms is Some,
        noted_at + s.cancel_after_ms->0 <= cancel_at < s.timeout_ms,
        ({
            let run = request_view(RUN_REQUEST_ID as int, run_method(s.method), run_params(s));
            let (state, wrote, _) = plugin_frame(None, run);
            let (_, answers, _) = plugin_frame(state, cancel_view(SESSION_ID@));
            &&& incoming(note) == IncomingView::Frame(wrote.first())
            &&& incoming(answer) == IncomingView::Frame(answers.last())
        }),
    ensures
        ({
            let met = received(fresh_run(s), EventView::Line(note), noted_at);
            let (sent, action) = next_action(met, cancel_at);
            let done = received(sent, EventView::Line(answer), answered_at);
            &&& action == ActionView::Send(cancel_view(SESSION_ID@))
            &&& result_of(done, duration_ms) matches Some(result) && result.status is Pass
        }),
{
    let id = JsonView::Int(RUN_REQUEST_ID as int);
    let run = request_view(RUN_REQUEST_ID as int, run_method(s.method), run_params(s));
    let cancel = cancel_view(SESSION_ID@);
    requests_keep_members(RUN_REQUEST_ID as int, run_method(s.method), run_params(s));
    requests_keep_members(
        CANCEL_REQUEST_ID as int,
        "agent/cancel"@,
        JsonView::object().with("session_id"@, JsonView::Text(SESSION_ID@)),
    );
    cancel_answers_run(None, run, cancel);
    ticks_name_session(0);
    assert(ticks().first() == tick(0));
    cancelled_reads_back(id);
    cancellation_passes(s, note, noted_at, cancel_at, answer, answered_at, duration_ms);
}

/// A request holds its number and its method.
proof fn requests_keep_members(id: int, method: Seq<char>, params: JsonView)
    ensures
        request_view(id, method, params).get("id"@) == Some(JsonView::Int(id)),
        request_view(id, method, params).text_at("method"@) == Some(method),
{
    reveal_strlit("jsonrpc");
    reveal_strlit("id");
    reveal_strlit("method");
    reveal_strlit("params");
    assert("jsonrpc"@.len() == 7 && "id"@.len() == 2);
    assert("method"@.len() == 6 && "params"@.len() == 6);
    assert("method"@[0] == 'm' && "params"@[0] == 'p');
}

// ---------------------------------------------------------------------------
// Laws
// ---------------------------------------------------------------------------

/// The methods that the plugin knows are all different.
proof fn plugin_words_differ()
    ensures
        "initialize"@ != "agent/run"@,
        "initialize"@ != "agent/cancel"@,
        "initialize"@ != "shutdown"@,
        "agent/run"@ != "agent/cancel"@,
        "agent/run"@ != "shutdown"@,
        "agent/cancel"@ != "shutdown"@,
{
    reveal_strlit("initialize");
    reveal_strlit("agent/run");
    reveal_strlit("agent/cancel");
    reveal_strlit("shutdown");
    assert("initialize"@.len() == 10);
    assert("agent/run"@.len() == 9);
    assert("agent/cancel"@.len() == 12);
    assert("shutdown"@.len() == 8);
}

/// The keys that the plugin writes are all different.
proof fn plugin_keys_differ()
    ensures
        "jsonrpc"@ != "id"@,
        "jsonrpc"@ != "result"@,
        "jsonrpc"@ != "error"@,
        "jsonrpc"@ != "code"@,
        "jsonrpc"@ != "message"@,
        "jsonrpc"@ != "protocol_version"@,
        "jsonrpc"@ != "plugin_info"@,
        "jsonrpc"@ != "capabilities"@,
        "jsonrpc"@ != "name"@,
        "jsonrpc"@ != "version"@,
        "jsonrpc"@ != "plugin_kind"@,
        "jsonrpc"@ != "description"@,
        "jsonrpc"@ != "methods"@,
        "jsonrpc"@ != "streaming"@,
        "jsonrpc"@ != "progress"@,
        "jsonrpc"@ != "cancellation"@,
        "jsonrpc"@ != "subject_kinds"@,
        "jsonrpc"@ != "mcp_tools"@,
        "jsonrpc"@ != "session_id"@,
        "jsonrpc"@ != "text"@,
        "jsonrpc"@ != "final"@,
        "id"@ != "result"@,
        "id"@ != "error"@,
        "id"@ != "code"@,
        "id"@ != "message"@,
        "id"@ != "protocol_version"@,
        "id"@ != "plugin_info"@,
        "id"@ != "capabilities"@,
        "id"@ != "name"@,
        "id"@ != "version"@,
        "id"@ != "plugin_kind"@,
        "id"@ != "description"@,
        "id"@ != "methods"@,
        "id"@ != "streaming"@,
        "id"@ != "progress"@,
        "id"@ != "cancellation"@,
        "id"@ != "subject_kinds"@,
        "id"@ != "mcp_tools"@,
        "id"@ != "session_id"@,
        "id"@ != "text"@,
        "id"@ != "final"@,
        "result"@ != "error"@,
        "result"@ != "code"@,
        "result"@ != "message"@,
        "result"@ != "protocol_version"@,
        "result"@ != "plugin_info"@,
        "result"@ != "capabilities"@,
        "result"@ != "name"@,
        "result"@ != "version"@,
        "result"@ != "plugin_kind"@,
        "result"@ != "description"@,
        "result"@ != "methods"@,
        "result"@ != "streaming"@,
        "result"@ != "progress"@,
        "result"@ != "cancellation"@,
        "result"@ != "subject_kinds"@,
        "result"@ != "mcp_tools"@,
        "result"@ != "session_id"@,
        "result"@ != "text"@,
        "result"@ != "final"@,
        "error"@ != "code"@,
        "error"@ != "message"@,
        "error"@ != "protocol_version"@,
        "error"@ != "plugin_info"@,
        "error"@ != "capabilities"@,
        "error"@ != "name"@,
        "error"@ != "version"@,
        "error"@ != "plugin_kind"@,
        "error"@ != "description"@,
        "error"@ != "methods"@,
        "error"@ != "streaming"@,
        "error"@ != "progress"@,
        "error"@ != "cancellation"@,
        "error"@ != "subject_kinds"@,
        "error"@ != "mcp_tools"@,
        "error"@ != "session_id"@,
        "error"@ != "text"@,
        "error"@ != "final"@,
        "code"@ != "message"@,
        "code"@ != "protocol_version"@,
        "code"@ != "plugin_info"@,
        "code"@ != "capabilities"@,
        "code"@ != "name"@,
        "code"@ != "version"@,
        "code"@ != "plugin_kind"@,
        "code"@ != "description"@,
        "code"@ != "methods"@,
        "code"@ != "streaming"@,
        "code"@ != "progress"@,
        "code"@ != "cancellation"@,
        "code"@ != "subject_kinds"@,
        "code"@ != "mcp_tools"@,
        "code"@ != "session_id"@,
        "code"@ != "text"@,
        "code"@ != "final"@,
        "message"@ != "protocol_version"@,
        "message"@ != "plugin_info"@,
        "message"@ != "capabilities"@,
        "message"@ != "name"@,
        "message"@ != "version"@,
        "message"@ != "plugin_kind"@,
        "message"@ != "description"@,
        "message"@ != "methods"@,
        "message"@ != "streaming"@,
        "message"@ != "progress"@,
        "message"@ != "cancellation"@,
        "message"@ != "subject_kinds"@,
        "message"@ != "mcp_tools"@,
        "message"@ != "session_id"@,
        "message"@ != "text"@,
        "message"@ != "final"@,
        "protocol_version"@ != "plugin_info"@,
        "protocol_version"@ != "capabilities"@,
        "protocol_version"@ != "name"@,
        "protocol_version"@ != "version"@,
        "protocol_version"@ != "plugin_kind"@,
        "protocol_version"@ != "description"@,
        "protocol_version"@ != "methods"@,
        "protocol_version"@ != "streaming"@,
        "protocol_version"@ != "progress"@,
        "protocol_version"@ != "cancellation"@,
        "protocol_version"@ != "subject_kinds"@,
        "protocol_version"@ != "mcp_tools"@,
        "protocol_version"@ != "session_id"@,
        "protocol_version"@ != "text"@,
        "protocol_version"@ != "final"@,
        "plugin_info"@ != "capabilities"@,
        "plugin_info"@ != "name"@,
        "plugin_info"@ != "version"@,
        "plugin_info"@ != "plugin_kind"@,
        "plugin_info"@ != "description"@,
        "plugin_info"@ != "methods"@,
        "plugin_info"@ != "streaming"@,
        "plugin_info"@ != "progress"@,
        "plugin_info"@ != "cancellation"@,
        "plugin_info"@ != "subject_kinds"@,
        "plugin_info"@ != "mcp_tools"@,
        "plugin_info"@ != "session_id"@,
        "plugin_info"@ != "text"@,
        "plugin_info"@ != "final"@,
        "capabilities"@ != "name"@,
        "capabilities"@ != "version"@,
        "capabilities"@ != "plugin_kind"@,
        "capabilities"@ != "description"@,
        "capabilities"@ != "methods"@,
        "capabilities"@ != "streaming"@,
        "capabilities"@ != "progress"@,
        "capabilities"@ != "cancellation"@,
        "capabilities"@ != "subject_kinds"@,
        "capabilities"@ != "mcp_tools"@,
        "capabilities"@ != "session_id"@,
        "capabilities"@ != "text"@,
        "capabilities"@ != "final"@,
        "name"@ != "version"@,
        "name"@ != "plugin_kind"@,
        "name"@ != "description"@,
        "name"@ != "methods"@,
        "name"@ != "streaming"@,
        "name"@ != "progress"@,
        "name"@ != "cancellation"@,
        "name"@ != "subject_kinds"@,
        "name"@ != "mcp_tools"@,
        "name"@ != "session_id"@,
        "name"@ != "text"@,
        "name"@ != "final"@,
        "version"@ != "plugin_kind"@,
        "version"@ != "description"@,
        "version"@ != "methods"@,
        "version"@ != "streaming"@,
        "version"@ != "progress"@,
        "version"@ != "cancellation"@,
        "version"@ != "subject_kinds"@,
        "version"@ != "mcp_tools"@,
        "version"@ != "session_id"@,
        "version"@ != "text"@,
        "version"@ != "final"@,
        "plugin_kind"@ != "description"@,
        "plugin_kind"@ != "methods"@,
        "plugin_kind"@ != "streaming"@,
        "plugin_kind"@ != "progress"@,
        "plugin_kind"@ != "cancellation"@,
        "plugin_kind"@ != "subject_kinds"@,
        "plugin_kind"@ != "mcp_tools"@,
        "plugin_kind"@ != "session_id"@,
        "plugin_kind"@ != "text"@,
        "plugin_kind"@ != "final"@,
        "description"@ != "methods"@,
        "description"@ != "streaming"@,
        "description"@ != "progress"@,
        "description"@ != "cancellation"@,
        "description"@ != "subject_kinds"@,
        "description"@ != "mcp_tools"@,
        "description"@ != "session_id"@,
        "description"@ != "text"@,
        "description"@ != "final"@,
        "methods"@ != "streaming"@,
        "methods"@ != "progress"@,
        "methods"@ != "cancellation"@,
        "methods"@ != "subject_kinds"@,
        "methods"@ != "mcp_tools"@,
        "methods"@ != "session_id"@,
        "methods"@ != "text"@,
        "methods"@ != "final"@,
        "streaming"@ != "progress"@,
        "streaming"@ != "cancellation"@,
        "streaming"@ != "subject_kinds"@,
        "streaming"@ != "mcp_tools"@,
        "streaming"@ != "session_id"@,
        "streaming"@ != "text"@,
        "streaming"@ != "final"@,
        "progress"@ != "cancellation"@,
        "progress"@ != "subject_kinds"@,
        "progress"@ != "mcp_tools"@,
        "progress"@ != "session_id"@,
        "progress"@ != "text"@,
        "progress"@ != "final"@,
        "cancellation"@ != "subject_kinds"@,
        "cancellation"@ != "mcp_tools"@,
        "cancellation"@ != "session_id"@,
        "cancellation"@ != "text"@,
        "cancellation"@ != "final"@,
        "subject_kinds"@ != "mcp_tools"@,
        "subject_kinds"@ != "session_id"@,
        "subject_kinds"@ != "text"@,
        "subject_kinds"@ != "final"@,
        "mcp_tools"@ != "session_id"@,
        "mcp_tools"@ != "text"@,
        "mcp_tools"@ != "final"@,
        "session_id"@ != "text"@,
        "session_id"@ != "final"@,
        "text"@ != "final"@,
{
    reveal_strlit("jsonrpc");
    reveal_strlit("id");
    reveal_strlit("result");
    reveal_strlit("error");
    reveal_strlit("code");
    reveal_strlit("message");
    reveal_strlit("protocol_version");
    reveal_strlit("plugin_info");
    reveal_strlit("capabilities");
    reveal_strlit("name");
    reveal_strlit("version");
    reveal_strlit("plugin_kind");
    reveal_strlit("description");
    reveal_strlit("methods");
    reveal_strlit("streaming");
    reveal_strlit("progress");
    reveal_strlit("cancellation");
    reveal_strlit("subject_kinds");
    reveal_strlit("mcp_tools");
    reveal_strlit("session_id");
    reveal_strlit("text");
    reveal_strlit("final");
    assert("jsonrpc"@.len() == 7);
    assert("id"@.len() == 2);
    assert("result"@.len() == 6);
    assert("error"@.len() == 5);
    assert("code"@.len() == 4);
    assert("message"@.len() == 7);
    assert("protocol_version"@.len() == 16);
    assert("plugin_info"@.len() == 11);
    assert("capabilities"@.len() == 12);
    assert("name"@.len() == 4);
    assert("version"@.len() == 7);
    assert("plugin_kind"@.len() == 11);
    assert("description"@.len() == 11);
    assert("methods"@.len() == 7);
    assert("streaming"@.len() == 9);
    assert("progress"@.len() == 8);
    assert("cancellation"@.len() == 12);
    assert("subject_kinds"@.len() == 13);
    assert("mcp_tools"@.len() == 9);
    assert("session_id"@.len() == 10);
    assert("text"@.len() == 4);
    assert("final"@.len() == 5);
    assert("jsonrpc"@[0] != "message"@[0]);
    assert("jsonrpc"@[0] != "version"@[0]);
    assert("jsonrpc"@[0] != "methods"@[0]);
    assert("error"@[0] != "final"@[0]);
    assert("code"@[0] != "name"@[0]);
    assert("code"@[0] != "text"@[0]);
    assert("message"@[0] != "version"@[0]);
    assert("message"@[2] != "methods"@[2]);
    assert("plugin_info"@[7] != "plugin_kind"@[7]);
    assert("plugin_info"@[0] != "description"@[0]);
    assert("capabilities"@[2] != "cancellation"@[2]);
    assert("name"@[0] != "text"@[0]);
    assert("version"@[0] != "methods"@[0]);
    assert("plugin_kind"@[0] != "description"@[0]);
    assert("streaming"@[0] != "mcp_tools"@[0]);
}

/// The plugin introduces itself as a provider that can run, cancel and take part in the harness's
/// cancellation, and its introduction is read as such.
pub proof fn the_plugin_introduces_itself(run: Option<JsonView>, frame: JsonView, id: JsonView)
    requires
        says(frame, "method"@, "initialize"@),
        frame.get("id"@) == Some(id),
    ensures
        ({
            let init = InitializeResultView {
                protocol_version: "1.0.0"@,
                plugin_info: PluginInfoView {
                    name: "fake-cancellable-plugin"@,
                    version: "0.0.0"@,
                    plugin_kind: "provider"@,
                    description: Some("test fixture"@),
                },
                capabilities: PluginCapabilitiesView {
                    methods: seq!["agent/run"@, "agent/cancel"@, CANCELLATION_CAPABILITY@],
                    streaming: true,
                    progress: false,
                    cancellation: true,
                    subject_kinds: Seq::empty(),
                },
            };
            let (after, wrote, goes_on) = plugin_frame(run, frame);
            &&& after == run
            &&& goes_on
            &&& wrote.len() == 1
            &&& wrote[0].get("id"@) == Some(id)
            &&& wrote[0].get("result"@) matches Some(v) && brings(wrote[0], v) && introduces(
                v,
                init,
            )
        }),
{
    plugin_keys_differ();
    plugin_words_differ();
}

/// A run is begun with three outputs, numbered from nothing, none of them the last; nothing answers
/// the run until it is cancelled.
pub proof fn runs_begin_with_output(run: Option<JsonView>, frame: JsonView, i: int)
    requires
        says(frame, "method"@, "agent/run"@),
    ensures
        ({
            let (after, wrote, goes_on) = plugin_frame(run, frame);
            &&& after == frame.get("id"@)
            &&& goes_on
            &&& wrote.len() == 3
            &&& 0 <= i < 3 ==> sends(
                wrote[i],
                NotificationView::Output {
                    session_id: "fake-session-1"@,
                    text: "tick"@ + decimal(i as nat) + " "@,
                    is_final: false,
                },
            )
        }),
{
    plugin_keys_differ();
    plugin_words_differ();
    frame_keys_differ();
}

/// A cancellation is acknowledged, and then the run, if there is one, is answered as cancelled with
/// its own number; a shutdown is acknowledged; both end the plugin. Anything else is passed over.
pub proof fn cancellation_and_shutdown_are_acknowledged(
    run: Option<JsonView>,
    frame: JsonView,
    id: JsonView,
)
    requires
        frame.get("id"@) == Some(id),
    ensures
        says(frame, "method"@, "agent/cancel"@) ==> {
            let (after, wrote, goes_on) = plugin_frame(run, frame);
            &&& after is None
            &&& !goes_on
            &&& wrote.len() == if run is Some {
                2
            } else {
                1int
            }
            &&& brings(wrote[0], JsonView::object()) && wrote[0].get("id"@) == Some(id)
            &&& run matches Some(run_id) ==> refuses(wrote[1], -32002, "cancelled"@)
                && wrote[1].get("id"@) == Some(run_id)
        },
        says(frame, "method"@, "shutdown"@) ==> {
            let (after, wrote, goes_on) = plugin_frame(run, frame);
            &&& !goes_on
            &&& wrote.len() == 1
            &&& brings(wrote[0], JsonView::object()) && wrote[0].get("id"@) == Some(id)
        },
        ({
            &&& !says(frame, "method"@, "initialize"@)
            &&& !says(frame, "method"@, "agent/run"@)
            &&& !says(frame, "method"@, "agent/cancel"@)
            &&& !says(frame, "method"@, "shutdown"@)
        }) ==> plugin_frame(run, frame) == (run, Seq::<JsonView>::empty(), true),
{
    plugin_keys_differ();
    plugin_words_differ();
    reveal_strlit("initialize");
    reveal_strlit("agent/run");
    reveal_strlit("agent/cancel");
    reveal_strlit("shutdown");
    assert("initialize"@.len() > 0 && "agent/run"@.len() > 0);
    assert("agent/cancel"@.len() > 0 && "shutdown"@.len() > 0);
}

/// A line that is no frame is passed over, and one that is a frame is taken as such.
pub proof fn other_lines_are_passed_over(run: Option<JsonView>, line: Seq<char>, frame: JsonView)
    ensures
        incoming(line) == IncomingView::Frame(frame) ==> plugin_line(run, line) == plugin_frame(
            run,
            frame,
        ),
        !(incoming(line) is Frame) ==> plugin_line(run, line) == (
            run,
            Seq::<JsonView>::empty(),
            true,
        ),
{
}

} // verus!
