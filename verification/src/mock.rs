//! The mocks of command-line tools: what each of them writes for a script.

use crate::codec::{json_text, render};
use crate::json::{items_view, Json, JsonView};
use crate::rpc::says;
use crate::suite::concat;
use crate::text::{
    chars_of, decimal, group_texts, lower, same, string_from, texts, to_ascii_lowercase,
    usize_to_string,
};
use crate::views::{group_views, views};
use vstd::prelude::*;

verus! {

broadcast use {group_views, group_texts};

/// A command-line tool that is mocked.
#[derive(Debug, Clone, Copy, PartialEq, Eq, Structural)]
pub enum Tool {
    Claude,
    Codex,
    Gemini,
    Opencode,
}

/// The variable that tells a plugin where the tool is.
pub open spec fn variable(tool: Tool) -> Seq<char> {
    match tool {
        Tool::Claude => "CLAUDE_BIN"@,
        Tool::Codex => "CODEX_BIN"@,
        Tool::Gemini => "GEMINI_BIN"@,
        Tool::Opencode => "OPENCODE_BIN"@,
    }
}

/// The name of a tool: that of its variable, in lower case and without the last four characters.
pub open spec fn tool_name(tool: Tool) -> Seq<char> {
    lower(variable(tool)).take(variable(tool).len() - 4)
}

impl Tool {
    /// The variable that tells a plugin where the tool is.
    pub fn variable(self) -> (r: &'static str)
        ensures
            r@ == variable(self),
            r@.len() >= 4,
    {
        proof {
            reveal_strlit("CLAUDE_BIN");
            reveal_strlit("CODEX_BIN");
            reveal_strlit("GEMINI_BIN");
            reveal_strlit("OPENCODE_BIN");
        }
        match self {
            Tool::Claude => "CLAUDE_BIN",
            Tool::Codex => "CODEX_BIN",
            Tool::Gemini => "GEMINI_BIN",
            Tool::Opencode => "OPENCODE_BIN",
        }
    }

    /// The name of the tool.
    pub fn name(self) -> (r: String)
        ensures
            r@ == tool_name(self),
    {
        let low = to_ascii_lowercase(self.variable());
        let c = chars_of(low.as_str());
        let end: usize = c.len() - 4;
        let r = string_from(&c, 0, end);
        assert(r@ =~= tool_name(self));
        r
    }
}

/// Whether a program of a given name stands in for a tool: it has the name of the tool, or that of
/// its mock.
pub open spec fn stands_in(name: Seq<char>, tool: Tool) -> bool {
    name == tool_name(tool) || name == "mock-"@ + tool_name(tool)
}

/// The tool that a program of a given name stands in for.
pub open spec fn called_tool(name: Seq<char>) -> Option<Tool> {
    if stands_in(name, Tool::Claude) {
        Some(Tool::Claude)
    } else if stands_in(name, Tool::Codex) {
        Some(Tool::Codex)
    } else if stands_in(name, Tool::Gemini) {
        Some(Tool::Gemini)
    } else if stands_in(name, Tool::Opencode) {
        Some(Tool::Opencode)
    } else {
        None
    }
}

fn has_name_of(name: &str, tool: Tool) -> (r: bool)
    ensures
        r == stands_in(name@, tool),
{
    let plain = tool.name();
    same(name, plain.as_str()) || same(name, concat("mock-", plain.as_str()).as_str())
}

/// Tells which tool a program stands in for, by its name.
pub fn tool_called(name: &str) -> (r: Option<Tool>)
    ensures
        r == called_tool(name@),
{
    if has_name_of(name, Tool::Claude) {
        Some(Tool::Claude)
    } else if has_name_of(name, Tool::Codex) {
        Some(Tool::Codex)
    } else if has_name_of(name, Tool::Gemini) {
        Some(Tool::Gemini)
    } else if has_name_of(name, Tool::Opencode) {
        Some(Tool::Opencode)
    } else {
        None
    }
}

/// What a mock plays.
#[derive(Debug, Clone, Copy, PartialEq, Eq, Structural)]
pub enum Script {
    Short,
    Medium,
    Long,
    ToolSingle,
    ToolParallel,
    ErrorRecovery,
    Cancellation,
}

/// The script that is played where none is named.
pub const DEFAULT_SCRIPT: &'static str = "streaming-short";

/// The script with a given name; only `Tool::Opencode` has one to be cancelled. A name that is not
/// known stands for the short script.
pub open spec fn script_named(tool: Tool, name: Seq<char>) -> Script {
    if name == "streaming-medium"@ {
        Script::Medium
    } else if name == "streaming-long"@ {
        Script::Long
    } else if name == "tool-call-single"@ {
        Script::ToolSingle
    } else if name == "tool-call-parallel"@ {
        Script::ToolParallel
    } else if name == "error-recovery"@ {
        Script::ErrorRecovery
    } else if tool == Tool::Opencode && name == "cancellation"@ {
        Script::Cancellation
    } else {
        Script::Short
    }
}

/// Finds the script with a given name.
pub fn find_script(tool: Tool, name: &str) -> (r: Script)
    ensures
        r == script_named(tool, name@),
{
    if same(name, "streaming-medium") {
        Script::Medium
    } else if same(name, "streaming-long") {
        Script::Long
    } else if same(name, "tool-call-single") {
        Script::ToolSingle
    } else if same(name, "tool-call-parallel") {
        Script::ToolParallel
    } else if same(name, "error-recovery") {
        Script::ErrorRecovery
    } else if tool == Tool::Opencode && same(name, "cancellation") {
        Script::Cancellation
    } else {
        Script::Short
    }
}

// ---------------------------------------------------------------------------
// Text
// ---------------------------------------------------------------------------

/// Numbered words, each with a space behind it.
pub open spec fn numbered(word: Seq<char>, count: nat) -> Seq<Seq<char>> {
    Seq::new(count, |i: int| word + decimal(i as nat) + " "@)
}

/// Writes numbered words.
pub fn number_words(word: &str, count: usize) -> (r: Vec<String>)
    ensures
        texts(r@) == numbered(word@, count as nat),
{
    let mut r: Vec<String> = Vec::new();
    let mut i: usize = 0;
    assert(texts(r@) =~= numbered(word@, 0));
    while i < count
        invariant
            i <= count,
            texts(r@) == numbered(word@, i as nat),
        decreases count - i,
    {
        let mut m = word.to_owned();
        m.append(usize_to_string(i).as_str());
        m.append(" ");
        r.push(m);
        assert(texts(r@) =~= numbered(word@, (i + 1) as nat));
        i += 1;
    }
    r
}

/// The pieces of text that a script streams.
pub open spec fn pieces(script: Script) -> Seq<Seq<char>> {
    match script {
        Script::Short => seq!["Hello "@, "world"@, "!"@],
        Script::Medium => numbered("word"@, 40),
        Script::Long => numbered("token"@, 300),
        Script::ToolSingle => seq!["Looking up... "@, "done."@],
        Script::ToolParallel => seq!["Parallel ops: "@, "complete."@],
        Script::ErrorRecovery => seq!["Working... "@, "recovered."@],
        Script::Cancellation => numbered("cancel-token-"@, 120),
    }
}

/// Writes the pieces of text that a script streams.
pub fn script_pieces(script: Script) -> (r: Vec<String>)
    ensures
        texts(r@) == pieces(script),
{
    let mut r: Vec<String> = Vec::new();
    match script {
        Script::Short => {
            r.push("Hello ".to_owned());
            r.push("world".to_owned());
            r.push("!".to_owned());
        },
        Script::Medium => {
            return number_words("word", 40);
        },
        Script::Long => {
            return number_words("token", 300);
        },
        Script::ToolSingle => {
            r.push("Looking up... ".to_owned());
            r.push("done.".to_owned());
        },
        Script::ToolParallel => {
            r.push("Parallel ops: ".to_owned());
            r.push("complete.".to_owned());
        },
        Script::ErrorRecovery => {
            r.push("Working... ".to_owned());
            r.push("recovered.".to_owned());
        },
        Script::Cancellation => {
            return number_words("cancel-token-", 120);
        },
    }
    assert(texts(r@) =~= pieces(script));
    r
}

/// Texts, one behind the other.
pub open spec fn whole(parts: Seq<Seq<char>>) -> Seq<char>
    decreases parts.len(),
{
    if parts.len() == 0 {
        Seq::empty()
    } else {
        whole(parts.drop_last()) + parts.last()
    }
}

// ---------------------------------------------------------------------------
// Lines
// ---------------------------------------------------------------------------

/// What a mock does next.
#[derive(Debug, PartialEq)]
pub enum Output {
    /// Write an event as a line of JSON.
    Event(Json),
    /// Write a line that is no JSON.
    Raw(String),
    /// Wait this many milliseconds.
    Pause(u64),
}

#[verifier::ext_equal]
pub enum OutputView {
    Event(JsonView),
    Raw(Seq<char>),
    Pause(int),
}

impl View for Output {
    type V = OutputView;

    open spec fn view(&self) -> OutputView {
        match self {
            Output::Event(j) => OutputView::Event(j@),
            Output::Raw(s) => OutputView::Raw(s@),
            Output::Pause(ms) => OutputView::Pause(*ms as int),
        }
    }
}

impl Output {
    /// The line to write, where there is one.
    pub fn line(&self) -> (r: Option<String>)
        ensures
            match self@ {
                OutputView::Event(v) => r is Some && r->0@ == json_text(v),
                OutputView::Raw(s) => r is Some && r->0@ == s,
                OutputView::Pause(_) => r is None,
            },
    {
        match self {
            Output::Event(j) => Some(render(j)),
            Output::Raw(s) => Some(s.clone()),
            Output::Pause(_) => None,
        }
    }
}

/// The line that no reader can make sense of.
pub const GARBLED: &'static str = "{not-json-at-all";

/// A list with one value.
pub open spec fn one(v: JsonView) -> JsonView {
    JsonView::List(seq![v])
}

/// A list with two values.
pub open spec fn two(v: JsonView, w: JsonView) -> JsonView {
    JsonView::List(seq![v, w])
}

/// Builds a list with one value.
pub fn list_one(v: Json) -> (r: Json)
    ensures
        r@ == one(v@),
{
    let mut items: Vec<Json> = Vec::new();
    items.push(v);
    assert(items_view(items@) =~= seq![v@]);
    Json::List(items)
}

/// Builds a list with two values.
pub fn list_two(v: Json, w: Json) -> (r: Json)
    ensures
        r@ == two(v@, w@),
{
    let mut items: Vec<Json> = Vec::new();
    items.push(v);
    items.push(w);
    assert(items_view(items@) =~= seq![v@, w@]);
    Json::List(items)
}

/// A string value.
pub open spec fn t(s: Seq<char>) -> JsonView {
    JsonView::Text(s)
}

/// The event of a piece of text.
pub open spec fn text_event(tool: Tool, session: Seq<char>, text: Seq<char>) -> JsonView {
    match tool {
        Tool::Claude => JsonView::object().with("type"@, t("content_block_delta"@)).with(
            "session_id"@,
            t(session),
        ).with("index"@, JsonView::Int(0)).with(
            "delta"@,
            JsonView::object().with("type"@, t("text_delta"@)).with("text"@, t(text)),
        ),
        Tool::Codex => JsonView::object().with("type"@, t("item.completed"@)).with(
            "item"@,
            JsonView::object().with("type"@, t("agent_message"@)).with("text"@, t(text)),
        ),
        Tool::Gemini => JsonView::object().with("type"@, t("partialResult"@)).with(
            "partialResult"@,
            JsonView::object().with("text"@, t(text)),
        ),
        Tool::Opencode => JsonView::object().with("type"@, t("text"@)).with("text"@, t(text)),
    }
}

fn make_text_event(tool: Tool, session: &str, text: &str) -> (r: Json)
    ensures
        r@ == text_event(tool, session@, text@),
{
    match tool {
        Tool::Claude => Json::object().with("type", Json::text("content_block_delta")).with(
            "session_id",
            Json::text(session),
        ).with("index", Json::Unsigned(0)).with(
            "delta",
            Json::object().with("type", Json::text("text_delta")).with("text", Json::text(text)),
        ),
        Tool::Codex => Json::object().with("type", Json::text("item.completed")).with(
            "item",
            Json::object().with("type", Json::text("agent_message")).with("text", Json::text(text)),
        ),
        Tool::Gemini => Json::object().with("type", Json::text("partialResult")).with(
            "partialResult",
            Json::object().with("text", Json::text(text)),
        ),
        Tool::Opencode => Json::object().with("type", Json::text("text")).with(
            "text",
            Json::text(text),
        ),
    }
}

// ---------------------------------------------------------------------------
// Tool calls
// ---------------------------------------------------------------------------

/// The one field of an object.
pub open spec fn field(key: Seq<char>, v: JsonView) -> JsonView {
    JsonView::object().with(key, v)
}

fn make_field(key: &str, v: Json) -> (r: Json)
    ensures
        r@ == field(key@, v@),
{
    Json::object().with(key, v)
}

/// A message with some content, in the stream-json form.
pub open spec fn claude_message(role: Seq<char>, session: Seq<char>, content: JsonView) -> JsonView {
    JsonView::object().with("type"@, t(role)).with("session_id"@, t(session)).with(
        "message"@,
        field("content"@, content),
    )
}

fn make_claude_message(role: &str, session: &str, content: Json) -> (r: Json)
    ensures
        r@ == claude_message(role@, session@, content@),
{
    Json::object().with("type", Json::text(role)).with("session_id", Json::text(session)).with(
        "message",
        make_field("content", content),
    )
}

/// A call of the shell, in the stream-json form.
pub open spec fn claude_use(id: Seq<char>, cmd: Seq<char>) -> JsonView {
    JsonView::object().with("type"@, t("tool_use"@)).with("id"@, t(id)).with(
        "name"@,
        t("shell"@),
    ).with("input"@, field("cmd"@, t(cmd)))
}

fn make_claude_use(id: &str, cmd: &str) -> (r: Json)
    ensures
        r@ == claude_use(id@, cmd@),
{
    Json::object().with("type", Json::text("tool_use")).with("id", Json::text(id)).with(
        "name",
        Json::text("shell"),
    ).with("input", make_field("cmd", Json::text(cmd)))
}

/// The result of a call, in the stream-json form.
pub open spec fn claude_result(id: Seq<char>, content: Seq<char>) -> JsonView {
    JsonView::object().with("type"@, t("tool_result"@)).with("tool_use_id"@, t(id)).with(
        "content"@,
        t(content),
    )
}

fn make_claude_result(id: &str, content: &str) -> (r: Json)
    ensures
        r@ == claude_result(id@, content@),
{
    Json::object().with("type", Json::text("tool_result")).with("tool_use_id", Json::text(id)).with(
        "content",
        Json::text(content),
    )
}

/// A call of the shell, as `Tool::Codex` writes it.
pub open spec fn codex_use(id: Seq<char>, arguments: Seq<char>) -> JsonView {
    JsonView::object().with("type"@, t("item.completed"@)).with(
        "item"@,
        JsonView::object().with("type"@, t("function_call"@)).with("call_id"@, t(id)).with(
            "name"@,
            t("shell"@),
        ).with("arguments"@, t(arguments)),
    )
}

fn make_codex_use(id: &str, arguments: &str) -> (r: Json)
    ensures
        r@ == codex_use(id@, arguments@),
{
    Json::object().with("type", Json::text("item.completed")).with(
        "item",
        Json::object().with("type", Json::text("function_call")).with("call_id", Json::text(id)).with(
            "name",
            Json::text("shell"),
        ).with("arguments", Json::text(arguments)),
    )
}

/// The result of a call, as `Tool::Codex` writes it.
pub open spec fn codex_result(id: Seq<char>, output: Seq<char>) -> JsonView {
    JsonView::object().with("type"@, t("item.completed"@)).with(
        "item"@,
        JsonView::object().with("type"@, t("function_call_output"@)).with("call_id"@, t(id)).with(
            "output"@,
            t(output),
        ),
    )
}

fn make_codex_result(id: &str, output: &str) -> (r: Json)
    ensures
        r@ == codex_result(id@, output@),
{
    Json::object().with("type", Json::text("item.completed")).with(
        "item",
        Json::object().with("type", Json::text("function_call_output")).with(
            "call_id",
            Json::text(id),
        ).with("output", Json::text(output)),
    )
}

/// A call of the shell, as `Tool::Gemini` writes it.
pub open spec fn gemini_use(cmd: Seq<char>) -> JsonView {
    JsonView::object().with("type"@, t("functionCall"@)).with(
        "functionCall"@,
        JsonView::object().with("name"@, t("shell"@)).with("args"@, field("cmd"@, t(cmd))),
    )
}

fn make_gemini_use(cmd: &str) -> (r: Json)
    ensures
        r@ == gemini_use(cmd@),
{
    Json::object().with("type", Json::text("functionCall")).with(
        "functionCall",
        Json::object().with("name", Json::text("shell")).with(
            "args",
            make_field("cmd", Json::text(cmd)),
        ),
    )
}

/// The result of a call, as `Tool::Gemini` writes it.
pub open spec fn gemini_result(stdout: Seq<char>) -> JsonView {
    JsonView::object().with("type"@, t("functionResponse"@)).with(
        "functionResponse"@,
        JsonView::object().with("name"@, t("shell"@)).with(
            "response"@,
            field("stdout"@, t(stdout)),
        ),
    )
}

fn make_gemini_result(stdout: &str) -> (r: Json)
    ensures
        r@ == gemini_result(stdout@),
{
    Json::object().with("type", Json::text("functionResponse")).with(
        "functionResponse",
        Json::object().with("name", Json::text("shell")).with(
            "response",
            make_field("stdout", Json::text(stdout)),
        ),
    )
}

/// A call of the shell, as `Tool::Opencode` writes it.
pub open spec fn opencode_use(id: Seq<char>, cmd: Seq<char>) -> JsonView {
    JsonView::object().with("type"@, t("tool_use"@)).with(
        "tool_use"@,
        JsonView::object().with("id"@, t(id)).with("name"@, t("shell"@)).with(
            "input"@,
            field("cmd"@, t(cmd)),
        ),
    )
}

fn make_opencode_use(id: &str, cmd: &str) -> (r: Json)
    ensures
        r@ == opencode_use(id@, cmd@),
{
    Json::object().with("type", Json::text("tool_use")).with(
        "tool_use",
        Json::object().with("id", Json::text(id)).with("name", Json::text("shell")).with(
            "input",
            make_field("cmd", Json::text(cmd)),
        ),
    )
}

/// The result of a call, as `Tool::Opencode` writes it.
pub open spec fn opencode_result(id: Seq<char>, content: Seq<char>) -> JsonView {
    JsonView::object().with("type"@, t("tool_result"@)).with(
        "tool_result"@,
        JsonView::object().with("tool_use_id"@, t(id)).with("content"@, t(content)),
    )
}

fn make_opencode_result(id: &str, content: &str) -> (r: Json)
    ensures
        r@ == opencode_result(id@, content@),
{
    Json::object().with("type", Json::text("tool_result")).with(
        "tool_result",
        Json::object().with("tool_use_id", Json::text(id)).with("content", Json::text(content)),
    )
}

/// The events of one tool call and its result.
pub open spec fn single_call(tool: Tool, session: Seq<char>) -> Seq<JsonView> {
    match tool {
        Tool::Claude => seq![
            claude_message("assistant"@, session, one(claude_use("toolu_1"@, "ls"@))),
            claude_message("user"@, session, one(claude_result("toolu_1"@, "file_a\nfile_b\n"@))),
        ],
        Tool::Codex => seq![
            codex_use("call_1"@, "{\"cmd\":\"ls\"}"@),
            codex_result("call_1"@, "file_a\nfile_b\n"@),
        ],
        Tool::Gemini => seq![gemini_use("ls"@), gemini_result("file_a\nfile_b\n"@)],
        Tool::Opencode => seq![
            opencode_use("tool_1"@, "ls"@),
            opencode_result("tool_1"@, "file_a\nfile_b\n"@),
        ],
    }
}

/// The events of two tool calls at once and their results.
pub open spec fn double_call(tool: Tool, session: Seq<char>) -> Seq<JsonView> {
    match tool {
        Tool::Claude => seq![
            claude_message(
                "assistant"@,
                session,
                two(claude_use("toolu_a"@, "pwd"@), claude_use("toolu_b"@, "whoami"@)),
            ),
            claude_message(
                "user"@,
                session,
                two(claude_result("toolu_a"@, "/tmp"@), claude_result("toolu_b"@, "user"@)),
            ),
        ],
        Tool::Codex => seq![
            codex_use("call_a"@, "{\"cmd\":\"pwd\"}"@),
            codex_use("call_b"@, "{\"cmd\":\"whoami\"}"@),
            codex_result("call_a"@, "/tmp"@),
            codex_result("call_b"@, "user"@),
        ],
        Tool::Gemini => seq![
            gemini_use("pwd"@),
            gemini_use("whoami"@),
            gemini_result("/tmp"@),
            gemini_result("user"@),
        ],
        Tool::Opencode => seq![
            opencode_use("tool_a"@, "pwd"@),
            opencode_use("tool_b"@, "whoami"@),
            opencode_result("tool_a"@, "/tmp"@),
            opencode_result("tool_b"@, "user"@),
        ],
    }
}

/// Values as events.
pub open spec fn as_events(values: Seq<JsonView>) -> Seq<OutputView> {
    values.map_values(|v: JsonView| OutputView::Event(v))
}

/// What a script writes behind its first piece of text.
pub open spec fn middle(tool: Tool, session: Seq<char>, script: Script) -> Seq<OutputView> {
    match script {
        Script::ToolSingle => as_events(single_call(tool, session)),
        Script::ToolParallel => as_events(double_call(tool, session)),
        Script::ErrorRecovery => seq![OutputView::Raw(GARBLED@)],
        _ => Seq::empty(),
    }
}

fn make_single_call(tool: Tool, session: &str) -> (r: Vec<Output>)
    ensures
        views(r@) == as_events(single_call(tool, session@)),
{
    let mut r: Vec<Output> = Vec::new();
    match tool {
        Tool::Claude => {
            r.push(
                Output::Event(
                    make_claude_message(
                        "assistant",
                        session,
                        list_one(make_claude_use("toolu_1", "ls")),
                    ),
                ),
            );
            r.push(
                Output::Event(
                    make_claude_message(
                        "user",
                        session,
                        list_one(make_claude_result("toolu_1", "file_a\nfile_b\n")),
                    ),
                ),
            );
        },
        Tool::Codex => {
            r.push(Output::Event(make_codex_use("call_1", "{\"cmd\":\"ls\"}")));
            r.push(Output::Event(make_codex_result("call_1", "file_a\nfile_b\n")));
        },
        Tool::Gemini => {
            r.push(Output::Event(make_gemini_use("ls")));
            r.push(Output::Event(make_gemini_result("file_a\nfile_b\n")));
        },
        Tool::Opencode => {
            r.push(Output::Event(make_opencode_use("tool_1", "ls")));
            r.push(Output::Event(make_opencode_result("tool_1", "file_a\nfile_b\n")));
        },
    }
    assert(views(r@) =~= as_events(single_call(tool, session@)));
    r
}

fn make_double_call(tool: Tool, session: &str) -> (r: Vec<Output>)
    ensures
        views(r@) == as_events(double_call(tool, session@)),
{
    let mut r: Vec<Output> = Vec::new();
    match tool {
        Tool::Claude => {
            let uses = list_two(
                make_claude_use("toolu_a", "pwd"),
                make_claude_use("toolu_b", "whoami"),
            );
            let results = list_two(
                make_claude_result("toolu_a", "/tmp"),
                make_claude_result("toolu_b", "user"),
            );
            r.push(Output::Event(make_claude_message("assistant", session, uses)));
            r.push(Output::Event(make_claude_message("user", session, results)));
        },
        Tool::Codex => {
            r.push(Output::Event(make_codex_use("call_a", "{\"cmd\":\"pwd\"}")));
            r.push(Output::Event(make_codex_use("call_b", "{\"cmd\":\"whoami\"}")));
            r.push(Output::Event(make_codex_result("call_a", "/tmp")));
            r.push(Output::Event(make_codex_result("call_b", "user")));
        },
        Tool::Gemini => {
            r.push(Output::Event(make_gemini_use("pwd")));
            r.push(Output::Event(make_gemini_use("whoami")));
            r.push(Output::Event(make_gemini_result("/tmp")));
            r.push(Output::Event(make_gemini_result("user")));
        },
        Tool::Opencode => {
            r.push(Output::Event(make_opencode_use("tool_a", "pwd")));
            r.push(Output::Event(make_opencode_use("tool_b", "whoami")));
            r.push(Output::Event(make_opencode_result("tool_a", "/tmp")));
            r.push(Output::Event(make_opencode_result("tool_b", "user")));
        },
    }
    assert(views(r@) =~= as_events(double_call(tool, session@)));
    r
}

fn make_middle(tool: Tool, session: &str, script: Script) -> (r: Vec<Output>)
    ensures
        views(r@) == middle(tool, session@, script),
{
    match script {
        Script::ToolSingle => make_single_call(tool, session),
        Script::ToolParallel => make_double_call(tool, session),
        Script::ErrorRecovery => {
            let mut r: Vec<Output> = Vec::new();
            r.push(Output::Raw(GARBLED.to_owned()));
            assert(views(r@) =~= middle(tool, session@, script));
            r
        },
        _ => Vec::new(),
    }
}

// ---------------------------------------------------------------------------
// Scripts
// ---------------------------------------------------------------------------

/// What the mock writes for each piece of text: `Tool::Codex` repeats everything before it.
pub open spec fn shown_pieces(tool: Tool, parts: Seq<Seq<char>>) -> Seq<Seq<char>> {
    match tool {
        Tool::Codex => Seq::new(parts.len(), |i: int| whole(parts.take(i + 1))),
        _ => parts,
    }
}

/// The milliseconds between pieces of the script that is to be cancelled.
pub const CANCEL_PAUSE_MS: u64 = 50;

/// The outputs of one piece of text.
pub open spec fn piece_outputs(tool: Tool, session: Seq<char>, script: Script, text: Seq<char>) -> Seq<
    OutputView,
> {
    let event = OutputView::Event(text_event(tool, session, text));
    if script == Script::Cancellation {
        seq![event, OutputView::Pause(CANCEL_PAUSE_MS as int)]
    } else {
        seq![event]
    }
}

/// The outputs of the first pieces of text, with the middle behind the very first.
pub open spec fn body(
    tool: Tool,
    session: Seq<char>,
    script: Script,
    shown: Seq<Seq<char>>,
) -> Seq<OutputView>
    decreases shown.len(),
{
    if shown.len() == 0 {
        Seq::empty()
    } else {
        let before = body(tool, session, script, shown.drop_last());
        let piece = piece_outputs(tool, session, script, shown.last());
        if shown.len() == 1 {
            before + piece + middle(tool, session, script)
        } else {
            before + piece
        }
    }
}

/// The session that a mock names.
pub open spec fn session_of(tool: Tool, name: Seq<char>) -> Seq<char> {
    match tool {
        Tool::Claude => "mock-session-"@ + name,
        Tool::Codex => "mock-codex-"@ + name,
        Tool::Gemini => "mock-gemini-"@ + name,
        Tool::Opencode => Seq::empty(),
    }
}

/// What a mock writes before the text.
pub open spec fn opening(tool: Tool, session: Seq<char>) -> Seq<JsonView> {
    match tool {
        Tool::Claude => seq![
            JsonView::object().with("type"@, t("system"@)).with("subtype"@, t("init"@)).with(
                "session_id"@,
                t(session),
            ),
        ],
        Tool::Codex => seq![
            JsonView::object().with("type"@, t("thread.started"@)).with("thread_id"@, t(session)),
            field("type"@, t("turn.started"@)),
        ],
        Tool::Gemini => seq![field("session_id"@, t(session))],
        Tool::Opencode => seq![],
    }
}

/// What a mock writes after the text, the whole of which is `text`.
pub open spec fn closing(tool: Tool, session: Seq<char>, text: Seq<char>) -> Seq<JsonView> {
    match tool {
        Tool::Claude => seq![
            JsonView::object().with("type"@, t("result"@)).with("subtype"@, t("success"@)).with(
                "session_id"@,
                t(session),
            ).with("result"@, t(text)).with("is_error"@, JsonView::Bool(false)).with(
                "duration_ms"@,
                JsonView::Int(5),
            ).with("num_turns"@, JsonView::Int(1)),
        ],
        Tool::Codex => seq![
            field("type"@, t("turn.completed"@)).with(
                "usage"@,
                field("input_tokens"@, JsonView::Int(4)).with("output_tokens"@, JsonView::Int(8)),
            ),
        ],
        Tool::Gemini => seq![
            field("response"@, t(text)),
            field(
                "stats"@,
                field("promptTokenCount"@, JsonView::Int(4)).with(
                    "candidatesTokenCount"@,
                    JsonView::Int(8),
                ),
            ),
        ],
        Tool::Opencode => seq![field("content"@, t(text))],
    }
}

/// Everything that a mock does for the script with a given name.
pub open spec fn performance(tool: Tool, name: Seq<char>) -> Seq<OutputView> {
    let script = script_named(tool, name);
    let session = session_of(tool, name);
    as_events(opening(tool, session)) + body(
        tool,
        session,
        script,
        shown_pieces(tool, pieces(script)),
    ) + as_events(closing(tool, session, whole(pieces(script))))
}

fn make_session(tool: Tool, name: &str) -> (r: String)
    ensures
        r@ == session_of(tool, name@),
{
    match tool {
        Tool::Claude => concat("mock-session-", name),
        Tool::Codex => concat("mock-codex-", name),
        Tool::Gemini => concat("mock-gemini-", name),
        Tool::Opencode => String::new(),
    }
}

fn make_opening(tool: Tool, session: &str) -> (r: Vec<Output>)
    ensures
        views(r@) == as_events(opening(tool, session@)),
{
    let mut r: Vec<Output> = Vec::new();
    match tool {
        Tool::Claude => {
            r.push(
                Output::Event(
                    Json::object().with("type", Json::text("system")).with(
                        "subtype",
                        Json::text("init"),
                    ).with("session_id", Json::text(session)),
                ),
            );
        },
        Tool::Codex => {
            r.push(
                Output::Event(
                    Json::object().with("type", Json::text("thread.started")).with(
                        "thread_id",
                        Json::text(session),
                    ),
                ),
            );
            r.push(Output::Event(make_field("type", Json::text("turn.started"))));
        },
        Tool::Gemini => {
            r.push(Output::Event(make_field("session_id", Json::text(session))));
        },
        Tool::Opencode => {},
    }
    assert(views(r@) =~= as_events(opening(tool, session@)));
    r
}

fn make_closing(tool: Tool, session: &str, text: &str) -> (r: Vec<Output>)
    ensures
        views(r@) == as_events(closing(tool, session@, text@)),
{
    let mut r: Vec<Output> = Vec::new();
    match tool {
        Tool::Claude => {
            r.push(
                Output::Event(
                    Json::object().with("type", Json::text("result")).with(
                        "subtype",
                        Json::text("success"),
                    ).with("session_id", Json::text(session)).with("result", Json::text(text)).with(
                        "is_error",
                        Json::Bool(false),
                    ).with("duration_ms", Json::Unsigned(5)).with("num_turns", Json::Unsigned(1)),
                ),
            );
        },
        Tool::Codex => {
            r.push(
                Output::Event(
                    make_field("type", Json::text("turn.completed")).with(
                        "usage",
                        make_field("input_tokens", Json::Unsigned(4)).with(
                            "output_tokens",
                            Json::Unsigned(8),
                        ),
                    ),
                ),
            );
        },
        Tool::Gemini => {
            r.push(Output::Event(make_field("response", Json::text(text))));
            r.push(
                Output::Event(
                    make_field(
                        "stats",
                        make_field("promptTokenCount", Json::Unsigned(4)).with(
                            "candidatesTokenCount",
                            Json::Unsigned(8),
                        ),
                    ),
                ),
            );
        },
        Tool::Opencode => {
            r.push(Output::Event(make_field("content", Json::text(text))));
        },
    }
    assert(views(r@) =~= as_events(closing(tool, session@, text@)));
    r
}

/// Moves the outputs of one list behind those of another.
fn extend(list: &mut Vec<Output>, more: Vec<Output>)
    ensures
        views(final(list)@) == views(old(list)@) + views(more@),
{
    let ghost before = views(list@);
    let ghost all = more@;
    let mut rest = more;
    assert(before + views(all.take(0)) =~= before);
    let mut moved: Ghost<int> = Ghost(0);
    while rest.len() > 0
        invariant
            0 <= moved@ <= all.len(),
            rest@ == all.skip(moved@),
            views(list@) == before + views(all.take(moved@)),
        decreases rest@.len(),
    {
        let output = rest.remove(0);
        proof {
            assert(output == all[moved@]);
            assert(all.take(moved@ + 1) =~= all.take(moved@).push(output));
            assert(rest@ =~= all.skip(moved@ + 1));
            assert(before + views(all.take(moved@ + 1)) =~= (before + views(
                all.take(moved@),
            )).push(output@));
            moved@ = moved@ + 1;
        }
        list.push(output);
    }
    assert(all.take(moved@) =~= all);
}

/// Performs the script with a given name.
pub fn perform(tool: Tool, name: &str) -> (r: Vec<Output>)
    ensures
        views(r@) == performance(tool, name@),
{
    let script = find_script(tool, name);
    let session = make_session(tool, name);
    let parts = script_pieces(script);
    let ghost shown = shown_pieces(tool, texts(parts@));
    let mut list = make_opening(tool, session.as_str());
    let ghost opened = views(list@);
    let mut sofar = String::new();
    let mut i: usize = 0;
    assert(texts(parts@).take(0) =~= Seq::<Seq<char>>::empty());
    assert(shown.take(0) =~= Seq::<Seq<char>>::empty());
    assert(opened + body(tool, session@, script, shown.take(0)) =~= opened);
    while i < parts.len()
        invariant
            i <= parts@.len(),
            shown == shown_pieces(tool, texts(parts@)),
            shown.len() == parts@.len(),
            sofar@ == whole(texts(parts@).take(i as int)),
            views(list@) == opened + body(tool, session@, script, shown.take(i as int)),
        decreases parts@.len() - i,
    {
        sofar.append(parts[i].as_str());
        assert(texts(parts@).take(i + 1).drop_last() =~= texts(parts@).take(i as int));
        let text = match tool {
            Tool::Codex => sofar.as_str(),
            _ => parts[i].as_str(),
        };
        let ghost head = shown.take(i + 1);
        assert(head.drop_last() =~= shown.take(i as int));
        assert(head.last() == text@);
        let ghost before = body(tool, session@, script, shown.take(i as int));
        list.push(Output::Event(make_text_event(tool, session.as_str(), text)));
        if script == Script::Cancellation {
            list.push(Output::Pause(CANCEL_PAUSE_MS));
        }
        assert(views(list@) =~= opened + before + piece_outputs(tool, session@, script, text@));
        if i == 0 {
            let extra = make_middle(tool, session.as_str(), script);
            extend(&mut list, extra);
        }
        i += 1;
        assert(views(list@) =~= opened + body(tool, session@, script, head));
    }
    assert(texts(parts@).take(i as int) =~= texts(parts@));
    assert(shown.take(i as int) =~= shown);
    let last = make_closing(tool, session.as_str(), sofar.as_str());
    extend(&mut list, last);
    list
}

// ---------------------------------------------------------------------------
// Laws
// ---------------------------------------------------------------------------

/// The text that a tool streams is the text that it ends with: the pieces together, or, for
/// `Tool::Codex`, which repeats itself, the last of them.
pub proof fn stream_adds_up(tool: Tool, name: Seq<char>)
    ensures
        ({
            let parts = pieces(script_named(tool, name));
            let shown = shown_pieces(tool, parts);
            &&& shown.len() > 0
            &&& tool == Tool::Codex ==> shown.last() == whole(parts)
            &&& tool != Tool::Codex ==> whole(shown) == whole(parts)
        }),
{
    let parts = pieces(script_named(tool, name));
    assert(parts.len() > 0);
    assert(parts.take(parts.len() as int) =~= parts);
}

/// What `Tool::Codex` writes only ever grows: each piece begins with the one before it.
pub proof fn codex_only_grows(parts: Seq<Seq<char>>, i: int)
    requires
        0 <= i,
        i + 1 < parts.len(),
    ensures
        shown_pieces(Tool::Codex, parts)[i].is_prefix_of(shown_pieces(Tool::Codex, parts)[i + 1]),
{
    assert(parts.take(i + 2).drop_last() =~= parts.take(i + 1));
    let a = whole(parts.take(i + 1));
    assert((a + parts[i + 1]).take(a.len() as int) =~= a);
}

/// How many pieces of text each script streams.
pub proof fn piece_counts()
    ensures
        pieces(Script::Short).len() == 3,
        pieces(Script::Medium).len() == 40,
        pieces(Script::Long).len() == 300,
        pieces(Script::Cancellation).len() == 120,
{
}

/// A name that no script has is played like the short script.
pub proof fn unknown_scripts_are_short(tool: Tool, name: Seq<char>)
    requires
        name != "streaming-medium"@,
        name != "streaming-long"@,
        name != "tool-call-single"@,
        name != "tool-call-parallel"@,
        name != "error-recovery"@,
        name != "cancellation"@,
    ensures
        script_named(tool, name) == script_named(tool, DEFAULT_SCRIPT@),
{
    reveal_strlit("streaming-short");
    reveal_strlit("streaming-medium");
    reveal_strlit("streaming-long");
    reveal_strlit("tool-call-single");
    reveal_strlit("tool-call-parallel");
    reveal_strlit("error-recovery");
    reveal_strlit("cancellation");
    assert(DEFAULT_SCRIPT@.len() == 15 && DEFAULT_SCRIPT@[0] == 's');
    assert("streaming-medium"@.len() == 16);
    assert("streaming-long"@.len() == 14);
    assert("tool-call-single"@.len() == 16);
    assert("tool-call-parallel"@.len() == 18);
    assert("error-recovery"@.len() == 14);
    assert("cancellation"@.len() == 12);
}

/// What a reader makes of an output: a piece of text, a call of a tool, the answer to one, or noise.
#[verifier::ext_equal]
pub enum Said {
    Text(Seq<char>),
    Call { id: Seq<char>, command: Seq<char> },
    Answer { id: Seq<char>, output: Seq<char> },
    Noise(Seq<char>),
}

/// The field of a field, null where there is none.
pub open spec fn inside(v: JsonView, outer: Seq<char>) -> JsonView {
    v.get_or_null(outer)
}

/// What a block of a message in the stream-json form says.
pub open spec fn block_says(b: JsonView) -> Seq<Said> {
    if b.text_or_empty("type"@) == "tool_use"@ {
        seq![
            Said::Call {
                id: b.text_or_empty("id"@),
                command: inside(b, "input"@).text_or_empty("cmd"@),
            },
        ]
    } else if b.text_or_empty("type"@) == "tool_result"@ {
        seq![
            Said::Answer {
                id: b.text_or_empty("tool_use_id"@),
                output: b.text_or_empty("content"@),
            },
        ]
    } else {
        Seq::empty()
    }
}

/// What the blocks of a message say, one after another.
pub open spec fn blocks_say(blocks: Seq<JsonView>) -> Seq<Said>
    decreases blocks.len(),
{
    if blocks.len() == 0 {
        Seq::empty()
    } else {
        blocks_say(blocks.drop_last()) + block_says(blocks.last())
    }
}

/// What an event says to a reader of the tool's stream.
pub open spec fn event_says(tool: Tool, v: JsonView) -> Seq<Said> {
    let kind = v.text_or_empty("type"@);
    match tool {
        Tool::Claude => if kind == "content_block_delta"@ {
            seq![Said::Text(inside(v, "delta"@).text_or_empty("text"@))]
        } else if kind == "assistant"@ || kind == "user"@ {
            match inside(inside(v, "message"@), "content"@) {
                JsonView::List(blocks) => blocks_say(blocks),
                _ => Seq::empty(),
            }
        } else {
            Seq::empty()
        },
        Tool::Codex => {
            let item = inside(v, "item"@);
            let what = item.text_or_empty("type"@);
            if kind != "item.completed"@ {
                Seq::empty()
            } else if what == "agent_message"@ {
                seq![Said::Text(item.text_or_empty("text"@))]
            } else if what == "function_call"@ {
                seq![
                    Said::Call {
                        id: item.text_or_empty("call_id"@),
                        command: item.text_or_empty("arguments"@),
                    },
                ]
            } else if what == "function_call_output"@ {
                seq![
                    Said::Answer {
                        id: item.text_or_empty("call_id"@),
                        output: item.text_or_empty("output"@),
                    },
                ]
            } else {
                Seq::empty()
            }
        },
        Tool::Gemini => if kind == "partialResult"@ {
            seq![Said::Text(inside(v, "partialResult"@).text_or_empty("text"@))]
        } else if kind == "functionCall"@ {
            seq![
                Said::Call {
                    id: Seq::empty(),
                    command: inside(inside(v, "functionCall"@), "args"@).text_or_empty("cmd"@),
                },
            ]
        } else if kind == "functionResponse"@ {
            seq![
                Said::Answer {
                    id: Seq::empty(),
                    output: inside(inside(v, "functionResponse"@), "response"@).text_or_empty(
                        "stdout"@,
                    ),
                },
            ]
        } else {
            Seq::empty()
        },
        Tool::Opencode => if kind == "text"@ {
            seq![Said::Text(v.text_or_empty("text"@))]
        } else if kind == "tool_use"@ {
            let call = inside(v, "tool_use"@);
            seq![
                Said::Call {
                    id: call.text_or_empty("id"@),
                    command: inside(call, "input"@).text_or_empty("cmd"@),
                },
            ]
        } else if kind == "tool_result"@ {
            let answer = inside(v, "tool_result"@);
            seq![
                Said::Answer {
                    id: answer.text_or_empty("tool_use_id"@),
                    output: answer.text_or_empty("content"@),
                },
            ]
        } else {
            Seq::empty()
        },
    }
}

/// What an output says.
pub open spec fn output_says(tool: Tool, o: OutputView) -> Seq<Said> {
    match o {
        OutputView::Event(v) => event_says(tool, v),
        OutputView::Raw(s) => seq![Said::Noise(s)],
        OutputView::Pause(_) => Seq::empty(),
    }
}

/// What outputs say, one after another.
pub open spec fn heard(tool: Tool, outputs: Seq<OutputView>) -> Seq<Said>
    decreases outputs.len(),
{
    if outputs.len() == 0 {
        Seq::empty()
    } else {
        heard(tool, outputs.drop_last()) + output_says(tool, outputs.last())
    }
}

proof fn heard_both(tool: Tool, a: Seq<OutputView>, b: Seq<OutputView>)
    ensures
        heard(tool, a + b) == heard(tool, a) + heard(tool, b),
    decreases b.len(),
{
    if b.len() == 0 {
        assert(a + b =~= a);
    } else {
        heard_both(tool, a, b.drop_last());
        assert((a + b).drop_last() =~= a + b.drop_last());
    }
}

/// Texts as they are heard.
pub open spec fn as_texts(parts: Seq<Seq<char>>) -> Seq<Said> {
    parts.map_values(|p: Seq<char>| Said::Text(p))
}

/// The words of the stream are all different.
proof fn stream_words_differ()
    ensures
        "type"@ != "session_id"@,
        "type"@ != "index"@,
        "type"@ != "delta"@,
        "type"@ != "text"@,
        "type"@ != "message"@,
        "type"@ != "content"@,
        "type"@ != "id"@,
        "type"@ != "name"@,
        "type"@ != "input"@,
        "type"@ != "cmd"@,
        "type"@ != "tool_use_id"@,
        "type"@ != "subtype"@,
        "type"@ != "result"@,
        "type"@ != "content_block_delta"@,
        "type"@ != "text_delta"@,
        "type"@ != "assistant"@,
        "type"@ != "user"@,
        "type"@ != "tool_use"@,
        "type"@ != "tool_result"@,
        "type"@ != "system"@,
        "session_id"@ != "index"@,
        "session_id"@ != "delta"@,
        "session_id"@ != "text"@,
        "session_id"@ != "message"@,
        "session_id"@ != "content"@,
        "session_id"@ != "id"@,
        "session_id"@ != "name"@,
        "session_id"@ != "input"@,
        "session_id"@ != "cmd"@,
        "session_id"@ != "tool_use_id"@,
        "session_id"@ != "subtype"@,
        "session_id"@ != "result"@,
        "session_id"@ != "content_block_delta"@,
        "session_id"@ != "text_delta"@,
        "session_id"@ != "assistant"@,
        "session_id"@ != "user"@,
        "session_id"@ != "tool_use"@,
        "session_id"@ != "tool_result"@,
        "session_id"@ != "system"@,
        "index"@ != "delta"@,
        "index"@ != "text"@,
        "index"@ != "message"@,
        "index"@ != "content"@,
        "index"@ != "id"@,
        "index"@ != "name"@,
        "index"@ != "input"@,
        "index"@ != "cmd"@,
        "index"@ != "tool_use_id"@,
        "index"@ != "subtype"@,
        "index"@ != "result"@,
        "index"@ != "content_block_delta"@,
        "index"@ != "text_delta"@,
        "index"@ != "assistant"@,
        "index"@ != "user"@,
        "index"@ != "tool_use"@,
        "index"@ != "tool_result"@,
        "index"@ != "system"@,
        "delta"@ != "text"@,
        "delta"@ != "message"@,
        "delta"@ != "content"@,
        "delta"@ != "id"@,
        "delta"@ != "name"@,
        "delta"@ != "input"@,
        "delta"@ != "cmd"@,
        "delta"@ != "tool_use_id"@,
        "delta"@ != "subtype"@,
        "delta"@ != "result"@,
        "delta"@ != "content_block_delta"@,
        "delta"@ != "text_delta"@,
        "delta"@ != "assistant"@,
        "delta"@ != "user"@,
        "delta"@ != "tool_use"@,
        "delta"@ != "tool_result"@,
        "delta"@ != "system"@,
        "text"@ != "message"@,
        "text"@ != "content"@,
        "text"@ != "id"@,
        "text"@ != "name"@,
        "text"@ != "input"@,
        "text"@ != "cmd"@,
        "text"@ != "tool_use_id"@,
        "text"@ != "subtype"@,
        "text"@ != "result"@,
        "text"@ != "content_block_delta"@,
        "text"@ != "text_delta"@,
        "text"@ != "assistant"@,
        "text"@ != "user"@,
        "text"@ != "tool_use"@,
        "text"@ != "tool_result"@,
        "text"@ != "system"@,
        "message"@ != "content"@,
        "message"@ != "id"@,
        "message"@ != "name"@,
        "message"@ != "input"@,
        "message"@ != "cmd"@,
        "message"@ != "tool_use_id"@,
        "message"@ != "subtype"@,
        "message"@ != "result"@,
        "message"@ != "content_block_delta"@,
        "message"@ != "text_delta"@,
        "message"@ != "assistant"@,
        "message"@ != "user"@,
        "message"@ != "tool_use"@,
        "message"@ != "tool_result"@,
        "message"@ != "system"@,
        "content"@ != "id"@,
        "content"@ != "name"@,
        "content"@ != "input"@,
        "content"@ != "cmd"@,
        "content"@ != "tool_use_id"@,
        "content"@ != "subtype"@,
        "content"@ != "result"@,
        "content"@ != "content_block_delta"@,
        "content"@ != "text_delta"@,
        "content"@ != "assistant"@,
        "content"@ != "user"@,
        "content"@ != "tool_use"@,
        "content"@ != "tool_result"@,
        "content"@ != "system"@,
        "id"@ != "name"@,
        "id"@ != "input"@,
        "id"@ != "cmd"@,
        "id"@ != "tool_use_id"@,
        "id"@ != "subtype"@,
        "id"@ != "result"@,
        "id"@ != "content_block_delta"@,
        "id"@ != "text_delta"@,
        "id"@ != "assistant"@,
        "id"@ != "user"@,
        "id"@ != "tool_use"@,
        "id"@ != "tool_result"@,
        "id"@ != "system"@,
        "name"@ != "input"@,
        "name"@ != "cmd"@,
        "name"@ != "tool_use_id"@,
        "name"@ != "subtype"@,
        "name"@ != "result"@,
        "name"@ != "content_block_delta"@,
        "name"@ != "text_delta"@,
        "name"@ != "assistant"@,
        "name"@ != "user"@,
        "name"@ != "tool_use"@,
        "name"@ != "tool_result"@,
        "name"@ != "system"@,
        "input"@ != "cmd"@,
        "input"@ != "tool_use_id"@,
        "input"@ != "subtype"@,
        "input"@ != "result"@,
        "input"@ != "content_block_delta"@,
        "input"@ != "text_delta"@,
        "input"@ != "assistant"@,
        "input"@ != "user"@,
        "input"@ != "tool_use"@,
        "input"@ != "tool_result"@,
        "input"@ != "system"@,
        "cmd"@ != "tool_use_id"@,
        "cmd"@ != "subtype"@,
        "cmd"@ != "result"@,
        "cmd"@ != "content_block_delta"@,
        "cmd"@ != "text_delta"@,
        "cmd"@ != "assistant"@,
        "cmd"@ != "user"@,
        "cmd"@ != "tool_use"@,
        "cmd"@ != "tool_result"@,
        "cmd"@ != "system"@,
        "tool_use_id"@ != "subtype"@,
        "tool_use_id"@ != "result"@,
        "tool_use_id"@ != "content_block_delta"@,
        "tool_use_id"@ != "text_delta"@,
        "tool_use_id"@ != "assistant"@,
        "tool_use_id"@ != "user"@,
        "tool_use_id"@ != "tool_use"@,
        "tool_use_id"@ != "tool_result"@,
        "tool_use_id"@ != "system"@,
        "subtype"@ != "result"@,
        "subtype"@ != "content_block_delta"@,
        "subtype"@ != "text_delta"@,
        "subtype"@ != "assistant"@,
        "subtype"@ != "user"@,
        "subtype"@ != "tool_use"@,
        "subtype"@ != "tool_result"@,
        "subtype"@ != "system"@,
        "result"@ != "content_block_delta"@,
        "result"@ != "text_delta"@,
        "result"@ != "assistant"@,
        "result"@ != "user"@,
        "result"@ != "tool_use"@,
        "result"@ != "tool_result"@,
        "result"@ != "system"@,
        "content_block_delta"@ != "text_delta"@,
        "content_block_delta"@ != "assistant"@,
        "content_block_delta"@ != "user"@,
        "content_block_delta"@ != "tool_use"@,
        "content_block_delta"@ != "tool_result"@,
        "content_block_delta"@ != "system"@,
        "text_delta"@ != "assistant"@,
        "text_delta"@ != "user"@,
        "text_delta"@ != "tool_use"@,
        "text_delta"@ != "tool_result"@,
        "text_delta"@ != "system"@,
        "assistant"@ != "user"@,
        "assistant"@ != "tool_use"@,
        "assistant"@ != "tool_result"@,
        "assistant"@ != "system"@,
        "user"@ != "tool_use"@,
        "user"@ != "tool_result"@,
        "user"@ != "system"@,
        "tool_use"@ != "tool_result"@,
        "tool_use"@ != "system"@,
        "tool_result"@ != "system"@,
{
    reveal_strlit("type");
    reveal_strlit("session_id");
    reveal_strlit("index");
    reveal_strlit("delta");
    reveal_strlit("text");
    reveal_strlit("message");
    reveal_strlit("content");
    reveal_strlit("id");
    reveal_strlit("name");
    reveal_strlit("input");
    reveal_strlit("cmd");
    reveal_strlit("tool_use_id");
    reveal_strlit("subtype");
    reveal_strlit("result");
    reveal_strlit("content_block_delta");
    reveal_strlit("text_delta");
    reveal_strlit("assistant");
    reveal_strlit("user");
    reveal_strlit("tool_use");
    reveal_strlit("tool_result");
    reveal_strlit("system");
    assert("type"@.len() == 4);
    assert("session_id"@.len() == 10);
    assert("index"@.len() == 5);
    assert("delta"@.len() == 5);
    assert("text"@.len() == 4);
    assert("message"@.len() == 7);
    assert("content"@.len() == 7);
    assert("id"@.len() == 2);
    assert("name"@.len() == 4);
    assert("input"@.len() == 5);
    assert("cmd"@.len() == 3);
    assert("tool_use_id"@.len() == 11);
    assert("subtype"@.len() == 7);
    assert("result"@.len() == 6);
    assert("content_block_delta"@.len() == 19);
    assert("text_delta"@.len() == 10);
    assert("assistant"@.len() == 9);
    assert("user"@.len() == 4);
    assert("tool_use"@.len() == 8);
    assert("tool_result"@.len() == 11);
    assert("system"@.len() == 6);
    assert("type"@[1] != "text"@[1]);
    assert("type"@[0] != "name"@[0]);
    assert("type"@[0] != "user"@[0]);
    assert("session_id"@[0] != "text_delta"@[0]);
    assert("index"@[0] != "delta"@[0]);
    assert("index"@[2] != "input"@[2]);
    assert("delta"@[0] != "input"@[0]);
    assert("text"@[0] != "name"@[0]);
    assert("text"@[0] != "user"@[0]);
    assert("message"@[0] != "content"@[0]);
    assert("message"@[0] != "subtype"@[0]);
    assert("content"@[0] != "subtype"@[0]);
    assert("name"@[0] != "user"@[0]);
    assert("tool_use_id"@[5] != "tool_result"@[5]);
    assert("result"@[0] != "system"@[0]);
}

/// The words of the stream are all different.
proof fn codex_words_differ()
    ensures
        "type"@ != "item"@,
        "type"@ != "text"@,
        "type"@ != "call_id"@,
        "type"@ != "name"@,
        "type"@ != "arguments"@,
        "type"@ != "output"@,
        "type"@ != "thread_id"@,
        "type"@ != "usage"@,
        "type"@ != "item.completed"@,
        "type"@ != "agent_message"@,
        "type"@ != "function_call"@,
        "type"@ != "function_call_output"@,
        "type"@ != "thread.started"@,
        "type"@ != "turn.started"@,
        "type"@ != "turn.completed"@,
        "item"@ != "text"@,
        "item"@ != "call_id"@,
        "item"@ != "name"@,
        "item"@ != "arguments"@,
        "item"@ != "output"@,
        "item"@ != "thread_id"@,
        "item"@ != "usage"@,
        "item"@ != "item.completed"@,
        "item"@ != "agent_message"@,
        "item"@ != "function_call"@,
        "item"@ != "function_call_output"@,
        "item"@ != "thread.started"@,
        "item"@ != "turn.started"@,
        "item"@ != "turn.completed"@,
        "text"@ != "call_id"@,
        "text"@ != "name"@,
        "text"@ != "arguments"@,
        "text"@ != "output"@,
        "text"@ != "thread_id"@,
        "text"@ != "usage"@,
        "text"@ != "item.completed"@,
        "text"@ != "agent_message"@,
        "text"@ != "function_call"@,
        "text"@ != "function_call_output"@,
        "text"@ != "thread.started"@,
        "text"@ != "turn.started"@,
        "text"@ != "turn.completed"@,
        "call_id"@ != "name"@,
        "call_id"@ != "arguments"@,
        "call_id"@ != "output"@,
        "call_id"@ != "thread_id"@,
        "call_id"@ != "usage"@,
        "call_id"@ != "item.completed"@,
        "call_id"@ != "agent_message"@,
        "call_id"@ != "function_call"@,
        "call_id"@ != "function_call_output"@,
        "call_id"@ != "thread.started"@,
        "call_id"@ != "turn.started"@,
        "call_id"@ != "turn.completed"@,
        "name"@ != "arguments"@,
        "name"@ != "output"@,
        "name"@ != "thread_id"@,
        "name"@ != "usage"@,
        "name"@ != "item.completed"@,
        "name"@ != "agent_message"@,
        "name"@ != "function_call"@,
        "name"@ != "function_call_output"@,
        "name"@ != "thread.started"@,
        "name"@ != "turn.started"@,
        "name"@ != "turn.completed"@,
        "arguments"@ != "output"@,
        "arguments"@ != "thread_id"@,
        "arguments"@ != "usage"@,
        "arguments"@ != "item.completed"@,
        "arguments"@ != "agent_message"@,
        "arguments"@ != "function_call"@,
        "arguments"@ != "function_call_output"@,
        "arguments"@ != "thread.started"@,
        "arguments"@ != "turn.started"@,
        "arguments"@ != "turn.completed"@,
        "output"@ != "thread_id"@,
        "output"@ != "usage"@,
        "output"@ != "item.completed"@,
        "output"@ != "agent_message"@,
        "output"@ != "function_call"@,
        "output"@ != "function_call_output"@,
        "output"@ != "thread.started"@,
        "output"@ != "turn.started"@,
        "output"@ != "turn.completed"@,
        "thread_id"@ != "usage"@,
        "thread_id"@ != "item.completed"@,
        "thread_id"@ != "agent_message"@,
        "thread_id"@ != "function_call"@,
        "thread_id"@ != "function_call_output"@,
        "thread_id"@ != "thread.started"@,
        "thread_id"@ != "turn.started"@,
        "thread_id"@ != "turn.completed"@,
        "usage"@ != "item.completed"@,
        "usage"@ != "agent_message"@,
        "usage"@ != "function_call"@,
        "usage"@ != "function_call_output"@,
        "usage"@ != "thread.started"@,
        "usage"@ != "turn.started"@,
        "usage"@ != "turn.completed"@,
        "item.completed"@ != "agent_message"@,
        "item.completed"@ != "function_call"@,
        "item.completed"@ != "function_call_output"@,
        "item.completed"@ != "thread.started"@,
        "item.completed"@ != "turn.started"@,
        "item.completed"@ != "turn.completed"@,
        "agent_message"@ != "function_call"@,
        "agent_message"@ != "function_call_output"@,
        "agent_message"@ != "thread.started"@,
        "agent_message"@ != "turn.started"@,
        "agent_message"@ != "turn.completed"@,
        "function_call"@ != "function_call_output"@,
        "function_call"@ != "thread.started"@,
        "function_call"@ != "turn.started"@,
        "function_call"@ != "turn.completed"@,
        "function_call_output"@ != "thread.started"@,
        "function_call_output"@ != "turn.started"@,
        "function_call_output"@ != "turn.completed"@,
        "thread.started"@ != "turn.started"@,
        "thread.started"@ != "turn.completed"@,
        "turn.started"@ != "turn.completed"@,
{
    reveal_strlit("type");
    reveal_strlit("item");
    reveal_strlit("text");
    reveal_strlit("call_id");
    reveal_strlit("name");
    reveal_strlit("arguments");
    reveal_strlit("output");
    reveal_strlit("thread_id");
    reveal_strlit("usage");
    reveal_strlit("item.completed");
    reveal_strlit("agent_message");
    reveal_strlit("function_call");
    reveal_strlit("function_call_output");
    reveal_strlit("thread.started");
    reveal_strlit("turn.started");
    reveal_strlit("turn.completed");
    assert("type"@.len() == 4);
    assert("item"@.len() == 4);
    assert("text"@.len() == 4);
    assert("call_id"@.len() == 7);
    assert("name"@.len() == 4);
    assert("arguments"@.len() == 9);
    assert("output"@.len() == 6);
    assert("thread_id"@.len() == 9);
    assert("usage"@.len() == 5);
    assert("item.completed"@.len() == 14);
    assert("agent_message"@.len() == 13);
    assert("function_call"@.len() == 13);
    assert("function_call_output"@.len() == 20);
    assert("thread.started"@.len() == 14);
    assert("turn.started"@.len() == 12);
    assert("turn.completed"@.len() == 14);
    assert("type"@[0] != "item"@[0]);
    assert("type"@[1] != "text"@[1]);
    assert("type"@[0] != "name"@[0]);
    assert("item"@[0] != "text"@[0]);
    assert("item"@[0] != "name"@[0]);
    assert("text"@[0] != "name"@[0]);
    assert("arguments"@[0] != "thread_id"@[0]);
    assert("item.completed"@[0] != "thread.started"@[0]);
    assert("item.completed"@[0] != "turn.completed"@[0]);
    assert("agent_message"@[0] != "function_call"@[0]);
    assert("thread.started"@[1] != "turn.completed"@[1]);
}

/// The words of the stream are all different.
proof fn gemini_words_differ()
    ensures
        "type"@ != "text"@,
        "type"@ != "name"@,
        "type"@ != "args"@,
        "type"@ != "cmd"@,
        "type"@ != "response"@,
        "type"@ != "stdout"@,
        "type"@ != "session_id"@,
        "type"@ != "stats"@,
        "type"@ != "partialResult"@,
        "type"@ != "functionCall"@,
        "type"@ != "functionResponse"@,
        "text"@ != "name"@,
        "text"@ != "args"@,
        "text"@ != "cmd"@,
        "text"@ != "response"@,
        "text"@ != "stdout"@,
        "text"@ != "session_id"@,
        "text"@ != "stats"@,
        "text"@ != "partialResult"@,
        "text"@ != "functionCall"@,
        "text"@ != "functionResponse"@,
        "name"@ != "args"@,
        "name"@ != "cmd"@,
        "name"@ != "response"@,
        "name"@ != "stdout"@,
        "name"@ != "session_id"@,
        "name"@ != "stats"@,
        "name"@ != "partialResult"@,
        "name"@ != "functionCall"@,
        "name"@ != "functionResponse"@,
        "args"@ != "cmd"@,
        "args"@ != "response"@,
        "args"@ != "stdout"@,
        "args"@ != "session_id"@,
        "args"@ != "stats"@,
        "args"@ != "partialResult"@,
        "args"@ != "functionCall"@,
        "args"@ != "functionResponse"@,
        "cmd"@ != "response"@,
        "cmd"@ != "stdout"@,
        "cmd"@ != "session_id"@,
        "cmd"@ != "stats"@,
        "cmd"@ != "partialResult"@,
        "cmd"@ != "functionCall"@,
        "cmd"@ != "functionResponse"@,
        "response"@ != "stdout"@,
        "response"@ != "session_id"@,
        "response"@ != "stats"@,
        "response"@ != "partialResult"@,
        "response"@ != "functionCall"@,
        "response"@ != "functionResponse"@,
        "stdout"@ != "session_id"@,
        "stdout"@ != "stats"@,
        "stdout"@ != "partialResult"@,
        "stdout"@ != "functionCall"@,
        "stdout"@ != "functionResponse"@,
        "session_id"@ != "stats"@,
        "session_id"@ != "partialResult"@,
        "session_id"@ != "functionCall"@,
        "session_id"@ != "functionResponse"@,
        "stats"@ != "partialResult"@,
        "stats"@ != "functionCall"@,
        "stats"@ != "functionResponse"@,
        "partialResult"@ != "functionCall"@,
        "partialResult"@ != "functionResponse"@,
        "functionCall"@ != "functionResponse"@,
{
    reveal_strlit("type");
    reveal_strlit("text");
    reveal_strlit("name");
    reveal_strlit("args");
    reveal_strlit("cmd");
    reveal_strlit("response");
    reveal_strlit("stdout");
    reveal_strlit("session_id");
    reveal_strlit("stats");
    reveal_strlit("partialResult");
    reveal_strlit("functionCall");
    reveal_strlit("functionResponse");
    assert("type"@.len() == 4);
    assert("text"@.len() == 4);
    assert("name"@.len() == 4);
    assert("args"@.len() == 4);
    assert("cmd"@.len() == 3);
    assert("response"@.len() == 8);
    assert("stdout"@.len() == 6);
    assert("session_id"@.len() == 10);
    assert("stats"@.len() == 5);
    assert("partialResult"@.len() == 13);
    assert("functionCall"@.len() == 12);
    assert("functionResponse"@.len() == 16);
    assert("type"@[1] != "text"@[1]);
    assert("type"@[0] != "name"@[0]);
    assert("type"@[0] != "args"@[0]);
    assert("text"@[0] != "name"@[0]);
    assert("text"@[0] != "args"@[0]);
    assert("name"@[0] != "args"@[0]);
}

/// The words of the stream are all different.
proof fn opencode_words_differ()
    ensures
        "type"@ != "text"@,
        "type"@ != "id"@,
        "type"@ != "name"@,
        "type"@ != "input"@,
        "type"@ != "cmd"@,
        "type"@ != "tool_use_id"@,
        "type"@ != "content"@,
        "type"@ != "tool_use"@,
        "type"@ != "tool_result"@,
        "text"@ != "id"@,
        "text"@ != "name"@,
        "text"@ != "input"@,
        "text"@ != "cmd"@,
        "text"@ != "tool_use_id"@,
        "text"@ != "content"@,
        "text"@ != "tool_use"@,
        "text"@ != "tool_result"@,
        "id"@ != "name"@,
        "id"@ != "input"@,
        "id"@ != "cmd"@,
        "id"@ != "tool_use_id"@,
        "id"@ != "content"@,
        "id"@ != "tool_use"@,
        "id"@ != "tool_result"@,
        "name"@ != "input"@,
        "name"@ != "cmd"@,
        "name"@ != "tool_use_id"@,
        "name"@ != "content"@,
        "name"@ != "tool_use"@,
        "name"@ != "tool_result"@,
        "input"@ != "cmd"@,
        "input"@ != "tool_use_id"@,
        "input"@ != "content"@,
        "input"@ != "tool_use"@,
        "input"@ != "tool_result"@,
        "cmd"@ != "tool_use_id"@,
        "cmd"@ != "content"@,
        "cmd"@ != "tool_use"@,
        "cmd"@ != "tool_result"@,
        "tool_use_id"@ != "content"@,
        "tool_use_id"@ != "tool_use"@,
        "tool_use_id"@ != "tool_result"@,
        "content"@ != "tool_use"@,
        "content"@ != "tool_result"@,
        "tool_use"@ != "tool_result"@,
{
    reveal_strlit("type");
    reveal_strlit("text");
    reveal_strlit("id");
    reveal_strlit("name");
    reveal_strlit("input");
    reveal_strlit("cmd");
    reveal_strlit("tool_use_id");
    reveal_strlit("content");
    reveal_strlit("tool_use");
    reveal_strlit("tool_result");
    assert("type"@.len() == 4);
    assert("text"@.len() == 4);
    assert("id"@.len() == 2);
    assert("name"@.len() == 4);
    assert("input"@.len() == 5);
    assert("cmd"@.len() == 3);
    assert("tool_use_id"@.len() == 11);
    assert("content"@.len() == 7);
    assert("tool_use"@.len() == 8);
    assert("tool_result"@.len() == 11);
    assert("type"@[1] != "text"@[1]);
    assert("type"@[0] != "name"@[0]);
    assert("text"@[0] != "name"@[0]);
    assert("tool_use_id"@[5] != "tool_result"@[5]);
}


proof fn text_events_are_heard(tool: Tool, session: Seq<char>, text: Seq<char>)
    ensures
        event_says(tool, text_event(tool, session, text)) == seq![Said::Text(text)],
{
    match tool {
        Tool::Claude => {
            stream_words_differ();
        },
        Tool::Codex => {
            codex_words_differ();
        },
        Tool::Gemini => {
            gemini_words_differ();
        },
        Tool::Opencode => {
            opencode_words_differ();
        },
    }
}

proof fn claude_blocks_are_heard(id: Seq<char>, cmd: Seq<char>, content: Seq<char>)
    ensures
        block_says(claude_use(id, cmd)) == seq![Said::Call { id, command: cmd }],
        block_says(claude_result(id, content)) == seq![Said::Answer { id, output: content }],
{
    stream_words_differ();
}

proof fn one_block(b: JsonView)
    ensures
        blocks_say(seq![b]) == block_says(b),
{
    assert(seq![b].drop_last() =~= Seq::<JsonView>::empty());
    assert(blocks_say(Seq::<JsonView>::empty()) =~= Seq::empty());
    assert(Seq::<Said>::empty() + block_says(b) =~= block_says(b));
}

proof fn two_blocks(b: JsonView, c: JsonView)
    ensures
        blocks_say(seq![b, c]) == block_says(b) + block_says(c),
{
    assert(seq![b, c].drop_last() =~= seq![b]);
    one_block(b);
}

proof fn claude_messages_are_heard(role: Seq<char>, session: Seq<char>, blocks: Seq<JsonView>)
    requires
        role == "assistant"@ || role == "user"@,
    ensures
        event_says(Tool::Claude, claude_message(role, session, JsonView::List(blocks)))
            == blocks_say(blocks),
{
    stream_words_differ();
}

proof fn codex_items_are_heard(id: Seq<char>, text: Seq<char>)
    ensures
        event_says(Tool::Codex, codex_use(id, text)) == seq![Said::Call { id, command: text }],
        event_says(Tool::Codex, codex_result(id, text)) == seq![Said::Answer { id, output: text }],
{
    codex_words_differ();
}

proof fn gemini_calls_are_heard(text: Seq<char>)
    ensures
        event_says(Tool::Gemini, gemini_use(text)) == seq![
            Said::Call { id: Seq::empty(), command: text },
        ],
        event_says(Tool::Gemini, gemini_result(text)) == seq![
            Said::Answer { id: Seq::empty(), output: text },
        ],
{
    gemini_words_differ();
}

proof fn opencode_calls_are_heard(id: Seq<char>, text: Seq<char>)
    ensures
        event_says(Tool::Opencode, opencode_use(id, text)) == seq![
            Said::Call { id, command: text },
        ],
        event_says(Tool::Opencode, opencode_result(id, text)) == seq![
            Said::Answer { id, output: text },
        ],
{
    opencode_words_differ();
}

/// What two outputs say.
proof fn heard_two(tool: Tool, a: JsonView, b: JsonView)
    ensures
        heard(tool, as_events(seq![a, b])) == event_says(tool, a) + event_says(tool, b),
{
    let all = as_events(seq![a, b]);
    assert(all =~= seq![OutputView::Event(a), OutputView::Event(b)]);
    assert(all.drop_last() =~= seq![OutputView::Event(a)]);
    assert(seq![OutputView::Event(a)].drop_last() =~= Seq::<OutputView>::empty());
    assert(heard(tool, Seq::<OutputView>::empty()) =~= Seq::<Said>::empty());
    assert(heard(tool, seq![OutputView::Event(a)]) =~= event_says(tool, a));
}

/// What four outputs say.
proof fn heard_four(tool: Tool, a: JsonView, b: JsonView, c: JsonView, d: JsonView)
    ensures
        heard(tool, as_events(seq![a, b, c, d])) == event_says(tool, a) + event_says(tool, b)
            + event_says(tool, c) + event_says(tool, d),
{
    let all = as_events(seq![a, b, c, d]);
    assert(all =~= as_events(seq![a, b]) + as_events(seq![c, d]));
    heard_both(tool, as_events(seq![a, b]), as_events(seq![c, d]));
    heard_two(tool, a, b);
    heard_two(tool, c, d);
    assert(heard(tool, all) =~= event_says(tool, a) + event_says(tool, b) + event_says(tool, c)
        + event_says(tool, d));
}

/// Whether a tool numbers its calls.
pub open spec fn numbers_calls(tool: Tool) -> bool {
    tool != Tool::Gemini
}

/// Whether a call runs a command: by that text, or by an object that holds it.
pub open spec fn runs(command: Seq<char>, cmd: Seq<char>) -> bool {
    command == cmd || command == "{\"cmd\":\""@ + cmd + "\"}"@
}

/// The script of one tool call makes one call, of `ls`, and gives its answer behind it, under the
/// number of the call.
pub proof fn single_calls_are_answered(tool: Tool, session: Seq<char>)
    ensures
        ({
            let said = heard(tool, middle(tool, session, Script::ToolSingle));
            &&& said.len() == 2
            &&& said[0] matches Said::Call { id, command } && runs(command, "ls"@) && said[1] == (
            Said::Answer { id, output: "file_a\nfile_b\n"@ }) && (numbers_calls(tool) == (id.len()
                > 0))
        }),
{
    commands_in_objects();
    call_numbers_differ();
    match tool {
        Tool::Claude => {
            let u = claude_use("toolu_1"@, "ls"@);
            let r = claude_result("toolu_1"@, "file_a\nfile_b\n"@);
            claude_blocks_are_heard("toolu_1"@, "ls"@, "file_a\nfile_b\n"@);
            one_block(u);
            one_block(r);
            claude_messages_are_heard("assistant"@, session, seq![u]);
            claude_messages_are_heard("user"@, session, seq![r]);
            heard_two(
                tool,
                claude_message("assistant"@, session, one(u)),
                claude_message("user"@, session, one(r)),
            );
        },
        Tool::Codex => {
            codex_items_are_heard("call_1"@, "{\"cmd\":\"ls\"}"@);
            codex_items_are_heard("call_1"@, "file_a\nfile_b\n"@);
            heard_two(
                tool,
                codex_use("call_1"@, "{\"cmd\":\"ls\"}"@),
                codex_result("call_1"@, "file_a\nfile_b\n"@),
            );
        },
        Tool::Gemini => {
            gemini_calls_are_heard("ls"@);
            gemini_calls_are_heard("file_a\nfile_b\n"@);
            heard_two(tool, gemini_use("ls"@), gemini_result("file_a\nfile_b\n"@));
        },
        Tool::Opencode => {
            opencode_calls_are_heard("tool_1"@, "ls"@);
            opencode_calls_are_heard("tool_1"@, "file_a\nfile_b\n"@);
            heard_two(
                tool,
                opencode_use("tool_1"@, "ls"@),
                opencode_result("tool_1"@, "file_a\nfile_b\n"@),
            );
        },
    }
}

/// The script of parallel tool calls makes two calls, of `pwd` and `whoami`, before it gives any
/// answer, and then answers both in their order, each under the number of its call; the numbers
/// differ.
pub proof fn parallel_calls_are_answered(tool: Tool, session: Seq<char>)
    ensures
        ({
            let said = heard(tool, middle(tool, session, Script::ToolParallel));
            &&& said.len() == 4
            &&& said[0] matches Said::Call { id: a, command: first } && (
            said[1] matches Said::Call { id: b, command: second } && {
                &&& runs(first, "pwd"@)
                &&& runs(second, "whoami"@)
                &&& said[2] == (Said::Answer { id: a, output: "/tmp"@ })
                &&& said[3] == (Said::Answer { id: b, output: "user"@ })
                &&& numbers_calls(tool) ==> a != b && a.len() > 0 && b.len() > 0
                &&& !numbers_calls(tool) ==> a.len() == 0 && b.len() == 0
            })
        }),
{
    commands_in_objects();
    call_numbers_differ();
    match tool {
        Tool::Claude => {
            let u = claude_use("toolu_a"@, "pwd"@);
            let w = claude_use("toolu_b"@, "whoami"@);
            let r = claude_result("toolu_a"@, "/tmp"@);
            let q = claude_result("toolu_b"@, "user"@);
            claude_blocks_are_heard("toolu_a"@, "pwd"@, "/tmp"@);
            claude_blocks_are_heard("toolu_b"@, "whoami"@, "user"@);
            two_blocks(u, w);
            two_blocks(r, q);
            claude_messages_are_heard("assistant"@, session, seq![u, w]);
            claude_messages_are_heard("user"@, session, seq![r, q]);
            heard_two(
                tool,
                claude_message("assistant"@, session, two(u, w)),
                claude_message("user"@, session, two(r, q)),
            );
        },
        Tool::Codex => {
            codex_items_are_heard("call_a"@, "{\"cmd\":\"pwd\"}"@);
            codex_items_are_heard("call_b"@, "{\"cmd\":\"whoami\"}"@);
            codex_items_are_heard("call_a"@, "/tmp"@);
            codex_items_are_heard("call_b"@, "user"@);
            heard_four(
                tool,
                codex_use("call_a"@, "{\"cmd\":\"pwd\"}"@),
                codex_use("call_b"@, "{\"cmd\":\"whoami\"}"@),
                codex_result("call_a"@, "/tmp"@),
                codex_result("call_b"@, "user"@),
            );
        },
        Tool::Gemini => {
            gemini_calls_are_heard("pwd"@);
            gemini_calls_are_heard("whoami"@);
            gemini_calls_are_heard("/tmp"@);
            gemini_calls_are_heard("user"@);
            heard_four(
                tool,
                gemini_use("pwd"@),
                gemini_use("whoami"@),
                gemini_result("/tmp"@),
                gemini_result("user"@),
            );
        },
        Tool::Opencode => {
            opencode_calls_are_heard("tool_a"@, "pwd"@);
            opencode_calls_are_heard("tool_b"@, "whoami"@);
            opencode_calls_are_heard("tool_a"@, "/tmp"@);
            opencode_calls_are_heard("tool_b"@, "user"@);
            heard_four(
                tool,
                opencode_use("tool_a"@, "pwd"@),
                opencode_use("tool_b"@, "whoami"@),
                opencode_result("tool_a"@, "/tmp"@),
                opencode_result("tool_b"@, "user"@),
            );
        },
    }
}

/// The commands in objects are the objects that hold the commands.
proof fn commands_in_objects()
    ensures
        "{\"cmd\":\"ls\"}"@ == "{\"cmd\":\""@ + "ls"@ + "\"}"@,
        "{\"cmd\":\"pwd\"}"@ == "{\"cmd\":\""@ + "pwd"@ + "\"}"@,
        "{\"cmd\":\"whoami\"}"@ == "{\"cmd\":\""@ + "whoami"@ + "\"}"@,
{
    reveal_strlit("{\"cmd\":\"");
    reveal_strlit("\"}");
    reveal_strlit("ls");
    reveal_strlit("pwd");
    reveal_strlit("whoami");
    reveal_strlit("{\"cmd\":\"ls\"}");
    reveal_strlit("{\"cmd\":\"pwd\"}");
    reveal_strlit("{\"cmd\":\"whoami\"}");
    assert("{\"cmd\":\"ls\"}"@ =~= "{\"cmd\":\""@ + "ls"@ + "\"}"@);
    assert("{\"cmd\":\"pwd\"}"@ =~= "{\"cmd\":\""@ + "pwd"@ + "\"}"@);
    assert("{\"cmd\":\"whoami\"}"@ =~= "{\"cmd\":\""@ + "whoami"@ + "\"}"@);
}

/// The numbers of parallel calls differ, and none is empty.
proof fn call_numbers_differ()
    ensures
        "toolu_a"@ != "toolu_b"@,
        "call_a"@ != "call_b"@,
        "tool_a"@ != "tool_b"@,
        "toolu_a"@.len() > 0,
        "toolu_b"@.len() > 0,
        "toolu_1"@.len() > 0,
        "call_a"@.len() > 0,
        "call_b"@.len() > 0,
        "call_1"@.len() > 0,
        "tool_a"@.len() > 0,
        "tool_b"@.len() > 0,
        "tool_1"@.len() > 0,
{
    reveal_strlit("toolu_a");
    reveal_strlit("toolu_b");
    reveal_strlit("toolu_1");
    reveal_strlit("call_a");
    reveal_strlit("call_b");
    reveal_strlit("call_1");
    reveal_strlit("tool_a");
    reveal_strlit("tool_b");
    reveal_strlit("tool_1");
    assert("toolu_a"@.len() == 7);
    assert("toolu_b"@.len() == 7);
    assert("toolu_1"@.len() == 7);
    assert("call_a"@.len() == 6);
    assert("call_b"@.len() == 6);
    assert("call_1"@.len() == 6);
    assert("tool_a"@.len() == 6);
    assert("tool_b"@.len() == 6);
    assert("tool_1"@.len() == 6);
    assert("toolu_a"@[6] != "toolu_b"@[6]);
    assert("toolu_a"@[6] != "toolu_1"@[6]);
    assert("toolu_b"@[6] != "toolu_1"@[6]);
    assert("call_a"@[5] != "call_b"@[5]);
    assert("call_a"@[5] != "call_1"@[5]);
    assert("call_a"@[0] != "tool_a"@[0]);
    assert("call_a"@[0] != "tool_b"@[0]);
    assert("call_a"@[0] != "tool_1"@[0]);
    assert("call_b"@[5] != "call_1"@[5]);
    assert("call_b"@[0] != "tool_a"@[0]);
    assert("call_b"@[0] != "tool_b"@[0]);
    assert("call_b"@[0] != "tool_1"@[0]);
    assert("call_1"@[0] != "tool_a"@[0]);
    assert("call_1"@[0] != "tool_b"@[0]);
    assert("call_1"@[0] != "tool_1"@[0]);
    assert("tool_a"@[5] != "tool_b"@[5]);
    assert("tool_a"@[5] != "tool_1"@[5]);
    assert("tool_b"@[5] != "tool_1"@[5]);
}


/// What the text of a script says, behind the opening: the pieces one after another, and what else
/// the script has between the first and the second.
proof fn body_is_heard(tool: Tool, session: Seq<char>, script: Script, shown: Seq<Seq<char>>)
    requires
        shown.len() > 0,
    ensures
        heard(tool, body(tool, session, script, shown)) == seq![Said::Text(shown[0])] + heard(
            tool,
            middle(tool, session, script),
        ) + as_texts(shown.skip(1)),
    decreases shown.len(),
{
    let last = shown.last();
    let piece = piece_outputs(tool, session, script, last);
    let event = OutputView::Event(text_event(tool, session, last));
    text_events_are_heard(tool, session, last);
    let none = Seq::<OutputView>::empty();
    assert(seq![event].drop_last() =~= none);
    assert(heard(tool, none) =~= Seq::<Said>::empty());
    assert(heard(tool, seq![event]) =~= seq![Said::Text(last)]);
    if script == Script::Cancellation {
        assert(piece.drop_last() =~= seq![event]);
        assert(heard(tool, piece) =~= heard(tool, seq![event]) + Seq::<Said>::empty());
    }
    assert(heard(tool, piece) =~= seq![Said::Text(last)]);
    let head = shown.drop_last();
    let before = body(tool, session, script, head);
    if shown.len() == 1 {
        assert(before =~= none);
        heard_both(tool, before + piece, middle(tool, session, script));
        heard_both(tool, before, piece);
        assert(as_texts(shown.skip(1)) =~= Seq::<Said>::empty());
        assert(heard(tool, body(tool, session, script, shown)) =~= seq![Said::Text(shown[0])]
            + heard(tool, middle(tool, session, script)) + as_texts(shown.skip(1)));
    } else {
        body_is_heard(tool, session, script, head);
        heard_both(tool, before, piece);
        assert(head[0] == shown[0]);
        assert(as_texts(shown.skip(1)) =~= as_texts(head.skip(1)) + seq![Said::Text(last)]);
        assert(heard(tool, body(tool, session, script, shown)) =~= seq![Said::Text(shown[0])]
            + heard(tool, middle(tool, session, script)) + as_texts(shown.skip(1)));
    }
}

proof fn frames_are_not_heard(tool: Tool, session: Seq<char>, text: Seq<char>)
    ensures
        heard(tool, as_events(opening(tool, session))) == Seq::<Said>::empty(),
        heard(tool, as_events(closing(tool, session, text))) == Seq::<Said>::empty(),
{
    let none = Seq::<OutputView>::empty();
    assert(heard(tool, none) =~= Seq::<Said>::empty());
    let o = as_events(opening(tool, session));
    let c = as_events(closing(tool, session, text));
    match tool {
        Tool::Claude => {
            stream_words_differ();
            result_keys_differ();
            assert(o.drop_last() =~= none && c.drop_last() =~= none);
            assert(output_says(tool, o.last()) =~= Seq::<Said>::empty());
            assert(output_says(tool, c.last()) =~= Seq::<Said>::empty());
        },
        Tool::Codex => {
            codex_words_differ();
            heard_two(tool, opening(tool, session)[0], opening(tool, session)[1]);
            assert(opening(tool, session) =~= seq![
                opening(tool, session)[0],
                opening(tool, session)[1],
            ]);
            assert(c.drop_last() =~= none);
            assert(output_says(tool, c.last()) =~= Seq::<Said>::empty());
        },
        Tool::Gemini => {
            gemini_words_differ();
            empty_is_no_kind();
            assert(o.drop_last() =~= none);
            assert(output_says(tool, o.last()) =~= Seq::<Said>::empty());
            let l = closing(tool, session, text);
            heard_two(tool, l[0], l[1]);
            assert(l =~= seq![l[0], l[1]]);
        },
        Tool::Opencode => {
            opencode_words_differ();
            empty_is_no_kind();
            assert(o =~= none);
            assert(c.drop_last() =~= none);
            assert(output_says(tool, c.last()) =~= Seq::<Said>::empty());
        },
    }
}

proof fn empty_is_no_kind()
    ensures
        Seq::<char>::empty() != "partialResult"@,
        Seq::<char>::empty() != "functionCall"@,
        Seq::<char>::empty() != "functionResponse"@,
        Seq::<char>::empty() != "text"@,
        Seq::<char>::empty() != "tool_use"@,
        Seq::<char>::empty() != "tool_result"@,
{
    reveal_strlit("partialResult");
    reveal_strlit("functionCall");
    reveal_strlit("functionResponse");
    reveal_strlit("text");
    reveal_strlit("tool_use");
    reveal_strlit("tool_result");
    assert("partialResult"@.len() == 13);
    assert("functionCall"@.len() == 12);
    assert("functionResponse"@.len() == 16);
    assert("text"@.len() == 4);
    assert("tool_use"@.len() == 8);
    assert("tool_result"@.len() == 11);
}

/// The script that a name stands for, whatever the tool, by what a reader hears of it: the text of
/// the script in its pieces, and behind the first of them the tool calls and answers of the script,
/// or its noise.
pub proof fn performances_say_their_script(tool: Tool, name: Seq<char>)
    ensures
        ({
            let script = script_named(tool, name);
            let shown = shown_pieces(tool, pieces(script));
            heard(tool, performance(tool, name)) == seq![Said::Text(shown[0])] + heard(
                tool,
                middle(tool, session_of(tool, name), script),
            ) + as_texts(shown.skip(1))
        }),
        heard(tool, middle(tool, session_of(tool, name), Script::ErrorRecovery)) == seq![
            Said::Noise("{not-json-at-all"@),
        ],
        heard(tool, middle(tool, session_of(tool, name), Script::Short)).len() == 0,
        heard(tool, middle(tool, session_of(tool, name), Script::Medium)).len() == 0,
        heard(tool, middle(tool, session_of(tool, name), Script::Long)).len() == 0,
        heard(tool, middle(tool, session_of(tool, name), Script::Cancellation)).len() == 0,
{
    let script = script_named(tool, name);
    let session = session_of(tool, name);
    let shown = shown_pieces(tool, pieces(script));
    stream_adds_up(tool, name);
    frames_are_not_heard(tool, session, whole(pieces(script)));
    body_is_heard(tool, session, script, shown);
    let o = as_events(opening(tool, session));
    let b = body(tool, session, script, shown);
    let c = as_events(closing(tool, session, whole(pieces(script))));
    heard_both(tool, o + b, c);
    heard_both(tool, o, b);
    assert(heard(tool, performance(tool, name)) =~= heard(tool, b));
    let noise = seq![OutputView::Raw("{not-json-at-all"@)];
    let none = Seq::<OutputView>::empty();
    assert(noise.drop_last() =~= none);
    assert(heard(tool, none) =~= Seq::<Said>::empty());
    assert(output_says(tool, noise.last()) == seq![Said::Noise("{not-json-at-all"@)]);
    assert(heard(tool, noise) =~= seq![Said::Noise("{not-json-at-all"@)]);
}

/// The names of the scripts, each of which is its own; only one tool has a script to be cancelled.
pub proof fn scripts_have_their_names(tool: Tool)
    ensures
        script_named(tool, "streaming-short"@) == Script::Short,
        script_named(tool, "streaming-medium"@) == Script::Medium,
        script_named(tool, "streaming-long"@) == Script::Long,
        script_named(tool, "tool-call-single"@) == Script::ToolSingle,
        script_named(tool, "tool-call-parallel"@) == Script::ToolParallel,
        script_named(tool, "error-recovery"@) == Script::ErrorRecovery,
        script_named(tool, "cancellation"@) == if tool == Tool::Opencode {
            Script::Cancellation
        } else {
            Script::Short
        },
{
    reveal_strlit("streaming-short");
    reveal_strlit("streaming-medium");
    reveal_strlit("streaming-long");
    reveal_strlit("tool-call-single");
    reveal_strlit("tool-call-parallel");
    reveal_strlit("error-recovery");
    reveal_strlit("cancellation");
    assert("streaming-short"@.len() == 15);
    assert("streaming-medium"@.len() == 16);
    assert("streaming-long"@.len() == 14);
    assert("tool-call-single"@.len() == 16);
    assert("tool-call-parallel"@.len() == 18);
    assert("error-recovery"@.len() == 14);
    assert("cancellation"@.len() == 12);
    assert("streaming-medium"@[0] != "tool-call-single"@[0]);
    assert("streaming-long"@[0] != "error-recovery"@[0]);
}

/// The texts of the scripts: the short ones word for word, the long ones as words that are numbered
/// from nothing up.
pub proof fn scripts_have_their_texts(i: int)
    ensures
        whole(pieces(Script::Short)) == "Hello world!"@,
        whole(pieces(Script::ToolSingle)) == "Looking up... done."@,
        whole(pieces(Script::ToolParallel)) == "Parallel ops: complete."@,
        whole(pieces(Script::ErrorRecovery)) == "Working... recovered."@,
        pieces(Script::ToolSingle).len() == 2,
        pieces(Script::ToolParallel).len() == 2,
        pieces(Script::ErrorRecovery).len() == 2,
        0 <= i < 40 ==> pieces(Script::Medium)[i] == "word"@ + decimal(i as nat) + " "@,
        0 <= i < 300 ==> pieces(Script::Long)[i] == "token"@ + decimal(i as nat) + " "@,
        0 <= i < 120 ==> pieces(Script::Cancellation)[i] == "cancel-token-"@ + decimal(i as nat)
            + " "@,
{
    short_texts();
    whole_of_two("Looking up... "@, "done."@);
    whole_of_two("Parallel ops: "@, "complete."@);
    whole_of_two("Working... "@, "recovered."@);
    let s = pieces(Script::Short);
    assert(s.drop_last() =~= seq!["Hello "@, "world"@]);
    whole_of_two("Hello "@, "world"@);
}

proof fn whole_of_two(a: Seq<char>, b: Seq<char>)
    ensures
        whole(seq![a, b]) == a + b,
{
    assert(seq![a, b].drop_last() =~= seq![a]);
    assert(seq![a].drop_last() =~= Seq::<Seq<char>>::empty());
    assert(whole(Seq::<Seq<char>>::empty()) =~= Seq::<char>::empty());
    assert(whole(seq![a]) =~= a);
}

proof fn short_texts()
    ensures
        "Hello "@ + "world"@ + "!"@ == "Hello world!"@,
        "Looking up... "@ + "done."@ == "Looking up... done."@,
        "Parallel ops: "@ + "complete."@ == "Parallel ops: complete."@,
        "Working... "@ + "recovered."@ == "Working... recovered."@,
{
    reveal_strlit("Hello ");
    reveal_strlit("world");
    reveal_strlit("!");
    reveal_strlit("Hello world!");
    reveal_strlit("Looking up... ");
    reveal_strlit("done.");
    reveal_strlit("Looking up... done.");
    reveal_strlit("Parallel ops: ");
    reveal_strlit("complete.");
    reveal_strlit("Parallel ops: complete.");
    reveal_strlit("Working... ");
    reveal_strlit("recovered.");
    reveal_strlit("Working... recovered.");
    assert("Hello "@ + "world"@ + "!"@ =~= "Hello world!"@);
    assert("Looking up... "@ + "done."@ =~= "Looking up... done."@);
    assert("Parallel ops: "@ + "complete."@ =~= "Parallel ops: complete."@);
    assert("Working... "@ + "recovered."@ =~= "Working... recovered."@);
}

/// How a performance begins and ends. It names the session, which holds the name of the script, in
/// its first event, where the tool has sessions; and it ends with the whole text, where the tool
/// repeats it, and with a success.
pub proof fn performances_are_framed(tool: Tool, name: Seq<char>, text: Seq<char>)
    ensures
        ({
            let o = opening(tool, session_of(tool, name));
            match tool {
                Tool::Claude => o.len() == 1 && says(o[0], "type"@, "system"@) && says(
                    o[0],
                    "session_id"@,
                    "mock-session-"@ + name,
                ),
                Tool::Codex => o.len() == 2 && says(o[0], "type"@, "thread.started"@) && says(
                    o[0],
                    "thread_id"@,
                    "mock-codex-"@ + name,
                ) && says(o[1], "type"@, "turn.started"@),
                Tool::Gemini => o.len() == 1 && says(o[0], "session_id"@, "mock-gemini-"@ + name),
                Tool::Opencode => o.len() == 0,
            }
        }),
        ({
            let c = closing(tool, session_of(tool, name), text);
            match tool {
                Tool::Claude => c.len() == 1 && says(c[0], "type"@, "result"@) && says(
                    c[0],
                    "subtype"@,
                    "success"@,
                ) && says(c[0], "result"@, text) && c[0].get("is_error"@) == Some(
                    JsonView::Bool(false),
                ) && says(c[0], "session_id"@, "mock-session-"@ + name),
                Tool::Codex => c.len() == 1 && says(c[0], "type"@, "turn.completed"@),
                Tool::Gemini => c.len() == 2 && says(c[0], "response"@, text),
                Tool::Opencode => c.len() == 1 && says(c[0], "content"@, text),
            }
        }),
{
    match tool {
        Tool::Claude => {
            result_keys_differ();
        },
        Tool::Codex => {
            codex_words_differ();
        },
        _ => {},
    }
}

/// The keys of a result are all different.
proof fn result_keys_differ()
    ensures
        "type"@ != "subtype"@,
        "type"@ != "session_id"@,
        "type"@ != "result"@,
        "type"@ != "is_error"@,
        "type"@ != "duration_ms"@,
        "type"@ != "num_turns"@,
        "subtype"@ != "session_id"@,
        "subtype"@ != "result"@,
        "subtype"@ != "is_error"@,
        "subtype"@ != "duration_ms"@,
        "subtype"@ != "num_turns"@,
        "session_id"@ != "result"@,
        "session_id"@ != "is_error"@,
        "session_id"@ != "duration_ms"@,
        "session_id"@ != "num_turns"@,
        "result"@ != "is_error"@,
        "result"@ != "duration_ms"@,
        "result"@ != "num_turns"@,
        "is_error"@ != "duration_ms"@,
        "is_error"@ != "num_turns"@,
        "duration_ms"@ != "num_turns"@,
{
    reveal_strlit("type");
    reveal_strlit("subtype");
    reveal_strlit("session_id");
    reveal_strlit("result");
    reveal_strlit("is_error");
    reveal_strlit("duration_ms");
    reveal_strlit("num_turns");
    assert("type"@.len() == 4);
    assert("subtype"@.len() == 7);
    assert("session_id"@.len() == 10);
    assert("result"@.len() == 6);
    assert("is_error"@.len() == 8);
    assert("duration_ms"@.len() == 11);
    assert("num_turns"@.len() == 9);
}

/// Only the script that is to be cancelled takes its time: there each piece of text is followed by a
/// pause of fifty milliseconds.
pub proof fn only_cancellation_pauses(tool: Tool, session: Seq<char>, script: Script, text: Seq<char>)
    ensures
        ({
            let o = piece_outputs(tool, session, script, text);
            &&& o[0] == OutputView::Event(text_event(tool, session, text))
            &&& script == Script::Cancellation ==> o.len() == 2 && o[1] == OutputView::Pause(50)
            &&& script != Script::Cancellation ==> o.len() == 1
        }),
{
}

proof fn tool_names_differ()
    ensures
        tool_name(Tool::Claude).len() == 6,
        tool_name(Tool::Codex).len() == 5,
        tool_name(Tool::Gemini).len() == 6,
        tool_name(Tool::Opencode).len() == 8,
        tool_name(Tool::Claude)[0] != tool_name(Tool::Gemini)[0],
        "mock-"@.len() == 5,
{
    reveal_strlit("CLAUDE_BIN");
    reveal_strlit("CODEX_BIN");
    reveal_strlit("GEMINI_BIN");
    reveal_strlit("OPENCODE_BIN");
    reveal_strlit("mock-");
    assert("CLAUDE_BIN"@.len() == 10 && "CODEX_BIN"@.len() == 9);
    assert("GEMINI_BIN"@.len() == 10 && "OPENCODE_BIN"@.len() == 12);
    assert("CLAUDE_BIN"@[0] == 'C' && "GEMINI_BIN"@[0] == 'G');
    assert(tool_name(Tool::Claude)[0] == ('C' as u32 + 32) as char);
    assert(tool_name(Tool::Gemini)[0] == ('G' as u32 + 32) as char);
}

/// A program stands in for a tool by the tool's name or by that of its mock, and a program of any
/// other name for none.
pub proof fn programs_stand_in_by_name(tool: Tool, name: Seq<char>)
    ensures
        called_tool(tool_name(tool)) == Some(tool),
        called_tool("mock-"@ + tool_name(tool)) == Some(tool),
        called_tool(name) == Some(tool) ==> name == tool_name(tool) || name == "mock-"@ + tool_name(
            tool,
        ),
{
    tool_names_differ();
    let mock = "mock-"@ + tool_name(tool);
    assert(mock.len() == 5 + tool_name(tool).len());
    assert(mock[5] == tool_name(tool)[0]);
    assert(("mock-"@ + tool_name(Tool::Claude)).len() == 11);
    assert(("mock-"@ + tool_name(Tool::Codex)).len() == 10);
    assert(("mock-"@ + tool_name(Tool::Gemini)).len() == 11);
    assert(("mock-"@ + tool_name(Tool::Opencode)).len() == 13);
    assert(("mock-"@ + tool_name(Tool::Claude))[5] == tool_name(Tool::Claude)[0]);
    assert(("mock-"@ + tool_name(Tool::Gemini))[5] == tool_name(Tool::Gemini)[0]);
}

/// The keys of a call are all different.
proof fn use_keys_differ()
    ensures
        "type"@ != "id"@,
        "type"@ != "name"@,
        "type"@ != "input"@,
        "type"@ != "call_id"@,
        "type"@ != "arguments"@,
        "type"@ != "args"@,
        "type"@ != "item"@,
        "type"@ != "functionCall"@,
        "type"@ != "tool_use"@,
        "id"@ != "name"@,
        "id"@ != "input"@,
        "id"@ != "call_id"@,
        "id"@ != "arguments"@,
        "id"@ != "args"@,
        "id"@ != "item"@,
        "id"@ != "functionCall"@,
        "id"@ != "tool_use"@,
        "name"@ != "input"@,
        "name"@ != "call_id"@,
        "name"@ != "arguments"@,
        "name"@ != "args"@,
        "name"@ != "item"@,
        "name"@ != "functionCall"@,
        "name"@ != "tool_use"@,
        "input"@ != "call_id"@,
        "input"@ != "arguments"@,
        "input"@ != "args"@,
        "input"@ != "item"@,
        "input"@ != "functionCall"@,
        "input"@ != "tool_use"@,
        "call_id"@ != "arguments"@,
        "call_id"@ != "args"@,
        "call_id"@ != "item"@,
        "call_id"@ != "functionCall"@,
        "call_id"@ != "tool_use"@,
        "arguments"@ != "args"@,
        "arguments"@ != "item"@,
        "arguments"@ != "functionCall"@,
        "arguments"@ != "tool_use"@,
        "args"@ != "item"@,
        "args"@ != "functionCall"@,
        "args"@ != "tool_use"@,
        "item"@ != "functionCall"@,
        "item"@ != "tool_use"@,
        "functionCall"@ != "tool_use"@,
{
    reveal_strlit("type");
    reveal_strlit("id");
    reveal_strlit("name");
    reveal_strlit("input");
    reveal_strlit("call_id");
    reveal_strlit("arguments");
    reveal_strlit("args");
    reveal_strlit("item");
    reveal_strlit("functionCall");
    reveal_strlit("tool_use");
    assert("type"@.len() == 4);
    assert("id"@.len() == 2);
    assert("name"@.len() == 4);
    assert("input"@.len() == 5);
    assert("call_id"@.len() == 7);
    assert("arguments"@.len() == 9);
    assert("args"@.len() == 4);
    assert("item"@.len() == 4);
    assert("functionCall"@.len() == 12);
    assert("tool_use"@.len() == 8);
    assert("type"@[0] != "name"@[0]);
    assert("type"@[0] != "args"@[0]);
    assert("type"@[0] != "item"@[0]);
    assert("name"@[0] != "args"@[0]);
    assert("name"@[0] != "item"@[0]);
    assert("args"@[0] != "item"@[0]);
}

/// Every call is one of the shell.
pub proof fn calls_are_of_the_shell(id: Seq<char>, text: Seq<char>)
    ensures
        says(claude_use(id, text), "name"@, "shell"@),
        says(codex_use(id, text).get_or_null("item"@), "name"@, "shell"@),
        says(gemini_use(text).get_or_null("functionCall"@), "name"@, "shell"@),
        says(opencode_use(id, text).get_or_null("tool_use"@), "name"@, "shell"@),
{
    use_keys_differ();
}

} // verus!
