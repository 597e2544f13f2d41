//! JSON-RPC frames: one JSON object per line, requests and notifications out, responses in.

use crate::codec::{json_document, json_text, parse, portable, render, MAX_LEVELS};
use crate::fields::{
    defaulted_bool, defaulted_texts, optional_text, read_defaulted_bool, read_int,
    read_optional_text, read_text, read_texts, required_int, required_text,
};
use crate::json::{Json, JsonView};
use crate::text::{
    i64_to_string, opt_text, signed_decimal, texts, trim, trim_end, trim_start, trimmed,
    white_space,
};
use vstd::prelude::*;

verus! {

/// Version of the plugin protocol that the host announces.
pub const PROTOCOL_VERSION: &'static str = "1.0.0";

/// Version of this testkit, announced as the host's version.
pub const HOST_VERSION: &'static str = "0.3.0";

// ---------------------------------------------------------------------------
// Outgoing frames
// ---------------------------------------------------------------------------

/// A request.
pub open spec fn request_view(id: int, method: Seq<char>, params: JsonView) -> JsonView {
    JsonView::object().with("jsonrpc"@, JsonView::Text("2.0"@)).with("id"@, JsonView::Int(id)).with(
        "method"@,
        JsonView::Text(method),
    ).with("params"@, params)
}

/// A notification.
pub open spec fn notification_view(method: Seq<char>, params: JsonView) -> JsonView {
    JsonView::object().with("jsonrpc"@, JsonView::Text("2.0"@)).with(
        "method"@,
        JsonView::Text(method),
    ).with("params"@, params)
}

/// Builds a request.
pub fn request(id: u64, method: &str, params: Json) -> (r: Json)
    ensures
        r@ == request_view(id as int, method@, params@),
{
    Json::object().with("jsonrpc", Json::text("2.0")).with("id", Json::Unsigned(id)).with(
        "method",
        Json::text(method),
    ).with("params", params)
}

/// Builds a notification.
pub fn notification(method: &str, params: Json) -> (r: Json)
    ensures
        r@ == notification_view(method@, params@),
{
    Json::object().with("jsonrpc", Json::text("2.0")).with("method", Json::text(method)).with(
        "params",
        params,
    )
}

/// The `initialize` request of a host.
pub open spec fn initialize_view(id: int, host: Seq<char>, cancellation: bool) -> JsonView {
    request_view(
        id,
        "initialize"@,
        JsonView::object().with("protocol_version"@, JsonView::Text(PROTOCOL_VERSION@)).with(
            "host_info"@,
            JsonView::object().with("name"@, JsonView::Text(host)).with(
                "version"@,
                JsonView::Text(HOST_VERSION@),
            ),
        ).with(
            "capabilities"@,
            JsonView::object().with("streaming"@, JsonView::Bool(true)).with(
                "progress"@,
                JsonView::Bool(false),
            ).with("cancellation"@, JsonView::Bool(cancellation)),
        ),
    )
}

/// Builds the `initialize` request.
pub fn initialize_request(id: u64, host: &str, cancellation: bool) -> (r: Json)
    ensures
        r@ == initialize_view(id as int, host@, cancellation),
{
    let host_info = Json::object().with("name", Json::text(host)).with(
        "version",
        Json::text(HOST_VERSION),
    );
    let capabilities = Json::object().with("streaming", Json::Bool(true)).with(
        "progress",
        Json::Bool(false),
    ).with("cancellation", Json::Bool(cancellation));
    request(
        id,
        "initialize",
        Json::object().with("protocol_version", Json::text(PROTOCOL_VERSION)).with(
            "host_info",
            host_info,
        ).with("capabilities", capabilities),
    )
}

/// Builds the `initialized` notification that ends the handshake.
pub fn initialized_notification() -> (r: Json)
    ensures
        r@ == notification_view("initialized"@, JsonView::object()),
{
    notification("initialized", Json::object())
}

/// The line that carries a frame.
pub open spec fn frame_line(v: JsonView) -> Seq<char> {
    json_text(v).push('\n')
}

/// Writes a frame as one line.
pub fn encode_frame(frame: &Json) -> (r: String)
    ensures
        r@ == frame_line(frame@),
        r@.len() > 1,
        forall|i: int| 0 <= i < r@.len() - 1 ==> #[trigger] r@[i] != '\n',
        portable(frame@, MAX_LEVELS as nat) ==> incoming(r@) == IncomingView::Frame(frame@),
{
    let text = render(frame);
    let mut r = text;
    let ghost body = r@;
    r.push('\n');
    proof {
        trim_line(body);
        assert forall|i: int| 0 <= i < r@.len() - 1 implies #[trigger] r@[i] != '\n' by {
            assert(body[i] as u32 >= 0x20);
        }
    }
    r
}

/// A line break after a text that neither begins nor ends with white space is trimmed away.
proof fn trim_line(body: Seq<char>)
    requires
        body.len() > 0,
        !white_space(body.first()),
        !white_space(body.last()),
    ensures
        trimmed(body.push('\n')) == body,
{
    let line = body.push('\n');
    assert(line.first() == body.first());
    assert(trim_start(line) == line);
    assert(line.last() == '\n');
    assert(line.drop_last() =~= body);
    assert(trim_end(body) == body);
}

// ---------------------------------------------------------------------------
// Incoming lines
// ---------------------------------------------------------------------------

/// One line of a plugin's output.
#[derive(Debug, PartialEq)]
pub enum Incoming {
    /// Nothing but white space.
    Blank,
    /// A JSON value.
    Frame(Json),
    /// Anything else, without the white space around it.
    Invalid(String),
}

/// What a line stands for.
pub enum IncomingView {
    Blank,
    Frame(JsonView),
    Invalid(Seq<char>),
}

impl View for Incoming {
    type V = IncomingView;

    open spec fn view(&self) -> IncomingView {
        match self {
            Incoming::Blank => IncomingView::Blank,
            Incoming::Frame(j) => IncomingView::Frame(j@),
            Incoming::Invalid(s) => IncomingView::Invalid(s@),
        }
    }
}

/// What a line of output is read as.
pub open spec fn incoming(line: Seq<char>) -> IncomingView {
    if trimmed(line).len() == 0 {
        IncomingView::Blank
    } else {
        match json_document(trimmed(line)) {
            Some(v) => IncomingView::Frame(v),
            None => IncomingView::Invalid(trimmed(line)),
        }
    }
}

/// Reads a line of output.
pub fn decode_line(line: &str) -> (r: Incoming)
    ensures
        r@ == incoming(line@),
{
    let body = trim(line);
    if body.as_str().is_empty() {
        return Incoming::Blank;
    }
    match parse(body.as_str()) {
        Some(j) => Incoming::Frame(j),
        None => Incoming::Invalid(body),
    }
}

/// What waiting for a plugin's next line came to.
#[derive(Debug, PartialEq)]
pub enum Event {
    /// A line arrived.
    Line(String),
    /// The plugin closed its output.
    Closed,
    /// The output could not be read, for the given reason.
    ReadFailed(String),
    /// Nothing arrived in time.
    Quiet,
}

pub enum EventView {
    Line(Seq<char>),
    Closed,
    ReadFailed(Seq<char>),
    Quiet,
}

impl View for Event {
    type V = EventView;

    open spec fn view(&self) -> EventView {
        match self {
            Event::Line(s) => EventView::Line(s@),
            Event::Closed => EventView::Closed,
            Event::ReadFailed(e) => EventView::ReadFailed(e@),
            Event::Quiet => EventView::Quiet,
        }
    }
}

/// How a driver words what can go wrong while it reads.
pub struct Wording {
    pub closed: &'static str,
    pub invalid: &'static str,
    pub late: &'static str,
}

/// What an event brings: a frame, nothing yet, or the end of reading.
#[derive(Debug, PartialEq)]
pub enum FrameStep {
    Again,
    Frame(Json),
    Failed(String),
}

pub enum FrameView {
    Again,
    Frame(JsonView),
    Failed(Seq<char>),
}

impl View for FrameStep {
    type V = FrameView;

    open spec fn view(&self) -> FrameView {
        match self {
            FrameStep::Again => FrameView::Again,
            FrameStep::Frame(j) => FrameView::Frame(j@),
            FrameStep::Failed(m) => FrameView::Failed(m@),
        }
    }
}

/// The frame in an event; blank lines are passed over.
pub open spec fn frame_in(event: EventView, words: Wording) -> FrameView {
    match event {
        EventView::Line(line) => match incoming(line) {
            IncomingView::Blank => FrameView::Again,
            IncomingView::Frame(v) => FrameView::Frame(v),
            IncomingView::Invalid(t) => FrameView::Failed(words.invalid@ + t),
        },
        EventView::Closed => FrameView::Failed(words.closed@),
        EventView::ReadFailed(e) => FrameView::Failed(e),
        EventView::Quiet => FrameView::Failed(words.late@),
    }
}

/// Takes the frame out of an event.
pub fn read_frame(event: Event, words: &Wording) -> (r: FrameStep)
    ensures
        r@ == frame_in(event@, *words),
{
    match event {
        Event::Line(line) => match decode_line(line.as_str()) {
            Incoming::Blank => FrameStep::Again,
            Incoming::Frame(j) => FrameStep::Frame(j),
            Incoming::Invalid(t) => {
                let mut m = words.invalid.to_owned();
                m.append(t.as_str());
                FrameStep::Failed(m)
            },
        },
        Event::Closed => FrameStep::Failed(words.closed.to_owned()),
        Event::ReadFailed(e) => FrameStep::Failed(e),
        Event::Quiet => FrameStep::Failed(words.late.to_owned()),
    }
}

// ---------------------------------------------------------------------------
// Responses
// ---------------------------------------------------------------------------

/// The error member of a response.
#[derive(Debug, PartialEq)]
pub struct RpcError {
    pub code: i64,
    pub message: String,
}

/// A response.
#[derive(Debug, PartialEq)]
pub struct RpcResponse {
    pub id: Option<Json>,
    pub result: Option<Json>,
    pub error: Option<RpcError>,
}

#[verifier::ext_equal]
pub struct RpcErrorView {
    pub code: int,
    pub message: Seq<char>,
}

#[verifier::ext_equal]
pub struct RpcResponseView {
    pub id: Option<JsonView>,
    pub result: Option<JsonView>,
    pub error: Option<RpcErrorView>,
}

impl View for RpcError {
    type V = RpcErrorView;

    open spec fn view(&self) -> RpcErrorView {
        RpcErrorView { code: self.code as int, message: self.message@ }
    }
}

/// What an optional value stands for.
pub open spec fn opt_json(o: Option<Json>) -> Option<JsonView> {
    match o {
        Some(j) => Some(j@),
        None => None,
    }
}

impl View for RpcResponse {
    type V = RpcResponseView;

    open spec fn view(&self) -> RpcResponseView {
        RpcResponseView {
            id: opt_json(self.id),
            result: opt_json(self.result),
            error: match self.error {
                Some(e) => Some(e@),
                None => None,
            },
        }
    }
}

/// A member that counts as absent where it is null.
pub open spec fn non_null(v: JsonView, key: Seq<char>) -> Option<JsonView> {
    match v.get(key) {
        Some(JsonView::Null) => None,
        other => other,
    }
}

fn read_non_null(v: &Json, key: &str) -> (r: Option<Json>)
    ensures
        opt_json(r) == non_null(v@, key@),
{
    match v.get(key) {
        None => None,
        Some(Json::Null) => None,
        Some(j) => Some(j.clone()),
    }
}

/// The error object of a response.
pub open spec fn error_of(v: JsonView) -> Result<RpcErrorView, Seq<char>> {
    match required_int(v, "code"@, i64::MIN as int, i64::MAX as int) {
        Err(e) => Err(e),
        Ok(code) => match required_text(v, "message"@) {
            Err(e) => Err(e),
            Ok(message) => Ok(RpcErrorView { code, message }),
        },
    }
}

fn read_error(v: &Json) -> (r: Result<RpcError, String>)
    ensures
        match r {
            Ok(e) => error_of(v@) == Ok::<RpcErrorView, Seq<char>>(e@),
            Err(m) => error_of(v@) == Err::<RpcErrorView, Seq<char>>(m@),
        },
{
    match read_int(v, "code", i64::MIN as i128, i64::MAX as i128) {
        Err(m) => Err(m),
        Ok(code) => match read_text(v, "message") {
            Err(m) => Err(m),
            Ok(message) => Ok(RpcError { code: code as i64, message }),
        },
    }
}

/// The response that a frame holds, or why it holds none. The version member must be a string;
/// a null id, result or error counts as absent.
pub open spec fn response_of(frame: JsonView) -> Result<RpcResponseView, Seq<char>> {
    match required_text(frame, "jsonrpc"@) {
        Err(e) => Err(e),
        Ok(_) => match non_null(frame, "error"@) {
            None => Ok(
                RpcResponseView {
                    id: non_null(frame, "id"@),
                    result: non_null(frame, "result"@),
                    error: None,
                },
            ),
            Some(v) => match error_of(v) {
                Err(e) => Err(e),
                Ok(error) => Ok(
                    RpcResponseView {
                        id: non_null(frame, "id"@),
                        result: non_null(frame, "result"@),
                        error: Some(error),
                    },
                ),
            },
        },
    }
}

/// Reads a frame as a response.
pub fn decode_response(frame: &Json) -> (r: Result<RpcResponse, String>)
    ensures
        match r {
            Ok(resp) => response_of(frame@) == Ok::<RpcResponseView, Seq<char>>(resp@),
            Err(m) => response_of(frame@) == Err::<RpcResponseView, Seq<char>>(m@),
        },
{
    match read_text(frame, "jsonrpc") {
        Err(m) => {
            return Err(m);
        },
        Ok(_) => {},
    }
    let id = read_non_null(frame, "id");
    let result = read_non_null(frame, "result");
    match read_non_null(frame, "error") {
        None => Ok(RpcResponse { id, result, error: None }),
        Some(v) => match read_error(&v) {
            Err(m) => Err(m),
            Ok(error) => Ok(RpcResponse { id, result, error: Some(error) }),
        },
    }
}

// ---------------------------------------------------------------------------
// The result of `initialize`
// ---------------------------------------------------------------------------

/// Who the plugin is.
#[derive(Debug, PartialEq)]
pub struct PluginInfo {
    pub name: String,
    pub version: String,
    pub plugin_kind: String,
    pub description: Option<String>,
}

/// What the plugin can do.
#[derive(Debug, PartialEq)]
pub struct PluginCapabilities {
    pub methods: Vec<String>,
    pub streaming: bool,
    pub progress: bool,
    pub cancellation: bool,
    pub subject_kinds: Vec<String>,
}

/// A plugin's answer to `initialize`.
#[derive(Debug, PartialEq)]
pub struct InitializeResult {
    pub protocol_version: String,
    pub plugin_info: PluginInfo,
    pub capabilities: PluginCapabilities,
}

#[verifier::ext_equal]
pub struct PluginInfoView {
    pub name: Seq<char>,
    pub version: Seq<char>,
    pub plugin_kind: Seq<char>,
    pub description: Option<Seq<char>>,
}

#[verifier::ext_equal]
pub struct PluginCapabilitiesView {
    pub methods: Seq<Seq<char>>,
    pub streaming: bool,
    pub progress: bool,
    pub cancellation: bool,
    pub subject_kinds: Seq<Seq<char>>,
}

#[verifier::ext_equal]
pub struct InitializeResultView {
    pub protocol_version: Seq<char>,
    pub plugin_info: PluginInfoView,
    pub capabilities: PluginCapabilitiesView,
}

impl View for PluginInfo {
    type V = PluginInfoView;

    open spec fn view(&self) -> PluginInfoView {
        PluginInfoView {
            name: self.name@,
            version: self.version@,
            plugin_kind: self.plugin_kind@,
            description: opt_text(self.description),
        }
    }
}

impl View for PluginCapabilities {
    type V = PluginCapabilitiesView;

    open spec fn view(&self) -> PluginCapabilitiesView {
        PluginCapabilitiesView {
            methods: texts(self.methods@),
            streaming: self.streaming,
            progress: self.progress,
            cancellation: self.cancellation,
            subject_kinds: texts(self.subject_kinds@),
        }
    }
}

impl View for InitializeResult {
    type V = InitializeResultView;

    open spec fn view(&self) -> InitializeResultView {
        InitializeResultView {
            protocol_version: self.protocol_version@,
            plugin_info: self.plugin_info@,
            capabilities: self.capabilities@,
        }
    }
}

/// The identity in an `initialize` result.
pub open spec fn plugin_info_of(v: JsonView) -> Result<PluginInfoView, Seq<char>> {
    match required_text(v, "name"@) {
        Err(e) => Err(e),
        Ok(name) => match required_text(v, "version"@) {
            Err(e) => Err(e),
            Ok(version) => match required_text(v, "plugin_kind"@) {
                Err(e) => Err(e),
                Ok(plugin_kind) => match optional_text(v, "description"@) {
                    Err(e) => Err(e),
                    Ok(description) => Ok(
                        PluginInfoView { name, version, plugin_kind, description },
                    ),
                },
            },
        },
    }
}

fn read_plugin_info(v: &Json) -> (r: Result<PluginInfo, String>)
    ensures
        match r {
            Ok(p) => plugin_info_of(v@) == Ok::<PluginInfoView, Seq<char>>(p@),
            Err(m) => plugin_info_of(v@) == Err::<PluginInfoView, Seq<char>>(m@),
        },
{
    let name = match read_text(v, "name") {
        Ok(s) => s,
        Err(m) => {
            return Err(m);
        },
    };
    let version = match read_text(v, "version") {
        Ok(s) => s,
        Err(m) => {
            return Err(m);
        },
    };
    let plugin_kind = match read_text(v, "plugin_kind") {
        Ok(s) => s,
        Err(m) => {
            return Err(m);
        },
    };
    match read_optional_text(v, "description") {
        Ok(description) => Ok(PluginInfo { name, version, plugin_kind, description }),
        Err(m) => Err(m),
    }
}

/// The capabilities in an `initialize` result; what is absent is false or empty.
pub open spec fn capabilities_of(v: JsonView) -> Result<PluginCapabilitiesView, Seq<char>> {
    match defaulted_texts(v, "methods"@) {
        Err(e) => Err(e),
        Ok(methods) => match defaulted_bool(v, "streaming"@) {
            Err(e) => Err(e),
            Ok(streaming) => match defaulted_bool(v, "progress"@) {
                Err(e) => Err(e),
                Ok(progress) => match defaulted_bool(v, "cancellation"@) {
                    Err(e) => Err(e),
                    Ok(cancellation) => match defaulted_texts(v, "subject_kinds"@) {
                        Err(e) => Err(e),
                        Ok(subject_kinds) => Ok(
                            PluginCapabilitiesView {
                                methods,
                                streaming,
                                progress,
                                cancellation,
                                subject_kinds,
                            },
                        ),
                    },
                },
            },
        },
    }
}

fn read_capabilities(v: &Json) -> (r: Result<PluginCapabilities, String>)
    ensures
        match r {
            Ok(c) => capabilities_of(v@) == Ok::<PluginCapabilitiesView, Seq<char>>(c@),
            Err(m) => capabilities_of(v@) == Err::<PluginCapabilitiesView, Seq<char>>(m@),
        },
{
    let methods = match read_texts(v, "methods") {
        Ok(list) => list,
        Err(m) => {
            return Err(m);
        },
    };
    let streaming = match read_defaulted_bool(v, "streaming") {
        Ok(b) => b,
        Err(m) => {
            return Err(m);
        },
    };
    let progress = match read_defaulted_bool(v, "progress") {
        Ok(b) => b,
        Err(m) => {
            return Err(m);
        },
    };
    let cancellation = match read_defaulted_bool(v, "cancellation") {
        Ok(b) => b,
        Err(m) => {
            return Err(m);
        },
    };
    match read_texts(v, "subject_kinds") {
        Ok(subject_kinds) => Ok(
            PluginCapabilities { methods, streaming, progress, cancellation, subject_kinds },
        ),
        Err(m) => Err(m),
    }
}

/// The `initialize` result that a value holds, or why it holds none.
pub open spec fn initialize_result_of(v: JsonView) -> Result<InitializeResultView, Seq<char>> {
    match required_text(v, "protocol_version"@) {
        Err(e) => Err(e),
        Ok(protocol_version) => match v.get("plugin_info"@) {
            None => Err(crate::fields::missing_field("plugin_info"@)),
            Some(info) => match plugin_info_of(info) {
                Err(e) => Err(e),
                Ok(plugin_info) => match v.get("capabilities"@) {
                    None => Err(crate::fields::missing_field("capabilities"@)),
                    Some(caps) => match capabilities_of(caps) {
                        Err(e) => Err(e),
                        Ok(capabilities) => Ok(
                            InitializeResultView { protocol_version, plugin_info, capabilities },
                        ),
                    },
                },
            },
        },
    }
}

/// Reads a value as an `initialize` result.
pub fn decode_initialize_result(v: &Json) -> (r: Result<InitializeResult, String>)
    ensures
        match r {
            Ok(i) => initialize_result_of(v@) == Ok::<InitializeResultView, Seq<char>>(i@),
            Err(m) => initialize_result_of(v@) == Err::<InitializeResultView, Seq<char>>(m@),
        },
{
    let protocol_version = match read_text(v, "protocol_version") {
        Ok(s) => s,
        Err(m) => {
            return Err(m);
        },
    };
    let plugin_info = match v.get("plugin_info") {
        None => {
            return Err(crate::fields::missing("plugin_info"));
        },
        Some(info) => match read_plugin_info(info) {
            Ok(p) => p,
            Err(m) => {
                return Err(m);
            },
        },
    };
    match v.get("capabilities") {
        None => Err(crate::fields::missing("capabilities")),
        Some(caps) => match read_capabilities(caps) {
            Ok(capabilities) => Ok(InitializeResult { protocol_version, plugin_info, capabilities }),
            Err(m) => Err(m),
        },
    }
}

// ---------------------------------------------------------------------------
// Waiting for an answer
// ---------------------------------------------------------------------------

/// Where the handshake stands after a frame.
#[derive(Debug, PartialEq)]
pub enum HandshakeStep {
    /// The frame is no answer.
    Pending,
    /// The plugin introduced itself.
    Ready(InitializeResult),
    /// The handshake failed.
    Failed(String),
}

pub enum HandshakeView {
    Pending,
    Ready(InitializeResultView),
    Failed(Seq<char>),
}

impl View for HandshakeStep {
    type V = HandshakeView;

    open spec fn view(&self) -> HandshakeView {
        match self {
            HandshakeStep::Pending => HandshakeView::Pending,
            HandshakeStep::Ready(i) => HandshakeView::Ready(i@),
            HandshakeStep::Failed(m) => HandshakeView::Failed(m@),
        }
    }
}

/// The first frame with an `id` member answers the `initialize` request.
pub open spec fn handshake_after(frame: JsonView) -> HandshakeView {
    if frame.get("id"@) is None {
        HandshakeView::Pending
    } else {
        match response_of(frame) {
            Err(e) => HandshakeView::Failed(e),
            Ok(response) => match response.error {
                Some(error) => HandshakeView::Failed(
                    "initialize failed: "@ + error.message + " ("@ + signed_decimal(error.code)
                        + ")"@,
                ),
                None => match response.result {
                    None => HandshakeView::Failed("initialize response had no result"@),
                    Some(result) => match initialize_result_of(result) {
                        Err(e) => HandshakeView::Failed(e),
                        Ok(init) => HandshakeView::Ready(init),
                    },
                },
            },
        }
    }
}

/// Takes a frame that arrived while the handshake waits for its answer.
pub fn handshake_step(frame: &Json) -> (r: HandshakeStep)
    ensures
        r@ == handshake_after(frame@),
{
    if frame.get("id").is_none() {
        return HandshakeStep::Pending;
    }
    match decode_response(frame) {
        Err(m) => HandshakeStep::Failed(m),
        Ok(response) => match response.error {
            Some(error) => {
                let mut m = "initialize failed: ".to_owned();
                m.append(error.message.as_str());
                m.append(" (");
                m.append(i64_to_string(error.code).as_str());
                m.append(")");
                HandshakeStep::Failed(m)
            },
            None => match response.result {
                None => HandshakeStep::Failed("initialize response had no result".to_owned()),
                Some(result) => match decode_initialize_result(&result) {
                    Err(m) => HandshakeStep::Failed(m),
                    Ok(init) => HandshakeStep::Ready(init),
                },
            },
        },
    }
}

/// Where a call stands after a frame.
#[derive(Debug, PartialEq)]
pub enum CallStep {
    /// The frame does not answer the call.
    Pending,
    /// The plugin answered with a result; null where it gave none.
    Done(Json),
    /// The plugin answered with an error, or with something that is no response.
    Failed(String),
}

pub enum CallView {
    Pending,
    Done(JsonView),
    Failed(Seq<char>),
}

impl View for CallStep {
    type V = CallView;

    open spec fn view(&self) -> CallView {
        match self {
            CallStep::Pending => CallView::Pending,
            CallStep::Done(j) => CallView::Done(j@),
            CallStep::Failed(m) => CallView::Failed(m@),
        }
    }
}

/// How an error response to a call is reported.
pub open spec fn call_error_text(method: Seq<char>, error: RpcErrorView) -> Seq<char> {
    method + " returned error: "@ + error.message + " (code "@ + signed_decimal(error.code) + ")"@
}

/// Builds the report of an error response.
pub fn call_error(method: &str, error: &RpcError) -> (r: String)
    ensures
        r@ == call_error_text(method@, error@),
{
    let mut m = method.to_owned();
    m.append(" returned error: ");
    m.append(error.message.as_str());
    m.append(" (code ");
    m.append(i64_to_string(error.code).as_str());
    m.append(")");
    m
}

/// Only a frame whose `id` is the number of the request answers it.
pub open spec fn call_after(frame: JsonView, id: int, method: Seq<char>) -> CallView {
    if frame.get("id"@) != Some(JsonView::Int(id)) {
        CallView::Pending
    } else {
        match response_of(frame) {
            Err(e) => CallView::Failed(e),
            Ok(response) => match response.error {
                Some(error) => CallView::Failed(call_error_text(method, error)),
                None => CallView::Done(
                    match response.result {
                        Some(v) => v,
                        None => JsonView::Null,
                    },
                ),
            },
        }
    }
}

/// Whether the frame's `id` is the given number.
pub fn answers(frame: &Json, id: u64) -> (r: bool)
    ensures
        r == (frame@.get("id"@) == Some(JsonView::Int(id as int))),
{
    match frame.get("id") {
        Some(v) => v.is_number(id),
        None => false,
    }
}

/// Takes a frame that arrived while a call waits for its answer.
pub fn call_step(frame: &Json, id: u64, method: &str) -> (r: CallStep)
    ensures
        r@ == call_after(frame@, id as int, method@),
{
    if !answers(frame, id) {
        return CallStep::Pending;
    }
    match decode_response(frame) {
        Err(m) => CallStep::Failed(m),
        Ok(response) => match response.error {
            Some(error) => CallStep::Failed(call_error(method, &error)),
            None => match response.result {
                Some(v) => CallStep::Done(v),
                None => CallStep::Done(Json::Null),
            },
        },
    }
}

/// Where the handshake stands after an event.
pub open spec fn handshake_event(event: EventView, words: Wording) -> HandshakeView {
    match frame_in(event, words) {
        FrameView::Again => HandshakeView::Pending,
        FrameView::Frame(v) => handshake_after(v),
        FrameView::Failed(m) => HandshakeView::Failed(m),
    }
}

/// Takes an event while the handshake waits for its answer.
pub fn handshake_on(event: Event, words: &Wording) -> (r: HandshakeStep)
    ensures
        r@ == handshake_event(event@, *words),
{
    match read_frame(event, words) {
        FrameStep::Again => HandshakeStep::Pending,
        FrameStep::Frame(j) => handshake_step(&j),
        FrameStep::Failed(m) => HandshakeStep::Failed(m),
    }
}

/// Where a call stands after an event.
pub open spec fn call_event(event: EventView, words: Wording, id: int, method: Seq<char>) -> CallView {
    match frame_in(event, words) {
        FrameView::Again => CallView::Pending,
        FrameView::Frame(v) => call_after(v, id, method),
        FrameView::Failed(m) => CallView::Failed(m),
    }
}

/// Takes an event while a call waits for its answer.
pub fn call_on(event: Event, words: &Wording, id: u64, method: &str) -> (r: CallStep)
    ensures
        r@ == call_event(event@, *words, id as int, method@),
{
    match read_frame(event, words) {
        FrameStep::Again => CallStep::Pending,
        FrameStep::Frame(j) => call_step(&j, id, method),
        FrameStep::Failed(m) => CallStep::Failed(m),
    }
}

// ---------------------------------------------------------------------------
// Laws
// ---------------------------------------------------------------------------

/// Whether an object has a string under a key.
pub open spec fn says(v: JsonView, key: Seq<char>, text: Seq<char>) -> bool {
    v.get(key) == Some(JsonView::Text(text))
}

/// Whether an object has a string under a key where there is one, and nothing otherwise.
pub open spec fn may_say(v: JsonView, key: Seq<char>, text: Option<Seq<char>>) -> bool {
    match text {
        Some(t) => v.get(key) == Some(JsonView::Text(t)),
        None => v.get(key) is None,
    }
}

/// Whether an object has a list of strings under a key.
pub open spec fn lists(v: JsonView, key: Seq<char>, items: Seq<Seq<char>>) -> bool {
    v.get(key) matches Some(JsonView::List(values)) && values.len() == items.len() && forall|i: int|
        0 <= i < items.len() ==> #[trigger] values[i] == JsonView::Text(items[i])
}

/// Whether a frame is a response with a given result: it has a version, and no error that counts.
pub open spec fn brings(frame: JsonView, result: JsonView) -> bool {
    &&& frame.get("jsonrpc"@) matches Some(JsonView::Text(_))
    &&& frame.get("error"@) is None || frame.get("error"@) == Some(JsonView::Null)
    &&& frame.get("result"@) == Some(result)
}

/// Whether a frame is a response with a given error.
pub open spec fn refuses(frame: JsonView, code: int, message: Seq<char>) -> bool {
    &&& frame.get("jsonrpc"@) matches Some(JsonView::Text(_))
    &&& i64::MIN <= code <= i64::MAX
    &&& frame.get("error"@) matches Some(e) && e.get("code"@) == Some(JsonView::Int(code)) && says(
        e,
        "message"@,
        message,
    )
}

/// A call comes to the result of the response that carries its number, and to null where that is
/// null; responses with another number, and frames without one, are passed over.
pub proof fn calls_take_their_results(frame: JsonView, id: int, method: Seq<char>, result: JsonView)
    ensures
        brings(frame, result) && frame.get("id"@) == Some(JsonView::Int(id)) ==> call_after(
            frame,
            id,
            method,
        ) == CallView::Done(result),
        frame.get("id"@) != Some(JsonView::Int(id)) ==> call_after(frame, id, method)
            == CallView::Pending,
{
}

/// A call comes to an error where the response that carries its number has one, whatever else that
/// response holds; the error names the method, the message and the code.
pub proof fn calls_report_errors(
    frame: JsonView,
    id: int,
    method: Seq<char>,
    code: int,
    message: Seq<char>,
)
    requires
        refuses(frame, code, message),
        frame.get("id"@) == Some(JsonView::Int(id)),
    ensures
        call_after(frame, id, method) == CallView::Failed(
            method + " returned error: "@ + message + " (code "@ + signed_decimal(code) + ")"@,
        ),
{
}

/// Whether a value introduces a plugin.
pub open spec fn introduces(v: JsonView, init: InitializeResultView) -> bool {
    &&& says(v, "protocol_version"@, init.protocol_version)
    &&& v.get("plugin_info"@) matches Some(p) && {
        &&& says(p, "name"@, init.plugin_info.name)
        &&& says(p, "version"@, init.plugin_info.version)
        &&& says(p, "plugin_kind"@, init.plugin_info.plugin_kind)
        &&& may_say(p, "description"@, init.plugin_info.description)
    }
    &&& v.get("capabilities"@) matches Some(c) && {
        &&& lists(c, "methods"@, init.capabilities.methods)
        &&& c.get("streaming"@) == Some(JsonView::Bool(init.capabilities.streaming))
        &&& c.get("progress"@) == Some(JsonView::Bool(init.capabilities.progress))
        &&& c.get("cancellation"@) == Some(JsonView::Bool(init.capabilities.cancellation))
        &&& lists(c, "subject_kinds"@, init.capabilities.subject_kinds)
    }
}

proof fn lists_are_read(v: JsonView, key: Seq<char>, items: Seq<Seq<char>>)
    requires
        lists(v, key, items),
    ensures
        defaulted_texts(v, key) == Ok::<Seq<Seq<char>>, Seq<char>>(items),
{
    let values = v.get(key)->0->List_0;
    assert forall|i: int| 0 <= i < values.len() implies (#[trigger] values[i]) is Text by {
        assert(values[i] == JsonView::Text(items[i]));
    }
    assert(crate::fields::item_texts(values) =~= items);
}

/// An introduction is read as it was given, and the response that brings it ends the handshake with
/// it. Frames without a number do not answer the handshake, and an error fails it.
pub proof fn introductions_read_back(frame: JsonView, v: JsonView, init: InitializeResultView)
    requires
        introduces(v, init),
    ensures
        initialize_result_of(v) == Ok::<InitializeResultView, Seq<char>>(init),
        brings(frame, v) && frame.get("id"@) is Some ==> handshake_after(frame)
            == HandshakeView::Ready(init),
        frame.get("id"@) is None ==> handshake_after(frame) == HandshakeView::Pending,
        (exists|code: int, message: Seq<char>| #[trigger] refuses(frame, code, message))
            && frame.get("id"@) is Some ==> handshake_after(frame) is Failed,
{
    lists_are_read(v.get("capabilities"@)->0, "methods"@, init.capabilities.methods);
    lists_are_read(v.get("capabilities"@)->0, "subject_kinds"@, init.capabilities.subject_kinds);
}

/// A plugin that does not say what it can do can do nothing: what is absent from its capabilities is
/// false or empty.
pub proof fn silent_capabilities_are_none(c: JsonView)
    requires
        forall|k: Seq<char>| (#[trigger] c.get(k)) is None,
    ensures
        capabilities_of(c) == Ok::<PluginCapabilitiesView, Seq<char>>(
            PluginCapabilitiesView {
                methods: Seq::empty(),
                streaming: false,
                progress: false,
                cancellation: false,
                subject_kinds: Seq::empty(),
            },
        ),
{
}

/// What each event brings to a reader: the JSON value of a line whatever white space stands around
/// it, nothing for a blank line, and an error, in the reader's words, for anything else.
pub proof fn events_bring_frames(line: Seq<char>, reason: Seq<char>, words: Wording)
    ensures
        trimmed(line).len() == 0 ==> frame_in(EventView::Line(line), words) == FrameView::Again,
        trimmed(line).len() > 0 && json_document(trimmed(line)) is Some ==> frame_in(
            EventView::Line(line),
            words,
        ) == FrameView::Frame(json_document(trimmed(line))->0),
        trimmed(line).len() > 0 && json_document(trimmed(line)) is None ==> frame_in(
            EventView::Line(line),
            words,
        ) == FrameView::Failed(words.invalid@ + trimmed(line)),
        frame_in(EventView::Closed, words) == FrameView::Failed(words.closed@),
        frame_in(EventView::Quiet, words) == FrameView::Failed(words.late@),
        frame_in(EventView::ReadFailed(reason), words) == FrameView::Failed(reason),
{
}

/// What a host says in its requests: the method, the number and the parameters that it was given,
/// and in `initialize` the protocol, its name and what it can do.
pub proof fn requests_say_what_is_asked(
    id: int,
    method: Seq<char>,
    params: JsonView,
    host: Seq<char>,
    cancellation: bool,
)
    ensures
        ({
            let r = request_view(id, method, params);
            &&& says(r, "jsonrpc"@, "2.0"@)
            &&& r.get("id"@) == Some(JsonView::Int(id))
            &&& says(r, "method"@, method)
            &&& r.get("params"@) == Some(params)
        }),
        ({
            let n = notification_view(method, params);
            &&& says(n, "jsonrpc"@, "2.0"@)
            &&& n.get("id"@) is None
            &&& says(n, "method"@, method)
            &&& n.get("params"@) == Some(params)
        }),
        ({
            let i = initialize_view(id, host, cancellation);
            &&& says(i, "method"@, "initialize"@)
            &&& i.get("id"@) == Some(JsonView::Int(id))
            &&& i.get("params"@) matches Some(p) && {
                &&& says(p, "protocol_version"@, "1.0.0"@)
                &&& p.get("host_info"@) matches Some(h) && says(h, "name"@, host)
                &&& p.get("capabilities"@) matches Some(c) && {
                    &&& c.get("streaming"@) == Some(JsonView::Bool(true))
                    &&& c.get("progress"@) == Some(JsonView::Bool(false))
                    &&& c.get("cancellation"@) == Some(JsonView::Bool(cancellation))
                }
            }
        }),
{
    frame_keys_differ();
}

/// The keys of frames and of introductions are all different.
pub proof fn frame_keys_differ()
    ensures
        "jsonrpc"@ != "id"@,
        "jsonrpc"@ != "method"@,
        "jsonrpc"@ != "params"@,
        "id"@ != "method"@,
        "id"@ != "params"@,
        "method"@ != "params"@,
        "protocol_version"@ != "host_info"@,
        "protocol_version"@ != "capabilities"@,
        "host_info"@ != "capabilities"@,
        "name"@ != "version"@,
        "streaming"@ != "progress"@,
        "streaming"@ != "cancellation"@,
        "progress"@ != "cancellation"@,
{
    reveal_strlit("jsonrpc");
    reveal_strlit("id");
    reveal_strlit("method");
    reveal_strlit("params");
    reveal_strlit("protocol_version");
    reveal_strlit("host_info");
    reveal_strlit("capabilities");
    reveal_strlit("name");
    reveal_strlit("version");
    reveal_strlit("streaming");
    reveal_strlit("progress");
    reveal_strlit("cancellation");
    assert("jsonrpc"@.len() == 7);
    assert("id"@.len() == 2);
    assert("method"@.len() == 6);
    assert("params"@.len() == 6);
    assert("protocol_version"@.len() == 16);
    assert("host_info"@.len() == 9);
    assert("capabilities"@.len() == 12);
    assert("name"@.len() == 4);
    assert("version"@.len() == 7);
    assert("streaming"@.len() == 9);
    assert("progress"@.len() == 8);
    assert("cancellation"@.len() == 12);
    assert("jsonrpc"@[0] != "version"@[0]);
    assert("method"@[0] != "params"@[0]);
    assert("host_info"@[0] != "streaming"@[0]);
    assert("capabilities"@[2] != "cancellation"@[2]);
}

/// A frame is carried by its JSON text and one line feed behind it.
pub proof fn frames_end_their_line(v: JsonView)
    ensures
        frame_line(v).len() == json_text(v).len() + 1,
        frame_line(v).last() == '\n',
        frame_line(v).drop_last() == json_text(v),
{
    assert(frame_line(v).drop_last() =~= json_text(v));
}

} // verus!
