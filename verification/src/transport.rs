//! The suite for transport backend plugins.

use crate::conformance::{check_names, Conformance, ConformanceView};
use crate::json::{Json, JsonView};
use crate::model::{bare_result, StatusView, TestResult, TestScenario, TestStatus};
use crate::rpc::{says, InitializeResult};
use crate::suite::{
    brief, check_kind, concat, kind_status, reply_view, show_brief, Step, StepView, HANDSHAKE,
};
use crate::text::{clone_strings, decimal, group_texts, opt_text, texts, u64_to_string};
use crate::views::{group_views, views};
use vstd::prelude::*;

verus! {

broadcast use {group_views, group_texts};

/// The name under which the suite introduces itself.
pub const HOST_NAME: &'static str = "animus-transport-conformance";

/// The kind of plugin that the suite is for.
pub const TRANSPORT_KIND: &'static str = "transport_backend";

/// How long the suite waits for a transport to start.
pub const START_BUDGET_MS: u64 = 5_000;

/// How long the suite waits for any other answer.
pub const CALL_BUDGET_MS: u64 = 3_000;

/// How long a transport that has started is given before it is dialled.
pub const DIAL_DELAY_MS: u64 = 75;

/// How many bytes of a value are shown.
pub const SHOWN_BYTES: usize = 120;

/// The check of starting and shutting down.
pub const START_SHUTDOWN: &'static str = "start-shutdown";

/// The check of schema and health.
pub const SCHEMA_HEALTH: &'static str = "schema-health";

/// The check of dialling a transport that has started.
pub const SERVE_AND_ACCEPT: &'static str = "serve-and-accept";

/// The checks of the suite, in order.
pub open spec fn baseline() -> Seq<(Seq<char>, Seq<char>)> {
    seq![
        (HANDSHAKE@, "initialize → plugin_kind == transport_backend"@),
        (START_SHUTDOWN@, "transport/start binds, transport/shutdown releases"@),
        (SCHEMA_HEALTH@, "transport/schema + health/check return well-shaped JSON"@),
        (SERVE_AND_ACCEPT@, "after transport/start, a TCP client can dial bound_addr"@),
    ]
}

/// Names the checks of the suite.
pub fn baseline_scenarios() -> (r: Vec<TestScenario>)
    ensures
        views(r@) == baseline(),
{
    let mut r: Vec<TestScenario> = Vec::new();
    r.push(TestScenario::new(HANDSHAKE, "initialize → plugin_kind == transport_backend"));
    r.push(
        TestScenario::new(START_SHUTDOWN, "transport/start binds, transport/shutdown releases"),
    );
    r.push(
        TestScenario::new(
            SCHEMA_HEALTH,
            "transport/schema + health/check return well-shaped JSON",
        ),
    );
    r.push(
        TestScenario::new(
            SERVE_AND_ACCEPT,
            "after transport/start, a TCP client can dial bound_addr",
        ),
    );
    assert(views(r@) =~= baseline());
    r
}

/// Begins a run of the suite, where the plugin could be asked to introduce itself.
pub fn begin<E>(probe: Result<InitializeResult, E>) -> (r: Result<Conformance, E>)
    ensures
        match probe {
            Ok(init) => r is Ok && r->Ok_0@ == ConformanceView::fresh(
                init@,
                check_names(baseline()),
            ) && r->Ok_0@.valid(),
            Err(e) => r == Err::<Conformance, E>(e),
        },
{
    Conformance::of_checks(probe, &baseline_scenarios())
}

/// Judges the handshake.
pub fn run_handshake(init: &InitializeResult, duration_ms: u64) -> (r: TestResult)
    ensures
        r@ == bare_result(
            HANDSHAKE@,
            kind_status(init@, TRANSPORT_KIND@),
            duration_ms as int,
            Seq::empty(),
        ),
{
    check_kind(init, TRANSPORT_KIND, duration_ms)
}

/// Shows a value in brief.
pub fn short(v: &Json) -> (r: String)
    ensures
        r@ == brief(v@, SHOWN_BYTES as nat, "…"@),
{
    show_brief(v, SHOWN_BYTES, "…")
}

/// The address on this machine with a given port.
pub open spec fn local_address(port: int) -> Seq<char> {
    "127.0.0.1:"@ + decimal(port as nat)
}

/// Writes the address on this machine with a given port.
pub fn bind_address(port: u16) -> (r: String)
    ensures
        r@ == local_address(port as int),
{
    concat("127.0.0.1:", u64_to_string(port as u64).as_str())
}

/// The call that starts a transport.
pub open spec fn start_view(socket_path: Seq<char>, project_root: Seq<char>, port: int) -> StepView {
    StepView::Call {
        method: "transport/start"@,
        params: JsonView::object().with("control_socket_path"@, JsonView::Text(socket_path)).with(
            "project_root"@,
            JsonView::Text(project_root),
        ).with("bind_addr"@, JsonView::Text(local_address(port))),
        budget_ms: START_BUDGET_MS as int,
    }
}

/// Calls a transport to start.
pub fn start_call(socket_path: &str, project_root: &str, port: u16) -> (r: Step)
    ensures
        r@ == start_view(socket_path@, project_root@, port as int),
{
    let params = Json::object().with("control_socket_path", Json::text(socket_path)).with(
        "project_root",
        Json::text(project_root),
    ).with("bind_addr", Json::Text(bind_address(port)));
    Step::call("transport/start", params, START_BUDGET_MS)
}

/// A call without parameters.
pub open spec fn plain_call(method: Seq<char>) -> StepView {
    StepView::Call { method, params: JsonView::object(), budget_ms: CALL_BUDGET_MS as int }
}

// ---------------------------------------------------------------------------
// Two calls, one after the other
// ---------------------------------------------------------------------------

/// Whether a check with two calls waits for the first or the second answer.
#[derive(Debug, Clone, Copy, PartialEq, Eq, Structural)]
pub enum Stage {
    First,
    Second,
}

/// A check of starting and shutting down under way.
#[derive(Debug, PartialEq)]
pub struct StartShutdown {
    stage: Stage,
    diagnostics: Vec<String>,
}

#[verifier::ext_equal]
pub struct PairView {
    pub stage: Stage,
    pub diagnostics: Seq<Seq<char>>,
}

impl View for StartShutdown {
    type V = PairView;

    closed spec fn view(&self) -> PairView {
        PairView { stage: self.stage, diagnostics: texts(self.diagnostics@) }
    }
}

/// A check that waits for its first answer.
pub open spec fn fresh_pair() -> PairView {
    PairView { stage: Stage::First, diagnostics: Seq::empty() }
}

/// A check after an answer to `transport/start` or `transport/shutdown`. Only the start can fail
/// it.
pub open spec fn start_after(st: PairView, reply: Result<JsonView, Seq<char>>) -> (
    PairView,
    StepView,
) {
    match st.stage {
        Stage::First => match reply {
            Err(e) => (st, StepView::failed("transport/start: "@ + e, st.diagnostics)),
            Ok(v) => (
                PairView {
                    stage: Stage::Second,
                    diagnostics: st.diagnostics.push(
                        "transport/start → "@ + brief(v, SHOWN_BYTES as nat, "…"@),
                    ),
                },
                plain_call("transport/shutdown"@),
            ),
        },
        Stage::Second => {
            let note = match reply {
                Ok(v) => "transport/shutdown → "@ + brief(v, SHOWN_BYTES as nat, "…"@),
                Err(e) => "transport/shutdown errored: "@ + e,
            };
            let notes = st.diagnostics.push(note);
            (PairView { stage: Stage::Second, diagnostics: notes }, StepView::passed(notes))
        },
    }
}

impl StartShutdown {
    /// The check before its first answer.
    pub fn new() -> (r: StartShutdown)
        ensures
            r@ == fresh_pair(),
    {
        StartShutdown { stage: Stage::First, diagnostics: Vec::new() }
    }

    /// Takes an answer.
    pub fn reply(&mut self, reply: &Result<Json, String>) -> (r: Step)
        ensures
            (final(self)@, r@) == start_after(old(self)@, reply_view(*reply)),
    {
        match self.stage {
            Stage::First => match reply {
                Err(e) => Step::failed(
                    concat("transport/start: ", e.as_str()),
                    clone_strings(&self.diagnostics),
                ),
                Ok(v) => {
                    self.stage = Stage::Second;
                    self.diagnostics.push(concat("transport/start → ", short(v).as_str()));
                    Step::call("transport/shutdown", Json::object(), CALL_BUDGET_MS)
                },
            },
            Stage::Second => {
                let note = match reply {
                    Ok(v) => concat("transport/shutdown → ", short(v).as_str()),
                    Err(e) => concat("transport/shutdown errored: ", e.as_str()),
                };
                self.diagnostics.push(note);
                Step::passed(clone_strings(&self.diagnostics))
            },
        }
    }
}

/// Starting and shutting down passes exactly where the start succeeds.
pub proof fn start_shutdown_passes_iff(
    start: Result<JsonView, Seq<char>>,
    shutdown: Result<JsonView, Seq<char>>,
)
    ensures
        ({
            let (after, step) = start_after(fresh_pair(), start);
            if start is Ok {
                &&& step == plain_call("transport/shutdown"@)
                &&& start_after(after, shutdown).1 matches StepView::Done { status, .. }
                    && status is Pass
            } else {
                step matches StepView::Done { status, .. } && status is Fail
            }
        }),
{
}

/// A check of the schema and of the health under way.
#[derive(Debug, PartialEq)]
pub struct SchemaHealth {
    stage: Stage,
    diagnostics: Vec<String>,
}

impl View for SchemaHealth {
    type V = PairView;

    closed spec fn view(&self) -> PairView {
        PairView { stage: self.stage, diagnostics: texts(self.diagnostics@) }
    }
}

/// A check after an answer to `transport/schema` or `health/check`, both of which must succeed.
pub open spec fn health_after(st: PairView, reply: Result<JsonView, Seq<char>>) -> (
    PairView,
    StepView,
) {
    match st.stage {
        Stage::First => match reply {
            Err(e) => (st, StepView::failed("transport/schema: "@ + e, st.diagnostics)),
            Ok(v) => (
                PairView {
                    stage: Stage::Second,
                    diagnostics: st.diagnostics.push(
                        "transport/schema → "@ + brief(v, SHOWN_BYTES as nat, "…"@),
                    ),
                },
                plain_call("health/check"@),
            ),
        },
        Stage::Second => match reply {
            Err(e) => (st, StepView::failed("health/check: "@ + e, st.diagnostics)),
            Ok(v) => {
                let notes = st.diagnostics.push(
                    "health/check → "@ + brief(v, SHOWN_BYTES as nat, "…"@),
                );
                (PairView { stage: Stage::Second, diagnostics: notes }, StepView::passed(notes))
            },
        },
    }
}

impl SchemaHealth {
    /// The check, and its first call.
    pub fn new() -> (r: (SchemaHealth, Step))
        ensures
            r.0@ == fresh_pair(),
            r.1@ == plain_call("transport/schema"@),
    {
        (
            SchemaHealth { stage: Stage::First, diagnostics: Vec::new() },
            Step::call("transport/schema", Json::object(), CALL_BUDGET_MS),
        )
    }

    /// Takes an answer.
    pub fn reply(&mut self, reply: &Result<Json, String>) -> (r: Step)
        ensures
            (final(self)@, r@) == health_after(old(self)@, reply_view(*reply)),
    {
        match self.stage {
            Stage::First => match reply {
                Err(e) => Step::failed(
                    concat("transport/schema: ", e.as_str()),
                    clone_strings(&self.diagnostics),
                ),
                Ok(v) => {
                    self.stage = Stage::Second;
                    self.diagnostics.push(concat("transport/schema → ", short(v).as_str()));
                    Step::call("health/check", Json::object(), CALL_BUDGET_MS)
                },
            },
            Stage::Second => match reply {
                Err(e) => Step::failed(
                    concat("health/check: ", e.as_str()),
                    clone_strings(&self.diagnostics),
                ),
                Ok(v) => {
                    self.diagnostics.push(concat("health/check → ", short(v).as_str()));
                    Step::passed(clone_strings(&self.diagnostics))
                },
            },
        }
    }
}

/// Schema and health pass exactly where both answers are given.
pub proof fn schema_health_passes_iff(
    schema: Result<JsonView, Seq<char>>,
    health: Result<JsonView, Seq<char>>,
)
    ensures
        ({
            let (after, step) = health_after(fresh_pair(), schema);
            if schema is Ok {
                &&& step == plain_call("health/check"@)
                &&& health_after(after, health).1 matches StepView::Done { status, .. } && (status
                    is Pass) == (health is Ok)
            } else {
                step matches StepView::Done { status, .. } && status is Fail
            }
        }),
{
}

// ---------------------------------------------------------------------------
// Serving
// ---------------------------------------------------------------------------

/// What follows the start of a transport that is to serve.
#[derive(Debug, PartialEq)]
pub enum Serve {
    /// Dial the port after a while, and say how that went.
    Dial { port: u16, after_ms: u64 },
    /// Shut the transport down, and end with the status.
    Shutdown(TestStatus),
}

pub enum ServeView {
    Dial { port: int, after_ms: int },
    Shutdown(StatusView),
}

impl View for Serve {
    type V = ServeView;

    open spec fn view(&self) -> ServeView {
        match self {
            Serve::Dial { port, after_ms } => ServeView::Dial {
                port: *port as int,
                after_ms: *after_ms as int,
            },
            Serve::Shutdown(status) => ServeView::Shutdown(status@),
        }
    }
}

/// What follows the answer to `transport/start`: a transport that started is dialled.
pub open spec fn serve_started(port: int, reply: Result<JsonView, Seq<char>>) -> ServeView {
    match reply {
        Ok(_) => ServeView::Dial { port, after_ms: DIAL_DELAY_MS as int },
        Err(e) => ServeView::Shutdown(StatusView::Fail { reason: "transport/start: "@ + e }),
    }
}

/// Takes the answer to `transport/start`.
pub fn serve_reply(port: u16, reply: &Result<Json, String>) -> (r: Serve)
    ensures
        r@ == serve_started(port as int, reply_view(*reply)),
{
    match reply {
        Ok(_) => Serve::Dial { port, after_ms: DIAL_DELAY_MS },
        Err(e) => Serve::Shutdown(
            TestStatus::Fail { reason: concat("transport/start: ", e.as_str()) },
        ),
    }
}

/// How dialling the transport is judged: it must be answered.
pub open spec fn dial_status(port: int, error: Option<Seq<char>>) -> StatusView {
    match error {
        None => StatusView::Pass,
        Some(e) => StatusView::Fail { reason: "dial "@ + local_address(port) + ": "@ + e },
    }
}

/// Judges the dialling of the transport.
pub fn dial_reply(port: u16, error: &Option<String>) -> (r: TestStatus)
    ensures
        r@ == dial_status(port as int, opt_text(*error)),
{
    match error {
        None => TestStatus::Pass,
        Some(e) => {
            let mut m = "dial ".to_owned();
            m.append(bind_address(port).as_str());
            m.append(": ");
            m.append(e.as_str());
            TestStatus::Fail { reason: m }
        },
    }
}

/// Where the check of serving stands.
#[derive(Debug, PartialEq)]
pub enum ServePhase {
    /// The transport is told to start.
    Starting,
    /// The transport has started and is dialled.
    Dialling,
    /// The transport is shut down; how the check ends is settled.
    Closing(TestStatus),
    /// The check has ended.
    Over(TestStatus),
}

pub enum ServePhaseView {
    Starting,
    Dialling,
    Closing(StatusView),
    Over(StatusView),
}

impl View for ServePhase {
    type V = ServePhaseView;

    open spec fn view(&self) -> ServePhaseView {
        match self {
            ServePhase::Starting => ServePhaseView::Starting,
            ServePhase::Dialling => ServePhaseView::Dialling,
            ServePhase::Closing(status) => ServePhaseView::Closing(status@),
            ServePhase::Over(status) => ServePhaseView::Over(status@),
        }
    }
}

/// A check of serving under way.
#[derive(Debug, PartialEq)]
pub struct ServeAndAccept {
    socket_path: String,
    project_root: String,
    port: u16,
    phase: ServePhase,
}

pub struct ServeState {
    pub socket_path: Seq<char>,
    pub project_root: Seq<char>,
    pub port: int,
    pub phase: ServePhaseView,
}

impl View for ServeAndAccept {
    type V = ServeState;

    closed spec fn view(&self) -> ServeState {
        ServeState {
            socket_path: self.socket_path@,
            project_root: self.project_root@,
            port: self.port as int,
            phase: self.phase@,
        }
    }
}

/// What the check of serving does next: make a call or end, or dial a port after a while.
#[derive(Debug, PartialEq)]
pub enum ServeStep {
    Plain(Step),
    Dial { port: u16, after_ms: u64 },
}

pub enum ServeStepView {
    Plain(StepView),
    Dial { port: int, after_ms: int },
}

impl View for ServeStep {
    type V = ServeStepView;

    open spec fn view(&self) -> ServeStepView {
        match self {
            ServeStep::Plain(step) => ServeStepView::Plain(step@),
            ServeStep::Dial { port, after_ms } => ServeStepView::Dial {
                port: *port as int,
                after_ms: *after_ms as int,
            },
        }
    }
}

/// What is done in each phase. A transport is shut down before the check ends, however the check
/// ends.
pub open spec fn serve_step(st: ServeState) -> ServeStepView {
    match st.phase {
        ServePhaseView::Starting => ServeStepView::Plain(
            start_view(st.socket_path, st.project_root, st.port),
        ),
        ServePhaseView::Dialling => ServeStepView::Dial {
            port: st.port,
            after_ms: DIAL_DELAY_MS as int,
        },
        ServePhaseView::Closing(_) => ServeStepView::Plain(plain_call("transport/shutdown"@)),
        ServePhaseView::Over(status) => ServeStepView::Plain(
            StepView::Done { status, diagnostics: Seq::empty() },
        ),
    }
}

/// The check after the answer to its call. What is answered to the shutdown does not count. No
/// answer is awaited in the other phases.
pub open spec fn serve_answered(st: ServeState, reply: Result<JsonView, Seq<char>>) -> ServeState {
    match st.phase {
        ServePhaseView::Starting => match serve_started(st.port, reply) {
            ServeView::Dial { .. } => ServeState { phase: ServePhaseView::Dialling, ..st },
            ServeView::Shutdown(status) => ServeState {
                phase: ServePhaseView::Closing(status),
                ..st
            },
        },
        ServePhaseView::Closing(status) => ServeState { phase: ServePhaseView::Over(status), ..st },
        _ => st,
    }
}

/// The check after the port was dialled, with the error if that failed.
pub open spec fn serve_dialled(st: ServeState, error: Option<Seq<char>>) -> ServeState {
    match st.phase {
        ServePhaseView::Dialling => ServeState {
            phase: ServePhaseView::Closing(dial_status(st.port, error)),
            ..st
        },
        _ => st,
    }
}

impl ServeAndAccept {
    /// The check before its first call.
    pub fn new(socket_path: &str, project_root: &str, port: u16) -> (r: ServeAndAccept)
        ensures
            r@ == (ServeState {
                socket_path: socket_path@,
                project_root: project_root@,
                port: port as int,
                phase: ServePhaseView::Starting,
            }),
    {
        ServeAndAccept {
            socket_path: socket_path.to_owned(),
            project_root: project_root.to_owned(),
            port,
            phase: ServePhase::Starting,
        }
    }

    /// Says what to do next.
    pub fn step(&self) -> (r: ServeStep)
        ensures
            r@ == serve_step(self@),
    {
        match &self.phase {
            ServePhase::Starting => ServeStep::Plain(
                start_call(self.socket_path.as_str(), self.project_root.as_str(), self.port),
            ),
            ServePhase::Dialling => ServeStep::Dial { port: self.port, after_ms: DIAL_DELAY_MS },
            ServePhase::Closing(_) => ServeStep::Plain(
                Step::call("transport/shutdown", Json::object(), CALL_BUDGET_MS),
            ),
            ServePhase::Over(status) => {
                let none: Vec<String> = Vec::new();
                assert(texts(none@) =~= Seq::<Seq<char>>::empty());
                ServeStep::Plain(Step::Done { status: status.copy(), diagnostics: none })
            },
        }
    }

    /// Takes the answer to a call.
    pub fn answer(&mut self, reply: &Result<Json, String>)
        ensures
            final(self)@ == serve_answered(old(self)@, reply_view(*reply)),
    {
        match &self.phase {
            ServePhase::Starting => {
                self.phase = match serve_reply(self.port, reply) {
                    Serve::Dial { .. } => ServePhase::Dialling,
                    Serve::Shutdown(status) => ServePhase::Closing(status),
                };
            },
            ServePhase::Closing(status) => {
                let kept = status.copy();
                self.phase = ServePhase::Over(kept);
            },
            _ => {},
        }
    }

    /// Takes how dialling the port went.
    pub fn dialled(&mut self, error: &Option<String>)
        ensures
            final(self)@ == serve_dialled(old(self)@, opt_text(*error)),
    {
        match &self.phase {
            ServePhase::Dialling => {
                self.phase = ServePhase::Closing(dial_reply(self.port, error));
            },
            _ => {},
        }
    }
}

/// The whole of the check. A transport that starts is dialled; whether it starts or not, and
/// whether it can be dialled or not, it is then shut down with an empty object; and whatever is
/// answered to that, the check passes exactly where the transport started and could be dialled.
pub proof fn serve_and_accept_passes_iff(
    st: ServeState,
    start: Result<JsonView, Seq<char>>,
    dial: Option<Seq<char>>,
    shutdown: Result<JsonView, Seq<char>>,
)
    requires
        st.phase is Starting,
    ensures
        ({
            let started = serve_answered(st, start);
            let closing = serve_dialled(started, dial);
            let over = serve_answered(closing, shutdown);
            &&& serve_step(st) == ServeStepView::Plain(
                start_view(st.socket_path, st.project_root, st.port),
            )
            &&& (start is Ok) == (serve_step(started) is Dial)
            &&& start is Err ==> closing == started
            &&& serve_step(closing) == ServeStepView::Plain(plain_call("transport/shutdown"@))
            &&& serve_step(over) matches ServeStepView::Plain(step)
                && step matches StepView::Done { status, diagnostics }
                && diagnostics.len() == 0 && (status is Pass) == (start is Ok && dial is None)
        }),
{
}

/// What a transport is told when it starts: where its control socket and its project are, and the
/// address on this machine with the given port.
pub proof fn starts_say_where(socket_path: Seq<char>, project_root: Seq<char>, port: int)
    ensures
        start_view(socket_path, project_root, port) matches StepView::Call {
            method,
            params,
            budget_ms,
        } && method == "transport/start"@ && budget_ms == 5_000 && says(
            params,
            "control_socket_path"@,
            socket_path,
        ) && says(params, "project_root"@, project_root) && says(
            params,
            "bind_addr"@,
            "127.0.0.1:"@ + decimal(port as nat),
        ),
{
    start_keys_differ();
}

/// The keys of a start are all different.
proof fn start_keys_differ()
    ensures
        "control_socket_path"@ != "project_root"@,
        "control_socket_path"@ != "bind_addr"@,
        "project_root"@ != "bind_addr"@,
{
    reveal_strlit("control_socket_path");
    reveal_strlit("project_root");
    reveal_strlit("bind_addr");
    assert("control_socket_path"@.len() == 19);
    assert("project_root"@.len() == 12);
    assert("bind_addr"@.len() == 9);
}

/// Starting and shutting down, answer by answer: the start must succeed; then the transport is shut
/// down with an empty object, and however that goes the check passes.
pub proof fn starts_are_followed_by_shutdowns(
    v: JsonView,
    reason: Seq<char>,
    shutdown: Result<JsonView, Seq<char>>,
)
    ensures
        ({
            let (after, step) = start_after(fresh_pair(), Ok(v));
            &&& step matches StepView::Call { method, params, budget_ms } && method
                == "transport/shutdown"@ && params == JsonView::object() && budget_ms == 3_000
            &&& start_after(after, shutdown).1 matches StepView::Done { status, .. }
                && status is Pass
            &&& start_after(fresh_pair(), Err(reason)).1 matches StepView::Done { status, .. }
                && status == (StatusView::Fail { reason: "transport/start: "@ + reason })
        }),
{
}

/// Schema and health, answer by answer: both must succeed, the schema first.
pub proof fn schema_and_health_must_both_succeed(
    schema: JsonView,
    health: Result<JsonView, Seq<char>>,
    reason: Seq<char>,
)
    ensures
        ({
            let (after, step) = health_after(fresh_pair(), Ok(schema));
            &&& step matches StepView::Call { method, params, .. } && method == "health/check"@
                && params == JsonView::object()
            &&& health_after(after, health).1 matches StepView::Done { status, .. } && !(
            status is Skip) && (status is Pass) == (health is Ok)
            &&& health_after(fresh_pair(), Err(reason)).1 matches StepView::Done { status, .. }
                && status is Fail
        }),
{
}

/// A transport that started is dialled on its own port after a while, and passes exactly where that
/// succeeds.
pub proof fn dials_decide(port: int, v: JsonView, reason: Seq<char>)
    ensures
        serve_started(port, Ok(v)) == (ServeView::Dial { port, after_ms: 75 }),
        serve_started(port, Err(reason)) == ServeView::Shutdown(
            StatusView::Fail { reason: "transport/start: "@ + reason },
        ),
        dial_status(port, None) is Pass,
        dial_status(port, Some(reason)) == (StatusView::Fail {
            reason: "dial 127.0.0.1:"@ + decimal(port as nat) + ": "@ + reason,
        }),
{
    dial_texts();
    assert("dial "@ + ("127.0.0.1:"@ + decimal(port as nat)) + ": "@ + reason
        =~= "dial 127.0.0.1:"@ + decimal(port as nat) + ": "@ + reason);
}

proof fn dial_texts()
    ensures
        "dial "@ + "127.0.0.1:"@ == "dial 127.0.0.1:"@,
{
    reveal_strlit("dial ");
    reveal_strlit("127.0.0.1:");
    reveal_strlit("dial 127.0.0.1:");
    assert("dial "@ + "127.0.0.1:"@ =~= "dial 127.0.0.1:"@);
}

/// What came of the start and of the shutdown is noted, each behind what was noted before it.
pub proof fn starts_and_shutdowns_are_noted(st: PairView, v: JsonView, reason: Seq<char>)
    ensures
        st.stage == Stage::First ==> {
            &&& start_after(st, Ok(v)).0.diagnostics == st.diagnostics.push(
                "transport/start → "@ + brief(v, SHOWN_BYTES as nat, "…"@),
            )
            &&& health_after(st, Ok(v)).0.diagnostics == st.diagnostics.push(
                "transport/schema → "@ + brief(v, SHOWN_BYTES as nat, "…"@),
            )
            &&& start_after(st, Err(reason)).1 == (StepView::Done {
                status: StatusView::Fail { reason: "transport/start: "@ + reason },
                diagnostics: st.diagnostics,
            })
            &&& health_after(st, Err(reason)).1 == (StepView::Done {
                status: StatusView::Fail { reason: "transport/schema: "@ + reason },
                diagnostics: st.diagnostics,
            })
        },
        st.stage == Stage::Second ==> {
            &&& start_after(st, Ok(v)).1 == (StepView::Done {
                status: StatusView::Pass,
                diagnostics: st.diagnostics.push(
                    "transport/shutdown → "@ + brief(v, SHOWN_BYTES as nat, "…"@),
                ),
            })
            &&& start_after(st, Err(reason)).1 == (StepView::Done {
                status: StatusView::Pass,
                diagnostics: st.diagnostics.push("transport/shutdown errored: "@ + reason),
            })
            &&& health_after(st, Ok(v)).1 == (StepView::Done {
                status: StatusView::Pass,
                diagnostics: st.diagnostics.push(
                    "health/check → "@ + brief(v, SHOWN_BYTES as nat, "…"@),
                ),
            })
            &&& health_after(st, Err(reason)).1 == (StepView::Done {
                status: StatusView::Fail { reason: "health/check: "@ + reason },
                diagnostics: st.diagnostics,
            })
        },
{
}

} // verus!
