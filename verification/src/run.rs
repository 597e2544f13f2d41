//! One provider scenario from the plugin's introduction to its result.

use crate::codec::{debug_text, json_debug_text, portable, MAX_LEVELS, RAW_VALUE_KEY};
use crate::conformance::{
    each_name_is_reported_once, renamed, result_names, Conformance, ConformanceView,
};
use crate::harness::{
    decode_notification, decode_run_response, holds_response, in_order, meets, notification_of,
    notifications_read_back, response_verdict, responses_are_held_to_demands, responses_read_back,
    run_response_of, search_is_subsequence, sends, validate, verdict, wire_method,
    CANCELLATION_CAPABILITY, CANCEL_REQUEST_ID, REQUEST_CANCELLED, RUN_REQUEST_ID,
};
use crate::json::{Json, JsonView};
use crate::model::{
    env_view, AgentNotification, AgentRunResponse, MatrixReport, Moment, NotificationView,
    ResultView, RunResponseView, ScenarioFile, ScenarioMethod, ScenarioView, StatusView,
    TestResult, TestStatus,
};
use crate::report::{passes, summary_of};
use crate::rpc::{
    brings, decode_response, frame_in, incoming, may_say, opt_json, read_frame, refuses, request,
    request_view, requests_say_what_is_asked, response_of, says, Event, EventView, FrameStep, FrameView, IncomingView, InitializeResult, InitializeResultView,
    RpcError, RpcErrorView, Wording,
};
use crate::text::{
    decimal, group_texts, has_prefix, i64_to_string, list_contains, opt_text, same, signed_decimal,
    starts_with, texts, u64_to_string,
};
use crate::views::{group_views, opt, views};
use vstd::prelude::*;

verus! {

broadcast use {group_views, group_texts};

// ---------------------------------------------------------------------------
// Whether the scenario applies
// ---------------------------------------------------------------------------

/// The first of the wanted capabilities that the plugin does not have.
pub open spec fn first_lacking(wanted: Seq<Seq<char>>, caps: Seq<Seq<char>>) -> Option<Seq<char>>
    decreases wanted.len(),
{
    if wanted.len() == 0 {
        None
    } else if !caps.contains(wanted[0]) {
        Some(wanted[0])
    } else {
        first_lacking(wanted.drop_first(), caps)
    }
}

/// The first of the unwanted capabilities that the plugin has.
pub open spec fn first_present(unwanted: Seq<Seq<char>>, caps: Seq<Seq<char>>) -> Option<Seq<char>>
    decreases unwanted.len(),
{
    if unwanted.len() == 0 {
        None
    } else if caps.contains(unwanted[0]) {
        Some(unwanted[0])
    } else {
        first_present(unwanted.drop_first(), caps)
    }
}

/// Why a scenario does not apply to a plugin with the given capabilities, if it does not: it lacks
/// one that the scenario requires, it has one that the scenario excludes, or it cannot be
/// cancelled and the scenario cancels.
pub open spec fn skip_reason(s: ScenarioView, caps: Seq<Seq<char>>) -> Option<Seq<char>> {
    match first_lacking(s.requires_capabilities, caps) {
        Some(c) => Some("plugin lacks capability `"@ + c + "`"@),
        None => match first_present(s.skip_if_capabilities, caps) {
            Some(c) => Some("plugin advertises capability `"@ + c + "`"@),
            None => if s.cancel_after_ms is Some && !caps.contains(CANCELLATION_CAPABILITY@) {
                Some("plugin lacks capability `"@ + CANCELLATION_CAPABILITY@ + "`"@)
            } else {
                None
            },
        },
    }
}

fn lacking_text(c: &str) -> (r: String)
    ensures
        r@ == "plugin lacks capability `"@ + c@ + "`"@,
{
    let mut m = "plugin lacks capability `".to_owned();
    m.append(c);
    m.append("`");
    m
}

/// Decides whether a scenario is skipped, and why.
pub fn gate(scenario: &ScenarioFile, capabilities: &Vec<String>) -> (r: Option<String>)
    ensures
        opt_text(r) == skip_reason(scenario@, texts(capabilities@)),
{
    let ghost caps = texts(capabilities@);
    let ghost wanted = texts(scenario.requires_capabilities@);
    let mut i: usize = 0;
    assert(wanted.skip(0) =~= wanted);
    while i < scenario.requires_capabilities.len()
        invariant
            i <= scenario.requires_capabilities@.len(),
            caps == texts(capabilities@),
            wanted == texts(scenario.requires_capabilities@),
            first_lacking(wanted, caps) == first_lacking(wanted.skip(i as int), caps),
        decreases scenario.requires_capabilities@.len() - i,
    {
        let c = &scenario.requires_capabilities[i];
        assert(wanted.skip(i as int)[0] == c@);
        assert(wanted.skip(i as int).drop_first() =~= wanted.skip(i + 1));
        if !list_contains(capabilities, c.as_str()) {
            return Some(lacking_text(c.as_str()));
        }
        i += 1;
    }
    let ghost unwanted = texts(scenario.skip_if_capabilities@);
    let mut k: usize = 0;
    assert(unwanted.skip(0) =~= unwanted);
    while k < scenario.skip_if_capabilities.len()
        invariant
            k <= scenario.skip_if_capabilities@.len(),
            caps == texts(capabilities@),
            unwanted == texts(scenario.skip_if_capabilities@),
            first_lacking(texts(scenario.requires_capabilities@), caps) is None,
            first_present(unwanted, caps) == first_present(unwanted.skip(k as int), caps),
        decreases scenario.skip_if_capabilities@.len() - k,
    {
        let c = &scenario.skip_if_capabilities[k];
        assert(unwanted.skip(k as int)[0] == c@);
        assert(unwanted.skip(k as int).drop_first() =~= unwanted.skip(k + 1));
        if list_contains(capabilities, c.as_str()) {
            let mut m = "plugin advertises capability `".to_owned();
            m.append(c.as_str());
            m.append("`");
            return Some(m);
        }
        k += 1;
    }
    if scenario.cancel_after_ms.is_some() && !list_contains(capabilities, CANCELLATION_CAPABILITY) {
        return Some(lacking_text(CANCELLATION_CAPABILITY));
    }
    None
}

proof fn lacking_iff(wanted: Seq<Seq<char>>, caps: Seq<Seq<char>>)
    ensures
        (first_lacking(wanted, caps) is None) == (forall|c: Seq<char>|
            wanted.contains(c) ==> caps.contains(c)),
    decreases wanted.len(),
{
    if wanted.len() > 0 {
        let rest = wanted.drop_first();
        lacking_iff(rest, caps);
        if caps.contains(wanted[0]) {
            if forall|c: Seq<char>| rest.contains(c) ==> caps.contains(c) {
                assert forall|c: Seq<char>| wanted.contains(c) implies caps.contains(c) by {
                    let i = choose|i: int| 0 <= i < wanted.len() && wanted[i] == c;
                    if i > 0 {
                        assert(rest[i - 1] == c);
                    }
                }
            } else {
                let c = choose|c: Seq<char>| rest.contains(c) && !caps.contains(c);
                let i = choose|i: int| 0 <= i < rest.len() && rest[i] == c;
                assert(wanted[i + 1] == c);
            }
        } else {
            assert(wanted.contains(wanted[0]));
        }
    }
}

proof fn present_iff(unwanted: Seq<Seq<char>>, caps: Seq<Seq<char>>)
    ensures
        (first_present(unwanted, caps) is None) == (forall|c: Seq<char>|
            unwanted.contains(c) ==> !caps.contains(c)),
    decreases unwanted.len(),
{
    if unwanted.len() > 0 {
        let rest = unwanted.drop_first();
        present_iff(rest, caps);
        if !caps.contains(unwanted[0]) {
            if forall|c: Seq<char>| rest.contains(c) ==> !caps.contains(c) {
                assert forall|c: Seq<char>| unwanted.contains(c) implies !caps.contains(c) by {
                    let i = choose|i: int| 0 <= i < unwanted.len() && unwanted[i] == c;
                    if i > 0 {
                        assert(rest[i - 1] == c);
                    }
                }
            } else {
                let c = choose|c: Seq<char>| rest.contains(c) && caps.contains(c);
                let i = choose|i: int| 0 <= i < rest.len() && rest[i] == c;
                assert(unwanted[i + 1] == c);
            }
        } else {
            assert(unwanted.contains(unwanted[0]));
        }
    }
}

/// A scenario runs exactly where the plugin advertises everything that it requires, nothing that
/// it excludes, and, if it cancels, that it can be cancelled.
pub proof fn runs_iff_capabilities_fit(s: ScenarioView, caps: Seq<Seq<char>>)
    ensures
        (skip_reason(s, caps) is None) == {
            &&& forall|c: Seq<char>| s.requires_capabilities.contains(c) ==> caps.contains(c)
            &&& forall|c: Seq<char>| s.skip_if_capabilities.contains(c) ==> !caps.contains(c)
            &&& s.cancel_after_ms is Some ==> caps.contains(CANCELLATION_CAPABILITY@)
        },
{
    lacking_iff(s.requires_capabilities, caps);
    present_iff(s.skip_if_capabilities, caps);
}

// ---------------------------------------------------------------------------
// The request
// ---------------------------------------------------------------------------

/// The script that the mock plays: the one that the scenario names, or the one named like it.
pub open spec fn mock_script(s: ScenarioView) -> Seq<char> {
    match s.mock.mock_scenario {
        Some(m) => m,
        None => s.name,
    }
}

/// Names the script that the mock plays.
pub fn mock_scenario_of(scenario: &ScenarioFile) -> (r: String)
    ensures
        r@ == mock_script(scenario@),
{
    match &scenario.mock.mock_scenario {
        Some(m) => m.clone(),
        None => scenario.name.clone(),
    }
}

/// A field that is there where its text is.
pub open spec fn with_text(v: JsonView, key: Seq<char>, value: Option<Seq<char>>) -> JsonView {
    match value {
        Some(s) => v.with(key, JsonView::Text(s)),
        None => v,
    }
}

fn add_text(v: Json, key: &str, value: &Option<String>) -> (r: Json)
    ensures
        r@ == with_text(v@, key@, opt_text(*value)),
{
    match value {
        Some(s) => v.with(key, Json::Text(s.clone())),
        None => v,
    }
}

/// An object of strings.
pub open spec fn env_object(env: Map<Seq<char>, Seq<char>>) -> JsonView {
    JsonView::Object(env.map_values(|t: Seq<char>| JsonView::Text(t)))
}

/// The environment of a run: the scenario's, in which the mock's script is named unless the
/// scenario names it itself.
pub open spec fn run_env(s: ScenarioView) -> Map<Seq<char>, Seq<char>> {
    if s.request.env.dom().contains("MOCK_SCENARIO"@) {
        s.request.env
    } else {
        s.request.env.insert("MOCK_SCENARIO"@, mock_script(s))
    }
}

proof fn env_object_insert(env: Map<Seq<char>, Seq<char>>, key: Seq<char>, value: Seq<char>)
    ensures
        env_object(env.insert(key, value)) == env_object(env).with(key, JsonView::Text(value)),
{
    let f = |t: Seq<char>| JsonView::Text(t);
    assert(env.insert(key, value).map_values(f) =~= env.map_values(f).insert(key, f(value)));
}

fn build_env(scenario: &ScenarioFile) -> (r: Json)
    ensures
        r@ == env_object(run_env(scenario@)),
{
    let env = &scenario.request.env;
    let mut object = Json::object();
    let mut named: bool = false;
    let mut i: usize = 0;
    assert(env@.take(0) =~= Seq::<(String, String)>::empty());
    assert(object@ =~= env_object(Map::empty())) by {
        let f = |t: Seq<char>| JsonView::Text(t);
        assert(Map::<Seq<char>, Seq<char>>::empty().map_values(f) =~= Map::empty());
    }
    while i < env.len()
        invariant
            i <= env@.len(),
            object@ == env_object(env_view(env@.take(i as int))),
            named == env_view(env@.take(i as int)).dom().contains("MOCK_SCENARIO"@),
        decreases env@.len() - i,
    {
        let ghost head = env_view(env@.take(i as int));
        assert(env@.take(i + 1).drop_last() =~= env@.take(i as int));
        proof {
            env_object_insert(head, env@[i as int].0@, env@[i as int].1@);
        }
        if same(env[i].0.as_str(), "MOCK_SCENARIO") {
            named = true;
        }
        object = object.with(env[i].0.as_str(), Json::Text(env[i].1.clone()));
        i += 1;
    }
    assert(env@.take(i as int) =~= env@);
    if named {
        object
    } else {
        let script = mock_scenario_of(scenario);
        proof {
            env_object_insert(env_view(env@), "MOCK_SCENARIO"@, script@);
        }
        object.with("MOCK_SCENARIO", Json::Text(script))
    }
}

/// The whole seconds that a plugin is told it may take: at least one.
pub open spec fn timeout_secs(timeout_ms: int) -> int {
    if timeout_ms < 1000 {
        1
    } else {
        timeout_ms / 1000
    }
}

/// The parameters of the run request.
pub open spec fn run_params(s: ScenarioView) -> JsonView {
    let cwd = match s.request.cwd {
        Some(c) => c,
        None => "."@,
    };
    let a = JsonView::object().with("prompt"@, JsonView::Text(s.request.prompt)).with(
        "cwd"@,
        JsonView::Text(cwd),
    );
    let b = with_text(a, "model"@, s.request.model);
    let c = with_text(b, "system_prompt"@, s.request.system_prompt);
    let d = with_text(c, "session_id"@, s.request.session_id);
    d.with("env"@, env_object(run_env(s))).with(
        "timeout_secs"@,
        JsonView::Int(timeout_secs(s.timeout_ms)),
    )
}

/// The method of the run request.
pub open spec fn run_method(m: ScenarioMethod) -> Seq<char> {
    match m {
        ScenarioMethod::Run => "agent/run"@,
        ScenarioMethod::Resume => "agent/resume"@,
    }
}

/// Builds the run request.
pub fn run_request(scenario: &ScenarioFile) -> (r: Json)
    ensures
        r@ == request_view(RUN_REQUEST_ID as int, run_method(scenario.method), run_params(scenario@)),
{
    let method = match scenario.method {
        ScenarioMethod::Run => "agent/run",
        ScenarioMethod::Resume => "agent/resume",
    };
    let cwd = match &scenario.request.cwd {
        Some(c) => c.clone(),
        None => ".".to_owned(),
    };
    let a = Json::object().with("prompt", Json::Text(scenario.request.prompt.clone())).with(
        "cwd",
        Json::Text(cwd),
    );
    let b = add_text(a, "model", &scenario.request.model);
    let c = add_text(b, "system_prompt", &scenario.request.system_prompt);
    let d = add_text(c, "session_id", &scenario.request.session_id);
    let secs: u64 = if scenario.timeout_ms < 1000 {
        1
    } else {
        scenario.timeout_ms / 1000
    };
    let params = d.with("env", build_env(scenario)).with("timeout_secs", Json::Unsigned(secs));
    request(RUN_REQUEST_ID, method, params)
}

// ---------------------------------------------------------------------------
// The run
// ---------------------------------------------------------------------------

/// How a run came to its end.
#[derive(Debug, PartialEq)]
pub enum Ending {
    /// It broke off before the plugin answered.
    Broken(String),
    /// The plugin answered with an error.
    Refused(RpcError),
    /// The plugin answered, with a run response where it could be read.
    Answered(Option<AgentRunResponse>),
    /// The plugin gave up, by a notification, on a run that was to be cancelled.
    GaveUp,
}

#[verifier::ext_equal]
pub enum EndingView {
    Broken(Seq<char>),
    Refused(RpcErrorView),
    Answered(Option<RunResponseView>),
    GaveUp,
}

impl View for Ending {
    type V = EndingView;

    open spec fn view(&self) -> EndingView {
        match self {
            Ending::Broken(m) => EndingView::Broken(m@),
            Ending::Refused(e) => EndingView::Refused(e@),
            Ending::Answered(r) => EndingView::Answered(opt(*r)),
            Ending::GaveUp => EndingView::GaveUp,
        }
    }
}

/// A run under way, from the moment the run request is sent. Times are milliseconds since then.
pub struct ScenarioRun {
    scenario: ScenarioFile,
    log: Vec<AgentNotification>,
    diagnostics: Vec<String>,
    session: Option<(String, u64)>,
    cancel_sent: bool,
    ending: Option<Ending>,
}

/// What a run holds: what the plugin sent, and, where the run is to be cancelled, the session and
/// when it was learned, and whether the cancellation is out.
#[verifier::ext_equal]
pub struct RunView {
    pub scenario: ScenarioView,
    pub log: Seq<NotificationView>,
    pub diagnostics: Seq<Seq<char>>,
    pub session: Option<(Seq<char>, int)>,
    pub cancel_sent: bool,
    pub ending: Option<EndingView>,
}

impl View for ScenarioRun {
    type V = RunView;

    closed spec fn view(&self) -> RunView {
        RunView {
            scenario: self.scenario@,
            log: views(self.log@),
            diagnostics: texts(self.diagnostics@),
            session: match self.session {
                Some((s, at)) => Some((s@, at as int)),
                None => None,
            },
            cancel_sent: self.cancel_sent,
            ending: opt(self.ending),
        }
    }
}

/// A run that has just begun.
pub open spec fn fresh_run(s: ScenarioView) -> RunView {
    RunView {
        scenario: s,
        log: Seq::empty(),
        diagnostics: Seq::empty(),
        session: None,
        cancel_sent: false,
        ending: None,
    }
}

/// A run with one more diagnostic.
pub open spec fn noted(st: RunView, note: Seq<char>) -> RunView {
    RunView { diagnostics: st.diagnostics.push(note), ..st }
}

/// A run that has ended.
pub open spec fn ended(st: RunView, ending: EndingView) -> RunView {
    RunView { ending: Some(ending), ..st }
}

/// A run after a notification. Only a run that is to be cancelled looks for its session, and ends
/// when the plugin gives up.
pub open spec fn after_notification(st: RunView, n: NotificationView, now: int) -> RunView {
    let kept = RunView { log: st.log.push(n), ..st };
    if st.scenario.cancel_after_ms is None {
        kept
    } else {
        let met = if st.session is None && n.session().len() > 0 {
            RunView { session: Some((n.session(), now)), ..kept }
        } else {
            kept
        };
        if n.is_fatal() {
            ended(met, EndingView::GaveUp)
        } else {
            met
        }
    }
}

/// How an id is shown in a diagnostic.
pub open spec fn id_text(id: Option<JsonView>) -> Seq<char> {
    match id {
        None => "None"@,
        Some(v) => "Some("@ + json_debug_text(v) + ")"@,
    }
}

/// A run after a frame with an id. The answer to the run request ends the run; anything else is
/// noted.
pub open spec fn after_response(st: RunView, frame: JsonView) -> RunView {
    match response_of(frame) {
        Err(e) => noted(st, "malformed response frame: "@ + e),
        Ok(r) => if r.id != Some(JsonView::Int(RUN_REQUEST_ID as int)) {
            noted(st, "ignored response with id "@ + id_text(r.id))
        } else {
            match r.error {
                Some(e) => ended(st, EndingView::Refused(e)),
                None => match r.result {
                    None => ended(st, EndingView::Answered(None)),
                    Some(v) => match run_response_of(v) {
                        Ok(response) => ended(st, EndingView::Answered(Some(response))),
                        Err(e) => ended(
                            noted(st, "response did not match AgentRunResponse: "@ + e),
                            EndingView::Answered(None),
                        ),
                    },
                },
            }
        },
    }
}

/// A run after a frame. Methods that begin with `$/` are none of its business.
pub open spec fn after_frame(st: RunView, frame: JsonView, now: int) -> RunView {
    if frame.get("id"@) is Some {
        after_response(st, frame)
    } else {
        match frame.text_at("method"@) {
            None => st,
            Some(method) => if has_prefix(method, "$/"@) {
                st
            } else {
                match notification_of(method, frame.get_or_null("params"@)) {
                    Some(n) => after_notification(st, n, now),
                    None => noted(st, "unrecognized notification: "@ + method),
                }
            },
        }
    }
}

/// How the harness words what can go wrong while it reads.
pub open spec fn harness_words() -> Wording {
    Wording {
        closed: "plugin stdout closed unexpectedly",
        invalid: "invalid JSON-RPC frame: ",
        late: "timed out waiting for initialize response",
    }
}

/// The wording of the harness.
pub fn harness_wording() -> (r: Wording)
    ensures
        r == harness_words(),
{
    Wording {
        closed: "plugin stdout closed unexpectedly",
        invalid: "invalid JSON-RPC frame: ",
        late: "timed out waiting for initialize response",
    }
}

/// A run after an event. That nothing arrived changes nothing: whether time is up is asked before
/// each wait.
pub open spec fn received(st: RunView, event: EventView, now: int) -> RunView {
    if st.ending is Some || event is Quiet {
        st
    } else {
        match frame_in(event, harness_words()) {
            FrameView::Again => st,
            FrameView::Frame(v) => after_frame(st, v, now),
            FrameView::Failed(m) => ended(st, EndingView::Broken("read: "@ + m)),
        }
    }
}

/// What is to be done next.
#[derive(Debug, PartialEq)]
pub enum Action {
    /// Send a frame.
    Send(Json),
    /// Wait this many milliseconds for the next line.
    Wait(u64),
    /// Nothing: the run has ended.
    Finished,
}

pub enum ActionView {
    Send(JsonView),
    Wait(int),
    Finished,
}

impl View for Action {
    type V = ActionView;

    open spec fn view(&self) -> ActionView {
        match self {
            Action::Send(j) => ActionView::Send(j@),
            Action::Wait(ms) => ActionView::Wait(*ms as int),
            Action::Finished => ActionView::Finished,
        }
    }
}

/// In how many milliseconds the cancellation is due, where one is outstanding.
pub open spec fn cancel_due_in(st: RunView, now: int) -> Option<int> {
    match (st.scenario.cancel_after_ms, st.session) {
        (Some(delay), Some((_, at))) => if st.cancel_sent {
            None
        } else {
            Some(at + delay - now)
        },
        _ => None,
    }
}

/// The cancel request for a session.
pub open spec fn cancel_view(session: Seq<char>) -> JsonView {
    request_view(
        CANCEL_REQUEST_ID as int,
        "agent/cancel"@,
        JsonView::object().with("session_id"@, JsonView::Text(session)),
    )
}

/// What a run does next, and the run after that. When its time is up it breaks off; a cancellation
/// that is due goes out; otherwise it waits until the first of these.
pub open spec fn next_action(st: RunView, now: int) -> (RunView, ActionView) {
    let left = st.scenario.timeout_ms - now;
    if st.ending is Some {
        (st, ActionView::Finished)
    } else if left <= 0 {
        (
            ended(
                st,
                EndingView::Broken(
                    "timeout after "@ + decimal(st.scenario.timeout_ms as nat) + "ms"@,
                ),
            ),
            ActionView::Finished,
        )
    } else {
        match cancel_due_in(st, now) {
            Some(due) => if due <= 0 {
                (RunView { cancel_sent: true, ..st }, ActionView::Send(cancel_view((st.session->0).0)))
            } else if due < left {
                (st, ActionView::Wait(due))
            } else {
                (st, ActionView::Wait(left))
            },
            None => (st, ActionView::Wait(left)),
        }
    }
}

/// How a run that ended is judged. One that was to be cancelled passes where the plugin ended it
/// as cancelled, or gave up, within its time; it counts how the run ended, not whether the
/// cancellation was out by then. Any other passes where it answered what the scenario expects.
pub open spec fn status_of(st: RunView, ending: EndingView) -> StatusView {
    match ending {
        EndingView::Broken(reason) => StatusView::Fail { reason },
        EndingView::Refused(e) => if st.scenario.cancel_after_ms is Some && e.code
            == REQUEST_CANCELLED {
            StatusView::Pass
        } else {
            StatusView::Fail {
                reason: "plugin returned error: "@ + e.message + " (code "@ + signed_decimal(e.code)
                    + ")"@,
            }
        },
        EndingView::Answered(response) => if st.scenario.cancel_after_ms is Some {
            StatusView::Fail { reason: "run ended without being cancelled"@ }
        } else {
            match verdict(
                st.scenario.expected_notifications,
                st.scenario.expected_response,
                st.log,
                response,
            ) {
                Ok(_) => StatusView::Pass,
                Err(reason) => StatusView::Fail { reason },
            }
        },
        EndingView::GaveUp => StatusView::Pass,
    }
}

/// The result of a run, once it has ended. One that broke off keeps its notifications only.
pub open spec fn result_of(st: RunView, duration_ms: int) -> Option<ResultView> {
    match st.ending {
        None => None,
        Some(ending) => Some(
            ResultView {
                scenario: st.scenario.name,
                status: status_of(st, ending),
                duration_ms,
                notification_log: st.log,
                response: match ending {
                    EndingView::Answered(response) => response,
                    _ => None,
                },
                diagnostics: if ending is Broken {
                    Seq::empty()
                } else {
                    st.diagnostics
                },
            },
        ),
    }
}

impl ScenarioRun {
    /// Begins a run.
    pub fn new(scenario: ScenarioFile) -> (r: ScenarioRun)
        ensures
            r@ == fresh_run(scenario@),
    {
        ScenarioRun {
            scenario,
            log: Vec::new(),
            diagnostics: Vec::new(),
            session: None,
            cancel_sent: false,
            ending: None,
        }
    }

    fn note(&mut self, prefix: &str, detail: &str)
        ensures
            final(self)@ == noted(old(self)@, prefix@ + detail@),
    {
        let mut m = prefix.to_owned();
        m.append(detail);
        self.diagnostics.push(m);
    }

    fn notify(&mut self, n: AgentNotification, now: u64)
        ensures
            final(self)@ == after_notification(old(self)@, n@, now as int),
    {
        if self.scenario.cancel_after_ms.is_some() {
            if self.session.is_none() && !n.session().is_empty() {
                self.session = Some((n.session().to_owned(), now));
            }
            if n.is_fatal() {
                self.ending = Some(Ending::GaveUp);
            }
        }
        self.log.push(n);
    }

    fn respond(&mut self, frame: &Json)
        ensures
            final(self)@ == after_response(old(self)@, frame@),
    {
        match decode_response(frame) {
            Err(e) => self.note("malformed response frame: ", e.as_str()),
            Ok(r) => {
                let ours = match &r.id {
                    Some(id) => id.is_number(RUN_REQUEST_ID),
                    None => false,
                };
                if !ours {
                    let id = show_id(&r.id);
                    self.note("ignored response with id ", id.as_str());
                    return ;
                }
                match r.error {
                    Some(e) => {
                        self.ending = Some(Ending::Refused(e));
                    },
                    None => match r.result {
                        None => {
                            self.ending = Some(Ending::Answered(None));
                        },
                        Some(v) => match decode_run_response(&v) {
                            Ok(response) => {
                                self.ending = Some(Ending::Answered(Some(response)));
                            },
                            Err(e) => {
                                self.note(
                                    "response did not match AgentRunResponse: ",
                                    e.as_str(),
                                );
                                self.ending = Some(Ending::Answered(None));
                            },
                        },
                    },
                }
            },
        }
    }

    fn take_frame(&mut self, frame: &Json, now: u64)
        ensures
            final(self)@ == after_frame(old(self)@, frame@, now as int),
    {
        if frame.get("id").is_some() {
            self.respond(frame);
            return ;
        }
        match frame.text_at("method") {
            None => {},
            Some(method) => {
                if !starts_with(method, "$/") {
                    let params = frame.get_or_null("params");
                    match decode_notification(method, &params) {
                        Some(n) => self.notify(n, now),
                        None => self.note("unrecognized notification: ", method),
                    }
                }
            },
        }
    }

    /// Takes an event.
    pub fn receive(&mut self, event: Event, now: u64)
        ensures
            final(self)@ == received(old(self)@, event@, now as int),
    {
        if self.ending.is_some() {
            return ;
        }
        match event {
            Event::Quiet => {},
            other => match read_frame(other, &harness_wording()) {
                FrameStep::Again => {},
                FrameStep::Frame(v) => self.take_frame(&v, now),
                FrameStep::Failed(m) => {
                    let mut reason = "read: ".to_owned();
                    reason.append(m.as_str());
                    self.ending = Some(Ending::Broken(reason));
                },
            },
        }
    }

    /// Decides what to do next.
    pub fn next(&mut self, now: u64) -> (r: Action)
        ensures
            (final(self)@, r@) == next_action(old(self)@, now as int),
    {
        if self.ending.is_some() {
            return Action::Finished;
        }
        let timeout: u64 = self.scenario.timeout_ms;
        if now >= timeout {
            let mut m = "timeout after ".to_owned();
            m.append(u64_to_string(timeout).as_str());
            m.append("ms");
            self.ending = Some(Ending::Broken(m));
            return Action::Finished;
        }
        let left: u64 = timeout - now;
        if self.cancel_sent {
            return Action::Wait(left);
        }
        match self.scenario.cancel_after_ms {
            None => Action::Wait(left),
            Some(delay) => match &self.session {
                None => Action::Wait(left),
                Some((session, at)) => {
                    let due: u128 = *at as u128 + delay as u128;
                    if due <= now as u128 {
                        let frame = request(
                            CANCEL_REQUEST_ID,
                            "agent/cancel",
                            Json::object().with("session_id", Json::Text(session.clone())),
                        );
                        self.cancel_sent = true;
                        Action::Send(frame)
                    } else if due - (now as u128) < left as u128 {
                        Action::Wait((due - now as u128) as u64)
                    } else {
                        Action::Wait(left)
                    }
                },
            },
        }
    }

    /// The result of the run, once it has ended.
    pub fn finish(self, duration_ms: u64) -> (r: Option<TestResult>)
        ensures
            opt(r) == result_of(self@, duration_ms as int),
    {
        let cancels = self.scenario.cancel_after_ms.is_some();
        let none: Vec<String> = Vec::new();
        let ghost st = self@;
        let (status, response, diagnostics) = match self.ending {
            None => {
                return None;
            },
            Some(Ending::Broken(reason)) => (TestStatus::Fail { reason }, None, none),
            Some(Ending::Refused(e)) => {
                if cancels && e.code == REQUEST_CANCELLED {
                    (TestStatus::Pass, None, self.diagnostics)
                } else {
                    let mut m = "plugin returned error: ".to_owned();
                    m.append(e.message.as_str());
                    m.append(" (code ");
                    m.append(i64_to_string(e.code).as_str());
                    m.append(")");
                    (TestStatus::Fail { reason: m }, None, self.diagnostics)
                }
            },
            Some(Ending::Answered(response)) => {
                if cancels {
                    (
                        TestStatus::Fail {
                            reason: "run ended without being cancelled".to_owned(),
                        },
                        response,
                        self.diagnostics,
                    )
                } else {
                    match validate(&self.scenario, &self.log, &response) {
                        Ok(_) => (TestStatus::Pass, response, self.diagnostics),
                        Err(reason) => (TestStatus::Fail { reason }, response, self.diagnostics),
                    }
                }
            },
            Some(Ending::GaveUp) => (TestStatus::Pass, None, self.diagnostics),
        };
        Some(
            TestResult {
                scenario: self.scenario.name,
                status,
                duration_ms,
                notification_log: self.log,
                response,
                diagnostics,
            },
        )
    }
}

fn show_id(id: &Option<Json>) -> (r: String)
    ensures
        r@ == id_text(opt_json(*id)),
{
    match id {
        None => "None".to_owned(),
        Some(v) => {
            let mut m = "Some(".to_owned();
            m.append(debug_text(v).as_str());
            m.append(")");
            m
        },
    }
}

// ---------------------------------------------------------------------------
// Before the run
// ---------------------------------------------------------------------------

/// A step before the run that can fail.
#[derive(Debug, Clone, Copy, PartialEq, Eq, Structural)]
pub enum Stage {
    Spawn,
    Initialize,
    Send,
}

/// How a failure of a step is introduced.
pub open spec fn stage_text(stage: Stage) -> Seq<char> {
    match stage {
        Stage::Spawn => "spawn: "@,
        Stage::Initialize => "initialize: "@,
        Stage::Send => "send request: "@,
    }
}

/// Whether a scenario is asked for.
pub open spec fn is_wanted(only: Option<Seq<char>>, s: ScenarioView) -> bool {
    only matches Some(name) ==> s.name == name
}

/// The scenarios that are asked for, in their order.
pub fn select_scenarios(scenarios: Vec<ScenarioFile>, only: &Option<String>) -> (r: Vec<
    ScenarioFile,
>)
    ensures
        views(r@) == views(scenarios@).filter(|s: ScenarioView| is_wanted(opt_text(*only), s)),
{
    let ghost all = views(scenarios@);
    let ghost wanted = |s: ScenarioView| is_wanted(opt_text(*only), s);
    let total: usize = scenarios.len();
    let mut rest = scenarios;
    let mut kept: Vec<ScenarioFile> = Vec::new();
    proof {
        reveal(Seq::filter);
    }
    assert(all.take(0) =~= Seq::<ScenarioView>::empty());
    let mut i: usize = 0;
    while rest.len() > 0
        invariant
            i + rest@.len() == all.len(),
            all.len() == total,
            views(rest@) == all.skip(i as int),
            wanted == (|s: ScenarioView| is_wanted(opt_text(*only), s)),
            views(kept@) == all.take(i as int).filter(wanted),
        decreases rest@.len(),
    {
        let ghost before = rest@;
        let s = rest.remove(0);
        proof {
            reveal(Seq::filter);
            assert(all.skip(i as int)[0] == before[0]@);
            assert(s@ == all[i as int]);
            assert(all.take(i + 1).drop_last() =~= all.take(i as int));
            assert forall|k: int| 0 <= k < rest@.len() implies views(rest@)[k] == all.skip(i + 1)[k] by {
                assert(rest@[k] == before[k + 1]);
                assert(views(before)[k + 1] == all.skip(i as int)[k + 1]);
            }
            assert(views(rest@) =~= all.skip(i + 1));
        }
        let keep = match only {
            Some(name) => same(s.name.as_str(), name.as_str()),
            None => true,
        };
        if keep {
            kept.push(s);
        }
        i += 1;
    }
    assert(all.take(i as int) =~= all);
    kept
}

/// The names of scenarios.
pub open spec fn scenario_names(scenarios: Seq<ScenarioView>) -> Seq<Seq<char>> {
    scenarios.map_values(|s: ScenarioView| s.name)
}

/// A run of every scenario that is asked for.
pub struct MatrixRun {
    scenarios: Vec<ScenarioFile>,
    reported: Conformance,
}

/// What such a run holds: the scenarios, and what is reported on them.
#[verifier::ext_equal]
pub struct MatrixRunView {
    pub scenarios: Seq<ScenarioView>,
    pub reported: ConformanceView,
}

impl View for MatrixRun {
    type V = MatrixRunView;

    closed spec fn view(&self) -> MatrixRunView {
        MatrixRunView { scenarios: views(self.scenarios@), reported: self.reported@ }
    }
}

impl MatrixRunView {
    /// A run of the scenarios that are asked for, before the first.
    pub open spec fn fresh(
        init: InitializeResultView,
        scenarios: Seq<ScenarioView>,
        only: Option<Seq<char>>,
    ) -> MatrixRunView {
        let wanted = scenarios.filter(|s: ScenarioView| is_wanted(only, s));
        MatrixRunView {
            scenarios: wanted,
            reported: ConformanceView::fresh(init, scenario_names(wanted)),
        }
    }

    /// Whether the report is on the scenarios.
    pub open spec fn valid(self) -> bool {
        self.reported.valid() && self.reported.names == scenario_names(self.scenarios)
    }

    /// The run with one more result.
    pub open spec fn with(self, r: ResultView) -> MatrixRunView {
        MatrixRunView { reported: self.reported.with(r), ..self }
    }
}

impl MatrixRun {
    /// Begins a run of the scenarios that are asked for, where the plugin could be asked to
    /// introduce itself. Where it could not, no scenario is run.
    pub fn begin<E>(
        probe: Result<InitializeResult, E>,
        scenarios: Vec<ScenarioFile>,
        only: &Option<String>,
    ) -> (r: Result<MatrixRun, E>)
        ensures
            match probe {
                Ok(init) => r is Ok && r->Ok_0@ == MatrixRunView::fresh(
                    init@,
                    views(scenarios@),
                    opt_text(*only),
                ) && r->Ok_0@.valid(),
                Err(e) => r == Err::<MatrixRun, E>(e),
            },
    {
        let wanted = select_scenarios(scenarios, only);
        let ghost all = scenario_names(views(wanted@));
        let mut names: Vec<String> = Vec::new();
        let mut i: usize = 0;
        assert(all.take(0) =~= texts(names@));
        while i < wanted.len()
            invariant
                i <= wanted@.len(),
                all == scenario_names(views(wanted@)),
                texts(names@) == all.take(i as int),
            decreases wanted@.len() - i,
        {
            assert(all.take(i + 1) =~= all.take(i as int).push(wanted@[i as int].name@));
            names.push(wanted[i].name.clone());
            i += 1;
        }
        assert(all.take(i as int) =~= all);
        match Conformance::begin(probe, names) {
            Ok(reported) => Ok(MatrixRun { scenarios: wanted, reported }),
            Err(e) => Err(e),
        }
    }

    /// The scenario whose turn it is, if any is left.
    pub fn next(&self) -> (r: Option<&ScenarioFile>)
        requires
            self@.valid(),
        ensures
            match r {
                Some(s) => !self@.reported.complete() && s@
                    == self@.scenarios[self@.reported.results.len() as int],
                None => self@.reported.complete(),
            },
    {
        let k: usize = self.reported.recorded();
        if k < self.scenarios.len() {
            Some(&self.scenarios[k])
        } else {
            None
        }
    }

    /// Records the result of the scenario whose turn it is.
    pub fn record(&mut self, result: TestResult)
        ensures
            final(self)@ == old(self)@.with(result@),
            old(self)@.valid() ==> final(self)@.valid(),
    {
        self.reported.record(result);
    }

    /// The report, once every scenario has its result: there is one result on each scenario, in
    /// their order, and the summary counts them.
    pub fn finish(self, started_at: Moment, finished_at: Moment) -> (r: Option<MatrixReport>)
        requires
            self@.valid(),
        ensures
            match r {
                Some(report) => {
                    &&& self@.reported.complete()
                    &&& report@ == self@.reported.report(started_at, finished_at)
                    &&& result_names(report@.scenarios) == scenario_names(self@.scenarios)
                    &&& report@.summary == summary_of(report@.scenarios)
                },
                None => !self@.reported.complete(),
            },
    {
        self.reported.finish(started_at, finished_at)
    }
}

// ---------------------------------------------------------------------------
// Laws
// ---------------------------------------------------------------------------

/// A run of a list of scenarios reports exactly on those that are asked for, in their order, with
/// one result each, and its summary counts these results. Where none is asked for by that name the
/// report is empty, and does not pass.
pub proof fn wanted_scenarios_are_reported(
    init: InitializeResultView,
    scenarios: Seq<ScenarioView>,
    only: Option<Seq<char>>,
    outcomes: Seq<ResultView>,
    started_at: Moment,
    finished_at: Moment,
)
    requires
        outcomes.len() == scenarios.filter(|s: ScenarioView| is_wanted(only, s)).len(),
    ensures
        ({
            let run = MatrixRunView::fresh(init, scenarios, only).reported.with_all(outcomes);
            let report = run.report(started_at, finished_at);
            let wanted = scenarios.filter(|s: ScenarioView| is_wanted(only, s));
            &&& run.complete()
            &&& result_names(report.scenarios) == scenario_names(wanted)
            &&& forall|i: int|
                0 <= i < outcomes.len() ==> #[trigger] report.scenarios[i] == renamed(
                    outcomes[i],
                    wanted[i].name,
                )
            &&& report.summary == summary_of(report.scenarios)
            &&& (forall|i: int|
                0 <= i < scenarios.len() ==> !is_wanted(only, #[trigger] scenarios[i])) ==> {
                &&& report.scenarios.len() == 0
                &&& !passes(report.summary)
            }
        }),
{
    let wanted = scenarios.filter(|s: ScenarioView| is_wanted(only, s));
    let names = scenario_names(wanted);
    each_name_is_reported_once(init, names, outcomes, started_at, finished_at);
    assert forall|i: int| 0 <= i < outcomes.len() implies names[i] == wanted[i].name by {}
    if forall|i: int| 0 <= i < scenarios.len() ==> !is_wanted(only, #[trigger] scenarios[i]) {
        if wanted.len() > 0 {
            broadcast use vstd::seq_lib::group_filter_ensures;

            scenarios.lemma_filter_contains_rev(
                |s: ScenarioView| is_wanted(only, s),
                wanted[0],
            );
            let k = choose|k: int| 0 <= k < scenarios.len() && scenarios[k] == wanted[0];
            assert(is_wanted(only, wanted[0]));
            assert(is_wanted(only, scenarios[k]));
        }
    }
}

/// Once a run has ended, neither events nor time change it.
pub proof fn ended_runs_stay(st: RunView, event: EventView, now: int)
    requires
        st.ending is Some,
    ensures
        received(st, event, now) == st,
        next_action(st, now) == (st, ActionView::Finished),
{
}

/// Notifications are kept in the order in which they came: what was logged stays.
pub proof fn log_only_grows(st: RunView, event: EventView, now: int)
    ensures
        st.log.is_prefix_of(received(st, event, now).log),
        received(st, event, now).log.len() <= st.log.len() + 1,
        next_action(st, now).0.log == st.log,
{
}

/// A cancellation goes out at most once, and only for the session that the plugin named, after
/// the delay that the scenario sets, and before its time is up.
pub proof fn cancels_once(st: RunView, event: EventView, now: int)
    ensures
        received(st, event, now).cancel_sent == st.cancel_sent,
        match next_action(st, now) {
            (after, ActionView::Send(frame)) => {
                &&& !st.cancel_sent
                &&& after.cancel_sent
                &&& st.session matches Some((session, _)) && frame == cancel_view(session)
                &&& cancel_due_in(st, now) matches Some(due) && due <= 0
                &&& now < st.scenario.timeout_ms
            },
            (after, _) => after.cancel_sent == st.cancel_sent,
        },
{
}

/// A run is never made to wait for nothing, nor past the end of its time.
pub proof fn waits_within_time(st: RunView, now: int)
    ensures
        next_action(st, now).1 matches ActionView::Wait(ms) ==> 0 < ms <= st.scenario.timeout_ms
            - now,
{
}

/// Only a run that is to be cancelled can be given up by a notification.
pub open spec fn run_valid(st: RunView) -> bool {
    st.ending == Some(EndingView::GaveUp) ==> st.scenario.cancel_after_ms is Some
}

/// Every run is valid: it begins so, and events and time keep it so.
pub proof fn runs_stay_valid(s: ScenarioView, st: RunView, event: EventView, now: int)
    requires
        run_valid(st),
    ensures
        run_valid(fresh_run(s)),
        run_valid(received(st, event, now)),
        run_valid(next_action(st, now).0),
{
}

/// What a pass says. A run that was to be cancelled was ended as cancelled or given up by the
/// plugin. Any other was answered, its notifications hold the expected ones as a subsequence, and
/// its response is what the scenario expects.
pub proof fn pass_means(st: RunView, duration_ms: int)
    requires
        run_valid(st),
    ensures
        (result_of(st, duration_ms) matches Some(result) && result.status is Pass) == (
        match st.ending {
            Some(EndingView::GaveUp) => true,
            Some(EndingView::Refused(e)) => st.scenario.cancel_after_ms is Some && e.code
                == REQUEST_CANCELLED,
            Some(EndingView::Answered(response)) => {
                &&& st.scenario.cancel_after_ms is None
                &&& in_order(st.scenario.expected_notifications, st.log)
                &&& response_verdict(st.scenario.expected_response, response) is Ok
            },
            _ => false,
        }),
{
    search_is_subsequence(st.scenario.expected_notifications, st.log);
}

/// A text nests nothing.
proof fn texts_are_portable(t: Seq<char>, levels: nat)
    ensures
        portable(JsonView::Text(t), levels),
{
}

/// One more field that is portable, under a key that is no mark, keeps an object so.
proof fn with_is_portable(v: JsonView, key: Seq<char>, value: JsonView, levels: nat)
    requires
        v is Object,
        key != RAW_VALUE_KEY@,
        portable(v, levels),
        portable(value, (levels - 1) as nat),
    ensures
        v.with(key, value) is Object,
        portable(v.with(key, value), levels),
{
    let m = v->Object_0;
    assert forall|k: Seq<char>| m.insert(key, value).dom().contains(k) implies portable(
        #[trigger] m.insert(key, value)[k],
        (levels - 1) as nat,
    ) by {
        if k != key {
            assert(portable(m[k], (levels - 1) as nat));
        }
    }
}

/// The object without fields is portable.
proof fn empty_is_portable(levels: nat)
    requires
        levels > 0,
    ensures
        JsonView::object() is Object,
        portable(JsonView::object(), levels),
{
}

/// An object of strings without the mark is portable.
proof fn env_is_portable(env: Map<Seq<char>, Seq<char>>, levels: nat)
    requires
        levels > 0,
        !env.dom().contains(RAW_VALUE_KEY@),
    ensures
        portable(env_object(env), levels),
{
    let m = env.map_values(|t: Seq<char>| JsonView::Text(t));
    assert forall|k: Seq<char>| m.dom().contains(k) implies portable(
        #[trigger] m[k],
        (levels - 1) as nat,
    ) by {
        assert(m[k] == JsonView::Text(env[k]));
    }
}

proof fn with_text_is_portable(v: JsonView, key: Seq<char>, value: Option<Seq<char>>, levels: nat)
    requires
        v is Object,
        key != RAW_VALUE_KEY@,
        portable(v, levels),
    ensures
        with_text(v, key, value) is Object,
        portable(with_text(v, key, value), levels),
{
    if let Some(t) = value {
        texts_are_portable(t, (levels - 1) as nat);
        with_is_portable(v, key, JsonView::Text(t), levels);
    }
}

/// None of the keys that the requests use is the mark.
proof fn keys_are_no_marks()
    ensures
        "jsonrpc"@ != RAW_VALUE_KEY@,
        "id"@ != RAW_VALUE_KEY@,
        "method"@ != RAW_VALUE_KEY@,
        "params"@ != RAW_VALUE_KEY@,
        "prompt"@ != RAW_VALUE_KEY@,
        "cwd"@ != RAW_VALUE_KEY@,
        "model"@ != RAW_VALUE_KEY@,
        "system_prompt"@ != RAW_VALUE_KEY@,
        "session_id"@ != RAW_VALUE_KEY@,
        "env"@ != RAW_VALUE_KEY@,
        "timeout_secs"@ != RAW_VALUE_KEY@,
        "MOCK_SCENARIO"@ != RAW_VALUE_KEY@,
{
    reveal_strlit("$serde_json::private::RawValue");
    reveal_strlit("jsonrpc");
    reveal_strlit("id");
    reveal_strlit("method");
    reveal_strlit("params");
    reveal_strlit("prompt");
    reveal_strlit("cwd");
    reveal_strlit("model");
    reveal_strlit("system_prompt");
    reveal_strlit("session_id");
    reveal_strlit("env");
    reveal_strlit("timeout_secs");
    reveal_strlit("MOCK_SCENARIO");
    assert(RAW_VALUE_KEY@.len() == 30);
}

/// A request is portable where its parameters are, one level deeper.
proof fn request_is_portable(id: int, method: Seq<char>, params: JsonView, levels: nat)
    requires
        0 <= id <= u64::MAX,
        levels > 0,
        portable(params, (levels - 1) as nat),
    ensures
        portable(request_view(id, method, params), levels),
{
    let inner = (levels - 1) as nat;
    keys_are_no_marks();
    empty_is_portable(levels);
    texts_are_portable("2.0"@, inner);
    texts_are_portable(method, inner);
    let a = JsonView::object().with("jsonrpc"@, JsonView::Text("2.0"@));
    with_is_portable(JsonView::object(), "jsonrpc"@, JsonView::Text("2.0"@), levels);
    let b = a.with("id"@, JsonView::Int(id));
    with_is_portable(a, "id"@, JsonView::Int(id), levels);
    let c = b.with("method"@, JsonView::Text(method));
    with_is_portable(b, "method"@, JsonView::Text(method), levels);
    with_is_portable(c, "params"@, params, levels);
}

/// Whatever the scenario, as long as its environment has no variable of the name by which
/// `serde_json` marks values, the run request and the cancel request are among the frames that read
/// back as they were written, so that a plugin is asked what the scenario says.
pub proof fn requests_are_portable(s: ScenarioView, session: Seq<char>)
    requires
        0 <= s.timeout_ms <= u64::MAX,
        !s.request.env.dom().contains(RAW_VALUE_KEY@),
    ensures
        portable(
            request_view(RUN_REQUEST_ID as int, run_method(s.method), run_params(s)),
            MAX_LEVELS as nat,
        ),
        portable(cancel_view(session), MAX_LEVELS as nat),
{
    let levels = (MAX_LEVELS - 1) as nat;
    let inner = (levels - 1) as nat;
    let cwd = match s.request.cwd {
        Some(c) => c,
        None => "."@,
    };
    keys_are_no_marks();
    empty_is_portable(levels);
    texts_are_portable(s.request.prompt, inner);
    texts_are_portable(cwd, inner);
    texts_are_portable(session, inner);
    let o = JsonView::object();
    let p = o.with("prompt"@, JsonView::Text(s.request.prompt));
    with_is_portable(o, "prompt"@, JsonView::Text(s.request.prompt), levels);
    let a = p.with("cwd"@, JsonView::Text(cwd));
    with_is_portable(p, "cwd"@, JsonView::Text(cwd), levels);
    let b = with_text(a, "model"@, s.request.model);
    with_text_is_portable(a, "model"@, s.request.model, levels);
    let c = with_text(b, "system_prompt"@, s.request.system_prompt);
    with_text_is_portable(b, "system_prompt"@, s.request.system_prompt, levels);
    let d = with_text(c, "session_id"@, s.request.session_id);
    with_text_is_portable(c, "session_id"@, s.request.session_id, levels);
    let e = d.with("env"@, env_object(run_env(s)));
    env_is_portable(run_env(s), inner);
    with_is_portable(d, "env"@, env_object(run_env(s)), levels);
    let secs = JsonView::Int(timeout_secs(s.timeout_ms));
    with_is_portable(e, "timeout_secs"@, secs, levels);
    request_is_portable(
        RUN_REQUEST_ID as int,
        run_method(s.method),
        run_params(s),
        MAX_LEVELS as nat,
    );
    with_is_portable(o, "session_id"@, JsonView::Text(session), levels);
    request_is_portable(
        CANCEL_REQUEST_ID as int,
        "agent/cancel"@,
        o.with("session_id"@, JsonView::Text(session)),
        MAX_LEVELS as nat,
    );
}

/// Whether a line is a notification that names a session and does not end the run.
pub open spec fn names_session(line: Seq<char>) -> bool {
    match incoming(line) {
        IncomingView::Frame(frame) => frame.get("id"@) is None && match frame.text_at("method"@) {
            Some(method) => !has_prefix(method, "$/"@) && match notification_of(
                method,
                frame.get_or_null("params"@),
            ) {
                Some(n) => n.session().len() > 0 && !n.is_fatal(),
                None => false,
            },
            None => false,
        },
        _ => false,
    }
}

/// Whether a line answers the run request with the error of a cancelled run.
pub open spec fn ends_as_cancelled(line: Seq<char>) -> bool {
    match incoming(line) {
        IncomingView::Frame(frame) => match response_of(frame) {
            Ok(r) => r.id == Some(JsonView::Int(RUN_REQUEST_ID as int)) && match r.error {
                Some(e) => e.code == REQUEST_CANCELLED,
                None => false,
            },
            Err(_) => false,
        },
        _ => false,
    }
}

/// The whole of a cancellation. The plugin names its session in a notification; once the delay is
/// over the cancel request for that session goes out; and when the plugin then ends the run as
/// cancelled, the scenario passes.
pub proof fn cancellation_passes(
    s: ScenarioView,
    note: Seq<char>,
    noted_at: int,
    cancel_at: int,
    answer: Seq<char>,
    answered_at: int,
    duration_ms: int,
)
    requires
        s.cancel_after_ms is Some,
        noted_at + s.cancel_after_ms->0 <= cancel_at < s.timeout_ms,
        names_session(note),
        ends_as_cancelled(answer),
    ensures
        ({
            let met = received(fresh_run(s), EventView::Line(note), noted_at);
            let (sent, action) = next_action(met, cancel_at);
            let done = received(sent, EventView::Line(answer), answered_at);
            &&& met.log.len() == 1
            &&& action == ActionView::Send(cancel_view(met.log[0].session()))
            &&& result_of(done, duration_ms) matches Some(result) && result.status is Pass
        }),
{
}

// ---------------------------------------------------------------------------
// What is logged, and how it is judged
// ---------------------------------------------------------------------------

proof fn wire_methods_are_plain(n: NotificationView)
    ensures
        !has_prefix(wire_method(n), "$/"@),
{
    reveal_strlit("agent/output");
    reveal_strlit("agent/thinking");
    reveal_strlit("agent/toolCall");
    reveal_strlit("agent/toolResult");
    reveal_strlit("agent/error");
    reveal_strlit("$/");
    assert("agent/output"@.len() == 12);
    assert("agent/thinking"@.len() == 14);
    assert("agent/toolCall"@.len() == 14);
    assert("agent/toolResult"@.len() == 16);
    assert("agent/error"@.len() == 11);
    assert("$/"@.len() == 2);
    assert("agent/thinking"@[7] != "agent/toolCall"@[7]);
    let m = wire_method(n);
    if has_prefix(m, "$/"@) {
        assert(m.subrange(0, 2)[0] == m[0]);
        assert(m[0] == 'a');
    }
}

/// Every notification that a plugin sends while its run goes on is logged, as it was sent and behind
/// those before it, whatever its kind and whether or not the run is to be cancelled. It ends a run
/// only where that is to be cancelled and the error is not recoverable; and only a run that is to be
/// cancelled takes note of the session, the first that is named.
pub proof fn every_notification_is_logged(
    st: RunView,
    line: Seq<char>,
    frame: JsonView,
    n: NotificationView,
    now: int,
)
    requires
        st.ending is None,
        incoming(line) == IncomingView::Frame(frame),
        sends(frame, n),
    ensures
        ({
            let after = received(st, EventView::Line(line), now);
            let cancels = st.scenario.cancel_after_ms is Some;
            let gives_up = n matches NotificationView::Error { recoverable, .. } && !recoverable;
            &&& after.log == st.log.push(n)
            &&& after.scenario == st.scenario
            &&& after.diagnostics == st.diagnostics
            &&& after.cancel_sent == st.cancel_sent
            &&& after.ending == (if cancels && gives_up {
                Some(EndingView::GaveUp)
            } else {
                None
            })
            &&& after.session == (if cancels && st.session is None && n.session().len() > 0 {
                Some((n.session(), now))
            } else {
                st.session
            })
        }),
{
    wire_methods_are_plain(n);
    notifications_read_back(frame.get("params"@)->0, n, wire_method(n));
}

/// Whether a line is of no account to the log and does not end a run: it is blank, it is a response
/// to another request, or it is a message with a method that is no notification of a run.
pub open spec fn says_nothing(line: Seq<char>) -> bool {
    match incoming(line) {
        IncomingView::Blank => true,
        IncomingView::Invalid(_) => false,
        IncomingView::Frame(frame) => match frame.get("id"@) {
            Some(id) => id != JsonView::Int(RUN_REQUEST_ID as int),
            None => forall|n: NotificationView|
                !says(frame, "method"@, #[trigger] wire_method(n)),
        },
    }
}

/// A line that is of no account leaves the log, the session and the course of the run as they are.
pub proof fn other_lines_leave_the_log(st: RunView, line: Seq<char>, now: int)
    requires
        says_nothing(line),
    ensures
        ({
            let after = received(st, EventView::Line(line), now);
            &&& after.log == st.log
            &&& after.ending == st.ending
            &&& after.session == st.session
            &&& after.cancel_sent == st.cancel_sent
            &&& after.scenario == st.scenario
        }),
{
    if let IncomingView::Frame(frame) = incoming(line) {
        if let Some(method) = frame.text_at("method"@) {
            let p = frame.get_or_null("params"@);
            if let Some(m) = notification_of(method, p) {
                notifications_read_back(p, m, method);
                assert(frame.get("id"@) is None ==> !says(frame, "method"@, wire_method(m)));
            }
        }
    }
}

/// A run after lines, each with the time at which it came.
pub open spec fn received_all(st: RunView, lines: Seq<(Seq<char>, int)>) -> RunView
    decreases lines.len(),
{
    if lines.len() == 0 {
        st
    } else {
        received(
            received_all(st, lines.drop_last()),
            EventView::Line(lines.last().0),
            lines.last().1,
        )
    }
}

/// Whether a line sends what it is said to send: a notification, or nothing of account.
pub open spec fn line_sends(line: Seq<char>, sent: Option<NotificationView>) -> bool {
    match sent {
        Some(n) => exists|frame: JsonView|
            incoming(line) == IncomingView::Frame(frame) && #[trigger] sends(frame, n),
        None => says_nothing(line),
    }
}

/// The notifications among what was sent.
pub open spec fn notifications_in(sent: Seq<Option<NotificationView>>) -> Seq<NotificationView>
    decreases sent.len(),
{
    if sent.len() == 0 {
        Seq::empty()
    } else {
        match sent.last() {
            Some(n) => notifications_in(sent.drop_last()).push(n),
            None => notifications_in(sent.drop_last()),
        }
    }
}

/// After any lines, the log is the notifications that they sent, in order and nothing else. A run
/// that is not to be cancelled goes on through all of them.
pub proof fn logs_hold_what_was_sent(
    s: ScenarioView,
    lines: Seq<(Seq<char>, int)>,
    sent: Seq<Option<NotificationView>>,
)
    requires
        s.cancel_after_ms is None,
        lines.len() == sent.len(),
        forall|i: int| 0 <= i < lines.len() ==> line_sends((#[trigger] lines[i]).0, sent[i]),
    ensures
        ({
            let st = received_all(fresh_run(s), lines);
            &&& st.log == notifications_in(sent)
            &&& st.ending is None
            &&& st.scenario == s
            &&& st.session is None
        }),
    decreases lines.len(),
{
    if lines.len() > 0 {
        let head = lines.drop_last();
        let before = sent.drop_last();
        assert forall|i: int| 0 <= i < head.len() implies line_sends(
            (#[trigger] head[i]).0,
            before[i],
        ) by {
            assert(head[i] == lines[i] && before[i] == sent[i]);
        }
        logs_hold_what_was_sent(s, head, before);
        let st = received_all(fresh_run(s), head);
        let (line, now) = lines.last();
        assert(line_sends(lines[lines.len() - 1].0, sent[lines.len() - 1]));
        match sent.last() {
            Some(n) => {
                let frame = choose|frame: JsonView|
                    incoming(line) == IncomingView::Frame(frame) && #[trigger] sends(frame, n);
                every_notification_is_logged(st, line, frame, n, now);
            },
            None => {
                other_lines_leave_the_log(st, line, now);
            },
        }
    }
}

/// The whole of a run that is not to be cancelled. The plugin sends what it sends and then answers
/// the run request. The result bears the scenario's name, every notification and the response; and
/// it is a pass exactly where the expected notifications stand among the sent ones in their order
/// and the response meets the scenario's demands.
pub proof fn answered_runs_are_judged(
    s: ScenarioView,
    lines: Seq<(Seq<char>, int)>,
    sent: Seq<Option<NotificationView>>,
    answer: Seq<char>,
    frame: JsonView,
    v: JsonView,
    r: RunResponseView,
    now: int,
    duration_ms: int,
)
    requires
        s.cancel_after_ms is None,
        lines.len() == sent.len(),
        forall|i: int| 0 <= i < lines.len() ==> line_sends((#[trigger] lines[i]).0, sent[i]),
        incoming(answer) == IncomingView::Frame(frame),
        frame.get("id"@) == Some(JsonView::Int(2)),
        brings(frame, v),
        holds_response(v, r),
        i32::MIN <= r.exit_code <= i32::MAX,
    ensures
        ({
            let st = received_all(fresh_run(s), lines);
            let over = received(st, EventView::Line(answer), now);
            &&& result_of(over, duration_ms) matches Some(result) && {
                &&& result.scenario == s.name
                &&& result.notification_log == notifications_in(sent)
                &&& result.response == Some(r)
                &&& result.duration_ms == duration_ms
                &&& !(result.status is Skip)
                &&& (result.status is Pass) == (in_order(
                    s.expected_notifications,
                    notifications_in(sent),
                ) && meets(s.expected_response, r))
            }
        }),
{
    logs_hold_what_was_sent(s, lines, sent);
    responses_read_back(v, r);
    responses_are_held_to_demands(s.expected_response, r);
    search_is_subsequence(s.expected_notifications, notifications_in(sent));
}

/// A run whose plugin answers with an error fails, with the message and the code, unless it was to
/// be cancelled and the code says that it was.
pub proof fn refused_runs_are_judged(
    st: RunView,
    answer: Seq<char>,
    frame: JsonView,
    code: int,
    message: Seq<char>,
    now: int,
    duration_ms: int,
)
    requires
        st.ending is None,
        incoming(answer) == IncomingView::Frame(frame),
        frame.get("id"@) == Some(JsonView::Int(2)),
        refuses(frame, code, message),
    ensures
        ({
            let over = received(st, EventView::Line(answer), now);
            result_of(over, duration_ms) matches Some(result) && {
                &&& result.status == (if st.scenario.cancel_after_ms is Some && code == -32002 {
                    StatusView::Pass
                } else {
                    StatusView::Fail {
                        reason: "plugin returned error: "@ + message + " (code "@ + signed_decimal(
                            code,
                        ) + ")"@,
                    }
                })
                &&& result.notification_log == st.log
                &&& result.scenario == st.scenario.name
                &&& result.response is None
            }
        }),
{
}

/// A run that is to be cancelled fails where the plugin answers it with a result.
pub proof fn uncancelled_runs_fail(
    st: RunView,
    answer: Seq<char>,
    frame: JsonView,
    v: JsonView,
    now: int,
    duration_ms: int,
)
    requires
        st.ending is None,
        st.scenario.cancel_after_ms is Some,
        incoming(answer) == IncomingView::Frame(frame),
        frame.get("id"@) == Some(JsonView::Int(2)),
        brings(frame, v),
    ensures
        result_of(received(st, EventView::Line(answer), now), duration_ms) matches Some(result)
            && result.status is Fail,
{
}

/// A run ends as a failure where the plugin closes its output, where the output cannot be read or is
/// no JSON, and where the time is up; until then, and without an answer, it has no result.
pub proof fn broken_runs_fail(st: RunView, line: Seq<char>, reason: Seq<char>, now: int, duration_ms: int)
    requires
        st.ending is None,
    ensures
        result_of(st, duration_ms) is None,
        result_of(received(st, EventView::Closed, now), duration_ms) matches Some(r)
            && r.status is Fail && r.notification_log == st.log,
        result_of(received(st, EventView::ReadFailed(reason), now), duration_ms) matches Some(r)
            && r.status == (StatusView::Fail { reason: "read: "@ + reason }),
        incoming(line) is Invalid ==> (result_of(
            received(st, EventView::Line(line), now),
            duration_ms,
        ) matches Some(r) && r.status is Fail),
        received(st, EventView::Quiet, now) == st,
        now >= st.scenario.timeout_ms ==> {
            let (after, action) = next_action(st, now);
            &&& action is Finished
            &&& result_of(after, duration_ms) matches Some(r) && r.status == (StatusView::Fail {
                reason: "timeout after "@ + decimal(st.scenario.timeout_ms as nat) + "ms"@,
            }) && r.notification_log == st.log && r.scenario == st.scenario.name
        },
        now < st.scenario.timeout_ms ==> !(next_action(st, now).1 is Finished)
            && next_action(st, now).0.ending is None,
{
}

/// While nothing is due, a run waits for exactly the time that is left; where a cancellation is
/// outstanding, for no longer than until that is due.
pub proof fn runs_wait_for_the_next_thing(st: RunView, now: int)
    requires
        st.ending is None,
        now < st.scenario.timeout_ms,
    ensures
        match (st.scenario.cancel_after_ms, st.session) {
            (Some(delay), Some((session, at))) if !st.cancel_sent => if now >= at + delay {
                next_action(st, now).1 == ActionView::Send(cancel_view(session))
                    && next_action(st, now).0.cancel_sent
            } else if at + delay < st.scenario.timeout_ms {
                next_action(st, now).1 == ActionView::Wait(at + delay - now)
            } else {
                next_action(st, now).1 == ActionView::Wait(st.scenario.timeout_ms - now)
            },
            _ => next_action(st, now).1 == ActionView::Wait(st.scenario.timeout_ms - now),
        },
        forall|session: Seq<char>|
            {
                let c = #[trigger] cancel_view(session);
                &&& says(c, "method"@, "agent/cancel"@)
                &&& c.get("id"@) == Some(JsonView::Int(3))
                &&& c.get("params"@) matches Some(p) && says(p, "session_id"@, session)
            },
{
    assert forall|session: Seq<char>|
        {
            let c = #[trigger] cancel_view(session);
            &&& says(c, "method"@, "agent/cancel"@)
            &&& c.get("id"@) == Some(JsonView::Int(3))
            &&& c.get("params"@) matches Some(p) && says(p, "session_id"@, session)
        } by {
        requests_say_what_is_asked(
            3,
            "agent/cancel"@,
            JsonView::object().with("session_id"@, JsonView::Text(session)),
            Seq::empty(),
            true,
        );
    }
}

/// Why a scenario is skipped: the reason names a capability that it requires and the plugin lacks,
/// one that it excludes and the plugin has, or, where it cancels, the one of being cancelled.
pub proof fn skips_name_a_capability(s: ScenarioView, caps: Seq<Seq<char>>)
    ensures
        skip_reason(s, caps) matches Some(reason) ==> {
            ||| exists|c: Seq<char>|
                #![trigger caps.contains(c)]
                s.requires_capabilities.contains(c) && !caps.contains(c) && reason
                    == "plugin lacks capability `"@ + c + "`"@
            ||| exists|c: Seq<char>|
                #![trigger caps.contains(c)]
                s.skip_if_capabilities.contains(c) && caps.contains(c) && reason
                    == "plugin advertises capability `"@ + c + "`"@
            ||| s.cancel_after_ms is Some && !caps.contains("$harness/cancellation-loop-v2"@)
                && reason == "plugin lacks capability `"@ + "$harness/cancellation-loop-v2"@ + "`"@
        },
{
    lacking_is_wanted(s.requires_capabilities, caps);
    present_is_unwanted(s.skip_if_capabilities, caps);
}

proof fn lacking_is_wanted(wanted: Seq<Seq<char>>, caps: Seq<Seq<char>>)
    ensures
        first_lacking(wanted, caps) matches Some(c) ==> wanted.contains(c) && !caps.contains(c),
    decreases wanted.len(),
{
    if wanted.len() > 0 {
        let rest = wanted.drop_first();
        lacking_is_wanted(rest, caps);
        assert(wanted.contains(wanted[0]));
        if let Some(c) = first_lacking(rest, caps) {
            let i = choose|i: int| 0 <= i < rest.len() && rest[i] == c;
            assert(wanted[i + 1] == c);
        }
    }
}

proof fn present_is_unwanted(unwanted: Seq<Seq<char>>, caps: Seq<Seq<char>>)
    ensures
        first_present(unwanted, caps) matches Some(c) ==> unwanted.contains(c) && caps.contains(c),
    decreases unwanted.len(),
{
    if unwanted.len() > 0 {
        let rest = unwanted.drop_first();
        present_is_unwanted(rest, caps);
        assert(unwanted.contains(unwanted[0]));
        if let Some(c) = first_present(rest, caps) {
            let i = choose|i: int| 0 <= i < rest.len() && rest[i] == c;
            assert(unwanted[i + 1] == c);
        }
    }
}

/// What a plugin is asked: the scenario's prompt, directory, model, instructions and session, with
/// nothing in place of what the scenario leaves open but the present directory; its environment with
/// every variable of the scenario and the script of the mock; and whole seconds, one at least.
pub proof fn run_requests_say_what_scenarios_ask(s: ScenarioView, name: Seq<char>)
    ensures
        run_method(ScenarioMethod::Run) == "agent/run"@,
        run_method(ScenarioMethod::Resume) == "agent/resume"@,
        ({
            let p = run_params(s);
            &&& says(p, "prompt"@, s.request.prompt)
            &&& s.request.cwd matches Some(c) ==> says(p, "cwd"@, c)
            &&& s.request.cwd is None ==> says(p, "cwd"@, "."@)
            &&& may_say(p, "model"@, s.request.model)
            &&& may_say(p, "system_prompt"@, s.request.system_prompt)
            &&& may_say(p, "session_id"@, s.request.session_id)
            &&& p.get("timeout_secs"@) == Some(
                JsonView::Int(
                    if s.timeout_ms < 1000 {
                        1
                    } else {
                        s.timeout_ms / 1000
                    },
                ),
            )
            &&& p.get("env"@) matches Some(env) && {
                &&& s.request.env.dom().contains(name) ==> says(env, name, s.request.env[name])
                &&& !s.request.env.dom().contains("MOCK_SCENARIO"@) ==> says(
                    env,
                    "MOCK_SCENARIO"@,
                    match s.mock.mock_scenario {
                        Some(script) => script,
                        None => s.name,
                    },
                )
                &&& !s.request.env.dom().contains(name) && name != "MOCK_SCENARIO"@ ==> env.get(
                    name,
                ) is None
            }
        }),
{
    run_keys_differ();
    let e = run_env(s);
    let m = e.map_values(|t: Seq<char>| JsonView::Text(t));
    assert(e.dom().contains(name) ==> m[name] == JsonView::Text(e[name]));
    assert(e.dom().contains("MOCK_SCENARIO"@) ==> m["MOCK_SCENARIO"@] == JsonView::Text(
        e["MOCK_SCENARIO"@],
    ));
}

/// The keys of a run request are all different.
proof fn run_keys_differ()
    ensures
        "prompt"@ != "cwd"@,
        "prompt"@ != "model"@,
        "prompt"@ != "system_prompt"@,
        "prompt"@ != "session_id"@,
        "prompt"@ != "env"@,
        "prompt"@ != "timeout_secs"@,
        "cwd"@ != "model"@,
        "cwd"@ != "system_prompt"@,
        "cwd"@ != "session_id"@,
        "cwd"@ != "env"@,
        "cwd"@ != "timeout_secs"@,
        "model"@ != "system_prompt"@,
        "model"@ != "session_id"@,
        "model"@ != "env"@,
        "model"@ != "timeout_secs"@,
        "system_prompt"@ != "session_id"@,
        "system_prompt"@ != "env"@,
        "system_prompt"@ != "timeout_secs"@,
        "session_id"@ != "env"@,
        "session_id"@ != "timeout_secs"@,
        "env"@ != "timeout_secs"@,
{
    reveal_strlit("prompt");
    reveal_strlit("cwd");
    reveal_strlit("model");
    reveal_strlit("system_prompt");
    reveal_strlit("session_id");
    reveal_strlit("env");
    reveal_strlit("timeout_secs");
    assert("prompt"@.len() == 6);
    assert("cwd"@.len() == 3);
    assert("model"@.len() == 5);
    assert("system_prompt"@.len() == 13);
    assert("session_id"@.len() == 10);
    assert("env"@.len() == 3);
    assert("timeout_secs"@.len() == 12);
    assert("cwd"@[0] != "env"@[0]);
}

/// What a run cannot make sense of is noted, in order, and changes nothing else: a notification of
/// an unknown method by that method, an answer to another request by its number, and a frame with a
/// number that is no answer. Every result keeps the notes, but that of a run that broke off.
pub proof fn oddities_are_noted(
    st: RunView,
    line: Seq<char>,
    frame: JsonView,
    method: Seq<char>,
    id: JsonView,
    result: JsonView,
    now: int,
    duration_ms: int,
)
    requires
        st.ending is None,
        incoming(line) == IncomingView::Frame(frame),
    ensures
        ({
            let after = received(st, EventView::Line(line), now);
            let unchanged = RunView { diagnostics: after.diagnostics, ..st };
            &&& frame.get("id"@) is None && says(frame, "method"@, method) && !has_prefix(
                method,
                "$/"@,
            ) && notification_of(method, frame.get_or_null("params"@)) is None ==> after
                == unchanged && after.diagnostics == st.diagnostics.push(
                "unrecognized notification: "@ + method,
            )
            &&& brings(frame, result) && frame.get("id"@) == Some(id) && id != JsonView::Int(2)
                && id != JsonView::Null ==> after == unchanged && after.diagnostics
                == st.diagnostics.push(
                "ignored response with id Some("@ + json_debug_text(id) + ")"@,
            )
            &&& frame.get("id"@) is Some && frame.get("jsonrpc"@) is None ==> after == unchanged
                && after.diagnostics.len() == st.diagnostics.len() + 1
                && after.diagnostics.drop_last() == st.diagnostics
            &&& frame.get("id"@) is None && says(frame, "method"@, method) && has_prefix(
                method,
                "$/"@,
            ) ==> after == st
        }),
{
    reveal_strlit("ignored response with id ");
    reveal_strlit("Some(");
    reveal_strlit("ignored response with id Some(");
    assert("ignored response with id "@ + "Some("@ =~= "ignored response with id Some("@);
    assert("ignored response with id "@ + ("Some("@ + json_debug_text(id) + ")"@)
        =~= "ignored response with id Some("@ + json_debug_text(id) + ")"@);
    assert(received(st, EventView::Line(line), now).diagnostics.drop_last() =~= st.diagnostics
        || received(st, EventView::Line(line), now).diagnostics == st.diagnostics);
}

/// A result keeps the notes of its run, but for a run that broke off; only an answer gives it a
/// response.
pub proof fn results_keep_notes(st: RunView, ending: EndingView, duration_ms: int)
    requires
        st.ending == Some(ending),
    ensures
        result_of(st, duration_ms) matches Some(r) && {
            &&& ending is Broken ==> r.diagnostics.len() == 0
            &&& !(ending is Broken) ==> r.diagnostics == st.diagnostics
            &&& !(ending is Answered) ==> r.response is None
            &&& ending matches EndingView::Answered(response) ==> r.response == response
            &&& r.notification_log == st.log
            &&& r.duration_ms == duration_ms
            &&& ending matches EndingView::Broken(reason) ==> r.status == (StatusView::Fail {
                reason,
            })
        },
{
}

/// Where a scenario is named, that one is run, as often as it is there, and no other; where none is
/// named, all of them are, in their order.
pub proof fn named_scenarios_are_run(
    init: InitializeResultView,
    scenarios: Seq<ScenarioView>,
    name: Seq<char>,
    i: int,
)
    requires
        0 <= i < scenarios.len(),
    ensures
        ({
            let one = MatrixRunView::fresh(init, scenarios, Some(name));
            let all = MatrixRunView::fresh(init, scenarios, None);
            &&& one.scenarios.contains(scenarios[i]) == (scenarios[i].name == name)
            &&& forall|k: int| 0 <= k < one.scenarios.len() ==> (#[trigger] one.scenarios[k]).name
                == name
            &&& all.scenarios == scenarios
            &&& one.reported.names.len() == one.scenarios.len()
            &&& forall|k: int| 0 <= k < one.scenarios.len() ==> #[trigger] one.reported.names[k]
                == name
            &&& all.reported.names.len() == scenarios.len()
            &&& all.reported.names[i] == scenarios[i].name
            &&& one.reported.init == init
            &&& one.reported.results.len() == 0
        }),
{
    broadcast use vstd::seq_lib::group_filter_ensures;

    let wanted = |s: ScenarioView| is_wanted(Some(name), s);
    let any = |s: ScenarioView| is_wanted(None, s);
    let one = scenarios.filter(wanted);
    if scenarios[i].name == name {
        scenarios.lemma_filter_contains(wanted, i);
    }
    assert forall|k: int| 0 <= k < one.len() implies (#[trigger] one[k]).name == name by {
        assert(wanted(one[k]));
    }
    keeps_all(scenarios, any);
}

proof fn keeps_all(scenarios: Seq<ScenarioView>, any: spec_fn(ScenarioView) -> bool)
    requires
        forall|s: ScenarioView| #[trigger] any(s),
    ensures
        scenarios.filter(any) == scenarios,
    decreases scenarios.len(),
{
    reveal(Seq::filter);
    if scenarios.len() > 0 {
        keeps_all(scenarios.drop_last(), any);
        assert(scenarios =~= scenarios.drop_last().push(scenarios.last()));
    } else {
        assert(scenarios.filter(any) =~= scenarios);
    }
}

/// Recording a result of such a run reports it under the scenario whose turn it is, and leaves the
/// scenarios as they are.
pub proof fn matrix_results_are_recorded(run: MatrixRunView, r: ResultView)
    requires
        run.valid(),
        run.reported.results.len() < run.scenarios.len(),
    ensures
        ({
            let after = run.with(r);
            let k = run.reported.results.len() as int;
            &&& after.valid()
            &&& after.scenarios == run.scenarios
            &&& after.reported.results.len() == k + 1
            &&& after.reported.results[k].scenario == run.scenarios[k].name
            &&& after.reported.results[k].status == r.status
            &&& after.reported.results[k].notification_log == r.notification_log
            &&& after.reported.results[k].diagnostics == r.diagnostics
        }),
{
    let c = run.reported;
    let name = c.names[c.results.len() as int];
    assert(result_names(c.with(r).results) =~= result_names(c.results).push(name));
}

} // verus!
