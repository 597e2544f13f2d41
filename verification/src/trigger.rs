//! The suite for trigger backend plugins.

use crate::codec::{json_text, render};
use crate::conformance::{check_names, Conformance, ConformanceView};
use crate::json::{Json, JsonView};
use crate::model::{
    bare_result, pass_or_fail, stands_in_text, substrings_stand_in_text, StatusView, TestResult,
    TestScenario, TestStatus,
};
use crate::rpc::{
    answers, decode_response, frame_in, incoming, opt_json, read_frame, refuses, request,
    request_view, response_of, says, Event, EventView, FrameStep, FrameView, IncomingView,
    InitializeResult,
};
use crate::suite::{
    brief, check_kind, concat, kind_status, setup_reason, setup_text, show_brief, suite_wording,
    suite_words, Setup, HANDSHAKE,
};
use crate::text::{
    contains, group_texts, has_substring, i64_to_string, lower, same, signed_decimal, texts,
    to_ascii_lowercase,
};
use crate::views::{group_views, views};
use vstd::prelude::*;

verus! {

broadcast use {group_views, group_texts};

/// The name under which the suite introduces itself.
pub const HOST_NAME: &'static str = "animus-trigger-conformance";

/// The kind of plugin that the suite is for.
pub const TRIGGER_KIND: &'static str = "trigger_backend";

/// How long a watch is given to fire.
pub const WATCH_BUDGET_MS: u64 = 3_000;

/// The number of the watch request.
pub const WATCH_REQUEST_ID: u64 = 100;

/// How many bytes of a value are shown.
pub const SHOWN_BYTES: usize = 200;

/// The check that a watch fires.
pub const WATCH_FIRES: &'static str = "watch-fires-event";

/// The check of what a watch fires.
pub const EVENT_SHAPE: &'static str = "event-payload-shape";

/// The checks of the suite, in order.
pub open spec fn baseline() -> Seq<(Seq<char>, Seq<char>)> {
    seq![
        (HANDSHAKE@, "initialize → plugin_kind == trigger_backend"@),
        (
            WATCH_FIRES@,
            "trigger/watch acks and emits at least one trigger/event within 3s"@,
        ),
        (
            EVENT_SHAPE@,
            "the first event uses the flat wire shape: required string event_id, optional trigger_id/subject_id/subject_kind/action_hint/payload"@,
        ),
    ]
}

/// Names the checks of the suite.
pub fn baseline_scenarios() -> (r: Vec<TestScenario>)
    ensures
        views(r@) == baseline(),
{
    let mut r: Vec<TestScenario> = Vec::new();
    r.push(TestScenario::new(HANDSHAKE, "initialize → plugin_kind == trigger_backend"));
    r.push(
        TestScenario::new(
            WATCH_FIRES,
            "trigger/watch acks and emits at least one trigger/event within 3s",
        ),
    );
    r.push(
        TestScenario::new(
            EVENT_SHAPE,
            "the first event uses the flat wire shape: required string event_id, optional trigger_id/subject_id/subject_kind/action_hint/payload",
        ),
    );
    assert(views(r@) =~= baseline());
    r
}

/// Begins a run of the suite, where the plugin could be asked to introduce itself.
pub fn begin<E>(probe: Result<InitializeResult, E>) -> (r: Result<Conformance, E>)
    ensures
        match probe {
            Ok(init) => r is Ok && r->Ok_0@ == ConformanceView::fresh(
                init@,
                check_names(baseline()),
            ) && r->Ok_0@.valid(),
            Err(e) => r == Err::<Conformance, E>(e),
        },
{
    Conformance::of_checks(probe, &baseline_scenarios())
}

/// Judges the handshake.
pub fn run_handshake(init: &InitializeResult, duration_ms: u64) -> (r: TestResult)
    ensures
        r@ == bare_result(
            HANDSHAKE@,
            kind_status(init@, TRIGGER_KIND@),
            duration_ms as int,
            Seq::empty(),
        ),
{
    check_kind(init, TRIGGER_KIND, duration_ms)
}

/// Shows a value in brief.
pub fn short(v: &Json) -> (r: String)
    ensures
        r@ == brief(v@, SHOWN_BYTES as nat, "…"@),
{
    show_brief(v, SHOWN_BYTES, "…")
}

// ---------------------------------------------------------------------------
// Watching
// ---------------------------------------------------------------------------

/// What a watch came to: it was taken up, and fired perhaps; or it was not.
#[derive(Debug, PartialEq)]
pub enum WatchOutcome {
    Ack { event: Option<Json> },
    NoAck(String),
}

#[verifier::ext_equal]
pub enum WatchView {
    Ack { event: Option<JsonView> },
    NoAck(Seq<char>),
}

impl View for WatchOutcome {
    type V = WatchView;

    open spec fn view(&self) -> WatchView {
        match self {
            WatchOutcome::Ack { event } => WatchView::Ack { event: opt_json(*event) },
            WatchOutcome::NoAck(m) => WatchView::NoAck(m@),
        }
    }
}

/// The request that begins a watch.
pub fn watch_request() -> (r: Json)
    ensures
        r@ == request_view(WATCH_REQUEST_ID as int, "trigger/watch"@, JsonView::object()),
{
    request(WATCH_REQUEST_ID, "trigger/watch", Json::object())
}

/// A watch under way.
#[derive(Debug, PartialEq)]
pub struct Watch {
    acked: bool,
    outcome: Option<WatchOutcome>,
}

#[verifier::ext_equal]
pub struct WatchState {
    pub acked: bool,
    pub outcome: Option<WatchView>,
}

impl View for Watch {
    type V = WatchState;

    closed spec fn view(&self) -> WatchState {
        WatchState {
            acked: self.acked,
            outcome: match self.outcome {
                Some(o) => Some(o@),
                None => None,
            },
        }
    }
}

/// A watch that has just been asked for.
pub open spec fn fresh_watch() -> WatchState {
    WatchState { acked: false, outcome: None }
}

/// A watch that came to an end without an event.
pub open spec fn watch_over(st: WatchState) -> WatchView {
    if st.acked {
        WatchView::Ack { event: None }
    } else {
        WatchView::NoAck("no ack and no events within 3s"@)
    }
}

/// A watch after a frame: the answer to the request takes it up or refuses it, and the first event
/// ends it. A frame that is no proper answer is passed over.
pub open spec fn watch_frame(st: WatchState, frame: JsonView) -> WatchState {
    if frame.get("id"@) == Some(JsonView::Int(WATCH_REQUEST_ID as int)) {
        match response_of(frame) {
            Err(_) => st,
            Ok(r) => match r.error {
                Some(e) => WatchState {
                    outcome: Some(
                        WatchView::NoAck(
                            e.message + " (code "@ + signed_decimal(e.code) + ")"@,
                        ),
                    ),
                    ..st
                },
                None => WatchState { acked: true, ..st },
            },
        }
    } else if frame.text_at("method"@) == Some("trigger/event"@) {
        WatchState {
            outcome: Some(WatchView::Ack { event: Some(frame.get_or_null("params"@)) }),
            ..st
        }
    } else {
        st
    }
}

/// A watch after an event. When nothing more can be read, or its time is up, it is over.
pub open spec fn watch_after(st: WatchState, event: EventView) -> WatchState {
    if st.outcome is Some {
        st
    } else {
        match frame_in(event, suite_words()) {
            FrameView::Again => st,
            FrameView::Frame(v) => watch_frame(st, v),
            FrameView::Failed(_) => WatchState { outcome: Some(watch_over(st)), ..st },
        }
    }
}

impl Watch {
    /// The watch before its first event.
    pub fn new() -> (r: Watch)
        ensures
            r@ == fresh_watch(),
    {
        Watch { acked: false, outcome: None }
    }

    fn take_frame(&mut self, frame: &Json)
        ensures
            final(self)@ == watch_frame(old(self)@, frame@),
    {
        if answers(frame, WATCH_REQUEST_ID) {
            match decode_response(frame) {
                Err(_) => {},
                Ok(r) => match r.error {
                    Some(e) => {
                        let mut m = e.message;
                        m.append(" (code ");
                        m.append(i64_to_string(e.code).as_str());
                        m.append(")");
                        self.outcome = Some(WatchOutcome::NoAck(m));
                    },
                    None => {
                        self.acked = true;
                    },
                },
            }
            return ;
        }
        let fired = match frame.text_at("method") {
            Some(m) => same(m, "trigger/event"),
            None => false,
        };
        if fired {
            self.outcome = Some(WatchOutcome::Ack { event: Some(frame.get_or_null("params")) });
        }
    }

    /// Takes an event; whether the watch goes on.
    pub fn receive(&mut self, event: Event) -> (r: bool)
        ensures
            final(self)@ == watch_after(old(self)@, event@),
            r == (final(self)@.outcome is None),
    {
        if self.outcome.is_some() {
            return false;
        }
        match read_frame(event, &suite_wording()) {
            FrameStep::Again => {},
            FrameStep::Frame(v) => self.take_frame(&v),
            FrameStep::Failed(_) => {
                self.outcome = Some(
                    if self.acked {
                        WatchOutcome::Ack { event: None }
                    } else {
                        WatchOutcome::NoAck("no ack and no events within 3s".to_owned())
                    },
                );
            },
        }
        self.outcome.is_none()
    }

    /// What the watch came to, once it has ended.
    pub fn finish(self) -> (r: Option<WatchOutcome>)
        ensures
            match r {
                Some(o) => self@.outcome == Some(o@),
                None => self@.outcome is None,
            },
    {
        self.outcome
    }
}

/// The outcome of a watch that could not be set up.
pub fn watch_setup_failed(setup: Setup, error: &str) -> (r: WatchOutcome)
    ensures
        r@ == WatchView::NoAck(setup_text(setup) + error@),
{
    WatchOutcome::NoAck(setup_reason(setup, error))
}

/// The outcome of a watch whose request could not be sent.
pub fn watch_send_failed(error: &str) -> (r: WatchOutcome)
    ensures
        r@ == WatchView::NoAck("send watch: "@ + error@),
{
    WatchOutcome::NoAck(concat("send watch: ", error))
}

/// Once a watch has ended, no event changes it.
pub proof fn ended_watches_stay(st: WatchState, event: EventView)
    requires
        st.outcome is Some,
    ensures
        watch_after(st, event) == st,
{
}

// ---------------------------------------------------------------------------
// Judging
// ---------------------------------------------------------------------------

/// Whether an error says that something has to be set up outside the plugin first.
pub open spec fn says_unconfigured(error: Seq<char>) -> bool {
    ||| has_substring(lower(error), "must be set"@)
    ||| has_substring(lower(error), "must include"@)
    ||| has_substring(lower(error), "missing"@)
    ||| has_substring(lower(error), "not configured"@)
    ||| has_substring(lower(error), "required"@)
    ||| has_substring(lower(error), "unset"@)
    ||| has_substring(lower(error), "api token"@)
    ||| has_substring(lower(error), "auth"@)
}

/// Whether an error says that something has to be set up outside the plugin first.
pub fn external_config_missing(error: &str) -> (r: bool)
    ensures
        r == says_unconfigured(error@),
{
    let low = to_ascii_lowercase(error);
    contains(low.as_str(), "must be set") || contains(low.as_str(), "must include") || contains(
        low.as_str(),
        "missing",
    ) || contains(low.as_str(), "not configured") || contains(low.as_str(), "required")
        || contains(low.as_str(), "unset") || contains(low.as_str(), "api token") || contains(
        low.as_str(),
        "auth",
    )
}

/// How the watch is judged. One that was taken up but did not fire, or that lacks a setting, needs
/// something from outside and does not count.
pub open spec fn fires_status(outcome: WatchView) -> StatusView {
    match outcome {
        WatchView::Ack { event: Some(_) } => StatusView::Pass,
        WatchView::Ack { event: None } => StatusView::Skip {
            reason: "trigger/watch acked but no event in 3s; backend likely needs external stimulus"@,
        },
        WatchView::NoAck(m) => if says_unconfigured(m) {
            StatusView::Skip { reason: "trigger/watch requires external configuration: "@ + m }
        } else {
            StatusView::Fail { reason: "trigger/watch: "@ + m }
        },
    }
}

/// Judges whether the watch fires.
pub fn run_watch_fires(outcome: &WatchOutcome, duration_ms: u64) -> (r: TestResult)
    ensures
        r@ == bare_result(
            WATCH_FIRES@,
            fires_status(outcome@),
            duration_ms as int,
            Seq::empty(),
        ),
{
    let status = match outcome {
        WatchOutcome::Ack { event: Some(_) } => TestStatus::Pass,
        WatchOutcome::Ack { event: None } => TestStatus::Skip {
            reason:
                "trigger/watch acked but no event in 3s; backend likely needs external stimulus".to_owned(),
        },
        WatchOutcome::NoAck(m) => {
            if external_config_missing(m.as_str()) {
                TestStatus::Skip {
                    reason: concat(
                        "trigger/watch requires external configuration: ",
                        m.as_str(),
                    ),
                }
            } else {
                TestStatus::Fail { reason: concat("trigger/watch: ", m.as_str()) }
            }
        },
    };
    pass_or_fail(WATCH_FIRES, status, duration_ms, Vec::new())
}

/// How the shape of an event is judged: its id is a string that is not empty.
pub open spec fn shape_status(event: JsonView) -> StatusView {
    match event.get("event_id"@) {
        None => StatusView::Fail {
            reason: "event missing required field `event_id` (flat TriggerEvent params; the nested {id, event} wrapper is not decoded by the host)"@,
        },
        Some(v) => if v is Text && v->Text_0.len() > 0 {
            StatusView::Pass
        } else {
            StatusView::Fail {
                reason: "event_id must be a non-empty string, got "@ + json_text(v),
            }
        },
    }
}

/// How the outcome of the watch is judged by the shape of its event, and the event in brief.
pub open spec fn shape_verdict(outcome: WatchView) -> (StatusView, Seq<Seq<char>>) {
    match outcome {
        WatchView::Ack { event: Some(event) } => (
            shape_status(event),
            seq!["event = "@ + brief(event, SHOWN_BYTES as nat, "…"@)],
        ),
        _ => (
            StatusView::Skip { reason: "no event captured by watch-fires-event"@ },
            Seq::empty(),
        ),
    }
}

/// Judges the shape of the first event.
pub fn run_event_shape(outcome: &WatchOutcome, duration_ms: u64) -> (r: TestResult)
    ensures
        r@ == bare_result(
            EVENT_SHAPE@,
            shape_verdict(outcome@).0,
            duration_ms as int,
            shape_verdict(outcome@).1,
        ),
{
    let mut notes: Vec<String> = Vec::new();
    let status = match outcome {
        WatchOutcome::Ack { event: Some(event) } => {
            notes.push(concat("event = ", short(event).as_str()));
            match event.get("event_id") {
                None => TestStatus::Fail {
                    reason:
                        "event missing required field `event_id` (flat TriggerEvent params; the nested {id, event} wrapper is not decoded by the host)".to_owned(),
                },
                Some(v) => {
                    let fine = match v {
                        Json::Text(s) => !s.as_str().is_empty(),
                        _ => false,
                    };
                    if fine {
                        TestStatus::Pass
                    } else {
                        TestStatus::Fail {
                            reason: concat(
                                "event_id must be a non-empty string, got ",
                                render(v).as_str(),
                            ),
                        }
                    }
                },
            }
        },
        _ => TestStatus::Skip { reason: "no event captured by watch-fires-event".to_owned() },
    };
    assert(texts(notes@) =~= shape_verdict(outcome@).1);
    pass_or_fail(EVENT_SHAPE, status, duration_ms, notes)
}

/// The shape of an event is judged exactly where the watch fired.
pub proof fn shape_follows_firing(outcome: WatchView)
    ensures
        (fires_status(outcome) is Pass) == !(shape_verdict(outcome).0 is Skip),
{
}

// ---------------------------------------------------------------------------
// What a watch comes to
// ---------------------------------------------------------------------------

/// The phrases by which a plugin says that it has to be set up first.
pub open spec fn setup_phrases() -> Seq<Seq<char>> {
    seq![
        "must be set"@,
        "must include"@,
        "missing"@,
        "not configured"@,
        "required"@,
        "unset"@,
        "api token"@,
        "auth"@,
    ]
}

/// Whether a message holds one of the phrases, in letters of either case.
pub open spec fn holds_setup_phrase(m: Seq<char>) -> bool {
    exists|k: int|
        0 <= k < setup_phrases().len() && stands_in_text(#[trigger] setup_phrases()[k], lower(m))
}

/// A watch that was not acknowledged is skipped exactly where its message holds one of the phrases
/// of a missing setting, and fails otherwise; it never passes. Either way the reason ends with the
/// message.
pub proof fn unacknowledged_watches_are_judged(m: Seq<char>)
    ensures
        (fires_status(WatchView::NoAck(m)) is Skip) == holds_setup_phrase(m),
        (fires_status(WatchView::NoAck(m)) is Fail) == !holds_setup_phrase(m),
        fires_status(WatchView::NoAck(m)) matches StatusView::Fail { reason } ==> reason
            == "trigger/watch: "@ + m,
        fires_status(WatchView::NoAck(m)) matches StatusView::Skip { reason } ==> reason
            == "trigger/watch requires external configuration: "@ + m,
{
    let list = setup_phrases();
    assert forall|k: int| 0 <= k < list.len() implies stands_in_text(#[trigger] list[k], lower(m))
        == has_substring(lower(m), list[k]) by {
        substrings_stand_in_text(list[k], lower(m));
    }
    assert(list[0] == "must be set"@ && list[1] == "must include"@ && list[2] == "missing"@);
    assert(list[3] == "not configured"@ && list[4] == "required"@ && list[5] == "unset"@);
    assert(list[6] == "api token"@ && list[7] == "auth"@);
    if holds_setup_phrase(m) {
        let k = choose|k: int|
            0 <= k < setup_phrases().len() && stands_in_text(
                #[trigger] setup_phrases()[k],
                lower(m),
            );
        assert(has_substring(lower(m), list[k]));
    }
}

/// A text does not hold another that has a letter which it lacks.
proof fn lacks_letter(hay: Seq<char>, needle: Seq<char>, j: int)
    requires
        0 <= j < needle.len(),
        forall|i: int| 0 <= i < hay.len() ==> (#[trigger] hay[i]) != needle[j],
    ensures
        !has_substring(hay, needle),
{
    if has_substring(hay, needle) {
        let i = choose|i: int| crate::text::occurs_at(hay, needle, i);
        assert(hay.subrange(i, i + needle.len() as int)[j] == hay[i + j]);
    }
}

/// That nothing came is no matter of a missing setting.
proof fn silence_is_no_setting()
    ensures
        !says_unconfigured("no ack and no events within 3s"@),
{
    reveal_strlit("no ack and no events within 3s");
    reveal_strlit("must be set");
    reveal_strlit("must include");
    reveal_strlit("missing");
    reveal_strlit("not configured");
    reveal_strlit("required");
    reveal_strlit("unset");
    reveal_strlit("api token");
    reveal_strlit("auth");
    let t = "no ack and no events within 3s"@;
    let low = lower(t);
    assert(t.len() == 30);
    assert(t[0] == 'n');
    assert(t[1] == 'o');
    assert(t[2] == ' ');
    assert(t[3] == 'a');
    assert(t[4] == 'c');
    assert(t[5] == 'k');
    assert(t[6] == ' ');
    assert(t[7] == 'a');
    assert(t[8] == 'n');
    assert(t[9] == 'd');
    assert(t[10] == ' ');
    assert(t[11] == 'n');
    assert(t[12] == 'o');
    assert(t[13] == ' ');
    assert(t[14] == 'e');
    assert(t[15] == 'v');
    assert(t[16] == 'e');
    assert(t[17] == 'n');
    assert(t[18] == 't');
    assert(t[19] == 's');
    assert(t[20] == ' ');
    assert(t[21] == 'w');
    assert(t[22] == 'i');
    assert(t[23] == 't');
    assert(t[24] == 'h');
    assert(t[25] == 'i');
    assert(t[26] == 'n');
    assert(t[27] == ' ');
    assert(t[28] == '3');
    assert(t[29] == 's');
    assert forall|i: int| 0 <= i < low.len() implies (#[trigger] low[i]) == t[i] by {
        assert(low[i] == crate::text::ascii_lower(t[i]));
    }
    assert forall|i: int|
        0 <= i < low.len() implies (#[trigger] low[i]) != 'm' && low[i] != 'f' && low[i] != 'r'
        && low[i] != 'u' && low[i] != 'p' by {
        assert(low[i] == t[i]);
    }
    lacks_letter(low, "must be set"@, 0);
    lacks_letter(low, "must include"@, 0);
    lacks_letter(low, "missing"@, 0);
    lacks_letter(low, "not configured"@, 7);
    lacks_letter(low, "required"@, 0);
    lacks_letter(low, "unset"@, 0);
    lacks_letter(low, "api token"@, 1);
    lacks_letter(low, "auth"@, 1);
}

/// A watch after events.
pub open spec fn watched(st: WatchState, events: Seq<EventView>) -> WatchState
    decreases events.len(),
{
    if events.len() == 0 {
        st
    } else {
        watch_after(watched(st, events.drop_last()), events.last())
    }
}

/// Whether an event is of no account to a watch: a blank line, or a frame that neither answers the
/// request nor is an event of a trigger.
pub open spec fn is_beside_the_watch(event: EventView) -> bool {
    match event {
        EventView::Line(line) => match incoming(line) {
            IncomingView::Blank => true,
            IncomingView::Frame(frame) => frame.get("id"@) != Some(JsonView::Int(100))
                && frame.get("method"@) != Some(JsonView::Text("trigger/event"@)),
            IncomingView::Invalid(_) => false,
        },
        _ => false,
    }
}

/// Whether an event means that nothing more will come: the plugin closed its output, it could not
/// be read, or the time is up.
pub open spec fn is_the_end(event: EventView) -> bool {
    event is Closed || event is ReadFailed || event is Quiet
}

proof fn silent_watches_wait(events: Seq<EventView>)
    requires
        forall|i: int| 0 <= i < events.len() ==> is_beside_the_watch(#[trigger] events[i]),
    ensures
        watched(fresh_watch(), events) == fresh_watch(),
    decreases events.len(),
{
    if events.len() > 0 {
        assert forall|i: int| 0 <= i < events.len() - 1 implies is_beside_the_watch(
            #[trigger] events.drop_last()[i],
        ) by {
            assert(events.drop_last()[i] == events[i]);
        }
        silent_watches_wait(events.drop_last());
        assert(is_beside_the_watch(events[events.len() - 1]));
    }
}

/// A plugin that neither answers the watch request nor fires, until its output or the time ends,
/// fails; there is then no event whose shape could be judged.
pub proof fn silent_watches_fail(events: Seq<EventView>, last: EventView)
    requires
        forall|i: int| 0 <= i < events.len() ==> is_beside_the_watch(#[trigger] events[i]),
        is_the_end(last),
    ensures
        watch_after(watched(fresh_watch(), events), last).outcome matches Some(outcome)
            && fires_status(outcome) is Fail && shape_verdict(outcome).0 is Skip,
{
    silent_watches_wait(events);
    silence_is_no_setting();
}

/// A watch takes what comes in whatever order. A trigger's event ends it, with the parameters of
/// that event, whether or not it was acknowledged before; it then passes. An acknowledgement is
/// kept; and a watch that ends with nothing more than that is skipped. A refusal ends it with the
/// message and the code.
pub proof fn watches_take_what_comes(
    st: WatchState,
    line: Seq<char>,
    frame: JsonView,
    params: JsonView,
    code: int,
    message: Seq<char>,
    last: EventView,
)
    requires
        st.outcome is None,
        incoming(line) == IncomingView::Frame(frame),
        is_the_end(last),
    ensures
        ({
            let after = watch_after(st, EventView::Line(line));
            let answers = frame.get("id"@) == Some(JsonView::Int(100));
            &&& !answers && says(frame, "method"@, "trigger/event"@) && frame.get("params"@)
                == Some(params) ==> after.outcome == Some(
                WatchView::Ack { event: Some(params) },
            ) && fires_status(after.outcome->0) is Pass
            &&& answers && (frame.get("jsonrpc"@) matches Some(JsonView::Text(_))) && (frame.get(
                "error"@,
            ) is None || frame.get("error"@) == Some(JsonView::Null)) ==> after == (WatchState {
                acked: true,
                outcome: None,
            }) && watch_after(after, last).outcome == Some(WatchView::Ack { event: None })
            &&& answers && refuses(frame, code, message) ==> after.outcome == Some(
                WatchView::NoAck(message + " (code "@ + signed_decimal(code) + ")"@),
            )
            &&& is_beside_the_watch(EventView::Line(line)) ==> after == st
        }),
        fires_status(WatchView::Ack { event: None }) is Skip,
{
}

/// An event has the right shape exactly where its id is a string that is not empty; an event of any
/// other shape fails, and so does one without an id.
pub proof fn events_need_an_id(event: JsonView)
    ensures
        (shape_verdict(WatchView::Ack { event: Some(event) }).0 is Pass) == (exists|id: Seq<char>|
            #[trigger] says(event, "event_id"@, id) && id.len() > 0),
        !(shape_verdict(WatchView::Ack { event: Some(event) }).0 is Skip),
{
    if event.get("event_id"@) matches Some(JsonView::Text(id)) && id.len() > 0 {
        assert(says(event, "event_id"@, event.get("event_id"@)->0->Text_0));
    }
}

/// Why the shape of an event is refused, and what is noted of it.
pub proof fn event_shapes_say_why(event: JsonView, v: JsonView)
    ensures
        event.get("event_id"@) == Some(v) && !(v matches JsonView::Text(t) && t.len() > 0)
            ==> shape_status(event) == (StatusView::Fail {
            reason: "event_id must be a non-empty string, got "@ + json_text(v),
        }),
        shape_verdict(WatchView::Ack { event: Some(event) }).1 == seq![
            "event = "@ + brief(event, SHOWN_BYTES as nat, "…"@),
        ],
        shape_verdict(WatchView::Ack { event: Some(event) }).0 == shape_status(event),
        shape_verdict(WatchView::Ack { event: None }).0 is Skip,
{
}

} // verus!
