//! The benchmark: what is run, how a run is measured, and what the measurements say.

use crate::harness::{
    decode_run_response, holds_response, responses_read_back, run_response_of, sends,
};
use crate::json::{Json, JsonView};
use crate::mock::{tool_name, Tool};
use crate::model::{NotificationView, RunResponseView};
use crate::rpc::{
    answers, brings, decode_response, frame_in, frame_keys_differ, read_frame, refuses, request,
    request_view, response_of, says, Event, EventView, FrameStep, FrameView, Wording,
};
use crate::run::timeout_secs;
use crate::text::{
    byte_len, clone_strings, group_texts, has_prefix, i64_to_string, same, signed_decimal,
    starts_with, texts, utf8_len, utf8_len_is_encoded_len,
};
use crate::views::group_views;
use vstd::prelude::*;
use vstd::utf8::encode_utf8;

verus! {

broadcast use {group_views, group_texts};

/// The name under which the benchmark introduces itself.
pub const BENCH_NAME: &'static str = "animus-plugin-bench";

/// The version of the benchmark's report format.
pub const REPORT_SCHEMA: &'static str = "animus.plugin_bench.v1";

/// How long the benchmark waits for the answer to `initialize`.
pub const INITIALIZE_BUDGET_MS: u64 = 10_000;

// ---------------------------------------------------------------------------
// What is run
// ---------------------------------------------------------------------------

/// A preset of scenarios.
#[derive(Debug, Clone, Copy, PartialEq, Eq, Structural)]
pub enum BenchSuite {
    Smoke,
    Streaming,
    Tools,
    Full,
}

/// The scenarios of a preset, in order.
pub open spec fn preset(suite: BenchSuite) -> Seq<Seq<char>> {
    match suite {
        BenchSuite::Smoke => seq!["streaming-short"@],
        BenchSuite::Streaming => seq!["streaming-short"@, "streaming-medium"@, "streaming-long"@],
        BenchSuite::Tools => seq!["tool-call-single"@, "tool-call-parallel"@],
        BenchSuite::Full => seq![
            "streaming-short"@,
            "streaming-medium"@,
            "streaming-long"@,
            "tool-call-single"@,
            "tool-call-parallel"@,
            "error-recovery"@,
        ],
    }
}

impl BenchSuite {
    /// Names the scenarios of the preset.
    pub fn scenarios(self) -> (r: Vec<String>)
        ensures
            texts(r@) == preset(self),
    {
        let mut r: Vec<String> = Vec::new();
        match self {
            BenchSuite::Smoke => {
                r.push("streaming-short".to_owned());
            },
            BenchSuite::Streaming => {
                r.push("streaming-short".to_owned());
                r.push("streaming-medium".to_owned());
                r.push("streaming-long".to_owned());
            },
            BenchSuite::Tools => {
                r.push("tool-call-single".to_owned());
                r.push("tool-call-parallel".to_owned());
            },
            BenchSuite::Full => {
                r.push("streaming-short".to_owned());
                r.push("streaming-medium".to_owned());
                r.push("streaming-long".to_owned());
                r.push("tool-call-single".to_owned());
                r.push("tool-call-parallel".to_owned());
                r.push("error-recovery".to_owned());
            },
        }
        assert(texts(r@) =~= preset(self));
        r
    }
}

/// What the benchmark is asked to do.
#[derive(Debug, PartialEq)]
pub struct BenchOptions {
    pub plugin: Vec<String>,
    pub suite: Option<BenchSuite>,
    pub scenarios: Vec<String>,
    pub models: Vec<String>,
    pub iterations: u32,
    pub warmup_iterations: u32,
    pub timeout_ms: u64,
    pub prompt: String,
    pub report_json: Option<String>,
    pub report_csv: Option<String>,
    pub fail_fast: bool,
}

/// The scenarios to run: those that are named, or else those of the preset, or else one.
pub open spec fn resolved(named: Seq<Seq<char>>, suite: Option<BenchSuite>) -> Seq<Seq<char>> {
    if named.len() > 0 {
        named
    } else {
        match suite {
            Some(s) => preset(s),
            None => seq!["streaming-medium"@],
        }
    }
}

/// Finds the scenarios to run.
pub fn resolve_scenarios(options: &BenchOptions) -> (r: Vec<String>)
    ensures
        texts(r@) == resolved(texts(options.scenarios@), options.suite),
{
    if options.scenarios.len() > 0 {
        return clone_strings(&options.scenarios);
    }
    match options.suite {
        Some(suite) => suite.scenarios(),
        None => {
            let mut r: Vec<String> = Vec::new();
            r.push("streaming-medium".to_owned());
            assert(texts(r@) =~= seq!["streaming-medium"@]);
            r
        },
    }
}

/// Names the model that is asked for where none is named.
pub fn default_model() -> (r: String)
    ensures
        r@ == tool_name(Tool::Claude) + "-sonnet-4-6"@,
{
    let mut m = Tool::Claude.name();
    m.append("-sonnet-4-6");
    m
}

/// A cell of the matrix: a plugin, a scenario and a model, by their positions.
#[derive(Debug, Clone, Copy, PartialEq, Eq, Structural)]
pub struct Cell {
    pub plugin: usize,
    pub scenario: usize,
    pub model: usize,
}

/// The cell that the matrix begins with, if it has any.
pub fn first_cell(plugins: usize, scenarios: usize, models: usize) -> (r: Option<Cell>)
    ensures
        r == if plugins > 0 && scenarios > 0 && models > 0 {
            Some(Cell { plugin: 0, scenario: 0, model: 0 })
        } else {
            None
        },
{
    if plugins > 0 && scenarios > 0 && models > 0 {
        Some(Cell { plugin: 0, scenario: 0, model: 0 })
    } else {
        None
    }
}

/// The cell after another: models change fastest, plugins slowest.
pub open spec fn cell_after(c: Cell, scenarios: int, models: int) -> (int, int, int) {
    if c.model + 1 < models {
        (c.plugin as int, c.scenario as int, c.model + 1)
    } else if c.scenario + 1 < scenarios {
        (c.plugin as int, c.scenario + 1, 0)
    } else {
        (c.plugin + 1, 0, 0)
    }
}

/// The next cell after one that has been run, if there is one. A failure ends the matrix where it
/// is to be left at once.
pub fn next_cell(
    c: Cell,
    plugins: usize,
    scenarios: usize,
    models: usize,
    failed: bool,
    fail_fast: bool,
) -> (r: Option<Cell>)
    requires
        c.plugin < plugins,
        c.scenario < scenarios,
        c.model < models,
    ensures
        ({
            let (p, s, m) = cell_after(c, scenarios as int, models as int);
            match r {
                None => (failed && fail_fast) || p >= plugins,
                Some(n) => {
                    &&& !(failed && fail_fast)
                    &&& n.plugin == p && n.scenario == s && n.model == m
                    &&& n.plugin < plugins && n.scenario < scenarios && n.model < models
                },
            }
        }),
{
    if failed && fail_fast {
        None
    } else if c.model + 1 < models {
        Some(Cell { plugin: c.plugin, scenario: c.scenario, model: c.model + 1 })
    } else if c.scenario + 1 < scenarios {
        Some(Cell { plugin: c.plugin, scenario: c.scenario + 1, model: 0 })
    } else if c.plugin + 1 < plugins {
        Some(Cell { plugin: c.plugin + 1, scenario: 0, model: 0 })
    } else {
        None
    }
}

/// Where a cell stands in the matrix.
pub open spec fn cell_index(p: int, s: int, m: int, scenarios: int, models: int) -> int {
    (p * scenarios + s) * models + m
}

/// Going from cell to cell visits every position of the matrix once, in order.
pub proof fn cells_in_order(c: Cell, scenarios: int, models: int)
    requires
        c.scenario < scenarios,
        c.model < models,
    ensures
        ({
            let (p, s, m) = cell_after(c, scenarios, models);
            &&& 0 <= s < scenarios
            &&& 0 <= m < models
            &&& cell_index(p, s, m, scenarios, models) == cell_index(
                c.plugin as int,
                c.scenario as int,
                c.model as int,
                scenarios,
                models,
            ) + 1
        }),
{
    let p = c.plugin as int;
    let s = c.scenario as int;
    let row = p * scenarios;
    if c.model + 1 < models {
    } else if s + 1 < scenarios {
        assert((row + (s + 1)) * models == (row + s) * models + models) by (nonlinear_arith);
    } else {
        assert((p + 1) * scenarios == row + scenarios) by (nonlinear_arith)
            requires
                row == p * scenarios,
        ;
        assert((row + (s + 1)) * models == (row + s) * models + models) by (nonlinear_arith);
        assert(row + scenarios == row + (s + 1));
    }
}

// ---------------------------------------------------------------------------
// One run
// ---------------------------------------------------------------------------

/// How the benchmark words what can go wrong while it reads.
pub open spec fn bench_words() -> Wording {
    Wording {
        closed: "plugin stdout closed",
        invalid: "invalid JSON-RPC frame: ",
        late: "bench iteration timed out",
    }
}

/// The wording of the benchmark.
pub fn bench_wording() -> (r: Wording)
    ensures
        r == bench_words(),
{
    Wording {
        closed: "plugin stdout closed",
        invalid: "invalid JSON-RPC frame: ",
        late: "bench iteration timed out",
    }
}

/// Where the introduction stands.
#[derive(Debug, PartialEq)]
pub enum Introduction {
    Pending,
    Done,
    Failed(String),
}

pub enum IntroductionView {
    Pending,
    Done,
    Failed(Seq<char>),
}

impl View for Introduction {
    type V = IntroductionView;

    open spec fn view(&self) -> IntroductionView {
        match self {
            Introduction::Pending => IntroductionView::Pending,
            Introduction::Done => IntroductionView::Done,
            Introduction::Failed(m) => IntroductionView::Failed(m@),
        }
    }
}

/// The introduction after an event: only the answer to the first request ends it.
pub open spec fn introduced(event: EventView) -> IntroductionView {
    match frame_in(event, bench_words()) {
        FrameView::Again => IntroductionView::Pending,
        FrameView::Failed(m) => IntroductionView::Failed(m),
        FrameView::Frame(v) => if v.get("id"@) != Some(JsonView::Int(1)) {
            IntroductionView::Pending
        } else {
            match response_of(v) {
                Err(e) => IntroductionView::Failed(e),
                Ok(r) => match r.error {
                    Some(e) => IntroductionView::Failed(
                        "initialize failed: "@ + e.message + " (code "@ + signed_decimal(e.code)
                            + ")"@,
                    ),
                    None => IntroductionView::Done,
                },
            }
        },
    }
}

/// Takes an event while the answer to `initialize` is awaited.
pub fn introduce(event: Event) -> (r: Introduction)
    ensures
        r@ == introduced(event@),
{
    match read_frame(event, &bench_wording()) {
        FrameStep::Again => Introduction::Pending,
        FrameStep::Failed(m) => Introduction::Failed(m),
        FrameStep::Frame(v) => {
            if !answers(&v, 1) {
                return Introduction::Pending;
            }
            match decode_response(&v) {
                Err(e) => Introduction::Failed(e),
                Ok(r) => match r.error {
                    Some(e) => {
                        let mut m = "initialize failed: ".to_owned();
                        m.append(e.message.as_str());
                        m.append(" (code ");
                        m.append(i64_to_string(e.code).as_str());
                        m.append(")");
                        Introduction::Failed(m)
                    },
                    None => Introduction::Done,
                },
            }
        },
    }
}

/// The request that a run is measured by.
pub open spec fn bench_request_view(
    prompt: Seq<char>,
    model: Seq<char>,
    scenario: Seq<char>,
    timeout_ms: int,
) -> JsonView {
    request_view(
        2,
        "agent/run"@,
        JsonView::object().with("prompt"@, JsonView::Text(prompt)).with(
            "model"@,
            JsonView::Text(model),
        ).with("cwd"@, JsonView::Text("."@)).with(
            "timeout_secs"@,
            JsonView::Int(timeout_secs(timeout_ms)),
        ).with("env"@, JsonView::object().with("MOCK_SCENARIO"@, JsonView::Text(scenario))),
    )
}

/// Builds the request that a run is measured by.
pub fn bench_request(prompt: &str, model: &str, scenario: &str, timeout_ms: u64) -> (r: Json)
    ensures
        r@ == bench_request_view(prompt@, model@, scenario@, timeout_ms as int),
{
    let secs: u64 = if timeout_ms < 1000 {
        1
    } else {
        timeout_ms / 1000
    };
    request(
        2,
        "agent/run",
        Json::object().with("prompt", Json::text(prompt)).with("model", Json::text(model)).with(
            "cwd",
            Json::text("."),
        ).with("timeout_secs", Json::Unsigned(secs)).with(
            "env",
            Json::object().with("MOCK_SCENARIO", Json::text(scenario)),
        ),
    )
}

/// One measurement.
#[derive(Debug, Clone, Copy, PartialEq, Eq, Structural)]
pub struct BenchSample {
    pub iteration: u32,
    pub ttft_ms: u64,
    pub duration_ms: u64,
    pub notification_count: u32,
    pub output_bytes: usize,
}

/// A run under measurement. Times are milliseconds since the request was sent.
#[derive(Debug, PartialEq)]
pub struct BenchRun {
    iteration: u32,
    ttft_ms: Option<u64>,
    notification_count: u32,
    output_bytes: usize,
}

#[verifier::ext_equal]
pub struct BenchRunView {
    pub iteration: u32,
    pub ttft_ms: Option<u64>,
    pub notification_count: int,
    pub output_bytes: int,
}

impl View for BenchRun {
    type V = BenchRunView;

    closed spec fn view(&self) -> BenchRunView {
        BenchRunView {
            iteration: self.iteration,
            ttft_ms: self.ttft_ms,
            notification_count: self.notification_count as int,
            output_bytes: self.output_bytes as int,
        }
    }
}

/// Where a measurement stands after an event.
#[derive(Debug, PartialEq)]
pub enum Measure {
    Pending,
    Done(BenchSample),
    Failed(String),
}

#[verifier::ext_equal]
pub enum MeasureView {
    Pending,
    Done(BenchSample),
    Failed(Seq<char>),
}

impl View for Measure {
    type V = MeasureView;

    open spec fn view(&self) -> MeasureView {
        match self {
            Measure::Pending => MeasureView::Pending,
            Measure::Done(s) => MeasureView::Done(*s),
            Measure::Failed(m) => MeasureView::Failed(m@),
        }
    }
}

/// A number that stops at a limit.
pub open spec fn up_to(n: int, limit: int) -> int {
    if n > limit {
        limit
    } else {
        n
    }
}

/// A run after a notification. The first output sets the time to the first token; every
/// notification of the agent counts; the bytes of output add up.
pub open spec fn bench_notified(
    st: BenchRunView,
    method: Seq<char>,
    text: Option<Seq<char>>,
    now: u64,
) -> BenchRunView {
    if method == "agent/output"@ {
        BenchRunView {
            ttft_ms: if st.ttft_ms is None {
                Some(now)
            } else {
                st.ttft_ms
            },
            notification_count: up_to(st.notification_count + 1, u32::MAX as int),
            output_bytes: match text {
                Some(t) => up_to(st.output_bytes + utf8_len(t), usize::MAX as int),
                None => st.output_bytes,
            },
            ..st
        }
    } else if has_prefix(method, "agent/"@) {
        BenchRunView {
            notification_count: up_to(st.notification_count + 1, u32::MAX as int),
            ..st
        }
    } else {
        st
    }
}

/// The sample of a run that was answered. The final output counts where it is longer than what was
/// streamed.
pub open spec fn sample_of(st: BenchRunView, result: Option<JsonView>, now: u64) -> BenchSample {
    let streamed = st.output_bytes;
    let bytes = match result {
        None => streamed,
        Some(v) => match run_response_of(v) {
            Err(_) => streamed,
            Ok(response) => if utf8_len(response.output) > streamed {
                utf8_len(response.output) as int
            } else {
                streamed
            },
        },
    };
    BenchSample {
        iteration: st.iteration,
        ttft_ms: match st.ttft_ms {
            Some(t) => t,
            None => now,
        },
        duration_ms: now,
        notification_count: st.notification_count as u32,
        output_bytes: bytes as usize,
    }
}

/// A run after a frame.
pub open spec fn bench_frame(st: BenchRunView, frame: JsonView, now: u64) -> (
    BenchRunView,
    MeasureView,
) {
    if frame.get("id"@) is Some {
        match response_of(frame) {
            Err(e) => (st, MeasureView::Failed(e)),
            Ok(r) => if r.id != Some(JsonView::Int(2)) {
                (st, MeasureView::Pending)
            } else {
                match r.error {
                    Some(e) => (
                        st,
                        MeasureView::Failed(
                            "agent/run failed: "@ + e.message + " (code "@ + signed_decimal(e.code)
                                + ")"@,
                        ),
                    ),
                    None => (st, MeasureView::Done(sample_of(st, r.result, now))),
                }
            },
        }
    } else {
        match frame.text_at("method"@) {
            None => (st, MeasureView::Pending),
            Some(method) => (
                bench_notified(st, method, frame.get_or_null("params"@).text_at("text"@), now),
                MeasureView::Pending,
            ),
        }
    }
}

/// A run after an event.
pub open spec fn bench_after(st: BenchRunView, event: EventView, now: u64) -> (
    BenchRunView,
    MeasureView,
) {
    match frame_in(event, bench_words()) {
        FrameView::Again => (st, MeasureView::Pending),
        FrameView::Failed(m) => (st, MeasureView::Failed(m)),
        FrameView::Frame(v) => bench_frame(st, v, now),
    }
}

impl BenchRun {
    /// A run whose request has just been sent.
    pub fn new(iteration: u32) -> (r: BenchRun)
        ensures
            r@ == (BenchRunView {
                iteration,
                ttft_ms: None,
                notification_count: 0,
                output_bytes: 0,
            }),
    {
        BenchRun { iteration, ttft_ms: None, notification_count: 0, output_bytes: 0 }
    }

    fn notify(&mut self, method: &str, text: Option<&str>, now: u64)
        ensures
            final(self)@ == bench_notified(
                old(self)@,
                method@,
                match text {
                    Some(t) => Some(t@),
                    None => None,
                },
                now,
            ),
    {
        if same(method, "agent/output") {
            if self.ttft_ms.is_none() {
                self.ttft_ms = Some(now);
            }
            self.count();
            if let Some(t) = text {
                let len: usize = byte_len(t);
                if len <= usize::MAX - self.output_bytes {
                    self.output_bytes = self.output_bytes + len;
                } else {
                    self.output_bytes = usize::MAX;
                }
            }
        } else if starts_with(method, "agent/") {
            self.count();
        }
    }

    fn count(&mut self)
        ensures
            final(self)@ == (BenchRunView {
                notification_count: up_to(old(self)@.notification_count + 1, u32::MAX as int),
                ..old(self)@
            }),
    {
        if self.notification_count < u32::MAX {
            self.notification_count = self.notification_count + 1;
        }
    }

    fn sample(&self, result: &Option<Json>, now: u64) -> (r: BenchSample)
        ensures
            r == sample_of(self@, crate::rpc::opt_json(*result), now),
    {
        let mut output_bytes: usize = self.output_bytes;
        if let Some(v) = result {
            if let Ok(response) = decode_run_response(v) {
                let len: usize = byte_len(response.output.as_str());
                if len > output_bytes {
                    output_bytes = len;
                }
            }
        }
        let ttft_ms: u64 = match self.ttft_ms {
            Some(t) => t,
            None => now,
        };
        BenchSample {
            iteration: self.iteration,
            ttft_ms,
            duration_ms: now,
            notification_count: self.notification_count,
            output_bytes,
        }
    }

    /// Takes an event.
    pub fn receive(&mut self, event: Event, now: u64) -> (r: Measure)
        ensures
            (final(self)@, r@) == bench_after(old(self)@, event@, now),
    {
        let frame = match read_frame(event, &bench_wording()) {
            FrameStep::Again => {
                return Measure::Pending;
            },
            FrameStep::Failed(m) => {
                return Measure::Failed(m);
            },
            FrameStep::Frame(v) => v,
        };
        if frame.get("id").is_some() {
            return match decode_response(&frame) {
                Err(e) => Measure::Failed(e),
                Ok(r) => {
                    let ours = match &r.id {
                        Some(id) => id.is_number(2),
                        None => false,
                    };
                    if !ours {
                        return Measure::Pending;
                    }
                    match r.error {
                        Some(e) => {
                            let mut m = "agent/run failed: ".to_owned();
                            m.append(e.message.as_str());
                            m.append(" (code ");
                            m.append(i64_to_string(e.code).as_str());
                            m.append(")");
                            Measure::Failed(m)
                        },
                        None => Measure::Done(self.sample(&r.result, now)),
                    }
                },
            };
        }
        match frame.text_at("method") {
            None => {},
            Some(method) => {
                let params = frame.get_or_null("params");
                self.notify(method, params.text_at("text"), now);
            },
        }
        Measure::Pending
    }
}

/// The time to the first token, once it is known, stays; and no sample has it later than the end,
/// where time does not run backwards.
pub proof fn first_token_stays(st: BenchRunView, event: EventView, now: u64)
    requires
        st.ttft_ms matches Some(t) ==> t <= now,
    ensures
        ({
            let (after, measure) = bench_after(st, event, now);
            &&& st.ttft_ms is Some ==> after.ttft_ms == st.ttft_ms
            &&& after.ttft_ms matches Some(t) ==> t <= now
            &&& measure matches MeasureView::Done(sample) ==> sample.ttft_ms <= sample.duration_ms
        }),
{
}

// ---------------------------------------------------------------------------
// Laws
// ---------------------------------------------------------------------------

/// The presets build on each other: the full one runs the streaming scenarios, then those with
/// tools, then the recovery; a smoke test runs the first of the streaming ones. No preset is empty,
/// and scenarios that are named are run as they are named, whatever the preset.
pub proof fn presets_build_on_each_other(
    named: Seq<Seq<char>>,
    suite: Option<BenchSuite>,
    preset_suite: BenchSuite,
)
    ensures
        preset(BenchSuite::Full) == preset(BenchSuite::Streaming) + preset(BenchSuite::Tools)
            + seq!["error-recovery"@],
        preset(BenchSuite::Smoke) == preset(BenchSuite::Streaming).take(1),
        preset(BenchSuite::Streaming) == seq![
            "streaming-short"@,
            "streaming-medium"@,
            "streaming-long"@,
        ],
        preset(BenchSuite::Tools) == seq!["tool-call-single"@, "tool-call-parallel"@],
        named.len() > 0 ==> resolved(named, suite) == named,
        resolved(Seq::empty(), Some(preset_suite)) == preset(preset_suite),
        resolved(named, suite).len() > 0,
        preset(BenchSuite::Streaming).contains(resolved(Seq::empty(), None)[0]),
        resolved(Seq::empty(), None).len() == 1,
{
    assert(preset(BenchSuite::Full) =~= preset(BenchSuite::Streaming) + preset(BenchSuite::Tools)
        + seq!["error-recovery"@]);
    assert(preset(BenchSuite::Smoke) =~= preset(BenchSuite::Streaming).take(1));
    assert(preset(BenchSuite::Streaming)[1] == "streaming-medium"@);
}

/// The introduction ends with the answer to the first request: well where that has no error, and
/// otherwise with the error's message and code. Other frames are passed over, and so are blank
/// lines; whatever else comes fails it.
pub proof fn introductions_wait_for_their_answer(
    event: EventView,
    frame: JsonView,
    result: JsonView,
    code: int,
    message: Seq<char>,
    reason: Seq<char>,
)
    ensures
        frame_in(event, bench_words()) == FrameView::Frame(frame) ==> {
            &&& frame.get("id"@) != Some(JsonView::Int(1)) ==> introduced(event) is Pending
            &&& frame.get("id"@) == Some(JsonView::Int(1)) && brings(frame, result) ==> introduced(
                event,
            ) is Done
            &&& frame.get("id"@) == Some(JsonView::Int(1)) && refuses(frame, code, message)
                ==> introduced(event) == IntroductionView::Failed(
                "initialize failed: "@ + message + " (code "@ + signed_decimal(code) + ")"@,
            )
        },
        introduced(EventView::Closed) == IntroductionView::Failed("plugin stdout closed"@),
        introduced(EventView::Quiet) == IntroductionView::Failed("bench iteration timed out"@),
        introduced(EventView::ReadFailed(reason)) == IntroductionView::Failed(reason),
{
}

/// What a measured request says: the prompt, the model and the scenario that it was built for, and
/// the whole seconds within the time limit, but at least one.
pub proof fn bench_requests_say_what_is_measured(
    prompt: Seq<char>,
    model: Seq<char>,
    scenario: Seq<char>,
    timeout_ms: int,
)
    requires
        timeout_ms >= 0,
    ensures
        ({
            let r = bench_request_view(prompt, model, scenario, timeout_ms);
            &&& r.get("id"@) == Some(JsonView::Int(2))
            &&& says(r, "method"@, "agent/run"@)
            &&& r.get("params"@) matches Some(p) && {
                &&& says(p, "prompt"@, prompt)
                &&& says(p, "model"@, model)
                &&& says(p, "cwd"@, "."@)
                &&& p.get("timeout_secs"@) matches Some(JsonView::Int(secs)) && {
                    &&& secs >= 1
                    &&& timeout_ms >= 1000 ==> secs * 1000 <= timeout_ms < (secs + 1) * 1000
                    &&& timeout_ms < 1000 ==> secs == 1
                }
                &&& p.get("env"@) matches Some(e) && says(e, "MOCK_SCENARIO"@, scenario)
            }
        }),
{
    bench_keys_differ();
    frame_keys_differ();
}

/// The keys of the parameters are all different.
proof fn bench_keys_differ()
    ensures
        "prompt"@ != "model"@,
        "prompt"@ != "cwd"@,
        "prompt"@ != "timeout_secs"@,
        "prompt"@ != "env"@,
        "model"@ != "cwd"@,
        "model"@ != "timeout_secs"@,
        "model"@ != "env"@,
        "cwd"@ != "timeout_secs"@,
        "cwd"@ != "env"@,
        "timeout_secs"@ != "env"@,
{
    reveal_strlit("prompt");
    reveal_strlit("model");
    reveal_strlit("cwd");
    reveal_strlit("timeout_secs");
    reveal_strlit("env");
    assert("prompt"@.len() == 6);
    assert("model"@.len() == 5);
    assert("cwd"@.len() == 3);
    assert("timeout_secs"@.len() == 12);
    assert("env"@.len() == 3);
    assert("cwd"@[0] != "env"@[0]);
}

proof fn agent_methods()
    ensures
        has_prefix("agent/output"@, "agent/"@),
        has_prefix("agent/thinking"@, "agent/"@),
        has_prefix("agent/toolCall"@, "agent/"@),
        has_prefix("agent/toolResult"@, "agent/"@),
        has_prefix("agent/error"@, "agent/"@),
        "agent/output"@ != "agent/thinking"@,
        "agent/output"@ != "agent/toolCall"@,
        "agent/output"@ != "agent/toolResult"@,
        "agent/output"@ != "agent/error"@,
{
    reveal_strlit("agent/");
    reveal_strlit("agent/output");
    reveal_strlit("agent/thinking");
    reveal_strlit("agent/toolCall");
    reveal_strlit("agent/toolResult");
    reveal_strlit("agent/error");
    assert("agent/output"@.len() == 12);
    assert("agent/thinking"@.len() == 14);
    assert("agent/toolCall"@.len() == 14);
    assert("agent/toolResult"@.len() == 16);
    assert("agent/error"@.len() == 11);
    assert("agent/thinking"@[7] != "agent/toolCall"@[7]);
    assert("agent/output"@.subrange(0, 6) =~= "agent/"@);
    assert("agent/thinking"@.subrange(0, 6) =~= "agent/"@);
    assert("agent/toolCall"@.subrange(0, 6) =~= "agent/"@);
    assert("agent/toolResult"@.subrange(0, 6) =~= "agent/"@);
    assert("agent/error"@.subrange(0, 6) =~= "agent/"@);
}

/// Every notification of the agent is counted once, as far as the count goes. Output adds its bytes
/// in UTF-8, and the first output sets the time to the first token; nothing else does either. No
/// notification ends the measurement.
pub proof fn every_notification_is_measured(
    st: BenchRunView,
    event: EventView,
    frame: JsonView,
    n: NotificationView,
    now: u64,
)
    requires
        frame_in(event, bench_words()) == FrameView::Frame(frame),
        sends(frame, n),
        st.notification_count <= u32::MAX,
    ensures
        ({
            let (after, measure) = bench_after(st, event, now);
            &&& measure is Pending
            &&& after.iteration == st.iteration
            &&& st.notification_count < u32::MAX ==> after.notification_count
                == st.notification_count + 1
            &&& st.notification_count == u32::MAX ==> after.notification_count
                == st.notification_count
            &&& match n {
                NotificationView::Output { text, .. } => {
                    &&& after.ttft_ms == Some(
                        if st.ttft_ms is Some {
                            st.ttft_ms->0
                        } else {
                            now
                        },
                    )
                    &&& st.output_bytes + encode_utf8(text).len() <= usize::MAX
                        ==> after.output_bytes == st.output_bytes + encode_utf8(text).len()
                    &&& st.output_bytes + encode_utf8(text).len() > usize::MAX
                        ==> after.output_bytes == usize::MAX
                },
                _ => after.ttft_ms == st.ttft_ms && after.output_bytes == st.output_bytes,
            }
        }),
{
    agent_methods();
    if let NotificationView::Output { text, .. } = n {
        utf8_len_is_encoded_len(text);
    }
}

/// Frames that are neither a notification of the agent nor an answer leave a measurement as it is.
pub proof fn other_frames_are_not_measured(
    st: BenchRunView,
    event: EventView,
    frame: JsonView,
    method: Seq<char>,
    result: JsonView,
    now: u64,
)
    requires
        frame_in(event, bench_words()) == FrameView::Frame(frame),
    ensures
        frame.get("id"@) is None && says(frame, "method"@, method) && !has_prefix(
            method,
            "agent/"@,
        ) ==> bench_after(st, event, now) == (st, MeasureView::Pending),
        frame.get("id"@) is None && frame.get("method"@) is None ==> bench_after(st, event, now)
            == (st, MeasureView::Pending),
        frame.get("id"@) matches Some(JsonView::Int(id)) && id != 2 && brings(frame, result)
            ==> bench_after(st, event, now) == (st, MeasureView::Pending),
{
    agent_methods();
}

/// The answer ends a measurement with what was counted: the time that passed, the time to the first
/// token, which is the same where there was no output, the notifications, and the bytes that were
/// streamed or those of the final output, whichever are more.
pub proof fn answers_end_measurements(
    st: BenchRunView,
    event: EventView,
    frame: JsonView,
    result: JsonView,
    response: RunResponseView,
    now: u64,
)
    requires
        frame_in(event, bench_words()) == FrameView::Frame(frame),
        brings(frame, result),
        frame.get("id"@) == Some(JsonView::Int(2)),
        holds_response(result, response),
        i32::MIN <= response.exit_code <= i32::MAX,
        0 <= st.notification_count <= u32::MAX,
        0 <= st.output_bytes <= usize::MAX,
        encode_utf8(response.output).len() <= usize::MAX,
    ensures
        bench_after(st, event, now) matches (after, MeasureView::Done(sample)) && {
            &&& sample.iteration == st.iteration
            &&& sample.duration_ms == now
            &&& sample.ttft_ms == if st.ttft_ms is Some {
                st.ttft_ms->0
            } else {
                now
            }
            &&& sample.notification_count == st.notification_count
            &&& sample.output_bytes >= st.output_bytes
            &&& sample.output_bytes >= encode_utf8(response.output).len()
            &&& sample.output_bytes == st.output_bytes || sample.output_bytes == encode_utf8(
                response.output,
            ).len()
        },
{
    responses_read_back(result, response);
    utf8_len_is_encoded_len(response.output);
}

/// An answer with an error fails a measurement, with the message and the code; so does the end of
/// the stream, of the time, or of what can be read.
pub proof fn errors_fail_measurements(
    st: BenchRunView,
    event: EventView,
    frame: JsonView,
    code: int,
    message: Seq<char>,
    reason: Seq<char>,
    now: u64,
)
    ensures
        frame_in(event, bench_words()) == FrameView::Frame(frame) && frame.get("id"@) == Some(
            JsonView::Int(2),
        ) && refuses(frame, code, message) ==> bench_after(st, event, now).1 == MeasureView::Failed(
            "agent/run failed: "@ + message + " (code "@ + signed_decimal(code) + ")"@,
        ),
        bench_after(st, EventView::Closed, now).1 == MeasureView::Failed("plugin stdout closed"@),
        bench_after(st, EventView::Quiet, now).1 == MeasureView::Failed(
            "bench iteration timed out"@,
        ),
        bench_after(st, EventView::ReadFailed(reason), now).1 == MeasureView::Failed(reason),
{
}

} // verus!
