//! The values that scenarios, runs and reports are made of.

use crate::json::{Json, JsonView};
use crate::text::{contains, has_substring, opt_text, same, texts};
use crate::views::{group_views, opt, views};
use vstd::prelude::*;

verus! {

broadcast use group_views;

/// How long a scenario may take where its file does not say.
pub const DEFAULT_TIMEOUT_MS: u64 = 10_000;

// ---------------------------------------------------------------------------
// Scenarios
// ---------------------------------------------------------------------------

/// Which request a scenario sends.
#[derive(Debug, Clone, Copy, PartialEq, Eq, Structural)]
pub enum ScenarioMethod {
    Run,
    Resume,
}

impl Default for ScenarioMethod {
    fn default() -> (r: ScenarioMethod)
        ensures
            r == ScenarioMethod::Run,
    {
        ScenarioMethod::Run
    }
}

impl View for ScenarioMethod {
    type V = ScenarioMethod;

    open spec fn view(&self) -> ScenarioMethod {
        *self
    }
}

/// The part of a run request that a scenario sets.
///
/// In `env` a later entry replaces an earlier one with the same name.
#[derive(Debug, Clone, PartialEq)]
pub struct ScenarioRequest {
    pub prompt: String,
    pub model: Option<String>,
    pub system_prompt: Option<String>,
    pub cwd: Option<String>,
    pub session_id: Option<String>,
    pub env: Vec<(String, String)>,
}

#[verifier::ext_equal]
pub struct RequestView {
    pub prompt: Seq<char>,
    pub model: Option<Seq<char>>,
    pub system_prompt: Option<Seq<char>>,
    pub cwd: Option<Seq<char>>,
    pub session_id: Option<Seq<char>>,
    pub env: Map<Seq<char>, Seq<char>>,
}

/// The map that a list of names and values stands for.
pub open spec fn env_view(env: Seq<(String, String)>) -> Map<Seq<char>, Seq<char>>
    decreases env.len(),
{
    if env.len() == 0 {
        Map::empty()
    } else {
        env_view(env.drop_last()).insert(env.last().0@, env.last().1@)
    }
}

/// One more entry at the end sets that entry of the map.
pub proof fn env_view_push(env: Seq<(String, String)>, entry: (String, String))
    ensures
        env_view(env.push(entry)) == env_view(env).insert(entry.0@, entry.1@),
{
    assert(env.push(entry).drop_last() =~= env);
}

impl View for ScenarioRequest {
    type V = RequestView;

    open spec fn view(&self) -> RequestView {
        RequestView {
            prompt: self.prompt@,
            model: opt_text(self.model),
            system_prompt: opt_text(self.system_prompt),
            cwd: opt_text(self.cwd),
            session_id: opt_text(self.session_id),
            env: env_view(self.env@),
        }
    }
}

/// A loose pattern for one notification of the stream.
#[derive(Debug, Clone, PartialEq)]
pub enum ExpectedNotification {
    Output { contains: Option<String> },
    Thinking,
    ToolCall { name: Option<String> },
    ToolResult,
    Error { recoverable: Option<bool> },
}

pub enum ExpectedView {
    Output { contains: Option<Seq<char>> },
    Thinking,
    ToolCall { name: Option<Seq<char>> },
    ToolResult,
    Error { recoverable: Option<bool> },
}

impl View for ExpectedNotification {
    type V = ExpectedView;

    open spec fn view(&self) -> ExpectedView {
        match self {
            ExpectedNotification::Output { contains } => ExpectedView::Output {
                contains: opt_text(*contains),
            },
            ExpectedNotification::Thinking => ExpectedView::Thinking,
            ExpectedNotification::ToolCall { name } => ExpectedView::ToolCall {
                name: opt_text(*name),
            },
            ExpectedNotification::ToolResult => ExpectedView::ToolResult,
            ExpectedNotification::Error { recoverable } => ExpectedView::Error {
                recoverable: *recoverable,
            },
        }
    }
}

impl ExpectedView {
    /// Whether a notification fits the pattern: its kind, and the one detail that the pattern
    /// names, if it names one.
    pub open spec fn fits(self, n: NotificationView) -> bool {
        match (self, n) {
            (ExpectedView::Output { contains }, NotificationView::Output { text, .. }) => {
                contains matches Some(part) ==> has_substring(text, part)
            },
            (ExpectedView::Thinking, NotificationView::Thinking { .. }) => true,
            (ExpectedView::ToolCall { name }, NotificationView::ToolCall { name: called, .. }) => {
                name matches Some(wanted) ==> wanted == called
            },
            (ExpectedView::ToolResult, NotificationView::ToolResult { .. }) => true,
            (
                ExpectedView::Error { recoverable },
                NotificationView::Error { recoverable: flag, .. },
            ) => recoverable matches Some(wanted) ==> wanted == flag,
            _ => false,
        }
    }

    /// The name of the kind that the pattern is for.
    pub open spec fn label(self) -> Seq<char> {
        match self {
            ExpectedView::Output { .. } => "output"@,
            ExpectedView::Thinking => "thinking"@,
            ExpectedView::ToolCall { .. } => "toolCall"@,
            ExpectedView::ToolResult => "toolResult"@,
            ExpectedView::Error { .. } => "error"@,
        }
    }
}

impl ExpectedNotification {
    /// Whether a notification fits the pattern.
    pub fn matches(&self, n: &AgentNotification) -> (r: bool)
        ensures
            r == self@.fits(n@),
    {
        match self {
            ExpectedNotification::Output { contains: part } => match n {
                AgentNotification::Output { text, .. } => match part {
                    Some(p) => contains(text.as_str(), p.as_str()),
                    None => true,
                },
                _ => false,
            },
            ExpectedNotification::Thinking => match n {
                AgentNotification::Thinking { .. } => true,
                _ => false,
            },
            ExpectedNotification::ToolCall { name: wanted } => match n {
                AgentNotification::ToolCall { name, .. } => match wanted {
                    Some(w) => same(w.as_str(), name.as_str()),
                    None => true,
                },
                _ => false,
            },
            ExpectedNotification::ToolResult => match n {
                AgentNotification::ToolResult { .. } => true,
                _ => false,
            },
            ExpectedNotification::Error { recoverable: wanted } => match n {
                AgentNotification::Error { recoverable, .. } => match wanted {
                    Some(w) => *w == *recoverable,
                    None => true,
                },
                _ => false,
            },
        }
    }

    /// The name of the kind that the pattern is for.
    pub fn label(&self) -> (r: &'static str)
        ensures
            r@ == self@.label(),
    {
        match self {
            ExpectedNotification::Output { .. } => "output",
            ExpectedNotification::Thinking => "thinking",
            ExpectedNotification::ToolCall { .. } => "toolCall",
            ExpectedNotification::ToolResult => "toolResult",
            ExpectedNotification::Error { .. } => "error",
        }
    }
}

/// What a scenario expects of the final response.
#[derive(Debug, Clone, PartialEq)]
pub struct ExpectedResponse {
    pub output_contains: Option<String>,
    pub min_output_len: Option<usize>,
    pub exit_code: Option<i32>,
}

#[verifier::ext_equal]
pub struct ExpectedResponseView {
    pub output_contains: Option<Seq<char>>,
    pub min_output_len: Option<usize>,
    pub exit_code: Option<i32>,
}

impl View for ExpectedResponse {
    type V = ExpectedResponseView;

    open spec fn view(&self) -> ExpectedResponseView {
        ExpectedResponseView {
            output_contains: opt_text(self.output_contains),
            min_output_len: self.min_output_len,
            exit_code: self.exit_code,
        }
    }
}

impl ExpectedResponseView {
    /// Whether the final response is free.
    pub open spec fn is_free(self) -> bool {
        self.output_contains is None && self.min_output_len is None && self.exit_code is None
    }
}

impl Default for ExpectedResponse {
    fn default() -> (r: ExpectedResponse)
        ensures
            r@.is_free(),
    {
        ExpectedResponse { output_contains: None, min_output_len: None, exit_code: None }
    }
}

/// Which mock stands in for the real tool, and which of its scripts it plays.
#[derive(Debug, Clone, PartialEq)]
pub struct MockHint {
    /// The name of a mocked tool, `oai`, or `none`.
    pub tool: Option<String>,
    pub mock_scenario: Option<String>,
}

#[verifier::ext_equal]
pub struct MockHintView {
    pub tool: Option<Seq<char>>,
    pub mock_scenario: Option<Seq<char>>,
}

impl View for MockHint {
    type V = MockHintView;

    open spec fn view(&self) -> MockHintView {
        MockHintView { tool: opt_text(self.tool), mock_scenario: opt_text(self.mock_scenario) }
    }
}

impl Default for MockHint {
    fn default() -> (r: MockHint)
        ensures
            r@ == (MockHintView { tool: None, mock_scenario: None }),
    {
        MockHint { tool: None, mock_scenario: None }
    }
}

/// One scenario, as a scenario file declares it.
#[derive(Debug, Clone, PartialEq)]
pub struct ScenarioFile {
    pub name: String,
    pub description: String,
    pub timeout_ms: u64,
    pub request: ScenarioRequest,
    pub expected_notifications: Vec<ExpectedNotification>,
    pub allow_extra_notifications: bool,
    pub expected_response: ExpectedResponse,
    pub mock: MockHint,
    pub requires_capabilities: Vec<String>,
    pub skip_if_capabilities: Vec<String>,
    pub method: ScenarioMethod,
    /// When set, the run is to be cancelled this many milliseconds after the plugin has named its
    /// session.
    pub cancel_after_ms: Option<u64>,
}

#[verifier::ext_equal]
pub struct ScenarioView {
    pub name: Seq<char>,
    pub description: Seq<char>,
    pub timeout_ms: int,
    pub request: RequestView,
    pub expected_notifications: Seq<ExpectedView>,
    pub allow_extra_notifications: bool,
    pub expected_response: ExpectedResponseView,
    pub mock: MockHintView,
    pub requires_capabilities: Seq<Seq<char>>,
    pub skip_if_capabilities: Seq<Seq<char>>,
    pub method: ScenarioMethod,
    pub cancel_after_ms: Option<u64>,
}

impl View for ScenarioFile {
    type V = ScenarioView;

    open spec fn view(&self) -> ScenarioView {
        ScenarioView {
            name: self.name@,
            description: self.description@,
            timeout_ms: self.timeout_ms as int,
            request: self.request@,
            expected_notifications: views(self.expected_notifications@),
            allow_extra_notifications: self.allow_extra_notifications,
            expected_response: self.expected_response@,
            mock: self.mock@,
            requires_capabilities: texts(self.requires_capabilities@),
            skip_if_capabilities: texts(self.skip_if_capabilities@),
            method: self.method,
            cancel_after_ms: self.cancel_after_ms,
        }
    }
}

// ---------------------------------------------------------------------------
// What a plugin sends
// ---------------------------------------------------------------------------

/// One notification of a run.
#[derive(Debug, PartialEq)]
pub enum AgentNotification {
    Output { session_id: String, text: String, is_final: bool },
    Thinking { session_id: String, text: String },
    ToolCall { session_id: String, name: String, arguments: Json, server: Option<String> },
    ToolResult { session_id: String, name: String, output: Json, success: bool },
    Error { session_id: String, message: String, recoverable: bool },
}

#[verifier::ext_equal]
pub enum NotificationView {
    Output { session_id: Seq<char>, text: Seq<char>, is_final: bool },
    Thinking { session_id: Seq<char>, text: Seq<char> },
    ToolCall {
        session_id: Seq<char>,
        name: Seq<char>,
        arguments: JsonView,
        server: Option<Seq<char>>,
    },
    ToolResult { session_id: Seq<char>, name: Seq<char>, output: JsonView, success: bool },
    Error { session_id: Seq<char>, message: Seq<char>, recoverable: bool },
}

impl View for AgentNotification {
    type V = NotificationView;

    open spec fn view(&self) -> NotificationView {
        match self {
            AgentNotification::Output { session_id, text, is_final } => NotificationView::Output {
                session_id: session_id@,
                text: text@,
                is_final: *is_final,
            },
            AgentNotification::Thinking { session_id, text } => NotificationView::Thinking {
                session_id: session_id@,
                text: text@,
            },
            AgentNotification::ToolCall { session_id, name, arguments, server } => {
                NotificationView::ToolCall {
                    session_id: session_id@,
                    name: name@,
                    arguments: arguments@,
                    server: opt_text(*server),
                }
            },
            AgentNotification::ToolResult { session_id, name, output, success } => {
                NotificationView::ToolResult {
                    session_id: session_id@,
                    name: name@,
                    output: output@,
                    success: *success,
                }
            },
            AgentNotification::Error { session_id, message, recoverable } => {
                NotificationView::Error {
                    session_id: session_id@,
                    message: message@,
                    recoverable: *recoverable,
                }
            },
        }
    }
}

impl NotificationView {
    /// The session that the notification belongs to.
    pub open spec fn session(self) -> Seq<char> {
        match self {
            NotificationView::Output { session_id, .. } => session_id,
            NotificationView::Thinking { session_id, .. } => session_id,
            NotificationView::ToolCall { session_id, .. } => session_id,
            NotificationView::ToolResult { session_id, .. } => session_id,
            NotificationView::Error { session_id, .. } => session_id,
        }
    }

    /// Whether the notification ends the run.
    pub open spec fn is_fatal(self) -> bool {
        self matches NotificationView::Error { recoverable, .. } && !recoverable
    }
}

impl AgentNotification {
    /// The session that the notification belongs to.
    pub fn session(&self) -> (r: &str)
        ensures
            r@ == self@.session(),
    {
        match self {
            AgentNotification::Output { session_id, .. } => session_id.as_str(),
            AgentNotification::Thinking { session_id, .. } => session_id.as_str(),
            AgentNotification::ToolCall { session_id, .. } => session_id.as_str(),
            AgentNotification::ToolResult { session_id, .. } => session_id.as_str(),
            AgentNotification::Error { session_id, .. } => session_id.as_str(),
        }
    }

    /// Whether the notification ends the run.
    pub fn is_fatal(&self) -> (r: bool)
        ensures
            r == self@.is_fatal(),
    {
        match self {
            AgentNotification::Error { recoverable, .. } => !*recoverable,
            _ => false,
        }
    }
}

/// The result of a run.
#[derive(Debug, PartialEq)]
pub struct AgentRunResponse {
    pub session_id: String,
    pub exit_code: i32,
    pub output: String,
}

#[verifier::ext_equal]
pub struct RunResponseView {
    pub session_id: Seq<char>,
    pub exit_code: int,
    pub output: Seq<char>,
}

impl View for AgentRunResponse {
    type V = RunResponseView;

    open spec fn view(&self) -> RunResponseView {
        RunResponseView {
            session_id: self.session_id@,
            exit_code: self.exit_code as int,
            output: self.output@,
        }
    }
}

// ---------------------------------------------------------------------------
// Results
// ---------------------------------------------------------------------------

/// How a scenario went.
#[derive(Debug, Clone, PartialEq, Eq)]
pub enum TestStatus {
    Pass,
    Fail { reason: String },
    Skip { reason: String },
}

#[verifier::ext_equal]
pub enum StatusView {
    Pass,
    Fail { reason: Seq<char> },
    Skip { reason: Seq<char> },
}

impl View for TestStatus {
    type V = StatusView;

    open spec fn view(&self) -> StatusView {
        match self {
            TestStatus::Pass => StatusView::Pass,
            TestStatus::Fail { reason } => StatusView::Fail { reason: reason@ },
            TestStatus::Skip { reason } => StatusView::Skip { reason: reason@ },
        }
    }
}

impl TestStatus {
    pub fn is_pass(&self) -> (r: bool)
        ensures
            r == (self@ is Pass),
    {
        match self {
            TestStatus::Pass => true,
            _ => false,
        }
    }

    pub fn is_skip(&self) -> (r: bool)
        ensures
            r == (self@ is Skip),
    {
        match self {
            TestStatus::Skip { .. } => true,
            _ => false,
        }
    }

    /// The same status again.
    pub fn copy(&self) -> (r: TestStatus)
        ensures
            r@ == self@,
    {
        match self {
            TestStatus::Pass => TestStatus::Pass,
            TestStatus::Fail { reason } => TestStatus::Fail { reason: reason.clone() },
            TestStatus::Skip { reason } => TestStatus::Skip { reason: reason.clone() },
        }
    }
}

/// The result of one scenario against one plugin.
#[derive(Debug, PartialEq)]
pub struct TestResult {
    pub scenario: String,
    pub status: TestStatus,
    pub duration_ms: u64,
    pub notification_log: Vec<AgentNotification>,
    pub response: Option<AgentRunResponse>,
    pub diagnostics: Vec<String>,
}

#[verifier::ext_equal]
pub struct ResultView {
    pub scenario: Seq<char>,
    pub status: StatusView,
    pub duration_ms: int,
    pub notification_log: Seq<NotificationView>,
    pub response: Option<RunResponseView>,
    pub diagnostics: Seq<Seq<char>>,
}

impl View for TestResult {
    type V = ResultView;

    open spec fn view(&self) -> ResultView {
        ResultView {
            scenario: self.scenario@,
            status: self.status@,
            duration_ms: self.duration_ms as int,
            notification_log: views(self.notification_log@),
            response: opt(self.response),
            diagnostics: texts(self.diagnostics@),
        }
    }
}

/// A result without a run behind it.
pub open spec fn bare_result(
    scenario: Seq<char>,
    status: StatusView,
    duration_ms: int,
    diagnostics: Seq<Seq<char>>,
) -> ResultView {
    ResultView {
        scenario,
        status,
        duration_ms,
        notification_log: Seq::empty(),
        response: None,
        diagnostics,
    }
}

/// Builds the result of a check that keeps no log of notifications.
pub fn pass_or_fail(
    scenario: &str,
    status: TestStatus,
    duration_ms: u64,
    diagnostics: Vec<String>,
) -> (r: TestResult)
    ensures
        r@ == bare_result(scenario@, status@, duration_ms as int, texts(diagnostics@)),
{
    TestResult {
        scenario: scenario.to_owned(),
        status,
        duration_ms,
        notification_log: Vec::new(),
        response: None,
        diagnostics,
    }
}

/// A named check of a suite.
#[derive(Debug, Clone, PartialEq, Eq)]
pub struct TestScenario {
    pub name: &'static str,
    pub description: &'static str,
}

impl View for TestScenario {
    type V = (Seq<char>, Seq<char>);

    open spec fn view(&self) -> (Seq<char>, Seq<char>) {
        (self.name@, self.description@)
    }
}

impl TestScenario {
    pub fn new(name: &'static str, description: &'static str) -> (r: TestScenario)
        ensures
            r@ == (name@, description@),
    {
        TestScenario { name, description }
    }
}

/// How the scenarios of a report went, in numbers.
#[derive(Debug, Clone, Copy, PartialEq, Eq, Structural)]
pub struct ConformanceSummary {
    pub total: usize,
    pub passed: usize,
    pub failed: usize,
    pub skipped: usize,
}

impl Default for ConformanceSummary {
    fn default() -> (r: ConformanceSummary)
        ensures
            r == (ConformanceSummary { total: 0, passed: 0, failed: 0, skipped: 0 }),
    {
        ConformanceSummary { total: 0, passed: 0, failed: 0, skipped: 0 }
    }
}

/// The statuses of a list of results.
pub open spec fn statuses(results: Seq<TestResult>) -> Seq<StatusView> {
    results.map_values(|r: TestResult| r.status@)
}

pub open spec fn count_passed(list: Seq<StatusView>) -> nat {
    list.filter(|s: StatusView| s is Pass).len()
}

pub open spec fn count_failed(list: Seq<StatusView>) -> nat {
    list.filter(|s: StatusView| s is Fail).len()
}

pub open spec fn count_skipped(list: Seq<StatusView>) -> nat {
    list.filter(|s: StatusView| s is Skip).len()
}

proof fn counts_push(list: Seq<StatusView>, s: StatusView)
    ensures
        count_passed(list.push(s)) == count_passed(list) + if s is Pass { 1nat } else { 0 },
        count_failed(list.push(s)) == count_failed(list) + if s is Fail { 1nat } else { 0 },
        count_skipped(list.push(s)) == count_skipped(list) + if s is Skip { 1nat } else { 0 },
{
    reveal(Seq::filter);
    assert(list.push(s).drop_last() =~= list);
}

/// Every result is counted exactly once.
pub proof fn counts_add_up(list: Seq<StatusView>)
    ensures
        count_passed(list) + count_failed(list) + count_skipped(list) == list.len(),
    decreases list.len(),
{
    reveal(Seq::filter);
    if list.len() > 0 {
        counts_add_up(list.drop_last());
        counts_push(list.drop_last(), list.last());
        assert(list.drop_last().push(list.last()) =~= list);
    }
}

/// No result failed exactly where no failure is counted.
pub proof fn no_failure_counted(list: Seq<StatusView>)
    ensures
        (count_failed(list) == 0) == (forall|i: int|
            0 <= i < list.len() ==> !((#[trigger] list[i]) is Fail)),
    decreases list.len(),
{
    reveal(Seq::filter);
    if list.len() > 0 {
        let head = list.drop_last();
        no_failure_counted(head);
        counts_push(head, list.last());
        assert(head.push(list.last()) =~= list);
        if count_failed(list) == 0 {
            assert forall|i: int| 0 <= i < list.len() implies !((#[trigger] list[i]) is Fail) by {
                if i < list.len() - 1 {
                    assert(list[i] == head[i]);
                }
            }
        } else {
            if !(list.last() is Fail) {
                let i = choose|i: int| 0 <= i < head.len() && (#[trigger] head[i]) is Fail;
                assert(list[i] is Fail);
            } else {
                assert(list[list.len() - 1] is Fail);
            }
        }
    }
}

impl ConformanceSummary {
    /// Counts the results by their status.
    pub fn from_results(results: &[TestResult]) -> (r: ConformanceSummary)
        ensures
            r.total == results@.len(),
            r.passed == count_passed(statuses(results@)),
            r.failed == count_failed(statuses(results@)),
            r.skipped == count_skipped(statuses(results@)),
            r.passed + r.failed + r.skipped == r.total,
    {
        let mut passed: usize = 0;
        let mut failed: usize = 0;
        let mut skipped: usize = 0;
        let mut i: usize = 0;
        proof {
            reveal(Seq::filter);
        }
        assert(statuses(results@).take(0) =~= Seq::<StatusView>::empty());
        while i < results.len()
            invariant
                i <= results@.len(),
                passed == count_passed(statuses(results@).take(i as int)),
                failed == count_failed(statuses(results@).take(i as int)),
                skipped == count_skipped(statuses(results@).take(i as int)),
                passed + failed + skipped == i,
            decreases results@.len() - i,
        {
            let ghost head = statuses(results@).take(i as int);
            assert(statuses(results@).take(i + 1) =~= head.push(results@[i as int].status@));
            proof {
                counts_push(head, results@[i as int].status@);
            }
            match &results[i].status {
                TestStatus::Pass => {
                    passed += 1;
                },
                TestStatus::Fail { .. } => {
                    failed += 1;
                },
                TestStatus::Skip { .. } => {
                    skipped += 1;
                },
            }
            i += 1;
        }
        assert(statuses(results@).take(i as int) =~= statuses(results@));
        ConformanceSummary { total: results.len(), passed, failed, skipped }
    }

    /// Whether a run passes as a whole: something ran, and nothing failed.
    pub fn overall_pass(&self) -> (r: bool)
        ensures
            r == (self.failed == 0 && self.total > 0),
    {
        self.failed == 0 && self.total > 0
    }
}

/// A moment of UTC: the seconds since the start of 1970, and the nanoseconds in that second.
#[derive(Debug, Clone, Copy, PartialEq, Eq, Structural)]
pub struct Moment {
    pub seconds: i64,
    pub nanos: u32,
}

/// The report of one plugin.
#[derive(Debug, PartialEq)]
pub struct MatrixReport {
    pub plugin_name: String,
    pub plugin_version: String,
    pub plugin_kind: String,
    pub protocol_version: String,
    pub started_at: Moment,
    pub finished_at: Moment,
    pub scenarios: Vec<TestResult>,
    pub summary: ConformanceSummary,
    pub host: Vec<(String, Json)>,
}

// ---------------------------------------------------------------------------
// Errors
// ---------------------------------------------------------------------------

/// Why a scenario could not be loaded.
#[derive(Debug, Clone, PartialEq, Eq)]
pub enum TestkitError {
    Io(String),
    Yaml(String),
    Json(String),
    InvalidScenario(String, String),
}

#[verifier::ext_equal]
pub enum ErrorView {
    Io(Seq<char>),
    Yaml(Seq<char>),
    Json(Seq<char>),
    InvalidScenario(Seq<char>, Seq<char>),
}

impl View for TestkitError {
    type V = ErrorView;

    open spec fn view(&self) -> ErrorView {
        match self {
            TestkitError::Io(e) => ErrorView::Io(e@),
            TestkitError::Yaml(e) => ErrorView::Yaml(e@),
            TestkitError::Json(e) => ErrorView::Json(e@),
            TestkitError::InvalidScenario(path, reason) => ErrorView::InvalidScenario(
                path@,
                reason@,
            ),
        }
    }
}

impl ErrorView {
    /// The error in words.
    pub open spec fn message(self) -> Seq<char> {
        match self {
            ErrorView::Io(e) => "io: "@ + e,
            ErrorView::Yaml(e) => "yaml: "@ + e,
            ErrorView::Json(e) => "json: "@ + e,
            ErrorView::InvalidScenario(path, reason) => "invalid scenario `"@ + path + "`: "@
                + reason,
        }
    }
}

impl TestkitError {
    /// The error in words.
    pub fn message(&self) -> (r: String)
        ensures
            r@ == self@.message(),
    {
        match self {
            TestkitError::Io(e) => {
                let mut m = "io: ".to_owned();
                m.append(e.as_str());
                m
            },
            TestkitError::Yaml(e) => {
                let mut m = "yaml: ".to_owned();
                m.append(e.as_str());
                m
            },
            TestkitError::Json(e) => {
                let mut m = "json: ".to_owned();
                m.append(e.as_str());
                m
            },
            TestkitError::InvalidScenario(path, reason) => {
                let mut m = "invalid scenario `".to_owned();
                m.append(path.as_str());
                m.append("`: ");
                m.append(reason.as_str());
                m
            },
        }
    }
}

// ---------------------------------------------------------------------------
// Laws
// ---------------------------------------------------------------------------

/// Whether a text stands somewhere in another.
pub open spec fn stands_in_text(part: Seq<char>, whole: Seq<char>) -> bool {
    exists|before: Seq<char>, after: Seq<char>| whole == #[trigger] (before + part + after)
}

/// A text is found in another exactly where the other is made of something, the text, and something
/// more.
pub proof fn substrings_stand_in_text(part: Seq<char>, whole: Seq<char>)
    ensures
        has_substring(whole, part) == stands_in_text(part, whole),
{
    if has_substring(whole, part) {
        let i = choose|i: int| crate::text::occurs_at(whole, part, i);
        let before = whole.take(i);
        let after = whole.skip(i + part.len() as int);
        assert(whole =~= before + part + after);
    }
    if stands_in_text(part, whole) {
        let (before, after) = choose|before: Seq<char>, after: Seq<char>|
            whole == #[trigger] (before + part + after);
        let i = before.len() as int;
        assert(whole.subrange(i, i + part.len() as int) =~= part);
        assert(crate::text::occurs_at(whole, part, i));
    }
}

/// What each pattern accepts: a notification of its own kind and no other. Where it names a detail,
/// an output must hold the text, a tool call must have the name, and an error must be as
/// recoverable as it says.
pub proof fn patterns_accept_their_kind(
    n: NotificationView,
    part: Seq<char>,
    name: Seq<char>,
    flag: bool,
)
    ensures
        (ExpectedView::Output { contains: None }).fits(n) == (n is Output),
        (ExpectedView::Output { contains: Some(part) }).fits(n) == (
        n matches NotificationView::Output { text, .. } && stands_in_text(part, text)),
        ExpectedView::Thinking.fits(n) == (n is Thinking),
        (ExpectedView::ToolCall { name: None }).fits(n) == (n is ToolCall),
        (ExpectedView::ToolCall { name: Some(name) }).fits(n) == (
        n matches NotificationView::ToolCall { name: called, .. } && called == name),
        ExpectedView::ToolResult.fits(n) == (n is ToolResult),
        (ExpectedView::Error { recoverable: None }).fits(n) == (n is Error),
        (ExpectedView::Error { recoverable: Some(flag) }).fits(n) == (
        n matches NotificationView::Error { recoverable, .. } && recoverable == flag),
{
    if let NotificationView::Output { text, .. } = n {
        substrings_stand_in_text(part, text);
    }
}

/// Nothing is demanded of a response exactly where it need hold no text, have no length and have no
/// exit code; and an error says what went wrong behind what kind of error it is.
pub proof fn errors_say_what_went_wrong(
    e: ExpectedResponseView,
    reason: Seq<char>,
    path: Seq<char>,
)
    ensures
        e.is_free() == (e.output_contains is None && e.min_output_len is None && e.exit_code
            is None),
        ErrorView::Io(reason).message() == "io: "@ + reason,
        ErrorView::Yaml(reason).message() == "yaml: "@ + reason,
        ErrorView::Json(reason).message() == "json: "@ + reason,
        ErrorView::InvalidScenario(path, reason).message() == "invalid scenario `"@ + path + "`: "@
            + reason,
{
}

/// A result without a run has nothing logged and no response.
pub proof fn bare_results_are_bare(
    name: Seq<char>,
    status: StatusView,
    duration_ms: int,
    notes: Seq<Seq<char>>,
)
    ensures
        ({
            let r = bare_result(name, status, duration_ms, notes);
            &&& r.scenario == name
            &&& r.status == status
            &&& r.duration_ms == duration_ms
            &&& r.diagnostics == notes
            &&& r.notification_log.len() == 0
            &&& r.response is None
        }),
{
}

} // verus!
