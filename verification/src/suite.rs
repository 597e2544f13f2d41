//! What the suites for subject, transport, trigger and log storage plugins share.

use crate::codec::{json_text, render};
use crate::json::{Json, JsonView};
use crate::model::{bare_result, pass_or_fail, StatusView, TestResult, TestStatus};
use crate::rpc::{
    initialize_request, initialize_view, request, request_view, InitializeResult,
    InitializeResultView, Wording,
};
use crate::text::{
    same, shorten, shortened, shortening_keeps_what_fits, texts, utf8_len_is_encoded_len,
};
use crate::views::group_views;
use vstd::prelude::*;
use vstd::utf8::encode_utf8;

verus! {

broadcast use group_views;

/// The check that every suite begins with.
pub const HANDSHAKE: &'static str = "handshake";

/// How long a suite waits for the answer to `initialize`.
pub const HANDSHAKE_BUDGET_MS: u64 = 10_000;

/// How the suites word what can go wrong while they read.
pub open spec fn suite_words() -> Wording {
    Wording {
        closed: "plugin stdout closed",
        invalid: "invalid JSON frame: ",
        late: "read deadline exceeded",
    }
}

/// The wording of the suites.
pub fn suite_wording() -> (r: Wording)
    ensures
        r == suite_words(),
{
    Wording {
        closed: "plugin stdout closed",
        invalid: "invalid JSON frame: ",
        late: "read deadline exceeded",
    }
}

/// What an answer stands for.
pub open spec fn reply_view(r: Result<Json, String>) -> Result<JsonView, Seq<char>> {
    match r {
        Ok(j) => Ok(j@),
        Err(e) => Err(e@),
    }
}

/// What a check does next: call a method and wait for its answer, or end.
#[derive(Debug, PartialEq)]
pub enum Step {
    Call { method: String, params: Json, budget_ms: u64 },
    Done { status: TestStatus, diagnostics: Vec<String> },
}

#[verifier::ext_equal]
pub enum StepView {
    Call { method: Seq<char>, params: JsonView, budget_ms: int },
    Done { status: StatusView, diagnostics: Seq<Seq<char>> },
}

impl View for Step {
    type V = StepView;

    open spec fn view(&self) -> StepView {
        match self {
            Step::Call { method, params, budget_ms } => StepView::Call {
                method: method@,
                params: params@,
                budget_ms: *budget_ms as int,
            },
            Step::Done { status, diagnostics } => StepView::Done {
                status: status@,
                diagnostics: texts(diagnostics@),
            },
        }
    }
}

impl StepView {
    /// The end of a check that failed.
    pub open spec fn failed(reason: Seq<char>, diagnostics: Seq<Seq<char>>) -> StepView {
        StepView::Done { status: StatusView::Fail { reason }, diagnostics }
    }

    /// The end of a check that passed.
    pub open spec fn passed(diagnostics: Seq<Seq<char>>) -> StepView {
        StepView::Done { status: StatusView::Pass, diagnostics }
    }

    /// The end of a check that does not apply.
    pub open spec fn skipped(reason: Seq<char>) -> StepView {
        StepView::Done { status: StatusView::Skip { reason }, diagnostics: Seq::empty() }
    }
}

impl Step {
    pub fn call(method: &str, params: Json, budget_ms: u64) -> (r: Step)
        ensures
            r@ == (StepView::Call { method: method@, params: params@, budget_ms: budget_ms as int }),
    {
        Step::Call { method: method.to_owned(), params, budget_ms }
    }

    pub fn failed(reason: String, diagnostics: Vec<String>) -> (r: Step)
        ensures
            r@ == StepView::failed(reason@, texts(diagnostics@)),
    {
        Step::Done { status: TestStatus::Fail { reason }, diagnostics }
    }

    pub fn passed(diagnostics: Vec<String>) -> (r: Step)
        ensures
            r@ == StepView::passed(texts(diagnostics@)),
    {
        Step::Done { status: TestStatus::Pass, diagnostics }
    }

    pub fn skipped(reason: &str) -> (r: Step)
        ensures
            r@ == StepView::skipped(reason@),
    {
        let diagnostics: Vec<String> = Vec::new();
        assert(texts(diagnostics@) =~= Seq::<Seq<char>>::empty());
        Step::Done { status: TestStatus::Skip { reason: reason.to_owned() }, diagnostics }
    }
}

/// Two texts, one behind the other.
pub fn concat(a: &str, b: &str) -> (r: String)
    ensures
        r@ == a@ + b@,
{
    let mut m = a.to_owned();
    m.append(b);
    m
}

/// Three texts, one behind the other.
pub fn concat3(a: &str, b: &str, c: &str) -> (r: String)
    ensures
        r@ == a@ + b@ + c@,
{
    let mut m = a.to_owned();
    m.append(b);
    m.append(c);
    m
}

/// A value as compact text, cut where it is longer than `limit` bytes.
pub open spec fn brief(v: JsonView, limit: nat, mark: Seq<char>) -> Seq<char> {
    shortened(json_text(v), limit, mark)
}

/// Shows a value in brief.
pub fn show_brief(v: &Json, limit: usize, mark: &str) -> (r: String)
    ensures
        r@ == brief(v@, limit as nat, mark@),
{
    shorten(render(v).as_str(), limit, mark)
}

// ---------------------------------------------------------------------------
// The handshake
// ---------------------------------------------------------------------------

/// Whether the plugin is of the kind that a suite is for.
pub open spec fn kind_status(init: InitializeResultView, kind: Seq<char>) -> StatusView {
    if init.plugin_info.plugin_kind == kind {
        StatusView::Pass
    } else {
        StatusView::Fail {
            reason: "plugin_kind = `"@ + init.plugin_info.plugin_kind + "`, expected `"@ + kind
                + "`"@,
        }
    }
}

/// Judges the handshake by the kind of the plugin.
pub fn check_kind(init: &InitializeResult, kind: &str, duration_ms: u64) -> (r: TestResult)
    ensures
        r@ == bare_result(
            HANDSHAKE@,
            kind_status(init@, kind@),
            duration_ms as int,
            Seq::empty(),
        ),
{
    let status = if same(init.plugin_info.plugin_kind.as_str(), kind) {
        TestStatus::Pass
    } else {
        let mut m = "plugin_kind = `".to_owned();
        m.append(init.plugin_info.plugin_kind.as_str());
        m.append("`, expected `");
        m.append(kind);
        m.append("`");
        TestStatus::Fail { reason: m }
    };
    let none: Vec<String> = Vec::new();
    assert(texts(none@) =~= Seq::<Seq<char>>::empty());
    pass_or_fail(HANDSHAKE, status, duration_ms, none)
}

// ---------------------------------------------------------------------------
// Requests
// ---------------------------------------------------------------------------

/// The requests of one plugin process, which are numbered from one.
#[derive(Debug, PartialEq)]
pub struct Session {
    next_id: u64,
}

impl View for Session {
    type V = int;

    closed spec fn view(&self) -> int {
        self.next_id as int
    }
}

impl Session {
    /// No request yet.
    pub fn new() -> (r: Session)
        ensures
            r@ == 1,
    {
        Session { next_id: 1 }
    }

    /// Whether there are numbers left.
    pub fn has_ids(&self) -> (r: bool)
        ensures
            r == (self@ < u64::MAX),
    {
        self.next_id < u64::MAX
    }

    /// The next request, and its number. No number comes twice.
    pub fn request(&mut self, method: &str, params: Json) -> (r: (u64, Json))
        requires
            old(self)@ < u64::MAX,
        ensures
            r.0 == old(self)@,
            final(self)@ == old(self)@ + 1,
            r.1@ == request_view(old(self)@, method@, params@),
    {
        let id: u64 = self.next_id;
        self.next_id = id + 1;
        (id, request(id, method, params))
    }

    /// The `initialize` request, and its number.
    pub fn initialize(&mut self, host: &str) -> (r: (u64, Json))
        requires
            old(self)@ < u64::MAX,
        ensures
            r.0 == old(self)@,
            final(self)@ == old(self)@ + 1,
            r.1@ == initialize_view(old(self)@, host@, true),
    {
        let id: u64 = self.next_id;
        self.next_id = id + 1;
        (id, initialize_request(id, host, true))
    }
}

// ---------------------------------------------------------------------------
// Setting a check up
// ---------------------------------------------------------------------------

/// A step before the first call of a check that can fail.
#[derive(Debug, Clone, Copy, PartialEq, Eq, Structural)]
pub enum Setup {
    Spawn,
    Handshake,
    FreePort,
}

/// How a failure of such a step is introduced.
pub open spec fn setup_text(setup: Setup) -> Seq<char> {
    match setup {
        Setup::Spawn => "spawn: "@,
        Setup::Handshake => "handshake: "@,
        Setup::FreePort => "free_port: "@,
    }
}

/// The reason that is given for such a failure.
pub fn setup_reason(setup: Setup, error: &str) -> (r: String)
    ensures
        r@ == setup_text(setup) + error@,
{
    match setup {
        Setup::Spawn => concat("spawn: ", error),
        Setup::Handshake => concat("handshake: ", error),
        Setup::FreePort => concat("free_port: ", error),
    }
}

/// The result of a check that could not be set up.
pub fn setup_failed(scenario: &str, setup: Setup, error: &str, duration_ms: u64) -> (r: TestResult)
    ensures
        r@ == bare_result(
            scenario@,
            StatusView::Fail { reason: setup_text(setup) + error@ },
            duration_ms as int,
            Seq::empty(),
        ),
{
    let none: Vec<String> = Vec::new();
    assert(texts(none@) =~= Seq::<Seq<char>>::empty());
    pass_or_fail(
        scenario,
        TestStatus::Fail { reason: setup_reason(setup, error) },
        duration_ms,
        none,
    )
}

/// The handshake passes exactly where the plugin is of the kind that the suite is for, and fails
/// otherwise.
pub proof fn kinds_must_agree(init: InitializeResultView, kind: Seq<char>)
    ensures
        (kind_status(init, kind) is Pass) == (init.plugin_info.plugin_kind == kind),
        (kind_status(init, kind) is Fail) == (init.plugin_info.plugin_kind != kind),
{
}

/// A plugin of another kind is refused with both kinds, and a step before the first call that fails
/// is named with its error.
pub proof fn refusals_name_the_kinds(init: InitializeResultView, kind: Seq<char>)
    ensures
        init.plugin_info.plugin_kind != kind ==> kind_status(init, kind) == (StatusView::Fail {
            reason: "plugin_kind = `"@ + init.plugin_info.plugin_kind + "`, expected `"@ + kind
                + "`"@,
        }),
        setup_text(Setup::Spawn) == "spawn: "@,
        setup_text(Setup::Handshake) == "handshake: "@,
        setup_text(Setup::FreePort) == "free_port: "@,
{
}

/// A value in brief is its JSON text where that fits, and otherwise a beginning of it and the mark.
pub proof fn briefs_begin_the_value(v: JsonView, limit: nat, mark: Seq<char>)
    ensures
        encode_utf8(json_text(v)).len() <= limit ==> brief(v, limit, mark) == json_text(v),
        encode_utf8(json_text(v)).len() > limit ==> brief(v, limit, mark).len() >= mark.len()
            && brief(v, limit, mark).skip(brief(v, limit, mark).len() - mark.len()) == mark,
{
    shortening_keeps_what_fits(json_text(v), limit, mark, 0);
    assert(json_text(v).take(0) =~= Seq::<char>::empty());
    utf8_len_is_encoded_len(json_text(v).take(0));
}

} // verus!
