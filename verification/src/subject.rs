//! The suite for subject backend plugins.

use crate::conformance::{check_names, Conformance, ConformanceView};
use crate::json::{Json, JsonView};
use crate::model::{
    bare_result, pass_or_fail, stands_in_text, substrings_stand_in_text, StatusView, TestResult,
    TestScenario, TestStatus,
};
use crate::rpc::{says, InitializeResult, InitializeResultView};
use crate::suite::{
    brief, check_kind, concat, concat3, kind_status, reply_view, show_brief, Step, StepView,
    HANDSHAKE,
};
use crate::text::{
    clone_strings, contains, debug_texts, decimal, group_texts, has_substring, i64_to_string,
    list_contains, lower, opt_text, signed_decimal, texts, texts_debug, to_ascii_lowercase,
    usize_to_string,
};
use crate::views::{group_views, views};
use vstd::prelude::*;

verus! {

broadcast use {group_views, group_texts};

/// The name under which the suite introduces itself.
pub const HOST_NAME: &'static str = "animus-subject-conformance";

/// The kind of plugin that the suite is for.
pub const SUBJECT_KIND: &'static str = "subject_backend";

/// How long the suite waits for an answer.
pub const CALL_BUDGET_MS: u64 = 5_000;

/// How many bytes of a value are shown.
pub const SHOWN_BYTES: usize = 120;

/// The check of the kinds that a plugin names.
pub const ADVERTISE_KINDS: &'static str = "advertise-kinds";

/// The check of the list of subjects.
pub const SUBJECT_LIST: &'static str = "subject-list";

/// The check of a subject's life.
pub const CRUD_ROUND_TRIP: &'static str = "subject-crud-round-trip";

/// The check of the watch on subjects.
pub const WATCH_STREAM: &'static str = "subject-watch-stream";

/// The checks of the suite, in order.
pub open spec fn baseline() -> Seq<(Seq<char>, Seq<char>)> {
    seq![
        (HANDSHAKE@, "initialize → plugin_kind == subject_backend"@),
        (ADVERTISE_KINDS@, "capabilities.subject_kinds non-empty"@),
        (SUBJECT_LIST@, "<kind>/list returns a JSON object"@),
        (
            CRUD_ROUND_TRIP@,
            "create → get → update → delete (skipped when create unsupported)"@,
        ),
        (
            WATCH_STREAM@,
            "<kind>/watch starts a stream or returns METHOD_NOT_SUPPORTED"@,
        ),
    ]
}

/// Names the checks of the suite.
pub fn baseline_scenarios() -> (r: Vec<TestScenario>)
    ensures
        views(r@) == baseline(),
{
    let mut r: Vec<TestScenario> = Vec::new();
    r.push(TestScenario::new(HANDSHAKE, "initialize → plugin_kind == subject_backend"));
    r.push(TestScenario::new(ADVERTISE_KINDS, "capabilities.subject_kinds non-empty"));
    r.push(TestScenario::new(SUBJECT_LIST, "<kind>/list returns a JSON object"));
    r.push(
        TestScenario::new(
            CRUD_ROUND_TRIP,
            "create → get → update → delete (skipped when create unsupported)",
        ),
    );
    r.push(
        TestScenario::new(
            WATCH_STREAM,
            "<kind>/watch starts a stream or returns METHOD_NOT_SUPPORTED",
        ),
    );
    assert(views(r@) =~= baseline());
    r
}

/// Begins a run of the suite, where the plugin could be asked to introduce itself.
pub fn begin<E>(probe: Result<InitializeResult, E>) -> (r: Result<Conformance, E>)
    ensures
        match probe {
            Ok(init) => r is Ok && r->Ok_0@ == ConformanceView::fresh(
                init@,
                check_names(baseline()),
            ) && r->Ok_0@.valid(),
            Err(e) => r == Err::<Conformance, E>(e),
        },
{
    Conformance::of_checks(probe, &baseline_scenarios())
}

/// Judges the handshake.
pub fn run_handshake(init: &InitializeResult, duration_ms: u64) -> (r: TestResult)
    ensures
        r@ == bare_result(
            HANDSHAKE@,
            kind_status(init@, SUBJECT_KIND@),
            duration_ms as int,
            Seq::empty(),
        ),
{
    check_kind(init, SUBJECT_KIND, duration_ms)
}

/// Whether the plugin names the kinds of its subjects, and what it names.
pub open spec fn advertised(init: InitializeResultView) -> (StatusView, Seq<Seq<char>>) {
    let kinds = "subject_kinds = "@ + texts_debug(init.capabilities.subject_kinds);
    if init.capabilities.subject_kinds.len() == 0 {
        (StatusView::Fail { reason: "capabilities.subject_kinds is empty"@ }, seq![kinds])
    } else {
        (
            StatusView::Pass,
            seq![kinds, "methods advertised: "@ + decimal(init.capabilities.methods.len())],
        )
    }
}

/// Judges whether the plugin names the kinds of its subjects.
pub fn run_advertise_kinds(init: &InitializeResult, duration_ms: u64) -> (r: TestResult)
    ensures
        r@ == bare_result(
            ADVERTISE_KINDS@,
            advertised(init@).0,
            duration_ms as int,
            advertised(init@).1,
        ),
{
    let mut diagnostics: Vec<String> = Vec::new();
    diagnostics.push(
        concat("subject_kinds = ", debug_texts(&init.capabilities.subject_kinds).as_str()),
    );
    let status = if init.capabilities.subject_kinds.len() == 0 {
        TestStatus::Fail { reason: "capabilities.subject_kinds is empty".to_owned() }
    } else {
        diagnostics.push(
            concat(
                "methods advertised: ",
                usize_to_string(init.capabilities.methods.len()).as_str(),
            ),
        );
        TestStatus::Pass
    };
    assert(texts(diagnostics@) =~= advertised(init@).1);
    pass_or_fail(ADVERTISE_KINDS, status, duration_ms, diagnostics)
}

// ---------------------------------------------------------------------------
// Methods
// ---------------------------------------------------------------------------

/// The first kind of subject that the plugin names.
pub open spec fn first_kind(init: InitializeResultView) -> Option<Seq<char>> {
    if init.capabilities.subject_kinds.len() == 0 {
        None
    } else {
        Some(init.capabilities.subject_kinds[0])
    }
}

/// The method for a verb: that of the kind, where the plugin has it, or else the general one.
pub open spec fn picked(
    methods: Seq<Seq<char>>,
    kind: Option<Seq<char>>,
    verb: Seq<char>,
) -> Option<Seq<char>> {
    match kind {
        Some(k) if methods.contains(k + "/"@ + verb) => Some(k + "/"@ + verb),
        _ => if methods.contains("subject/"@ + verb) {
            Some("subject/"@ + verb)
        } else {
            None
        },
    }
}

/// The method of the plugin for a verb.
pub open spec fn method_for(init: InitializeResultView, verb: Seq<char>) -> Option<Seq<char>> {
    picked(init.capabilities.methods, first_kind(init), verb)
}

/// Picks the method of the plugin for a verb.
pub fn pick_method(init: &InitializeResult, verb: &str) -> (r: Option<String>)
    ensures
        opt_text(r) == method_for(init@, verb@),
{
    if init.capabilities.subject_kinds.len() > 0 {
        let kind = &init.capabilities.subject_kinds[0];
        assert(texts(init.capabilities.subject_kinds@)[0] == kind@);
        let candidate = concat3(kind.as_str(), "/", verb);
        if list_contains(&init.capabilities.methods, candidate.as_str()) {
            return Some(candidate);
        }
    }
    let fallback = concat("subject/", verb);
    if list_contains(&init.capabilities.methods, fallback.as_str()) {
        Some(fallback)
    } else {
        None
    }
}

/// Picks the method that lists subjects.
pub fn list_method(init: &InitializeResult) -> (r: Option<String>)
    ensures
        opt_text(r) == method_for(init@, "list"@),
{
    pick_method(init, "list")
}

// ---------------------------------------------------------------------------
// Listing
// ---------------------------------------------------------------------------

/// How the check of the list begins.
pub open spec fn list_begin(init: InitializeResultView) -> StepView {
    match method_for(init, "list"@) {
        None => StepView::skipped("plugin advertises no `*/list` method"@),
        Some(method) => StepView::Call {
            method,
            params: JsonView::object(),
            budget_ms: CALL_BUDGET_MS as int,
        },
    }
}

/// Begins the check of the list.
pub fn run_list(init: &InitializeResult) -> (r: Step)
    ensures
        r@ == list_begin(init@),
{
    match list_method(init) {
        None => Step::skipped("plugin advertises no `*/list` method"),
        Some(method) => Step::call(method.as_str(), Json::object(), CALL_BUDGET_MS),
    }
}

/// How the answer to the list is judged: an object, a list and null are fine.
pub open spec fn list_end(method: Seq<char>, reply: Result<JsonView, Seq<char>>) -> StepView {
    match reply {
        Err(e) => StepView::failed(method + ": "@ + e, Seq::empty()),
        Ok(v) => if v is Object || v is List || v is Null {
            StepView::passed(seq!["method = "@ + method])
        } else {
            StepView::failed(
                "`"@ + method + "` returned non-object/array: "@ + brief(
                    v,
                    SHOWN_BYTES as nat,
                    "…"@,
                ),
                Seq::empty(),
            )
        },
    }
}

/// Judges the answer to the list.
pub fn list_reply(method: &str, reply: &Result<Json, String>) -> (r: Step)
    ensures
        r@ == list_end(method@, reply_view(*reply)),
{
    let mut notes: Vec<String> = Vec::new();
    match reply {
        Err(e) => Step::failed(concat3(method, ": ", e.as_str()), notes),
        Ok(v) => {
            let fine = match v {
                Json::Object(_) => true,
                Json::List(_) => true,
                Json::Null => true,
                _ => false,
            };
            if fine {
                notes.push(concat("method = ", method));
                assert(texts(notes@) =~= seq!["method = "@ + method@]);
                Step::passed(notes)
            } else {
                let mut m = "`".to_owned();
                m.append(method);
                m.append("` returned non-object/array: ");
                m.append(show_brief(v, SHOWN_BYTES, "…").as_str());
                Step::failed(m, notes)
            }
        },
    }
}

// ---------------------------------------------------------------------------
// Create, get, update, delete
// ---------------------------------------------------------------------------

/// The id of a created subject: its own, or that of the subject in it.
pub open spec fn id_in(v: JsonView) -> Option<Seq<char>> {
    match v.text_at("id"@) {
        Some(s) => Some(s),
        None => match v.get("subject"@) {
            Some(subject) => subject.text_at("id"@),
            None => None,
        },
    }
}

/// Finds the id of a created subject.
pub fn extract_id(v: &Json) -> (r: Option<String>)
    ensures
        opt_text(r) == id_in(v@),
{
    match v.text_at("id") {
        Some(s) => Some(s.to_owned()),
        None => match v.get("subject") {
            Some(subject) => match subject.text_at("id") {
                Some(s) => Some(s.to_owned()),
                None => None,
            },
            None => None,
        },
    }
}

/// What the round trip waits for.
#[derive(Debug, Clone, Copy, PartialEq, Eq, Structural)]
pub enum Stage {
    Create,
    Get,
    Update,
    Delete,
}

/// A round trip under way. The plugin can create; the other methods are used where it has them.
#[derive(Debug, PartialEq)]
pub struct Crud {
    create: String,
    get: Option<String>,
    update: Option<String>,
    delete: Option<String>,
    stage: Stage,
    id: String,
    diagnostics: Vec<String>,
}

#[verifier::ext_equal]
pub struct CrudView {
    pub create: Seq<char>,
    pub get: Option<Seq<char>>,
    pub update: Option<Seq<char>>,
    pub delete: Option<Seq<char>>,
    pub stage: Stage,
    pub id: Seq<char>,
    pub diagnostics: Seq<Seq<char>>,
}

impl View for Crud {
    type V = CrudView;

    closed spec fn view(&self) -> CrudView {
        CrudView {
            create: self.create@,
            get: opt_text(self.get),
            update: opt_text(self.update),
            delete: opt_text(self.delete),
            stage: self.stage,
            id: self.id@,
            diagnostics: texts(self.diagnostics@),
        }
    }
}

/// The round trip that the plugin allows, where it can create at all.
pub open spec fn crud_plan(init: InitializeResultView) -> Option<CrudView> {
    match method_for(init, "create"@) {
        None => None,
        Some(create) => Some(
            CrudView {
                create,
                get: method_for(init, "get"@),
                update: method_for(init, "update"@),
                delete: method_for(init, "delete"@),
                stage: Stage::Create,
                id: Seq::empty(),
                diagnostics: Seq::empty(),
            },
        ),
    }
}

/// The first call of a round trip; the title holds the time in milliseconds.
pub open spec fn crud_begin(plan: Option<CrudView>, millis: int) -> StepView {
    match plan {
        None => StepView::skipped("plugin does not advertise `*/create`"@),
        Some(st) => StepView::Call {
            method: st.create,
            params: JsonView::object().with(
                "title"@,
                JsonView::Text("subject-conformance-"@ + signed_decimal(millis)),
            ).with("description"@, JsonView::Text("harness round-trip"@)),
            budget_ms: CALL_BUDGET_MS as int,
        },
    }
}

/// Plans the round trip and begins it, where the plugin can create.
pub fn run_crud(init: &InitializeResult, millis: i64) -> (r: (Option<Crud>, Step))
    ensures
        match r.0 {
            Some(c) => crud_plan(init@) == Some(c@),
            None => crud_plan(init@) is None,
        },
        r.1@ == crud_begin(crud_plan(init@), millis as int),
{
    match pick_method(init, "create") {
        None => (None, Step::skipped("plugin does not advertise `*/create`")),
        Some(create) => {
            let params = Json::object().with(
                "title",
                Json::Text(concat("subject-conformance-", i64_to_string(millis).as_str())),
            ).with("description", Json::text("harness round-trip"));
            let first = Step::call(create.as_str(), params, CALL_BUDGET_MS);
            let plan = Crud {
                create,
                get: pick_method(init, "get"),
                update: pick_method(init, "update"),
                delete: pick_method(init, "delete"),
                stage: Stage::Create,
                id: String::new(),
                diagnostics: Vec::new(),
            };
            assert(plan@.id =~= Seq::<char>::empty());
            (Some(plan), first)
        },
    }
}

/// The parameters that name the subject.
pub open spec fn id_params(id: Seq<char>) -> JsonView {
    JsonView::object().with("id"@, JsonView::Text(id))
}

/// The round trip at the first of its remaining stages that the plugin has a method for; it passes
/// where there is none.
pub open spec fn crud_from(st: CrudView, stage: Stage) -> (CrudView, StepView) {
    let budget_ms = CALL_BUDGET_MS as int;
    if stage == Stage::Get && st.get is Some {
        (
            CrudView { stage: Stage::Get, ..st },
            StepView::Call { method: st.get->0, params: id_params(st.id), budget_ms },
        )
    } else if (stage == Stage::Get || stage == Stage::Update) && st.update is Some {
        (
            CrudView { stage: Stage::Update, ..st },
            StepView::Call {
                method: st.update->0,
                params: id_params(st.id).with(
                    "patch"@,
                    JsonView::object().with("comment"@, JsonView::Text("round-trip"@)),
                ),
                budget_ms,
            },
        )
    } else if stage != Stage::Create && st.delete is Some {
        (
            CrudView { stage: Stage::Delete, ..st },
            StepView::Call { method: st.delete->0, params: id_params(st.id), budget_ms },
        )
    } else {
        (st, StepView::passed(st.diagnostics))
    }
}

/// The round trip with one more diagnostic.
pub open spec fn crud_noted(st: CrudView, note: Seq<char>) -> CrudView {
    CrudView { diagnostics: st.diagnostics.push(note), ..st }
}

/// The round trip after an answer. Creating must give an id and getting must succeed; how an
/// update and a deletion went is noted at most.
pub open spec fn crud_after(st: CrudView, reply: Result<JsonView, Seq<char>>) -> (
    CrudView,
    StepView,
) {
    match st.stage {
        Stage::Create => match reply {
            Err(e) => (st, StepView::failed(st.create + ": "@ + e, st.diagnostics)),
            Ok(v) => {
                let id = match id_in(v) {
                    Some(s) => s,
                    None => Seq::empty(),
                };
                let noted = crud_noted(st, st.create + " → ok"@);
                if id.len() == 0 {
                    (
                        noted,
                        StepView::failed(
                            st.create + " returned no id; got "@ + brief(
                                v,
                                SHOWN_BYTES as nat,
                                "…"@,
                            ),
                            noted.diagnostics,
                        ),
                    )
                } else {
                    crud_from(CrudView { id, ..noted }, Stage::Get)
                }
            },
        },
        Stage::Get => match reply {
            Err(e) => (st, StepView::failed(st.get->0 + ": "@ + e, st.diagnostics)),
            Ok(_) => crud_from(crud_noted(st, st.get->0 + " → ok"@), Stage::Update),
        },
        Stage::Update => crud_from(crud_noted(st, st.update->0 + " attempted"@), Stage::Delete),
        Stage::Delete => {
            let noted = crud_noted(
                st,
                match reply {
                    Ok(_) => st.delete->0 + " → ok"@,
                    Err(e) => st.delete->0 + " returned: "@ + e,
                },
            );
            (noted, StepView::passed(noted.diagnostics))
        },
    }
}

/// Whether the stage is one that the plugin has a method for.
pub open spec fn crud_valid(st: CrudView) -> bool {
    match st.stage {
        Stage::Create => true,
        Stage::Get => st.get is Some,
        Stage::Update => st.update is Some,
        Stage::Delete => st.delete is Some,
    }
}

/// A round trip stays at stages that the plugin has a method for.
pub proof fn crud_stays_valid(
    init: InitializeResultView,
    st: CrudView,
    reply: Result<JsonView, Seq<char>>,
)
    requires
        crud_valid(st),
    ensures
        crud_plan(init) matches Some(plan) ==> crud_valid(plan),
        crud_valid(crud_after(st, reply).0),
{
}

impl Crud {
    #[verifier::type_invariant]
    spec fn stage_has_method(&self) -> bool {
        match self.stage {
            Stage::Create => true,
            Stage::Get => self.get is Some,
            Stage::Update => self.update is Some,
            Stage::Delete => self.delete is Some,
        }
    }

    /// The method of the stage.
    fn method(&self) -> (r: String)
        ensures
            r@ == (match self@.stage {
                Stage::Create => self@.create,
                Stage::Get => self@.get->0,
                Stage::Update => self@.update->0,
                Stage::Delete => self@.delete->0,
            }),
    {
        proof {
            use_type_invariant(self);
        }
        let method = match self.stage {
            Stage::Create => {
                return self.create.clone();
            },
            Stage::Get => &self.get,
            Stage::Update => &self.update,
            Stage::Delete => &self.delete,
        };
        match method {
            Some(m) => m.clone(),
            None => {
                assert(false);
                String::new()
            },
        }
    }

    /// The round trip with one more diagnostic.
    fn note(self, note: String) -> (r: Crud)
        ensures
            r@ == crud_noted(self@, note@),
    {
        proof {
            use_type_invariant(&self);
        }
        let mut diagnostics = self.diagnostics;
        diagnostics.push(note);
        Crud {
            create: self.create,
            get: self.get,
            update: self.update,
            delete: self.delete,
            stage: self.stage,
            id: self.id,
            diagnostics,
        }
    }

    /// Goes on at the first remaining stage that the plugin has a method for.
    fn proceed(self, stage: Stage) -> (r: (Crud, Step))
        ensures
            (r.0@, r.1@) == crud_from(self@, stage),
    {
        proof {
            use_type_invariant(&self);
        }
        let params = Json::object().with("id", Json::Text(self.id.clone()));
        let (next, step) = if stage == Stage::Get && self.get.is_some() {
            let method = match &self.get {
                Some(m) => m.as_str(),
                None => "",
            };
            (Stage::Get, Step::call(method, params, CALL_BUDGET_MS))
        } else if (stage == Stage::Get || stage == Stage::Update) && self.update.is_some() {
            let method = match &self.update {
                Some(m) => m.as_str(),
                None => "",
            };
            let patch = Json::object().with("comment", Json::text("round-trip"));
            (Stage::Update, Step::call(method, params.with("patch", patch), CALL_BUDGET_MS))
        } else if stage != Stage::Create && self.delete.is_some() {
            let method = match &self.delete {
                Some(m) => m.as_str(),
                None => "",
            };
            (Stage::Delete, Step::call(method, params, CALL_BUDGET_MS))
        } else {
            (self.stage, Step::passed(clone_strings(&self.diagnostics)))
        };
        (
            Crud {
                create: self.create,
                get: self.get,
                update: self.update,
                delete: self.delete,
                stage: next,
                id: self.id,
                diagnostics: self.diagnostics,
            },
            step,
        )
    }

    /// Takes an answer.
    pub fn reply(self, reply: &Result<Json, String>) -> (r: (Crud, Step))
        ensures
            (r.0@, r.1@) == crud_after(self@, reply_view(*reply)),
    {
        proof {
            use_type_invariant(&self);
        }
        let method = self.method();
        match self.stage {
            Stage::Create => match reply {
                Err(e) => {
                    let notes = clone_strings(&self.diagnostics);
                    (self, Step::failed(concat3(method.as_str(), ": ", e.as_str()), notes))
                },
                Ok(v) => {
                    let id = match extract_id(v) {
                        Some(s) => s,
                        None => String::new(),
                    };
                    let noted = self.note(concat(method.as_str(), " → ok"));
                    if id.as_str().is_empty() {
                        let notes = clone_strings(&noted.diagnostics);
                        let reason = concat3(
                            method.as_str(),
                            " returned no id; got ",
                            show_brief(v, SHOWN_BYTES, "…").as_str(),
                        );
                        (noted, Step::failed(reason, notes))
                    } else {
                        let known = Crud {
                            create: noted.create,
                            get: noted.get,
                            update: noted.update,
                            delete: noted.delete,
                            stage: Stage::Create,
                            id,
                            diagnostics: noted.diagnostics,
                        };
                        known.proceed(Stage::Get)
                    }
                },
            },
            Stage::Get => match reply {
                Err(e) => {
                    let notes = clone_strings(&self.diagnostics);
                    (self, Step::failed(concat3(method.as_str(), ": ", e.as_str()), notes))
                },
                Ok(_) => self.note(concat(method.as_str(), " → ok")).proceed(Stage::Update),
            },
            Stage::Update => self.note(concat(method.as_str(), " attempted")).proceed(
                Stage::Delete,
            ),
            Stage::Delete => {
                let note = match reply {
                    Ok(_) => concat(method.as_str(), " → ok"),
                    Err(e) => concat3(method.as_str(), " returned: ", e.as_str()),
                };
                let noted = self.note(note);
                let notes = clone_strings(&noted.diagnostics);
                (noted, Step::passed(notes))
            },
        }
    }
}

/// The answers that a plugin would give to each call of a round trip.
pub struct CrudReplies {
    pub create: Result<JsonView, Seq<char>>,
    pub get: Result<JsonView, Seq<char>>,
    pub update: Result<JsonView, Seq<char>>,
    pub delete: Result<JsonView, Seq<char>>,
}

/// The answer to the call of a stage.
pub open spec fn reply_at(replies: CrudReplies, stage: Stage) -> Result<JsonView, Seq<char>> {
    match stage {
        Stage::Create => replies.create,
        Stage::Get => replies.get,
        Stage::Update => replies.update,
        Stage::Delete => replies.delete,
    }
}

/// Where a round trip gets within so many answers.
pub open spec fn crud_run(st: CrudView, replies: CrudReplies, answers: nat) -> StepView
    decreases answers,
{
    let (next, step) = crud_after(st, reply_at(replies, st.stage));
    if step is Done || answers <= 1 {
        step
    } else {
        crud_run(next, replies, (answers - 1) as nat)
    }
}

/// A round trip is over after four answers at most. It passes exactly where creating gave an id
/// that is not empty and getting, if the plugin can, succeeded; updating and deleting never fail
/// it.
pub proof fn crud_passes_iff(st: CrudView, replies: CrudReplies)
    requires
        st.stage == Stage::Create,
    ensures
        crud_run(st, replies, 4) matches StepView::Done { status, .. } && ((status is Pass) == ({
            &&& replies.create matches Ok(v) && id_in(v) matches Some(id) && id.len() > 0
            &&& st.get is Some ==> replies.get is Ok
        })),
{
    reveal_with_fuel(crud_run, 5);
}

// ---------------------------------------------------------------------------
// Watching
// ---------------------------------------------------------------------------

/// How the check of the watch begins.
pub open spec fn watch_begin(init: InitializeResultView) -> StepView {
    match method_for(init, "watch"@) {
        None => StepView::skipped("plugin does not advertise `*/watch`"@),
        Some(method) => StepView::Call {
            method,
            params: JsonView::object(),
            budget_ms: CALL_BUDGET_MS as int,
        },
    }
}

/// Begins the check of the watch.
pub fn run_watch(init: &InitializeResult) -> (r: Step)
    ensures
        r@ == watch_begin(init@),
{
    match pick_method(init, "watch") {
        None => Step::skipped("plugin does not advertise `*/watch`"),
        Some(method) => Step::call(method.as_str(), Json::object(), CALL_BUDGET_MS),
    }
}

/// Whether an error says that the method is not there.
pub open spec fn says_unsupported(message: Seq<char>) -> bool {
    ||| has_substring(message, "-32001"@)
    ||| has_substring(message, "-32601"@)
    ||| has_substring(lower(message), "not supported"@)
    ||| has_substring(lower(message), "not implemented"@)
    ||| has_substring(lower(message), "not found"@)
}

/// Whether an error says that the method is not there.
pub fn is_unsupported(message: &str) -> (r: bool)
    ensures
        r == says_unsupported(message@),
{
    let low = to_ascii_lowercase(message);
    contains(message, "-32001") || contains(message, "-32601") || contains(
        low.as_str(),
        "not supported",
    ) || contains(low.as_str(), "not implemented") || contains(low.as_str(), "not found")
}

/// How the answer to the watch is judged: not to have it is allowed.
pub open spec fn watch_end(method: Seq<char>, reply: Result<JsonView, Seq<char>>) -> StepView {
    match reply {
        Ok(_) => StepView::passed(seq![method + " → ok"@]),
        Err(e) => if says_unsupported(e) {
            StepView::passed(seq![method + " → unsupported (allowed)"@])
        } else {
            StepView::failed(method + ": "@ + e, Seq::empty())
        },
    }
}

/// Judges the answer to the watch.
pub fn watch_reply(method: &str, reply: &Result<Json, String>) -> (r: Step)
    ensures
        r@ == watch_end(method@, reply_view(*reply)),
{
    let mut notes: Vec<String> = Vec::new();
    match reply {
        Ok(_) => {
            notes.push(concat(method, " → ok"));
            assert(texts(notes@) =~= seq![method@ + " → ok"@]);
            Step::passed(notes)
        },
        Err(e) => {
            if is_unsupported(e.as_str()) {
                notes.push(concat(method, " → unsupported (allowed)"));
                assert(texts(notes@) =~= seq![method@ + " → unsupported (allowed)"@]);
                Step::passed(notes)
            } else {
                Step::failed(concat3(method, ": ", e.as_str()), notes)
            }
        },
    }
}

// ---------------------------------------------------------------------------
// Laws
// ---------------------------------------------------------------------------

/// A plugin must name at least one kind of subject: with none the check fails, with any it passes.
pub proof fn kinds_must_be_named(init: InitializeResultView)
    ensures
        (advertised(init).0 is Pass) == (init.capabilities.subject_kinds.len() > 0),
        (advertised(init).0 is Fail) == (init.capabilities.subject_kinds.len() == 0),
{
}

/// The method for a verb is one that the plugin advertises: that of its first kind before the
/// general one. There is none exactly where it advertises neither.
pub proof fn methods_are_the_plugins_own(init: InitializeResultView, verb: Seq<char>)
    ensures
        ({
            let kinds = init.capabilities.subject_kinds;
            let methods = init.capabilities.methods;
            let own = kinds.len() > 0 && methods.contains(kinds[0] + "/"@ + verb);
            let general = methods.contains("subject/"@ + verb);
            &&& own ==> method_for(init, verb) == Some(kinds[0] + "/"@ + verb)
            &&& !own && general ==> method_for(init, verb) == Some("subject/"@ + verb)
            &&& !own && !general ==> method_for(init, verb) is None
        }),
{
}

/// The check of the list asks for the list, with an empty object, where the plugin has one, and is
/// skipped otherwise. It passes for an object, a list and null, and fails for anything else and for
/// an error.
pub proof fn lists_are_judged(
    init: InitializeResultView,
    method: Seq<char>,
    v: JsonView,
    reason: Seq<char>,
)
    ensures
        method_for(init, "list"@) matches Some(m) ==> (list_begin(init) matches StepView::Call {
            method: called,
            params,
            ..
        } && called == m && params == JsonView::object()),
        method_for(init, "list"@) is None ==> (list_begin(init) matches StepView::Done { status, .. }
            && status is Skip),
        list_end(method, Ok(v)) matches StepView::Done { status, .. } && !(status is Skip) && (
        status is Pass) == (v is Object || v is List || v is Null),
        list_end(method, Err(reason)) matches StepView::Done { status, .. } && status is Fail,
{
}

/// The id of a created subject is the one that the answer gives, at the top or else in its subject.
pub proof fn created_ids_are_found(v: JsonView, subject: JsonView, id: Seq<char>)
    ensures
        says(v, "id"@, id) ==> id_in(v) == Some(id),
        v.get("id"@) is None && v.get("subject"@) == Some(subject) && says(subject, "id"@, id)
            ==> id_in(v) == Some(id),
        v.get("id"@) is None && v.get("subject"@) is None ==> id_in(v) is None,
{
}

/// The first of some methods that a plugin has.
pub open spec fn first_of(
    a: Option<Seq<char>>,
    b: Option<Seq<char>>,
    c: Option<Seq<char>>,
) -> Option<Seq<char>> {
    if a is Some {
        a
    } else if b is Some {
        b
    } else {
        c
    }
}

/// Whether a step calls a method for the subject with an id, or, where there is no method, ends with
/// a pass.
pub open spec fn goes_on_with(step: StepView, method: Option<Seq<char>>, id: Seq<char>) -> bool {
    match method {
        Some(m) => step matches StepView::Call { method, params, .. } && method == m && says(
            params,
            "id"@,
            id,
        ),
        None => step matches StepView::Done { status, .. } && status is Pass,
    }
}

/// A round trip creates, gets, updates and deletes one and the same subject in this order, as far as
/// the plugin has the methods. It stops where creating or getting fails; an update and a deletion
/// may fail.
pub proof fn round_trips_keep_their_order(
    st: CrudView,
    v: JsonView,
    id: Seq<char>,
    reason: Seq<char>,
    reply: Result<JsonView, Seq<char>>,
)
    requires
        id.len() > 0,
    ensures
        st.stage == Stage::Create && id_in(v) == Some(id) ==> goes_on_with(
            crud_after(st, Ok(v)).1,
            first_of(st.get, st.update, st.delete),
            id,
        ) && crud_after(st, Ok(v)).0.id == id,
        st.stage == Stage::Create ==> (crud_after(st, Err(reason)).1 matches StepView::Done {
            status,
            ..
        } && status is Fail),
        st.stage == Stage::Create && (id_in(v) is None || id_in(v) == Some(Seq::<char>::empty()))
            ==> (crud_after(st, Ok(v)).1 matches StepView::Done { status, .. } && status is Fail),
        st.stage == Stage::Get ==> goes_on_with(
            crud_after(st, Ok(v)).1,
            first_of(None, st.update, st.delete),
            st.id,
        ) && (crud_after(st, Err(reason)).1 matches StepView::Done { status, .. } && status is Fail),
        st.stage == Stage::Update ==> goes_on_with(crud_after(st, reply).1, st.delete, st.id),
        st.stage == Stage::Delete ==> goes_on_with(crud_after(st, reply).1, None, st.id),
        crud_after(st, reply).0.get == st.get && crud_after(st, reply).0.update == st.update
            && crud_after(st, reply).0.delete == st.delete,
        st.stage != Stage::Create ==> crud_after(st, reply).0.id == st.id,
{
    id_is_no_patch();
}

proof fn id_is_no_patch()
    ensures
        "id"@ != "patch"@,
        "title"@ != "description"@,
{
    reveal_strlit("id");
    reveal_strlit("patch");
    reveal_strlit("title");
    reveal_strlit("description");
    assert("id"@.len() == 2);
    assert("patch"@.len() == 5);
    assert("title"@.len() == 5);
    assert("description"@.len() == 11);
    assert("patch"@[0] != "title"@[0]);
}

/// A round trip is planned with the plugin's own methods, begins with creating a subject whose title
/// holds the time, and is skipped exactly where the plugin cannot create.
pub proof fn round_trips_begin_with_creating(init: InitializeResultView, millis: int)
    ensures
        match method_for(init, "create"@) {
            None => crud_plan(init) is None && (crud_begin(crud_plan(init), millis)
                matches StepView::Done { status, .. } && status is Skip),
            Some(create) => (crud_plan(init) matches Some(plan) && plan.create == create && plan.get
                == method_for(init, "get"@) && plan.update == method_for(init, "update"@)
                && plan.delete == method_for(init, "delete"@) && plan.stage == Stage::Create) && (
            crud_begin(crud_plan(init), millis) matches StepView::Call { method, params, .. }
                && method == create && says(
                params,
                "title"@,
                "subject-conformance-"@ + signed_decimal(millis),
            )),
        },
{
    id_is_no_patch();
}

/// Whether a message says that a method is not there, by its code or in words.
pub open spec fn denies_method(message: Seq<char>) -> bool {
    ||| stands_in_text("-32001"@, message)
    ||| stands_in_text("-32601"@, message)
    ||| stands_in_text("not supported"@, lower(message))
    ||| stands_in_text("not implemented"@, lower(message))
    ||| stands_in_text("not found"@, lower(message))
}

/// The check of the watch is skipped where the plugin has none; a watch passes where it is taken up
/// and where the plugin says that it has none, and fails with any other error.
pub proof fn watches_are_judged(
    init: InitializeResultView,
    method: Seq<char>,
    v: JsonView,
    message: Seq<char>,
)
    ensures
        method_for(init, "watch"@) matches Some(m) ==> (watch_begin(init) matches StepView::Call {
            method: called,
            ..
        } && called == m),
        method_for(init, "watch"@) is None ==> (watch_begin(init) matches StepView::Done {
            status,
            ..
        } && status is Skip),
        watch_end(method, Ok(v)) matches StepView::Done { status, .. } && status is Pass,
        watch_end(method, Err(message)) matches StepView::Done { status, .. } && !(status is Skip)
            && (status is Pass) == denies_method(message),
{
    substrings_stand_in_text("-32001"@, message);
    substrings_stand_in_text("-32601"@, message);
    substrings_stand_in_text("not supported"@, lower(message));
    substrings_stand_in_text("not implemented"@, lower(message));
    substrings_stand_in_text("not found"@, lower(message));
}

/// What a round trip has done is noted, one note for each answer, in order: that creating and
/// getting succeeded, that an update was attempted, and how the deletion went. A failure names the
/// method and the error.
pub proof fn round_trips_are_noted(
    st: CrudView,
    v: JsonView,
    id: Seq<char>,
    reason: Seq<char>,
    reply: Result<JsonView, Seq<char>>,
)
    requires
        crud_valid(st),
        id.len() > 0,
    ensures
        st.stage == Stage::Create && id_in(v) == Some(id) ==> crud_after(st, Ok(v)).0.diagnostics
            == st.diagnostics.push(st.create + " → ok"@),
        st.stage == Stage::Create ==> crud_after(st, Err(reason)).1 == (StepView::Done {
            status: StatusView::Fail { reason: st.create + ": "@ + reason },
            diagnostics: st.diagnostics,
        }),
        st.stage == Stage::Create && id_in(v) is None ==> crud_after(st, Ok(v)).1
            == (StepView::Done {
            status: StatusView::Fail {
                reason: st.create + " returned no id; got "@ + brief(v, SHOWN_BYTES as nat, "…"@),
            },
            diagnostics: st.diagnostics.push(st.create + " → ok"@),
        }),
        st.stage == Stage::Get ==> crud_after(st, Ok(v)).0.diagnostics == st.diagnostics.push(
            st.get->0 + " → ok"@,
        ) && crud_after(st, Err(reason)).1 == (StepView::Done {
            status: StatusView::Fail { reason: st.get->0 + ": "@ + reason },
            diagnostics: st.diagnostics,
        }),
        st.stage == Stage::Update ==> crud_after(st, reply).0.diagnostics == st.diagnostics.push(
            st.update->0 + " attempted"@,
        ),
        st.stage == Stage::Delete ==> crud_after(st, Ok(v)).1 == (StepView::Done {
            status: StatusView::Pass,
            diagnostics: st.diagnostics.push(st.delete->0 + " → ok"@),
        }) && crud_after(st, Err(reason)).1 == (StepView::Done {
            status: StatusView::Pass,
            diagnostics: st.diagnostics.push(st.delete->0 + " returned: "@ + reason),
        }),
        crud_after(st, reply).1 matches StepView::Done { status, diagnostics } ==> diagnostics
            == crud_after(st, reply).0.diagnostics,
{
}

/// An update changes the comment of the subject.
pub proof fn updates_carry_a_patch(st: CrudView, v: JsonView)
    requires
        st.stage == Stage::Get,
        st.update is Some,
    ensures
        crud_after(st, Ok(v)).1 matches StepView::Call { method, params, .. } && method
            == st.update->0 && says(params, "id"@, st.id) && (params.get("patch"@) matches Some(p)
            && says(p, "comment"@, "round-trip"@)),
{
    id_is_no_patch();
}

/// The reasons and notes of the other checks: a missing method is why a check is skipped, an error is
/// why it fails, and what was advertised or answered is noted.
pub proof fn subject_checks_say_why(
    init: InitializeResultView,
    method: Seq<char>,
    v: JsonView,
    reason: Seq<char>,
)
    ensures
        advertised(init).1[0] == "subject_kinds = "@ + texts_debug(init.capabilities.subject_kinds),
        init.capabilities.subject_kinds.len() == 0 ==> advertised(init).1.len() == 1,
        init.capabilities.subject_kinds.len() > 0 ==> advertised(init).1.len() == 2 && advertised(
            init,
        ).1[1] == "methods advertised: "@ + decimal(init.capabilities.methods.len()),
        init.capabilities.subject_kinds.len() == 0 ==> advertised(init).0 == (StatusView::Fail {
            reason: "capabilities.subject_kinds is empty"@,
        }),
        method_for(init, "list"@) is None ==> (list_begin(init) matches StepView::Done {
            status: StatusView::Skip { reason: why },
            ..
        } && why == "plugin advertises no `*/list` method"@),
        method_for(init, "watch"@) is None ==> (watch_begin(init) matches StepView::Done {
            status: StatusView::Skip { reason: why },
            ..
        } && why == "plugin does not advertise `*/watch`"@),
        list_end(method, Err(reason)) matches StepView::Done {
            status: StatusView::Fail { reason: why },
            ..
        } && why == method + ": "@ + reason,
        watch_end(method, Ok(v)) == (StepView::Done {
            status: StatusView::Pass,
            diagnostics: seq![method + " → ok"@],
        }),
        denies_method(reason) ==> watch_end(method, Err(reason)) == (StepView::Done {
            status: StatusView::Pass,
            diagnostics: seq![method + " → unsupported (allowed)"@],
        }),
        !denies_method(reason) ==> watch_end(method, Err(reason)) == (StepView::Done {
            status: StatusView::Fail { reason: method + ": "@ + reason },
            diagnostics: Seq::empty(),
        }),
{
    watches_are_judged(init, method, v, reason);
}

} // verus!
