//! The suite for log storage backend plugins.

use crate::conformance::{check_names, Conformance, ConformanceView};
use crate::fields::{
    invalid, invalid_field, missing, missing_field, optional_text, plain_result, read_bool,
    read_optional_text, read_text, required_bool, required_text,
};
use crate::json::{items_view, Json, JsonView};
use crate::model::{bare_result, Moment, StatusView, TestResult, TestScenario, TestStatus};
use crate::rpc::{
    answers, call_error, call_error_text, decode_response, frame_in, incoming, may_say, read_frame,
    refuses, response_of, says, Event, EventView, FrameStep, FrameView, IncomingView,
    InitializeResult,
};
use crate::suite::{
    brief, check_kind, concat, kind_status, reply_view, show_brief, suite_wording, suite_words,
    Step, StepView, HANDSHAKE,
};
use crate::text::{
    clone_strings, decimal, decimal_injective, group_texts, i64_to_string, list_contains, opt_text, same,
    signed_decimal, texts, usize_to_string,
};
use crate::time::{
    common_era, format_moment, moment_text, parse_moment, stamp, stamp_of, text_moment,
};
use crate::views::{group_views, list_outcome, opt, outcome, views};
use vstd::prelude::*;

verus! {

broadcast use {group_views, group_texts};

/// The name under which the suite introduces itself.
pub const HOST_NAME: &'static str = "animus-log-storage-conformance";

/// The source that the suite's entries name.
pub const SOURCE_NAME: &'static str = "log-storage-conformance";

/// The kind of plugin that the suite is for.
pub const PLUGIN_KIND_LOG_STORAGE_BACKEND: &'static str = "log_storage_backend";

pub const METHOD_LOG_STORAGE_SCHEMA: &'static str = "log_storage/schema";

pub const METHOD_LOG_STORAGE_STORE: &'static str = "log_storage/store";

pub const METHOD_LOG_STORAGE_QUERY: &'static str = "log_storage/query";

pub const METHOD_LOG_STORAGE_TAIL: &'static str = "log_storage/tail";

pub const NOTIFICATION_LOG_STORAGE_EVENT: &'static str = "log_storage/event";

/// How long the suite waits for an answer, and for a tail to replay.
pub const CALL_BUDGET_MS: u64 = 3_000;

/// How many bytes of a value are shown.
pub const SHOWN_BYTES: usize = 160;

/// The check of schema and health.
pub const SCHEMA_HEALTH: &'static str = "schema-health";

/// The check that what is stored is found.
pub const STORE_QUERY_ROUND_TRIP: &'static str = "store-query-round-trip";

/// The check that a tail replays what is stored.
pub const TAIL_REPLAY: &'static str = "tail-replay";

/// The checks of the suite, in order.
pub open spec fn baseline() -> Seq<(Seq<char>, Seq<char>)> {
    seq![
        (HANDSHAKE@, "initialize → plugin_kind == log_storage_backend"@),
        (SCHEMA_HEALTH@, "log_storage/schema + health/check return well-shaped JSON"@),
        (
            STORE_QUERY_ROUND_TRIP@,
            "log_storage/store persists entries readable by log_storage/query"@,
        ),
        (
            TAIL_REPLAY@,
            "log_storage/tail with follow=false replays matching stored entries"@,
        ),
    ]
}

/// Names the checks of the suite.
pub fn baseline_scenarios() -> (r: Vec<TestScenario>)
    ensures
        views(r@) == baseline(),
{
    let mut r: Vec<TestScenario> = Vec::new();
    r.push(TestScenario::new(HANDSHAKE, "initialize → plugin_kind == log_storage_backend"));
    r.push(
        TestScenario::new(
            SCHEMA_HEALTH,
            "log_storage/schema + health/check return well-shaped JSON",
        ),
    );
    r.push(
        TestScenario::new(
            STORE_QUERY_ROUND_TRIP,
            "log_storage/store persists entries readable by log_storage/query",
        ),
    );
    r.push(
        TestScenario::new(
            TAIL_REPLAY,
            "log_storage/tail with follow=false replays matching stored entries",
        ),
    );
    assert(views(r@) =~= baseline());
    r
}

/// Begins a run of the suite, where the plugin could be asked to introduce itself.
pub fn begin<E>(probe: Result<InitializeResult, E>) -> (r: Result<Conformance, E>)
    ensures
        match probe {
            Ok(init) => r is Ok && r->Ok_0@ == ConformanceView::fresh(
                init@,
                check_names(baseline()),
            ) && r->Ok_0@.valid(),
            Err(e) => r == Err::<Conformance, E>(e),
        },
{
    Conformance::of_checks(probe, &baseline_scenarios())
}

/// Judges the handshake.
pub fn run_handshake(init: &InitializeResult, duration_ms: u64) -> (r: TestResult)
    ensures
        r@ == bare_result(
            HANDSHAKE@,
            kind_status(init@, PLUGIN_KIND_LOG_STORAGE_BACKEND@),
            duration_ms as int,
            Seq::empty(),
        ),
{
    check_kind(init, PLUGIN_KIND_LOG_STORAGE_BACKEND, duration_ms)
}

/// A value in brief.
pub open spec fn shown(v: JsonView) -> Seq<char> {
    brief(v, SHOWN_BYTES as nat, "..."@)
}

/// Shows a value in brief.
pub fn short(v: &Json) -> (r: String)
    ensures
        r@ == shown(v@),
{
    show_brief(v, SHOWN_BYTES, "...")
}

// ---------------------------------------------------------------------------
// Entries
// ---------------------------------------------------------------------------

/// A log entry. `ts` is an RFC 3339 time.
#[derive(Debug, PartialEq)]
pub struct LogEntry {
    pub id: String,
    pub ts: String,
    pub level: String,
    pub source: String,
    pub source_name: Option<String>,
    pub target: String,
    pub message: String,
    pub fields: Json,
}

#[verifier::ext_equal]
pub struct EntryView {
    pub id: Seq<char>,
    pub ts: Seq<char>,
    pub level: Seq<char>,
    pub source: Seq<char>,
    pub source_name: Option<Seq<char>>,
    pub target: Seq<char>,
    pub message: Seq<char>,
    pub fields: JsonView,
}

impl View for LogEntry {
    type V = EntryView;

    open spec fn view(&self) -> EntryView {
        EntryView {
            id: self.id@,
            ts: self.ts@,
            level: self.level@,
            source: self.source@,
            source_name: opt_text(self.source_name),
            target: self.target@,
            message: self.message@,
            fields: self.fields@,
        }
    }
}

/// The target of the entry with a given id.
pub open spec fn target_of(id: Seq<char>) -> Seq<char> {
    "testkit.log_storage."@ + id
}

/// The entry that a check stores at a given moment. Its id holds the moment in nanoseconds.
pub open spec fn entry_at(suffix: Seq<char>, message: Seq<char>, now: Moment) -> EntryView {
    let id = "testkit-"@ + suffix + "-"@ + signed_decimal(stamp(now));
    EntryView {
        id,
        ts: moment_text(now.seconds as int, now.nanos as int),
        level: "info"@,
        source: "plugin"@,
        source_name: Some(SOURCE_NAME@),
        target: target_of(id),
        message,
        fields: JsonView::object().with("suite"@, JsonView::Text("log-storage-conformance"@)),
    }
}

/// Builds the entry that a check stores.
pub fn log_entry(id_suffix: &str, message: &str, now: Moment) -> (r: LogEntry)
    requires
        common_era(now),
    ensures
        r@ == entry_at(id_suffix@, message@, now),
        text_moment(r@.ts) is Some,
{
    let mut id = "testkit-".to_owned();
    id.append(id_suffix);
    id.append("-");
    id.append(i64_to_string(stamp_of(now)).as_str());
    let target = concat("testkit.log_storage.", id.as_str());
    LogEntry {
        id,
        ts: format_moment(now),
        level: "info".to_owned(),
        source: "plugin".to_owned(),
        source_name: Some(SOURCE_NAME.to_owned()),
        target,
        message: message.to_owned(),
        fields: Json::object().with("suite", Json::text("log-storage-conformance")),
    }
}

/// An entry as JSON.
pub open spec fn entry_json(e: EntryView) -> JsonView {
    let named = JsonView::object().with("id"@, JsonView::Text(e.id)).with(
        "ts"@,
        JsonView::Text(e.ts),
    ).with("level"@, JsonView::Text(e.level)).with("source"@, JsonView::Text(e.source)).with(
        "target"@,
        JsonView::Text(e.target),
    ).with("message"@, JsonView::Text(e.message)).with("fields"@, e.fields);
    match e.source_name {
        Some(s) => named.with("source_name"@, JsonView::Text(s)),
        None => named,
    }
}

/// Writes an entry as JSON.
pub fn encode_entry(e: &LogEntry) -> (r: Json)
    ensures
        r@ == entry_json(e@),
{
    let named = Json::object().with("id", Json::Text(e.id.clone())).with(
        "ts",
        Json::Text(e.ts.clone()),
    ).with("level", Json::Text(e.level.clone())).with("source", Json::Text(e.source.clone())).with(
        "target",
        Json::Text(e.target.clone()),
    ).with("message", Json::Text(e.message.clone())).with("fields", e.fields.clone());
    match &e.source_name {
        Some(s) => named.with("source_name", Json::Text(s.clone())),
        None => named,
    }
}

/// The entry that a value holds, or why it holds none.
pub open spec fn entry_of(v: JsonView) -> Result<EntryView, Seq<char>> {
    let id = required_text(v, "id"@);
    let ts = required_text(v, "ts"@);
    let level = required_text(v, "level"@);
    let source = required_text(v, "source"@);
    let source_name = optional_text(v, "source_name"@);
    let target = required_text(v, "target"@);
    let message = required_text(v, "message"@);
    if id is Err {
        Err(id->Err_0)
    } else if ts is Err {
        Err(ts->Err_0)
    } else if text_moment(ts->Ok_0) is None {
        Err(invalid_field("ts"@))
    } else if level is Err {
        Err(level->Err_0)
    } else if source is Err {
        Err(source->Err_0)
    } else if source_name is Err {
        Err(source_name->Err_0)
    } else if target is Err {
        Err(target->Err_0)
    } else if message is Err {
        Err(message->Err_0)
    } else {
        Ok(
            EntryView {
                id: id->Ok_0,
                ts: ts->Ok_0,
                level: level->Ok_0,
                source: source->Ok_0,
                source_name: source_name->Ok_0,
                target: target->Ok_0,
                message: message->Ok_0,
                fields: v.get_or_null("fields"@),
            },
        )
    }
}

/// Reads an entry.
pub fn decode_entry(v: &Json) -> (r: Result<LogEntry, String>)
    ensures
        outcome(r) == entry_of(v@),
{
    let id = match read_text(v, "id") {
        Ok(s) => s,
        Err(e) => {
            return Err(e);
        },
    };
    let ts = match read_text(v, "ts") {
        Ok(s) => s,
        Err(e) => {
            return Err(e);
        },
    };
    if parse_moment(ts.as_str()).is_none() {
        return Err(invalid("ts"));
    }
    let level = match read_text(v, "level") {
        Ok(s) => s,
        Err(e) => {
            return Err(e);
        },
    };
    let source = match read_text(v, "source") {
        Ok(s) => s,
        Err(e) => {
            return Err(e);
        },
    };
    let source_name = match read_optional_text(v, "source_name") {
        Ok(s) => s,
        Err(e) => {
            return Err(e);
        },
    };
    let target = match read_text(v, "target") {
        Ok(s) => s,
        Err(e) => {
            return Err(e);
        },
    };
    match read_text(v, "message") {
        Ok(message) => Ok(
            LogEntry {
                id,
                ts,
                level,
                source,
                source_name,
                target,
                message,
                fields: v.get_or_null("fields"),
            },
        ),
        Err(e) => Err(e),
    }
}

/// Reading gives back what writing wrote: an entry with a proper time survives its JSON form.
pub proof fn entry_round_trip(e: EntryView)
    requires
        text_moment(e.ts) is Some,
    ensures
        entry_of(entry_json(e)) == Ok::<EntryView, Seq<char>>(e),
{
    reveal_strlit("id");
    reveal_strlit("ts");
    reveal_strlit("level");
    reveal_strlit("source");
    reveal_strlit("source_name");
    reveal_strlit("target");
    reveal_strlit("message");
    reveal_strlit("fields");
    assert("id"@.len() == 2 && "ts"@.len() == 2 && "id"@[0] != "ts"@[0]);
    assert("level"@.len() == 5);
    assert("source"@.len() == 6 && "target"@.len() == 6 && "fields"@.len() == 6);
    assert("source"@[0] == 's' && "target"@[0] == 't' && "fields"@[0] == 'f');
    assert("message"@.len() == 7);
    assert("source_name"@.len() == 11);
}

// ---------------------------------------------------------------------------
// Queries
// ---------------------------------------------------------------------------

/// A query, as far as the suite sets it.
#[derive(Debug, PartialEq, Eq)]
pub struct LogQuery {
    pub source_name: Option<String>,
    pub target_glob: Option<String>,
    pub limit: Option<u64>,
    pub follow: bool,
}

#[verifier::ext_equal]
pub struct QueryView {
    pub source_name: Option<Seq<char>>,
    pub target_glob: Option<Seq<char>>,
    pub limit: Option<u64>,
    pub follow: bool,
}

impl View for LogQuery {
    type V = QueryView;

    open spec fn view(&self) -> QueryView {
        QueryView {
            source_name: opt_text(self.source_name),
            target_glob: opt_text(self.target_glob),
            limit: self.limit,
            follow: self.follow,
        }
    }
}

/// The query for the entry with a given id.
pub open spec fn query_for(id: Seq<char>, follow: bool) -> QueryView {
    QueryView {
        source_name: Some(SOURCE_NAME@),
        target_glob: Some(target_of(id)),
        limit: Some(5u64),
        follow,
    }
}

/// Builds the query for the entry with a given id.
pub fn filtered_query(id: &str, follow: bool) -> (r: LogQuery)
    ensures
        r@ == query_for(id@, follow),
{
    LogQuery {
        source_name: Some(SOURCE_NAME.to_owned()),
        target_glob: Some(concat("testkit.log_storage.", id)),
        limit: Some(5),
        follow,
    }
}

/// The query for the entry of a check asks for exactly the target that the entry has.
pub proof fn query_targets_entry(suffix: Seq<char>, message: Seq<char>, now: Moment, follow: bool)
    ensures
        ({
            let entry = entry_at(suffix, message, now);
            let query = query_for(entry.id, follow);
            &&& query.target_glob == Some(entry.target)
            &&& query.source_name == entry.source_name
        }),
{
}

/// A query as JSON; what it leaves open is left out.
pub open spec fn query_json(q: QueryView) -> JsonView {
    let a = match q.source_name {
        Some(s) => JsonView::object().with("source_name"@, JsonView::Text(s)),
        None => JsonView::object(),
    };
    let b = match q.target_glob {
        Some(s) => a.with("target_glob"@, JsonView::Text(s)),
        None => a,
    };
    let c = match q.limit {
        Some(n) => b.with("limit"@, JsonView::Int(n as int)),
        None => b,
    };
    c.with("follow"@, JsonView::Bool(q.follow))
}

/// Writes a query as JSON.
pub fn encode_query(q: &LogQuery) -> (r: Json)
    ensures
        r@ == query_json(q@),
{
    let a = match &q.source_name {
        Some(s) => Json::object().with("source_name", Json::Text(s.clone())),
        None => Json::object(),
    };
    let b = match &q.target_glob {
        Some(s) => a.with("target_glob", Json::Text(s.clone())),
        None => a,
    };
    let c = match q.limit {
        Some(n) => b.with("limit", Json::Unsigned(n)),
        None => b,
    };
    c.with("follow", Json::Bool(q.follow))
}

/// The entries that a list holds, or why it does not.
pub open spec fn entries_in(items: Seq<JsonView>) -> Result<Seq<EntryView>, Seq<char>>
    decreases items.len(),
{
    if items.len() == 0 {
        Ok(Seq::empty())
    } else {
        match entries_in(items.drop_last()) {
            Err(e) => Err(e),
            Ok(list) => match entry_of(items.last()) {
                Err(e) => Err(e),
                Ok(entry) => Ok(list.push(entry)),
            },
        }
    }
}

proof fn entries_error_stays(items: Seq<JsonView>, upto: int)
    requires
        0 <= upto <= items.len(),
        entries_in(items.take(upto)) is Err,
    ensures
        entries_in(items) == entries_in(items.take(upto)),
    decreases items.len(),
{
    if upto == items.len() {
        assert(items.take(upto) =~= items);
    } else {
        assert(items.drop_last().take(upto) =~= items.take(upto));
        entries_error_stays(items.drop_last(), upto);
    }
}

/// The entries that the answer to a query holds, or why it holds none.
pub open spec fn query_result_of(v: JsonView) -> Result<Seq<EntryView>, Seq<char>> {
    match v.get("entries"@) {
        None => Err(missing_field("entries"@)),
        Some(JsonView::List(items)) => entries_in(items),
        Some(_) => Err(invalid_field("entries"@)),
    }
}

/// Reads the answer to a query.
pub fn decode_query_result(v: &Json) -> (r: Result<Vec<LogEntry>, String>)
    ensures
        list_outcome(r) == query_result_of(v@),
{
    match v.get("entries") {
        None => Err(missing("entries")),
        Some(Json::List(items)) => {
            let ghost all = items_view(items@);
            let mut list: Vec<LogEntry> = Vec::new();
            let mut i: usize = 0;
            assert(all.take(0) =~= Seq::<JsonView>::empty());
            while i < items.len()
                invariant
                    i <= items@.len(),
                    all == items_view(items@),
                    v@.get("entries"@) == Some(JsonView::List(all)),
                    entries_in(all.take(i as int)) == Ok::<Seq<EntryView>, Seq<char>>(views(list@)),
                decreases items@.len() - i,
            {
                assert(all[i as int] == items@[i as int]@);
                assert(all.take(i + 1).drop_last() =~= all.take(i as int));
                match decode_entry(&items[i]) {
                    Ok(entry) => {
                        list.push(entry);
                    },
                    Err(e) => {
                        proof {
                            entries_error_stays(all, i + 1);
                        }
                        return Err(e);
                    },
                }
                i += 1;
            }
            assert(all.take(i as int) =~= all);
            Ok(list)
        },
        Some(_) => Err(invalid("entries")),
    }
}

/// Whether some entry has a given id.
pub open spec fn has_id(entries: Seq<EntryView>, id: Seq<char>) -> bool {
    exists|i: int| 0 <= i < entries.len() && (#[trigger] entries[i]).id == id
}

fn contains_id(entries: &Vec<LogEntry>, id: &str) -> (r: bool)
    ensures
        r == has_id(views(entries@), id@),
{
    let ghost all = views(entries@);
    let mut i: usize = 0;
    while i < entries.len()
        invariant
            i <= entries@.len(),
            all == views(entries@),
            forall|k: int| 0 <= k < i ==> (#[trigger] all[k]).id != id@,
        decreases entries@.len() - i,
    {
        assert(all[i as int] == entries@[i as int]@);
        if same(entries[i].id.as_str(), id) {
            return true;
        }
        i += 1;
    }
    false
}

// ---------------------------------------------------------------------------
// Schema and health
// ---------------------------------------------------------------------------

/// What a schema says that the plugin can do.
#[derive(Debug, Clone, Copy, PartialEq, Eq, Structural)]
pub struct LogStorageSchema {
    pub supports_query: bool,
    pub supports_tail: bool,
}

/// The schema that a value holds, or why it holds none.
pub open spec fn schema_of(v: JsonView) -> Result<LogStorageSchema, Seq<char>> {
    match required_bool(v, "supports_query"@) {
        Err(e) => Err(e),
        Ok(supports_query) => match required_bool(v, "supports_tail"@) {
            Err(e) => Err(e),
            Ok(supports_tail) => Ok(LogStorageSchema { supports_query, supports_tail }),
        },
    }
}

/// Reads a schema.
pub fn decode_schema(v: &Json) -> (r: Result<LogStorageSchema, String>)
    ensures
        plain_result(r) == schema_of(v@),
{
    match read_bool(v, "supports_query") {
        Err(e) => Err(e),
        Ok(supports_query) => match read_bool(v, "supports_tail") {
            Err(e) => Err(e),
            Ok(supports_tail) => Ok(LogStorageSchema { supports_query, supports_tail }),
        },
    }
}

/// A truth value in words.
pub open spec fn truth_text(b: bool) -> Seq<char> {
    if b {
        "true"@
    } else {
        "false"@
    }
}

fn show_truth(b: bool) -> (r: &'static str)
    ensures
        r@ == truth_text(b),
{
    if b {
        "true"
    } else {
        "false"
    }
}

/// Whether the schema says what the plugin advertises, for queries and then for tails.
pub open spec fn schema_status(schema: LogStorageSchema, methods: Seq<Seq<char>>) -> StatusView {
    let query = methods.contains(METHOD_LOG_STORAGE_QUERY@);
    let tail = methods.contains(METHOD_LOG_STORAGE_TAIL@);
    if schema.supports_query != query {
        StatusView::Fail {
            reason: "schema supports_query="@ + truth_text(schema.supports_query)
                + " but capabilities advertise query="@ + truth_text(query),
        }
    } else if schema.supports_tail != tail {
        StatusView::Fail {
            reason: "schema supports_tail="@ + truth_text(schema.supports_tail)
                + " but capabilities advertise tail="@ + truth_text(tail),
        }
    } else {
        StatusView::Pass
    }
}

fn check_schema(schema: LogStorageSchema, methods: &Vec<String>) -> (r: TestStatus)
    ensures
        r@ == schema_status(schema, texts(methods@)),
{
    let query = list_contains(methods, METHOD_LOG_STORAGE_QUERY);
    let tail = list_contains(methods, METHOD_LOG_STORAGE_TAIL);
    if schema.supports_query != query {
        let mut m = "schema supports_query=".to_owned();
        m.append(show_truth(schema.supports_query));
        m.append(" but capabilities advertise query=");
        m.append(show_truth(query));
        TestStatus::Fail { reason: m }
    } else if schema.supports_tail != tail {
        let mut m = "schema supports_tail=".to_owned();
        m.append(show_truth(schema.supports_tail));
        m.append(" but capabilities advertise tail=");
        m.append(show_truth(tail));
        TestStatus::Fail { reason: m }
    } else {
        TestStatus::Pass
    }
}

/// A check of schema and health under way: what the plugin advertises, and the schema once it is
/// known.
#[derive(Debug, PartialEq)]
pub struct SchemaHealth {
    methods: Vec<String>,
    schema: Option<LogStorageSchema>,
    diagnostics: Vec<String>,
}

#[verifier::ext_equal]
pub struct SchemaView {
    pub methods: Seq<Seq<char>>,
    pub schema: Option<LogStorageSchema>,
    pub diagnostics: Seq<Seq<char>>,
}

impl View for SchemaHealth {
    type V = SchemaView;

    closed spec fn view(&self) -> SchemaView {
        SchemaView {
            methods: texts(self.methods@),
            schema: self.schema,
            diagnostics: texts(self.diagnostics@),
        }
    }
}

/// A check that waits for the schema.
pub open spec fn fresh_schema(methods: Seq<Seq<char>>) -> SchemaView {
    SchemaView { methods, schema: None, diagnostics: Seq::empty() }
}

/// The check after an answer. The schema must be one, the health must name a status, and the
/// schema must agree with what the plugin advertises.
pub open spec fn schema_after(st: SchemaView, reply: Result<JsonView, Seq<char>>) -> (
    SchemaView,
    StepView,
) {
    match st.schema {
        None => match reply {
            Err(e) => (st, StepView::failed("log_storage/schema: "@ + e, st.diagnostics)),
            Ok(v) => match schema_of(v) {
                Err(e) => (
                    st,
                    StepView::failed(
                        "log_storage/schema returned invalid schema: "@ + e + "; value="@ + shown(
                            v,
                        ),
                        st.diagnostics,
                    ),
                ),
                Ok(schema) => (
                    SchemaView {
                        schema: Some(schema),
                        diagnostics: st.diagnostics.push("log_storage/schema → "@ + shown(v)),
                        ..st
                    },
                    StepView::Call {
                        method: "health/check"@,
                        params: JsonView::object(),
                        budget_ms: CALL_BUDGET_MS as int,
                    },
                ),
            },
        },
        Some(schema) => match reply {
            Err(e) => (st, StepView::failed("health/check: "@ + e, st.diagnostics)),
            Ok(v) => if v.get("status"@) is None {
                (
                    st,
                    StepView::failed("health/check missing status: "@ + shown(v), st.diagnostics),
                )
            } else {
                let notes = st.diagnostics.push("health/check → "@ + shown(v));
                (
                    SchemaView { diagnostics: notes, ..st },
                    StepView::Done {
                        status: schema_status(schema, st.methods),
                        diagnostics: notes,
                    },
                )
            },
        },
    }
}

impl SchemaHealth {
    /// The check, and its first call.
    pub fn new(methods: Vec<String>) -> (r: (SchemaHealth, Step))
        ensures
            r.0@ == fresh_schema(texts(methods@)),
            r.1@ == (StepView::Call {
                method: METHOD_LOG_STORAGE_SCHEMA@,
                params: JsonView::object(),
                budget_ms: CALL_BUDGET_MS as int,
            }),
    {
        (
            SchemaHealth { methods, schema: None, diagnostics: Vec::new() },
            Step::call(METHOD_LOG_STORAGE_SCHEMA, Json::object(), CALL_BUDGET_MS),
        )
    }

    /// Takes an answer.
    pub fn reply(&mut self, reply: &Result<Json, String>) -> (r: Step)
        ensures
            (final(self)@, r@) == schema_after(old(self)@, reply_view(*reply)),
    {
        match self.schema {
            None => match reply {
                Err(e) => Step::failed(
                    concat("log_storage/schema: ", e.as_str()),
                    clone_strings(&self.diagnostics),
                ),
                Ok(v) => match decode_schema(v) {
                    Err(e) => {
                        let mut m = "log_storage/schema returned invalid schema: ".to_owned();
                        m.append(e.as_str());
                        m.append("; value=");
                        m.append(short(v).as_str());
                        Step::failed(m, clone_strings(&self.diagnostics))
                    },
                    Ok(schema) => {
                        self.schema = Some(schema);
                        self.diagnostics.push(concat("log_storage/schema → ", short(v).as_str()));
                        Step::call("health/check", Json::object(), CALL_BUDGET_MS)
                    },
                },
            },
            Some(schema) => match reply {
                Err(e) => Step::failed(
                    concat("health/check: ", e.as_str()),
                    clone_strings(&self.diagnostics),
                ),
                Ok(v) => {
                    if v.get("status").is_none() {
                        Step::failed(
                            concat("health/check missing status: ", short(v).as_str()),
                            clone_strings(&self.diagnostics),
                        )
                    } else {
                        self.diagnostics.push(concat("health/check → ", short(v).as_str()));
                        Step::Done {
                            status: check_schema(schema, &self.methods),
                            diagnostics: clone_strings(&self.diagnostics),
                        }
                    }
                },
            },
        }
    }
}

/// Schema and health pass exactly where the schema is one, the health names a status, and the
/// schema supports queries and tails exactly where the plugin advertises them.
pub proof fn schema_health_passes_iff(
    methods: Seq<Seq<char>>,
    schema: Result<JsonView, Seq<char>>,
    health: Result<JsonView, Seq<char>>,
)
    ensures
        ({
            let (after, step) = schema_after(fresh_schema(methods), schema);
            let end = if step is Done {
                step
            } else {
                schema_after(after, health).1
            };
            &&& end is Done
            &&& (end->status is Pass) == (match (schema, health) {
                (Ok(s), Ok(h)) => {
                    &&& schema_of(s) is Ok
                    &&& h.get("status"@) is Some
                    &&& schema_of(s)->Ok_0.supports_query == methods.contains(
                        METHOD_LOG_STORAGE_QUERY@,
                    )
                    &&& schema_of(s)->Ok_0.supports_tail == methods.contains(
                        METHOD_LOG_STORAGE_TAIL@,
                    )
                },
                _ => false,
            })
        }),
{
}

// ---------------------------------------------------------------------------
// Store and query
// ---------------------------------------------------------------------------

/// The call that stores an entry.
pub open spec fn store_view(e: EntryView) -> StepView {
    StepView::Call {
        method: METHOD_LOG_STORAGE_STORE@,
        params: JsonView::object().with("entries"@, JsonView::List(seq![entry_json(e)])),
        budget_ms: CALL_BUDGET_MS as int,
    }
}

/// Calls to store an entry.
pub fn store_call(entry: &LogEntry) -> (r: Step)
    ensures
        r@ == store_view(entry@),
{
    let mut items: Vec<Json> = Vec::new();
    items.push(encode_entry(entry));
    assert(items_view(items@) =~= seq![entry_json(entry@)]);
    Step::call(
        METHOD_LOG_STORAGE_STORE,
        Json::object().with("entries", Json::List(items)),
        CALL_BUDGET_MS,
    )
}

/// A check of storing and querying under way, for the entry with the id.
#[derive(Debug, PartialEq)]
pub struct StoreQuery {
    id: String,
    stored: bool,
    diagnostics: Vec<String>,
}

#[verifier::ext_equal]
pub struct StoreView {
    pub id: Seq<char>,
    pub stored: bool,
    pub diagnostics: Seq<Seq<char>>,
}

impl View for StoreQuery {
    type V = StoreView;

    closed spec fn view(&self) -> StoreView {
        StoreView { id: self.id@, stored: self.stored, diagnostics: texts(self.diagnostics@) }
    }
}

/// A check that waits for its entry to be stored.
pub open spec fn fresh_store(id: Seq<char>) -> StoreView {
    StoreView { id, stored: false, diagnostics: Seq::empty() }
}

/// How the answer to the query is judged: the stored entry must be in it.
pub open spec fn query_end(st: StoreView, reply: Result<JsonView, Seq<char>>) -> (
    StoreView,
    StepView,
) {
    match reply {
        Err(e) => (st, StepView::failed("log_storage/query: "@ + e, st.diagnostics)),
        Ok(v) => match query_result_of(v) {
            Err(_) => (
                st,
                StepView::failed("log_storage/query: decode LogQueryResult"@, st.diagnostics),
            ),
            Ok(entries) => {
                let notes = st.diagnostics.push(
                    "log_storage/query returned "@ + decimal(entries.len()),
                );
                (
                    StoreView { diagnostics: notes, ..st },
                    if has_id(entries, st.id) {
                        StepView::passed(notes)
                    } else {
                        StepView::failed(
                            "query result did not include stored id "@ + st.id,
                            notes,
                        )
                    },
                )
            },
        },
    }
}

/// The check after an answer.
pub open spec fn store_after(st: StoreView, reply: Result<JsonView, Seq<char>>) -> (
    StoreView,
    StepView,
) {
    if st.stored {
        query_end(st, reply)
    } else {
        match reply {
            Err(e) => (st, StepView::failed("log_storage/store: "@ + e, st.diagnostics)),
            Ok(v) => (
                StoreView {
                    stored: true,
                    diagnostics: st.diagnostics.push("log_storage/store → "@ + shown(v)),
                    ..st
                },
                StepView::Call {
                    method: METHOD_LOG_STORAGE_QUERY@,
                    params: query_json(query_for(st.id, false)),
                    budget_ms: CALL_BUDGET_MS as int,
                },
            ),
        }
    }
}

impl StoreQuery {
    /// The check of an entry, and its first call.
    pub fn new(entry: &LogEntry) -> (r: (StoreQuery, Step))
        ensures
            r.0@ == fresh_store(entry@.id),
            r.1@ == store_view(entry@),
    {
        (
            StoreQuery { id: entry.id.clone(), stored: false, diagnostics: Vec::new() },
            store_call(entry),
        )
    }

    /// Takes an answer.
    pub fn reply(&mut self, reply: &Result<Json, String>) -> (r: Step)
        ensures
            (final(self)@, r@) == store_after(old(self)@, reply_view(*reply)),
    {
        if !self.stored {
            return match reply {
                Err(e) => Step::failed(
                    concat("log_storage/store: ", e.as_str()),
                    clone_strings(&self.diagnostics),
                ),
                Ok(v) => {
                    self.stored = true;
                    self.diagnostics.push(concat("log_storage/store → ", short(v).as_str()));
                    let query = filtered_query(self.id.as_str(), false);
                    Step::call(METHOD_LOG_STORAGE_QUERY, encode_query(&query), CALL_BUDGET_MS)
                },
            };
        }
        match reply {
            Err(e) => Step::failed(
                concat("log_storage/query: ", e.as_str()),
                clone_strings(&self.diagnostics),
            ),
            Ok(v) => match decode_query_result(v) {
                Err(_) => Step::failed(
                    "log_storage/query: decode LogQueryResult".to_owned(),
                    clone_strings(&self.diagnostics),
                ),
                Ok(entries) => {
                    self.diagnostics.push(
                        concat(
                            "log_storage/query returned ",
                            usize_to_string(entries.len()).as_str(),
                        ),
                    );
                    let notes = clone_strings(&self.diagnostics);
                    if contains_id(&entries, self.id.as_str()) {
                        Step::passed(notes)
                    } else {
                        Step::failed(
                            concat("query result did not include stored id ", self.id.as_str()),
                            notes,
                        )
                    }
                },
            },
        }
    }
}

/// Storing and querying passes exactly where the entry is stored and the answer to the query for
/// it holds an entry with its id.
pub proof fn store_query_passes_iff(
    id: Seq<char>,
    store: Result<JsonView, Seq<char>>,
    query: Result<JsonView, Seq<char>>,
)
    ensures
        ({
            let (after, step) = store_after(fresh_store(id), store);
            let end = if step is Done {
                step
            } else {
                store_after(after, query).1
            };
            &&& end is Done
            &&& (end->status is Pass) == (match (store, query) {
                (Ok(_), Ok(v)) => query_result_of(v) is Ok && has_id(query_result_of(v)->Ok_0, id),
                _ => false,
            })
        }),
{
}

// ---------------------------------------------------------------------------
// Tail
// ---------------------------------------------------------------------------

/// The entry that an event of the tail with the given number brings, if it brings one. An event
/// can instead report an error of the stream.
pub open spec fn event_entry(frame: JsonView, request_id: int) -> Result<
    Option<EntryView>,
    Seq<char>,
> {
    let params = frame.get_or_null("params"@);
    if params.get("id"@) != Some(JsonView::Int(request_id)) {
        Ok(None)
    } else {
        match params.get("error"@) {
            Some(e) => Err("tail stream error: "@ + shown(e)),
            None => match params.get("entry"@) {
                None => Ok(None),
                Some(v) => match entry_of(v) {
                    Ok(entry) => Ok(Some(entry)),
                    Err(_) => Err("decode log_storage/event entry"@),
                },
            },
        }
    }
}

/// What reading an optional entry stands for.
pub open spec fn opt_entry(r: Result<Option<LogEntry>, String>) -> Result<
    Option<EntryView>,
    Seq<char>,
> {
    match r {
        Ok(e) => Ok(opt(e)),
        Err(m) => Err(m@),
    }
}

/// Reads the entry that an event of a tail brings.
pub fn log_event_entry(frame: &Json, request_id: u64) -> (r: Result<Option<LogEntry>, String>)
    ensures
        opt_entry(r) == event_entry(frame@, request_id as int),
{
    let params = frame.get_or_null("params");
    if !answers(&params, request_id) {
        return Ok(None);
    }
    if let Some(e) = params.get("error") {
        return Err(concat("tail stream error: ", short(e).as_str()));
    }
    match params.get("entry") {
        None => Ok(None),
        Some(v) => match decode_entry(v) {
            Ok(entry) => Ok(Some(entry)),
            Err(_) => Err("decode log_storage/event entry".to_owned()),
        },
    }
}

/// The parameters of the request for a tail of the entry with a given id.
pub fn tail_params(id: &str) -> (r: Json)
    ensures
        r@ == query_json(query_for(id@, false)),
{
    encode_query(&filtered_query(id, false))
}

/// A tail under way, with the number of its request.
#[derive(Debug, PartialEq)]
pub struct Tail {
    request_id: u64,
    acked: bool,
    event: Option<LogEntry>,
    error: Option<String>,
}

#[verifier::ext_equal]
pub struct TailView {
    pub request_id: int,
    pub acked: bool,
    pub event: Option<EntryView>,
    pub error: Option<Seq<char>>,
}

impl View for Tail {
    type V = TailView;

    closed spec fn view(&self) -> TailView {
        TailView {
            request_id: self.request_id as int,
            acked: self.acked,
            event: opt(self.event),
            error: opt_text(self.error),
        }
    }
}

/// A tail that has just been asked for.
pub open spec fn fresh_tail(request_id: int) -> TailView {
    TailView { request_id, acked: false, event: None, error: None }
}

/// A tail after a frame.
pub open spec fn tail_frame(st: TailView, frame: JsonView) -> TailView {
    if frame.get("id"@) == Some(JsonView::Int(st.request_id)) {
        match response_of(frame) {
            Err(e) => TailView { error: Some(e), ..st },
            Ok(r) => match r.error {
                Some(e) => TailView {
                    error: Some(call_error_text(METHOD_LOG_STORAGE_TAIL@, e)),
                    ..st
                },
                None => TailView { acked: true, ..st },
            },
        }
    } else if frame.text_at("method"@) == Some(NOTIFICATION_LOG_STORAGE_EVENT@) {
        match event_entry(frame, st.request_id) {
            Err(e) => TailView { error: Some(e), ..st },
            Ok(Some(entry)) => TailView { event: Some(entry), ..st },
            Ok(None) => st,
        }
    } else {
        st
    }
}

/// A tail after an event.
pub open spec fn tail_after(st: TailView, event: EventView) -> TailView {
    if st.error is Some {
        st
    } else {
        match frame_in(event, suite_words()) {
            FrameView::Again => st,
            FrameView::Frame(v) => tail_frame(st, v),
            FrameView::Failed(m) => TailView { error: Some(m), ..st },
        }
    }
}

/// Whether a tail reads on, so many milliseconds after it was asked for: until it has been taken
/// up and has brought an entry, or its time is up.
pub open spec fn tail_goes_on(st: TailView, now: int) -> bool {
    st.error is None && now < CALL_BUDGET_MS && (!st.acked || st.event is None)
}

/// What a tail came to.
pub open spec fn tail_result(st: TailView) -> Result<Option<EntryView>, Seq<char>> {
    match st.error {
        Some(e) => Err(e),
        None => if st.acked {
            Ok(st.event)
        } else {
            Err("tail request was not acknowledged within deadline"@)
        },
    }
}

impl Tail {
    /// The tail of a request.
    pub fn new(request_id: u64) -> (r: Tail)
        ensures
            r@ == fresh_tail(request_id as int),
    {
        Tail { request_id, acked: false, event: None, error: None }
    }

    /// Whether to read on.
    pub fn goes_on(&self, now: u64) -> (r: bool)
        ensures
            r == tail_goes_on(self@, now as int),
    {
        self.error.is_none() && now < CALL_BUDGET_MS && (!self.acked || self.event.is_none())
    }

    fn take_frame(&mut self, frame: &Json)
        ensures
            final(self)@ == tail_frame(old(self)@, frame@),
    {
        if answers(frame, self.request_id) {
            match decode_response(frame) {
                Err(e) => {
                    self.error = Some(e);
                },
                Ok(r) => match r.error {
                    Some(e) => {
                        self.error = Some(call_error(METHOD_LOG_STORAGE_TAIL, &e));
                    },
                    None => {
                        self.acked = true;
                    },
                },
            }
            return ;
        }
        let ours = match frame.text_at("method") {
            Some(m) => same(m, NOTIFICATION_LOG_STORAGE_EVENT),
            None => false,
        };
        if ours {
            match log_event_entry(frame, self.request_id) {
                Err(e) => {
                    self.error = Some(e);
                },
                Ok(Some(entry)) => {
                    self.event = Some(entry);
                },
                Ok(None) => {},
            }
        }
    }

    /// Takes an event.
    pub fn receive(&mut self, event: Event)
        ensures
            final(self)@ == tail_after(old(self)@, event@),
    {
        if self.error.is_some() {
            return ;
        }
        match read_frame(event, &suite_wording()) {
            FrameStep::Again => {},
            FrameStep::Frame(v) => self.take_frame(&v),
            FrameStep::Failed(m) => {
                self.error = Some(m);
            },
        }
    }

    /// What the tail came to.
    pub fn finish(self) -> (r: Result<Option<LogEntry>, String>)
        ensures
            opt_entry(r) == tail_result(self@),
    {
        match self.error {
            Some(e) => Err(e),
            None => {
                if self.acked {
                    Ok(self.event)
                } else {
                    Err("tail request was not acknowledged within deadline".to_owned())
                }
            },
        }
    }
}

/// Whether the check of the tail is skipped, because the plugin has none.
pub fn tail_gate(methods: &Vec<String>) -> (r: Option<TestStatus>)
    ensures
        match r {
            None => texts(methods@).contains(METHOD_LOG_STORAGE_TAIL@),
            Some(status) => !texts(methods@).contains(METHOD_LOG_STORAGE_TAIL@) && status@ == (
            StatusView::Skip { reason: "plugin does not advertise log_storage/tail"@ }),
        },
{
    if list_contains(methods, METHOD_LOG_STORAGE_TAIL) {
        None
    } else {
        Some(
            TestStatus::Skip {
                reason: "plugin does not advertise log_storage/tail".to_owned(),
            },
        )
    }
}

/// How the tail of a stored entry is judged, after the answer to storing it: the tail must bring
/// that entry.
pub open spec fn replay_verdict(
    id: Seq<char>,
    store: Result<JsonView, Seq<char>>,
    tail: Result<Option<EntryView>, Seq<char>>,
) -> (StatusView, Seq<Seq<char>>) {
    match store {
        Err(e) => (StatusView::Fail { reason: "log_storage/store: "@ + e }, Seq::empty()),
        Ok(v) => {
            let notes = seq!["log_storage/store → "@ + shown(v)];
            match tail {
                Err(e) => (StatusView::Fail { reason: "log_storage/tail: "@ + e }, notes),
                Ok(None) => (
                    StatusView::Fail { reason: "tail replay did not emit stored id "@ + id },
                    notes,
                ),
                Ok(Some(event)) => if event.id == id {
                    (StatusView::Pass, notes.push("log_storage/event entry id="@ + event.id))
                } else {
                    (
                        StatusView::Fail {
                            reason: "tail replay emitted id "@ + event.id + ", expected "@ + id,
                        },
                        notes,
                    )
                },
            }
        },
    }
}

/// Judges the tail of a stored entry.
pub fn replay_reply(
    id: &str,
    store: &Result<Json, String>,
    tail: &Result<Option<LogEntry>, String>,
) -> (r: (TestStatus, Vec<String>))
    ensures
        (r.0@, texts(r.1@)) == replay_verdict(id@, reply_view(*store), opt_entry(*tail)),
{
    let mut notes: Vec<String> = Vec::new();
    match store {
        Err(e) => (
            TestStatus::Fail { reason: concat("log_storage/store: ", e.as_str()) },
            notes,
        ),
        Ok(v) => {
            notes.push(concat("log_storage/store → ", short(v).as_str()));
            assert(texts(notes@) =~= seq!["log_storage/store → "@ + shown(v@)]);
            match tail {
                Err(e) => (
                    TestStatus::Fail { reason: concat("log_storage/tail: ", e.as_str()) },
                    notes,
                ),
                Ok(None) => (
                    TestStatus::Fail {
                        reason: concat("tail replay did not emit stored id ", id),
                    },
                    notes,
                ),
                Ok(Some(event)) => {
                    if same(event.id.as_str(), id) {
                        notes.push(concat("log_storage/event entry id=", event.id.as_str()));
                        (TestStatus::Pass, notes)
                    } else {
                        let mut m = "tail replay emitted id ".to_owned();
                        m.append(event.id.as_str());
                        m.append(", expected ");
                        m.append(id);
                        (TestStatus::Fail { reason: m }, notes)
                    }
                },
            }
        },
    }
}

/// Where the check of the tail stands.
#[derive(Debug, PartialEq)]
pub enum ReplayPhase {
    /// The entry is stored.
    Storing,
    /// The entry was stored, with this answer, and the tail is asked for.
    Tailing(Json),
    /// The check has ended.
    Over { status: TestStatus, diagnostics: Vec<String> },
}

#[verifier::ext_equal]
pub enum ReplayPhaseView {
    Storing,
    Tailing(JsonView),
    Over { status: StatusView, diagnostics: Seq<Seq<char>> },
}

impl View for ReplayPhase {
    type V = ReplayPhaseView;

    open spec fn view(&self) -> ReplayPhaseView {
        match self {
            ReplayPhase::Storing => ReplayPhaseView::Storing,
            ReplayPhase::Tailing(v) => ReplayPhaseView::Tailing(v@),
            ReplayPhase::Over { status, diagnostics } => ReplayPhaseView::Over {
                status: status@,
                diagnostics: texts(diagnostics@),
            },
        }
    }
}

/// A check of the tail under way, for an entry.
#[derive(Debug, PartialEq)]
pub struct TailReplay {
    entry: LogEntry,
    phase: ReplayPhase,
}

#[verifier::ext_equal]
pub struct ReplayState {
    pub entry: EntryView,
    pub phase: ReplayPhaseView,
}

impl View for TailReplay {
    type V = ReplayState;

    closed spec fn view(&self) -> ReplayState {
        ReplayState { entry: self.entry@, phase: self.phase@ }
    }
}

/// What the check of the tail does next: make a call or end, or follow a tail with the given
/// parameters to its end.
#[derive(Debug, PartialEq)]
pub enum ReplayStep {
    Plain(Step),
    Tail { params: Json },
}

#[verifier::ext_equal]
pub enum ReplayStepView {
    Plain(StepView),
    Tail { params: JsonView },
}

impl View for ReplayStep {
    type V = ReplayStepView;

    open spec fn view(&self) -> ReplayStepView {
        match self {
            ReplayStep::Plain(step) => ReplayStepView::Plain(step@),
            ReplayStep::Tail { params } => ReplayStepView::Tail { params: params@ },
        }
    }
}

/// The check before its first call. A plugin without tails is not checked.
pub open spec fn fresh_replay(methods: Seq<Seq<char>>, entry: EntryView) -> ReplayState {
    ReplayState {
        entry,
        phase: if methods.contains(METHOD_LOG_STORAGE_TAIL@) {
            ReplayPhaseView::Storing
        } else {
            ReplayPhaseView::Over {
                status: StatusView::Skip { reason: "plugin does not advertise log_storage/tail"@ },
                diagnostics: Seq::empty(),
            }
        },
    }
}

/// What is done in each phase.
pub open spec fn replay_step(st: ReplayState) -> ReplayStepView {
    match st.phase {
        ReplayPhaseView::Storing => ReplayStepView::Plain(store_view(st.entry)),
        ReplayPhaseView::Tailing(_) => ReplayStepView::Tail {
            params: query_json(query_for(st.entry.id, false)),
        },
        ReplayPhaseView::Over { status, diagnostics } => ReplayStepView::Plain(
            StepView::Done { status, diagnostics },
        ),
    }
}

/// A check that has ended with a verdict.
pub open spec fn replay_over(
    st: ReplayState,
    store: Result<JsonView, Seq<char>>,
    tail: Result<Option<EntryView>, Seq<char>>,
) -> ReplayState {
    let (status, diagnostics) = replay_verdict(st.entry.id, store, tail);
    ReplayState { phase: ReplayPhaseView::Over { status, diagnostics }, ..st }
}

/// The check after the answer to storing the entry. The tail is asked for only where that
/// succeeded.
pub open spec fn replay_stored(st: ReplayState, reply: Result<JsonView, Seq<char>>) -> ReplayState {
    match st.phase {
        ReplayPhaseView::Storing => match reply {
            Ok(v) => ReplayState { phase: ReplayPhaseView::Tailing(v), ..st },
            Err(_) => replay_over(st, reply, Ok(None)),
        },
        _ => st,
    }
}

/// The check after the tail has ended.
pub open spec fn replay_tailed(
    st: ReplayState,
    tail: Result<Option<EntryView>, Seq<char>>,
) -> ReplayState {
    match st.phase {
        ReplayPhaseView::Tailing(v) => replay_over(st, Ok(v), tail),
        _ => st,
    }
}

impl TailReplay {
    /// The check of a plugin that advertises the given methods, for an entry.
    pub fn new(methods: &Vec<String>, entry: LogEntry) -> (r: TailReplay)
        ensures
            r@ == fresh_replay(texts(methods@), entry@),
    {
        match tail_gate(methods) {
            None => TailReplay { entry, phase: ReplayPhase::Storing },
            Some(status) => {
                let diagnostics: Vec<String> = Vec::new();
                assert(texts(diagnostics@) =~= Seq::<Seq<char>>::empty());
                TailReplay { entry, phase: ReplayPhase::Over { status, diagnostics } }
            },
        }
    }

    /// Says what to do next.
    pub fn step(&self) -> (r: ReplayStep)
        ensures
            r@ == replay_step(self@),
    {
        match &self.phase {
            ReplayPhase::Storing => ReplayStep::Plain(store_call(&self.entry)),
            ReplayPhase::Tailing(_) => ReplayStep::Tail {
                params: tail_params(self.entry.id.as_str()),
            },
            ReplayPhase::Over { status, diagnostics } => ReplayStep::Plain(
                Step::Done { status: status.copy(), diagnostics: clone_strings(diagnostics) },
            ),
        }
    }

    /// Takes the answer to storing the entry.
    pub fn stored(&mut self, reply: &Result<Json, String>)
        ensures
            final(self)@ == replay_stored(old(self)@, reply_view(*reply)),
    {
        match &self.phase {
            ReplayPhase::Storing => {
                self.phase = match reply {
                    Ok(v) => ReplayPhase::Tailing(v.clone()),
                    Err(_) => {
                        let (status, diagnostics) = replay_reply(
                            self.entry.id.as_str(),
                            reply,
                            &Ok(None),
                        );
                        ReplayPhase::Over { status, diagnostics }
                    },
                };
            },
            _ => {},
        }
    }

    /// Takes what the tail brought.
    pub fn tailed(&mut self, tail: &Result<Option<LogEntry>, String>)
        ensures
            final(self)@ == replay_tailed(old(self)@, opt_entry(*tail)),
    {
        match &self.phase {
            ReplayPhase::Tailing(v) => {
                let (status, diagnostics) = replay_reply(
                    self.entry.id.as_str(),
                    &Ok(v.clone()),
                    tail,
                );
                self.phase = ReplayPhase::Over { status, diagnostics };
            },
            _ => {},
        }
    }
}

/// The whole of the check. A plugin without tails is called for nothing and skipped. Any other has
/// the entry stored; the tail is asked for exactly where that succeeded; and the check passes
/// exactly where the tail then brought an entry with the stored id.
pub proof fn tail_replay_passes_iff(
    methods: Seq<Seq<char>>,
    entry: EntryView,
    store: Result<JsonView, Seq<char>>,
    tail: Result<Option<EntryView>, Seq<char>>,
)
    ensures
        ({
            let begun = fresh_replay(methods, entry);
            let stored = replay_stored(begun, store);
            let over = replay_tailed(stored, tail);
            let gated = methods.contains(METHOD_LOG_STORAGE_TAIL@);
            &&& gated ==> replay_step(begun) == ReplayStepView::Plain(store_view(entry))
            &&& (replay_step(stored) is Tail) == (gated && store is Ok)
            &&& over.phase matches ReplayPhaseView::Over { status, .. }
                && (status is Skip) == !gated
                && (status is Pass) == (gated && store is Ok && tail is Ok && tail->Ok_0 is Some
                && (tail->Ok_0)->0.id == entry.id)
            &&& !gated ==> over == begun
        }),
{
}

/// A tail that has failed stays as it is, and is not read on.
pub proof fn failed_tails_stay(st: TailView, event: EventView, now: int)
    requires
        st.error is Some,
    ensures
        tail_after(st, event) == st,
        !tail_goes_on(st, now),
        tail_result(st) is Err,
{
}

/// The replay of a stored entry passes exactly where the entry was stored and the tail was taken
/// up and brought an entry with its id.
pub proof fn replay_passes_iff(id: Seq<char>, store: Result<JsonView, Seq<char>>, st: TailView)
    ensures
        (replay_verdict(id, store, tail_result(st)).0 is Pass) == (store is Ok && st.error is None
            && st.acked && st.event is Some && st.event->0.id == id),
{
}

/// A tail passes an event by that belongs to another tail.
pub proof fn other_tails_ignored(st: TailView, frame: JsonView, other: int)
    requires
        frame.get("id"@) is None,
        frame.get_or_null("params"@).get("id"@) == Some(JsonView::Int(other)),
        other != st.request_id,
    ensures
        tail_frame(st, frame) == st,
{
}

// ---------------------------------------------------------------------------
// What the checks accept
// ---------------------------------------------------------------------------

/// Whether a value holds an entry.
pub open spec fn holds_entry(v: JsonView, e: EntryView) -> bool {
    &&& says(v, "id"@, e.id)
    &&& says(v, "ts"@, e.ts)
    &&& says(v, "level"@, e.level)
    &&& says(v, "source"@, e.source)
    &&& may_say(v, "source_name"@, e.source_name)
    &&& says(v, "target"@, e.target)
    &&& says(v, "message"@, e.message)
    &&& v.get("fields"@) == Some(e.fields)
}

/// An entry is read as it was sent, where its time is one; and what is read is what was sent, in
/// every field that an entry must have.
pub proof fn entries_read_back(v: JsonView, e: EntryView)
    ensures
        holds_entry(v, e) && text_moment(e.ts) is Some ==> entry_of(v) == Ok::<
            EntryView,
            Seq<char>,
        >(e),
        entry_of(v) matches Ok(read) ==> {
            &&& says(v, "id"@, read.id)
            &&& says(v, "ts"@, read.ts) && text_moment(read.ts) is Some
            &&& says(v, "level"@, read.level)
            &&& says(v, "source"@, read.source)
            &&& says(v, "target"@, read.target)
            &&& says(v, "message"@, read.message)
        },
{
}

/// What is stored is the entry itself, in a list of its own.
pub proof fn stores_carry_the_entry(e: EntryView)
    ensures
        holds_entry(entry_json(e), e),
        store_view(e) matches StepView::Call { method, params, .. } && method
            == "log_storage/store"@ && (params.get("entries"@) matches Some(JsonView::List(items))
            && items.len() == 1 && holds_entry(items[0], e)),
{
    entry_keys_differ();
}

/// The keys of an entry are all different.
proof fn entry_keys_differ()
    ensures
        "id"@ != "ts"@,
        "id"@ != "level"@,
        "id"@ != "source"@,
        "id"@ != "source_name"@,
        "id"@ != "target"@,
        "id"@ != "message"@,
        "id"@ != "fields"@,
        "ts"@ != "level"@,
        "ts"@ != "source"@,
        "ts"@ != "source_name"@,
        "ts"@ != "target"@,
        "ts"@ != "message"@,
        "ts"@ != "fields"@,
        "level"@ != "source"@,
        "level"@ != "source_name"@,
        "level"@ != "target"@,
        "level"@ != "message"@,
        "level"@ != "fields"@,
        "source"@ != "source_name"@,
        "source"@ != "target"@,
        "source"@ != "message"@,
        "source"@ != "fields"@,
        "source_name"@ != "target"@,
        "source_name"@ != "message"@,
        "source_name"@ != "fields"@,
        "target"@ != "message"@,
        "target"@ != "fields"@,
        "message"@ != "fields"@,
{
    reveal_strlit("id");
    reveal_strlit("ts");
    reveal_strlit("level");
    reveal_strlit("source");
    reveal_strlit("source_name");
    reveal_strlit("target");
    reveal_strlit("message");
    reveal_strlit("fields");
    assert("id"@.len() == 2);
    assert("ts"@.len() == 2);
    assert("level"@.len() == 5);
    assert("source"@.len() == 6);
    assert("source_name"@.len() == 11);
    assert("target"@.len() == 6);
    assert("message"@.len() == 7);
    assert("fields"@.len() == 6);
    assert("id"@[0] != "ts"@[0]);
    assert("source"@[0] != "target"@[0]);
    assert("source"@[0] != "fields"@[0]);
    assert("target"@[0] != "fields"@[0]);
}

/// The keys of a query are all different.
proof fn query_keys_differ()
    ensures
        "source_name"@ != "target_glob"@,
        "source_name"@ != "limit"@,
        "source_name"@ != "follow"@,
        "target_glob"@ != "limit"@,
        "target_glob"@ != "follow"@,
        "limit"@ != "follow"@,
{
    reveal_strlit("source_name");
    reveal_strlit("target_glob");
    reveal_strlit("limit");
    reveal_strlit("follow");
    assert("source_name"@.len() == 11);
    assert("target_glob"@.len() == 11);
    assert("limit"@.len() == 5);
    assert("follow"@.len() == 6);
    assert("source_name"@[0] != "target_glob"@[0]);
}

/// Whether a value holds the query for an entry: its source and target, a few entries at most, and
/// no waiting for more.
pub open spec fn asks_for(params: JsonView, id: Seq<char>) -> bool {
    &&& says(params, "source_name"@, "log-storage-conformance"@)
    &&& says(params, "target_glob"@, "testkit.log_storage."@ + id)
    &&& params.get("limit"@) == Some(JsonView::Int(5))
    &&& params.get("follow"@) == Some(JsonView::Bool(false))
}

proof fn queries_ask_for_the_entry(id: Seq<char>)
    ensures
        asks_for(query_json(query_for(id, false)), id),
{
    query_keys_differ();
}

proof fn lists_of_entries_are_read(items: Seq<JsonView>, entries: Seq<EntryView>)
    requires
        items.len() == entries.len(),
        forall|i: int|
            0 <= i < items.len() ==> holds_entry(#[trigger] items[i], entries[i]) && text_moment(
                entries[i].ts,
            ) is Some,
    ensures
        entries_in(items) == Ok::<Seq<EntryView>, Seq<char>>(entries),
    decreases items.len(),
{
    if items.len() > 0 {
        let k = items.len() - 1;
        assert forall|i: int| 0 <= i < k implies holds_entry(
            #[trigger] items.drop_last()[i],
            entries.drop_last()[i],
        ) && text_moment(entries.drop_last()[i].ts) is Some by {
            assert(items.drop_last()[i] == items[i]);
        }
        lists_of_entries_are_read(items.drop_last(), entries.drop_last());
        assert(holds_entry(items[k], entries[k]));
        assert(entries =~= entries.drop_last().push(entries[k]));
    } else {
        assert(entries =~= Seq::empty());
    }
}

/// The whole of storing and querying, for whatever entries the plugin answers. The entry that was
/// stored is asked for by its source and target, and the check passes exactly where one of the
/// answered entries has its id.
pub proof fn stored_entries_must_be_found(
    id: Seq<char>,
    store: JsonView,
    reason: Seq<char>,
    answer: JsonView,
    items: Seq<JsonView>,
    entries: Seq<EntryView>,
)
    requires
        answer.get("entries"@) == Some(JsonView::List(items)),
        items.len() == entries.len(),
        forall|i: int|
            0 <= i < items.len() ==> holds_entry(#[trigger] items[i], entries[i]) && text_moment(
                entries[i].ts,
            ) is Some,
    ensures
        ({
            let (after, step) = store_after(fresh_store(id), Ok(store));
            &&& step matches StepView::Call { method, params, .. } && method
                == "log_storage/query"@ && asks_for(params, id)
            &&& store_after(after, Ok(answer)).1 matches StepView::Done { status, .. } && !(
            status is Skip) && (status is Pass) == (exists|i: int|
                0 <= i < entries.len() && (#[trigger] entries[i]).id == id)
            &&& store_after(after, Err(reason)).1 matches StepView::Done { status, .. }
                && status is Fail
            &&& store_after(fresh_store(id), Err(reason)).1 matches StepView::Done { status, .. }
                && status is Fail
        }),
{
    queries_ask_for_the_entry(id);
    lists_of_entries_are_read(items, entries);
}

/// Schema and health, for whatever a plugin answers: the check passes exactly where the schema says
/// of queries and of tails what the plugin advertises, and the health has a status. The health is
/// asked for once the schema is known.
pub proof fn schemas_must_agree(
    methods: Seq<Seq<char>>,
    schema: JsonView,
    query: bool,
    tail: bool,
    health: JsonView,
    reason: Seq<char>,
)
    requires
        schema.get("supports_query"@) == Some(JsonView::Bool(query)),
        schema.get("supports_tail"@) == Some(JsonView::Bool(tail)),
    ensures
        ({
            let (after, step) = schema_after(fresh_schema(methods), Ok(schema));
            &&& step matches StepView::Call { method, params, .. } && method == "health/check"@
                && params == JsonView::object()
            &&& schema_after(after, Ok(health)).1 matches StepView::Done { status, .. } && !(
            status is Skip) && (status is Pass) == (health.get("status"@) is Some && query
                == methods.contains("log_storage/query"@) && tail == methods.contains(
                "log_storage/tail"@,
            ))
            &&& schema_after(after, Err(reason)).1 matches StepView::Done { status, .. }
                && status is Fail
            &&& schema_after(fresh_schema(methods), Err(reason)).1 matches StepView::Done {
                status,
                ..
            } && status is Fail
        }),
{
}

/// A value without both truths is no schema, and fails the check.
pub proof fn schemas_must_be_whole(methods: Seq<Seq<char>>, v: JsonView)
    requires
        !(v.get("supports_query"@) matches Some(JsonView::Bool(_))) || !(v.get("supports_tail"@)
            matches Some(JsonView::Bool(_))),
    ensures
        schema_after(fresh_schema(methods), Ok(v)).1 matches StepView::Done { status, .. }
            && status is Fail,
{
}

/// Whether a frame acknowledges the request for a tail.
pub open spec fn acknowledges(frame: JsonView, request_id: int) -> bool {
    &&& frame.get("id"@) == Some(JsonView::Int(request_id))
    &&& frame.get("jsonrpc"@) matches Some(JsonView::Text(_))
    &&& frame.get("error"@) is None || frame.get("error"@) == Some(JsonView::Null)
}

/// Whether a frame is an event of a tail that brings an entry.
pub open spec fn brings_entry(frame: JsonView, request_id: int, e: EntryView) -> bool {
    &&& frame.get("id"@) is None
    &&& says(frame, "method"@, "log_storage/event"@)
    &&& frame.get("params"@) matches Some(p) && p.get("id"@) == Some(JsonView::Int(request_id))
        && p.get("error"@) is None && (p.get("entry"@) matches Some(v) && holds_entry(v, e))
        && text_moment(e.ts) is Some
}

/// A tail takes an acknowledgement and an entry at any time, each without regard to the other: in
/// every state without an error the one only acknowledges it and the other only gives it the entry.
/// Anything that is neither a response to it nor one of its events leaves it as it is.
pub proof fn tails_take_what_comes(st: TailView, frame: JsonView, e: EntryView)
    ensures
        acknowledges(frame, st.request_id) ==> tail_frame(st, frame) == (TailView {
            acked: true,
            ..st
        }),
        brings_entry(frame, st.request_id, e) ==> tail_frame(st, frame) == (TailView {
            event: Some(e),
            ..st
        }),
        frame.get("id"@) != Some(JsonView::Int(st.request_id)) && frame.get("method"@) != Some(
            JsonView::Text("log_storage/event"@),
        ) ==> tail_frame(st, frame) == st,
{
}

/// An acknowledgement and an entry that come, in either order, to a tail that has just been asked
/// for end it, with that entry.
pub proof fn tails_end_in_either_order(
    request_id: int,
    ack: Seq<char>,
    ack_frame: JsonView,
    event: Seq<char>,
    event_frame: JsonView,
    e: EntryView,
    now: int,
)
    requires
        incoming(ack) == IncomingView::Frame(ack_frame),
        acknowledges(ack_frame, request_id),
        incoming(event) == IncomingView::Frame(event_frame),
        brings_entry(event_frame, request_id, e),
    ensures
        ({
            let fresh = fresh_tail(request_id);
            let first = tail_after(
                tail_after(fresh, EventView::Line(ack)),
                EventView::Line(event),
            );
            let second = tail_after(
                tail_after(fresh, EventView::Line(event)),
                EventView::Line(ack),
            );
            &&& first == second
            &&& first.acked && first.error is None && first.event == Some(e)
            &&& tail_result(first) == Ok::<Option<EntryView>, Seq<char>>(Some(e))
            &&& !tail_goes_on(first, now)
            &&& now < 3_000 ==> tail_goes_on(fresh, now) && tail_goes_on(
                tail_after(fresh, EventView::Line(ack)),
                now,
            ) && tail_goes_on(tail_after(fresh, EventView::Line(event)), now)
            &&& now >= 3_000 ==> !tail_goes_on(fresh, now)
        }),
{
}

/// A tail that is refused, whose stream reports an error, or that cannot be read comes to an error;
/// one that was never acknowledged does so too; and one that was acknowledged but brought nothing
/// comes to nothing.
pub proof fn tails_fail(
    st: TailView,
    frame: JsonView,
    code: int,
    message: Seq<char>,
    problem: JsonView,
)
    requires
        st.error is None,
    ensures
        frame.get("id"@) == Some(JsonView::Int(st.request_id)) && refuses(frame, code, message)
            ==> tail_result(tail_frame(st, frame)) is Err,
        frame.get("id"@) is None && says(frame, "method"@, "log_storage/event"@) && (frame.get(
            "params"@,
        ) matches Some(p) && p.get("id"@) == Some(JsonView::Int(st.request_id)) && p.get("error"@)
            == Some(problem)) ==> tail_result(tail_frame(st, frame)) is Err,
        tail_result(tail_after(st, EventView::Closed)) is Err,
        tail_result(tail_after(st, EventView::Quiet)) is Err,
        !st.acked ==> tail_result(st) is Err,
        st.acked ==> tail_result(st) == Ok::<Option<EntryView>, Seq<char>>(st.event),
{
}

/// The tail that a check asks for is the one of its entry, and does not wait for more.
pub proof fn tails_ask_for_the_entry(st: ReplayState)
    ensures
        st.phase is Tailing ==> (replay_step(st) matches ReplayStepView::Tail { params }
            && asks_for(params, st.entry.id)),
        st.phase is Storing ==> (replay_step(st) matches ReplayStepView::Plain(step)
            && step matches StepView::Call { method, .. } && method == "log_storage/store"@),
{
    queries_ask_for_the_entry(st.entry.id);
}

/// The entry of a check says what it was built from: its id holds the suffix and the moment, its
/// target its id, and two moments that are told apart give two ids.
pub proof fn entries_hold_their_moment(
    suffix: Seq<char>,
    message: Seq<char>,
    now: Moment,
    later: Moment,
)
    ensures
        ({
            let e = entry_at(suffix, message, now);
            &&& e.id == "testkit-"@ + suffix + "-"@ + signed_decimal(stamp(now))
            &&& e.target == "testkit.log_storage."@ + e.id
            &&& e.message == message
            &&& e.ts == moment_text(now.seconds as int, now.nanos as int)
            &&& e.level == "info"@
            &&& e.source == "plugin"@
            &&& e.source_name == Some("log-storage-conformance"@)
            &&& says(e.fields, "suite"@, "log-storage-conformance"@)
            &&& 0 <= stamp(now) && 0 <= stamp(later) && stamp(now) != stamp(later) ==> e.id
                != entry_at(suffix, message, later).id
        }),
{
    let head = "testkit-"@ + suffix + "-"@;
    let (a, b) = (signed_decimal(stamp(now)), signed_decimal(stamp(later)));
    if 0 <= stamp(now) && 0 <= stamp(later) && head + a == head + b {
        assert((head + a).skip(head.len() as int) =~= a);
        assert((head + b).skip(head.len() as int) =~= b);
        decimal_injective(stamp(now) as nat, stamp(later) as nat);
    }
}

/// The answer to a query is a list of entries; without one it is refused.
pub proof fn query_answers_hold_entries(
    v: JsonView,
    items: Seq<JsonView>,
    entries: Seq<EntryView>,
)
    requires
        items.len() == entries.len(),
        forall|i: int|
            0 <= i < items.len() ==> holds_entry(#[trigger] items[i], entries[i]) && text_moment(
                entries[i].ts,
            ) is Some,
    ensures
        v.get("entries"@) == Some(JsonView::List(items)) ==> query_result_of(v) == Ok::<
            Seq<EntryView>,
            Seq<char>,
        >(entries),
        v.get("entries"@) is None ==> query_result_of(v) is Err,
{
    lists_of_entries_are_read(items, entries);
}

/// What storing and querying noted and why it failed: the answer to the store in brief, how many
/// entries the query gave, and the id that was not among them.
pub proof fn stores_and_queries_say_why(
    st: StoreView,
    v: JsonView,
    entries: Seq<EntryView>,
    reason: Seq<char>,
)
    ensures
        !st.stored ==> {
            &&& store_after(st, Ok(v)).0.diagnostics == st.diagnostics.push(
                "log_storage/store → "@ + shown(v),
            )
            &&& store_after(st, Err(reason)).1 == (StepView::Done {
                status: StatusView::Fail { reason: "log_storage/store: "@ + reason },
                diagnostics: st.diagnostics,
            })
        },
        st.stored ==> {
            &&& store_after(st, Err(reason)).1 == (StepView::Done {
                status: StatusView::Fail { reason: "log_storage/query: "@ + reason },
                diagnostics: st.diagnostics,
            })
            &&& query_result_of(v) == Ok::<Seq<EntryView>, Seq<char>>(entries) ==> (store_after(
                st,
                Ok(v),
            ).1 matches StepView::Done { status, diagnostics } && diagnostics
                == st.diagnostics.push("log_storage/query returned "@ + decimal(entries.len()))
                && (!(status is Pass) ==> status == (StatusView::Fail {
                reason: "query result did not include stored id "@ + st.id,
            })))
        },
        shown(v) == brief(v, SHOWN_BYTES as nat, "..."@),
{
}

/// A schema that disagrees with what is advertised is refused with both, queries before tails.
pub proof fn schema_refusals_name_both(methods: Seq<Seq<char>>, tail: bool)
    ensures
        !methods.contains("log_storage/query"@) ==> schema_status(
            LogStorageSchema { supports_query: true, supports_tail: tail },
            methods,
        ) == (StatusView::Fail {
            reason: "schema supports_query="@ + "true"@ + " but capabilities advertise query="@
                + "false"@,
        }),
        methods.contains("log_storage/query"@) ==> schema_status(
            LogStorageSchema { supports_query: false, supports_tail: tail },
            methods,
        ) == (StatusView::Fail {
            reason: "schema supports_query="@ + "false"@ + " but capabilities advertise query="@
                + "true"@,
        }),
        methods.contains("log_storage/query"@) && tail != methods.contains("log_storage/tail"@)
            ==> schema_status(
            LogStorageSchema { supports_query: true, supports_tail: tail },
            methods,
        ) == (StatusView::Fail {
            reason: "schema supports_tail="@ + (if tail {
                "true"@
            } else {
                "false"@
            }) + " but capabilities advertise tail="@ + (if tail {
                "false"@
            } else {
                "true"@
            }),
        }),
{
}

} // verus!
