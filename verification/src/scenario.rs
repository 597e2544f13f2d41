//! The scenario file format.

use crate::codec::{json_text, parse_yaml, render, yaml_document};
use crate::fields::{
    invalid, invalid_field, missing, missing_field, opt_text_result, optional_bool, optional_int,
    optional_text, read_optional_bool, read_optional_int, read_optional_text, read_text,
    required_text, text_result, texts_result,
};
use crate::json::{fields_view, items_view, Json, JsonView};
use crate::model::{
    env_view, env_view_push, ExpectedNotification, ExpectedResponse, ExpectedResponseView,
    ExpectedView, MockHint, MockHintView, RequestView, ScenarioFile, ScenarioMethod,
    ScenarioRequest, ScenarioView, DEFAULT_TIMEOUT_MS,
};
use crate::rpc::{lists, may_say, says};
use crate::text::{
    decimal, group_texts, i64_to_string, opt_text, same, signed_decimal, texts, u64_to_string,
    usize_to_string,
};
use crate::views::{group_views, list_outcome, outcome, views};
use vstd::prelude::*;

verus! {

broadcast use {group_views, group_texts};

// ---------------------------------------------------------------------------
// Scalars
// ---------------------------------------------------------------------------

/// The text that a scalar stands for where the format asks for a text. A plain scalar that YAML
/// reads as a number or a truth value stands for that value's usual spelling, and one that is
/// empty for the empty text.
pub open spec fn scalar_text(v: JsonView) -> Option<Seq<char>> {
    match v {
        JsonView::Text(s) => Some(s),
        JsonView::Null => Some(Seq::empty()),
        JsonView::Bool(b) => Some(
            if b {
                "true"@
            } else {
                "false"@
            },
        ),
        JsonView::Int(i) => Some(signed_decimal(i)),
        JsonView::Decimal(_) => Some(json_text(v)),
        _ => None,
    }
}

fn read_scalar(v: &Json) -> (r: Option<String>)
    ensures
        opt_text(r) == scalar_text(v@),
{
    match v {
        Json::Text(s) => Some(s.clone()),
        Json::Null => Some(String::new()),
        Json::Bool(b) => Some(
            if *b {
                "true".to_owned()
            } else {
                "false".to_owned()
            },
        ),
        Json::Unsigned(n) => Some(u64_to_string(*n)),
        Json::Negative(n) => Some(i64_to_string(*n)),
        Json::Decimal(_) => Some(render(v)),
        _ => None,
    }
}

/// A text that must be there.
pub open spec fn plain_text(v: JsonView, key: Seq<char>) -> Result<Seq<char>, Seq<char>> {
    match v.get(key) {
        None => Err(missing_field(key)),
        Some(x) => match scalar_text(x) {
            Some(s) => Ok(s),
            None => Err(invalid_field(key)),
        },
    }
}

fn read_plain_text(v: &Json, key: &str) -> (r: Result<String, String>)
    ensures
        text_result(r) == plain_text(v@, key@),
{
    match v.get(key) {
        None => Err(missing(key)),
        Some(x) => match read_scalar(x) {
            Some(s) => Ok(s),
            None => Err(invalid(key)),
        },
    }
}

/// A text that is empty where it is absent.
pub open spec fn plain_text_or_empty(v: JsonView, key: Seq<char>) -> Result<Seq<char>, Seq<char>> {
    if v.get(key) is None {
        Ok(Seq::empty())
    } else {
        plain_text(v, key)
    }
}

fn read_plain_text_or_empty(v: &Json, key: &str) -> (r: Result<String, String>)
    ensures
        text_result(r) == plain_text_or_empty(v@, key@),
{
    if v.get(key).is_none() {
        Ok(String::new())
    } else {
        read_plain_text(v, key)
    }
}

/// A text that may be absent or null.
pub open spec fn plain_text_if_any(v: JsonView, key: Seq<char>) -> Result<
    Option<Seq<char>>,
    Seq<char>,
> {
    match v.get(key) {
        None | Some(JsonView::Null) => Ok(None),
        Some(_) => match plain_text(v, key) {
            Ok(s) => Ok(Some(s)),
            Err(e) => Err(e),
        },
    }
}

fn read_plain_text_if_any(v: &Json, key: &str) -> (r: Result<Option<String>, String>)
    ensures
        opt_text_result(r) == plain_text_if_any(v@, key@),
{
    match v.get(key) {
        None => Ok(None),
        Some(Json::Null) => Ok(None),
        Some(_) => match read_plain_text(v, key) {
            Ok(s) => Ok(Some(s)),
            Err(e) => Err(e),
        },
    }
}

/// Whether every value of a list is a scalar.
pub open spec fn all_scalars(items: Seq<JsonView>) -> bool {
    forall|i: int| 0 <= i < items.len() ==> scalar_text(#[trigger] items[i]) is Some
}

/// The texts of a list of scalars.
pub open spec fn scalar_texts(items: Seq<JsonView>) -> Seq<Seq<char>> {
    items.map_values(|v: JsonView| scalar_text(v)->0)
}

/// A list of texts that is empty where it is absent or null.
pub open spec fn plain_texts(v: JsonView, key: Seq<char>) -> Result<Seq<Seq<char>>, Seq<char>> {
    match v.get(key) {
        None | Some(JsonView::Null) => Ok(Seq::empty()),
        Some(JsonView::List(items)) => if all_scalars(items) {
            Ok(scalar_texts(items))
        } else {
            Err(invalid_field(key))
        },
        Some(_) => Err(invalid_field(key)),
    }
}

fn read_plain_texts(v: &Json, key: &str) -> (r: Result<Vec<String>, String>)
    ensures
        texts_result(r) == plain_texts(v@, key@),
{
    match v.get(key) {
        None => Ok(Vec::new()),
        Some(Json::Null) => Ok(Vec::new()),
        Some(Json::List(items)) => {
            let ghost all = items_view(items@);
            let mut list: Vec<String> = Vec::new();
            let mut i: usize = 0;
            while i < items.len()
                invariant
                    i <= items@.len(),
                    all == items_view(items@),
                    list@.len() == i,
                    v@.get(key@) == Some(JsonView::List(all)),
                    forall|k: int|
                        0 <= k < i ==> scalar_text(all[k]) == Some((#[trigger] list@[k])@),
                decreases items@.len() - i,
            {
                assert(all[i as int] == items@[i as int]@);
                match read_scalar(&items[i]) {
                    Some(s) => {
                        list.push(s);
                    },
                    None => {
                        assert(scalar_text(all[i as int]) is None);
                        return Err(invalid(key));
                    },
                }
                i += 1;
            }
            assert forall|k: int| 0 <= k < all.len() implies scalar_text(#[trigger] all[k]) is Some by {
                assert(scalar_text(all[k]) == Some(list@[k]@));
            }
            assert(texts(list@) =~= scalar_texts(all));
            Ok(list)
        },
        Some(_) => Err(invalid(key)),
    }
}

/// A section of the file; absent and null stand for one without fields.
pub open spec fn section(v: JsonView, key: Seq<char>) -> Result<JsonView, Seq<char>> {
    match v.get(key) {
        None | Some(JsonView::Null) => Ok(JsonView::object()),
        Some(JsonView::Object(m)) => Ok(JsonView::Object(m)),
        Some(_) => Err(invalid_field(key)),
    }
}

fn read_section(v: &Json, key: &str) -> (r: Result<Json, String>)
    ensures
        outcome(r) == section(v@, key@),
{
    match v.get(key) {
        None => Ok(Json::object()),
        Some(Json::Null) => Ok(Json::object()),
        Some(x) => match x {
            Json::Object(_) => Ok(x.clone()),
            _ => Err(invalid(key)),
        },
    }
}

// ---------------------------------------------------------------------------
// The request
// ---------------------------------------------------------------------------

/// Whether every field of an object is a scalar.
pub open spec fn all_scalar_fields(m: Map<Seq<char>, JsonView>) -> bool {
    forall|k: Seq<char>| m.dom().contains(k) ==> scalar_text(#[trigger] m[k]) is Some
}

/// The texts of an object of scalars.
pub open spec fn scalar_fields(m: Map<Seq<char>, JsonView>) -> Map<Seq<char>, Seq<char>> {
    m.map_values(|v: JsonView| scalar_text(v)->0)
}

/// The environment of a request.
pub open spec fn env_of(request: JsonView) -> Result<Map<Seq<char>, Seq<char>>, Seq<char>> {
    match section(request, "env"@) {
        Err(e) => Err(e),
        Ok(v) => if all_scalar_fields(v->Object_0) {
            Ok(scalar_fields(v->Object_0))
        } else {
            Err(invalid_field("env"@))
        },
    }
}

/// Tells whether a field is the last one with its key, the one that the object has.
fn latest(fields: &Vec<(String, Json)>, i: usize) -> (r: bool)
    requires
        i < fields@.len(),
    ensures
        r == (forall|k: int| i < k < fields@.len() ==> (#[trigger] fields@[k]).0@ != fields@[i as int].0@),
{
    let total: usize = fields.len();
    let mut k: usize = i + 1;
    while k < total
        invariant
            i < k <= total,
            total == fields@.len(),
            forall|j: int| i < j < k ==> (#[trigger] fields@[j]).0@ != fields@[i as int].0@,
        decreases fields@.len() - k,
    {
        if same(fields[k].0.as_str(), fields[i].0.as_str()) {
            return false;
        }
        k += 1;
    }
    true
}

proof fn fields_view_from(fields: Seq<(String, Json)>, i: int)
    requires
        0 <= i < fields.len(),
        forall|k: int| i < k < fields.len() ==> (#[trigger] fields[k]).0@ != fields[i].0@,
    ensures
        fields_view(fields).dom().contains(fields[i].0@),
        fields_view(fields)[fields[i].0@] == fields[i].1@,
    decreases fields.len(),
{
    if i < fields.len() - 1 {
        let head = fields.drop_last();
        assert forall|k: int| i < k < head.len() implies (#[trigger] head[k]).0@ != head[i].0@ by {
            assert(head[k] == fields[k]);
        }
        fields_view_from(head, i);
        assert(fields[fields.len() - 1].0@ != fields[i].0@);
    }
}

/// Every key of the object is the key of the last field that has it.
proof fn fields_view_key(fields: Seq<(String, Json)>, key: Seq<char>) -> (i: int)
    requires
        fields_view(fields).dom().contains(key),
    ensures
        0 <= i < fields.len(),
        fields[i].0@ == key,
        fields_view(fields)[key] == fields[i].1@,
        forall|k: int| i < k < fields.len() ==> (#[trigger] fields[k]).0@ != key,
    decreases fields.len(),
{
    if fields.last().0@ == key {
        fields.len() - 1
    } else {
        let head = fields.drop_last();
        let i = fields_view_key(head, key);
        assert forall|k: int| i < k < fields.len() implies (#[trigger] fields[k]).0@ != key by {
            if k < fields.len() - 1 {
                assert(head[k] == fields[k]);
            }
        }
        i
    }
}

/// The environment that a list of fields gives, as far as it was read.
spec fn env_so_far(
    fields: Seq<(String, Json)>,
    upto: int,
    env: Map<Seq<char>, Seq<char>>,
) -> bool {
    &&& forall|k: Seq<char>|
        #![trigger env.dom().contains(k)]
        env.dom().contains(k) ==> fields_view(fields).dom().contains(k) && scalar_text(
            fields_view(fields)[k],
        ) == Some(env[k])
    &&& forall|i: int|
        0 <= i < upto ==> (env.dom().contains((#[trigger] fields[i]).0@) || !(forall|k: int|
            i < k < fields.len() ==> (#[trigger] fields[k]).0@ != fields[i].0@))
}

fn read_env(request: &Json) -> (r: Result<Vec<(String, String)>, String>)
    ensures
        match r {
            Ok(env) => env_of(request@) == Ok::<Map<Seq<char>, Seq<char>>, Seq<char>>(
                env_view(env@),
            ),
            Err(e) => env_of(request@) == Err::<Map<Seq<char>, Seq<char>>, Seq<char>>(e@),
        },
{
    let v = match read_section(request, "env") {
        Ok(v) => v,
        Err(e) => {
            return Err(e);
        },
    };
    let mut env: Vec<(String, String)> = Vec::new();
    match &v {
        Json::Object(fields) => {
            let ghost whole = fields_view(fields@);
            let mut i: usize = 0;
            while i < fields.len()
                invariant
                    i <= fields@.len(),
                    whole == fields_view(fields@),
                    section(request@, "env"@) == Ok::<JsonView, Seq<char>>(JsonView::Object(whole)),
                    env_so_far(fields@, i as int, env_view(env@)),
                decreases fields@.len() - i,
            {
                if latest(fields, i) {
                    proof {
                        fields_view_from(fields@, i as int);
                    }
                    match read_scalar(&fields[i].1) {
                        None => {
                            assert(scalar_text(whole[fields@[i as int].0@]) is None);
                            return Err(invalid("env"));
                        },
                        Some(s) => {
                            let entry = (fields[i].0.clone(), s);
                            proof {
                                env_view_push(env@, entry);
                            }
                            env.push(entry);
                        },
                    }
                }
                i += 1;
            }
            proof {
                assert forall|k: Seq<char>| whole.dom().contains(k) implies scalar_text(
                    #[trigger] whole[k],
                ) is Some && env_view(env@).dom().contains(k) by {
                    let i = fields_view_key(fields@, k);
                    assert(env_view(env@).dom().contains(fields@[i].0@));
                }
                assert(env_view(env@) =~= scalar_fields(whole));
            }
            Ok(env)
        },
        _ => Err(invalid("env")),
    }
}

/// The request of a scenario.
pub open spec fn request_of(v: JsonView) -> Result<RequestView, Seq<char>> {
    let prompt = plain_text(v, "prompt"@);
    let model = plain_text_if_any(v, "model"@);
    let system_prompt = plain_text_if_any(v, "system_prompt"@);
    let cwd = plain_text_if_any(v, "cwd"@);
    let session_id = plain_text_if_any(v, "session_id"@);
    let env = env_of(v);
    if prompt is Err {
        Err(prompt->Err_0)
    } else if model is Err {
        Err(model->Err_0)
    } else if system_prompt is Err {
        Err(system_prompt->Err_0)
    } else if cwd is Err {
        Err(cwd->Err_0)
    } else if session_id is Err {
        Err(session_id->Err_0)
    } else if env is Err {
        Err(env->Err_0)
    } else {
        Ok(
            RequestView {
                prompt: prompt->Ok_0,
                model: model->Ok_0,
                system_prompt: system_prompt->Ok_0,
                cwd: cwd->Ok_0,
                session_id: session_id->Ok_0,
                env: env->Ok_0,
            },
        )
    }
}

fn read_request(v: &Json) -> (r: Result<ScenarioRequest, String>)
    ensures
        outcome(r) == request_of(v@),
{
    let prompt = match read_plain_text(v, "prompt") {
        Ok(s) => s,
        Err(e) => {
            return Err(e);
        },
    };
    let model = match read_plain_text_if_any(v, "model") {
        Ok(s) => s,
        Err(e) => {
            return Err(e);
        },
    };
    let system_prompt = match read_plain_text_if_any(v, "system_prompt") {
        Ok(s) => s,
        Err(e) => {
            return Err(e);
        },
    };
    let cwd = match read_plain_text_if_any(v, "cwd") {
        Ok(s) => s,
        Err(e) => {
            return Err(e);
        },
    };
    let session_id = match read_plain_text_if_any(v, "session_id") {
        Ok(s) => s,
        Err(e) => {
            return Err(e);
        },
    };
    match read_env(v) {
        Ok(env) => Ok(ScenarioRequest { prompt, model, system_prompt, cwd, session_id, env }),
        Err(e) => Err(e),
    }
}

// ---------------------------------------------------------------------------
// Expectations
// ---------------------------------------------------------------------------

/// The message for a kind of notification that there is not.
pub open spec fn unknown_kind(kind: Seq<char>) -> Seq<char> {
    "unknown variant `"@ + kind
        + "`, expected one of `output`, `thinking`, `tool_call`, `tool_result`, `error`"@
}

/// The pattern that an object declares, by the kind that it names and the field of that kind.
pub open spec fn named_pattern(v: JsonView) -> Result<ExpectedView, Seq<char>> {
    match required_text(v, "kind"@) {
        Err(e) => Err(e),
        Ok(kind) => if kind == "output"@ {
            match optional_text(v, "contains"@) {
                Err(e) => Err(e),
                Ok(contains) => Ok(ExpectedView::Output { contains }),
            }
        } else if kind == "thinking"@ {
            Ok(ExpectedView::Thinking)
        } else if kind == "tool_call"@ {
            match optional_text(v, "name"@) {
                Err(e) => Err(e),
                Ok(name) => Ok(ExpectedView::ToolCall { name }),
            }
        } else if kind == "tool_result"@ {
            Ok(ExpectedView::ToolResult)
        } else if kind == "error"@ {
            match optional_bool(v, "recoverable"@) {
                Err(e) => Err(e),
                Ok(recoverable) => Ok(ExpectedView::Error { recoverable }),
            }
        } else {
            Err(unknown_kind(kind))
        },
    }
}

fn read_named_pattern(v: &Json) -> (r: Result<ExpectedNotification, String>)
    ensures
        outcome(r) == named_pattern(v@),
{
    let kind = match read_text(v, "kind") {
        Ok(s) => s,
        Err(e) => {
            return Err(e);
        },
    };
    if same(kind.as_str(), "output") {
        match read_optional_text(v, "contains") {
            Ok(contains) => Ok(ExpectedNotification::Output { contains }),
            Err(e) => Err(e),
        }
    } else if same(kind.as_str(), "thinking") {
        Ok(ExpectedNotification::Thinking)
    } else if same(kind.as_str(), "tool_call") {
        match read_optional_text(v, "name") {
            Ok(name) => Ok(ExpectedNotification::ToolCall { name }),
            Err(e) => Err(e),
        }
    } else if same(kind.as_str(), "tool_result") {
        Ok(ExpectedNotification::ToolResult)
    } else if same(kind.as_str(), "error") {
        match read_optional_bool(v, "recoverable") {
            Ok(recoverable) => Ok(ExpectedNotification::Error { recoverable }),
            Err(e) => Err(e),
        }
    } else {
        let mut m = "unknown variant `".to_owned();
        m.append(kind.as_str());
        m.append("`, expected one of `output`, `thinking`, `tool_call`, `tool_result`, `error`");
        Err(m)
    }
}

/// The field that patterns of a kind have, if they have one.
pub open spec fn kind_field(kind: Seq<char>) -> Option<Seq<char>> {
    if kind == "output"@ {
        Some("contains"@)
    } else if kind == "tool_call"@ {
        Some("name"@)
    } else if kind == "error"@ {
        Some("recoverable"@)
    } else {
        None
    }
}

fn field_of_kind(kind: &str) -> (r: Option<&'static str>)
    ensures
        kind_field(kind@) == (match r {
            Some(f) => Some(f@),
            None => None,
        }),
{
    if same(kind, "output") {
        Some("contains")
    } else if same(kind, "tool_call") {
        Some("name")
    } else if same(kind, "error") {
        Some("recoverable")
    } else {
        None
    }
}

/// Whether patterns of a kind stand by themselves.
pub open spec fn is_bare_kind(kind: Seq<char>) -> bool {
    kind == "thinking"@ || kind == "tool_result"@
}

/// The message for a list with more values than the kind has fields.
pub open spec fn too_many_values(given: nat, allowed: Seq<char>) -> Seq<char> {
    "invalid length "@ + decimal(given) + ", expected "@ + allowed + " in sequence"@
}

fn length_error(given: usize, allowed: &str) -> (r: String)
    ensures
        r@ == too_many_values(given as nat, allowed@),
{
    let mut m = "invalid length ".to_owned();
    m.append(usize_to_string(given).as_str());
    m.append(", expected ");
    m.append(allowed);
    m.append(" in sequence");
    m
}

/// The pattern that a list declares: the kind comes first, then the field of that kind, which may
/// be left out.
pub open spec fn listed_pattern(items: Seq<JsonView>) -> Result<ExpectedView, Seq<char>> {
    if items.len() == 0 {
        Err(missing_field("kind"@))
    } else {
        match items[0] {
            JsonView::Text(kind) => {
                let given = (items.len() - 1) as nat;
                let bare = JsonView::object().with("kind"@, JsonView::Text(kind));
                match kind_field(kind) {
                    Some(field) => if given == 0 {
                        named_pattern(bare)
                    } else if given == 1 {
                        named_pattern(bare.with(field, items[1]))
                    } else {
                        Err(too_many_values(given, "1 element"@))
                    },
                    None => if given > 0 && is_bare_kind(kind) {
                        Err(too_many_values(given, "0 elements"@))
                    } else {
                        named_pattern(bare)
                    },
                }
            },
            _ => Err(invalid_field("kind"@)),
        }
    }
}

fn read_listed_pattern(items: &Vec<Json>) -> (r: Result<ExpectedNotification, String>)
    ensures
        outcome(r) == listed_pattern(items_view(items@)),
{
    if items.len() == 0 {
        return Err(missing("kind"));
    }
    assert(items_view(items@)[0] == items@[0]@);
    match &items[0] {
        Json::Text(kind) => {
            let given: usize = items.len() - 1;
            let bare = Json::object().with("kind", Json::Text(kind.clone()));
            match field_of_kind(kind.as_str()) {
                Some(field) => {
                    if given == 0 {
                        read_named_pattern(&bare)
                    } else if given == 1 {
                        assert(items_view(items@)[1] == items@[1]@);
                        read_named_pattern(&bare.with(field, items[1].clone()))
                    } else {
                        Err(length_error(given, "1 element"))
                    }
                },
                None => {
                    if given > 0 && (same(kind.as_str(), "thinking") || same(
                        kind.as_str(),
                        "tool_result",
                    )) {
                        Err(length_error(given, "0 elements"))
                    } else {
                        read_named_pattern(&bare)
                    }
                },
            }
        },
        _ => Err(invalid("kind")),
    }
}

/// The pattern that an entry of `expected_notifications` declares, as an object or as a list.
pub open spec fn expected_of(v: JsonView) -> Result<ExpectedView, Seq<char>> {
    match v {
        JsonView::List(items) => listed_pattern(items),
        _ => named_pattern(v),
    }
}

fn read_expected(v: &Json) -> (r: Result<ExpectedNotification, String>)
    ensures
        outcome(r) == expected_of(v@),
{
    match v {
        Json::List(items) => read_listed_pattern(items),
        _ => read_named_pattern(v),
    }
}

/// The patterns that a list declares, or what is wrong with the first that declares none.
pub open spec fn all_expected(items: Seq<JsonView>) -> Result<Seq<ExpectedView>, Seq<char>>
    decreases items.len(),
{
    if items.len() == 0 {
        Ok(Seq::empty())
    } else {
        match all_expected(items.drop_last()) {
            Err(e) => Err(e),
            Ok(list) => match expected_of(items.last()) {
                Err(e) => Err(e),
                Ok(p) => Ok(list.push(p)),
            },
        }
    }
}

/// An error in the beginning of a list is an error of the list.
proof fn expected_error_stays(items: Seq<JsonView>, upto: int)
    requires
        0 <= upto <= items.len(),
        all_expected(items.take(upto)) is Err,
    ensures
        all_expected(items) == all_expected(items.take(upto)),
    decreases items.len(),
{
    if upto == items.len() {
        assert(items.take(upto) =~= items);
    } else {
        assert(items.drop_last().take(upto) =~= items.take(upto));
        expected_error_stays(items.drop_last(), upto);
    }
}

/// The expected notifications of a scenario.
pub open spec fn expectations_of(v: JsonView) -> Result<Seq<ExpectedView>, Seq<char>> {
    match v.get("expected_notifications"@) {
        None | Some(JsonView::Null) => Ok(Seq::empty()),
        Some(JsonView::List(items)) => all_expected(items),
        Some(_) => Err(invalid_field("expected_notifications"@)),
    }
}

fn read_expectations(v: &Json) -> (r: Result<Vec<ExpectedNotification>, String>)
    ensures
        list_outcome(r) == expectations_of(v@),
{
    match v.get("expected_notifications") {
        None => Ok(Vec::new()),
        Some(Json::Null) => Ok(Vec::new()),
        Some(Json::List(items)) => {
            let ghost all = items_view(items@);
            let mut list: Vec<ExpectedNotification> = Vec::new();
            let mut i: usize = 0;
            assert(all.take(0) =~= Seq::<JsonView>::empty());
            while i < items.len()
                invariant
                    i <= items@.len(),
                    all == items_view(items@),
                    v@.get("expected_notifications"@) == Some(JsonView::List(all)),
                    all_expected(all.take(i as int)) == Ok::<Seq<ExpectedView>, Seq<char>>(
                        views(list@),
                    ),
                decreases items@.len() - i,
            {
                assert(all[i as int] == items@[i as int]@);
                assert(all.take(i + 1).drop_last() =~= all.take(i as int));
                match read_expected(&items[i]) {
                    Ok(p) => {
                        list.push(p);
                    },
                    Err(e) => {
                        proof {
                            expected_error_stays(all, i + 1);
                        }
                        return Err(e);
                    },
                }
                i += 1;
            }
            assert(all.take(i as int) =~= all);
            Ok(list)
        },
        Some(_) => Err(invalid("expected_notifications")),
    }
}

/// What a scenario expects of the response.
pub open spec fn expected_response_of(v: JsonView) -> Result<ExpectedResponseView, Seq<char>> {
    let output_contains = plain_text_if_any(v, "output_contains"@);
    let min_output_len = optional_int(v, "min_output_len"@, 0, usize::MAX as int);
    let exit_code = optional_int(v, "exit_code"@, i32::MIN as int, i32::MAX as int);
    if output_contains is Err {
        Err(output_contains->Err_0)
    } else if min_output_len is Err {
        Err(min_output_len->Err_0)
    } else if exit_code is Err {
        Err(exit_code->Err_0)
    } else {
        Ok(
            ExpectedResponseView {
                output_contains: output_contains->Ok_0,
                min_output_len: match min_output_len->Ok_0 {
                    Some(n) => Some(n as usize),
                    None => None,
                },
                exit_code: match exit_code->Ok_0 {
                    Some(n) => Some(n as i32),
                    None => None,
                },
            },
        )
    }
}

fn read_expected_response(v: &Json) -> (r: Result<ExpectedResponse, String>)
    ensures
        outcome(r) == expected_response_of(v@),
{
    let output_contains = match read_plain_text_if_any(v, "output_contains") {
        Ok(s) => s,
        Err(e) => {
            return Err(e);
        },
    };
    let min_output_len = match read_optional_int(v, "min_output_len", 0, usize::MAX as i128) {
        Ok(Some(n)) => Some(n as usize),
        Ok(None) => None,
        Err(e) => {
            return Err(e);
        },
    };
    match read_optional_int(v, "exit_code", i32::MIN as i128, i32::MAX as i128) {
        Ok(Some(n)) => Ok(
            ExpectedResponse { output_contains, min_output_len, exit_code: Some(n as i32) },
        ),
        Ok(None) => Ok(ExpectedResponse { output_contains, min_output_len, exit_code: None }),
        Err(e) => Err(e),
    }
}

/// The mock of a scenario.
pub open spec fn mock_of(v: JsonView) -> Result<MockHintView, Seq<char>> {
    let tool = plain_text_if_any(v, "tool"@);
    let mock_scenario = plain_text_if_any(v, "mock_scenario"@);
    if tool is Err {
        Err(tool->Err_0)
    } else if mock_scenario is Err {
        Err(mock_scenario->Err_0)
    } else {
        Ok(MockHintView { tool: tool->Ok_0, mock_scenario: mock_scenario->Ok_0 })
    }
}

fn read_mock(v: &Json) -> (r: Result<MockHint, String>)
    ensures
        outcome(r) == mock_of(v@),
{
    let tool = match read_plain_text_if_any(v, "tool") {
        Ok(s) => s,
        Err(e) => {
            return Err(e);
        },
    };
    match read_plain_text_if_any(v, "mock_scenario") {
        Ok(mock_scenario) => Ok(MockHint { tool, mock_scenario }),
        Err(e) => Err(e),
    }
}

/// The message for a method that there is not.
pub open spec fn unknown_method(method: Seq<char>) -> Seq<char> {
    "unknown variant `"@ + method + "`, expected `run` or `resume`"@
}

/// The method of a scenario: `run` where it does not say.
pub open spec fn method_of(v: JsonView) -> Result<ScenarioMethod, Seq<char>> {
    match v.get("method"@) {
        None => Ok(ScenarioMethod::Run),
        Some(x) => match scalar_text(x) {
            None => Err(invalid_field("method"@)),
            Some(m) => if m == "run"@ {
                Ok(ScenarioMethod::Run)
            } else if m == "resume"@ {
                Ok(ScenarioMethod::Resume)
            } else {
                Err(unknown_method(m))
            },
        },
    }
}

fn read_method(v: &Json) -> (r: Result<ScenarioMethod, String>)
    ensures
        outcome(r) == method_of(v@),
{
    match v.get("method") {
        None => Ok(ScenarioMethod::Run),
        Some(x) => match read_scalar(x) {
            None => Err(invalid("method")),
            Some(m) => {
                if same(m.as_str(), "run") {
                    Ok(ScenarioMethod::Run)
                } else if same(m.as_str(), "resume") {
                    Ok(ScenarioMethod::Resume)
                } else {
                    let mut e = "unknown variant `".to_owned();
                    e.append(m.as_str());
                    e.append("`, expected `run` or `resume`");
                    Err(e)
                }
            },
        },
    }
}

// ---------------------------------------------------------------------------
// The file
// ---------------------------------------------------------------------------

/// How long a scenario may take.
pub open spec fn timeout_of(v: JsonView) -> Result<int, Seq<char>> {
    match v.get("timeout_ms"@) {
        None => Ok(DEFAULT_TIMEOUT_MS as int),
        Some(_) => crate::fields::required_int(v, "timeout_ms"@, 0, u64::MAX as int),
    }
}

fn read_timeout(v: &Json) -> (r: Result<u64, String>)
    ensures
        match r {
            Ok(n) => timeout_of(v@) == Ok::<int, Seq<char>>(n as int),
            Err(e) => timeout_of(v@) == Err::<int, Seq<char>>(e@),
        },
{
    if v.get("timeout_ms").is_none() {
        return Ok(DEFAULT_TIMEOUT_MS);
    }
    match crate::fields::read_int(v, "timeout_ms", 0, u64::MAX as i128) {
        Ok(n) => Ok(n as u64),
        Err(e) => Err(e),
    }
}

/// The request section of a scenario, which must be there.
pub open spec fn request_section(v: JsonView) -> Result<RequestView, Seq<char>> {
    if v.get("request"@) is None {
        Err(missing_field("request"@))
    } else {
        match section(v, "request"@) {
            Err(e) => Err(e),
            Ok(s) => request_of(s),
        }
    }
}

fn read_request_section(v: &Json) -> (r: Result<ScenarioRequest, String>)
    ensures
        outcome(r) == request_section(v@),
{
    if v.get("request").is_none() {
        return Err(missing("request"));
    }
    match read_section(v, "request") {
        Ok(s) => read_request(&s),
        Err(e) => Err(e),
    }
}

/// The expectations of the response, from their section.
pub open spec fn response_section(v: JsonView) -> Result<ExpectedResponseView, Seq<char>> {
    match section(v, "expected_response"@) {
        Err(e) => Err(e),
        Ok(s) => expected_response_of(s),
    }
}

/// The mock, from its section.
pub open spec fn mock_section(v: JsonView) -> Result<MockHintView, Seq<char>> {
    match section(v, "mock"@) {
        Err(e) => Err(e),
        Ok(s) => mock_of(s),
    }
}

/// The scenario that a tree declares, or what is wrong with the first field that is wrong. Fields
/// that the format does not know are passed over.
pub open spec fn scenario_of(v: JsonView) -> Result<ScenarioView, Seq<char>> {
    let name = plain_text(v, "name"@);
    let description = plain_text_or_empty(v, "description"@);
    let timeout_ms = timeout_of(v);
    let request = request_section(v);
    let expected_notifications = expectations_of(v);
    let allow_extra = crate::fields::defaulted_bool(v, "allow_extra_notifications"@);
    let expected_response = response_section(v);
    let mock = mock_section(v);
    let requires_capabilities = plain_texts(v, "requires_capabilities"@);
    let skip_if_capabilities = plain_texts(v, "skip_if_capabilities"@);
    let method = method_of(v);
    let cancel_after_ms = optional_int(v, "cancel_after_ms"@, 0, u64::MAX as int);
    if name is Err {
        Err(name->Err_0)
    } else if description is Err {
        Err(description->Err_0)
    } else if timeout_ms is Err {
        Err(timeout_ms->Err_0)
    } else if request is Err {
        Err(request->Err_0)
    } else if expected_notifications is Err {
        Err(expected_notifications->Err_0)
    } else if allow_extra is Err {
        Err(allow_extra->Err_0)
    } else if expected_response is Err {
        Err(expected_response->Err_0)
    } else if mock is Err {
        Err(mock->Err_0)
    } else if requires_capabilities is Err {
        Err(requires_capabilities->Err_0)
    } else if skip_if_capabilities is Err {
        Err(skip_if_capabilities->Err_0)
    } else if method is Err {
        Err(method->Err_0)
    } else if cancel_after_ms is Err {
        Err(cancel_after_ms->Err_0)
    } else {
        Ok(
            ScenarioView {
                name: name->Ok_0,
                description: description->Ok_0,
                timeout_ms: timeout_ms->Ok_0,
                request: request->Ok_0,
                expected_notifications: expected_notifications->Ok_0,
                allow_extra_notifications: allow_extra->Ok_0,
                expected_response: expected_response->Ok_0,
                mock: mock->Ok_0,
                requires_capabilities: requires_capabilities->Ok_0,
                skip_if_capabilities: skip_if_capabilities->Ok_0,
                method: method->Ok_0,
                cancel_after_ms: match cancel_after_ms->Ok_0 {
                    Some(n) => Some(n as u64),
                    None => None,
                },
            },
        )
    }
}

/// Reads a scenario out of a tree.
pub fn decode_scenario(v: &Json) -> (r: Result<ScenarioFile, String>)
    ensures
        outcome(r) == scenario_of(v@),
{
    let name = match read_plain_text(v, "name") {
        Ok(s) => s,
        Err(e) => {
            return Err(e);
        },
    };
    let description = match read_plain_text_or_empty(v, "description") {
        Ok(s) => s,
        Err(e) => {
            return Err(e);
        },
    };
    let timeout_ms: u64 = match read_timeout(v) {
        Ok(n) => n,
        Err(e) => {
            return Err(e);
        },
    };
    let request = match read_request_section(v) {
        Ok(x) => x,
        Err(e) => {
            return Err(e);
        },
    };
    let expected_notifications = match read_expectations(v) {
        Ok(x) => x,
        Err(e) => {
            return Err(e);
        },
    };
    let allow_extra_notifications = match crate::fields::read_defaulted_bool(
        v,
        "allow_extra_notifications",
    ) {
        Ok(x) => x,
        Err(e) => {
            return Err(e);
        },
    };
    let expected_response = match read_section(v, "expected_response") {
        Ok(s) => match read_expected_response(&s) {
            Ok(x) => x,
            Err(e) => {
                return Err(e);
            },
        },
        Err(e) => {
            return Err(e);
        },
    };
    let mock = match read_section(v, "mock") {
        Ok(s) => match read_mock(&s) {
            Ok(x) => x,
            Err(e) => {
                return Err(e);
            },
        },
        Err(e) => {
            return Err(e);
        },
    };
    let requires_capabilities = match read_plain_texts(v, "requires_capabilities") {
        Ok(x) => x,
        Err(e) => {
            return Err(e);
        },
    };
    let skip_if_capabilities = match read_plain_texts(v, "skip_if_capabilities") {
        Ok(x) => x,
        Err(e) => {
            return Err(e);
        },
    };
    let method = match read_method(v) {
        Ok(x) => x,
        Err(e) => {
            return Err(e);
        },
    };
    let cancel_after_ms = match read_optional_int(v, "cancel_after_ms", 0, u64::MAX as i128) {
        Ok(Some(n)) => Some(n as u64),
        Ok(None) => None,
        Err(e) => {
            return Err(e);
        },
    };
    Ok(
        ScenarioFile {
            name,
            description,
            timeout_ms,
            request,
            expected_notifications,
            allow_extra_notifications,
            expected_response,
            mock,
            requires_capabilities,
            skip_if_capabilities,
            method,
            cancel_after_ms,
        },
    )
}

/// The scenario that a YAML text declares.
pub open spec fn scenario_text(raw: Seq<char>) -> Result<ScenarioView, Seq<char>> {
    match yaml_document(raw) {
        Err(e) => Err(e),
        Ok(v) => scenario_of(v),
    }
}

/// Reads a scenario out of a YAML text.
pub fn parse_scenario(raw: &str) -> (r: Result<ScenarioFile, String>)
    ensures
        outcome(r) == scenario_text(raw@),
{
    match parse_yaml(raw) {
        Ok(v) => decode_scenario(&v),
        Err(e) => Err(e),
    }
}

// ---------------------------------------------------------------------------
// Laws
// ---------------------------------------------------------------------------

/// Whether an object has an integer under a key where there is one, and nothing otherwise.
pub open spec fn may_count(v: JsonView, key: Seq<char>, n: Option<int>) -> bool {
    match n {
        Some(i) => v.get(key) == Some(JsonView::Int(i)),
        None => v.get(key) is None,
    }
}

/// Whether an object declares a pattern: by its kind, and by its detail where it has one.
pub open spec fn declares_pattern(v: JsonView, p: ExpectedView) -> bool {
    &&& v is Object
    &&& match p {
        ExpectedView::Output { contains } => says(v, "kind"@, "output"@) && may_say(
            v,
            "contains"@,
            contains,
        ),
        ExpectedView::Thinking => says(v, "kind"@, "thinking"@),
        ExpectedView::ToolCall { name } => says(v, "kind"@, "tool_call"@) && may_say(
            v,
            "name"@,
            name,
        ),
        ExpectedView::ToolResult => says(v, "kind"@, "tool_result"@),
        ExpectedView::Error { recoverable } => says(v, "kind"@, "error"@) && match recoverable {
            Some(b) => v.get("recoverable"@) == Some(JsonView::Bool(b)),
            None => v.get("recoverable"@) is None,
        },
    }
}

/// The kinds of patterns are all different.
proof fn kinds_differ()
    ensures
        "output"@ != "thinking"@,
        "output"@ != "tool_call"@,
        "output"@ != "tool_result"@,
        "output"@ != "error"@,
        "thinking"@ != "tool_call"@,
        "thinking"@ != "tool_result"@,
        "thinking"@ != "error"@,
        "tool_call"@ != "tool_result"@,
        "tool_call"@ != "error"@,
        "tool_result"@ != "error"@,
{
    reveal_strlit("output");
    reveal_strlit("thinking");
    reveal_strlit("tool_call");
    reveal_strlit("tool_result");
    reveal_strlit("error");
    assert("output"@.len() == 6);
    assert("thinking"@.len() == 8);
    assert("tool_call"@.len() == 9);
    assert("tool_result"@.len() == 11);
    assert("error"@.len() == 5);
}

/// A pattern is loaded as it is declared, and a pattern of no known kind is refused.
pub proof fn patterns_load_as_declared(v: JsonView, p: ExpectedView)
    ensures
        declares_pattern(v, p) ==> expected_of(v) == Ok::<ExpectedView, Seq<char>>(p),
        v is Object && (forall|kind: Seq<char>| #[trigger] says(v, "kind"@, kind) ==> kind
            != "output"@ && kind != "thinking"@ && kind != "tool_call"@ && kind != "tool_result"@
            && kind != "error"@) ==> expected_of(v) is Err,
{
    kinds_differ();
    if v.get("kind"@) matches Some(JsonView::Text(kind)) {
        assert(says(v, "kind"@, v.get("kind"@)->0->Text_0));
    }
}

/// A pattern may be a list instead: its kind, and behind that its detail. It is then the pattern
/// that an object with this kind and this detail declares.
pub proof fn listed_patterns_load_as_declared(items: Seq<JsonView>, p: ExpectedView)
    requires
        items.len() > 0,
    ensures
        p == (ExpectedView::Output { contains: None }) && items == seq![
            JsonView::Text("output"@),
        ] ==> expected_of(JsonView::List(items)) == Ok::<ExpectedView, Seq<char>>(p),
        (p matches ExpectedView::Output { contains: Some(t) } && items == seq![
            JsonView::Text("output"@),
            JsonView::Text(t),
        ]) ==> expected_of(JsonView::List(items)) == Ok::<ExpectedView, Seq<char>>(p),
        p == ExpectedView::Thinking && items == seq![JsonView::Text("thinking"@)] ==> expected_of(
            JsonView::List(items),
        ) == Ok::<ExpectedView, Seq<char>>(p),
        (p matches ExpectedView::ToolCall { name: Some(t) } && items == seq![
            JsonView::Text("tool_call"@),
            JsonView::Text(t),
        ]) ==> expected_of(JsonView::List(items)) == Ok::<ExpectedView, Seq<char>>(p),
        p == ExpectedView::ToolResult && items == seq![JsonView::Text("tool_result"@)]
            ==> expected_of(JsonView::List(items)) == Ok::<ExpectedView, Seq<char>>(p),
        (p matches ExpectedView::Error { recoverable: Some(b) } && items == seq![
            JsonView::Text("error"@),
            JsonView::Bool(b),
        ]) ==> expected_of(JsonView::List(items)) == Ok::<ExpectedView, Seq<char>>(p),
        items.len() > 2 ==> expected_of(JsonView::List(items)) is Err,
{
    kinds_differ();
    pattern_keys_differ();
}

/// The keys of a pattern are all different.
proof fn pattern_keys_differ()
    ensures
        "kind"@ != "contains"@,
        "kind"@ != "name"@,
        "kind"@ != "recoverable"@,
        "contains"@ != "name"@,
        "contains"@ != "recoverable"@,
        "name"@ != "recoverable"@,
{
    reveal_strlit("kind");
    reveal_strlit("contains");
    reveal_strlit("name");
    reveal_strlit("recoverable");
    assert("kind"@.len() == 4);
    assert("contains"@.len() == 8);
    assert("name"@.len() == 4);
    assert("recoverable"@.len() == 11);
    assert("kind"@[0] != "name"@[0]);
}

/// Whether a tree declares an environment: each variable with its value, and nothing more.
pub open spec fn declares_env(v: JsonView, env: Map<Seq<char>, Seq<char>>) -> bool {
    v matches JsonView::Object(m) && m.dom() == env.dom() && forall|k: Seq<char>|
        env.dom().contains(k) ==> #[trigger] m[k] == JsonView::Text(env[k])
}

/// Whether a tree declares a scenario: each field of the scenario stands in it under its key, and
/// what the scenario leaves open is left out.
pub open spec fn declares(v: JsonView, s: ScenarioView) -> bool {
    &&& says(v, "name"@, s.name)
    &&& says(v, "description"@, s.description)
    &&& v.get("timeout_ms"@) == Some(JsonView::Int(s.timeout_ms))
    &&& 0 <= s.timeout_ms <= u64::MAX
    &&& v.get("request"@) matches Some(r) && {
        &&& r is Object
        &&& says(r, "prompt"@, s.request.prompt)
        &&& may_say(r, "model"@, s.request.model)
        &&& may_say(r, "system_prompt"@, s.request.system_prompt)
        &&& may_say(r, "cwd"@, s.request.cwd)
        &&& may_say(r, "session_id"@, s.request.session_id)
        &&& r.get("env"@) matches Some(e) && declares_env(e, s.request.env)
    }
    &&& v.get("expected_notifications"@) matches Some(JsonView::List(items)) && items.len()
        == s.expected_notifications.len() && forall|i: int|
        0 <= i < items.len() ==> declares_pattern(#[trigger] items[i], s.expected_notifications[i])
    &&& v.get("allow_extra_notifications"@) == Some(JsonView::Bool(s.allow_extra_notifications))
    &&& v.get("expected_response"@) matches Some(e) && {
        &&& e is Object
        &&& may_say(e, "output_contains"@, s.expected_response.output_contains)
        &&& may_count(
            e,
            "min_output_len"@,
            match s.expected_response.min_output_len {
                Some(n) => Some(n as int),
                None => None,
            },
        )
        &&& may_count(
            e,
            "exit_code"@,
            match s.expected_response.exit_code {
                Some(n) => Some(n as int),
                None => None,
            },
        )
    }
    &&& v.get("mock"@) matches Some(m) && {
        &&& m is Object
        &&& may_say(m, "tool"@, s.mock.tool)
        &&& may_say(m, "mock_scenario"@, s.mock.mock_scenario)
    }
    &&& lists(v, "requires_capabilities"@, s.requires_capabilities)
    &&& lists(v, "skip_if_capabilities"@, s.skip_if_capabilities)
    &&& says(
        v,
        "method"@,
        match s.method {
            ScenarioMethod::Run => "run"@,
            ScenarioMethod::Resume => "resume"@,
        },
    )
    &&& may_count(
        v,
        "cancel_after_ms"@,
        match s.cancel_after_ms {
            Some(n) => Some(n as int),
            None => None,
        },
    )
}

proof fn lists_of_patterns_load(items: Seq<JsonView>, patterns: Seq<ExpectedView>)
    requires
        items.len() == patterns.len(),
        forall|i: int| 0 <= i < items.len() ==> declares_pattern(#[trigger] items[i], patterns[i]),
    ensures
        all_expected(items) == Ok::<Seq<ExpectedView>, Seq<char>>(patterns),
    decreases items.len(),
{
    if items.len() > 0 {
        let k = items.len() - 1;
        assert forall|i: int| 0 <= i < k implies declares_pattern(
            #[trigger] items.drop_last()[i],
            patterns.drop_last()[i],
        ) by {
            assert(items.drop_last()[i] == items[i]);
        }
        lists_of_patterns_load(items.drop_last(), patterns.drop_last());
        assert(declares_pattern(items[k], patterns[k]));
        patterns_load_as_declared(items[k], patterns[k]);
        assert(patterns =~= patterns.drop_last().push(patterns[k]));
    } else {
        assert(patterns =~= Seq::empty());
    }
}

proof fn lists_of_texts_load(v: JsonView, key: Seq<char>, items: Seq<Seq<char>>)
    requires
        lists(v, key, items),
    ensures
        plain_texts(v, key) == Ok::<Seq<Seq<char>>, Seq<char>>(items),
{
    let values = v.get(key)->0->List_0;
    assert forall|i: int| 0 <= i < values.len() implies scalar_text(#[trigger] values[i]) == Some(
        items[i],
    ) by {
        assert(values[i] == JsonView::Text(items[i]));
    }
    assert(scalar_texts(values) =~= items);
}

/// Loading keeps what is written: a tree that declares a scenario is read as that scenario, with
/// every field as it stands there.
pub proof fn scenarios_load_as_declared(v: JsonView, s: ScenarioView)
    requires
        declares(v, s),
    ensures
        scenario_of(v) == Ok::<ScenarioView, Seq<char>>(s),
{
    methods_are_different();
    let items = v.get("expected_notifications"@)->0->List_0;
    lists_of_patterns_load(items, s.expected_notifications);
    lists_of_texts_load(v, "requires_capabilities"@, s.requires_capabilities);
    lists_of_texts_load(v, "skip_if_capabilities"@, s.skip_if_capabilities);
    let r = v.get("request"@)->0;
    let m = r.get("env"@)->0->Object_0;
    assert forall|k: Seq<char>| m.dom().contains(k) implies scalar_text(#[trigger] m[k]) == Some(
        s.request.env[k],
    ) by {
        assert(m[k] == JsonView::Text(s.request.env[k]));
    }
    assert(scalar_fields(m) =~= s.request.env);
    assert(request_of(r) == Ok::<RequestView, Seq<char>>(s.request));
}

/// The methods of scenarios are different.
proof fn methods_are_different()
    ensures
        "run"@ != "resume"@,
{
    reveal_strlit("run");
    reveal_strlit("resume");
    assert("run"@.len() == 3);
    assert("resume"@.len() == 6);
}

/// What a scenario leaves out has its default: no description, ten seconds, nothing expected, no
/// capability required or excluded, no mock, a run and not a resumption, and no cancellation.
pub proof fn absent_fields_have_defaults(v: JsonView, name: Seq<char>, prompt: Seq<char>)
    requires
        says(v, "name"@, name),
        v.get("request"@) matches Some(r) && r is Object && says(r, "prompt"@, prompt) && forall|
            k: Seq<char>,
        |
            k != "prompt"@ ==> (#[trigger] r.get(k)) is None,
        forall|k: Seq<char>|
            k != "name"@ && k != "request"@ ==> (#[trigger] v.get(k)) is None,
    ensures
        scenario_of(v) == Ok::<ScenarioView, Seq<char>>(
            ScenarioView {
                name,
                description: Seq::empty(),
                timeout_ms: 10_000,
                request: RequestView {
                    prompt,
                    model: None,
                    system_prompt: None,
                    cwd: None,
                    session_id: None,
                    env: Map::empty(),
                },
                expected_notifications: Seq::empty(),
                allow_extra_notifications: false,
                expected_response: ExpectedResponseView {
                    output_contains: None,
                    min_output_len: None,
                    exit_code: None,
                },
                mock: MockHintView { tool: None, mock_scenario: None },
                requires_capabilities: Seq::empty(),
                skip_if_capabilities: Seq::empty(),
                method: ScenarioMethod::Run,
                cancel_after_ms: None,
            },
        ),
{
    scenario_keys_differ();
    let none = Map::<Seq<char>, JsonView>::empty();
    assert(scalar_fields(none) =~= Map::<Seq<char>, Seq<char>>::empty());
    let r = v.get("request"@)->0;
    assert(r.get("env"@) is None);
    assert(env_of(r) == Ok::<Map<Seq<char>, Seq<char>>, Seq<char>>(Map::empty()));
    let o = JsonView::object();
    assert(o.get("tool"@) is None && o.get("mock_scenario"@) is None);
    assert(o.get("output_contains"@) is None && o.get("exit_code"@) is None);
}

/// The keys of a scenario are all different.
proof fn scenario_keys_differ()
    ensures
        "name"@ != "description"@,
        "name"@ != "timeout_ms"@,
        "name"@ != "request"@,
        "name"@ != "expected_notifications"@,
        "name"@ != "allow_extra_notifications"@,
        "name"@ != "expected_response"@,
        "name"@ != "mock"@,
        "name"@ != "requires_capabilities"@,
        "name"@ != "skip_if_capabilities"@,
        "name"@ != "method"@,
        "name"@ != "cancel_after_ms"@,
        "name"@ != "prompt"@,
        "name"@ != "model"@,
        "name"@ != "system_prompt"@,
        "name"@ != "cwd"@,
        "name"@ != "session_id"@,
        "name"@ != "env"@,
        "description"@ != "timeout_ms"@,
        "description"@ != "request"@,
        "description"@ != "expected_notifications"@,
        "description"@ != "allow_extra_notifications"@,
        "description"@ != "expected_response"@,
        "description"@ != "mock"@,
        "description"@ != "requires_capabilities"@,
        "description"@ != "skip_if_capabilities"@,
        "description"@ != "method"@,
        "description"@ != "cancel_after_ms"@,
        "description"@ != "prompt"@,
        "description"@ != "model"@,
        "description"@ != "system_prompt"@,
        "description"@ != "cwd"@,
        "description"@ != "session_id"@,
        "description"@ != "env"@,
        "timeout_ms"@ != "request"@,
        "timeout_ms"@ != "expected_notifications"@,
        "timeout_ms"@ != "allow_extra_notifications"@,
        "timeout_ms"@ != "expected_response"@,
        "timeout_ms"@ != "mock"@,
        "timeout_ms"@ != "requires_capabilities"@,
        "timeout_ms"@ != "skip_if_capabilities"@,
        "timeout_ms"@ != "method"@,
        "timeout_ms"@ != "cancel_after_ms"@,
        "timeout_ms"@ != "prompt"@,
        "timeout_ms"@ != "model"@,
        "timeout_ms"@ != "system_prompt"@,
        "timeout_ms"@ != "cwd"@,
        "timeout_ms"@ != "session_id"@,
        "timeout_ms"@ != "env"@,
        "request"@ != "expected_notifications"@,
        "request"@ != "allow_extra_notifications"@,
        "request"@ != "expected_response"@,
        "request"@ != "mock"@,
        "request"@ != "requires_capabilities"@,
        "request"@ != "skip_if_capabilities"@,
        "request"@ != "method"@,
        "request"@ != "cancel_after_ms"@,
        "request"@ != "prompt"@,
        "request"@ != "model"@,
        "request"@ != "system_prompt"@,
        "request"@ != "cwd"@,
        "request"@ != "session_id"@,
        "request"@ != "env"@,
        "expected_notifications"@ != "allow_extra_notifications"@,
        "expected_notifications"@ != "expected_response"@,
        "expected_notifications"@ != "mock"@,
        "expected_notifications"@ != "requires_capabilities"@,
        "expected_notifications"@ != "skip_if_capabilities"@,
        "expected_notifications"@ != "method"@,
        "expected_notifications"@ != "cancel_after_ms"@,
        "expected_notifications"@ != "prompt"@,
        "expected_notifications"@ != "model"@,
        "expected_notifications"@ != "system_prompt"@,
        "expected_notifications"@ != "cwd"@,
        "expected_notifications"@ != "session_id"@,
        "expected_notifications"@ != "env"@,
        "allow_extra_notifications"@ != "expected_response"@,
        "allow_extra_notifications"@ != "mock"@,
        "allow_extra_notifications"@ != "requires_capabilities"@,
        "allow_extra_notifications"@ != "skip_if_capabilities"@,
        "allow_extra_notifications"@ != "method"@,
        "allow_extra_notifications"@ != "cancel_after_ms"@,
        "allow_extra_notifications"@ != "prompt"@,
        "allow_extra_notifications"@ != "model"@,
        "allow_extra_notifications"@ != "system_prompt"@,
        "allow_extra_notifications"@ != "cwd"@,
        "allow_extra_notifications"@ != "session_id"@,
        "allow_extra_notifications"@ != "env"@,
        "expected_response"@ != "mock"@,
        "expected_response"@ != "requires_capabilities"@,
        "expected_response"@ != "skip_if_capabilities"@,
        "expected_response"@ != "method"@,
        "expected_response"@ != "cancel_after_ms"@,
        "expected_response"@ != "prompt"@,
        "expected_response"@ != "model"@,
        "expected_response"@ != "system_prompt"@,
        "expected_response"@ != "cwd"@,
        "expected_response"@ != "session_id"@,
        "expected_response"@ != "env"@,
        "mock"@ != "requires_capabilities"@,
        "mock"@ != "skip_if_capabilities"@,
        "mock"@ != "method"@,
        "mock"@ != "cancel_after_ms"@,
        "mock"@ != "prompt"@,
        "mock"@ != "model"@,
        "mock"@ != "system_prompt"@,
        "mock"@ != "cwd"@,
        "mock"@ != "session_id"@,
        "mock"@ != "env"@,
        "requires_capabilities"@ != "skip_if_capabilities"@,
        "requires_capabilities"@ != "method"@,
        "requires_capabilities"@ != "cancel_after_ms"@,
        "requires_capabilities"@ != "prompt"@,
        "requires_capabilities"@ != "model"@,
        "requires_capabilities"@ != "system_prompt"@,
        "requires_capabilities"@ != "cwd"@,
        "requires_capabilities"@ != "session_id"@,
        "requires_capabilities"@ != "env"@,
        "skip_if_capabilities"@ != "method"@,
        "skip_if_capabilities"@ != "cancel_after_ms"@,
        "skip_if_capabilities"@ != "prompt"@,
        "skip_if_capabilities"@ != "model"@,
        "skip_if_capabilities"@ != "system_prompt"@,
        "skip_if_capabilities"@ != "cwd"@,
        "skip_if_capabilities"@ != "session_id"@,
        "skip_if_capabilities"@ != "env"@,
        "method"@ != "cancel_after_ms"@,
        "method"@ != "prompt"@,
        "method"@ != "model"@,
        "method"@ != "system_prompt"@,
        "method"@ != "cwd"@,
        "method"@ != "session_id"@,
        "method"@ != "env"@,
        "cancel_after_ms"@ != "prompt"@,
        "cancel_after_ms"@ != "model"@,
        "cancel_after_ms"@ != "system_prompt"@,
        "cancel_after_ms"@ != "cwd"@,
        "cancel_after_ms"@ != "session_id"@,
        "cancel_after_ms"@ != "env"@,
        "prompt"@ != "model"@,
        "prompt"@ != "system_prompt"@,
        "prompt"@ != "cwd"@,
        "prompt"@ != "session_id"@,
        "prompt"@ != "env"@,
        "model"@ != "system_prompt"@,
        "model"@ != "cwd"@,
        "model"@ != "session_id"@,
        "model"@ != "env"@,
        "system_prompt"@ != "cwd"@,
        "system_prompt"@ != "session_id"@,
        "system_prompt"@ != "env"@,
        "cwd"@ != "session_id"@,
        "cwd"@ != "env"@,
        "session_id"@ != "env"@,
{
    reveal_strlit("name");
    reveal_strlit("description");
    reveal_strlit("timeout_ms");
    reveal_strlit("request");
    reveal_strlit("expected_notifications");
    reveal_strlit("allow_extra_notifications");
    reveal_strlit("expected_response");
    reveal_strlit("mock");
    reveal_strlit("requires_capabilities");
    reveal_strlit("skip_if_capabilities");
    reveal_strlit("method");
    reveal_strlit("cancel_after_ms");
    reveal_strlit("prompt");
    reveal_strlit("model");
    reveal_strlit("system_prompt");
    reveal_strlit("cwd");
    reveal_strlit("session_id");
    reveal_strlit("env");
    assert("name"@.len() == 4);
    assert("description"@.len() == 11);
    assert("timeout_ms"@.len() == 10);
    assert("request"@.len() == 7);
    assert("expected_notifications"@.len() == 22);
    assert("allow_extra_notifications"@.len() == 25);
    assert("expected_response"@.len() == 17);
    assert("mock"@.len() == 4);
    assert("requires_capabilities"@.len() == 21);
    assert("skip_if_capabilities"@.len() == 20);
    assert("method"@.len() == 6);
    assert("cancel_after_ms"@.len() == 15);
    assert("prompt"@.len() == 6);
    assert("model"@.len() == 5);
    assert("system_prompt"@.len() == 13);
    assert("cwd"@.len() == 3);
    assert("session_id"@.len() == 10);
    assert("env"@.len() == 3);
    assert("name"@[0] != "mock"@[0]);
    assert("timeout_ms"@[0] != "session_id"@[0]);
    assert("method"@[0] != "prompt"@[0]);
    assert("cwd"@[0] != "env"@[0]);
}

/// A tree is refused where it names no scenario, has no request or no prompt, gives a time or a
/// number that is none, an unknown method, or capabilities that are no list.
pub proof fn malformed_scenarios_are_refused(v: JsonView)
    ensures
        v.get("name"@) is None ==> scenario_of(v) is Err,
        v.get("request"@) is None ==> scenario_of(v) is Err,
        (v.get("request"@) matches Some(r) && r.get("prompt"@) is None) ==> scenario_of(v) is Err,
        (v.get("timeout_ms"@) matches Some(t) && !(t matches JsonView::Int(i) && 0 <= i
            <= u64::MAX)) ==> scenario_of(v) is Err,
        (v.get("cancel_after_ms"@) matches Some(t) && !(t is Null) && !(
        t matches JsonView::Int(i) && 0 <= i <= u64::MAX)) ==> scenario_of(v) is Err,
        (v.get("method"@) matches Some(JsonView::Text(m)) && m != "run"@ && m != "resume"@)
            ==> scenario_of(v) is Err,
        (v.get("requires_capabilities"@) matches Some(c) && !(c is Null) && !(c is List))
            ==> scenario_of(v) is Err,
        (v.get("skip_if_capabilities"@) matches Some(c) && !(c is Null) && !(c is List))
            ==> scenario_of(v) is Err,
        (v.get("expected_notifications"@) matches Some(c) && !(c is Null) && !(c is List))
            ==> scenario_of(v) is Err,
        (v.get("allow_extra_notifications"@) matches Some(b) && !(b is Bool)) ==> scenario_of(
            v,
        ) is Err,
{
}

/// Where a text is asked for, every scalar stands for one: a truth value and a number for how they
/// are written, and nothing for the empty text. A list of texts takes each of its scalars, in order,
/// and a list or an object among them is refused, as it is where one text is asked for.
pub proof fn scalars_stand_for_texts(
    v: JsonView,
    key: Seq<char>,
    items: Seq<JsonView>,
    i: int,
    n: int,
    text: Seq<char>,
)
    ensures
        scalar_text(JsonView::Text(text)) == Some(text),
        scalar_text(JsonView::Bool(true)) == Some("true"@),
        scalar_text(JsonView::Bool(false)) == Some("false"@),
        scalar_text(JsonView::Int(n)) == Some(signed_decimal(n)),
        scalar_text(JsonView::Null) == Some(Seq::<char>::empty()),
        scalar_text(JsonView::List(items)) is None,
        scalar_text(JsonView::object()) is None,
        v.get(key) == Some(JsonView::List(items)) && 0 <= i < items.len() ==> {
            &&& items[i] is List || items[i] is Object ==> plain_texts(v, key) is Err
            &&& plain_texts(v, key) matches Ok(list) ==> list.len() == items.len() && (items[i]
                == JsonView::Text(text) ==> list[i] == text) && (items[i] == JsonView::Int(n)
                ==> list[i] == signed_decimal(n))
        },
        v.get(key) is None ==> plain_texts(v, key) == Ok::<Seq<Seq<char>>, Seq<char>>(Seq::empty()),
{
    if v.get(key) == Some(JsonView::List(items)) && 0 <= i < items.len() {
        if items[i] is List || items[i] is Object {
            assert(scalar_text(items[i]) is None);
        }
    }
}

} // verus!
