//! Reading and writing JSON text, and reading YAML text, through `serde_json` and `serde_yaml`.

use crate::json::{fields_view, fields_view_push, items_view, json_view, Json, JsonView};
use crate::text::white_space;
use vstd::prelude::*;

verus! {

/// `serde_json::Value`, carried between the outside readers and writers and the library's `Json`.
#[verifier::external_type_specification]
#[verifier::external_body]
pub struct ExValue(serde_json::Value);

/// `serde_json::Error`, what a text that is no JSON is answered.
#[verifier::external_type_specification]
#[verifier::external_body]
pub struct ExJsonError(serde_json::Error);

/// `serde_json::Number`, held for numbers that are no integers of 64 bits.
#[verifier::external_type_specification]
#[verifier::external_body]
pub struct ExNumber(serde_json::Number);

/// A JSON number that is no integer of 64 bits, exactly as it was read.
#[derive(Debug, PartialEq)]
pub struct Fraction {
    number: serde_json::Number,
}

/// `serde_json::Number::clone` gives the same number again.
#[verifier::external_body]
fn clone_number(n: &serde_json::Number) -> (r: serde_json::Number)
    ensures
        r == *n,
{
    n.clone()
}

impl Fraction {
    /// The same number again.
    pub fn copy(&self) -> (r: Fraction)
        ensures
            r == *self,
    {
        Fraction { number: clone_number(&self.number) }
    }
}

// ---------------------------------------------------------------------------
// One level of a `serde_json::Value`
// ---------------------------------------------------------------------------

/// The JSON value that a `serde_json::Value` holds.
pub uninterp spec fn value_view(v: serde_json::Value) -> JsonView;

/// The outermost level of a `serde_json::Value`.
pub enum Shape {
    Null,
    Bool(bool),
    Unsigned(u64),
    Negative(i64),
    Decimal(Fraction),
    Text(String),
    List(Vec<serde_json::Value>),
    Object(Vec<(String, serde_json::Value)>),
}

/// The values of an array.
pub open spec fn value_items(items: Seq<serde_json::Value>) -> Seq<JsonView> {
    Seq::new(items.len(), |i: int| value_view(items[i]))
}

/// The map that a list of members stands for; a later member replaces an earlier one.
pub open spec fn value_fields(fields: Seq<(String, serde_json::Value)>) -> Map<Seq<char>, JsonView>
    decreases fields.len(),
{
    if fields.len() == 0 {
        Map::empty()
    } else {
        value_fields(fields.drop_last()).insert(fields.last().0@, value_view(fields.last().1))
    }
}

/// Whether no two members have the same key.
pub open spec fn keys_distinct(fields: Seq<(String, serde_json::Value)>) -> bool {
    forall|i: int, j: int|
        0 <= i < j < fields.len() ==> (#[trigger] fields[i]).0@ != (#[trigger] fields[j]).0@
}

proof fn value_fields_finite(fields: Seq<(String, serde_json::Value)>)
    ensures
        value_fields(fields).dom().finite(),
    decreases fields.len(),
{
    if fields.len() > 0 {
        value_fields_finite(fields.drop_last());
    }
}

/// Where keys are distinct, each member is found under its key.
proof fn value_fields_at(fields: Seq<(String, serde_json::Value)>, k: int)
    requires
        keys_distinct(fields),
        0 <= k < fields.len(),
    ensures
        value_fields(fields).dom().contains(fields[k].0@),
        value_fields(fields)[fields[k].0@] == value_view(fields[k].1),
    decreases fields.len(),
{
    if k < fields.len() - 1 {
        let head = fields.drop_last();
        assert forall|i: int, j: int| 0 <= i < j < head.len() implies (#[trigger] head[i]).0@ != (
        #[trigger] head[j]).0@ by {
            assert(head[i] == fields[i] && head[j] == fields[j]);
        }
        value_fields_at(head, k);
        assert(fields[k].0@ != fields[fields.len() - 1].0@);
    }
}

/// The JSON value with the given outermost level.
pub open spec fn shape_view(s: Shape) -> JsonView {
    match s {
        Shape::Null => JsonView::Null,
        Shape::Bool(b) => JsonView::Bool(b),
        Shape::Unsigned(n) => JsonView::Int(n as int),
        Shape::Negative(n) => JsonView::Int(n as int),
        Shape::Decimal(n) => JsonView::Decimal(n),
        Shape::Text(t) => JsonView::Text(t@),
        Shape::List(items) => JsonView::List(value_items(items@)),
        Shape::Object(fields) => JsonView::Object(value_fields(fields@)),
    }
}

/// Takes a `serde_json::Value` apart by its variants. Numbers are told apart by
/// `Number::as_u64` and `Number::as_i64`; the members of an object come from `Map::into_iter`.
/// The shape stands for the JSON value that the `Value` held, and no key comes twice.
#[verifier::external_body]
fn open_value(v: serde_json::Value) -> (r: Shape)
    ensures
        shape_view(r) == value_view(v),
        r matches Shape::Object(fields) ==> keys_distinct(fields@),
{
    match v {
        serde_json::Value::Null => Shape::Null,
        serde_json::Value::Bool(b) => Shape::Bool(b),
        serde_json::Value::Number(n) => match (n.as_u64(), n.as_i64()) {
            (Some(u), _) => Shape::Unsigned(u),
            (None, Some(i)) => Shape::Negative(i),
            (None, None) => Shape::Decimal(Fraction { number: n }),
        },
        serde_json::Value::String(s) => Shape::Text(s),
        serde_json::Value::Array(items) => Shape::List(items),
        serde_json::Value::Object(map) => Shape::Object(map.into_iter().collect()),
    }
}

/// Builds a `serde_json::Value` by its variants; `Value::from` makes the integers and
/// `Map::from_iter` the object, in which a later member replaces an earlier one with its key.
/// The `Value` holds the JSON value that the shape stands for.
#[verifier::external_body]
fn make_value(s: Shape) -> (r: serde_json::Value)
    ensures
        value_view(r) == shape_view(s),
{
    match s {
        Shape::Null => serde_json::Value::Null,
        Shape::Bool(b) => serde_json::Value::Bool(b),
        Shape::Unsigned(n) => serde_json::Value::from(n),
        Shape::Negative(n) => serde_json::Value::from(n),
        Shape::Decimal(f) => serde_json::Value::Number(f.number),
        Shape::Text(t) => serde_json::Value::String(t),
        Shape::List(items) => serde_json::Value::Array(items),
        Shape::Object(fields) => serde_json::Value::Object(fields.into_iter().collect()),
    }
}

// ---------------------------------------------------------------------------
// The outside readers and writers
// ---------------------------------------------------------------------------

/// The JSON value that a text denotes, where it denotes one.
pub uninterp spec fn json_document(text: Seq<char>) -> Option<JsonView>;

/// The compact JSON text of a value.
pub uninterp spec fn json_text(v: JsonView) -> Seq<char>;

/// The debugging text of a value.
pub uninterp spec fn json_debug_text(v: JsonView) -> Seq<char>;

/// The value that a YAML text denotes as a tree of JSON values, or why it denotes none.
pub uninterp spec fn yaml_document(text: Seq<char>) -> Result<JsonView, Seq<char>>;

/// The key by which `serde_json` marks, for its own reader, an object that stands for the value
/// that its one member spells out.
pub const RAW_VALUE_KEY: &'static str = "$serde_json::private::RawValue";

/// Whether a value holds integers only where it holds numbers, has no object with the reader's own
/// mark, and nests at most `levels` arrays and objects.
pub open spec fn portable(v: JsonView, levels: nat) -> bool
    decreases levels,
{
    match v {
        JsonView::Decimal(_) => false,
        JsonView::List(items) => levels > 0 && forall|i: int|
            0 <= i < items.len() ==> portable(#[trigger] items[i], (levels - 1) as nat),
        JsonView::Object(map) => levels > 0 && !map.dom().contains(RAW_VALUE_KEY@) && forall|
            k: Seq<char>,
        |
            map.dom().contains(k) ==> portable(#[trigger] map[k], (levels - 1) as nat),
        JsonView::Int(i) => i64::MIN <= i <= u64::MAX,
        _ => true,
    }
}

/// How many arrays and objects `serde_json` follows into each other when it reads.
pub const MAX_LEVELS: usize = 127;

/// `serde_json::from_str` into a `serde_json::Value`: which texts are JSON, and what they hold, is
/// named by `json_document`.
#[verifier::external_body]
fn read_json(text: &str) -> (r: Result<serde_json::Value, serde_json::Error>)
    ensures
        match r {
            Ok(v) => json_document(text@) == Some(value_view(v)),
            Err(_) => json_document(text@) is None,
        },
{
    serde_json::from_str(text)
}

/// `serde_json::Value::to_string`, which writes the compact form, as `serde_json::to_string` does.
/// The text is named by `json_text`. It is never empty, holds no control character, neither
/// begins nor ends with white space, and reads back as the value it was written from where that
/// has integers only, no object with the key that the reader takes as its own mark, and no more
/// levels than the reader follows.
#[verifier::external_body]
fn write_json(v: &serde_json::Value) -> (r: String)
    ensures
        r@ == json_text(value_view(*v)),
        r@.len() > 0,
        forall|i: int| 0 <= i < r@.len() ==> (#[trigger] r@[i]) as u32 >= 0x20,
        !white_space(r@.first()),
        !white_space(r@.last()),
        portable(value_view(*v), MAX_LEVELS as nat) ==> json_document(r@) == Some(value_view(*v)),
{
    v.to_string()
}

/// The `Debug` form of a `serde_json::Value`, named by `json_debug_text`.
#[verifier::external_body]
fn debug_json(v: &serde_json::Value) -> (r: String)
    ensures
        r@ == json_debug_text(value_view(*v)),
{
    format!("{:?}", v)
}

/// `serde_yaml::from_str` into a `serde_json::Value`: which texts are YAML with string keys, what
/// they hold, and the message of the error otherwise, is named by `yaml_document`.
#[verifier::external_body]
fn read_yaml(text: &str) -> (r: Result<serde_json::Value, String>)
    ensures
        match r {
            Ok(v) => yaml_document(text@) == Ok::<JsonView, Seq<char>>(value_view(v)),
            Err(e) => yaml_document(text@) == Err::<JsonView, Seq<char>>(e@),
        },
{
    serde_yaml::from_str(text).map_err(|e| e.to_string())
}

// ---------------------------------------------------------------------------
// Conversion, level by level
// ---------------------------------------------------------------------------

fn from_value(v: serde_json::Value) -> (r: Json)
    ensures
        r@ == value_view(v),
    decreases value_view(v),
{
    let ghost whole = value_view(v);
    match open_value(v) {
        Shape::Null => Json::Null,
        Shape::Bool(b) => Json::Bool(b),
        Shape::Unsigned(n) => Json::Unsigned(n),
        Shape::Negative(n) => Json::Negative(n),
        Shape::Decimal(f) => Json::Decimal(f),
        Shape::Text(t) => Json::Text(t),
        Shape::List(items) => {
            let ghost all = items@;
            let mut rest = items;
            let mut list: Vec<Json> = Vec::new();
            while rest.len() > 0
                invariant
                    whole == JsonView::List(value_items(all)),
                    whole == value_view(v),
                    rest@.len() + list@.len() == all.len(),
                    rest@ == all.subrange(list@.len() as int, all.len() as int),
                    forall|k: int|
                        0 <= k < list@.len() ==> json_view(#[trigger] list@[k]) == value_view(all[k]),
                decreases rest@.len(),
            {
                let ghost k = list@.len() as int;
                let item = rest.remove(0);
                assert(item == all[k]);
                assert(value_items(all)[k] == value_view(item));
                assert(decreases_to!(whole => whole->List_0));
                assert(decreases_to!(whole->List_0 => whole->List_0[k]));
                list.push(from_value(item));
                assert(rest@ =~= all.subrange(k + 1, all.len() as int));
            }
            assert(items_view(list@) =~= value_items(all));
            Json::List(list)
        },
        Shape::Object(fields) => {
            let ghost all = fields@;
            let mut rest = fields;
            let mut list: Vec<(String, Json)> = Vec::new();
            assert(all.take(0) =~= Seq::<(String, serde_json::Value)>::empty());
            while rest.len() > 0
                invariant
                    whole == JsonView::Object(value_fields(all)),
                    keys_distinct(all),
                    whole == value_view(v),
                    rest@.len() + list@.len() == all.len(),
                    rest@ == all.subrange(list@.len() as int, all.len() as int),
                    fields_view(list@) == value_fields(all.take(list@.len() as int)),
                decreases rest@.len(),
            {
                let ghost k = list@.len() as int;
                let field = rest.remove(0);
                assert(field == all[k]);
                proof {
                    value_fields_at(all, k);
                    value_fields_finite(all);
                }
                assert(decreases_to!(whole => whole->Object_0));
                assert(decreases_to!(whole->Object_0 => whole->Object_0[field.0@]));
                let name = field.0;
                let value = from_value(field.1);
                proof {
                    assert(all.take(k + 1).drop_last() =~= all.take(k));
                    fields_view_push(list@, (name, value));
                }
                list.push((name, value));
                assert(rest@ =~= all.subrange(k + 1, all.len() as int));
            }
            assert(all.take(all.len() as int) =~= all);
            Json::Object(list)
        },
    }
}

fn to_value(j: &Json) -> (r: serde_json::Value)
    ensures
        value_view(r) == j@,
    decreases j,
{
    match j {
        Json::Null => make_value(Shape::Null),
        Json::Bool(b) => make_value(Shape::Bool(*b)),
        Json::Unsigned(n) => make_value(Shape::Unsigned(*n)),
        Json::Negative(n) => make_value(Shape::Negative(*n)),
        Json::Decimal(f) => make_value(Shape::Decimal(f.copy())),
        Json::Text(t) => make_value(Shape::Text(t.clone())),
        Json::List(items) => {
            let mut list: Vec<serde_json::Value> = Vec::new();
            let mut i: usize = 0;
            while i < items.len()
                invariant
                    i <= items@.len(),
                    list@.len() == i,
                    *j == Json::List(*items),
                    forall|k: int|
                        0 <= k < i ==> value_view(#[trigger] list@[k]) == json_view(items@[k]),
                decreases items@.len() - i,
            {
                assert(decreases_to!(*j => j->List_0));
                assert(decreases_to!(j->List_0 => j->List_0[i as int]));
                list.push(to_value(&items[i]));
                i += 1;
            }
            assert(value_items(list@) =~= items_view(items@));
            make_value(Shape::List(list))
        },
        Json::Object(fields) => {
            let mut list: Vec<(String, serde_json::Value)> = Vec::new();
            let mut i: usize = 0;
            assert(fields@.take(0) =~= Seq::<(String, Json)>::empty());
            while i < fields.len()
                invariant
                    i <= fields@.len(),
                    *j == Json::Object(*fields),
                    value_fields(list@) == fields_view(fields@.take(i as int)),
                decreases fields@.len() - i,
            {
                assert(decreases_to!(*j => j->Object_0));
                assert(decreases_to!(j->Object_0 => j->Object_0[i as int]));
                assert(decreases_to!(j->Object_0[i as int] => j->Object_0[i as int].1));
                let name = fields[i].0.clone();
                let value = to_value(&fields[i].1);
                proof {
                    assert(fields@.take(i + 1).drop_last() =~= fields@.take(i as int));
                    assert(list@.push((name, value)).drop_last() =~= list@);
                }
                list.push((name, value));
                i += 1;
            }
            assert(fields@.take(fields@.len() as int) =~= fields@);
            make_value(Shape::Object(list))
        },
    }
}

// ---------------------------------------------------------------------------
// Text to `Json` and back
// ---------------------------------------------------------------------------

/// Reads a JSON text.
pub fn parse(text: &str) -> (r: Option<Json>)
    ensures
        match r {
            Some(j) => json_document(text@) == Some(j@),
            None => json_document(text@) is None,
        },
{
    match read_json(text) {
        Ok(v) => Some(from_value(v)),
        Err(_) => None,
    }
}

/// Writes a value as compact JSON text.
pub fn render(j: &Json) -> (r: String)
    ensures
        r@ == json_text(j@),
        r@.len() > 0,
        forall|i: int| 0 <= i < r@.len() ==> (#[trigger] r@[i]) as u32 >= 0x20,
        !white_space(r@.first()),
        !white_space(r@.last()),
        portable(j@, MAX_LEVELS as nat) ==> json_document(r@) == Some(j@),
{
    write_json(&to_value(j))
}

/// The debugging text of a value.
pub fn debug_text(j: &Json) -> (r: String)
    ensures
        r@ == json_debug_text(j@),
{
    debug_json(&to_value(j))
}

/// Reads a YAML text as a tree of JSON values.
pub fn parse_yaml(text: &str) -> (r: Result<Json, String>)
    ensures
        match r {
            Ok(j) => yaml_document(text@) == Ok::<JsonView, Seq<char>>(j@),
            Err(e) => yaml_document(text@) == Err::<JsonView, Seq<char>>(e@),
        },
{
    match read_yaml(text) {
        Ok(v) => Ok(from_value(v)),
        Err(e) => Err(e),
    }
}

} // verus!
