//! Reading typed fields out of JSON objects.

use crate::json::{items_view, Json, JsonView};
use crate::text::texts;
use vstd::prelude::*;

verus! {

/// The message for a field that must be there and is not.
pub open spec fn missing_field(key: Seq<char>) -> Seq<char> {
    "missing field `"@ + key + "`"@
}

/// The message for a field that holds another kind of value than it must.
pub open spec fn invalid_field(key: Seq<char>) -> Seq<char> {
    "invalid type for field `"@ + key + "`"@
}

/// Builds the message of `missing_field`.
pub fn missing(key: &str) -> (r: String)
    ensures
        r@ == missing_field(key@),
{
    let mut r = "missing field `".to_owned();
    r.append(key);
    r.append("`");
    r
}

/// Builds the message of `invalid_field`.
pub fn invalid(key: &str) -> (r: String)
    ensures
        r@ == invalid_field(key@),
{
    let mut r = "invalid type for field `".to_owned();
    r.append(key);
    r.append("`");
    r
}

/// What a reading of a text stands for.
pub open spec fn text_result(r: Result<String, String>) -> Result<Seq<char>, Seq<char>> {
    match r {
        Ok(s) => Ok(s@),
        Err(e) => Err(e@),
    }
}

/// A string that must be there.
pub open spec fn required_text(v: JsonView, key: Seq<char>) -> Result<Seq<char>, Seq<char>> {
    match v.get(key) {
        None => Err(missing_field(key)),
        Some(JsonView::Text(s)) => Ok(s),
        Some(_) => Err(invalid_field(key)),
    }
}

/// Reads a string that must be there.
pub fn read_text(v: &Json, key: &str) -> (r: Result<String, String>)
    ensures
        text_result(r) == required_text(v@, key@),
{
    match v.get(key) {
        None => Err(missing(key)),
        Some(Json::Text(s)) => Ok(s.clone()),
        Some(_) => Err(invalid(key)),
    }
}

/// What a reading of an optional text stands for.
pub open spec fn opt_text_result(r: Result<Option<String>, String>) -> Result<
    Option<Seq<char>>,
    Seq<char>,
> {
    match r {
        Ok(Some(s)) => Ok(Some(s@)),
        Ok(None) => Ok(None),
        Err(e) => Err(e@),
    }
}

/// A string that may be absent or null.
pub open spec fn optional_text(v: JsonView, key: Seq<char>) -> Result<Option<Seq<char>>, Seq<char>> {
    match v.get(key) {
        None | Some(JsonView::Null) => Ok(None),
        Some(JsonView::Text(s)) => Ok(Some(s)),
        Some(_) => Err(invalid_field(key)),
    }
}

/// Reads a string that may be absent or null.
pub fn read_optional_text(v: &Json, key: &str) -> (r: Result<Option<String>, String>)
    ensures
        opt_text_result(r) == optional_text(v@, key@),
{
    match v.get(key) {
        None => Ok(None),
        Some(Json::Null) => Ok(None),
        Some(Json::Text(s)) => Ok(Some(s.clone())),
        Some(_) => Err(invalid(key)),
    }
}

/// What a reading without text stands for.
pub open spec fn plain_result<T>(r: Result<T, String>) -> Result<T, Seq<char>> {
    match r {
        Ok(v) => Ok(v),
        Err(e) => Err(e@),
    }
}

/// A truth value that must be there.
pub open spec fn required_bool(v: JsonView, key: Seq<char>) -> Result<bool, Seq<char>> {
    match v.get(key) {
        None => Err(missing_field(key)),
        Some(JsonView::Bool(b)) => Ok(b),
        Some(_) => Err(invalid_field(key)),
    }
}

/// Reads a truth value that must be there.
pub fn read_bool(v: &Json, key: &str) -> (r: Result<bool, String>)
    ensures
        plain_result(r) == required_bool(v@, key@),
{
    match v.get(key) {
        None => Err(missing(key)),
        Some(Json::Bool(b)) => Ok(*b),
        Some(_) => Err(invalid(key)),
    }
}

/// A truth value that is false where it is absent.
pub open spec fn defaulted_bool(v: JsonView, key: Seq<char>) -> Result<bool, Seq<char>> {
    match v.get(key) {
        None => Ok(false),
        Some(JsonView::Bool(b)) => Ok(b),
        Some(_) => Err(invalid_field(key)),
    }
}

/// Reads a truth value that is false where it is absent.
pub fn read_defaulted_bool(v: &Json, key: &str) -> (r: Result<bool, String>)
    ensures
        plain_result(r) == defaulted_bool(v@, key@),
{
    match v.get(key) {
        None => Ok(false),
        Some(Json::Bool(b)) => Ok(*b),
        Some(_) => Err(invalid(key)),
    }
}

/// A truth value that may be absent or null.
pub open spec fn optional_bool(v: JsonView, key: Seq<char>) -> Result<Option<bool>, Seq<char>> {
    match v.get(key) {
        None | Some(JsonView::Null) => Ok(None),
        Some(JsonView::Bool(b)) => Ok(Some(b)),
        Some(_) => Err(invalid_field(key)),
    }
}

/// Reads a truth value that may be absent or null.
pub fn read_optional_bool(v: &Json, key: &str) -> (r: Result<Option<bool>, String>)
    ensures
        plain_result(r) == optional_bool(v@, key@),
{
    match v.get(key) {
        None => Ok(None),
        Some(Json::Null) => Ok(None),
        Some(Json::Bool(b)) => Ok(Some(*b)),
        Some(_) => Err(invalid(key)),
    }
}

/// An integer of the range from `low` to `high` that may be absent or null.
pub open spec fn optional_int(v: JsonView, key: Seq<char>, low: int, high: int) -> Result<
    Option<int>,
    Seq<char>,
> {
    match v.get(key) {
        None | Some(JsonView::Null) => Ok(None),
        Some(JsonView::Int(i)) => if low <= i <= high {
            Ok(Some(i))
        } else {
            Err(invalid_field(key))
        },
        Some(_) => Err(invalid_field(key)),
    }
}

/// An integer of the range from `low` to `high` that must be there.
pub open spec fn required_int(v: JsonView, key: Seq<char>, low: int, high: int) -> Result<
    int,
    Seq<char>,
> {
    match v.get(key) {
        None => Err(missing_field(key)),
        Some(JsonView::Int(i)) => if low <= i <= high {
            Ok(i)
        } else {
            Err(invalid_field(key))
        },
        Some(_) => Err(invalid_field(key)),
    }
}

/// An integer between `low` and `high`, where the value is one.
fn int_between(v: &Json, low: i128, high: i128) -> (r: Option<i128>)
    ensures
        r == (match v@ {
            JsonView::Int(i) => if low <= i <= high {
                Some(i as i128)
            } else {
                None
            },
            _ => None,
        }),
{
    let i: i128 = match v {
        Json::Unsigned(n) => *n as i128,
        Json::Negative(n) => *n as i128,
        _ => {
            return None;
        },
    };
    if low <= i && i <= high {
        Some(i)
    } else {
        None
    }
}

/// What a reading of an integer stands for.
pub open spec fn int_result(r: Result<i128, String>) -> Result<int, Seq<char>> {
    match r {
        Ok(i) => Ok(i as int),
        Err(e) => Err(e@),
    }
}

/// What a reading of an optional integer stands for.
pub open spec fn opt_int_result(r: Result<Option<i128>, String>) -> Result<Option<int>, Seq<char>> {
    match r {
        Ok(Some(i)) => Ok(Some(i as int)),
        Ok(None) => Ok(None),
        Err(e) => Err(e@),
    }
}

/// Reads an integer that must be there.
pub fn read_int(v: &Json, key: &str, low: i128, high: i128) -> (r: Result<i128, String>)
    ensures
        int_result(r) == required_int(v@, key@, low as int, high as int),
{
    match v.get(key) {
        None => Err(missing(key)),
        Some(value) => match int_between(value, low, high) {
            Some(i) => Ok(i),
            None => Err(invalid(key)),
        },
    }
}

/// Reads an integer that may be absent or null.
pub fn read_optional_int(v: &Json, key: &str, low: i128, high: i128) -> (r: Result<
    Option<i128>,
    String,
>)
    ensures
        opt_int_result(r) == optional_int(v@, key@, low as int, high as int),
{
    match v.get(key) {
        None => Ok(None),
        Some(Json::Null) => Ok(None),
        Some(value) => match int_between(value, low, high) {
            Some(i) => Ok(Some(i)),
            None => Err(invalid(key)),
        },
    }
}

/// Whether every value of a list is a string.
pub open spec fn all_texts(items: Seq<JsonView>) -> bool {
    forall|i: int| 0 <= i < items.len() ==> (#[trigger] items[i]) is Text
}

/// The texts of a list of strings.
pub open spec fn item_texts(items: Seq<JsonView>) -> Seq<Seq<char>> {
    items.map_values(|v: JsonView| v->Text_0)
}

/// A list of strings that is empty where it is absent.
pub open spec fn defaulted_texts(v: JsonView, key: Seq<char>) -> Result<
    Seq<Seq<char>>,
    Seq<char>,
> {
    match v.get(key) {
        None => Ok(Seq::empty()),
        Some(JsonView::List(items)) => if all_texts(items) {
            Ok(item_texts(items))
        } else {
            Err(invalid_field(key))
        },
        Some(_) => Err(invalid_field(key)),
    }
}

/// What a reading of a list of strings stands for.
pub open spec fn texts_result(r: Result<Vec<String>, String>) -> Result<Seq<Seq<char>>, Seq<char>> {
    match r {
        Ok(list) => Ok(texts(list@)),
        Err(e) => Err(e@),
    }
}

/// Reads a list of strings that is empty where it is absent.
pub fn read_texts(v: &Json, key: &str) -> (r: Result<Vec<String>, String>)
    ensures
        texts_result(r) == defaulted_texts(v@, key@),
{
    match v.get(key) {
        None => {
            let none: Vec<String> = Vec::new();
            assert(texts(none@) =~= Seq::<Seq<char>>::empty());
            Ok(none)
        },
        Some(Json::List(items)) => {
            let ghost all = items_view(items@);
            let mut list: Vec<String> = Vec::new();
            let mut i: usize = 0;
            while i < items.len()
                invariant
                    i <= items@.len(),
                    all == items_view(items@),
                    list@.len() == i,
                    v@.get(key@) == Some(JsonView::List(all)),
                    forall|k: int|
                        0 <= k < i ==> all[k] == JsonView::Text((#[trigger] list@[k])@),
                decreases items@.len() - i,
            {
                assert(all[i as int] == items@[i as int]@);
                match &items[i] {
                    Json::Text(s) => {
                        list.push(s.clone());
                    },
                    _ => {
                        assert(!(all[i as int] is Text));
                        return Err(invalid(key));
                    },
                }
                i += 1;
            }
            assert forall|k: int| 0 <= k < all.len() implies (#[trigger] all[k]) is Text by {
                assert(all[k] == JsonView::Text(list@[k]@));
            }
            assert(texts(list@) =~= item_texts(all));
            Ok(list)
        },
        Some(_) => Err(invalid(key)),
    }
}

} // verus!
