//! Reading records and their typed fields out of JSON values, as serde reads
//! a derived struct: from an object, where a required field must be present
//! with the right type, an optional field may be missing or `null`, and other
//! members are ignored; or from an array holding exactly one value per field,
//! in declaration order. Internally tagged enums carry their variant in a
//! `type` member, or as the first value of an array.

use vstd::prelude::*;
use crate::json::{Json, JsonNumber, SpecJson, SpecJsonNumber, json_seq_view, json_view, opt_view};
use crate::models::opt_str_view;

verus! {

/// An integer that fits an `i64`.
pub open spec fn int_value(v: SpecJson) -> Option<i64> {
    match v {
        SpecJson::Number(SpecJsonNumber::PosInt(u)) => if u <= i64::MAX {
            Some(u as i64)
        } else {
            None
        },
        SpecJson::Number(SpecJsonNumber::NegInt(i)) => Some(i),
        _ => None,
    }
}

/// An integer that fits a `usize`.
pub open spec fn usize_value(v: SpecJson) -> Option<usize> {
    match v {
        SpecJson::Number(SpecJsonNumber::PosInt(u)) => if u <= usize::MAX {
            Some(u as usize)
        } else {
            None
        },
        SpecJson::Number(SpecJsonNumber::NegInt(i)) => if 0 <= i && i <= usize::MAX {
            Some(i as usize)
        } else {
            None
        },
        _ => None,
    }
}

/// A required string field.
pub open spec fn req_str(obj: SpecJson, key: Seq<char>) -> Option<Seq<char>> {
    obj.str_at(key)
}

/// An optional string field: `Some(None)` when missing or `null`, `None` when
/// present with another type.
pub open spec fn opt_str(obj: SpecJson, key: Seq<char>) -> Option<Option<Seq<char>>> {
    match obj.get(key) {
        None => Some(None),
        Some(SpecJson::Null) => Some(None),
        Some(SpecJson::Str(s)) => Some(Some(s)),
        _ => None,
    }
}

/// A required `i64` field.
pub open spec fn req_i64(obj: SpecJson, key: Seq<char>) -> Option<i64> {
    match obj.get(key) {
        Some(v) => int_value(v),
        None => None,
    }
}

/// An optional `i64` field.
pub open spec fn opt_i64(obj: SpecJson, key: Seq<char>) -> Option<Option<i64>> {
    match obj.get(key) {
        None => Some(None),
        Some(SpecJson::Null) => Some(None),
        Some(v) => match int_value(v) {
            Some(i) => Some(Some(i)),
            None => None,
        },
    }
}

/// A required `usize` field.
pub open spec fn req_usize(obj: SpecJson, key: Seq<char>) -> Option<usize> {
    match obj.get(key) {
        Some(v) => usize_value(v),
        None => None,
    }
}

/// The members that give each of `names` the value at the same position.
pub open spec fn positional_members(names: Seq<Seq<char>>, items: Seq<SpecJson>) -> Seq<(Seq<char>, SpecJson)> {
    Seq::new(names.len(), |i: int| (names[i], items[i]))
}

/// A record with the fields `names`: an object as it is, its fields found by
/// name; or an array with exactly one value per field, read as the object
/// that gives each field its value. Anything else is no record.
pub open spec fn as_record(j: SpecJson, names: Seq<Seq<char>>) -> Option<SpecJson> {
    match j {
        SpecJson::Object(_) => Some(j),
        SpecJson::Array(items) => if items.len() == names.len() {
            Some(SpecJson::Object(positional_members(names, items)))
        } else {
            None
        },
        _ => None,
    }
}

/// A required record field with the fields `names`.
pub open spec fn req_record(obj: SpecJson, key: Seq<char>, names: Seq<Seq<char>>) -> Option<SpecJson> {
    match obj.get(key) {
        Some(v) => as_record(v, names),
        None => None,
    }
}

/// An optional record field: `Some(None)` when missing or `null`.
pub open spec fn opt_record(obj: SpecJson, key: Seq<char>, names: Seq<Seq<char>>) -> Option<Option<SpecJson>> {
    match obj.get(key) {
        None => Some(None),
        Some(SpecJson::Null) => Some(None),
        Some(v) => match as_record(v, names) {
            Some(r) => Some(Some(r)),
            None => None,
        },
    }
}

/// The tag and the body of an internally tagged value: an object's `type`
/// member with the object itself, or an array's first value with the array
/// of the values after it.
pub open spec fn tagged_parts(j: SpecJson) -> Option<(SpecJson, SpecJson)> {
    match j {
        SpecJson::Object(_) => match j.get("type"@) {
            Some(t) => Some((t, j)),
            None => None,
        },
        SpecJson::Array(items) => if items.len() > 0 {
            Some((items[0], SpecJson::Array(items.drop_first())))
        } else {
            None
        },
        _ => None,
    }
}

/// The variant that a tag names among `variants`, in declaration order: a
/// string names it; where `by_index` (a tagged value nested in another, which
/// serde reads from buffered content) a non-negative integer below the number
/// of variants gives its position.
pub open spec fn variant_named(tag: SpecJson, variants: Seq<Seq<char>>, by_index: bool) -> Option<Seq<char>> {
    match tag {
        SpecJson::Str(s) => Some(s),
        SpecJson::Number(SpecJsonNumber::PosInt(n)) => if by_index && n < variants.len() {
            Some(variants[n as int])
        } else {
            None
        },
        _ => None,
    }
}

/// The texts of string slices.
pub open spec fn str_views(names: Seq<&str>) -> Seq<Seq<char>> {
    names.map_values(|s: &str| s@)
}

/// The view of an optional optional string.
pub open spec fn opt_opt_str_view(o: Option<Option<String>>) -> Option<Option<Seq<char>>> {
    match o {
        Some(inner) => Some(opt_str_view(inner)),
        None => None,
    }
}

/// The view of an optional optional value.
pub open spec fn opt_opt_json_view(o: Option<Option<Json>>) -> Option<Option<SpecJson>> {
    match o {
        Some(Some(j)) => Some(Some(j@)),
        Some(None) => Some(None),
        None => None,
    }
}

fn int_of(v: &Json) -> (i: Option<i64>)
    ensures
        i == int_value(v@),
{
    match v {
        Json::Number(JsonNumber::PosInt(u)) => if *u <= i64::MAX as u64 {
            Some(*u as i64)
        } else {
            None
        },
        Json::Number(JsonNumber::NegInt(i)) => Some(*i),
        _ => None,
    }
}

fn usize_of(v: &Json) -> (n: Option<usize>)
    ensures
        n == usize_value(v@),
{
    match v {
        Json::Number(JsonNumber::PosInt(u)) => if (*u as u128) <= (usize::MAX as u128) {
            Some(*u as usize)
        } else {
            None
        },
        Json::Number(JsonNumber::NegInt(i)) => if 0 <= *i && (*i as i128) <= (usize::MAX as i128) {
            Some(*i as usize)
        } else {
            None
        },
        _ => None,
    }
}

/// A required string field.
pub fn field_str(obj: &Json, key: &str) -> (s: Option<String>)
    ensures
        opt_str_view(s) == req_str(obj@, key@),
{
    obj.string_at(key)
}

/// An optional string field.
pub fn field_opt_str(obj: &Json, key: &str) -> (s: Option<Option<String>>)
    ensures
        opt_opt_str_view(s) == opt_str(obj@, key@),
{
    match obj.get(key) {
        None => Some(None),
        Some(Json::Null) => Some(None),
        Some(Json::Str(s)) => Some(Some(s.clone())),
        _ => None,
    }
}

/// A required `i64` field.
pub fn field_i64(obj: &Json, key: &str) -> (i: Option<i64>)
    ensures
        i == req_i64(obj@, key@),
{
    match obj.get(key) {
        Some(v) => int_of(v),
        None => None,
    }
}

/// An optional `i64` field.
pub fn field_opt_i64(obj: &Json, key: &str) -> (i: Option<Option<i64>>)
    ensures
        i == opt_i64(obj@, key@),
{
    match obj.get(key) {
        None => Some(None),
        Some(Json::Null) => Some(None),
        Some(v) => match int_of(v) {
            Some(i) => Some(Some(i)),
            None => None,
        },
    }
}

/// A required `usize` field.
pub fn field_usize(obj: &Json, key: &str) -> (n: Option<usize>)
    ensures
        n == req_usize(obj@, key@),
{
    match obj.get(key) {
        Some(v) => usize_of(v),
        None => None,
    }
}

/// The names of a record's fields.
pub fn names1(a: &'static str) -> (v: Vec<&'static str>)
    ensures
        str_views(v@) == seq![a@],
{
    let v = vec![a];
    assert(str_views(v@) =~= seq![a@]);
    v
}

/// The names of a record's fields.
pub fn names2(a: &'static str, b: &'static str) -> (v: Vec<&'static str>)
    ensures
        str_views(v@) == seq![a@, b@],
{
    let v = vec![a, b];
    assert(str_views(v@) =~= seq![a@, b@]);
    v
}

/// The names of a record's fields.
pub fn names3(a: &'static str, b: &'static str, c: &'static str) -> (v: Vec<&'static str>)
    ensures
        str_views(v@) == seq![a@, b@, c@],
{
    let v = vec![a, b, c];
    assert(str_views(v@) =~= seq![a@, b@, c@]);
    v
}

/// The names of a record's fields.
pub fn names4(a: &'static str, b: &'static str, c: &'static str, d: &'static str) -> (v: Vec<&'static str>)
    ensures
        str_views(v@) == seq![a@, b@, c@, d@],
{
    let v = vec![a, b, c, d];
    assert(str_views(v@) =~= seq![a@, b@, c@, d@]);
    v
}

/// Reads `j` as a record with the fields `names` (see [`as_record`]).
pub fn record(j: &Json, names: &Vec<&str>) -> (out: Option<Json>)
    ensures
        opt_view(out) == as_record(j@, str_views(names@)),
{
    match j {
        Json::Object(_) => Some(j.deep_copy()),
        Json::Array(items) => {
            if items.len() != names.len() {
                proof {
                    crate::json::lemma_json_seq_view(items@);
                }
                return None;
            }
            let ghost wanted = positional_members(str_views(names@), json_seq_view(items@));
            proof {
                crate::json::lemma_json_seq_view(items@);
            }
            let mut members: Vec<(String, Json)> = Vec::new();
            let mut i: usize = 0;
            while i < items.len()
                invariant
                    i <= items.len(),
                    items.len() == names.len(),
                    json_seq_view(items@).len() == items.len(),
                    wanted == positional_members(str_views(names@), json_seq_view(items@)),
                    forall|k: int| 0 <= k < items.len() ==> #[trigger] json_seq_view(items@)[k] == json_view(items@[k]),
                    members@.len() == i,
                    forall|k: int| 0 <= k < i ==> (#[trigger] members@[k].0@, json_view(members@[k].1)) == wanted[k],
                decreases items.len() - i,
            {
                let c = items[i].deep_copy();
                members.push((String::from_str(names[i]), c));
                i = i + 1;
            }
            proof {
                crate::json::lemma_members_view_ext(members@, wanted);
            }
            Some(Json::Object(members))
        },
        _ => None,
    }
}

/// A required record field with the fields `names`.
pub fn field_record(obj: &Json, key: &str, names: &Vec<&str>) -> (r: Option<Json>)
    ensures
        opt_view(r) == req_record(obj@, key@, str_views(names@)),
{
    match obj.get(key) {
        Some(v) => record(v, names),
        None => None,
    }
}

/// An optional record field with the fields `names`.
pub fn field_opt_record(obj: &Json, key: &str, names: &Vec<&str>) -> (r: Option<Option<Json>>)
    ensures
        opt_opt_json_view(r) == opt_record(obj@, key@, str_views(names@)),
{
    match obj.get(key) {
        None => Some(None),
        Some(Json::Null) => Some(None),
        Some(v) => match record(v, names) {
            Some(r) => Some(Some(r)),
            None => None,
        },
    }
}

/// Splits an internally tagged value into its tag and body (see
/// [`tagged_parts`]).
pub fn split_tagged(j: &Json) -> (out: Option<(Json, Json)>)
    ensures
        match out {
            Some((t, b)) => tagged_parts(j@) == Some((t@, b@)),
            None => tagged_parts(j@) is None,
        },
{
    match j {
        Json::Object(_) => match j.get("type") {
            Some(t) => Some((t.deep_copy(), j.deep_copy())),
            None => None,
        },
        Json::Array(items) => {
            proof {
                crate::json::lemma_json_seq_view(items@);
            }
            if items.len() == 0 {
                return None;
            }
            let tag = items[0].deep_copy();
            let mut rest: Vec<Json> = Vec::new();
            let mut i: usize = 1;
            while i < items.len()
                invariant
                    1 <= i <= items.len(),
                    json_seq_view(items@).len() == items.len(),
                    forall|k: int| 0 <= k < items.len() ==> #[trigger] json_seq_view(items@)[k] == json_view(items@[k]),
                    rest@.len() == i - 1,
                    forall|k: int| 0 <= k < i - 1 ==> json_view(#[trigger] rest@[k]) == json_seq_view(items@).drop_first()[k],
                decreases items.len() - i,
            {
                let c = items[i].deep_copy();
                rest.push(c);
                i = i + 1;
            }
            proof {
                crate::json::lemma_json_seq_view_ext(rest@, json_seq_view(items@).drop_first());
            }
            Some((tag, Json::Array(rest)))
        },
        _ => None,
    }
}

/// The variant that a tag names (see [`variant_named`]).
pub fn variant_of(tag: &Json, variants: &Vec<&str>, by_index: bool) -> (name: Option<String>)
    ensures
        opt_str_view(name) == variant_named(tag@, str_views(variants@), by_index),
{
    match tag {
        Json::Str(s) => Some(s.clone()),
        Json::Number(JsonNumber::PosInt(n)) => if by_index && *n < variants.len() as u64 {
            Some(String::from_str(variants[*n as usize]))
        } else {
            None
        },
        _ => None,
    }
}

} // verus!
