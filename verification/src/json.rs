//! A JSON value model, the lookups the translators make on it, and the parse
//! of JSON text.

use vstd::prelude::*;

verus! {

broadcast use vstd::std_specs::vec::group_vec_axioms;

/// A JSON number as serde_json holds it: a non-negative integer, a negative
/// integer, or a float kept as its decimal text.
#[derive(Clone, Debug, PartialEq)]
pub enum JsonNumber {
    PosInt(u64),
    NegInt(i64),
    Float(String),
}

/// A JSON value. Object members keep their order; lookups take the first
/// member with the key.
#[derive(Debug)]
pub enum Json {
    Null,
    Bool(bool),
    Number(JsonNumber),
    Str(String),
    Array(Vec<Json>),
    Object(Vec<(String, Json)>),
}

/// The mathematical counterpart of [`JsonNumber`].
pub enum SpecJsonNumber {
    PosInt(u64),
    NegInt(i64),
    Float(Seq<char>),
}

/// The mathematical counterpart of [`Json`].
pub enum SpecJson {
    Null,
    Bool(bool),
    Number(SpecJsonNumber),
    Str(Seq<char>),
    Array(Seq<SpecJson>),
    Object(Seq<(Seq<char>, SpecJson)>),
}

impl View for JsonNumber {
    type V = SpecJsonNumber;

    open spec fn view(&self) -> SpecJsonNumber {
        match self {
            JsonNumber::PosInt(u) => SpecJsonNumber::PosInt(*u),
            JsonNumber::NegInt(i) => SpecJsonNumber::NegInt(*i),
            JsonNumber::Float(t) => SpecJsonNumber::Float(t@),
        }
    }
}

pub open spec fn json_view(j: Json) -> SpecJson
    decreases j,
{
    match j {
        Json::Null => SpecJson::Null,
        Json::Bool(b) => SpecJson::Bool(b),
        Json::Number(n) => SpecJson::Number(n@),
        Json::Str(s) => SpecJson::Str(s@),
        Json::Array(v) => SpecJson::Array(json_seq_view(v@)),
        Json::Object(m) => SpecJson::Object(members_view(m@)),
    }
}

pub open spec fn json_seq_view(s: Seq<Json>) -> Seq<SpecJson>
    decreases s,
{
    if s.len() == 0 {
        Seq::empty()
    } else {
        seq![json_view(s[0])] + json_seq_view(s.subrange(1, s.len() as int))
    }
}

pub open spec fn members_view(s: Seq<(String, Json)>) -> Seq<(Seq<char>, SpecJson)>
    decreases s,
{
    if s.len() == 0 {
        Seq::empty()
    } else {
        seq![(s[0].0@, json_view(s[0].1))] + members_view(s.subrange(1, s.len() as int))
    }
}

impl View for Json {
    type V = SpecJson;

    open spec fn view(&self) -> SpecJson {
        json_view(*self)
    }
}


/// The first member of `members` whose key is `key`.
pub open spec fn member_lookup(members: Seq<(Seq<char>, SpecJson)>, key: Seq<char>) -> Option<SpecJson>
    decreases members.len(),
{
    if members.len() == 0 {
        None
    } else if members[0].0 == key {
        Some(members[0].1)
    } else {
        member_lookup(members.drop_first(), key)
    }
}

impl SpecJson {
    /// The value under `key`, for an object that has one.
    pub open spec fn get(self, key: Seq<char>) -> Option<SpecJson> {
        match self {
            SpecJson::Object(members) => member_lookup(members, key),
            _ => None,
        }
    }

    /// The text of a string value.
    pub open spec fn as_str(self) -> Option<Seq<char>> {
        match self {
            SpecJson::Str(s) => Some(s),
            _ => None,
        }
    }

    /// The text of the string under `key`, if there is one.
    pub open spec fn str_at(self, key: Seq<char>) -> Option<Seq<char>> {
        match self.get(key) {
            Some(v) => v.as_str(),
            None => None,
        }
    }
}

/// The view of an optional borrowed value.
pub open spec fn opt_ref_view(o: Option<&Json>) -> Option<SpecJson> {
    match o {
        Some(j) => Some(j@),
        None => None,
    }
}

/// The view of an optional value.
pub open spec fn opt_view(o: Option<Json>) -> Option<SpecJson> {
    match o {
        Some(j) => Some(j@),
        None => None,
    }
}

pub proof fn lemma_json_seq_view(s: Seq<Json>)
    ensures
        json_seq_view(s).len() == s.len(),
        forall|i: int| 0 <= i < s.len() ==> #[trigger] json_seq_view(s)[i] == json_view(s[i]),
    decreases s.len(),
{
    if s.len() > 0 {
        lemma_json_seq_view(s.subrange(1, s.len() as int));
    }
}

/// The view of an array's elements is the sequence of their views.
pub proof fn lemma_json_seq_view_map(s: Seq<Json>)
    ensures
        json_seq_view(s) == s.map_values(|j: Json| j@),
{
    lemma_json_seq_view(s);
    assert(json_seq_view(s) =~= s.map_values(|j: Json| j@));
}

pub proof fn lemma_members_view(s: Seq<(String, Json)>)
    ensures
        members_view(s).len() == s.len(),
        forall|i: int|
            0 <= i < s.len() ==> #[trigger] members_view(s)[i] == (s[i].0@, json_view(s[i].1)),
    decreases s.len(),
{
    if s.len() > 0 {
        lemma_members_view(s.subrange(1, s.len() as int));
    }
}

pub proof fn lemma_json_seq_view_ext(a: Seq<Json>, b: Seq<SpecJson>)
    requires
        a.len() == b.len(),
        forall|i: int| 0 <= i < a.len() ==> json_view(#[trigger] a[i]) == b[i],
    ensures
        json_seq_view(a) == b,
{
    lemma_json_seq_view(a);
    assert(json_seq_view(a) =~= b);
}

pub proof fn lemma_members_view_ext(a: Seq<(String, Json)>, b: Seq<(Seq<char>, SpecJson)>)
    requires
        a.len() == b.len(),
        forall|i: int| 0 <= i < a.len() ==> (#[trigger] a[i].0@, json_view(a[i].1)) == b[i],
    ensures
        members_view(a) == b,
{
    lemma_members_view(a);
    assert(members_view(a) =~= b);
}

impl Json {
    /// The value under `key`, for an object that has one (`Value::get`).
    pub fn get(&self, key: &str) -> (found: Option<&Json>)
        ensures
            opt_ref_view(found) == self@.get(key@),
    {
        match self {
            Json::Object(members) => {
                let ghost mv = members_view(members@);
                proof {
                    lemma_members_view(members@);
                }
                assert(mv.skip(0) =~= mv);
                assert(self@ == SpecJson::Object(mv));
                let mut i: usize = 0;
                while i < members.len()
                    invariant
                        i <= members.len(),
                        self@ == SpecJson::Object(mv),
                        mv == members_view(members@),
                        mv.len() == members@.len(),
                        forall|k: int| 0 <= k < members@.len() ==> #[trigger] mv[k] == (members@[k].0@, json_view(members@[k].1)),
                        member_lookup(mv, key@) == member_lookup(mv.skip(i as int), key@),
                    decreases members.len() - i,
                {
                    assert(mv.skip(i as int)[0] == mv[i as int]);
                    assert(mv.skip(i as int).drop_first() =~= mv.skip(i + 1));
                    let x = same_key(&members[i].0, key);
                    if x {
                        assert(member_lookup(mv.skip(i as int), key@) == Some(mv[i as int].1));
                        return Some(&members[i].1);
                    }
                    i = i + 1;
                }
                None
            },
            _ => None,
        }
    }

    /// The text of a string value (`Value::as_str`).
    pub fn as_str(&self) -> (text: Option<&str>)
        ensures
            match text {
                Some(t) => self@.as_str() == Some(t@),
                None => self@.as_str() is None,
            },
    {
        match self {
            Json::Str(s) => Some(s.as_str()),
            _ => None,
        }
    }

    /// The text of the string under `key`, if there is one
    /// (`get(key).and_then(as_str)`).
    pub fn string_at(&self, key: &str) -> (text: Option<String>)
        ensures
            match text {
                Some(t) => self@.str_at(key@) == Some(t@),
                None => self@.str_at(key@) is None,
            },
    {
        match self.get(key) {
            Some(v) => match v.as_str() {
                Some(t) => Some(String::from_str(t)),
                None => None,
            },
            None => None,
        }
    }

    /// A copy of the value.
    #[verifier::loop_isolation(false)]
    pub fn deep_copy(&self) -> (copy: Json)
        ensures
            copy@ == self@,
        decreases self,
    {
        match self {
            Json::Null => Json::Null,
            Json::Bool(b) => Json::Bool(*b),
            Json::Number(n) => Json::Number(
                match n {
                    JsonNumber::PosInt(u) => JsonNumber::PosInt(*u),
                    JsonNumber::NegInt(i) => JsonNumber::NegInt(*i),
                    JsonNumber::Float(t) => JsonNumber::Float(t.clone()),
                },
            ),
            Json::Str(s) => Json::Str(s.clone()),
            Json::Array(items) => {
                let mut out: Vec<Json> = Vec::new();
                let mut i: usize = 0;
                while i < items.len()
                    invariant
                        i <= items.len(),
                        out@.len() == i,
                        forall|k: int| 0 <= k < i ==> json_view(#[trigger] out@[k]) == json_view(items@[k]),
                    decreases items.len() - i,
                {
                    proof {
                        assert(decreases_to!(items@ => items@[i as int]));
                    }
                    let c = items[i].deep_copy();
                    out.push(c);
                    i = i + 1;
                }
                proof {
                    lemma_json_seq_view(items@);
                    lemma_json_seq_view_ext(out@, json_seq_view(items@));
                }
                Json::Array(out)
            },
            Json::Object(members) => {
                let mut out: Vec<(String, Json)> = Vec::new();
                let mut i: usize = 0;
                while i < members.len()
                    invariant
                        i <= members.len(),
                        out@.len() == i,
                        forall|k: int|
                            0 <= k < i ==> (#[trigger] out@[k].0@, json_view(out@[k].1)) == (members@[k].0@, json_view(members@[k].1)),
                    decreases members.len() - i,
                {
                    proof {
                        assert(decreases_to!(members@ => members@[i as int]));
                    }
                    let c = members[i].1.deep_copy();
                    out.push((members[i].0.clone(), c));
                    i = i + 1;
                }
                proof {
                    lemma_members_view(members@);
                    lemma_members_view_ext(out@, members_view(members@));
                }
                Json::Object(out)
            },
        }
    }
}

#[verifier::external_type_specification]
#[verifier::external_body]
pub struct ExSerdeJsonValue(serde_json::Value);

/// The value that serde_json reads from a JSON text, or `None` where it
/// rejects the text.
pub uninterp spec fn parsed_json(text: Seq<char>) -> Option<SpecJson>;

/// Reads `text` with `serde_json::from_str::<serde_json::Value>` and hands the
/// value back in the library's model. Trusted: the result is the one serde_json
/// gives for this text (`parsed_json`), `None` exactly where serde_json reports
/// an error. What serde_json accepts and which value it builds is not stated
/// here beyond that name.
#[verifier::external_body]
pub(crate) fn parse_json(text: &str) -> (parsed: Option<Json>)
    ensures
        opt_view(parsed) == parsed_json(text@),
{
    match serde_json::from_str::<serde_json::Value>(text) {
        Ok(value) => Some(json_from_serde(value)),
        Err(_) => None,
    }
}

/// Moves a `serde_json::Value` into the library's model, variant for variant:
/// a number goes to `PosInt` when serde_json holds a non-negative integer, to
/// `NegInt` for a negative one, and to its decimal text otherwise; object
/// members keep the order in which serde_json's map yields them.
#[verifier::external_body]
fn json_from_serde(value: serde_json::Value) -> Json {
    match value {
        serde_json::Value::Null => Json::Null,
        serde_json::Value::Bool(b) => Json::Bool(b),
        serde_json::Value::Number(n) => Json::Number(match (n.as_u64(), n.as_i64()) {
            (Some(u), _) => JsonNumber::PosInt(u),
            (None, Some(i)) => JsonNumber::NegInt(i),
            (None, None) => JsonNumber::Float(n.to_string()),
        }),
        serde_json::Value::String(s) => Json::Str(s),
        serde_json::Value::Array(items) => Json::Array(items.into_iter().map(json_from_serde).collect()),
        serde_json::Value::Object(map) => Json::Object(map.into_iter().map(|(k, v)| (k, json_from_serde(v))).collect()),
    }
}

fn same_key(k: &String, key: &str) -> (same: bool)
    ensures
        same == (k@ == key@),
{
    crate::text::same_text(k.as_str(), key)
}

} // verus!
