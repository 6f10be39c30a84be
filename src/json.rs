//! A plain model of JSON documents, with parsing and printing done by serde_json.

use vstd::prelude::*;

verus! {

/// A number that does not fit an `i64`, in the text that serde_json gave it.
/// Only a parsed document makes one, so its text is always a JSON number.
#[derive(Debug)]
pub struct NumberText {
    text: String,
}

/// A JSON document. Integers that fit an `i64` are held as such; any other
/// number is held in its textual form.
#[derive(Debug)]
pub enum Json {
    Null,
    Bool(bool),
    Int(i64),
    Number(NumberText),
    Str(String),
    Array(Vec<Json>),
    Object(Vec<(String, Json)>),
}

/// The value of the first member named `key` among `fields`.
pub open spec fn field_of(fields: Seq<(String, Json)>, key: Seq<char>) -> Option<Json>
    decreases fields.len(),
{
    if fields.len() == 0 {
        None
    } else if fields[0].0@ == key {
        Some(fields[0].1)
    } else {
        field_of(fields.drop_first(), key)
    }
}

/// The member `key` of `j`, where `j` is an object.
pub open spec fn member(j: Json, key: Seq<char>) -> Option<Json> {
    match j {
        Json::Object(fields) => field_of(fields@, key),
        _ => None,
    }
}

/// Reads an optional boolean member: `Some(None)` where it is absent,
/// `None` where it holds something else than a boolean.
pub open spec fn opt_bool(m: Option<Json>) -> Option<Option<bool>> {
    match m {
        None => Some(None),
        Some(Json::Bool(b)) => Some(Some(b)),
        Some(_) => None,
    }
}

/// Reads an optional integer member, as `opt_bool` does.
pub open spec fn opt_int(m: Option<Json>) -> Option<Option<i64>> {
    match m {
        None => Some(None),
        Some(Json::Int(i)) => Some(Some(i)),
        Some(_) => None,
    }
}

/// Reads an optional string member, as `opt_bool` does.
pub open spec fn opt_str(m: Option<Json>) -> Option<Option<Seq<char>>> {
    match m {
        None => Some(None),
        Some(Json::Str(s)) => Some(Some(s@)),
        Some(_) => None,
    }
}

/// The characters of a string document.
pub open spec fn str_of(j: Json) -> Option<Seq<char>> {
    match j {
        Json::Str(s) => Some(s@),
        _ => None,
    }
}

/// Looking a key up in fields with one more member at the end.
pub proof fn lemma_field_of_push(fields: Seq<(String, Json)>, x: (String, Json))
    ensures
        forall|k: Seq<char>|
            #[trigger] field_of(fields.push(x), k) == (if field_of(fields, k) is Some {
                field_of(fields, k)
            } else if x.0@ == k {
                Some(x.1)
            } else {
                None
            }),
    decreases fields.len(),
{
    if fields.len() > 0 {
        lemma_field_of_push(fields.drop_first(), x);
    }
    assert forall|k: Seq<char>|
        #[trigger] field_of(fields.push(x), k) == (if field_of(fields, k) is Some {
            field_of(fields, k)
        } else if x.0@ == k {
            Some(x.1)
        } else {
            None
        }) by {
        if fields.len() == 0 {
            assert(fields.push(x).drop_first() =~= Seq::<(String, Json)>::empty());
        } else {
            assert(fields.push(x)[0] == fields[0]);
            assert(fields.push(x).drop_first() =~= fields.drop_first().push(x));
            assert(field_of(fields.drop_first().push(x), k) == field_of(fields.push(x).drop_first(), k));
        }
    }
}

/// Appends the member `key: value` to `fields`.
pub fn push_member(fields: &mut Vec<(String, Json)>, key: &str, value: Json)
    ensures
        final(fields)@.len() == old(fields)@.len() + 1,
        forall|i: int| 0 <= i < old(fields)@.len() ==> #[trigger] final(fields)@[i] == old(fields)@[i],
        final(fields)@[old(fields)@.len() as int].1 == value,
        forall|k: Seq<char>|
            #[trigger] field_of(final(fields)@, k) == (if field_of(old(fields)@, k) is Some {
                field_of(old(fields)@, k)
            } else if key@ == k {
                Some(value)
            } else {
                None
            }),
{
    let x = (String::from_str(key), value);
    proof {
        lemma_field_of_push(fields@, x);
    }
    fields.push(x);
}

impl Json {
    /// Reads the optional boolean member `key`.
    pub fn opt_bool_member(&self, key: &str) -> (r: Option<Option<bool>>)
        ensures
            r == opt_bool(member(*self, key@)),
    {
        match self.get(key) {
            None => Some(None),
            Some(Json::Bool(b)) => Some(Some(*b)),
            Some(_) => None,
        }
    }

    /// Reads the optional integer member `key`.
    pub fn opt_int_member(&self, key: &str) -> (r: Option<Option<i64>>)
        ensures
            r == opt_int(member(*self, key@)),
    {
        match self.get(key) {
            None => Some(None),
            Some(Json::Int(i)) => Some(Some(*i)),
            Some(_) => None,
        }
    }

    /// Reads the optional string member `key`.
    pub fn opt_str_member(&self, key: &str) -> (r: Option<Option<String>>)
        ensures
            match r {
                None => opt_str(member(*self, key@)) is None,
                Some(None) => opt_str(member(*self, key@)) == Some(None::<Seq<char>>),
                Some(Some(s)) => opt_str(member(*self, key@)) == Some(Some(s@)),
            },
    {
        match self.get(key) {
            None => Some(None),
            Some(Json::Str(s)) => Some(Some(s.clone())),
            Some(_) => None,
        }
    }
}

/// serde_json's document type, carried through the conversions below.
#[verifier::external_type_specification]
#[verifier::external_body]
pub struct ExValue(serde_json::Value);

/// The document that serde_json reads from `bytes`, or `None` where they are not JSON.
pub uninterp spec fn parsed_json(bytes: Seq<u8>) -> Option<Json>;

/// The text that serde_json prints for `j`.
pub uninterp spec fn json_text(j: Json) -> Seq<char>;

impl Json {
    /// Looks up the member `key` of an object; `None` for a missing member or a non-object.
    pub fn get(&self, key: &str) -> (r: Option<&Json>)
        ensures
            match r {
                Some(v) => member(*self, key@) == Some(*v),
                None => member(*self, key@) is None,
            },
    {
        match self {
            Json::Object(fields) => {
                let k = String::from_str(key);
                let n = fields.len();
                let mut i: usize = 0;
                assert(fields@.subrange(0, n as int) =~= fields@);
                while i < n
                    invariant
                        n == fields@.len(),
                        0 <= i <= n,
                        k@ == key@,
                        member(*self, key@) == field_of(fields@, key@),
                        field_of(fields@, key@) == field_of(fields@.subrange(i as int, n as int), key@),
                    decreases n - i,
                {
                    assert(fields@.subrange(i as int, n as int).drop_first()
                        =~= fields@.subrange(i + 1, n as int));
                    assert(fields@.subrange(i as int, n as int)[0] == fields@[i as int]);
                    if fields[i].0 == k {
                        let v = &fields[i].1;
                        return Some(v);
                    }
                    i = i + 1;
                }
                None
            },
            _ => None,
        }
    }
}

/// Relies on serde_json::from_slice into serde_json::Value: reads one JSON document.
#[verifier::external_body]
pub(crate) fn parse_json(bytes: &[u8]) -> (r: Option<Json>)
    ensures
        r == parsed_json(bytes@),
{
    serde_json::from_slice::<serde_json::Value>(bytes).ok().map(|v| from_value(v))
}

/// Relies on serde_json::Value's `Display`: prints `j` as compact JSON text.
#[verifier::external_body]
pub(crate) fn render_json(j: &Json) -> (r: String)
    ensures
        r@ == json_text(*j),
{
    to_value(j).to_string()
}

/// Relies on serde_json::Value's variants and serde_json::Number::as_i64: moves a
/// serde_json document into a `Json`, variant by variant.
#[verifier::external_body]
fn from_value(v: serde_json::Value) -> Json {
    match v {
        serde_json::Value::Null => Json::Null,
        serde_json::Value::Bool(b) => Json::Bool(b),
        serde_json::Value::Number(n) => match n.as_i64() {
            Some(i) => Json::Int(i),
            None => Json::Number(NumberText { text: n.to_string() }),
        },
        serde_json::Value::String(s) => Json::Str(s),
        serde_json::Value::Array(a) => Json::Array(a.into_iter().map(from_value).collect()),
        serde_json::Value::Object(o) => Json::Object(o.into_iter().map(|(k, x)| (k, from_value(x))).collect()),
    }
}

/// Relies on serde_json::Value's variants and serde_json::from_str for numbers: moves a
/// `Json` into a serde_json document, variant by variant. A `NumberText` only comes
/// from a number that serde_json printed, so `from_str` reads it back.
#[verifier::external_body]
fn to_value(j: &Json) -> serde_json::Value {
    match j {
        Json::Null => serde_json::Value::Null,
        Json::Bool(b) => serde_json::Value::Bool(*b),
        Json::Int(i) => serde_json::Value::from(*i),
        Json::Number(n) => serde_json::from_str(&n.text).unwrap_or(serde_json::Value::Null),
        Json::Str(s) => serde_json::Value::String(s.clone()),
        Json::Array(a) => serde_json::Value::Array(a.iter().map(to_value).collect()),
        Json::Object(o) => serde_json::Value::Object(o.iter().map(|(k, x)| (k.clone(), to_value(x))).collect()),
    }
}

} // verus!
