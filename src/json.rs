//! A JSON document as plain data, and the parsing of JSON text into it.
use vstd::prelude::*;

verus! {

#[verifier::external_type_specification]
#[verifier::external_body]
pub struct ExJsonError(serde_json::Error);

#[verifier::external_type_specification]
#[verifier::external_body]
pub struct ExJsonValue(serde_json::Value);

/// A JSON number. Non-negative integers are kept as their value; any other
/// number (negative or fractional) is kept as the text that serde_json prints
/// for it.
#[derive(Debug, Clone, PartialEq)]
pub enum JsonNumber {
    Unsigned(u64),
    Other(String),
}

/// A JSON value. An object keeps its members in the order they were given.
#[derive(Debug, PartialEq)]
pub enum Json {
    Null,
    Bool(bool),
    Number(JsonNumber),
    Str(String),
    Array(Vec<Json>),
    Object(Vec<(String, Json)>),
}

/// The value of the last member of `fs` named `k`, as a JSON parser that lets
/// a later duplicate win would give it.
pub open spec fn lookup(fs: Seq<(String, Json)>, k: Seq<char>) -> Option<Json>
    decreases fs.len(),
{
    if fs.len() == 0 {
        None
    } else if fs.last().0@ == k {
        Some(fs.last().1)
    } else {
        lookup(fs.drop_last(), k)
    }
}

/// The member `k` of `j`, where `j` is an object that has one.
pub open spec fn member(j: Json, k: Seq<char>) -> Option<Json> {
    match j {
        Json::Object(fs) => lookup(fs@, k),
        _ => None,
    }
}

/// The document that JSON text holds, or `None` where the text is not JSON.
pub uninterp spec fn json_of_text(text: Seq<char>) -> Option<Json>;

/// Relies on serde_json::from_str (into serde_json::Value): it parses JSON text
/// and fails on text that is not a single JSON document; the result depends on
/// the text alone, so it is named `json_of_text`.
#[verifier::external_body]
pub(crate) fn read_json(text: &str) -> (r: Result<Json, serde_json::Error>)
    ensures
        r is Ok <==> json_of_text(text@) is Some,
        r matches Ok(j) ==> json_of_text(text@) == Some(j),
{
    serde_json::from_str::<serde_json::Value>(text).map(json_from_value)
}

/// Turns a serde_json value into a `Json`, variant for variant and member for
/// member; used only by `read_json`, whose contract covers the result. Relies
/// on serde_json::Number::as_u64 (the value of a non-negative integer) and on
/// serde_json::Number's `Display` for any other number.
#[verifier::external_body]
fn json_from_value(v: serde_json::Value) -> Json {
    match v {
        serde_json::Value::Null => Json::Null,
        serde_json::Value::Bool(b) => Json::Bool(b),
        serde_json::Value::Number(n) => Json::Number(match n.as_u64() {
            Some(u) => JsonNumber::Unsigned(u),
            None => JsonNumber::Other(n.to_string()),
        }),
        serde_json::Value::String(s) => Json::Str(s),
        serde_json::Value::Array(a) => Json::Array(a.into_iter().map(json_from_value).collect()),
        serde_json::Value::Object(m) => Json::Object(
            m.into_iter().map(|(k, x)| (k, json_from_value(x))).collect(),
        ),
    }
}

/// Whether two strings hold the same characters.
pub fn text_eq(a: &str, b: &str) -> (r: bool)
    ensures
        r == (a@ == b@),
{
    let n = a.unicode_len();
    if n != b.unicode_len() {
        return false;
    }
    let mut i: usize = 0;
    while i < n
        invariant
            n == a@.len(),
            n == b@.len(),
            0 <= i <= n,
            forall|j: int| 0 <= j < i ==> a@[j] == b@[j],
        decreases n - i,
    {
        if a.get_char(i) != b.get_char(i) {
            return false;
        }
        i = i + 1;
    }
    assert(a@ =~= b@);
    true
}

impl Json {
    /// The member `k` of this value, where it is an object that has one.
    pub fn get(&self, k: &str) -> (r: Option<&Json>)
        ensures
            r matches Some(v) ==> member(*self, k@) == Some(*v),
            r is None ==> member(*self, k@) is None,
    {
        match self {
            Json::Object(fs) => {
                let mut i: usize = fs.len();
                assert(fs@.subrange(0, i as int) =~= fs@);
                while i > 0
                    invariant
                        i <= fs@.len(),
                        *self == Json::Object(*fs),
                        lookup(fs@, k@) == lookup(fs@.subrange(0, i as int), k@),
                    decreases i,
                {
                    let ghost pre = fs@.subrange(0, i as int);
                    assert(pre.drop_last() =~= fs@.subrange(0, i - 1));
                    i = i - 1;
                    if text_eq(fs[i].0.as_str(), k) {
                        return Some(&fs[i].1);
                    }
                }
                assert(fs@.subrange(0, 0).len() == 0);
                None
            },
            _ => None,
        }
    }
}

} // verus!
