//! Writing flat JSON objects whose members are known in order.
use vstd::prelude::*;
use crate::json::{Json, JsonNumber};

verus! {

/// The value of a payload member, as data.
pub enum WireValue {
    Text(Seq<char>),
    Number(u64),
    Texts(Seq<Seq<char>>),
}

pub open spec fn value_holds(j: Json, w: WireValue) -> bool {
    match w {
        WireValue::Text(t) => j matches Json::Str(s) && s@ == t,
        WireValue::Number(n) => j == Json::Number(JsonNumber::Unsigned(n)),
        WireValue::Texts(ts) => j matches Json::Array(a) && a@.len() == ts.len() && forall|k: int|
            0 <= k < ts.len() ==> (#[trigger] a@[k] matches Json::Str(s) && s@ == ts[k]),
    }
}

/// The members `fs` are, in order, the names and values `ms`.
pub open spec fn members_hold(fs: Seq<(String, Json)>, ms: Seq<(Seq<char>, WireValue)>) -> bool {
    fs.len() == ms.len() && forall|i: int|
        0 <= i < ms.len() ==> (#[trigger] fs[i]).0@ == ms[i].0 && value_holds(fs[i].1, ms[i].1)
}

pub open spec fn object_holds(j: Json, ms: Seq<(Seq<char>, WireValue)>) -> bool {
    j matches Json::Object(fs) && members_hold(fs@, ms)
}

/// Appends a member.
pub(crate) fn push_member(
    fs: &mut Vec<(String, Json)>,
    k: &str,
    v: Json,
    Ghost(ms): Ghost<Seq<(Seq<char>, WireValue)>>,
    Ghost(w): Ghost<WireValue>,
)
    requires
        members_hold(old(fs)@, ms),
        value_holds(v, w),
    ensures
        members_hold(final(fs)@, ms.push((k@, w))),
{
    fs.push((k.to_string(), v));
    assert forall|i: int| 0 <= i < ms.len() + 1 implies (#[trigger] fs@[i]).0@ == ms.push(
        (k@, w),
    )[i].0 && value_holds(fs@[i].1, ms.push((k@, w))[i].1) by {
        if i < ms.len() {
            assert(fs@[i] == old(fs)@[i]);
        }
    }
}

/// A string value.
pub fn text_value(s: &str) -> (r: Json)
    ensures
        value_holds(r, WireValue::Text(s@)),
{
    Json::Str(s.to_string())
}

/// An array of strings.
pub fn texts_value(ts: &Vec<String>) -> (r: Json)
    ensures
        value_holds(r, WireValue::Texts(ts@.map_values(|t: String| t@))),
{
    let mut a: Vec<Json> = Vec::new();
    let mut i: usize = 0;
    while i < ts.len()
        invariant
            i <= ts@.len(),
            a@.len() == i,
            forall|k: int| 0 <= k < i ==> (#[trigger] a@[k] matches Json::Str(s) && s@ == ts@[k]@),
        decreases ts@.len() - i,
    {
        a.push(Json::Str(ts[i].clone()));
        i = i + 1;
    }
    Json::Array(a)
}

} // verus!
