//! Reading the members of a JSON object under the service's encodings: which
//! member holds what, and how a missing or `null` member counts.
use vstd::prelude::*;
use crate::codec::{flag_text, parse_flag, parse_u32, parse_u64, u32_text, u64_text};
use crate::id_map::IdMap;
use crate::json::{lookup, member, Json, JsonNumber};

verus! {

pub open spec fn opt_view(o: Option<String>) -> Option<Seq<char>> {
    match o {
        Some(s) => Some(s@),
        None => None,
    }
}

/// A string member.
pub open spec fn text_of(j: Json, k: Seq<char>) -> Option<Seq<char>> {
    match member(j, k) {
        Some(Json::Str(s)) => Some(s@),
        _ => None,
    }
}

/// An optional string member: missing or `null` is `Some(None)`; any other
/// kind of value does not decode.
pub open spec fn opt_text_of(j: Json, k: Seq<char>) -> Option<Option<Seq<char>>> {
    match member(j, k) {
        None => Some(None),
        Some(Json::Null) => Some(None),
        Some(Json::Str(s)) => Some(Some(s@)),
        _ => None,
    }
}

/// A `u64` written as a decimal string.
pub open spec fn wire_u64_of(j: Json, k: Seq<char>) -> Option<u64> {
    match text_of(j, k) {
        Some(s) => u64_text(s),
        None => None,
    }
}

/// A `u32` written as a decimal string.
pub open spec fn wire_u32_of(j: Json, k: Seq<char>) -> Option<u32> {
    match text_of(j, k) {
        Some(s) => u32_text(s),
        None => None,
    }
}

/// An optional `u32` written as a decimal string.
pub open spec fn opt_wire_u32_of(j: Json, k: Seq<char>) -> Option<Option<u32>> {
    match member(j, k) {
        None => Some(None),
        Some(Json::Null) => Some(None),
        Some(Json::Str(s)) => match u32_text(s@) {
            Some(v) => Some(Some(v)),
            None => None,
        },
        _ => None,
    }
}

/// A boolean written as `"0"` or `"1"`.
pub open spec fn flag_of(j: Json, k: Seq<char>) -> Option<bool> {
    match text_of(j, k) {
        Some(s) => flag_text(s),
        None => None,
    }
}

/// The ordinal of an enumeration written as the string `"0"`, `"1"` or `"2"`.
pub open spec fn ordinal_text(s: Seq<char>) -> Option<u8> {
    if s =~= seq!['0'] {
        Some(0u8)
    } else if s =~= seq!['1'] {
        Some(1u8)
    } else if s =~= seq!['2'] {
        Some(2u8)
    } else {
        None
    }
}

pub open spec fn ordinal_of(j: Json, k: Seq<char>) -> Option<u8> {
    match text_of(j, k) {
        Some(s) => ordinal_text(s),
        None => None,
    }
}

/// A non-negative integer written as a JSON number.
pub open spec fn num_of(j: Json, k: Seq<char>) -> Option<u64> {
    match member(j, k) {
        Some(Json::Number(JsonNumber::Unsigned(n))) => Some(n),
        _ => None,
    }
}

pub open spec fn num_u32_of(j: Json, k: Seq<char>) -> Option<u32> {
    match num_of(j, k) {
        Some(n) => if n <= u32::MAX {
            Some(n as u32)
        } else {
            None
        },
        None => None,
    }
}

pub open spec fn num_u16_of(j: Json, k: Seq<char>) -> Option<u16> {
    match num_of(j, k) {
        Some(n) => if n <= u16::MAX {
            Some(n as u16)
        } else {
            None
        },
        None => None,
    }
}

/// An optional non-negative integer written as a JSON number.
pub open spec fn opt_num_of(j: Json, k: Seq<char>) -> Option<Option<u64>> {
    match member(j, k) {
        None => Some(None),
        Some(Json::Null) => Some(None),
        Some(Json::Number(JsonNumber::Unsigned(n))) => Some(Some(n)),
        _ => None,
    }
}

/// A value that is read from a JSON value.
pub trait Decode: Sized {
    /// Whether `j` holds a value of this type.
    spec fn decodes(j: Json) -> bool;

    /// Whether `self` is the value that `j` holds.
    spec fn decoded_from(&self, j: Json) -> bool;

    fn decode(j: &Json) -> (r: Option<Self>)
        ensures
            r is Some <==> Self::decodes(*j),
            r matches Some(x) ==> x.decoded_from(*j),
    ;
}

/// An optional member holding a value of type `V`.
pub open spec fn opt_obj_decodes<V: Decode>(j: Json, k: Seq<char>) -> bool {
    match member(j, k) {
        None => true,
        Some(Json::Null) => true,
        Some(v) => V::decodes(v),
    }
}

pub open spec fn opt_obj_decoded<V: Decode>(j: Json, k: Seq<char>, x: Option<V>) -> bool {
    match member(j, k) {
        None => x is None,
        Some(Json::Null) => x is None,
        Some(v) => x matches Some(d) && d.decoded_from(v),
    }
}

/// Every member of an object holds a value of type `V`.
pub open spec fn map_decodes<V: Decode>(fs: Seq<(String, Json)>) -> bool {
    forall|i: int| 0 <= i < fs.len() ==> V::decodes(#[trigger] fs[i].1)
}

/// `m` maps each member name of an object to the value its member holds.
pub open spec fn map_decoded<V: Decode>(fs: Seq<(String, Json)>, m: IdMap<V>) -> bool {
    &&& m.wf()
    &&& forall|k: Seq<char>| #[trigger] m@.contains_key(k) <==> lookup(fs, k) is Some
    &&& forall|k: Seq<char>| #[trigger] m@.contains_key(k) ==> m@[k].decoded_from(lookup(fs, k)->0)
}

/// An optional member holding an object of values of type `V`.
pub open spec fn opt_map_decodes<V: Decode>(j: Json, k: Seq<char>) -> bool {
    match member(j, k) {
        None => true,
        Some(Json::Null) => true,
        Some(Json::Object(fs)) => map_decodes::<V>(fs@),
        _ => false,
    }
}

pub open spec fn opt_map_decoded<V: Decode>(j: Json, k: Seq<char>, x: Option<IdMap<V>>) -> bool {
    match member(j, k) {
        None => x is None,
        Some(Json::Null) => x is None,
        Some(Json::Object(fs)) => x matches Some(m) && map_decoded(fs@, m),
        _ => false,
    }
}

pub fn text_field(j: &Json, k: &str) -> (r: Option<String>)
    ensures
        opt_view(r) == text_of(*j, k@),
{
    match j.get(k) {
        Some(Json::Str(s)) => Some(s.clone()),
        _ => None,
    }
}

pub fn opt_text_field(j: &Json, k: &str) -> (r: Option<Option<String>>)
    ensures
        match r {
            Some(o) => opt_text_of(*j, k@) == Some(opt_view(o)),
            None => opt_text_of(*j, k@) is None,
        },
{
    match j.get(k) {
        None => Some(None),
        Some(Json::Null) => Some(None),
        Some(Json::Str(s)) => Some(Some(s.clone())),
        _ => None,
    }
}

pub fn wire_u64_field(j: &Json, k: &str) -> (r: Option<u64>)
    ensures
        r == wire_u64_of(*j, k@),
{
    match j.get(k) {
        Some(Json::Str(s)) => parse_u64(s.as_str()),
        _ => None,
    }
}

pub fn wire_u32_field(j: &Json, k: &str) -> (r: Option<u32>)
    ensures
        r == wire_u32_of(*j, k@),
{
    match j.get(k) {
        Some(Json::Str(s)) => parse_u32(s.as_str()),
        _ => None,
    }
}

pub fn opt_wire_u32_field(j: &Json, k: &str) -> (r: Option<Option<u32>>)
    ensures
        r == opt_wire_u32_of(*j, k@),
{
    match j.get(k) {
        None => Some(None),
        Some(Json::Null) => Some(None),
        Some(Json::Str(s)) => match parse_u32(s.as_str()) {
            Some(v) => Some(Some(v)),
            None => None,
        },
        _ => None,
    }
}

pub fn flag_field(j: &Json, k: &str) -> (r: Option<bool>)
    ensures
        r == flag_of(*j, k@),
{
    match j.get(k) {
        Some(Json::Str(s)) => parse_flag(s.as_str()),
        _ => None,
    }
}

fn parse_ordinal(s: &str) -> (r: Option<u8>)
    ensures
        r == ordinal_text(s@),
{
    if s.unicode_len() == 1 {
        let c = s.get_char(0);
        if c == '0' {
            assert(s@ =~= seq!['0']);
            return Some(0);
        } else if c == '1' {
            assert(s@ =~= seq!['1']);
            return Some(1);
        } else if c == '2' {
            assert(s@ =~= seq!['2']);
            return Some(2);
        }
    }
    assert(ordinal_text(s@) is None) by {
        if s@.len() == 1 {
            assert(seq!['0'][0] == '0' && seq!['1'][0] == '1' && seq!['2'][0] == '2');
        }
    }
    None
}

pub fn ordinal_field(j: &Json, k: &str) -> (r: Option<u8>)
    ensures
        r == ordinal_of(*j, k@),
{
    match j.get(k) {
        Some(Json::Str(s)) => parse_ordinal(s.as_str()),
        _ => None,
    }
}

pub fn num_field(j: &Json, k: &str) -> (r: Option<u64>)
    ensures
        r == num_of(*j, k@),
{
    match j.get(k) {
        Some(Json::Number(JsonNumber::Unsigned(n))) => Some(*n),
        _ => None,
    }
}

pub fn num_u32_field(j: &Json, k: &str) -> (r: Option<u32>)
    ensures
        r == num_u32_of(*j, k@),
{
    match num_field(j, k) {
        Some(n) => if n <= u32::MAX as u64 {
            Some(n as u32)
        } else {
            None
        },
        None => None,
    }
}

pub fn num_u16_field(j: &Json, k: &str) -> (r: Option<u16>)
    ensures
        r == num_u16_of(*j, k@),
{
    match num_field(j, k) {
        Some(n) => if n <= u16::MAX as u64 {
            Some(n as u16)
        } else {
            None
        },
        None => None,
    }
}

pub fn opt_num_field(j: &Json, k: &str) -> (r: Option<Option<u64>>)
    ensures
        r == opt_num_of(*j, k@),
{
    match j.get(k) {
        None => Some(None),
        Some(Json::Null) => Some(None),
        Some(Json::Number(JsonNumber::Unsigned(n))) => Some(Some(*n)),
        _ => None,
    }
}

/// Reads an optional member holding a value of type `V`; the outer `None`
/// means that the member holds something else.
pub fn opt_obj_field<V: Decode>(j: &Json, k: &str) -> (r: Option<Option<V>>)
    ensures
        r is Some <==> opt_obj_decodes::<V>(*j, k@),
        r matches Some(x) ==> opt_obj_decoded(*j, k@, x),
{
    match j.get(k) {
        None => Some(None),
        Some(Json::Null) => Some(None),
        Some(v) => match V::decode(v) {
            Some(d) => Some(Some(d)),
            None => None,
        },
    }
}

/// Reads an object whose members all hold values of type `V`, keyed by
/// member name.
pub fn decode_map<V: Decode>(fs: &Vec<(String, Json)>) -> (r: Option<IdMap<V>>)
    ensures
        r is Some <==> map_decodes::<V>(fs@),
        r matches Some(m) ==> map_decoded(fs@, m),
{
    let mut m: IdMap<V> = IdMap::new();
    let mut i: usize = 0;
    while i < fs.len()
        invariant
            i <= fs@.len(),
            m.wf(),
            forall|t: int| 0 <= t < i ==> V::decodes(#[trigger] fs@[t].1),
            forall|k: Seq<char>|
                #[trigger] m@.contains_key(k) <==> lookup(fs@.subrange(0, i as int), k) is Some,
            forall|k: Seq<char>|
                #[trigger] m@.contains_key(k) ==> m@[k].decoded_from(
                    lookup(fs@.subrange(0, i as int), k)->0,
                ),
        decreases fs@.len() - i,
    {
        let ghost pre = fs@.subrange(0, i as int);
        let ghost next = fs@.subrange(0, i + 1);
        assert(next.drop_last() =~= pre);
        assert(next.last() == fs@[i as int]);
        match V::decode(&fs[i].1) {
            Some(v) => {
                let ghost old_m = m@;
                m.insert(fs[i].0.clone(), v);
                assert forall|k: Seq<char>| #[trigger]
                    m@.contains_key(k) <==> lookup(next, k) is Some by {
                    if k != fs@[i as int].0@ {
                        assert(m@.contains_key(k) == old_m.contains_key(k));
                    }
                }
                assert forall|k: Seq<char>| #[trigger] m@.contains_key(k) implies m@[k].decoded_from(
                    lookup(next, k)->0,
                ) by {
                    if k != fs@[i as int].0@ {
                        assert(old_m.contains_key(k));
                    }
                }
            },
            None => {
                return None;
            },
        }
        i = i + 1;
    }
    assert(fs@.subrange(0, fs@.len() as int) =~= fs@);
    Some(m)
}

/// Reads an optional member holding an object of values of type `V`.
pub fn opt_map_field<V: Decode>(j: &Json, k: &str) -> (r: Option<Option<IdMap<V>>>)
    ensures
        r is Some <==> opt_map_decodes::<V>(*j, k@),
        r matches Some(x) ==> opt_map_decoded(*j, k@, x),
{
    match j.get(k) {
        None => Some(None),
        Some(Json::Null) => Some(None),
        Some(Json::Object(fs)) => match decode_map::<V>(fs) {
            Some(m) => Some(Some(m)),
            None => None,
        },
        _ => None,
    }
}

} // verus!
