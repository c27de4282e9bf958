//! Reading the responses of the "get" and "send" endpoints.
use vstd::prelude::*;
use crate::id_map::IdMap;
use crate::action::{action_members, batch_holds, Action};
use crate::json::{json_of_text, lookup, member, read_json, Json};
use crate::payload::object_holds;
use crate::model::{ItemOrDeletedItem, ModifiedItem};
use crate::wire::{decode_map, map_decodes, map_decoded, num_u16_field, num_u16_of, text_field, text_of, Decode};

verus! {

/// A user's saved entries, keyed by item id.
pub type ReadingList = IdMap<ItemOrDeletedItem>;

/// Why a response could not be read.
#[derive(Debug)]
pub enum DecodeError {
    /// The body is not JSON.
    Malformed(serde_json::Error),
    /// The body is JSON, but not of the shape the endpoint sends.
    UnexpectedShape,
    /// A batch response does not hold one result and one error slot per
    /// submitted action.
    LengthMismatch,
    /// A batch response reports the action at `index` as failed and, at the
    /// same time, as done.
    Contradiction { index: usize },
}

/// What a page of the "get" endpoint holds.
#[derive(Debug)]
pub enum ResponseState {
    /// A page of entries; it may be empty.
    Parsed(ReadingList),
    /// The end of the list: the service sends `list` as an empty array.
    NoMore,
}

/// The members of the `list` object of a page.
pub open spec fn list_members(j: Json) -> Option<Seq<(String, Json)>> {
    match member(j, "list"@) {
        Some(Json::Object(fs)) => Some(fs@),
        _ => None,
    }
}

/// `j` is a page: its `list` is an object of entries.
pub open spec fn page_decodes(j: Json) -> bool {
    list_members(j) matches Some(fs) && map_decodes::<ItemOrDeletedItem>(fs)
}

/// `j` signals the end of the list: its `list` is an empty array.
pub open spec fn signals_no_more(j: Json) -> bool {
    member(j, "list"@) matches Some(Json::Array(a)) && a@.len() == 0
}

/// What a "get" response document means: a page, the end of the list, or
/// neither.
pub open spec fn classified(j: Json, r: Result<ResponseState, DecodeError>) -> bool {
    if page_decodes(j) {
        r matches Ok(ResponseState::Parsed(l)) && map_decoded(list_members(j)->0, l)
    } else if signals_no_more(j) {
        r matches Ok(ResponseState::NoMore)
    } else {
        r matches Err(DecodeError::UnexpectedShape)
    }
}

/// Classifies a "get" response document. A `list` object is a page; only
/// where it is not, an empty `list` array ends the list.
pub fn classify_get_response(j: &Json) -> (r: Result<ResponseState, DecodeError>)
    ensures
        classified(*j, r),
{
    match j.get("list") {
        Some(Json::Object(fs)) => match decode_map::<ItemOrDeletedItem>(fs) {
            Some(l) => Ok(ResponseState::Parsed(l)),
            None => Err(DecodeError::UnexpectedShape),
        },
        Some(Json::Array(a)) => if a.len() == 0 {
            Ok(ResponseState::NoMore)
        } else {
            Err(DecodeError::UnexpectedShape)
        },
        _ => Err(DecodeError::UnexpectedShape),
    }
}

/// A `list` object without members is a page, and it holds no entries: it
/// does not end the list.
pub proof fn lemma_empty_list_object_is_empty_page(j: Json, r: Result<ResponseState, DecodeError>)
    requires
        member(j, "list"@) matches Some(Json::Object(fs)) && fs@.len() == 0,
        classified(j, r),
    ensures
        r matches Ok(ResponseState::Parsed(l)) && l@ == Map::<Seq<char>, ItemOrDeletedItem>::empty(),
{
    assert(page_decodes(j));
    if let Ok(ResponseState::Parsed(l)) = r {
        assert(l@ =~= Map::<Seq<char>, ItemOrDeletedItem>::empty()) by {
            assert forall|k: Seq<char>| !l@.contains_key(k) by {
                assert(lookup(list_members(j)->0, k) is None);
            }
        }
    }
}

/// A `list` that is an empty array ends the list.
pub proof fn lemma_empty_list_array_ends_list(j: Json, r: Result<ResponseState, DecodeError>)
    requires
        member(j, "list"@) matches Some(Json::Array(a)) && a@.len() == 0,
        classified(j, r),
    ensures
        r matches Ok(ResponseState::NoMore),
{
}

/// The entries of a page; the end of the list holds none.
pub fn page_entries(state: ResponseState) -> (r: ReadingList)
    requires
        state matches ResponseState::Parsed(l) ==> l.wf(),
    ensures
        r.wf(),
        state matches ResponseState::Parsed(l) ==> r@ == l@,
        state is NoMore ==> r@ == Map::<Seq<char>, ItemOrDeletedItem>::empty(),
{
    match state {
        ResponseState::Parsed(l) => l,
        ResponseState::NoMore => IdMap::new(),
    }
}

/// Reads the body of a "get" response.
pub fn parse_get_response_body(response: &str) -> (r: Result<ResponseState, DecodeError>)
    ensures
        json_of_text(response@) is None ==> r matches Err(DecodeError::Malformed(_)),
        json_of_text(response@) matches Some(j) ==> classified(j, r),
{
    match read_json(response) {
        Ok(j) => classify_get_response(&j),
        Err(e) => Err(DecodeError::Malformed(e)),
    }
}

/// Why the service refused one action of a batch.
#[derive(Debug, Clone, PartialEq)]
pub struct ActionError {
    pub code: u16,
    pub message: String,
    /// Sent as member `type`.
    pub error_type: String,
}

impl Decode for ActionError {
    open spec fn decodes(j: Json) -> bool {
        &&& num_u16_of(j, "code"@) is Some
        &&& text_of(j, "message"@) is Some
        &&& text_of(j, "type"@) is Some
    }

    open spec fn decoded_from(&self, j: Json) -> bool {
        &&& num_u16_of(j, "code"@) == Some(self.code)
        &&& text_of(j, "message"@) == Some(self.message@)
        &&& text_of(j, "type"@) == Some(self.error_type@)
    }

    fn decode(j: &Json) -> (r: Option<Self>) {
        let code = num_u16_field(j, "code")?;
        let message = text_field(j, "message")?;
        let error_type = text_field(j, "type")?;
        Some(ActionError { code, message, error_type })
    }
}

/// The result slot of one action: the item for an add or re-add, `true` or
/// `false` for the others.
#[derive(Debug, Clone, PartialEq)]
pub enum ModifiedItemOrBool {
    ModifiedItem(ModifiedItem),
    Bool(bool),
}

impl Decode for ModifiedItemOrBool {
    open spec fn decodes(j: Json) -> bool {
        ModifiedItem::decodes(j) || j is Bool
    }

    open spec fn decoded_from(&self, j: Json) -> bool {
        if ModifiedItem::decodes(j) {
            self matches ModifiedItemOrBool::ModifiedItem(m) && m.decoded_from(j)
        } else {
            j matches Json::Bool(b) && *self == ModifiedItemOrBool::Bool(b)
        }
    }

    fn decode(j: &Json) -> (r: Option<Self>) {
        match ModifiedItem::decode(j) {
            Some(m) => Some(ModifiedItemOrBool::ModifiedItem(m)),
            None => match j {
                Json::Bool(b) => Some(ModifiedItemOrBool::Bool(*b)),
                _ => None,
            },
        }
    }
}

/// An error slot: `null`, or the reason an action failed.
impl<V: Decode> Decode for Option<V> {
    open spec fn decodes(j: Json) -> bool {
        j is Null || V::decodes(j)
    }

    open spec fn decoded_from(&self, j: Json) -> bool {
        if j is Null {
            self is None
        } else {
            self matches Some(v) && v.decoded_from(j)
        }
    }

    fn decode(j: &Json) -> (r: Option<Self>) {
        match j {
            Json::Null => Some(None),
            _ => match V::decode(j) {
                Some(v) => Some(Some(v)),
                None => None,
            },
        }
    }
}

pub open spec fn array_decodes<V: Decode>(a: Seq<Json>) -> bool {
    forall|i: int| 0 <= i < a.len() ==> V::decodes(#[trigger] a[i])
}

pub open spec fn array_decoded<V: Decode>(a: Seq<Json>, v: Seq<V>) -> bool {
    v.len() == a.len() && forall|i: int| 0 <= i < a.len() ==> (#[trigger] v[i]).decoded_from(a[i])
}

/// Reads an array whose elements all hold values of type `V`.
pub fn decode_array<V: Decode>(a: &Vec<Json>) -> (r: Option<Vec<V>>)
    ensures
        r is Some <==> array_decodes::<V>(a@),
        r matches Some(v) ==> array_decoded(a@, v@),
{
    let mut out: Vec<V> = Vec::new();
    let mut i: usize = 0;
    while i < a.len()
        invariant
            i <= a@.len(),
            out@.len() == i,
            forall|t: int| 0 <= t < i ==> V::decodes(#[trigger] a@[t]),
            forall|t: int| 0 <= t < i ==> (#[trigger] out@[t]).decoded_from(a@[t]),
        decreases a@.len() - i,
    {
        match V::decode(&a[i]) {
            Some(x) => out.push(x),
            None => return None,
        }
        i = i + 1;
    }
    Some(out)
}

/// The body of a "send" response: per action, in order, an error slot and a
/// result slot.
#[derive(Debug, Clone, PartialEq)]
pub struct ModifyResponseInner {
    pub action_errors: Vec<Option<ActionError>>,
    pub action_results: Vec<ModifiedItemOrBool>,
}

impl Decode for ModifyResponseInner {
    open spec fn decodes(j: Json) -> bool {
        &&& member(j, "action_errors"@) matches Some(Json::Array(es)) && array_decodes::<
            Option<ActionError>,
        >(es@)
        &&& member(j, "action_results"@) matches Some(Json::Array(rs))
            && array_decodes::<ModifiedItemOrBool>(rs@)
    }

    open spec fn decoded_from(&self, j: Json) -> bool {
        &&& member(j, "action_errors"@) matches Some(Json::Array(es)) && array_decoded(
            es@,
            self.action_errors@,
        )
        &&& member(j, "action_results"@) matches Some(Json::Array(rs)) && array_decoded(
            rs@,
            self.action_results@,
        )
    }

    fn decode(j: &Json) -> (r: Option<Self>) {
        let action_errors = match j.get("action_errors") {
            Some(Json::Array(es)) => decode_array::<Option<ActionError>>(es)?,
            _ => return None,
        };
        let action_results = match j.get("action_results") {
            Some(Json::Array(rs)) => decode_array::<ModifiedItemOrBool>(rs)?,
            _ => return None,
        };
        Some(ModifyResponseInner { action_errors, action_results })
    }
}

/// Reads the body of a "send" response.
pub fn parse_send_response_body(response: &str) -> (r: Result<ModifyResponseInner, DecodeError>)
    ensures
        json_of_text(response@) is None ==> r matches Err(DecodeError::Malformed(_)),
        json_of_text(response@) matches Some(j) ==> {
            &&& r is Ok <==> ModifyResponseInner::decodes(j)
            &&& r matches Ok(m) ==> m.decoded_from(j)
            &&& !ModifyResponseInner::decodes(j) ==> r matches Err(DecodeError::UnexpectedShape)
        },
{
    match read_json(response) {
        Ok(j) => match ModifyResponseInner::decode(&j) {
            Some(m) => Ok(m),
            None => Err(DecodeError::UnexpectedShape),
        },
        Err(e) => Err(DecodeError::Malformed(e)),
    }
}

/// One outcome per submitted action, in the order the actions were given.
pub type ModifyResponse = Vec<Result<Option<ModifiedItem>, ActionError>>;

/// An action reported as failed whose result slot says it was done.
pub open spec fn contradicts(res: ModifiedItemOrBool, err: Option<ActionError>) -> bool {
    err is Some && (res is ModifiedItem || res == ModifiedItemOrBool::Bool(true))
}

/// The outcome of one action: its error where there is one, else its item
/// where the service sent one.
pub open spec fn outcome_of(res: ModifiedItemOrBool, err: Option<ActionError>) -> Result<
    Option<ModifiedItem>,
    ActionError,
> {
    match err {
        Some(e) => Err(e),
        None => match res {
            ModifiedItemOrBool::ModifiedItem(m) => Ok(Some(m)),
            ModifiedItemOrBool::Bool(_) => Ok(None),
        },
    }
}

/// What a batch response says of `n` submitted actions.
pub open spec fn zipped(
    m: ModifyResponseInner,
    n: nat,
    r: Result<ModifyResponse, DecodeError>,
) -> bool {
    let rs = m.action_results@;
    let es = m.action_errors@;
    if rs.len() != n || es.len() != n {
        r matches Err(DecodeError::LengthMismatch)
    } else if exists|i: int| 0 <= i < n && contradicts(#[trigger] rs[i], es[i]) {
        r matches Err(DecodeError::Contradiction { index }) && index < n && contradicts(
            rs[index as int],
            es[index as int],
        ) && forall|i: int| 0 <= i < index ==> !contradicts(#[trigger] rs[i], es[i])
    } else {
        r matches Ok(v) && v@.len() == n && forall|i: int|
            0 <= i < n ==> #[trigger] v@[i] == outcome_of(rs[i], es[i])
    }
}

/// Pairs the result and error slots of a batch response into one outcome
/// per action, in order, for a batch of `n` actions.
pub fn zip_outcomes(m: ModifyResponseInner, n: usize) -> (r: Result<ModifyResponse, DecodeError>)
    ensures
        zipped(m, n as nat, r),
{
    let ghost rs0 = m.action_results@;
    let ghost es0 = m.action_errors@;
    if m.action_results.len() != n || m.action_errors.len() != n {
        return Err(DecodeError::LengthMismatch);
    }
    let ModifyResponseInner { action_errors: mut errors, action_results: mut results } = m;
    let mut out: ModifyResponse = Vec::new();
    let mut i: usize = 0;
    while i < n
        invariant
            i <= n,
            rs0 == m.action_results@,
            es0 == m.action_errors@,
            rs0.len() == n,
            es0.len() == n,
            results@ == rs0.subrange(i as int, n as int),
            errors@ == es0.subrange(i as int, n as int),
            out@.len() == i,
            forall|t: int| 0 <= t < i ==> !contradicts(#[trigger] rs0[t], es0[t]),
            forall|t: int| 0 <= t < i ==> #[trigger] out@[t] == outcome_of(rs0[t], es0[t]),
        decreases n - i,
    {
        let res = results.remove(0);
        let err = errors.remove(0);
        assert(res == rs0[i as int] && err == es0[i as int]);
        assert(results@ =~= rs0.subrange(i + 1, n as int));
        assert(errors@ =~= es0.subrange(i + 1, n as int));
        let conflict = match &err {
            Some(_) => match &res {
                ModifiedItemOrBool::ModifiedItem(_) => true,
                ModifiedItemOrBool::Bool(b) => *b,
            },
            None => false,
        };
        if conflict {
            assert(contradicts(rs0[i as int], es0[i as int]));
            return Err(DecodeError::Contradiction { index: i });
        }
        let outcome = match err {
            Some(e) => Err(e),
            None => match res {
                ModifiedItemOrBool::ModifiedItem(item) => Ok(Some(item)),
                ModifiedItemOrBool::Bool(_) => Ok(None),
            },
        };
        out.push(outcome);
        i = i + 1;
    }
    assert(!exists|t: int| 0 <= t < n && contradicts(#[trigger] rs0[t], es0[t]));
    Ok(out)
}

/// The outcomes of a batch come in the order of its actions: the `i`-th
/// object sent describes the `i`-th action, and the `i`-th outcome is read
/// from the `i`-th result and error slots.
pub proof fn lemma_outcomes_follow_action_order(
    payload: Json,
    actions: Seq<Action>,
    m: ModifyResponseInner,
    r: Result<ModifyResponse, DecodeError>,
)
    requires
        batch_holds(payload, actions),
        zipped(m, actions.len(), r),
        r is Ok,
    ensures
        payload matches Json::Object(fs) && fs@[0].1 matches Json::Array(sent) && r matches Ok(v)
            && sent@.len() == actions.len() && v@.len() == actions.len() && forall|i: int|
            0 <= i < actions.len() ==> object_holds(#[trigger] sent@[i], action_members(actions[i]))
                && v@[i] == outcome_of(m.action_results@[i], m.action_errors@[i]),
{
}

} // verus!
