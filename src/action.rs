//! The mutations that the "send" endpoint takes, and its request body.
use vstd::prelude::*;
use crate::json::{Json, JsonNumber};
use crate::model::ItemId;
use crate::payload::{object_holds, push_member, text_value, texts_value, WireValue};

verus! {

/// One mutation of a batch. Each carries the UNIX time it was made at, given
/// by the caller.
#[derive(Clone, Debug, PartialEq)]
pub enum Action {
    Add { url: String, time: u64 },
    Archive { item_id: ItemId, time: u64 },
    Readd { item_id: ItemId, time: u64 },
    Favorite { item_id: ItemId, time: u64 },
    Unfavorite { item_id: ItemId, time: u64 },
    Delete { item_id: ItemId, time: u64 },
    TagsAdd { item_id: ItemId, tags: Vec<String>, time: u64 },
    TagsReplace { item_id: ItemId, tags: Vec<String>, time: u64 },
    TagsRemove { item_id: ItemId, tags: Vec<String>, time: u64 },
}

/// The name an action is sent under: the variant's name in lower case.
pub open spec fn action_name(a: Action) -> Seq<char> {
    match a {
        Action::Add { .. } => "add"@,
        Action::Archive { .. } => "archive"@,
        Action::Readd { .. } => "readd"@,
        Action::Favorite { .. } => "favorite"@,
        Action::Unfavorite { .. } => "unfavorite"@,
        Action::Delete { .. } => "delete"@,
        Action::TagsAdd { .. } => "tagsadd"@,
        Action::TagsReplace { .. } => "tagsreplace"@,
        Action::TagsRemove { .. } => "tagsremove"@,
    }
}

pub open spec fn texts_of(ts: Vec<String>) -> Seq<Seq<char>> {
    ts@.map_values(|t: String| t@)
}

/// The members of an action's object, in order: its name, then its fields.
pub open spec fn action_members(a: Action) -> Seq<(Seq<char>, WireValue)> {
    let head = seq![("action"@, WireValue::Text(action_name(a)))];
    match a {
        Action::Add { url, time } => head + seq![
            ("url"@, WireValue::Text(url@)),
            ("time"@, WireValue::Number(time)),
        ],
        Action::Archive { item_id, time }
        | Action::Readd { item_id, time }
        | Action::Favorite { item_id, time }
        | Action::Unfavorite { item_id, time }
        | Action::Delete { item_id, time } => head + seq![
            ("item_id"@, WireValue::Text(item_id@)),
            ("time"@, WireValue::Number(time)),
        ],
        Action::TagsAdd { item_id, tags, time }
        | Action::TagsReplace { item_id, tags, time }
        | Action::TagsRemove { item_id, tags, time } => head + seq![
            ("item_id"@, WireValue::Text(item_id@)),
            ("tags"@, WireValue::Texts(texts_of(tags))),
            ("time"@, WireValue::Number(time)),
        ],
    }
}

impl Action {
    fn name(&self) -> (r: &'static str)
        ensures
            r@ == action_name(*self),
    {
        match self {
            Action::Add { .. } => "add",
            Action::Archive { .. } => "archive",
            Action::Readd { .. } => "readd",
            Action::Favorite { .. } => "favorite",
            Action::Unfavorite { .. } => "unfavorite",
            Action::Delete { .. } => "delete",
            Action::TagsAdd { .. } => "tagsadd",
            Action::TagsReplace { .. } => "tagsreplace",
            Action::TagsRemove { .. } => "tagsremove",
        }
    }

    /// The action as the object the "send" endpoint takes.
    pub fn to_json(&self) -> (r: Json)
        ensures
            object_holds(r, action_members(*self)),
    {
        let mut fs: Vec<(String, Json)> = Vec::new();
        let ghost head = seq![("action"@, WireValue::Text(action_name(*self)))];
        let ghost empty: Seq<(Seq<char>, WireValue)> = seq![];
        push_member(
            &mut fs,
            "action",
            text_value(self.name()),
            Ghost(empty),
            Ghost(WireValue::Text(action_name(*self))),
        );
        assert(empty.push(("action"@, WireValue::Text(action_name(*self)))) =~= head);
        match self {
            Action::Add { url, time } => {
                push_member(
                    &mut fs,
                    "url",
                    text_value(url.as_str()),
                    Ghost(head),
                    Ghost(WireValue::Text(url@)),
                );
                let ghost h2 = head.push(("url"@, WireValue::Text(url@)));
                push_member(
                    &mut fs,
                    "time",
                    Json::Number(JsonNumber::Unsigned(*time)),
                    Ghost(h2),
                    Ghost(WireValue::Number(*time)),
                );
                assert(h2.push(("time"@, WireValue::Number(*time))) =~= action_members(*self));
            },
            Action::Archive { item_id, time }
            | Action::Readd { item_id, time }
            | Action::Favorite { item_id, time }
            | Action::Unfavorite { item_id, time }
            | Action::Delete { item_id, time } => {
                push_member(
                    &mut fs,
                    "item_id",
                    text_value(item_id.as_str()),
                    Ghost(head),
                    Ghost(WireValue::Text(item_id@)),
                );
                let ghost h2 = head.push(("item_id"@, WireValue::Text(item_id@)));
                push_member(
                    &mut fs,
                    "time",
                    Json::Number(JsonNumber::Unsigned(*time)),
                    Ghost(h2),
                    Ghost(WireValue::Number(*time)),
                );
                assert(h2.push(("time"@, WireValue::Number(*time))) =~= action_members(*self));
            },
            Action::TagsAdd { item_id, tags, time }
            | Action::TagsReplace { item_id, tags, time }
            | Action::TagsRemove { item_id, tags, time } => {
                push_member(
                    &mut fs,
                    "item_id",
                    text_value(item_id.as_str()),
                    Ghost(head),
                    Ghost(WireValue::Text(item_id@)),
                );
                let ghost h2 = head.push(("item_id"@, WireValue::Text(item_id@)));
                push_member(
                    &mut fs,
                    "tags",
                    texts_value(tags),
                    Ghost(h2),
                    Ghost(WireValue::Texts(texts_of(*tags))),
                );
                let ghost h3 = h2.push(("tags"@, WireValue::Texts(texts_of(*tags))));
                push_member(
                    &mut fs,
                    "time",
                    Json::Number(JsonNumber::Unsigned(*time)),
                    Ghost(h3),
                    Ghost(WireValue::Number(*time)),
                );
                assert(h3.push(("time"@, WireValue::Number(*time))) =~= action_members(*self));
            },
        }
        Json::Object(fs)
    }
}

/// The body of a "send" request: one member `actions`, an array holding each
/// action's object in the order given.
pub open spec fn batch_holds(j: Json, actions: Seq<Action>) -> bool {
    &&& j matches Json::Object(fs)
    &&& fs@.len() == 1
    &&& fs@[0].0@ == "actions"@
    &&& fs@[0].1 matches Json::Array(a)
    &&& a@.len() == actions.len()
    &&& forall|i: int|
        0 <= i < actions.len() ==> object_holds(#[trigger] a@[i], action_members(actions[i]))
}

/// The body of a "send" request for `actions`.
pub fn modify_payload(actions: &Vec<Action>) -> (r: Json)
    ensures
        batch_holds(r, actions@),
{
    let mut a: Vec<Json> = Vec::new();
    let mut i: usize = 0;
    while i < actions.len()
        invariant
            i <= actions@.len(),
            a@.len() == i,
            forall|t: int| 0 <= t < i ==> object_holds(#[trigger] a@[t], action_members(actions@[t])),
        decreases actions@.len() - i,
    {
        a.push(actions[i].to_json());
        i = i + 1;
    }
    let mut fs: Vec<(String, Json)> = Vec::new();
    fs.push(("actions".to_string(), Json::Array(a)));
    Json::Object(fs)
}

/// The credentials that every request carries: the application's consumer
/// key and the user's access token.
pub open spec fn auth_members(consumer_key: Seq<char>, access_token: Seq<char>) -> Seq<
    (Seq<char>, WireValue),
> {
    seq![
        ("consumer_key"@, WireValue::Text(consumer_key)),
        ("access_token"@, WireValue::Text(access_token)),
    ]
}

/// The object of credentials that is merged into every request body.
pub fn auth_payload(consumer_key: &str, access_token: &str) -> (r: Json)
    ensures
        object_holds(r, auth_members(consumer_key@, access_token@)),
{
    let mut fs: Vec<(String, Json)> = Vec::new();
    let ghost empty: Seq<(Seq<char>, WireValue)> = seq![];
    push_member(
        &mut fs,
        "consumer_key",
        text_value(consumer_key),
        Ghost(empty),
        Ghost(WireValue::Text(consumer_key@)),
    );
    let ghost one = empty.push(("consumer_key"@, WireValue::Text(consumer_key@)));
    push_member(
        &mut fs,
        "access_token",
        text_value(access_token),
        Ghost(one),
        Ghost(WireValue::Text(access_token@)),
    );
    assert(one.push(("access_token"@, WireValue::Text(access_token@))) =~= auth_members(
        consumer_key@,
        access_token@,
    ));
    Json::Object(fs)
}

/// The kinds of action that take only an item.
#[derive(Clone, Copy, Debug, PartialEq, Eq, Structural)]
pub enum ItemAction {
    Archive,
    Readd,
    Favorite,
    Unfavorite,
    Delete,
}

/// `a` is the action of kind `kind` on the item `id`, made at `time`.
pub open spec fn is_item_action(a: Action, kind: ItemAction, id: Seq<char>, time: u64) -> bool {
    match kind {
        ItemAction::Archive => a matches Action::Archive { item_id, time: t } && item_id@ == id && t == time,
        ItemAction::Readd => a matches Action::Readd { item_id, time: t } && item_id@ == id && t == time,
        ItemAction::Favorite => a matches Action::Favorite { item_id, time: t } && item_id@ == id && t == time,
        ItemAction::Unfavorite => a matches Action::Unfavorite { item_id, time: t } && item_id@ == id && t == time,
        ItemAction::Delete => a matches Action::Delete { item_id, time: t } && item_id@ == id && t == time,
    }
}

/// One action of kind `kind` per item id, in order, each made at `time`.
pub fn item_actions(kind: ItemAction, item_ids: &Vec<ItemId>, time: u64) -> (r: Vec<Action>)
    ensures
        r@.len() == item_ids@.len(),
        forall|i: int| 0 <= i < r@.len() ==> is_item_action(#[trigger] r@[i], kind, item_ids@[i]@, time),
{
    let mut r: Vec<Action> = Vec::new();
    let mut i: usize = 0;
    while i < item_ids.len()
        invariant
            i <= item_ids@.len(),
            r@.len() == i,
            forall|t: int| 0 <= t < i ==> is_item_action(#[trigger] r@[t], kind, item_ids@[t]@, time),
        decreases item_ids@.len() - i,
    {
        let item_id = item_ids[i].clone();
        let a = match kind {
            ItemAction::Archive => Action::Archive { item_id, time },
            ItemAction::Readd => Action::Readd { item_id, time },
            ItemAction::Favorite => Action::Favorite { item_id, time },
            ItemAction::Unfavorite => Action::Unfavorite { item_id, time },
            ItemAction::Delete => Action::Delete { item_id, time },
        };
        r.push(a);
        i = i + 1;
    }
    r
}

/// One `Add` action per URL, in order, each made at `time`.
pub fn add_actions(urls: &Vec<String>, time: u64) -> (r: Vec<Action>)
    ensures
        r@.len() == urls@.len(),
        forall|i: int|
            0 <= i < r@.len() ==> (#[trigger] r@[i] matches Action::Add { url, time: t } && url@
                == urls@[i]@ && t == time),
{
    let mut r: Vec<Action> = Vec::new();
    let mut i: usize = 0;
    while i < urls.len()
        invariant
            i <= urls@.len(),
            r@.len() == i,
            forall|t: int|
                0 <= t < i ==> (#[trigger] r@[t] matches Action::Add { url, time: tt } && url@
                    == urls@[t]@ && tt == time),
        decreases urls@.len() - i,
    {
        r.push(Action::Add { url: urls[i].clone(), time });
        i = i + 1;
    }
    r
}

} // verus!
