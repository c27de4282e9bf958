//! The filters, sorting and paging of a request to the "get" endpoint.
use vstd::prelude::*;
use crate::json::{Json, JsonNumber};
use crate::model::FavoriteStatus;
use crate::payload::{members_hold, object_holds, push_member, text_value, WireValue};

verus! {

/// Which items to return by read state.
#[derive(Clone, Copy, Debug, PartialEq, Eq, Structural)]
pub enum State {
    /// Only unread items (the default).
    Unread,
    /// Only archived items.
    Archive,
    /// Both unread and archived items.
    All,
}

impl Default for State {
    fn default() -> (r: Self)
        ensures
            r == State::Unread,
    {
        State::Unread
    }
}

/// Filter by tag.
#[derive(Clone, Debug, PartialEq)]
pub enum TagFilter {
    /// Only items tagged with this name.
    TagName(String),
    /// Only untagged items.
    Untagged,
}

/// Filter by kind of content.
#[derive(Clone, Copy, Debug, PartialEq, Eq, Structural)]
pub enum ContentType {
    /// Only articles.
    Article,
    /// Only videos, or articles with embedded videos.
    Video,
    /// Only images.
    Image,
}

/// The order of the returned items.
#[derive(Clone, Copy, Debug, PartialEq, Eq, Structural)]
pub enum Sort {
    /// Newest first.
    Newest,
    /// Oldest first.
    Oldest,
    /// By title.
    Title,
    /// By URL.
    Site,
}

/// How much of each item to return.
#[derive(Clone, Copy, Debug, PartialEq, Eq, Structural)]
pub enum DetailType {
    /// Title, URL, status and the like.
    Simple,
    /// Everything, tags, images, authors and videos included.
    Complete,
}

pub open spec fn state_name(s: State) -> Seq<char> {
    match s {
        State::Unread => "unread"@,
        State::Archive => "archive"@,
        State::All => "all"@,
    }
}

pub open spec fn favorite_name(f: FavoriteStatus) -> Seq<char> {
    match f {
        FavoriteStatus::NotFavorited => "0"@,
        FavoriteStatus::Favorited => "1"@,
    }
}

/// A named tag is sent as its name; the untagged filter as a fixed word.
pub open spec fn tag_name(t: TagFilter) -> Seq<char> {
    match t {
        TagFilter::TagName(s) => s@,
        TagFilter::Untagged => "_untagged_"@,
    }
}

pub open spec fn content_type_name(c: ContentType) -> Seq<char> {
    match c {
        ContentType::Article => "article"@,
        ContentType::Video => "video"@,
        ContentType::Image => "image"@,
    }
}

pub open spec fn sort_name(s: Sort) -> Seq<char> {
    match s {
        Sort::Newest => "newest"@,
        Sort::Oldest => "oldest"@,
        Sort::Title => "title"@,
        Sort::Site => "site"@,
    }
}

pub open spec fn detail_type_name(d: DetailType) -> Seq<char> {
    match d {
        DetailType::Simple => "simple"@,
        DetailType::Complete => "complete"@,
    }
}

/// The member `k` with text `v`, or no member where `v` is absent.
pub open spec fn text_member(k: Seq<char>, v: Option<Seq<char>>) -> Seq<(Seq<char>, WireValue)> {
    match v {
        Some(t) => seq![(k, WireValue::Text(t))],
        None => seq![],
    }
}

/// The member `k` with number `v`, or no member where `v` is absent.
pub open spec fn number_member(k: Seq<char>, v: Option<u64>) -> Seq<(Seq<char>, WireValue)> {
    match v {
        Some(n) => seq![(k, WireValue::Number(n))],
        None => seq![],
    }
}

/// A request to the "get" endpoint; every filter is optional, and an absent
/// one is left out of the request so that the service's default applies.
#[derive(Clone, Debug, PartialEq)]
pub struct GetInput {
    /// Filter by unread or archived items.
    pub state: Option<State>,
    /// Filter by favorite status.
    pub favorite: Option<FavoriteStatus>,
    /// Filter by tag.
    pub tag: Option<TagFilter>,
    /// Filter by content type.
    pub content_type: Option<ContentType>,
    /// Sort order.
    pub sort: Option<Sort>,
    /// Basic or all information per item.
    pub detail_type: Option<DetailType>,
    /// Only items whose title or URL contain this text.
    pub search: Option<String>,
    /// Only items from this domain.
    pub domain: Option<String>,
    /// Only items modified since this UNIX time.
    pub since: Option<u64>,
    /// At most this many items.
    pub count: Option<u32>,
    /// With `count`: start at this position of the results.
    pub offset: Option<u32>,
}

impl Default for GetInput {
    fn default() -> (r: Self)
        ensures
            r.state is None,
            r.favorite is None,
            r.tag is None,
            r.content_type is None,
            r.sort is None,
            r.detail_type is None,
            r.search is None,
            r.domain is None,
            r.since is None,
            r.count is None,
            r.offset is None,
    {
        GetInput {
            state: None,
            favorite: None,
            tag: None,
            content_type: None,
            sort: None,
            detail_type: None,
            search: None,
            domain: None,
            since: None,
            count: None,
            offset: None,
        }
    }
}

/// The name of `v`, where it is present.
pub open spec fn opt_name<T>(v: Option<T>, name: spec_fn(T) -> Seq<char>) -> Option<Seq<char>> {
    match v {
        Some(x) => Some(name(x)),
        None => None,
    }
}

pub open spec fn opt_u32(v: Option<u32>) -> Option<u64> {
    match v {
        Some(n) => Some(n as u64),
        None => None,
    }
}

/// The members of the request body for `q`, in order; absent filters have
/// none.
pub open spec fn get_members(q: GetInput) -> Seq<(Seq<char>, WireValue)> {
    text_member("state"@, opt_name(q.state, |s: State| state_name(s)))
        + text_member("favorite"@, opt_name(q.favorite, |f: FavoriteStatus| favorite_name(f)))
        + text_member("tag"@, opt_name(q.tag, |t: TagFilter| tag_name(t)))
        + text_member("content_type"@, opt_name(q.content_type, |c: ContentType| content_type_name(c)))
        + text_member("sort"@, opt_name(q.sort, |s: Sort| sort_name(s)))
        + text_member("detailType"@, opt_name(q.detail_type, |d: DetailType| detail_type_name(d)))
        + text_member("search"@, opt_name(q.search, |s: String| s@))
        + text_member("domain"@, opt_name(q.domain, |s: String| s@))
        + number_member("since"@, q.since)
        + number_member("count"@, opt_u32(q.count))
        + number_member("offset"@, opt_u32(q.offset))
}

fn state_text(s: State) -> (r: &'static str)
    ensures
        r@ == state_name(s),
{
    match s {
        State::Unread => "unread",
        State::Archive => "archive",
        State::All => "all",
    }
}

fn favorite_text(f: FavoriteStatus) -> (r: &'static str)
    ensures
        r@ == favorite_name(f),
{
    match f {
        FavoriteStatus::NotFavorited => "0",
        FavoriteStatus::Favorited => "1",
    }
}

fn content_type_text(c: ContentType) -> (r: &'static str)
    ensures
        r@ == content_type_name(c),
{
    match c {
        ContentType::Article => "article",
        ContentType::Video => "video",
        ContentType::Image => "image",
    }
}

fn sort_text(s: Sort) -> (r: &'static str)
    ensures
        r@ == sort_name(s),
{
    match s {
        Sort::Newest => "newest",
        Sort::Oldest => "oldest",
        Sort::Title => "title",
        Sort::Site => "site",
    }
}

fn detail_type_text(d: DetailType) -> (r: &'static str)
    ensures
        r@ == detail_type_name(d),
{
    match d {
        DetailType::Simple => "simple",
        DetailType::Complete => "complete",
    }
}

/// Appends member `k` with text `v` where `v` is present.
fn push_opt_text(
    fs: &mut Vec<(String, Json)>,
    k: &str,
    v: Option<&str>,
    Ghost(ms): Ghost<Seq<(Seq<char>, WireValue)>>,
)
    requires
        members_hold(old(fs)@, ms),
    ensures
        members_hold(
            final(fs)@,
            ms + text_member(
                k@,
                match v {
                    Some(t) => Some(t@),
                    None => None,
                },
            ),
        ),
{
    match v {
        Some(t) => {
            push_member(fs, k, text_value(t), Ghost(ms), Ghost(WireValue::Text(t@)));
            assert(ms.push((k@, WireValue::Text(t@))) =~= ms + seq![(k@, WireValue::Text(t@))]);
        },
        None => {
            assert(ms + seq![] =~= ms);
        },
    }
}

/// Appends member `k` with number `v` where `v` is present.
fn push_opt_number(
    fs: &mut Vec<(String, Json)>,
    k: &str,
    v: Option<u64>,
    Ghost(ms): Ghost<Seq<(Seq<char>, WireValue)>>,
)
    requires
        members_hold(old(fs)@, ms),
    ensures
        members_hold(final(fs)@, ms + number_member(k@, v)),
{
    match v {
        Some(n) => {
            push_member(
                fs,
                k,
                Json::Number(JsonNumber::Unsigned(n)),
                Ghost(ms),
                Ghost(WireValue::Number(n)),
            );
            assert(ms.push((k@, WireValue::Number(n))) =~= ms + seq![(k@, WireValue::Number(n))]);
        },
        None => {
            assert(ms + seq![] =~= ms);
        },
    }
}

fn widen(v: Option<u32>) -> (r: Option<u64>)
    ensures
        r == opt_u32(v),
{
    match v {
        Some(n) => Some(n as u64),
        None => None,
    }
}

impl GetInput {
    /// The request body: one member per filter that is set, in a fixed order,
    /// each in the encoding the service expects.
    pub fn to_json(&self) -> (r: Json)
        ensures
            object_holds(r, get_members(*self)),
    {
        let mut fs: Vec<(String, Json)> = Vec::new();
        let ghost ms: Seq<(Seq<char>, WireValue)> = seq![];
        push_opt_text(
            &mut fs,
            "state",
            match self.state {
                Some(s) => Some(state_text(s)),
                None => None,
            },
            Ghost(ms),
        );
        proof {
            ms = ms + text_member("state"@, opt_name(self.state, |s: State| state_name(s)));
        }
        push_opt_text(
            &mut fs,
            "favorite",
            match self.favorite {
                Some(f) => Some(favorite_text(f)),
                None => None,
            },
            Ghost(ms),
        );
        proof {
            ms = ms + text_member(
                "favorite"@,
                opt_name(self.favorite, |f: FavoriteStatus| favorite_name(f)),
            );
        }
        push_opt_text(
            &mut fs,
            "tag",
            match &self.tag {
                Some(TagFilter::TagName(t)) => Some(t.as_str()),
                Some(TagFilter::Untagged) => Some("_untagged_"),
                None => None,
            },
            Ghost(ms),
        );
        proof {
            ms = ms + text_member("tag"@, opt_name(self.tag, |t: TagFilter| tag_name(t)));
        }
        push_opt_text(
            &mut fs,
            "content_type",
            match self.content_type {
                Some(c) => Some(content_type_text(c)),
                None => None,
            },
            Ghost(ms),
        );
        proof {
            ms = ms + text_member(
                "content_type"@,
                opt_name(self.content_type, |c: ContentType| content_type_name(c)),
            );
        }
        push_opt_text(
            &mut fs,
            "sort",
            match self.sort {
                Some(s) => Some(sort_text(s)),
                None => None,
            },
            Ghost(ms),
        );
        proof {
            ms = ms + text_member("sort"@, opt_name(self.sort, |s: Sort| sort_name(s)));
        }
        push_opt_text(
            &mut fs,
            "detailType",
            match self.detail_type {
                Some(d) => Some(detail_type_text(d)),
                None => None,
            },
            Ghost(ms),
        );
        proof {
            ms = ms + text_member(
                "detailType"@,
                opt_name(self.detail_type, |d: DetailType| detail_type_name(d)),
            );
        }
        push_opt_text(
            &mut fs,
            "search",
            match &self.search {
                Some(s) => Some(s.as_str()),
                None => None,
            },
            Ghost(ms),
        );
        proof {
            ms = ms + text_member("search"@, opt_name(self.search, |s: String| s@));
        }
        push_opt_text(
            &mut fs,
            "domain",
            match &self.domain {
                Some(s) => Some(s.as_str()),
                None => None,
            },
            Ghost(ms),
        );
        proof {
            ms = ms + text_member("domain"@, opt_name(self.domain, |s: String| s@));
        }
        push_opt_number(&mut fs, "since", self.since, Ghost(ms));
        proof {
            ms = ms + number_member("since"@, self.since);
        }
        push_opt_number(&mut fs, "count", widen(self.count), Ghost(ms));
        proof {
            ms = ms + number_member("count"@, opt_u32(self.count));
        }
        push_opt_number(&mut fs, "offset", widen(self.offset), Ghost(ms));
        proof {
            ms = ms + number_member("offset"@, opt_u32(self.offset));
        }
        assert(ms == get_members(*self));
        Json::Object(fs)
    }
}

} // verus!
