//! The records the service returns, and how each is read from JSON.
use vstd::prelude::*;
use crate::id_map::IdMap;
use crate::json::Json;
use crate::wire::{
    flag_field, flag_of, num_field, num_of, num_u32_field, num_u32_of,
    opt_map_decoded, opt_map_decodes, opt_map_field, opt_num_field, opt_num_of, opt_obj_decoded,
    opt_obj_decodes, opt_obj_field, opt_text_field, opt_text_of, opt_view, opt_wire_u32_field,
    opt_wire_u32_of, ordinal_field, ordinal_of, text_field, text_of, wire_u32_field, wire_u32_of,
    wire_u64_field, wire_u64_of, Decode,
};

verus! {

pub type ItemId = String;

/// Whether an item is favorited; written as `"0"` or `"1"`.
#[derive(Clone, Copy, Debug, PartialEq, Eq, Structural)]
pub enum FavoriteStatus {
    NotFavorited,
    Favorited,
}

/// Whether an item is unread, read (archived), or to be deleted; written as
/// `"0"`, `"1"` or `"2"`.
#[derive(Clone, Copy, Debug, PartialEq, Eq, Structural)]
pub enum Status {
    Unread,
    Read,
    ShouldBeDeleted,
}

/// Whether an item has, or is, an image; written as `"0"`, `"1"` or `"2"`.
#[derive(Clone, Copy, Debug, PartialEq, Eq, Structural)]
pub enum HasImage {
    No,
    Yes,
    IsImage,
}

/// Whether an item has, or is, a video; written as `"0"`, `"1"` or `"2"`.
#[derive(Clone, Copy, Debug, PartialEq, Eq, Structural)]
pub enum HasVideo {
    No,
    Yes,
    IsVideo,
}

pub open spec fn favorite_of(j: Json, k: Seq<char>) -> Option<FavoriteStatus> {
    match ordinal_of(j, k) {
        Some(0) => Some(FavoriteStatus::NotFavorited),
        Some(1) => Some(FavoriteStatus::Favorited),
        _ => None,
    }
}

pub open spec fn status_of(j: Json, k: Seq<char>) -> Option<Status> {
    match ordinal_of(j, k) {
        Some(0) => Some(Status::Unread),
        Some(1) => Some(Status::Read),
        Some(2) => Some(Status::ShouldBeDeleted),
        _ => None,
    }
}

pub open spec fn has_image_of(j: Json, k: Seq<char>) -> Option<HasImage> {
    match ordinal_of(j, k) {
        Some(0) => Some(HasImage::No),
        Some(1) => Some(HasImage::Yes),
        Some(2) => Some(HasImage::IsImage),
        _ => None,
    }
}

pub open spec fn has_video_of(j: Json, k: Seq<char>) -> Option<HasVideo> {
    match ordinal_of(j, k) {
        Some(0) => Some(HasVideo::No),
        Some(1) => Some(HasVideo::Yes),
        Some(2) => Some(HasVideo::IsVideo),
        _ => None,
    }
}

fn favorite_field(j: &Json, k: &str) -> (r: Option<FavoriteStatus>)
    ensures
        r == favorite_of(*j, k@),
{
    match ordinal_field(j, k) {
        Some(0) => Some(FavoriteStatus::NotFavorited),
        Some(1) => Some(FavoriteStatus::Favorited),
        _ => None,
    }
}

fn status_field(j: &Json, k: &str) -> (r: Option<Status>)
    ensures
        r == status_of(*j, k@),
{
    match ordinal_field(j, k) {
        Some(0) => Some(Status::Unread),
        Some(1) => Some(Status::Read),
        Some(2) => Some(Status::ShouldBeDeleted),
        _ => None,
    }
}

fn has_image_field(j: &Json, k: &str) -> (r: Option<HasImage>)
    ensures
        r == has_image_of(*j, k@),
{
    match ordinal_field(j, k) {
        Some(0) => Some(HasImage::No),
        Some(1) => Some(HasImage::Yes),
        Some(2) => Some(HasImage::IsImage),
        _ => None,
    }
}

fn has_video_field(j: &Json, k: &str) -> (r: Option<HasVideo>)
    ensures
        r == has_video_of(*j, k@),
{
    match ordinal_field(j, k) {
        Some(0) => Some(HasVideo::No),
        Some(1) => Some(HasVideo::Yes),
        Some(2) => Some(HasVideo::IsVideo),
        _ => None,
    }
}

/// The site an item comes from.
#[derive(Debug, Clone, PartialEq)]
pub struct DomainMetadata {
    pub name: Option<String>,
    pub logo: String,
    pub greyscale_logo: String,
}

impl Decode for DomainMetadata {
    open spec fn decodes(j: Json) -> bool {
        &&& opt_text_of(j, "name"@) is Some
        &&& text_of(j, "logo"@) is Some
        &&& text_of(j, "greyscale_logo"@) is Some
    }

    open spec fn decoded_from(&self, j: Json) -> bool {
        &&& opt_text_of(j, "name"@) == Some(opt_view(self.name))
        &&& text_of(j, "logo"@) == Some(self.logo@)
        &&& text_of(j, "greyscale_logo"@) == Some(self.greyscale_logo@)
    }

    fn decode(j: &Json) -> (r: Option<Self>) {
        let name = opt_text_field(j, "name")?;
        let logo = text_field(j, "logo")?;
        let greyscale_logo = text_field(j, "greyscale_logo")?;
        Some(DomainMetadata { name, logo, greyscale_logo })
    }
}

/// The main image of an item: an `Image` without its id, credit and caption.
#[derive(Debug, Clone, PartialEq)]
pub struct MainImage {
    pub item_id: String,
    pub src: String,
    pub width: u32,
    pub height: u32,
}

impl Decode for MainImage {
    open spec fn decodes(j: Json) -> bool {
        &&& text_of(j, "item_id"@) is Some
        &&& text_of(j, "src"@) is Some
        &&& wire_u32_of(j, "width"@) is Some
        &&& wire_u32_of(j, "height"@) is Some
    }

    open spec fn decoded_from(&self, j: Json) -> bool {
        &&& text_of(j, "item_id"@) == Some(self.item_id@)
        &&& text_of(j, "src"@) == Some(self.src@)
        &&& wire_u32_of(j, "width"@) == Some(self.width)
        &&& wire_u32_of(j, "height"@) == Some(self.height)
    }

    fn decode(j: &Json) -> (r: Option<Self>) {
        let item_id = text_field(j, "item_id")?;
        let src = text_field(j, "src")?;
        let width = wire_u32_field(j, "width")?;
        let height = wire_u32_field(j, "height")?;
        Some(MainImage { item_id, src, width, height })
    }
}

/// An image of an item.
#[derive(Debug, Clone, PartialEq)]
pub struct Image {
    pub item_id: String,
    pub image_id: String,
    pub src: String,
    pub width: u32,
    pub height: u32,
    pub credit: String,
    pub caption: String,
}

impl Decode for Image {
    open spec fn decodes(j: Json) -> bool {
        &&& text_of(j, "item_id"@) is Some
        &&& text_of(j, "image_id"@) is Some
        &&& text_of(j, "src"@) is Some
        &&& wire_u32_of(j, "width"@) is Some
        &&& wire_u32_of(j, "height"@) is Some
        &&& text_of(j, "credit"@) is Some
        &&& text_of(j, "caption"@) is Some
    }

    open spec fn decoded_from(&self, j: Json) -> bool {
        &&& text_of(j, "item_id"@) == Some(self.item_id@)
        &&& text_of(j, "image_id"@) == Some(self.image_id@)
        &&& text_of(j, "src"@) == Some(self.src@)
        &&& wire_u32_of(j, "width"@) == Some(self.width)
        &&& wire_u32_of(j, "height"@) == Some(self.height)
        &&& text_of(j, "credit"@) == Some(self.credit@)
        &&& text_of(j, "caption"@) == Some(self.caption@)
    }

    fn decode(j: &Json) -> (r: Option<Self>) {
        let item_id = text_field(j, "item_id")?;
        let image_id = text_field(j, "image_id")?;
        let src = text_field(j, "src")?;
        let width = wire_u32_field(j, "width")?;
        let height = wire_u32_field(j, "height")?;
        let credit = text_field(j, "credit")?;
        let caption = text_field(j, "caption")?;
        Some(Image { item_id, image_id, src, width, height, credit, caption })
    }
}

/// A video of an item.
#[derive(Debug, Clone, PartialEq)]
pub struct Video {
    pub item_id: String,
    pub video_id: String,
    pub src: String,
    pub width: u32,
    pub height: u32,
    /// Sent as member `type`; its meaning is not documented.
    pub video_type: u32,
    pub vid: String,
    /// Length in seconds.
    pub length: Option<u32>,
}

impl Decode for Video {
    open spec fn decodes(j: Json) -> bool {
        &&& text_of(j, "item_id"@) is Some
        &&& text_of(j, "video_id"@) is Some
        &&& text_of(j, "src"@) is Some
        &&& wire_u32_of(j, "width"@) is Some
        &&& wire_u32_of(j, "height"@) is Some
        &&& wire_u32_of(j, "type"@) is Some
        &&& text_of(j, "vid"@) is Some
        &&& opt_wire_u32_of(j, "length"@) is Some
    }

    open spec fn decoded_from(&self, j: Json) -> bool {
        &&& text_of(j, "item_id"@) == Some(self.item_id@)
        &&& text_of(j, "video_id"@) == Some(self.video_id@)
        &&& text_of(j, "src"@) == Some(self.src@)
        &&& wire_u32_of(j, "width"@) == Some(self.width)
        &&& wire_u32_of(j, "height"@) == Some(self.height)
        &&& wire_u32_of(j, "type"@) == Some(self.video_type)
        &&& text_of(j, "vid"@) == Some(self.vid@)
        &&& opt_wire_u32_of(j, "length"@) == Some(self.length)
    }

    fn decode(j: &Json) -> (r: Option<Self>) {
        let item_id = text_field(j, "item_id")?;
        let video_id = text_field(j, "video_id")?;
        let src = text_field(j, "src")?;
        let width = wire_u32_field(j, "width")?;
        let height = wire_u32_field(j, "height")?;
        let video_type = wire_u32_field(j, "type")?;
        let vid = text_field(j, "vid")?;
        let length = opt_wire_u32_field(j, "length")?;
        Some(Video { item_id, video_id, src, width, height, video_type, vid, length })
    }
}

/// An author of an item.
#[derive(Debug, Clone, PartialEq)]
pub struct Author {
    pub item_id: String,
    pub author_id: String,
    pub name: String,
    pub url: String,
}

impl Decode for Author {
    open spec fn decodes(j: Json) -> bool {
        &&& text_of(j, "item_id"@) is Some
        &&& text_of(j, "author_id"@) is Some
        &&& text_of(j, "name"@) is Some
        &&& text_of(j, "url"@) is Some
    }

    open spec fn decoded_from(&self, j: Json) -> bool {
        &&& text_of(j, "item_id"@) == Some(self.item_id@)
        &&& text_of(j, "author_id"@) == Some(self.author_id@)
        &&& text_of(j, "name"@) == Some(self.name@)
        &&& text_of(j, "url"@) == Some(self.url@)
    }

    fn decode(j: &Json) -> (r: Option<Self>) {
        let item_id = text_field(j, "item_id")?;
        let author_id = text_field(j, "author_id")?;
        let name = text_field(j, "name")?;
        let url = text_field(j, "url")?;
        Some(Author { item_id, author_id, name, url })
    }
}

/// A tag applied to an item.
#[derive(Debug, Clone, PartialEq)]
pub struct Tag {
    pub item_id: String,
    pub tag: String,
}

impl Decode for Tag {
    open spec fn decodes(j: Json) -> bool {
        &&& text_of(j, "item_id"@) is Some
        &&& text_of(j, "tag"@) is Some
    }

    open spec fn decoded_from(&self, j: Json) -> bool {
        &&& text_of(j, "item_id"@) == Some(self.item_id@)
        &&& text_of(j, "tag"@) == Some(self.tag@)
    }

    fn decode(j: &Json) -> (r: Option<Self>) {
        let item_id = text_field(j, "item_id")?;
        let tag = text_field(j, "tag")?;
        Some(Tag { item_id, tag })
    }
}

/// A saved page. The members that are not optional are always present in the
/// service's responses; the maps of images, videos, authors and tags are
/// present only when complete detail was asked for.
#[derive(Debug, Clone, PartialEq)]
pub struct Item {
    /// The identifier that every action on the item refers to.
    pub item_id: ItemId,
    /// Identifies the resolved URL; `"0"` while the service has not resolved it.
    pub resolved_id: String,
    pub given_url: String,
    pub resolved_url: String,
    pub given_title: String,
    pub resolved_title: String,
    pub favorite: FavoriteStatus,
    pub status: Status,
    pub excerpt: String,
    pub is_article: bool,
    pub has_image: HasImage,
    pub has_video: HasVideo,
    pub word_count: u64,
    /// UNIX time the item was added.
    pub time_added: u64,
    pub time_updated: u64,
    /// UNIX time the item was read; 0 if it never was.
    pub time_read: u64,
    /// UNIX time the item was favorited; 0 if it never was.
    pub time_favorited: u64,
    pub sort_id: u32,
    pub is_index: bool,
    /// Language code; sometimes empty.
    pub lang: String,
    pub top_image_url: Option<String>,
    pub domain_metadata: Option<DomainMetadata>,
    pub listen_duration_estimate: u64,
    pub time_to_read: Option<u64>,
    pub amp_url: Option<String>,
    pub images: Option<IdMap<Image>>,
    pub videos: Option<IdMap<Video>>,
    pub authors: Option<IdMap<Author>>,
    pub tags: Option<IdMap<Tag>>,
    pub image: Option<MainImage>,
}

/// The URL to show: the resolved one, or the given one while that is empty.
pub open spec fn effective_url_of(given: Seq<char>, resolved: Seq<char>) -> Seq<char> {
    if resolved.len() > 0 {
        resolved
    } else {
        given
    }
}

/// The title to show: the resolved one, else the given one, else the URL.
pub open spec fn effective_title_of(
    given_title: Seq<char>,
    resolved_title: Seq<char>,
    url: Seq<char>,
) -> Seq<char> {
    if resolved_title.len() > 0 {
        resolved_title
    } else if given_title.len() > 0 {
        given_title
    } else {
        url
    }
}

impl Item {
    /// `resolved_url` if it is not empty, else `given_url`.
    pub fn effective_url(&self) -> (r: &String)
        ensures
            r@ == effective_url_of(self.given_url@, self.resolved_url@),
    {
        if self.resolved_url.unicode_len() > 0 {
            &self.resolved_url
        } else {
            &self.given_url
        }
    }

    /// `resolved_title` if it is not empty, else `given_title` if that is not
    /// empty, else the effective URL.
    pub fn effective_title(&self) -> (r: &String)
        ensures
            r@ == effective_title_of(
                self.given_title@,
                self.resolved_title@,
                effective_url_of(self.given_url@, self.resolved_url@),
            ),
    {
        if self.resolved_title.unicode_len() > 0 {
            &self.resolved_title
        } else if self.given_title.unicode_len() > 0 {
            &self.given_title
        } else {
            self.effective_url()
        }
    }
}

impl Decode for Item {
    open spec fn decodes(j: Json) -> bool {
        &&& text_of(j, "item_id"@) is Some
        &&& text_of(j, "resolved_id"@) is Some
        &&& text_of(j, "given_url"@) is Some
        &&& text_of(j, "resolved_url"@) is Some
        &&& text_of(j, "given_title"@) is Some
        &&& text_of(j, "resolved_title"@) is Some
        &&& favorite_of(j, "favorite"@) is Some
        &&& status_of(j, "status"@) is Some
        &&& text_of(j, "excerpt"@) is Some
        &&& flag_of(j, "is_article"@) is Some
        &&& has_image_of(j, "has_image"@) is Some
        &&& has_video_of(j, "has_video"@) is Some
        &&& wire_u64_of(j, "word_count"@) is Some
        &&& wire_u64_of(j, "time_added"@) is Some
        &&& wire_u64_of(j, "time_updated"@) is Some
        &&& wire_u64_of(j, "time_read"@) is Some
        &&& wire_u64_of(j, "time_favorited"@) is Some
        &&& num_u32_of(j, "sort_id"@) is Some
        &&& flag_of(j, "is_index"@) is Some
        &&& text_of(j, "lang"@) is Some
        &&& opt_text_of(j, "top_image_url"@) is Some
        &&& opt_obj_decodes::<DomainMetadata>(j, "domain_metadata"@)
        &&& num_of(j, "listen_duration_estimate"@) is Some
        &&& opt_num_of(j, "time_to_read"@) is Some
        &&& opt_text_of(j, "amp_url"@) is Some
        &&& opt_map_decodes::<Image>(j, "images"@)
        &&& opt_map_decodes::<Video>(j, "videos"@)
        &&& opt_map_decodes::<Author>(j, "authors"@)
        &&& opt_map_decodes::<Tag>(j, "tags"@)
        &&& opt_obj_decodes::<MainImage>(j, "image"@)
    }

    open spec fn decoded_from(&self, j: Json) -> bool {
        &&& text_of(j, "item_id"@) == Some(self.item_id@)
        &&& text_of(j, "resolved_id"@) == Some(self.resolved_id@)
        &&& text_of(j, "given_url"@) == Some(self.given_url@)
        &&& text_of(j, "resolved_url"@) == Some(self.resolved_url@)
        &&& text_of(j, "given_title"@) == Some(self.given_title@)
        &&& text_of(j, "resolved_title"@) == Some(self.resolved_title@)
        &&& favorite_of(j, "favorite"@) == Some(self.favorite)
        &&& status_of(j, "status"@) == Some(self.status)
        &&& text_of(j, "excerpt"@) == Some(self.excerpt@)
        &&& flag_of(j, "is_article"@) == Some(self.is_article)
        &&& has_image_of(j, "has_image"@) == Some(self.has_image)
        &&& has_video_of(j, "has_video"@) == Some(self.has_video)
        &&& wire_u64_of(j, "word_count"@) == Some(self.word_count)
        &&& wire_u64_of(j, "time_added"@) == Some(self.time_added)
        &&& wire_u64_of(j, "time_updated"@) == Some(self.time_updated)
        &&& wire_u64_of(j, "time_read"@) == Some(self.time_read)
        &&& wire_u64_of(j, "time_favorited"@) == Some(self.time_favorited)
        &&& num_u32_of(j, "sort_id"@) == Some(self.sort_id)
        &&& flag_of(j, "is_index"@) == Some(self.is_index)
        &&& text_of(j, "lang"@) == Some(self.lang@)
        &&& opt_text_of(j, "top_image_url"@) == Some(opt_view(self.top_image_url))
        &&& opt_obj_decoded(j, "domain_metadata"@, self.domain_metadata)
        &&& num_of(j, "listen_duration_estimate"@) == Some(self.listen_duration_estimate)
        &&& opt_num_of(j, "time_to_read"@) == Some(self.time_to_read)
        &&& opt_text_of(j, "amp_url"@) == Some(opt_view(self.amp_url))
        &&& opt_map_decoded(j, "images"@, self.images)
        &&& opt_map_decoded(j, "videos"@, self.videos)
        &&& opt_map_decoded(j, "authors"@, self.authors)
        &&& opt_map_decoded(j, "tags"@, self.tags)
        &&& opt_obj_decoded(j, "image"@, self.image)
    }

    fn decode(j: &Json) -> (r: Option<Self>) {
        let item_id = text_field(j, "item_id")?;
        let resolved_id = text_field(j, "resolved_id")?;
        let given_url = text_field(j, "given_url")?;
        let resolved_url = text_field(j, "resolved_url")?;
        let given_title = text_field(j, "given_title")?;
        let resolved_title = text_field(j, "resolved_title")?;
        let favorite = favorite_field(j, "favorite")?;
        let status = status_field(j, "status")?;
        let excerpt = text_field(j, "excerpt")?;
        let is_article = flag_field(j, "is_article")?;
        let has_image = has_image_field(j, "has_image")?;
        let has_video = has_video_field(j, "has_video")?;
        let word_count = wire_u64_field(j, "word_count")?;
        let time_added = wire_u64_field(j, "time_added")?;
        let time_updated = wire_u64_field(j, "time_updated")?;
        let time_read = wire_u64_field(j, "time_read")?;
        let time_favorited = wire_u64_field(j, "time_favorited")?;
        let sort_id = num_u32_field(j, "sort_id")?;
        let is_index = flag_field(j, "is_index")?;
        let lang = text_field(j, "lang")?;
        let top_image_url = opt_text_field(j, "top_image_url")?;
        let domain_metadata = opt_obj_field::<DomainMetadata>(j, "domain_metadata")?;
        let listen_duration_estimate = num_field(j, "listen_duration_estimate")?;
        let time_to_read = opt_num_field(j, "time_to_read")?;
        let amp_url = opt_text_field(j, "amp_url")?;
        let images = opt_map_field::<Image>(j, "images")?;
        let videos = opt_map_field::<Video>(j, "videos")?;
        let authors = opt_map_field::<Author>(j, "authors")?;
        let tags = opt_map_field::<Tag>(j, "tags")?;
        let image = opt_obj_field::<MainImage>(j, "image")?;
        Some(Item {
            item_id,
            resolved_id,
            given_url,
            resolved_url,
            given_title,
            resolved_title,
            favorite,
            status,
            excerpt,
            is_article,
            has_image,
            has_video,
            word_count,
            time_added,
            time_updated,
            time_read,
            time_favorited,
            sort_id,
            is_index,
            lang,
            top_image_url,
            domain_metadata,
            listen_duration_estimate,
            time_to_read,
            amp_url,
            images,
            videos,
            authors,
            tags,
            image,
        })
    }
}

/// An item whose `is_article` and `is_index` members are written from two
/// booleans reads back as those booleans.
pub proof fn lemma_item_flags_round_trip(j: Json, it: Item, is_article: bool, is_index: bool)
    requires
        text_of(j, "is_article"@) == Some(crate::codec::flag_wire(is_article)),
        text_of(j, "is_index"@) == Some(crate::codec::flag_wire(is_index)),
        it.decoded_from(j),
    ensures
        it.is_article == is_article,
        it.is_index == is_index,
{
    crate::codec::lemma_flag_round_trip(is_article);
    crate::codec::lemma_flag_round_trip(is_index);
}

/// A saved page as the batch endpoint returns it after adding or re-adding
/// it; `given_url` and `lang` may be missing while the page is being resolved.
#[derive(Debug, Clone, PartialEq)]
pub struct ModifiedItem {
    pub item_id: ItemId,
    pub resolved_id: String,
    pub given_url: Option<String>,
    pub resolved_url: String,
    pub excerpt: String,
    pub is_article: bool,
    pub has_image: HasImage,
    pub has_video: HasVideo,
    pub word_count: u64,
    pub lang: Option<String>,
    pub domain_metadata: Option<DomainMetadata>,
}

impl Decode for ModifiedItem {
    open spec fn decodes(j: Json) -> bool {
        &&& text_of(j, "item_id"@) is Some
        &&& text_of(j, "resolved_id"@) is Some
        &&& opt_text_of(j, "given_url"@) is Some
        &&& text_of(j, "resolved_url"@) is Some
        &&& text_of(j, "excerpt"@) is Some
        &&& flag_of(j, "is_article"@) is Some
        &&& has_image_of(j, "has_image"@) is Some
        &&& has_video_of(j, "has_video"@) is Some
        &&& wire_u64_of(j, "word_count"@) is Some
        &&& opt_text_of(j, "lang"@) is Some
        &&& opt_obj_decodes::<DomainMetadata>(j, "domain_metadata"@)
    }

    open spec fn decoded_from(&self, j: Json) -> bool {
        &&& text_of(j, "item_id"@) == Some(self.item_id@)
        &&& text_of(j, "resolved_id"@) == Some(self.resolved_id@)
        &&& opt_text_of(j, "given_url"@) == Some(opt_view(self.given_url))
        &&& text_of(j, "resolved_url"@) == Some(self.resolved_url@)
        &&& text_of(j, "excerpt"@) == Some(self.excerpt@)
        &&& flag_of(j, "is_article"@) == Some(self.is_article)
        &&& has_image_of(j, "has_image"@) == Some(self.has_image)
        &&& has_video_of(j, "has_video"@) == Some(self.has_video)
        &&& wire_u64_of(j, "word_count"@) == Some(self.word_count)
        &&& opt_text_of(j, "lang"@) == Some(opt_view(self.lang))
        &&& opt_obj_decoded(j, "domain_metadata"@, self.domain_metadata)
    }

    fn decode(j: &Json) -> (r: Option<Self>) {
        let item_id = text_field(j, "item_id")?;
        let resolved_id = text_field(j, "resolved_id")?;
        let given_url = opt_text_field(j, "given_url")?;
        let resolved_url = text_field(j, "resolved_url")?;
        let excerpt = text_field(j, "excerpt")?;
        let is_article = flag_field(j, "is_article")?;
        let has_image = has_image_field(j, "has_image")?;
        let has_video = has_video_field(j, "has_video")?;
        let word_count = wire_u64_field(j, "word_count")?;
        let lang = opt_text_field(j, "lang")?;
        let domain_metadata = opt_obj_field::<DomainMetadata>(j, "domain_metadata")?;
        Some(ModifiedItem {
            item_id,
            resolved_id,
            given_url,
            resolved_url,
            excerpt,
            is_article,
            has_image,
            has_video,
            word_count,
            lang,
            domain_metadata,
        })
    }
}

/// An entry that the service has marked for removal: only its id is sent.
#[derive(Debug, Clone, PartialEq)]
pub struct DeletedItem {
    pub item_id: ItemId,
}

impl Decode for DeletedItem {
    open spec fn decodes(j: Json) -> bool {
        text_of(j, "item_id"@) is Some
    }

    open spec fn decoded_from(&self, j: Json) -> bool {
        text_of(j, "item_id"@) == Some(self.item_id@)
    }

    fn decode(j: &Json) -> (r: Option<Self>) {
        let item_id = text_field(j, "item_id")?;
        Some(DeletedItem { item_id })
    }
}

/// An entry of a reading list: a full item where one can be read, else a
/// deleted one.
#[derive(Debug, Clone, PartialEq)]
pub enum ItemOrDeletedItem {
    Item(Item),
    DeletedItem(DeletedItem),
}

impl Decode for ItemOrDeletedItem {
    open spec fn decodes(j: Json) -> bool {
        Item::decodes(j) || DeletedItem::decodes(j)
    }

    open spec fn decoded_from(&self, j: Json) -> bool {
        if Item::decodes(j) {
            self matches ItemOrDeletedItem::Item(it) && it.decoded_from(j)
        } else {
            self matches ItemOrDeletedItem::DeletedItem(d) && d.decoded_from(j)
        }
    }

    fn decode(j: &Json) -> (r: Option<Self>) {
        match Item::decode(j) {
            Some(it) => Some(ItemOrDeletedItem::Item(it)),
            None => match DeletedItem::decode(j) {
                Some(d) => Some(ItemOrDeletedItem::DeletedItem(d)),
                None => None,
            },
        }
    }
}

} // verus!
