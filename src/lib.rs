//! A client library for a read-it-later service's REST API: the typed data
//! model, the decoding of its shape-shifting JSON responses, the request
//! payloads, and the pagination and batch-modify protocols.

pub mod action;
pub mod auth;
pub mod codec;
pub mod id_map;
pub mod json;
pub mod model;
pub mod paging;
pub mod payload;
pub mod query;
pub mod response;
pub mod wire;

pub use action::{add_actions, auth_payload, item_actions, modify_payload, Action, ItemAction};
pub use auth::{
    authorization_url, endpoint_url, parse_authorization_code, parse_request_token, ENDPOINT,
    REDIRECT_URL,
};
pub use codec::{encode_flag, lemma_flag_round_trip, parse_flag, parse_u32, parse_u64};
pub use id_map::IdMap;
pub use json::{text_eq, Json, JsonNumber};
pub use model::{
    Author, DeletedItem, DomainMetadata, FavoriteStatus, HasImage, HasVideo, Image, Item, ItemId,
    ItemOrDeletedItem, lemma_item_flags_round_trip, MainImage, ModifiedItem, Status, Tag, Video,
};
pub use paging::{lemma_disjoint_pages_merge, ListAll, ListAllStep, DEFAULT_COUNT};
pub use query::{ContentType, DetailType, GetInput, Sort, State, TagFilter};
pub use response::{
    classify_get_response, decode_array, lemma_empty_list_array_ends_list,
    lemma_empty_list_object_is_empty_page, lemma_outcomes_follow_action_order, page_entries,
    parse_get_response_body, parse_send_response_body, zip_outcomes, ActionError, DecodeError,
    ModifiedItemOrBool, ModifyResponse, ModifyResponseInner, ReadingList, ResponseState,
};
pub use wire::Decode;
