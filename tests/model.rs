use libpocket::{
    add_actions, auth_payload, authorization_url, endpoint_url, item_actions, modify_payload,
    parse_authorization_code, parse_flag, parse_get_response_body, parse_request_token,
    parse_u32, parse_u64, Action, ContentType, DetailType, FavoriteStatus, GetInput, HasImage,
    HasVideo, IdMap, Item, ItemAction, Json, JsonNumber, ListAll, ListAllStep, Sort, State,
    Status, TagFilter, DEFAULT_COUNT,
};

fn item(given_url: &str, resolved_url: &str, given_title: &str, resolved_title: &str) -> Item {
    Item {
        item_id: String::from("1"),
        resolved_id: String::from("1"),
        given_url: String::from(given_url),
        resolved_url: String::from(resolved_url),
        given_title: String::from(given_title),
        resolved_title: String::from(resolved_title),
        favorite: FavoriteStatus::NotFavorited,
        status: Status::Unread,
        excerpt: String::new(),
        is_article: false,
        has_image: HasImage::No,
        has_video: HasVideo::No,
        word_count: 0,
        time_added: 0,
        time_updated: 0,
        time_read: 0,
        time_favorited: 0,
        sort_id: 0,
        is_index: false,
        lang: String::new(),
        top_image_url: None,
        domain_metadata: None,
        listen_duration_estimate: 0,
        time_to_read: None,
        amp_url: None,
        images: None,
        videos: None,
        authors: None,
        tags: None,
        image: None,
    }
}

#[test]
fn effective_url_falls_back_to_given_url() {
    assert_eq!(item("http://a", "", "", "").effective_url(), "http://a");
    assert_eq!(item("http://a", "http://b", "", "").effective_url(), "http://b");
}

#[test]
fn effective_title_priority() {
    assert_eq!(item("http://a", "", "g", "r").effective_title(), "r");
    assert_eq!(item("http://a", "", "g", "").effective_title(), "g");
    assert_eq!(item("http://a", "", "", "").effective_title(), "http://a");
    assert_eq!(item("http://a", "http://b", "", "").effective_title(), "http://b");
}

#[test]
fn decimal_strings() {
    assert_eq!(parse_u64("0"), Some(0));
    assert_eq!(parse_u64("1600000000"), Some(1600000000));
    assert_eq!(parse_u64("18446744073709551615"), Some(u64::MAX));
    assert_eq!(parse_u64("18446744073709551616"), None);
    assert_eq!(parse_u64("+7"), Some(7));
    assert_eq!(parse_u64(""), None);
    assert_eq!(parse_u64("+"), None);
    assert_eq!(parse_u64("-1"), None);
    assert_eq!(parse_u64("12a"), None);
    assert_eq!(parse_u64(" 1"), None);
    assert_eq!(parse_u32("4294967295"), Some(u32::MAX));
    assert_eq!(parse_u32("4294967296"), None);
}

#[test]
fn boolean_strings() {
    assert_eq!(parse_flag("0"), Some(false));
    assert_eq!(parse_flag("1"), Some(true));
    assert_eq!(parse_flag("2"), None);
    assert_eq!(parse_flag("true"), None);
    assert_eq!(parse_flag(""), None);
    assert_eq!(parse_flag("01"), None);
}

fn members(j: &Json) -> Vec<(String, String)> {
    match j {
        Json::Object(fs) => fs
            .iter()
            .map(|(k, v)| {
                let v = match v {
                    Json::Str(s) => format!("s:{}", s),
                    Json::Number(JsonNumber::Unsigned(n)) => format!("n:{}", n),
                    Json::Array(a) => format!("a:{}", a.len()),
                    other => format!("{:?}", other),
                };
                (k.clone(), v)
            })
            .collect(),
        other => panic!("not an object: {:?}", other),
    }
}

fn pairs(ps: &[(&str, &str)]) -> Vec<(String, String)> {
    ps.iter().map(|(k, v)| (k.to_string(), v.to_string())).collect()
}

#[test]
fn empty_query_has_no_members() {
    assert_eq!(members(&GetInput::default().to_json()), vec![]);
}

#[test]
fn query_members_in_wire_encoding() {
    let mut q = GetInput::default();
    q.state = Some(State::Archive);
    q.favorite = Some(FavoriteStatus::Favorited);
    q.tag = Some(TagFilter::Untagged);
    q.content_type = Some(ContentType::Video);
    q.sort = Some(Sort::Site);
    q.detail_type = Some(DetailType::Simple);
    q.search = Some(String::from("rust"));
    q.since = Some(17);
    q.offset = Some(10);
    assert_eq!(
        members(&q.to_json()),
        pairs(&[
            ("state", "s:archive"),
            ("favorite", "s:1"),
            ("tag", "s:_untagged_"),
            ("content_type", "s:video"),
            ("sort", "s:site"),
            ("detailType", "s:simple"),
            ("search", "s:rust"),
            ("since", "n:17"),
            ("offset", "n:10"),
        ])
    );
    q.tag = Some(TagFilter::TagName(String::from("news")));
    assert_eq!(members(&q.to_json())[2], (String::from("tag"), String::from("s:news")));
}

#[test]
fn state_defaults_to_unread() {
    assert_eq!(State::default(), State::Unread);
}

#[test]
fn action_objects() {
    let a = Action::Archive { item_id: String::from("42"), time: 9 };
    assert_eq!(
        members(&a.to_json()),
        pairs(&[("action", "s:archive"), ("item_id", "s:42"), ("time", "n:9")])
    );
    let a = Action::Add { url: String::from("http://x"), time: 1 };
    assert_eq!(
        members(&a.to_json()),
        pairs(&[("action", "s:add"), ("url", "s:http://x"), ("time", "n:1")])
    );
    let a = Action::TagsReplace {
        item_id: String::from("5"),
        tags: vec![String::from("tag3"), String::from("tag4")],
        time: 2,
    };
    assert_eq!(
        members(&a.to_json()),
        pairs(&[("action", "s:tagsreplace"), ("item_id", "s:5"), ("tags", "a:2"), ("time", "n:2")])
    );
}

#[test]
fn batch_payload_keeps_action_order() {
    let actions = vec![
        Action::Add { url: String::from("http://x"), time: 1 },
        Action::Archive { item_id: String::from("2"), time: 1 },
        Action::Delete { item_id: String::from("3"), time: 1 },
    ];
    match modify_payload(&actions) {
        Json::Object(fs) => {
            assert_eq!(fs.len(), 1);
            assert_eq!(fs[0].0, "actions");
            match &fs[0].1 {
                Json::Array(a) => {
                    let names: Vec<String> = a.iter().map(|o| members(o)[0].1.clone()).collect();
                    assert_eq!(names, vec!["s:add", "s:archive", "s:delete"]);
                }
                other => panic!("unexpected {:?}", other),
            }
        }
        other => panic!("unexpected {:?}", other),
    }
}

#[test]
fn stamped_action_lists() {
    let ids = vec![String::from("a"), String::from("b")];
    let acts = item_actions(ItemAction::Favorite, &ids, 100);
    assert_eq!(
        acts,
        vec![
            Action::Favorite { item_id: String::from("a"), time: 100 },
            Action::Favorite { item_id: String::from("b"), time: 100 },
        ]
    );
    let acts = add_actions(&vec![String::from("http://u")], 5);
    assert_eq!(acts, vec![Action::Add { url: String::from("http://u"), time: 5 }]);
}

#[test]
fn credentials_object() {
    assert_eq!(
        members(&auth_payload("key", "token")),
        pairs(&[("consumer_key", "s:key"), ("access_token", "s:token")])
    );
}

#[test]
fn authorization_urls() {
    assert_eq!(
        authorization_url(&String::from("abc")),
        "https://getpocket.com/auth/authorize?request_token=abc&redirect_uri=https://getpocket.com"
    );
    assert_eq!(endpoint_url("/get"), "https://getpocket.com/v3/get");
}

#[test]
fn auth_response_values() {
    assert_eq!(parse_request_token("code=dcba4321-dcba-4321"), Some(String::from("dcba4321-dcba-4321")));
    assert_eq!(parse_request_token("no token here"), None);
    assert_eq!(parse_request_token("a=b=c"), Some(String::from("b")));
    assert_eq!(
        parse_authorization_code("access_token=5678defg&username=pocketuser"),
        Some(String::from("5678defg"))
    );
    assert_eq!(parse_authorization_code("nothing"), None);
}

#[test]
fn id_map_insert_replaces() {
    let mut m: IdMap<u32> = IdMap::new();
    assert!(m.is_empty());
    m.insert(String::from("a"), 1);
    m.insert(String::from("b"), 2);
    m.insert(String::from("a"), 3);
    assert_eq!(m.len(), 2);
    assert_eq!(m.get("a"), Some(&3));
    assert!(m.contains_key("b"));
    assert!(!m.contains_key("c"));
    let mut other: IdMap<u32> = IdMap::new();
    other.insert(String::from("b"), 20);
    other.insert(String::from("c"), 30);
    m.extend(other);
    assert_eq!(m.len(), 3);
    assert_eq!(m.get("b"), Some(&20));
}

fn deleted_page(ids: &[&str]) -> String {
    let entries: Vec<String> =
        ids.iter().map(|id| format!(r#""{id}": {{ "item_id": "{id}", "status": "2" }}"#)).collect();
    format!(r#"{{ "list": {{ {} }} }}"#, entries.join(", "))
}

#[test]
fn list_all_merges_pages_until_no_more() {
    let fetch = ListAll::new();
    let q = fetch.query();
    assert_eq!(q.state, Some(State::All));
    assert_eq!(q.detail_type, Some(DetailType::Complete));
    assert_eq!(q.count, Some(DEFAULT_COUNT));
    assert_eq!(q.offset, Some(0));
    let fetch = match fetch.on_page(parse_get_response_body(&deleted_page(&["1", "2"]))) {
        ListAllStep::Continue(next) => next,
        other => panic!("unexpected {:?}", other),
    };
    assert_eq!(fetch.query().offset, Some(DEFAULT_COUNT));
    let fetch = match fetch.on_page(parse_get_response_body(&deleted_page(&["3", "4", "5"]))) {
        ListAllStep::Continue(next) => next,
        other => panic!("unexpected {:?}", other),
    };
    assert_eq!(fetch.query().offset, Some(2 * DEFAULT_COUNT));
    let list = match fetch.on_page(parse_get_response_body(r#"{ "list": [] }"#)) {
        ListAllStep::Done(list) => list,
        other => panic!("unexpected {:?}", other),
    };
    assert_eq!(list.len(), 5);
    for id in ["1", "2", "3", "4", "5"] {
        assert!(list.contains_key(id));
    }
}

#[test]
fn list_all_fails_on_a_bad_page() {
    let fetch = ListAll::new();
    match fetch.on_page(parse_get_response_body("{ \"list\": ")) {
        ListAllStep::Failed(_) => (),
        other => panic!("unexpected {:?}", other),
    }
}

#[test]
fn id_map_entries_ascend_by_key() {
    let mut m: IdMap<u32> = IdMap::new();
    for (k, v) in [("b", 2), ("d", 4), ("a", 1), ("c", 3), ("ab", 5)] {
        m.insert(String::from(k), v);
    }
    let keys: Vec<String> = (0..m.len()).map(|i| m.entry_at(i).0.clone()).collect();
    assert_eq!(keys, vec!["a", "ab", "b", "c", "d"]);
    assert_eq!(*m.entry_at(1).1, 5);
}
