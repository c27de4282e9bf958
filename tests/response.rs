use libpocket::{
    parse_get_response_body, parse_send_response_body, zip_outcomes, ActionError, DecodeError,
    ItemOrDeletedItem, ModifiedItemOrBool, ModifyResponseInner, ResponseState,
};

#[test]
fn deserialize_get_empty_list_object() {
    let response = r#"{ "list": {}}"#;
    match parse_get_response_body(&response) {
        Ok(ResponseState::Parsed(_)) => (),
        _ => panic!("This should have been parsed"),
    }
}

#[test]
fn deserialize_get_empty_list_array() {
    let response = r#"{ "list": []}"#;
    match parse_get_response_body(&response) {
        Ok(ResponseState::NoMore) => (),
        _ => panic!("This should signal an empty list"),
    }
}

#[test]
#[should_panic]
fn deserialize_get_unparseable_response() {
    let response = r#"{ "list": "#;
    parse_get_response_body(&response).unwrap();
}

#[test]
fn deserialize_send_response() {
    let response = r#"{ "action_errors": [null], "action_results": [true]}"#;
    assert_eq!(
        parse_send_response_body(&response).unwrap(),
        ModifyResponseInner {
            action_errors: vec![None],
            action_results: vec![ModifiedItemOrBool::Bool(true)]
        }
    );
}

#[test]
fn deserialize_send_response_with_errors() {
    let response = r#"
{
    "action_errors": [
        {
            "code": 422,
            "message": "Invalid/non-existent URL",
            "type": "Unprocessable Entity"
        }
    ],
    "action_results": [
        false
    ],
    "status": 1
}"#;
    assert_eq!(
        parse_send_response_body(&response).unwrap(),
        ModifyResponseInner {
            action_errors: vec![Some(ActionError {
                code: 422,
                message: String::from("Invalid/non-existent URL"),
                error_type: String::from("Unprocessable Entity"),
            })],
            action_results: vec![ModifiedItemOrBool::Bool(false)]
        }
    );
}

#[test]
fn deserialize_send_unparseable_response() {
    let response = r#"{ "action_errors": [null] }"#;
    parse_send_response_body(&response).unwrap_err();
}

fn item_json(id: &str, is_article: &str, is_index: &str) -> String {
    format!(
        r#"{{
            "item_id": "{id}", "resolved_id": "{id}",
            "given_url": "http://a/{id}", "resolved_url": "",
            "given_title": "", "resolved_title": "T{id}",
            "favorite": "1", "status": "0", "excerpt": "e",
            "is_article": "{is_article}", "has_image": "2", "has_video": "0",
            "word_count": "120", "time_added": "1600000000", "time_updated": "1600000001",
            "time_read": "0", "time_favorited": "0", "sort_id": 3, "is_index": "{is_index}",
            "lang": "en", "listen_duration_estimate": 46, "time_to_read": 1,
            "domain_metadata": {{ "logo": "l", "greyscale_logo": "g" }},
            "tags": {{ "t1": {{ "item_id": "{id}", "tag": "t1" }} }}
        }}"#
    )
}

#[test]
fn get_page_decodes_items_and_deleted_items() {
    let body = format!(
        r#"{{ "list": {{ "1": {}, "2": {{ "item_id": "2", "status": "2" }} }}, "status": 1 }}"#,
        item_json("1", "1", "0")
    );
    let list = match parse_get_response_body(&body) {
        Ok(ResponseState::Parsed(l)) => l,
        other => panic!("unexpected {:?}", other),
    };
    assert_eq!(list.len(), 2);
    match list.get("1") {
        Some(ItemOrDeletedItem::Item(item)) => {
            assert_eq!(item.item_id, "1");
            assert!(item.is_article);
            assert!(!item.is_index);
            assert_eq!(item.word_count, 120);
            assert_eq!(item.time_added, 1600000000);
            assert_eq!(item.sort_id, 3);
            assert_eq!(item.favorite, libpocket::FavoriteStatus::Favorited);
            assert_eq!(item.status, libpocket::Status::Unread);
            assert_eq!(item.has_image, libpocket::HasImage::IsImage);
            assert_eq!(item.time_to_read, Some(1));
            assert_eq!(item.top_image_url, None);
            assert_eq!(item.domain_metadata.as_ref().unwrap().name, None);
            let tags = item.tags.as_ref().unwrap();
            assert_eq!(tags.get("t1").unwrap().tag, "t1");
            assert!(item.images.is_none());
        }
        other => panic!("unexpected {:?}", other),
    }
    match list.get("2") {
        Some(ItemOrDeletedItem::DeletedItem(d)) => assert_eq!(d.item_id, "2"),
        other => panic!("unexpected {:?}", other),
    }
}

#[test]
fn item_flags_round_trip_through_wire_strings() {
    for (a, i) in [(true, false), (false, true), (true, true), (false, false)] {
        let body = format!(
            r#"{{ "list": {{ "9": {} }} }}"#,
            item_json("9", libpocket::encode_flag(a), libpocket::encode_flag(i))
        );
        match parse_get_response_body(&body) {
            Ok(ResponseState::Parsed(l)) => match l.get("9") {
                Some(ItemOrDeletedItem::Item(item)) => {
                    assert_eq!(item.is_article, a);
                    assert_eq!(item.is_index, i);
                }
                other => panic!("unexpected {:?}", other),
            },
            other => panic!("unexpected {:?}", other),
        }
    }
}

#[test]
fn invalid_boolean_encoding_is_not_an_item() {
    let body = format!(r#"{{ "list": {{ "9": {} }} }}"#, item_json("9", "true", "0"));
    match parse_get_response_body(&body) {
        Ok(ResponseState::Parsed(l)) => match l.get("9") {
            Some(ItemOrDeletedItem::DeletedItem(d)) => assert_eq!(d.item_id, "9"),
            other => panic!("unexpected {:?}", other),
        },
        other => panic!("unexpected {:?}", other),
    }
}

#[test]
fn unknown_ordinal_is_not_an_item() {
    let body = item_json("5", "1", "0").replace(r#""status": "0""#, r#""status": "3""#);
    let body = format!(r#"{{ "list": {{ "5": {} }} }}"#, body);
    match parse_get_response_body(&body) {
        Ok(ResponseState::Parsed(l)) => {
            assert!(matches!(l.get("5"), Some(ItemOrDeletedItem::DeletedItem(_))))
        }
        other => panic!("unexpected {:?}", other),
    }
}

#[test]
fn entry_without_item_id_fails_the_page() {
    let body = r#"{ "list": { "1": { "status": "2" } } }"#;
    assert!(matches!(parse_get_response_body(body), Err(DecodeError::UnexpectedShape)));
}

#[test]
fn non_empty_list_array_is_an_error() {
    let body = format!(r#"{{ "list": [{}] }}"#, item_json("1", "1", "0"));
    assert!(matches!(parse_get_response_body(&body), Err(DecodeError::UnexpectedShape)));
}

#[test]
fn missing_list_is_an_error() {
    assert!(matches!(parse_get_response_body(r#"{ "status": 2 }"#), Err(DecodeError::UnexpectedShape)));
}

#[test]
fn truncated_body_is_malformed() {
    assert!(matches!(parse_get_response_body(r#"{ "list": "#), Err(DecodeError::Malformed(_))));
    assert!(matches!(parse_send_response_body("[1,"), Err(DecodeError::Malformed(_))));
}

#[test]
fn modify_single_success_without_item() {
    let parsed =
        parse_send_response_body(r#"{ "action_errors": [null], "action_results": [true]}"#).unwrap();
    let outcomes = zip_outcomes(parsed, 1).unwrap();
    assert_eq!(outcomes, vec![Ok(None)]);
}

#[test]
fn modify_single_failure_yields_action_error() {
    let parsed = parse_send_response_body(
        r#"{ "action_errors": [{"code": 422, "message": "Invalid/non-existent URL", "type": "Unprocessable Entity"}], "action_results": [false]}"#,
    )
    .unwrap();
    let outcomes = zip_outcomes(parsed, 1).unwrap();
    assert_eq!(
        outcomes,
        vec![Err(ActionError {
            code: 422,
            message: String::from("Invalid/non-existent URL"),
            error_type: String::from("Unprocessable Entity"),
        })]
    );
}

fn modified_item_json(id: &str) -> String {
    format!(
        r#"{{ "item_id": "{id}", "resolved_id": "{id}", "given_url": null, "resolved_url": "http://r/{id}",
             "excerpt": "", "is_article": "0", "has_image": "0", "has_video": "1",
             "word_count": "0", "lang": null }}"#
    )
}

#[test]
fn modify_outcomes_follow_action_order() {
    let body = format!(
        r#"{{ "action_errors": [null, null, {{"code": 400, "message": "m", "type": "Bad Request"}}],
             "action_results": [{}, true, false] }}"#,
        modified_item_json("7")
    );
    let parsed = parse_send_response_body(&body).unwrap();
    let outcomes = zip_outcomes(parsed, 3).unwrap();
    assert_eq!(outcomes.len(), 3);
    match &outcomes[0] {
        Ok(Some(m)) => {
            assert_eq!(m.item_id, "7");
            assert_eq!(m.given_url, None);
            assert_eq!(m.lang, None);
            assert_eq!(m.has_video, libpocket::HasVideo::Yes);
        }
        other => panic!("unexpected {:?}", other),
    }
    assert_eq!(outcomes[1], Ok(None));
    assert_eq!(outcomes[2].as_ref().unwrap_err().code, 400);
}

#[test]
fn modify_length_mismatch_is_an_error() {
    let parsed =
        parse_send_response_body(r#"{ "action_errors": [null], "action_results": [true]}"#).unwrap();
    assert!(matches!(zip_outcomes(parsed, 2), Err(DecodeError::LengthMismatch)));
    let parsed = parse_send_response_body(
        r#"{ "action_errors": [null, null], "action_results": [true]}"#,
    )
    .unwrap();
    assert!(matches!(zip_outcomes(parsed, 1), Err(DecodeError::LengthMismatch)));
}

#[test]
fn modify_success_and_error_together_is_reported() {
    let parsed = parse_send_response_body(
        r#"{ "action_errors": [null, {"code": 1, "message": "", "type": ""}], "action_results": [true, true]}"#,
    )
    .unwrap();
    assert!(matches!(zip_outcomes(parsed, 2), Err(DecodeError::Contradiction { index: 1 })));
    let body = format!(
        r#"{{ "action_errors": [{{"code": 1, "message": "", "type": ""}}], "action_results": [{}]}}"#,
        modified_item_json("3")
    );
    let parsed = parse_send_response_body(&body).unwrap();
    assert!(matches!(zip_outcomes(parsed, 1), Err(DecodeError::Contradiction { index: 0 })));
}

#[test]
fn action_error_code_out_of_range_is_rejected() {
    let r = parse_send_response_body(
        r#"{ "action_errors": [{"code": 70000, "message": "", "type": ""}], "action_results": [false]}"#,
    );
    assert!(matches!(r, Err(DecodeError::UnexpectedShape)));
}
