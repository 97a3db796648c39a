use rollbar_resolve::{
    ApiError, FetchOutcome, ItemId, ItemInstance, JsonValue, Op, RollbarClient,
    instance_from_payload, latest_instance_from_payload,
};

fn client() -> RollbarClient {
    RollbarClient::new("a-test-access-token".to_string())
}

fn response(status: u16, body: &str) -> FetchOutcome {
    FetchOutcome::Response { status, body: body.to_string() }
}

#[test]
fn empty_bare_list_is_none_not_failure() {
    let c = client();
    let r = c.get_latest_instance(ItemId(1), response(200, "{\"err\": 0, \"result\": []}"));
    assert_eq!(r, Ok(None));
}

#[test]
fn empty_wrapped_list_is_none_not_failure() {
    let c = client();
    let body = "{\"err\": 0, \"result\": {\"instances\": []}}";
    let r = c.get_latest_instance(ItemId(1), response(200, body));
    assert_eq!(r, Ok(None));
}

const THREE: &str = "[{\"id\": 1}, {\"id\": 2}, {\"id\": 3, \"timestamp\": 1700000000}]";

#[test]
fn bare_list_of_three_returns_the_last() {
    let c = client();
    let body = format!("{{\"err\": 0, \"result\": {}}}", THREE);
    let r = c.get_latest_instance(ItemId(1), response(200, &body));
    let inst = r.unwrap().unwrap();
    assert_eq!(inst.id, 3);
    assert_eq!(inst.timestamp, Some(1700000000));
}

#[test]
fn wrapped_list_of_three_returns_the_same_last() {
    let c = client();
    let bare_body = format!("{{\"err\": 0, \"result\": {}}}", THREE);
    let wrapped_body = format!("{{\"err\": 0, \"result\": {{\"instances\": {}}}}}", THREE);
    let bare = c.get_latest_instance(ItemId(1), response(200, &bare_body));
    let wrapped = c.get_latest_instance(ItemId(1), response(200, &wrapped_body));
    assert_eq!(bare, wrapped);
    assert_eq!(wrapped.unwrap().unwrap().id, 3);
}

#[test]
fn free_form_fields_are_carried_through() {
    let c = client();
    let body = "{\"err\": 0, \"result\": [{\"id\": 5, \"body\": {\"trace\": \"x\"}, \
         \"data\": null}]}";
    let inst = c
        .get_latest_instance(ItemId(1), response(200, body))
        .unwrap()
        .unwrap();
    assert_eq!(
        inst.body,
        Some(JsonValue::Object(vec![(
            "trace".to_string(),
            JsonValue::Str("x".to_string())
        )]))
    );
    assert_eq!(inst.data, None);
}

#[test]
fn element_without_id_is_decode_error() {
    let c = client();
    let body = "{\"err\": 0, \"result\": [{\"id\": 1}, {\"timestamp\": 5}]}";
    let r = c.get_latest_instance(ItemId(1), response(200, body));
    assert_eq!(r, Err(ApiError::Decode { op: Op::ItemInstances }));
}

#[test]
fn non_list_payload_is_decode_error() {
    let c = client();
    let body = "{\"err\": 0, \"result\": {\"instances\": 7}}";
    let r = c.get_latest_instance(ItemId(1), response(200, body));
    assert_eq!(r, Err(ApiError::Decode { op: Op::ItemInstances }));
}

#[test]
fn instance_decoding_on_built_payloads() {
    let v = JsonValue::Object(vec![
        ("id".to_string(), JsonValue::UInt(11)),
        ("timestamp".to_string(), JsonValue::Null),
    ]);
    assert_eq!(
        instance_from_payload(v),
        Some(ItemInstance { id: 11, timestamp: None, body: None, data: None })
    );
    let bad = JsonValue::Object(vec![("id".to_string(), JsonValue::Str("11".to_string()))]);
    assert_eq!(instance_from_payload(bad), None);
}

#[test]
fn latest_on_built_payloads_takes_first_binding_of_instances() {
    let items = JsonValue::Array(vec![JsonValue::Object(vec![(
        "id".to_string(),
        JsonValue::UInt(4),
    )])]);
    let wrapped = JsonValue::Object(vec![("instances".to_string(), items)]);
    let r = latest_instance_from_payload(wrapped);
    assert_eq!(
        r,
        Some(Some(ItemInstance { id: 4, timestamp: None, body: None, data: None }))
    );
}
