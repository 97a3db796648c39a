use rollbar_resolve::{
    ApiError, FetchOutcome, Item, ItemCounter, ItemId, JsonValue, Op, RollbarClient,
    item_id_from_payload,
};

fn client() -> RollbarClient {
    RollbarClient::new("a-test-access-token".to_string())
}

fn response(status: u16, body: &str) -> FetchOutcome {
    FetchOutcome::Response { status, body: body.to_string() }
}

const FULL_ITEM: &str = "{\"id\": 42, \"project_id\": 9, \"counter\": 7, \
     \"title\": \"boom\", \"status\": \"active\"}";

#[test]
fn full_item_payload_resolves_to_its_id() {
    let c = client();
    let body = format!("{{\"err\": 0, \"result\": {}}}", FULL_ITEM);
    let r = c.resolve_item_id_by_counter(ItemCounter(7), response(200, &body));
    assert_eq!(r, Ok(ItemId(42)));
}

#[test]
fn redirect_stub_resolves_to_its_item_id() {
    let c = client();
    let body = "{\"err\": 0, \"result\": {\"itemId\": 99}}";
    let r = c.resolve_item_id_by_counter(ItemCounter(7), response(200, body));
    assert_eq!(r, Ok(ItemId(99)));
}

#[test]
fn full_item_shape_takes_precedence_over_redirect() {
    // A payload carrying both the full record and a stray redirect field
    // must resolve through the richer shape.
    let c = client();
    let body = "{\"err\": 0, \"result\": {\"id\": 42, \"project_id\": 9, \"counter\": 7, \
         \"title\": \"boom\", \"status\": \"active\", \"itemId\": 99}}";
    let r = c.resolve_item_id_by_counter(ItemCounter(7), response(200, body));
    assert_eq!(r, Ok(ItemId(42)));
}

#[test]
fn payload_matching_neither_shape_is_decode_error() {
    let c = client();
    let body = "{\"err\": 0, \"result\": {\"unrelated\": true}}";
    let r = c.resolve_item_id_by_counter(ItemCounter(7), response(200, body));
    assert_eq!(r, Err(ApiError::Decode { op: Op::ItemByCounter }));
}

#[test]
fn redirect_with_non_integer_id_is_decode_error() {
    let c = client();
    let body = "{\"err\": 0, \"result\": {\"itemId\": \"99\"}}";
    let r = c.resolve_item_id_by_counter(ItemCounter(7), response(200, body));
    assert_eq!(r, Err(ApiError::Decode { op: Op::ItemByCounter }));
}

#[test]
fn item_id_normalization_on_built_payloads() {
    let stub = JsonValue::Object(vec![("itemId".to_string(), JsonValue::UInt(8))]);
    assert_eq!(item_id_from_payload(&stub), Some(ItemId(8)));
    let not_a_stub = JsonValue::Object(vec![("itemId".to_string(), JsonValue::Str(
        "8".to_string(),
    ))]);
    assert_eq!(item_id_from_payload(&not_a_stub), None);
    assert_eq!(item_id_from_payload(&JsonValue::Null), None);
}

#[test]
fn get_item_decodes_the_full_record() {
    let c = client();
    let body = "{\"err\": 0, \"result\": {\"id\": 42, \"project_id\": 9, \"counter\": 7, \
         \"title\": \"boom\", \"status\": \"active\", \"environment\": \"production\", \
         \"total_occurrences\": 3}}";
    let r = c.get_item(ItemId(42), response(200, body));
    assert_eq!(
        r,
        Ok(Item {
            id: 42,
            project_id: 9,
            counter: 7,
            title: "boom".to_string(),
            status: "active".to_string(),
            environment: Some("production".to_string()),
            total_occurrences: Some(3),
        })
    );
}

#[test]
fn absent_optional_fields_decode_to_explicit_none() {
    let c = client();
    let body = format!("{{\"err\": 0, \"result\": {}}}", FULL_ITEM);
    let item = c.get_item(ItemId(42), response(200, &body)).unwrap();
    assert_eq!(item.environment, None);
    assert_eq!(item.total_occurrences, None);
}

#[test]
fn empty_string_environment_is_present_not_absent() {
    let c = client();
    let body = "{\"err\": 0, \"result\": {\"id\": 42, \"project_id\": 9, \"counter\": 7, \
         \"title\": \"boom\", \"status\": \"active\", \"environment\": \"\"}}";
    let item = c.get_item(ItemId(42), response(200, body)).unwrap();
    assert_eq!(item.environment, Some(String::new()));
    assert_ne!(item.environment, None);
}

#[test]
fn null_optional_fields_decode_to_none() {
    let c = client();
    let body = "{\"err\": 0, \"result\": {\"id\": 42, \"project_id\": 9, \"counter\": 7, \
         \"title\": \"boom\", \"status\": \"active\", \"environment\": null, \
         \"total_occurrences\": null}}";
    let item = c.get_item(ItemId(42), response(200, body)).unwrap();
    assert_eq!(item.environment, None);
    assert_eq!(item.total_occurrences, None);
}

#[test]
fn get_item_refuses_a_redirect_stub() {
    let c = client();
    let body = "{\"err\": 0, \"result\": {\"itemId\": 99}}";
    let r = c.get_item(ItemId(42), response(200, body));
    assert_eq!(r, Err(ApiError::Decode { op: Op::Item }));
}

#[test]
fn item_with_missing_required_field_is_decode_error() {
    let c = client();
    let body = "{\"err\": 0, \"result\": {\"id\": 42, \"project_id\": 9, \"counter\": 7, \
         \"title\": \"boom\"}}";
    let r = c.get_item(ItemId(42), response(200, body));
    assert_eq!(r, Err(ApiError::Decode { op: Op::Item }));
}
