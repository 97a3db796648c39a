use rollbar_resolve::{ItemCounter, ItemId, RollbarClient};

#[test]
fn client_keeps_the_access_token_and_base_address() {
    let c = RollbarClient::new("a-test-access-token".to_string());
    assert_eq!(c.access_token, "a-test-access-token");
    assert_eq!(c.base_url, "https://api.rollbar.com/api/1");
}

#[test]
fn auth_header_name_is_fixed() {
    assert_eq!(RollbarClient::auth_header_name(), "X-Rollbar-Access-Token");
}

#[test]
fn counter_url_embeds_the_counter() {
    let c = RollbarClient::new("t".to_string());
    assert_eq!(
        c.item_by_counter_url(ItemCounter(123)),
        "https://api.rollbar.com/api/1/item_by_counter/123"
    );
    assert_eq!(
        c.item_by_counter_url(ItemCounter(0)),
        "https://api.rollbar.com/api/1/item_by_counter/0"
    );
}

#[test]
fn item_url_embeds_the_identifier() {
    let c = RollbarClient::new("t".to_string());
    assert_eq!(c.item_url(ItemId(42)), "https://api.rollbar.com/api/1/item/42/");
    assert_eq!(
        c.item_url(ItemId(18446744073709551615)),
        "https://api.rollbar.com/api/1/item/18446744073709551615/"
    );
}

#[test]
fn latest_instance_url_asks_for_one_instance() {
    let c = RollbarClient::new("t".to_string());
    assert_eq!(
        c.latest_instance_url(ItemId(42)),
        "https://api.rollbar.com/api/1/item/42/instances?per_page=1"
    );
}
