//! Structural decoding of whole resources: required and optional fields,
//! enumerations, nested objects, and lists.

use up_api::v1::accounts::list_accounts_response;
use up_api::v1::categories::{get_category_response, list_categories_response};
use up_api::v1::json::{Decodable, JsonValue};
use up_api::v1::standard::{
    AccountTypeEnum, CardPurchaseMethodEnum, OwnershipTypeEnum, TransactionStatusEnum,
    WebhookDeliveryStatusEnum, WebhookEventTypeEnum,
};
use up_api::v1::transactions::get_transaction_response;
use up_api::v1::webhooks::{list_webhook_logs_response, ping_webhook_response};

#[test]
fn a_full_transaction_decodes() {
    let body = "{\"data\":{\
        \"type\":\"transactions\",\
        \"id\":\"tx-1\",\
        \"attributes\":{\
            \"status\":\"HELD\",\
            \"rawText\":null,\
            \"description\":\"Pizza Palace\",\
            \"message\":\"dinner\",\
            \"isCategorizable\":true,\
            \"holdInfo\":{\"amount\":{\"currencyCode\":\"AUD\",\"value\":\"-10.56\",\"valueInBaseUnits\":-1056},\"foreignAmount\":null},\
            \"roundUp\":{\"amount\":{\"currencyCode\":\"AUD\",\"value\":\"-0.44\",\"valueInBaseUnits\":-44},\"boostPortion\":null},\
            \"cashback\":null,\
            \"amount\":{\"currencyCode\":\"AUD\",\"value\":\"-10.56\",\"valueInBaseUnits\":-1056},\
            \"foreignAmount\":null,\
            \"cardPurchaseMethod\":{\"method\":\"CONTACTLESS\",\"cardNumberSuffix\":\"1234\"},\
            \"settledAt\":null,\
            \"createdAt\":\"2023-07-18T05:43:02+10:00\"},\
        \"relationships\":{\
            \"account\":{\"data\":{\"type\":\"accounts\",\"id\":\"acc-1\"}},\
            \"transferAccount\":{\"data\":null},\
            \"category\":{\"data\":{\"type\":\"categories\",\"id\":\"takeaway\"},\
                \"links\":{\"self\":\"https://api.up.com.au/api/v1/transactions/tx-1/relationships/category\"}},\
            \"parentCategory\":{\"data\":{\"type\":\"categories\",\"id\":\"good-life\"}},\
            \"tags\":{\"data\":[{\"type\":\"tags\",\"id\":\"Pizza\"}],\
                \"links\":{\"self\":\"https://api.up.com.au/api/v1/transactions/tx-1/relationships/tags\"}}},\
        \"links\":{\"self\":\"https://api.up.com.au/api/v1/transactions/tx-1\"}}}";
    let r = get_transaction_response(200, body).unwrap();
    let tx = r.data;
    assert_eq!(tx.resource_type, "transactions");
    assert_eq!(tx.id, "tx-1");
    assert_eq!(tx.attributes.status, TransactionStatusEnum::Held);
    assert!(tx.attributes.raw_text.is_none());
    assert_eq!(tx.attributes.description, "Pizza Palace");
    assert_eq!(tx.attributes.message.as_deref(), Some("dinner"));
    assert!(tx.attributes.is_categorizable);
    let hold = tx.attributes.hold_info.as_ref().unwrap();
    assert_eq!(hold.amount.value_in_base_units, -1056);
    assert!(hold.foreign_amount.is_none());
    let round_up = tx.attributes.round_up.as_ref().unwrap();
    assert_eq!(round_up.amount.value, "-0.44");
    assert!(tx.attributes.cashback.is_none());
    assert_eq!(tx.attributes.amount.currency_code, "AUD");
    let card = tx.attributes.card_purchase_method.as_ref().unwrap();
    assert_eq!(card.method, CardPurchaseMethodEnum::Contactless);
    assert_eq!(card.card_number_suffix.as_deref(), Some("1234"));
    assert!(tx.attributes.settled_at.is_none());
    assert_eq!(tx.relationships.account.data.id, "acc-1");
    assert!(tx.relationships.transfer_account.data.is_none());
    assert_eq!(tx.relationships.category.data.as_ref().unwrap().id, "takeaway");
    assert_eq!(tx.relationships.tags.data.len(), 1);
    assert_eq!(tx.relationships.tags.data[0].id, "Pizza");
    assert_eq!(
        tx.links.as_ref().unwrap().this,
        "https://api.up.com.au/api/v1/transactions/tx-1"
    );
}

#[test]
fn an_unknown_enum_value_fails_the_decode() {
    let body = "{\"data\":{\"type\":\"transactions\",\"id\":\"t\",\"attributes\":{\
        \"status\":\"PENDING\",\"rawText\":null,\"description\":\"d\",\"message\":null,\
        \"isCategorizable\":false,\"holdInfo\":null,\"roundUp\":null,\"cashback\":null,\
        \"amount\":{\"currencyCode\":\"AUD\",\"value\":\"1\",\"valueInBaseUnits\":100},\
        \"foreignAmount\":null,\"cardPurchaseMethod\":null,\"settledAt\":null,\
        \"createdAt\":\"now\"},\"relationships\":{\"account\":{\"data\":{\"type\":\"accounts\",\"id\":\"a\"}},\
        \"transferAccount\":{},\"category\":{},\"parentCategory\":{},\
        \"tags\":{\"data\":[]}}}}";
    let r = get_transaction_response(200, body);
    assert!(r.is_err());
}

#[test]
fn a_page_of_accounts_decodes_with_its_links() {
    let body = "{\"data\":[{\"type\":\"accounts\",\"id\":\"acc-1\",\
        \"attributes\":{\"displayName\":\"Spending\",\"accountType\":\"TRANSACTIONAL\",\
        \"ownershipType\":\"INDIVIDUAL\",\
        \"balance\":{\"currencyCode\":\"AUD\",\"value\":\"10.56\",\"valueInBaseUnits\":1056},\
        \"createdAt\":\"2021-01-01T00:00:00+10:00\"},\
        \"relationships\":{\"transactions\":{\"links\":{\"related\":\"https://api.up.com.au/api/v1/accounts/acc-1/transactions\"}}},\
        \"links\":{\"self\":\"https://api.up.com.au/api/v1/accounts/acc-1\"}}],\
        \"links\":{\"prev\":null,\"next\":\"https://api.up.com.au/api/v1/accounts?page[after]=x\"}}";
    let r = list_accounts_response(200, body).unwrap();
    assert_eq!(r.data.len(), 1);
    assert_eq!(r.data[0].attributes.display_name, "Spending");
    assert_eq!(r.data[0].attributes.balance.value_in_base_units, 1056);
    assert!(r.links.prev.is_none());
    assert_eq!(
        r.links.next.as_deref(),
        Some("https://api.up.com.au/api/v1/accounts?page[after]=x")
    );
}

#[test]
fn one_bad_element_fails_the_whole_list() {
    let body = "{\"data\":[{\"type\":\"accounts\"}],\"links\":{\"prev\":null,\"next\":null}}";
    let r = list_accounts_response(200, body);
    assert!(r.is_err());
}

#[test]
fn a_category_with_children_decodes() {
    let body = "{\"data\":{\"type\":\"categories\",\"id\":\"good-life\",\
        \"attributes\":{\"name\":\"Good Life\"},\
        \"relationships\":{\"parent\":{\"data\":null},\
        \"children\":{\"data\":[{\"type\":\"categories\",\"id\":\"takeaway\"},\
        {\"type\":\"categories\",\"id\":\"booze\"}]}}}}";
    let r = get_category_response(200, body).unwrap();
    assert_eq!(r.data.attributes.name, "Good Life");
    assert!(r.data.relationships.parent.data.is_none());
    assert_eq!(r.data.relationships.children.data.len(), 2);
    assert_eq!(r.data.relationships.children.data[1].id, "booze");
}

#[test]
fn the_category_list_has_no_pagination_links() {
    let body = "{\"data\":[]}";
    let r = list_categories_response(200, body).unwrap();
    assert!(r.data.is_empty());
}

#[test]
fn a_ping_event_decodes_with_its_enum() {
    let body = "{\"data\":{\"type\":\"webhook-events\",\"id\":\"ev-1\",\
        \"attributes\":{\"eventType\":\"PING\",\"createdAt\":\"2023-01-01T00:00:00+10:00\"},\
        \"relationships\":{\"webhook\":{\"data\":{\"type\":\"webhooks\",\"id\":\"wh-1\"}},\
        \"transaction\":null}}}";
    let r = ping_webhook_response(201, body).unwrap();
    assert_eq!(r.data.attributes.event_type, WebhookEventTypeEnum::Ping);
    assert_eq!(r.data.relationships.webhook.data.id, "wh-1");
    assert!(r.data.relationships.transaction.is_none());
}

#[test]
fn a_delivery_log_decodes_with_status_and_response() {
    let body = "{\"data\":[{\"type\":\"webhook-delivery-logs\",\"id\":\"log-1\",\
        \"attributes\":{\"request\":{\"body\":\"{}\"},\
        \"response\":{\"statusCode\":200,\"body\":\"ok\"},\
        \"deliveryStatus\":\"DELIVERED\",\"createdAt\":\"2023-01-01T00:00:00+10:00\"},\
        \"relationships\":{\"webhookEvent\":{\"data\":{\"type\":\"webhook-events\",\"id\":\"ev-1\"}}}}],\
        \"links\":{\"prev\":null,\"next\":null}}";
    let r = list_webhook_logs_response(200, body).unwrap();
    assert_eq!(r.data.len(), 1);
    let log = &r.data[0];
    assert_eq!(log.attributes.delivery_status, WebhookDeliveryStatusEnum::Delivered);
    assert_eq!(log.attributes.response.as_ref().unwrap().status_code, 200);
    assert_eq!(log.relationships.webhook_event.data.id, "ev-1");
}

#[test]
fn a_number_in_place_of_a_string_fails() {
    let body = "{\"data\":[],\"links\":{\"prev\":null,\"next\":17}}";
    let r = list_accounts_response(200, body);
    assert!(r.is_err());
}

#[test]
fn standalone_enumerations_decode_from_their_wire_names() {
    let v = JsonValue::Str(String::from("SAVER"));
    assert_eq!(AccountTypeEnum::decode(&v), Some(AccountTypeEnum::Saver));
    let v = JsonValue::Str(String::from("TRANSACTIONAL"));
    assert_eq!(AccountTypeEnum::decode(&v), Some(AccountTypeEnum::Transactional));
    let v = JsonValue::Str(String::from("saver"));
    assert_eq!(AccountTypeEnum::decode(&v), None);
    let v = JsonValue::Str(String::from("JOINT"));
    assert_eq!(OwnershipTypeEnum::decode(&v), Some(OwnershipTypeEnum::Joint));
    let v = JsonValue::Int(3);
    assert_eq!(OwnershipTypeEnum::decode(&v), None);
}

#[test]
fn duplicate_object_keys_resolve_to_one_value() {
    // The JSON parser resolves duplicate keys before the library decodes,
    // so the decoded value reflects the parser's choice, not a mixture.
    let body = "{\"meta\":{\"id\":\"first\",\"id\":\"second\",\"statusEmoji\":\"ok\"}}";
    let r = up_api::v1::utilities::ping_response(200, body).unwrap();
    assert_eq!(r.meta.id, "second");
}
