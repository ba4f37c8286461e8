//! Request descriptions: URLs, methods, headers, bodies, and the fail-fast
//! rejection of empty identifiers before any request exists.

use up_api::v1::http::Method;
use up_api::v1::webhooks::ListWebhookLogsOptions;
use up_api::v1::Client;

fn client() -> Client {
    Client::new(String::from("example-access-token"))
}

#[test]
fn every_request_carries_the_bearer_token() {
    let req = client().ping_request().unwrap();
    assert_eq!(req.url, "https://api.up.com.au/api/v1/util/ping");
    assert_eq!(req.method, Method::Get);
    assert_eq!(req.headers.len(), 1);
    assert_eq!(req.headers[0].0, "Authorization");
    assert_eq!(req.headers[0].1, "Bearer example-access-token");
    assert!(req.body.is_none());
}

#[test]
fn empty_transaction_identifier_is_rejected_with_no_request() {
    let r = client().get_transaction_request(&String::new());
    assert!(r.is_none());
}

#[test]
fn empty_account_identifier_is_rejected_with_no_request() {
    assert!(client().get_account_request("").is_none());
    assert!(client().get_category_request("").is_none());
    assert!(client().get_webhook_request("").is_none());
}

#[test]
fn non_empty_identifier_builds_the_single_resource_fetch() {
    let r = client().get_transaction_request(&String::from("abc-123")).unwrap().unwrap();
    assert_eq!(r.url, "https://api.up.com.au/api/v1/transactions/abc-123");
    assert_eq!(r.method, Method::Get);
}

#[test]
fn the_request_url_is_the_parsers_serialization() {
    // A space in the identifier is percent-encoded by the URL parser: the
    // emitted URL is the parser's serialization, not the raw input.
    let r = client().get_account_request("A B").unwrap().unwrap();
    assert_eq!(r.url, "https://api.up.com.au/api/v1/accounts/A%20B");
}

#[test]
fn transactions_by_account_nests_the_account_id() {
    let options = up_api::v1::transactions::ListTransactionsOptions::default();
    let r = client()
        .list_transactions_by_account_request(&String::from("acc-1"), &options)
        .unwrap();
    assert_eq!(r.url, "https://api.up.com.au/api/v1/accounts/acc-1/transactions");
}

#[test]
fn categorise_transaction_patches_a_json_body() {
    let r = client().categorise_transaction_request("tx-1", Some("good-life")).unwrap();
    assert_eq!(r.method, Method::Patch);
    assert_eq!(
        r.url,
        "https://api.up.com.au/api/v1/transactions/tx-1/relationships/category"
    );
    assert_eq!(r.headers.len(), 2);
    assert_eq!(r.headers[1].0, "Content-Type");
    assert_eq!(r.headers[1].1, "application/json");
    assert_eq!(
        r.body.as_deref(),
        Some("{\"data\":{\"type\":\"categories\",\"id\":\"good-life\"}}")
    );
}

#[test]
fn decategorise_transaction_sends_null_data() {
    let r = client().categorise_transaction_request("tx-1", None).unwrap();
    assert_eq!(r.body.as_deref(), Some("{\"data\":null}"));
}

#[test]
fn add_tags_posts_the_tag_identifiers() {
    let tags = vec![String::from("Holiday"), String::from("Food")];
    let r = client().add_tags_request("tx-9", tags).unwrap();
    assert_eq!(r.method, Method::Post);
    assert_eq!(
        r.url,
        "https://api.up.com.au/api/v1/transactions/tx-9/relationships/tags"
    );
    assert_eq!(r.headers.len(), 2);
    assert_eq!(r.headers[1].0, "Content-Type");
    assert_eq!(r.headers[1].1, "application/json");
    assert_eq!(
        r.body.as_deref(),
        Some("{\"data\":[{\"type\":\"tags\",\"id\":\"Holiday\"},{\"type\":\"tags\",\"id\":\"Food\"}]}")
    );
}

#[test]
fn delete_tags_sends_the_same_body_with_delete() {
    let tags = vec![String::from("One")];
    let r = client().delete_tags_request("tx-9", tags).unwrap();
    assert_eq!(r.method, Method::Delete);
    assert_eq!(r.body.as_deref(), Some("{\"data\":[{\"type\":\"tags\",\"id\":\"One\"}]}"));
}

#[test]
fn empty_tag_list_sends_an_empty_data_array() {
    let r = client().add_tags_request("tx-9", Vec::new()).unwrap();
    assert_eq!(r.body.as_deref(), Some("{\"data\":[]}"));
}

#[test]
fn tag_identifiers_are_json_escaped() {
    let tags = vec![String::from("a\"b\\c")];
    let r = client().add_tags_request("tx-9", tags).unwrap();
    assert_eq!(
        r.body.as_deref(),
        Some("{\"data\":[{\"type\":\"tags\",\"id\":\"a\\\"b\\\\c\"}]}")
    );
}

#[test]
fn create_webhook_posts_url_and_description() {
    let r = client()
        .create_webhook_request("https://example.com/hook", Some(String::from("my hook")))
        .unwrap();
    assert_eq!(r.method, Method::Post);
    assert_eq!(r.url, "https://api.up.com.au/api/v1/webhooks");
    assert_eq!(
        r.body.as_deref(),
        Some("{\"data\":{\"attributes\":{\"url\":\"https://example.com/hook\",\"description\":\"my hook\"}}}")
    );
}

#[test]
fn create_webhook_without_description_sends_null() {
    let r = client().create_webhook_request("https://example.com/hook", None).unwrap();
    assert_eq!(
        r.body.as_deref(),
        Some("{\"data\":{\"attributes\":{\"url\":\"https://example.com/hook\",\"description\":null}}}")
    );
}

#[test]
fn control_characters_are_escaped_in_bodies() {
    let r = client()
        .create_webhook_request("https://example.com/hook", Some(String::from("a\nb")))
        .unwrap();
    assert_eq!(
        r.body.as_deref(),
        Some("{\"data\":{\"attributes\":{\"url\":\"https://example.com/hook\",\"description\":\"a\\u000Ab\"}}}")
    );
}

#[test]
fn delete_webhook_is_a_bare_delete() {
    let r = client().delete_webhook_request("wh-1").unwrap();
    assert_eq!(r.method, Method::Delete);
    assert_eq!(r.url, "https://api.up.com.au/api/v1/webhooks/wh-1");
    assert!(r.body.is_none());
}

#[test]
fn ping_webhook_is_an_empty_post_with_explicit_length() {
    let r = client().ping_webhook_request("wh-1").unwrap();
    assert_eq!(r.method, Method::Post);
    assert_eq!(r.url, "https://api.up.com.au/api/v1/webhooks/wh-1/ping");
    assert_eq!(r.headers.len(), 3);
    assert_eq!(r.headers[1].0, "Content-Type");
    assert_eq!(r.headers[2].0, "Content-Length");
    assert_eq!(r.headers[2].1, "0");
    assert!(r.body.is_none());
}

#[test]
fn webhook_logs_request_nests_the_webhook_id() {
    let mut options = ListWebhookLogsOptions::default();
    options.page_size(50);
    let r = client().list_webhook_logs_request("wh-1", &options).unwrap();
    assert_eq!(r.url, "https://api.up.com.au/api/v1/webhooks/wh-1/logs?page[size]=50");
}

#[test]
fn method_names_match_the_wire() {
    assert_eq!(Method::Get.as_str(), "GET");
    assert_eq!(Method::Post.as_str(), "POST");
    assert_eq!(Method::Patch.as_str(), "PATCH");
    assert_eq!(Method::Delete.as_str(), "DELETE");
}
