//! The query builder: declared order, percent-encoding, and the empty case.

use up_api::v1::accounts::ListAccountsOptions;
use up_api::v1::transactions::ListTransactionsOptions;
use up_api::v1::tags::ListTagsOptions;
use up_api::v1::Client;

fn client() -> Client {
    Client::new(String::from("example-access-token"))
}

#[test]
fn no_present_values_emits_no_query_string() {
    let options = ListTransactionsOptions::default();
    let req = client().list_transactions_request(&options).unwrap();
    assert_eq!(req.url, "https://api.up.com.au/api/v1/transactions");
    assert!(!req.url.contains('?'));
}

#[test]
fn no_present_values_emits_no_query_string_accounts() {
    let options = ListAccountsOptions::default();
    let req = client().list_accounts_request(&options).unwrap();
    assert_eq!(req.url, "https://api.up.com.au/api/v1/accounts");
}

#[test]
fn present_entries_appear_in_declared_order() {
    let mut options = ListTransactionsOptions::default();
    options.filter_tag(String::from("Holiday"));
    options.filter_status(String::from("HELD"));
    options.page_size(30);
    let req = client().list_transactions_request(&options).unwrap();
    assert_eq!(
        req.url,
        "https://api.up.com.au/api/v1/transactions?page[size]=30&filter[status]=HELD&filter[tag]=Holiday"
    );
}

#[test]
fn all_transaction_filters_in_declared_order() {
    let mut options = ListTransactionsOptions::default();
    options.page_size(5);
    options.filter_status(String::from("SETTLED"));
    options.filter_since(String::from("2020-01-01T01:02:03+10:00"));
    options.filter_until(String::from("2020-02-01T01:02:03+10:00"));
    options.filter_category(String::from("good-life"));
    options.filter_tag(String::from("Pizza Night"));
    let req = client().list_transactions_request(&options).unwrap();
    assert_eq!(
        req.url,
        "https://api.up.com.au/api/v1/transactions?page[size]=5&filter[status]=SETTLED\
         &filter[since]=2020-01-01T01%3A02%3A03%2B10%3A00\
         &filter[until]=2020-02-01T01%3A02%3A03%2B10%3A00\
         &filter[category]=good-life&filter[tag]=Pizza%20Night"
    );
}

#[test]
fn values_are_percent_encoded() {
    let mut options = ListTransactionsOptions::default();
    options.filter_tag(String::from("a b&c=d"));
    let req = client().list_transactions_request(&options).unwrap();
    assert_eq!(
        req.url,
        "https://api.up.com.au/api/v1/transactions?filter[tag]=a%20b%26c%3Dd"
    );
}

#[test]
fn non_ascii_values_are_encoded_as_utf8_bytes() {
    let mut options = ListTransactionsOptions::default();
    options.filter_tag(String::from("caf\u{e9}"));
    let req = client().list_transactions_request(&options).unwrap();
    assert_eq!(
        req.url,
        "https://api.up.com.au/api/v1/transactions?filter[tag]=caf%C3%A9"
    );
}

#[test]
fn unreserved_characters_pass_through() {
    let mut options = ListTransactionsOptions::default();
    options.filter_tag(String::from("Az09-._~"));
    let req = client().list_transactions_request(&options).unwrap();
    assert_eq!(
        req.url,
        "https://api.up.com.au/api/v1/transactions?filter[tag]=Az09-._~"
    );
}

#[test]
fn page_size_renders_in_decimal() {
    let mut options = ListTagsOptions::default();
    options.page_size(100);
    let req = client().list_tags_request(&options).unwrap();
    assert_eq!(req.url, "https://api.up.com.au/api/v1/tags?page[size]=100");

    let mut options = ListTagsOptions::default();
    options.page_size(7);
    let req = client().list_tags_request(&options).unwrap();
    assert_eq!(req.url, "https://api.up.com.au/api/v1/tags?page[size]=7");
}

#[test]
fn accounts_filters_in_declared_order() {
    let mut options = ListAccountsOptions::default();
    options.page_size(12);
    options.filter_account_type(String::from("SAVER"));
    options.filter_owership_type(String::from("INDIVIDUAL"));
    let req = client().list_accounts_request(&options).unwrap();
    assert_eq!(
        req.url,
        "https://api.up.com.au/api/v1/accounts?page[size]=12&filter[accountType]=SAVER&filter[ownershipType]=INDIVIDUAL"
    );
}
