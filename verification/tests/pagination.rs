//! Pagination: an absent link means "no further page" and no request; a
//! present link is fetched exactly as given.

use up_api::v1::http::Method;
use up_api::v1::paginate::{next_page_request, prev_page_request};
use up_api::v1::transactions::{ListTransactionsResponse, ResponseLinks};
use up_api::v1::webhooks;
use up_api::v1::Client;

fn client() -> Client {
    Client::new(String::from("example-access-token"))
}

fn page(prev: Option<&str>, next: Option<&str>) -> ListTransactionsResponse {
    ListTransactionsResponse {
        data: Vec::new(),
        links: ResponseLinks {
            prev: prev.map(String::from),
            next: next.map(String::from),
        },
    }
}

#[test]
fn absent_next_link_means_no_further_page_and_no_request() {
    let p = page(None, None);
    assert!(next_page_request(&p, &client()).is_none());
}

#[test]
fn absent_prev_link_means_first_page_and_no_request() {
    let p = page(None, Some("https://api.up.com.au/api/v1/transactions?page[after]=x"));
    assert!(prev_page_request(&p, &client()).is_none());
}

#[test]
fn present_next_link_is_fetched_exactly_as_given() {
    let link = "https://api.up.com.au/api/v1/transactions?page[size]=2&page[after]=abc";
    let p = page(None, Some(link));
    let req = next_page_request(&p, &client()).unwrap();
    assert_eq!(req.method, Method::Get);
    assert_eq!(req.url, link);
    assert_eq!(req.headers.len(), 1);
    assert_eq!(req.headers[0].0, "Authorization");
    assert_eq!(req.headers[0].1, "Bearer example-access-token");
    assert!(req.body.is_none());
}

#[test]
fn present_prev_link_is_fetched_exactly_as_given() {
    let link = "https://api.up.com.au/api/v1/transactions?page[before]=abc";
    let p = page(Some(link), None);
    let req = prev_page_request(&p, &client()).unwrap();
    assert_eq!(req.method, Method::Get);
    assert_eq!(req.url, link);
}

#[test]
fn every_paginated_kind_exposes_the_same_traversal() {
    let wh = webhooks::ListWebhooksResponse {
        data: Vec::new(),
        links: webhooks::ResponseLinks {
            prev: None,
            next: Some(String::from("https://api.up.com.au/api/v1/webhooks?page[after]=1")),
        },
    };
    let req = next_page_request(&wh, &client()).unwrap();
    assert_eq!(req.url, "https://api.up.com.au/api/v1/webhooks?page[after]=1");

    let logs = webhooks::ListWebhookLogsResponse {
        data: Vec::new(),
        links: webhooks::LogsResponseLinks { prev: None, next: None },
    };
    assert!(next_page_request(&logs, &client()).is_none());
}

#[test]
fn a_fetched_next_page_is_a_fresh_envelope() {
    // Decoding the linked page produces a brand-new envelope; the page that
    // produced the link is untouched.
    let link = "https://api.up.com.au/api/v1/transactions?page[after]=abc";
    let p = page(None, Some(link));
    let body = "{\"data\":[],\"links\":{\"prev\":null,\"next\":null}}";
    let next = up_api::v1::transactions::list_transactions_response(200, body).unwrap();
    assert_eq!(p.links.next.as_deref(), Some(link));
    assert!(next.links.next.is_none());
    assert!(next_page_request(&next, &client()).is_none());
}
