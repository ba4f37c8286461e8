//! Pagination, once for every paginated resource kind: a decoded page
//! carries optional `next`/`prev` links, and fetching an adjacent page is a
//! plain `GET` of that exact link — the link already encodes the original
//! filters. An absent link means "no further page", and no request exists
//! to dispatch.

use vstd::prelude::*;

use crate::v1::http::{auth_headers, get_request, header_views, HttpRequest, Method};
use crate::v1::json::{f_opt_str, s_opt_str, JsonValue};
use crate::v1::Client;

verus! {

/// The decoded `links` object of a page: its optional `prev` and `next`
/// URLs, in that order.
pub open spec fn spec_links(v: JsonValue) -> Option<(Option<String>, Option<String>)> {
    match v {
        JsonValue::Obj(es) => match (s_opt_str(es@, "prev"@), s_opt_str(es@, "next"@)) {
            (Some(prev), Some(next)) => Some((prev, next)),
            _ => None,
        },
        _ => None,
    }
}

/// Decodes the `links` object of a page into its `prev` and `next` URLs.
pub fn decode_links(v: &JsonValue) -> (r: Option<(Option<String>, Option<String>)>)
    ensures
        r == spec_links(*v),
{
    match v {
        JsonValue::Obj(es) => match (f_opt_str(es, "prev"), f_opt_str(es, "next")) {
            (Some(prev), Some(next)) => Some((prev, next)),
            _ => None,
        },
        _ => None,
    }
}

/// A decoded page envelope: an ordered `data` sequence (left to each
/// implementing type) plus optional absolute links to the adjacent pages.
pub trait Paginated {
    /// The link to the next page, absent on the last page.
    spec fn spec_next(&self) -> Option<String>;

    /// The link to the previous page, absent on the first page.
    spec fn spec_prev(&self) -> Option<String>;

    fn next_link(&self) -> (r: &Option<String>)
        ensures
            *r == self.spec_next(),
    ;

    fn prev_link(&self) -> (r: &Option<String>)
        ensures
            *r == self.spec_prev(),
    ;
}

/// The request that fetches the page after this one: `None` exactly when
/// `links.next` is absent — the consumer has reached the end of the forward
/// direction, which is no error, and no request is built. Otherwise a `GET`
/// of exactly the linked URL, with the bearer token and nothing else.
pub fn next_page_request<T: Paginated>(page: &T, client: &Client) -> (r: Option<HttpRequest>)
    ensures
        r is Some <==> page.spec_next() is Some,
        r matches Some(req) ==> {
            &&& req.method == Method::Get
            &&& page.spec_next() matches Some(u) && req.url == u
            &&& header_views(req.headers@) == auth_headers(client.token())
            &&& req.body is None
        },
{
    match page.next_link() {
        Some(u) => Some(get_request(client, u.clone())),
        None => None,
    }
}

/// The request that fetches the page before this one: `None` exactly when
/// `links.prev` is absent — the consumer is on the first page. Otherwise a
/// `GET` of exactly the linked URL, with the bearer token and nothing else.
pub fn prev_page_request<T: Paginated>(page: &T, client: &Client) -> (r: Option<HttpRequest>)
    ensures
        r is Some <==> page.spec_prev() is Some,
        r matches Some(req) ==> {
            &&& req.method == Method::Get
            &&& page.spec_prev() matches Some(u) && req.url == u
            &&& header_views(req.headers@) == auth_headers(client.token())
            &&& req.body is None
        },
{
    match page.prev_link() {
        Some(u) => Some(get_request(client, u.clone())),
        None => None,
    }
}

} // verus!
