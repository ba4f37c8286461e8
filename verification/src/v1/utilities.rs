//! Types for modelling and interacting with the utility endpoints.

use vstd::prelude::*;

use crate::v1::error::Error;
use crate::v1::http::{
    auth_headers, classified, classify_response, get_request, header_views, parse_request_url,
    url_normalized, HttpRequest, Method,
};
use crate::v1::json::{f_str, get, json_of, s_field, s_str, Decodable, JsonValue};
use crate::v1::{base_url, spec_base_url, Client};

verus! {

/// The response to a ping: useful to verify that authentication works.
#[derive(Debug, Clone, PartialEq)]
pub struct PingResponse {
    pub meta: Meta,
}

/// The metadata of a ping response.
#[derive(Debug, Clone, PartialEq)]
pub struct Meta {
    /// The unique identifier of the authenticated customer.
    pub id: String,
    /// An emoji that represents the response status (the wire field
    /// `statusEmoji`).
    pub status_emoji: String,
}

pub open spec fn spec_meta(v: JsonValue) -> Option<Meta> {
    match v {
        JsonValue::Obj(es) => match (s_str(es@, "id"@), s_str(es@, "statusEmoji"@)) {
            (Some(id), Some(status_emoji)) => Some(Meta { id, status_emoji }),
            _ => None,
        },
        _ => None,
    }
}

impl Decodable for Meta {
    open spec fn decode_ok(v: JsonValue) -> bool {
        spec_meta(v) is Some
    }

    open spec fn decode_rel(v: JsonValue, t: Self) -> bool {
        spec_meta(v) == Some(t)
    }

    fn decode(v: &JsonValue) -> (r: Option<Self>) {
        match v {
            JsonValue::Obj(es) => match (f_str(es, "id"), f_str(es, "statusEmoji")) {
                (Some(id), Some(status_emoji)) => Some(Meta { id, status_emoji }),
                _ => None,
            },
            _ => None,
        }
    }
}

pub open spec fn spec_ping_response(v: JsonValue) -> Option<PingResponse> {
    match v {
        JsonValue::Obj(es) => match s_field(es@, "meta"@, |x: JsonValue| spec_meta(x)) {
            Some(meta) => Some(PingResponse { meta }),
            None => None,
        },
        _ => None,
    }
}

impl Decodable for PingResponse {
    open spec fn decode_ok(v: JsonValue) -> bool {
        spec_ping_response(v) is Some
    }

    open spec fn decode_rel(v: JsonValue, t: Self) -> bool {
        spec_ping_response(v) == Some(t)
    }

    fn decode(v: &JsonValue) -> (r: Option<Self>) {
        match v {
            JsonValue::Obj(es) => match get(es, "meta") {
                Some(mv) => match Meta::decode(mv) {
                    Some(meta) => Some(PingResponse { meta }),
                    None => None,
                },
                None => None,
            },
            _ => None,
        }
    }
}

impl Client {
    /// Describes the basic ping request, useful to verify that
    /// authentication is functioning correctly.
    pub fn ping_request(&self) -> (r: Result<HttpRequest, Error>)
        ensures
            r is Ok <==> url_normalized(spec_base_url() + "/util/ping"@) is Some,
            r matches Ok(req) ==> {
                &&& req.method == Method::Get
                &&& url_normalized(spec_base_url() + "/util/ping"@) matches Some(u) && req.url@
                    == u
                &&& header_views(req.headers@) == auth_headers(self.token())
                &&& req.body is None
            },
            r matches Err(e) ==> e matches Error::UrlParse(_),
    {
        let mut full = String::from_str(base_url());
        full.append("/util/ping");
        proof {
            assert(full@ =~= spec_base_url() + "/util/ping"@);
        }
        match parse_request_url(full) {
            Ok(u) => Ok(get_request(self, u)),
            Err(e) => Err(e),
        }
    }
}

/// Classifies and decodes the response to a `ping_request`; the endpoint's
/// success status is 200.
pub fn ping_response(status: u16, body: &str) -> (r: Result<PingResponse, Error>)
    ensures
        classified::<PingResponse>(200, status, json_of(body@), r),
{
    classify_response::<PingResponse>(200, status, body)
}

} // verus!
