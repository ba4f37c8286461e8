//! Request descriptions and response classification: what is sent (method,
//! URL, headers, optional body) and how a raw status and body are mapped to
//! a decoded value, an API error envelope, or a local failure kind.

use vstd::prelude::*;

use crate::v1::error::{Error, ErrorResponse};
use crate::v1::json::{json_of, parse_json, Decodable, JsonValue};
use crate::v1::Client;

verus! {

/// The HTTP methods the API is called with.
#[derive(Debug, Clone, Copy, PartialEq, Eq, Structural)]
pub enum Method {
    Get,
    Post,
    Patch,
    Delete,
}

/// The wire name of a method.
pub open spec fn method_name(m: Method) -> Seq<char> {
    match m {
        Method::Get => "GET"@,
        Method::Post => "POST"@,
        Method::Patch => "PATCH"@,
        Method::Delete => "DELETE"@,
    }
}

impl Method {
    /// The wire name of this method.
    pub fn as_str(&self) -> (r: &'static str)
        ensures
            r@ == method_name(*self),
    {
        match self {
            Method::Get => "GET",
            Method::Post => "POST",
            Method::Patch => "PATCH",
            Method::Delete => "DELETE",
        }
    }
}

/// One request, fully described: dispatching it (outside this library) must
/// send exactly this method, URL, headers and body, and nothing else.
#[derive(Debug)]
pub struct HttpRequest {
    pub method: Method,
    pub url: String,
    pub headers: Vec<(String, String)>,
    pub body: Option<String>,
}

/// The headers as text, in order.
pub open spec fn header_views(hs: Seq<(String, String)>) -> Seq<(Seq<char>, Seq<char>)> {
    hs.map_values(|h: (String, String)| (h.0@, h.1@))
}

/// The single header of a body-less request: the bearer token.
pub open spec fn auth_headers(token: Seq<char>) -> Seq<(Seq<char>, Seq<char>)> {
    seq![("Authorization"@, "Bearer "@ + token)]
}

/// The headers of a request that carries a JSON body.
pub open spec fn auth_json_headers(token: Seq<char>) -> Seq<(Seq<char>, Seq<char>)> {
    auth_headers(token).push(("Content-Type"@, "application/json"@))
}

/// Describes a `GET` of `url` with the client's bearer token and no body.
pub fn get_request(client: &Client, url: String) -> (r: HttpRequest)
    ensures
        r.method == Method::Get,
        r.url == url,
        header_views(r.headers@) == auth_headers(client.token()),
        r.body is None,
{
    let mut headers: Vec<(String, String)> = Vec::new();
    headers.push((String::from_str("Authorization"), client.auth_header()));
    proof {
        assert(header_views(headers@) =~= auth_headers(client.token()));
    }
    HttpRequest { method: Method::Get, url, headers, body: None }
}

/// Describes a body-less request of some other method (a `DELETE`, or the
/// empty `POST` that pings a webhook).
pub fn bare_request(client: &Client, method: Method, url: String) -> (r: HttpRequest)
    ensures
        r.method == method,
        r.url == url,
        header_views(r.headers@) == auth_headers(client.token()),
        r.body is None,
{
    let mut headers: Vec<(String, String)> = Vec::new();
    headers.push((String::from_str("Authorization"), client.auth_header()));
    proof {
        assert(header_views(headers@) =~= auth_headers(client.token()));
    }
    HttpRequest { method, url, headers, body: None }
}

/// Describes a request that carries a JSON body, with the bearer token and
/// a `Content-Type` header.
pub fn json_request(client: &Client, method: Method, url: String, body: String) -> (r: HttpRequest)
    ensures
        r.method == method,
        r.url == url,
        header_views(r.headers@) == auth_json_headers(client.token()),
        r.body matches Some(b) && b == body,
{
    let mut headers: Vec<(String, String)> = Vec::new();
    headers.push((String::from_str("Authorization"), client.auth_header()));
    headers.push((String::from_str("Content-Type"), String::from_str("application/json")));
    proof {
        assert(header_views(headers@) =~= auth_json_headers(client.token()));
    }
    HttpRequest { method, url, headers, body: Some(body) }
}

// ---------------- request URLs ----------------

/// The serialization of `s` as an absolute URL: `None` when `s` does not
/// parse as one. Defined only by what `normalize_url` returns.
pub uninterp spec fn url_normalized(s: Seq<char>) -> Option<Seq<char>>;

/// Relies on `url::Url::parse` (the same parser `reqwest` re-exports): it
/// alone decides which strings are absolute URLs; and on `url::Url`'s
/// `to_string`, which re-serializes an accepted URL. Both depend on the
/// string alone; their composition is named `url_normalized`. The `Err`
/// payload is the parser's description of the failure.
#[verifier::external_body]
fn normalize_url(s: &str) -> (r: Result<String, String>)
    ensures
        r is Ok <==> url_normalized(s@) is Some,
        r matches Ok(u) ==> url_normalized(s@) == Some(u@),
{
    match url::Url::parse(s) {
        Ok(u) => Ok(u.to_string()),
        Err(e) => Err(e.to_string()),
    }
}

/// Parses a fully-built request URL, reporting a failure as `UrlParse`, the
/// error kind under which no request is attempted.
pub(crate) fn parse_request_url(full: String) -> (r: Result<String, Error>)
    ensures
        r is Ok <==> url_normalized(full@) is Some,
        r matches Ok(u) ==> url_normalized(full@) == Some(u@),
        r matches Err(e) ==> e matches Error::UrlParse(_) && url_normalized(full@) is None,
{
    match normalize_url(full.as_str()) {
        Ok(u) => Ok(u),
        Err(m) => Err(Error::UrlParse(m)),
    }
}

// ---------------- response classification ----------------

/// How a raw response must be classified: when the body is not valid JSON
/// the outcome is a `Json` decode failure on either path; on the endpoint's
/// success status the body must decode into the expected shape, and a shape
/// mismatch is a `Json` failure; on every other status the body must decode
/// as the API's error envelope, surfaced as `Api`, and a mismatch there is
/// again a `Json` failure.
pub open spec fn classified<T: Decodable>(
    success: u16,
    status: u16,
    parsed: Option<JsonValue>,
    r: Result<T, Error>,
) -> bool {
    match parsed {
        None => r matches Err(e) && e matches Error::Json(_),
        Some(v) => if status == success {
            if T::decode_ok(v) {
                r matches Ok(t) && T::decode_rel(v, t)
            } else {
                r matches Err(e) && e matches Error::Json(_)
            }
        } else {
            if ErrorResponse::decode_ok(v) {
                r matches Err(e) && e matches Error::Api(env) && ErrorResponse::decode_rel(v, env)
            } else {
                r matches Err(e) && e matches Error::Json(_)
            }
        },
    }
}

/// Classifies and decodes one response: `status` and `body` exactly as they
/// came off the wire, against this endpoint's `success` status.
pub fn classify_response<T: Decodable>(success: u16, status: u16, body: &str) -> (r: Result<
    T,
    Error,
>)
    ensures
        classified::<T>(success, status, json_of(body@), r),
{
    match parse_json(body) {
        Err(m) => Err(Error::Json(m)),
        Ok(v) => {
            if status == success {
                match T::decode(&v) {
                    Some(t) => Ok(t),
                    None => Err(Error::Json(String::from_str("unexpected shape of the payload"))),
                }
            } else {
                match ErrorResponse::decode(&v) {
                    Some(env) => Err(Error::Api(env)),
                    None => Err(
                        Error::Json(String::from_str("unexpected shape of the error body")),
                    ),
                }
            }
        },
    }
}

/// The classification of an endpoint whose success response carries no
/// body: the success status alone signals completion, and any other status
/// is classified by its body as `classified` says.
pub open spec fn classified_no_content(
    success: u16,
    status: u16,
    parsed: Option<JsonValue>,
    r: Result<(), Error>,
) -> bool {
    if status == success {
        r is Ok
    } else {
        match parsed {
            None => r matches Err(e) && e matches Error::Json(_),
            Some(v) => if ErrorResponse::decode_ok(v) {
                r matches Err(e) && e matches Error::Api(env) && ErrorResponse::decode_rel(v, env)
            } else {
                r matches Err(e) && e matches Error::Json(_)
            },
        }
    }
}

/// Classifies a response for an endpoint whose success carries no body
/// (deletes and relationship mutations): on the success status the body is
/// not read at all.
pub fn classify_no_content(success: u16, status: u16, body: &str) -> (r: Result<(), Error>)
    ensures
        classified_no_content(success, status, json_of(body@), r),
{
    if status == success {
        Ok(())
    } else {
        match parse_json(body) {
            Err(m) => Err(Error::Json(m)),
            Ok(v) => match ErrorResponse::decode(&v) {
                Some(env) => Err(Error::Api(env)),
                None => Err(Error::Json(String::from_str("unexpected shape of the error body"))),
            },
        }
    }
}

// ---------------- laws of the classifier ----------------

/// On a response with the success status and a well-formed body, the
/// classifier returns the decoded value and never an error.
pub proof fn lemma_success_never_errs<T: Decodable>(
    success: u16,
    v: JsonValue,
    r: Result<T, Error>,
)
    requires
        classified::<T>(success, success, Some(v), r),
        T::decode_ok(v),
    ensures
        r matches Ok(t) && T::decode_rel(v, t),
{
}

/// On a non-success response whose body has the error-envelope shape, the
/// classifier returns an `Api` error carrying exactly that envelope, never
/// a decode failure.
pub proof fn lemma_error_envelope_is_api<T: Decodable>(
    success: u16,
    status: u16,
    v: JsonValue,
    r: Result<T, Error>,
)
    requires
        classified::<T>(success, status, Some(v), r),
        status != success,
        ErrorResponse::decode_ok(v),
    ensures
        r matches Err(e) && e matches Error::Api(env) && ErrorResponse::decode_rel(v, env),
{
}

/// On a body that is not valid JSON, the classifier returns a `Json` decode
/// failure, on the success path and the non-success path alike.
pub proof fn lemma_invalid_json_is_decode_failure<T: Decodable>(
    success: u16,
    status: u16,
    r: Result<T, Error>,
)
    requires
        classified::<T>(success, status, None, r),
    ensures
        r matches Err(e) && e matches Error::Json(_),
{
}

} // verus!
