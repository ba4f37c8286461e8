//! The error taxonomy: every call through the client returns either a
//! decoded value or exactly one of these failure kinds, plus the decoded
//! shape of the API's own error envelope.

use vstd::prelude::*;

use crate::v1::json::{
    as_arr, decode_array, f_opt_str, f_str, get, lookup, s_opt_field, s_opt_str, s_str,
    Decodable, JsonValue,
};

verus! {

/// Primary error type for requests made through the client.
#[derive(Debug)]
pub enum Error {
    /// The URL could not be parsed before making the request. Carries the
    /// parser's description of the failure.
    UrlParse(String),
    /// The HTTP exchange failed before any response was received.
    Request(String),
    /// The API returned a non-success status whose body decodes as an
    /// `ErrorResponse`.
    Api(ErrorResponse),
    /// A response body could not be decoded into the expected shape, on
    /// either the success or the error path. Occurrences should be treated
    /// as a bug in the library.
    Json(String),
    /// The response body could not be read from the HTTP response.
    /// Occurrences should be treated as a bug in the library.
    BodyRead(String),
    /// A request body could not be serialized before sending. The library
    /// builds its request bodies itself and never produces this kind; it
    /// completes the taxonomy for callers that add their own encoding.
    Serialize(String),
}

/// One error entry of an envelope, rendered for people: its title and
/// detail text, which the API intends for end users.
pub open spec fn spec_entry_text(e: ErrorObject) -> Seq<char> {
    e.title@ + ": "@ + e.detail@
}

/// The rendered entries of an envelope, joined by `; `.
pub open spec fn spec_api_text(errors: Seq<ErrorObject>) -> Seq<char>
    decreases errors.len(),
{
    if errors.len() == 0 {
        Seq::empty()
    } else if errors.len() == 1 {
        spec_entry_text(errors[0])
    } else {
        spec_api_text(errors.drop_last()) + "; "@ + spec_entry_text(errors.last())
    }
}

proof fn lemma_api_text_push(errors: Seq<ErrorObject>, e: ErrorObject)
    ensures
        spec_api_text(errors.push(e)) == if errors.len() == 0 {
            spec_entry_text(e)
        } else {
            spec_api_text(errors) + "; "@ + spec_entry_text(e)
        },
{
    assert(errors.push(e).drop_last() =~= errors);
    assert(errors.push(e).last() == e);
    if errors.len() == 0 {
        assert(errors.push(e)[0] == e);
    }
}

/// The message a failure kind carries, one line per kind: what failed, and
/// the failure's own description.
pub open spec fn spec_describe(e: Error) -> Seq<char> {
    match e {
        Error::UrlParse(m) => "Failed to parse the URL before making the request: "@ + m@,
        Error::Request(m) => "Failed to make the HTTP request to the API endpoint: "@ + m@,
        Error::Api(env) => "The API returned an error response: "@ + spec_api_text(env.errors@),
        Error::Json(m) => "Failed to deserialize the returned JSON to the correct format: "@ + m@,
        Error::BodyRead(m) => "Failed to read the response body: "@ + m@,
        Error::Serialize(m) => "Failed to serialize the request data: "@ + m@,
    }
}

impl Error {
    /// Renders this failure as one line of text; `Api` failures surface the
    /// embedded `title` and `detail` of every entry.
    pub fn describe(&self) -> (r: String)
        ensures
            r@ == spec_describe(*self),
    {
        match self {
            Error::UrlParse(m) => {
                let mut s = String::from_str("Failed to parse the URL before making the request: ");
                s.append(m.as_str());
                s
            },
            Error::Request(m) => {
                let mut s = String::from_str("Failed to make the HTTP request to the API endpoint: ");
                s.append(m.as_str());
                s
            },
            Error::Api(env) => {
                let mut s = String::from_str("The API returned an error response: ");
                let mut idx: usize = 0;
                proof {
                    assert(env.errors@.subrange(0, 0) =~= Seq::<ErrorObject>::empty());
                }
                while idx < env.errors.len()
                    invariant
                        idx <= env.errors@.len(),
                        s@ == "The API returned an error response: "@ + spec_api_text(
                            env.errors@.subrange(0, idx as int),
                        ),
                    decreases env.errors@.len() - idx,
                {
                    if idx > 0 {
                        s.append("; ");
                    }
                    s.append(env.errors[idx].title.as_str());
                    s.append(": ");
                    s.append(env.errors[idx].detail.as_str());
                    proof {
                        lemma_api_text_push(
                            env.errors@.subrange(0, idx as int),
                            env.errors@[idx as int],
                        );
                        assert(env.errors@.subrange(0, idx as int + 1) =~= env.errors@.subrange(
                            0,
                            idx as int,
                        ).push(env.errors@[idx as int]));
                        assert(s@ =~= "The API returned an error response: "@ + spec_api_text(
                            env.errors@.subrange(0, idx as int + 1),
                        ));
                    }
                    idx += 1;
                }
                proof {
                    assert(env.errors@.subrange(0, env.errors@.len() as int) =~= env.errors@);
                }
                s
            },
            Error::Json(m) => {
                let mut s = String::from_str(
                    "Failed to deserialize the returned JSON to the correct format: ",
                );
                s.append(m.as_str());
                s
            },
            Error::BodyRead(m) => {
                let mut s = String::from_str("Failed to read the response body: ");
                s.append(m.as_str());
                s
            },
            Error::Serialize(m) => {
                let mut s = String::from_str("Failed to serialize the request data: ");
                s.append(m.as_str());
                s
            },
        }
    }
}

/// The structured body the API returns on a non-success status.
#[derive(Debug, Clone, PartialEq)]
pub struct ErrorResponse {
    /// The list of errors returned in this response.
    pub errors: Vec<ErrorObject>,
}

/// One discrete error entry of an `ErrorResponse`.
#[derive(Debug, Clone, PartialEq)]
pub struct ErrorObject {
    /// The HTTP status code associated with this error.
    pub status: String,
    /// A short description, stable across occurrences of this kind of error.
    pub title: String,
    /// A detailed description, unique to individual occurrences.
    pub detail: String,
    /// If applicable, the location in the request this error relates to.
    pub source: Option<Source>,
}

/// The location in a request an error entry relates to.
#[derive(Debug, Clone, PartialEq)]
pub struct Source {
    /// If the error relates to a query parameter, the parameter's name.
    pub parameter: Option<String>,
    /// If the error relates to an attribute of the request body, an
    /// rfc-6901 JSON pointer to the attribute.
    pub pointer: Option<String>,
}

pub open spec fn spec_source(v: JsonValue) -> Option<Source> {
    match v {
        JsonValue::Obj(es) => match (s_opt_str(es@, "parameter"@), s_opt_str(es@, "pointer"@)) {
            (Some(parameter), Some(pointer)) => Some(Source { parameter, pointer }),
            _ => None,
        },
        _ => None,
    }
}

impl Decodable for Source {
    open spec fn decode_ok(v: JsonValue) -> bool {
        spec_source(v) is Some
    }

    open spec fn decode_rel(v: JsonValue, t: Self) -> bool {
        spec_source(v) == Some(t)
    }

    fn decode(v: &JsonValue) -> (r: Option<Self>) {
        match v {
            JsonValue::Obj(es) => match (f_opt_str(es, "parameter"), f_opt_str(es, "pointer")) {
                (Some(parameter), Some(pointer)) => Some(Source { parameter, pointer }),
                _ => None,
            },
            _ => None,
        }
    }
}

pub open spec fn spec_error_object(v: JsonValue) -> Option<ErrorObject> {
    match v {
        JsonValue::Obj(es) => match (
            s_str(es@, "status"@),
            s_str(es@, "title"@),
            s_str(es@, "detail"@),
            s_opt_field(es@, "source"@, |x: JsonValue| spec_source(x)),
        ) {
            (Some(status), Some(title), Some(detail), Some(source)) => Some(
                ErrorObject { status, title, detail, source },
            ),
            _ => None,
        },
        _ => None,
    }
}

impl Decodable for ErrorObject {
    open spec fn decode_ok(v: JsonValue) -> bool {
        spec_error_object(v) is Some
    }

    open spec fn decode_rel(v: JsonValue, t: Self) -> bool {
        spec_error_object(v) == Some(t)
    }

    fn decode(v: &JsonValue) -> (r: Option<Self>) {
        match v {
            JsonValue::Obj(es) => {
                let status = match f_str(es, "status") {
                    Some(s) => s,
                    None => { return None; },
                };
                let title = match f_str(es, "title") {
                    Some(s) => s,
                    None => { return None; },
                };
                let detail = match f_str(es, "detail") {
                    Some(s) => s,
                    None => { return None; },
                };
                let source = match get(es, "source") {
                    None => None,
                    Some(JsonValue::Null) => None,
                    Some(sv) => match Source::decode(sv) {
                        Some(s) => Some(s),
                        None => { return None; },
                    },
                };
                Some(ErrorObject { status, title, detail, source })
            },
            _ => None,
        }
    }
}

/// The `errors` array of an error envelope, if the document has that shape.
pub open spec fn spec_errors_arr(v: JsonValue) -> Option<Seq<JsonValue>> {
    match v {
        JsonValue::Obj(es) => match lookup(es@, "errors"@) {
            Some(a) => as_arr(a),
            None => None,
        },
        _ => None,
    }
}

impl Decodable for ErrorResponse {
    open spec fn decode_ok(v: JsonValue) -> bool {
        match spec_errors_arr(v) {
            Some(a) => forall|i: int| 0 <= i < a.len() ==> ErrorObject::decode_ok(#[trigger] a[i]),
            None => false,
        }
    }

    open spec fn decode_rel(v: JsonValue, t: Self) -> bool {
        match spec_errors_arr(v) {
            Some(a) => t.errors@.len() == a.len() && (forall|i: int|
                0 <= i < a.len() ==> ErrorObject::decode_rel(a[i], #[trigger] t.errors@[i])),
            None => false,
        }
    }

    fn decode(v: &JsonValue) -> (r: Option<Self>) {
        match v {
            JsonValue::Obj(es) => match get(es, "errors") {
                Some(JsonValue::Arr(a)) => match decode_array::<ErrorObject>(a) {
                    Some(errors) => Some(ErrorResponse { errors }),
                    None => None,
                },
                _ => None,
            },
            _ => None,
        }
    }
}

} // verus!
