//! Types for modelling and interacting with tags, and the relationship
//! mutations that attach tags to and remove tags from a transaction.

use vstd::prelude::*;

use crate::v1::error::Error;
use crate::v1::http::{
    auth_headers, auth_json_headers, classified, classified_no_content, classify_no_content,
    classify_response, get_request, header_views, json_request, parse_request_url, url_normalized,
    HttpRequest, Method,
};
use crate::v1::json::{
    append_json_escaped, as_obj, decode_array, f_str, get, json_escaped, json_of, s_arr, s_field,
    s_opt_field, s_str, Decodable, JsonValue,
};
use crate::v1::paginate::{decode_links, spec_links, Paginated};
use crate::v1::query::{
    dec_u8, lemma_qs_empty, lemma_qs_push, opt_e, push_char, push_param_u8, url_suffix,
    append_query,
};
use crate::v1::{base_url, spec_base_url, Client};

verus! {

// ---------------- response objects ----------------

/// One page of tags, ordered lexicographically.
#[derive(Debug, Clone, PartialEq)]
pub struct ListTagsResponse {
    /// The list of tags returned in this response.
    pub data: Vec<Data>,
    pub links: ResponseLinks,
}

/// One tag resource.
#[derive(Debug, Clone, PartialEq)]
pub struct Data {
    /// The type of this resource: `tags` (the wire field `type`).
    pub resource_type: String,
    /// The label of the tag, which also acts as its unique identifier.
    pub id: String,
    pub relationships: Relationships,
}

/// The relationships of a tag.
#[derive(Debug, Clone, PartialEq)]
pub struct Relationships {
    pub transactions: Transactions,
}

/// The transactions relationship of a tag.
#[derive(Debug, Clone, PartialEq)]
pub struct Transactions {
    pub links: Option<TransactionLinks>,
}

/// The link to a tag's transactions.
#[derive(Debug, Clone, PartialEq)]
pub struct TransactionLinks {
    /// The link to retrieve the related resource(s) in this relationship.
    pub related: String,
}

/// The pagination links of a page of tags.
#[derive(Debug, Clone, PartialEq)]
pub struct ResponseLinks {
    /// The link to the previous page in the results. If this value is
    /// `None` there is no previous page.
    pub prev: Option<String>,
    /// The link to the next page in the results. If this value is `None`
    /// there is no next page.
    pub next: Option<String>,
}

// ---------------- decoding ----------------

pub open spec fn spec_transaction_links(v: JsonValue) -> Option<TransactionLinks> {
    match v {
        JsonValue::Obj(es) => match s_str(es@, "related"@) {
            Some(related) => Some(TransactionLinks { related }),
            None => None,
        },
        _ => None,
    }
}

impl Decodable for TransactionLinks {
    open spec fn decode_ok(v: JsonValue) -> bool {
        spec_transaction_links(v) is Some
    }

    open spec fn decode_rel(v: JsonValue, t: Self) -> bool {
        spec_transaction_links(v) == Some(t)
    }

    fn decode(v: &JsonValue) -> (r: Option<Self>) {
        match v {
            JsonValue::Obj(es) => match f_str(es, "related") {
                Some(related) => Some(TransactionLinks { related }),
                None => None,
            },
            _ => None,
        }
    }
}

pub open spec fn spec_transactions(v: JsonValue) -> Option<Transactions> {
    match v {
        JsonValue::Obj(es) => match s_opt_field(
            es@,
            "links"@,
            |x: JsonValue| spec_transaction_links(x),
        ) {
            Some(links) => Some(Transactions { links }),
            None => None,
        },
        _ => None,
    }
}

impl Decodable for Transactions {
    open spec fn decode_ok(v: JsonValue) -> bool {
        spec_transactions(v) is Some
    }

    open spec fn decode_rel(v: JsonValue, t: Self) -> bool {
        spec_transactions(v) == Some(t)
    }

    fn decode(v: &JsonValue) -> (r: Option<Self>) {
        match v {
            JsonValue::Obj(es) => {
                let links = match get(es, "links") {
                    None => None,
                    Some(JsonValue::Null) => None,
                    Some(lv) => match TransactionLinks::decode(lv) {
                        Some(l) => Some(l),
                        None => { return None; },
                    },
                };
                Some(Transactions { links })
            },
            _ => None,
        }
    }
}

pub open spec fn spec_relationships(v: JsonValue) -> Option<Relationships> {
    match v {
        JsonValue::Obj(es) => match s_field(
            es@,
            "transactions"@,
            |x: JsonValue| spec_transactions(x),
        ) {
            Some(transactions) => Some(Relationships { transactions }),
            None => None,
        },
        _ => None,
    }
}

impl Decodable for Relationships {
    open spec fn decode_ok(v: JsonValue) -> bool {
        spec_relationships(v) is Some
    }

    open spec fn decode_rel(v: JsonValue, t: Self) -> bool {
        spec_relationships(v) == Some(t)
    }

    fn decode(v: &JsonValue) -> (r: Option<Self>) {
        match v {
            JsonValue::Obj(es) => match get(es, "transactions") {
                Some(tv) => match Transactions::decode(tv) {
                    Some(transactions) => Some(Relationships { transactions }),
                    None => None,
                },
                None => None,
            },
            _ => None,
        }
    }
}

pub open spec fn spec_tag_data(v: JsonValue) -> Option<Data> {
    match v {
        JsonValue::Obj(es) => match (
            s_str(es@, "type"@),
            s_str(es@, "id"@),
            s_field(es@, "relationships"@, |x: JsonValue| spec_relationships(x)),
        ) {
            (Some(resource_type), Some(id), Some(relationships)) => Some(
                Data { resource_type, id, relationships },
            ),
            _ => None,
        },
        _ => None,
    }
}

impl Decodable for Data {
    open spec fn decode_ok(v: JsonValue) -> bool {
        spec_tag_data(v) is Some
    }

    open spec fn decode_rel(v: JsonValue, t: Self) -> bool {
        spec_tag_data(v) == Some(t)
    }

    fn decode(v: &JsonValue) -> (r: Option<Self>) {
        match v {
            JsonValue::Obj(es) => {
                let resource_type = match f_str(es, "type") {
                    Some(s) => s,
                    None => { return None; },
                };
                let id = match f_str(es, "id") {
                    Some(s) => s,
                    None => { return None; },
                };
                let relationships = match get(es, "relationships") {
                    Some(rv) => match Relationships::decode(rv) {
                        Some(x) => x,
                        None => { return None; },
                    },
                    None => { return None; },
                };
                Some(Data { resource_type, id, relationships })
            },
            _ => None,
        }
    }
}

pub open spec fn spec_response_links(v: JsonValue) -> Option<ResponseLinks> {
    match spec_links(v) {
        Some(p) => Some(ResponseLinks { prev: p.0, next: p.1 }),
        None => None,
    }
}

impl Decodable for ResponseLinks {
    open spec fn decode_ok(v: JsonValue) -> bool {
        spec_response_links(v) is Some
    }

    open spec fn decode_rel(v: JsonValue, t: Self) -> bool {
        spec_response_links(v) == Some(t)
    }

    fn decode(v: &JsonValue) -> (r: Option<Self>) {
        match decode_links(v) {
            Some(p) => Some(ResponseLinks { prev: p.0, next: p.1 }),
            None => None,
        }
    }
}

impl Decodable for ListTagsResponse {
    open spec fn decode_ok(v: JsonValue) -> bool {
        match as_obj(v) {
            Some(es) => match s_arr(es, "data"@) {
                Some(a) => (forall|i: int| 0 <= i < a.len() ==> Data::decode_ok(#[trigger] a[i]))
                    && s_field(es, "links"@, |x: JsonValue| spec_response_links(x)) is Some,
                None => false,
            },
            None => false,
        }
    }

    open spec fn decode_rel(v: JsonValue, t: Self) -> bool {
        match as_obj(v) {
            Some(es) => match s_arr(es, "data"@) {
                Some(a) => t.data@.len() == a.len() && (forall|i: int|
                    0 <= i < a.len() ==> Data::decode_rel(a[i], #[trigger] t.data@[i])) && s_field(
                    es,
                    "links"@,
                    |x: JsonValue| spec_response_links(x),
                ) == Some(t.links),
                None => false,
            },
            None => false,
        }
    }

    fn decode(v: &JsonValue) -> (r: Option<Self>) {
        match v {
            JsonValue::Obj(es) => {
                let data = match get(es, "data") {
                    Some(JsonValue::Arr(a)) => match decode_array::<Data>(a) {
                        Some(d) => d,
                        None => {
                            proof {
                                assert(as_obj(*v).unwrap() == es@);
                                assert(s_arr(as_obj(*v).unwrap(), "data"@).unwrap() == a@);
                                assert(!Self::decode_ok(*v));
                            }
                            return None;
                        },
                    },
                    _ => { return None; },
                };
                let links = match get(es, "links") {
                    Some(lv) => match ResponseLinks::decode(lv) {
                        Some(l) => l,
                        None => { return None; },
                    },
                    None => { return None; },
                };
                Some(ListTagsResponse { data, links })
            },
            _ => None,
        }
    }
}

impl Paginated for ListTagsResponse {
    open spec fn spec_next(&self) -> Option<String> {
        self.links.next
    }

    open spec fn spec_prev(&self) -> Option<String> {
        self.links.prev
    }

    fn next_link(&self) -> (r: &Option<String>) {
        &self.links.next
    }

    fn prev_link(&self) -> (r: &Option<String>) {
        &self.links.prev
    }
}

// ---------------- options ----------------

/// The optional paging parameters of the tag list.
pub struct ListTagsOptions {
    /// The number of records to return in each page.
    pub page_size: Option<u8>,
}

/// The query entries the options emit.
pub open spec fn tags_entries(o: ListTagsOptions) -> Seq<(Seq<char>, Seq<char>)> {
    opt_e(
        "page[size]"@,
        match o.page_size {
            Some(n) => Some(dec_u8(n)),
            None => None,
        },
    )
}

impl Default for ListTagsOptions {
    /// Options with no present value: they emit no query string at all.
    fn default() -> (r: Self)
        ensures
            r.page_size is None,
    {
        ListTagsOptions { page_size: None }
    }
}

impl ListTagsOptions {
    /// Sets the page size.
    pub fn page_size(&mut self, value: u8)
        ensures
            final(self).page_size == Some(value),
    {
        self.page_size = Some(value);
    }

    /// Appends the emitted query string (if the entry is present) to `url`.
    pub(crate) fn add_params(&self, url: &mut String)
        ensures
            final(url)@ == old(url)@ + url_suffix(tags_entries(*self)),
    {
        let mut query = String::new();
        let ghost mut done: Seq<(Seq<char>, Seq<char>)> = Seq::<(Seq<char>, Seq<char>)>::empty();
        if let Some(value) = &self.page_size {
            proof {
                lemma_qs_empty(done);
                lemma_qs_push(done, ("page[size]"@, dec_u8(*value)));
            }
            push_param_u8(&mut query, "page[size]", *value);
            proof {
                done = done.push(("page[size]"@, dec_u8(*value)));
            }
        }
        proof {
            assert(done =~= tags_entries(*self));
        }
        append_query(url, query, Ghost(done));
    }
}

// ---------------- request bodies ----------------

/// One tag, rendered as a `tags` resource identifier.
pub open spec fn tag_obj(id: Seq<char>) -> Seq<char> {
    "{\"type\":\"tags\",\"id\":\""@ + json_escaped(id) + "\"}"@
}

/// The rendered tag identifiers, in order, joined by `,`.
pub open spec fn tag_list(ids: Seq<Seq<char>>) -> Seq<char>
    decreases ids.len(),
{
    if ids.len() == 0 {
        Seq::empty()
    } else if ids.len() == 1 {
        tag_obj(ids[0])
    } else {
        tag_list(ids.drop_last()) + seq![','] + tag_obj(ids.last())
    }
}

/// The body of a tag mutation: the rendered tags as the `data` array.
pub open spec fn tags_body(ids: Seq<Seq<char>>) -> Seq<char> {
    "{\"data\":["@ + tag_list(ids) + "]}"@
}

proof fn lemma_tag_list_push(ids: Seq<Seq<char>>, id: Seq<char>)
    ensures
        tag_list(ids.push(id)) == if ids.len() == 0 {
            tag_obj(id)
        } else {
            tag_list(ids) + seq![','] + tag_obj(id)
        },
{
    assert(ids.push(id).drop_last() =~= ids);
    assert(ids.push(id).last() == id);
    if ids.len() == 0 {
        assert(ids.push(id)[0] == id);
    }
}

/// Builds the JSON body that attaches or removes the given tags.
pub fn build_tags_body(tags: &Vec<String>) -> (r: String)
    ensures
        r@ == tags_body(tags@.map_values(|t: String| t@)),
{
    let ghost ids = tags@.map_values(|t: String| t@);
    let mut items = String::new();
    proof {
        assert(ids.subrange(0, 0) =~= Seq::<Seq<char>>::empty());
    }
    let mut idx: usize = 0;
    while idx < tags.len()
        invariant
            idx <= tags@.len(),
            ids == tags@.map_values(|t: String| t@),
            items@ == tag_list(ids.subrange(0, idx as int)),
        decreases tags@.len() - idx,
    {
        if idx > 0 {
            push_char(&mut items, ',');
        }
        items.append("{\"type\":\"tags\",\"id\":\"");
        append_json_escaped(&mut items, tags[idx].as_str());
        items.append("\"}");
        proof {
            assert(ids[idx as int] == tags@[idx as int]@);
            lemma_tag_list_push(ids.subrange(0, idx as int), ids[idx as int]);
            assert(ids.subrange(0, idx as int + 1) =~= ids.subrange(0, idx as int).push(
                ids[idx as int],
            ));
            assert(items@ =~= tag_list(ids.subrange(0, idx as int + 1)));
        }
        idx += 1;
    }
    let mut body = String::from_str("{\"data\":[");
    body.append(items.as_str());
    body.append("]}");
    proof {
        assert(ids.subrange(0, ids.len() as int) =~= ids);
        assert(body@ =~= tags_body(ids));
    }
    body
}

// ---------------- requests ----------------

impl Client {
    /// Describes the request that retrieves a paginated list of all tags
    /// currently in use.
    pub fn list_tags_request(&self, options: &ListTagsOptions) -> (r: Result<HttpRequest, Error>)
        ensures
            r is Ok <==> url_normalized(spec_base_url() + "/tags"@) is Some,
            r matches Ok(req) ==> {
                &&& req.method == Method::Get
                &&& url_normalized(spec_base_url() + "/tags"@) matches Some(u) && req.url@ == u
                    + url_suffix(tags_entries(*options))
                &&& header_views(req.headers@) == auth_headers(self.token())
                &&& req.body is None
            },
            r matches Err(e) ==> e matches Error::UrlParse(_),
    {
        let mut full = String::from_str(base_url());
        full.append("/tags");
        proof {
            assert(full@ =~= spec_base_url() + "/tags"@);
        }
        match parse_request_url(full) {
            Ok(mut u) => {
                options.add_params(&mut u);
                Ok(get_request(self, u))
            },
            Err(e) => Err(e),
        }
    }

    /// Describes the request that associates the given tags with a
    /// transaction: a `POST` of the rendered tag identifiers as a JSON body.
    pub fn add_tags_request(&self, transaction_id: &str, tags: Vec<String>) -> (r: Result<
        HttpRequest,
        Error,
    >)
        ensures
            r is Ok <==> url_normalized(
                spec_base_url() + "/transactions/"@ + transaction_id@ + "/relationships/tags"@,
            ) is Some,
            r matches Ok(req) ==> {
                &&& req.method == Method::Post
                &&& url_normalized(
                    spec_base_url() + "/transactions/"@ + transaction_id@
                        + "/relationships/tags"@,
                ) matches Some(u) && req.url@ == u
                &&& header_views(req.headers@) == auth_json_headers(self.token())
                &&& req.body matches Some(b) && b@ == tags_body(
                    tags@.map_values(|t: String| t@),
                )
            },
            r matches Err(e) ==> e matches Error::UrlParse(_),
    {
        let mut full = String::from_str(base_url());
        full.append("/transactions/");
        full.append(transaction_id);
        full.append("/relationships/tags");
        proof {
            assert(full@ =~= spec_base_url() + "/transactions/"@ + transaction_id@
                + "/relationships/tags"@);
        }
        match parse_request_url(full) {
            Ok(u) => {
                let body = build_tags_body(&tags);
                Ok(json_request(self, Method::Post, u, body))
            },
            Err(e) => Err(e),
        }
    }

    /// Describes the request that disassociates the given tags from a
    /// transaction: a `DELETE` carrying the rendered tag identifiers.
    pub fn delete_tags_request(&self, transaction_id: &str, tags: Vec<String>) -> (r: Result<
        HttpRequest,
        Error,
    >)
        ensures
            r is Ok <==> url_normalized(
                spec_base_url() + "/transactions/"@ + transaction_id@ + "/relationships/tags"@,
            ) is Some,
            r matches Ok(req) ==> {
                &&& req.method == Method::Delete
                &&& url_normalized(
                    spec_base_url() + "/transactions/"@ + transaction_id@
                        + "/relationships/tags"@,
                ) matches Some(u) && req.url@ == u
                &&& header_views(req.headers@) == auth_json_headers(self.token())
                &&& req.body matches Some(b) && b@ == tags_body(
                    tags@.map_values(|t: String| t@),
                )
            },
            r matches Err(e) ==> e matches Error::UrlParse(_),
    {
        let mut full = String::from_str(base_url());
        full.append("/transactions/");
        full.append(transaction_id);
        full.append("/relationships/tags");
        proof {
            assert(full@ =~= spec_base_url() + "/transactions/"@ + transaction_id@
                + "/relationships/tags"@);
        }
        match parse_request_url(full) {
            Ok(u) => {
                let body = build_tags_body(&tags);
                Ok(json_request(self, Method::Delete, u, body))
            },
            Err(e) => Err(e),
        }
    }
}

/// Classifies and decodes the response to a `list_tags_request`; the
/// endpoint's success status is 200.
pub fn list_tags_response(status: u16, body: &str) -> (r: Result<ListTagsResponse, Error>)
    ensures
        classified::<ListTagsResponse>(200, status, json_of(body@), r),
{
    classify_response::<ListTagsResponse>(200, status, body)
}

/// Classifies the response to an `add_tags_request`; the endpoint's success
/// status is 204, with no body.
pub fn add_tags_response(status: u16, body: &str) -> (r: Result<(), Error>)
    ensures
        classified_no_content(204, status, json_of(body@), r),
{
    classify_no_content(204, status, body)
}

/// Classifies the response to a `delete_tags_request`; the endpoint's
/// success status is 204, with no body.
pub fn delete_tags_response(status: u16, body: &str) -> (r: Result<(), Error>)
    ensures
        classified_no_content(204, status, json_of(body@), r),
{
    classify_no_content(204, status, body)
}

} // verus!
