//! Types for modelling and interacting with categories, and the
//! relationship mutation that categorizes a transaction.

use vstd::prelude::*;

use crate::v1::error::Error;
use crate::v1::http::{
    auth_headers, auth_json_headers, classified, classified_no_content, classify_no_content,
    classify_response, get_request, header_views, json_request, parse_request_url, url_normalized,
    HttpRequest, Method,
};
use crate::v1::json::{
    append_json_escaped, as_obj, decode_array, f_str, get, json_escaped, json_of, lookup, s_arr,
    s_field, s_opt_field, s_str, Decodable, JsonValue,
};
use crate::v1::query::{enc, lemma_qs_empty, lemma_qs_push, opt_e, push_param, url_suffix,
    append_query};
use crate::v1::{base_url, spec_base_url, Client};

verus! {

// ---------------- response objects ----------------

/// All categories and their ancestry; this list is not paginated.
#[derive(Debug, Clone, PartialEq)]
pub struct ListCategoriesResponse {
    /// The list of categories returned in this response.
    pub data: Vec<CategoryResource>,
}

/// The category returned by the single-resource fetch.
#[derive(Debug, Clone, PartialEq)]
pub struct GetCategoryResponse {
    /// The category returned in this response.
    pub data: CategoryResource,
}

/// One category resource.
#[derive(Debug, Clone, PartialEq)]
pub struct CategoryResource {
    /// The type of this resource: `categories` (the wire field `type`).
    pub resource_type: String,
    /// The unique identifier for this category: human-readable but
    /// URL-safe.
    pub id: String,
    pub attributes: Attributes,
    pub relationships: Relationships,
    pub links: Option<CategoryResourceLinks>,
}

/// The attributes of a category.
#[derive(Debug, Clone, PartialEq)]
pub struct Attributes {
    /// The name of this category as seen in the Up application.
    pub name: String,
}

/// The relationships of a category.
#[derive(Debug, Clone, PartialEq)]
pub struct Relationships {
    pub parent: Parent,
    pub children: Children,
}

/// The parent relationship of a category.
#[derive(Debug, Clone, PartialEq)]
pub struct Parent {
    pub data: Option<ParentData>,
    pub links: Option<ParentLinks>,
}

/// The identifier of a parent category.
#[derive(Debug, Clone, PartialEq)]
pub struct ParentData {
    /// The type of this resource: `categories` (the wire field `type`).
    pub resource_type: String,
    /// The unique identifier of the resource within its type.
    pub id: String,
}

/// The link to a parent category.
#[derive(Debug, Clone, PartialEq)]
pub struct ParentLinks {
    /// The link to retrieve the related resource(s) in this relationship.
    pub related: String,
}

/// The children relationship of a category.
#[derive(Debug, Clone, PartialEq)]
pub struct Children {
    pub data: Vec<ChildrenData>,
    pub links: Option<ChildrenLinks>,
}

/// The identifier of a child category.
#[derive(Debug, Clone, PartialEq)]
pub struct ChildrenData {
    /// The type of this resource: `categories` (the wire field `type`).
    pub resource_type: String,
    /// The unique identifier of the resource within its type.
    pub id: String,
}

/// The link to a category's children.
#[derive(Debug, Clone, PartialEq)]
pub struct ChildrenLinks {
    /// The link to retrieve the related resource(s) in this relationship.
    pub related: String,
}

/// The links of one category resource.
#[derive(Debug, Clone, PartialEq)]
pub struct CategoryResourceLinks {
    /// The canonical link to this resource within the API (the wire field
    /// `self`).
    pub this: String,
}

// ---------------- decoding ----------------

pub open spec fn spec_cat_attributes(v: JsonValue) -> Option<Attributes> {
    match v {
        JsonValue::Obj(es) => match s_str(es@, "name"@) {
            Some(name) => Some(Attributes { name }),
            None => None,
        },
        _ => None,
    }
}

impl Decodable for Attributes {
    open spec fn decode_ok(v: JsonValue) -> bool {
        spec_cat_attributes(v) is Some
    }

    open spec fn decode_rel(v: JsonValue, t: Self) -> bool {
        spec_cat_attributes(v) == Some(t)
    }

    fn decode(v: &JsonValue) -> (r: Option<Self>) {
        match v {
            JsonValue::Obj(es) => match f_str(es, "name") {
                Some(name) => Some(Attributes { name }),
                None => None,
            },
            _ => None,
        }
    }
}

pub open spec fn spec_parent_data(v: JsonValue) -> Option<ParentData> {
    match v {
        JsonValue::Obj(es) => match (s_str(es@, "type"@), s_str(es@, "id"@)) {
            (Some(resource_type), Some(id)) => Some(ParentData { resource_type, id }),
            _ => None,
        },
        _ => None,
    }
}

impl Decodable for ParentData {
    open spec fn decode_ok(v: JsonValue) -> bool {
        spec_parent_data(v) is Some
    }

    open spec fn decode_rel(v: JsonValue, t: Self) -> bool {
        spec_parent_data(v) == Some(t)
    }

    fn decode(v: &JsonValue) -> (r: Option<Self>) {
        match v {
            JsonValue::Obj(es) => match (f_str(es, "type"), f_str(es, "id")) {
                (Some(resource_type), Some(id)) => Some(ParentData { resource_type, id }),
                _ => None,
            },
            _ => None,
        }
    }
}

pub open spec fn spec_parent_links(v: JsonValue) -> Option<ParentLinks> {
    match v {
        JsonValue::Obj(es) => match s_str(es@, "related"@) {
            Some(related) => Some(ParentLinks { related }),
            None => None,
        },
        _ => None,
    }
}

impl Decodable for ParentLinks {
    open spec fn decode_ok(v: JsonValue) -> bool {
        spec_parent_links(v) is Some
    }

    open spec fn decode_rel(v: JsonValue, t: Self) -> bool {
        spec_parent_links(v) == Some(t)
    }

    fn decode(v: &JsonValue) -> (r: Option<Self>) {
        match v {
            JsonValue::Obj(es) => match f_str(es, "related") {
                Some(related) => Some(ParentLinks { related }),
                None => None,
            },
            _ => None,
        }
    }
}

pub open spec fn spec_parent(v: JsonValue) -> Option<Parent> {
    match v {
        JsonValue::Obj(es) => match (
            s_opt_field(es@, "data"@, |x: JsonValue| spec_parent_data(x)),
            s_opt_field(es@, "links"@, |x: JsonValue| spec_parent_links(x)),
        ) {
            (Some(data), Some(links)) => Some(Parent { data, links }),
            _ => None,
        },
        _ => None,
    }
}

impl Decodable for Parent {
    open spec fn decode_ok(v: JsonValue) -> bool {
        spec_parent(v) is Some
    }

    open spec fn decode_rel(v: JsonValue, t: Self) -> bool {
        spec_parent(v) == Some(t)
    }

    fn decode(v: &JsonValue) -> (r: Option<Self>) {
        match v {
            JsonValue::Obj(es) => {
                let data = match get(es, "data") {
                    None => None,
                    Some(JsonValue::Null) => None,
                    Some(dv) => match ParentData::decode(dv) {
                        Some(d) => Some(d),
                        None => { return None; },
                    },
                };
                let links = match get(es, "links") {
                    None => None,
                    Some(JsonValue::Null) => None,
                    Some(lv) => match ParentLinks::decode(lv) {
                        Some(l) => Some(l),
                        None => { return None; },
                    },
                };
                Some(Parent { data, links })
            },
            _ => None,
        }
    }
}

pub open spec fn spec_children_data(v: JsonValue) -> Option<ChildrenData> {
    match v {
        JsonValue::Obj(es) => match (s_str(es@, "type"@), s_str(es@, "id"@)) {
            (Some(resource_type), Some(id)) => Some(ChildrenData { resource_type, id }),
            _ => None,
        },
        _ => None,
    }
}

impl Decodable for ChildrenData {
    open spec fn decode_ok(v: JsonValue) -> bool {
        spec_children_data(v) is Some
    }

    open spec fn decode_rel(v: JsonValue, t: Self) -> bool {
        spec_children_data(v) == Some(t)
    }

    fn decode(v: &JsonValue) -> (r: Option<Self>) {
        match v {
            JsonValue::Obj(es) => match (f_str(es, "type"), f_str(es, "id")) {
                (Some(resource_type), Some(id)) => Some(ChildrenData { resource_type, id }),
                _ => None,
            },
            _ => None,
        }
    }
}

pub open spec fn spec_children_links(v: JsonValue) -> Option<ChildrenLinks> {
    match v {
        JsonValue::Obj(es) => match s_str(es@, "related"@) {
            Some(related) => Some(ChildrenLinks { related }),
            None => None,
        },
        _ => None,
    }
}

impl Decodable for ChildrenLinks {
    open spec fn decode_ok(v: JsonValue) -> bool {
        spec_children_links(v) is Some
    }

    open spec fn decode_rel(v: JsonValue, t: Self) -> bool {
        spec_children_links(v) == Some(t)
    }

    fn decode(v: &JsonValue) -> (r: Option<Self>) {
        match v {
            JsonValue::Obj(es) => match f_str(es, "related") {
                Some(related) => Some(ChildrenLinks { related }),
                None => None,
            },
            _ => None,
        }
    }
}

impl Decodable for Children {
    open spec fn decode_ok(v: JsonValue) -> bool {
        match as_obj(v) {
            Some(es) => match s_arr(es, "data"@) {
                Some(a) => (forall|i: int|
                    0 <= i < a.len() ==> ChildrenData::decode_ok(#[trigger] a[i])) && s_opt_field(
                    es,
                    "links"@,
                    |x: JsonValue| spec_children_links(x),
                ) is Some,
                None => false,
            },
            None => false,
        }
    }

    open spec fn decode_rel(v: JsonValue, t: Self) -> bool {
        match as_obj(v) {
            Some(es) => match s_arr(es, "data"@) {
                Some(a) => t.data@.len() == a.len() && (forall|i: int|
                    0 <= i < a.len() ==> ChildrenData::decode_rel(a[i], #[trigger] t.data@[i]))
                    && s_opt_field(es, "links"@, |x: JsonValue| spec_children_links(x)) == Some(
                    t.links,
                ),
                None => false,
            },
            None => false,
        }
    }

    fn decode(v: &JsonValue) -> (r: Option<Self>) {
        match v {
            JsonValue::Obj(es) => {
                let data = match get(es, "data") {
                    Some(JsonValue::Arr(a)) => match decode_array::<ChildrenData>(a) {
                        Some(d) => d,
                        None => {
                            proof {
                                assert(as_obj(*v).unwrap() == es@);
                                assert(s_arr(as_obj(*v).unwrap(), "data"@).unwrap() == a@);
                                assert(!Self::decode_ok(*v));
                            }
                            return None;
                        },
                    },
                    _ => { return None; },
                };
                let links = match get(es, "links") {
                    None => None,
                    Some(JsonValue::Null) => None,
                    Some(lv) => match ChildrenLinks::decode(lv) {
                        Some(l) => Some(l),
                        None => { return None; },
                    },
                };
                Some(Children { data, links })
            },
            _ => None,
        }
    }
}

/// Whether the relationships object of a category decodes; the children
/// relationship carries a list, so the statement is relational.
pub open spec fn spec_cat_rels_ok(v: JsonValue) -> bool {
    match as_obj(v) {
        Some(es) => {
            &&& s_field(es, "parent"@, |x: JsonValue| spec_parent(x)) is Some
            &&& match lookup(es, "children"@) {
                Some(cv) => Children::decode_ok(cv),
                None => false,
            }
        },
        None => false,
    }
}

/// How a decoded relationships object of a category relates to the document.
pub open spec fn spec_cat_rels_rel(v: JsonValue, t: Relationships) -> bool {
    match as_obj(v) {
        Some(es) => {
            &&& s_field(es, "parent"@, |x: JsonValue| spec_parent(x)) == Some(t.parent)
            &&& match lookup(es, "children"@) {
                Some(cv) => Children::decode_rel(cv, t.children),
                None => false,
            }
        },
        None => false,
    }
}

impl Decodable for Relationships {
    open spec fn decode_ok(v: JsonValue) -> bool {
        spec_cat_rels_ok(v)
    }

    open spec fn decode_rel(v: JsonValue, t: Self) -> bool {
        spec_cat_rels_rel(v, t)
    }

    fn decode(v: &JsonValue) -> (r: Option<Self>) {
        match v {
            JsonValue::Obj(es) => {
                let parent = match get(es, "parent") {
                    Some(pv) => match Parent::decode(pv) {
                        Some(p) => p,
                        None => { return None; },
                    },
                    None => { return None; },
                };
                let children = match get(es, "children") {
                    Some(cv) => match Children::decode(cv) {
                        Some(c) => c,
                        None => { return None; },
                    },
                    None => { return None; },
                };
                Some(Relationships { parent, children })
            },
            _ => None,
        }
    }
}

pub open spec fn spec_cat_links(v: JsonValue) -> Option<CategoryResourceLinks> {
    match v {
        JsonValue::Obj(es) => match s_str(es@, "self"@) {
            Some(this) => Some(CategoryResourceLinks { this }),
            None => None,
        },
        _ => None,
    }
}

impl Decodable for CategoryResourceLinks {
    open spec fn decode_ok(v: JsonValue) -> bool {
        spec_cat_links(v) is Some
    }

    open spec fn decode_rel(v: JsonValue, t: Self) -> bool {
        spec_cat_links(v) == Some(t)
    }

    fn decode(v: &JsonValue) -> (r: Option<Self>) {
        match v {
            JsonValue::Obj(es) => match f_str(es, "self") {
                Some(this) => Some(CategoryResourceLinks { this }),
                None => None,
            },
            _ => None,
        }
    }
}

/// Whether a category resource decodes.
pub open spec fn spec_cat_ok(v: JsonValue) -> bool {
    match as_obj(v) {
        Some(es) => {
            &&& s_str(es, "type"@) is Some
            &&& s_str(es, "id"@) is Some
            &&& s_field(es, "attributes"@, |x: JsonValue| spec_cat_attributes(x)) is Some
            &&& match lookup(es, "relationships"@) {
                Some(rv) => spec_cat_rels_ok(rv),
                None => false,
            }
            &&& s_opt_field(es, "links"@, |x: JsonValue| spec_cat_links(x)) is Some
        },
        None => false,
    }
}

/// How a decoded category resource relates to the document.
pub open spec fn spec_cat_rel(v: JsonValue, t: CategoryResource) -> bool {
    match as_obj(v) {
        Some(es) => {
            &&& s_str(es, "type"@) == Some(t.resource_type)
            &&& s_str(es, "id"@) == Some(t.id)
            &&& s_field(es, "attributes"@, |x: JsonValue| spec_cat_attributes(x)) == Some(
                t.attributes,
            )
            &&& match lookup(es, "relationships"@) {
                Some(rv) => spec_cat_rels_rel(rv, t.relationships),
                None => false,
            }
            &&& s_opt_field(es, "links"@, |x: JsonValue| spec_cat_links(x)) == Some(t.links)
        },
        None => false,
    }
}

impl Decodable for CategoryResource {
    open spec fn decode_ok(v: JsonValue) -> bool {
        spec_cat_ok(v)
    }

    open spec fn decode_rel(v: JsonValue, t: Self) -> bool {
        spec_cat_rel(v, t)
    }

    fn decode(v: &JsonValue) -> (r: Option<Self>) {
        match v {
            JsonValue::Obj(es) => {
                let resource_type = match f_str(es, "type") {
                    Some(s) => s,
                    None => { return None; },
                };
                let id = match f_str(es, "id") {
                    Some(s) => s,
                    None => { return None; },
                };
                let attributes = match get(es, "attributes") {
                    Some(av) => match Attributes::decode(av) {
                        Some(a) => a,
                        None => { return None; },
                    },
                    None => { return None; },
                };
                let relationships = match get(es, "relationships") {
                    Some(rv) => match Relationships::decode(rv) {
                        Some(x) => x,
                        None => { return None; },
                    },
                    None => { return None; },
                };
                let links = match get(es, "links") {
                    None => None,
                    Some(JsonValue::Null) => None,
                    Some(lv) => match CategoryResourceLinks::decode(lv) {
                        Some(l) => Some(l),
                        None => { return None; },
                    },
                };
                Some(CategoryResource { resource_type, id, attributes, relationships, links })
            },
            _ => None,
        }
    }
}

impl Decodable for ListCategoriesResponse {
    open spec fn decode_ok(v: JsonValue) -> bool {
        match as_obj(v) {
            Some(es) => match s_arr(es, "data"@) {
                Some(a) => forall|i: int| 0 <= i < a.len() ==> spec_cat_ok(#[trigger] a[i]),
                None => false,
            },
            None => false,
        }
    }

    open spec fn decode_rel(v: JsonValue, t: Self) -> bool {
        match as_obj(v) {
            Some(es) => match s_arr(es, "data"@) {
                Some(a) => t.data@.len() == a.len() && (forall|i: int|
                    0 <= i < a.len() ==> spec_cat_rel(a[i], #[trigger] t.data@[i])),
                None => false,
            },
            None => false,
        }
    }

    fn decode(v: &JsonValue) -> (r: Option<Self>) {
        match v {
            JsonValue::Obj(es) => match get(es, "data") {
                Some(JsonValue::Arr(a)) => match decode_array::<CategoryResource>(a) {
                    Some(data) => Some(ListCategoriesResponse { data }),
                    None => {
                        proof {
                            assert(as_obj(*v).unwrap() == es@);
                            assert(s_arr(as_obj(*v).unwrap(), "data"@).unwrap() == a@);
                            assert(!Self::decode_ok(*v));
                        }
                        None
                    },
                },
                _ => None,
            },
            _ => None,
        }
    }
}

impl Decodable for GetCategoryResponse {
    open spec fn decode_ok(v: JsonValue) -> bool {
        match as_obj(v) {
            Some(es) => match lookup(es, "data"@) {
                Some(dv) => spec_cat_ok(dv),
                None => false,
            },
            None => false,
        }
    }

    open spec fn decode_rel(v: JsonValue, t: Self) -> bool {
        match as_obj(v) {
            Some(es) => match lookup(es, "data"@) {
                Some(dv) => spec_cat_rel(dv, t.data),
                None => false,
            },
            None => false,
        }
    }

    fn decode(v: &JsonValue) -> (r: Option<Self>) {
        match v {
            JsonValue::Obj(es) => match get(es, "data") {
                Some(dv) => match CategoryResource::decode(dv) {
                    Some(data) => Some(GetCategoryResponse { data }),
                    None => None,
                },
                None => None,
            },
            _ => None,
        }
    }
}

// ---------------- options ----------------

/// The optional filter parameters of the category list.
pub struct ListCategoriesOptions {
    /// The unique identifier of a parent category for which to return only
    /// its children.
    pub filter_parent: Option<String>,
}

/// The query entries the options emit, values encoded.
pub open spec fn categories_entries(o: ListCategoriesOptions) -> Seq<(Seq<char>, Seq<char>)> {
    opt_e(
        "filter[parent]"@,
        match o.filter_parent {
            Some(s) => Some(enc(s@)),
            None => None,
        },
    )
}

impl Default for ListCategoriesOptions {
    /// Options with no present value: they emit no query string at all.
    fn default() -> (r: Self)
        ensures
            r.filter_parent is None,
    {
        ListCategoriesOptions { filter_parent: None }
    }
}

impl ListCategoriesOptions {
    /// Sets the parent filter value.
    pub fn filter_parent(&mut self, value: String)
        ensures
            final(self).filter_parent == Some(value),
    {
        self.filter_parent = Some(value);
    }

    /// Appends the emitted query string (if the entry is present) to `url`.
    pub(crate) fn add_params(&self, url: &mut String)
        ensures
            final(url)@ == old(url)@ + url_suffix(categories_entries(*self)),
    {
        let mut query = String::new();
        let ghost mut done: Seq<(Seq<char>, Seq<char>)> = Seq::<(Seq<char>, Seq<char>)>::empty();
        if let Some(value) = &self.filter_parent {
            proof {
                lemma_qs_empty(done);
                lemma_qs_push(done, ("filter[parent]"@, enc(value@)));
            }
            push_param(&mut query, "filter[parent]", value.as_str());
            proof {
                done = done.push(("filter[parent]"@, enc(value@)));
            }
        }
        proof {
            assert(done =~= categories_entries(*self));
        }
        append_query(url, query, Ghost(done));
    }
}

// ---------------- requests ----------------

/// The body of the relationship mutation that categorizes a transaction:
/// `null` data de-categorizes, and a present category identifier is sent as
/// a `categories` resource identifier.
pub open spec fn categorise_body(category: Option<Seq<char>>) -> Seq<char> {
    match category {
        None => "{\"data\":null}"@,
        Some(id) => "{\"data\":{\"type\":\"categories\",\"id\":\""@ + json_escaped(id) + "\"}}"@,
    }
}

impl Client {
    /// Describes the request that retrieves the list of all categories and
    /// their ancestry.
    pub fn list_categories_request(&self, options: &ListCategoriesOptions) -> (r: Result<
        HttpRequest,
        Error,
    >)
        ensures
            r is Ok <==> url_normalized(spec_base_url() + "/categories"@) is Some,
            r matches Ok(req) ==> {
                &&& req.method == Method::Get
                &&& url_normalized(spec_base_url() + "/categories"@) matches Some(u) && req.url@
                    == u + url_suffix(categories_entries(*options))
                &&& header_views(req.headers@) == auth_headers(self.token())
                &&& req.body is None
            },
            r matches Err(e) ==> e matches Error::UrlParse(_),
    {
        let mut full = String::from_str(base_url());
        full.append("/categories");
        proof {
            assert(full@ =~= spec_base_url() + "/categories"@);
        }
        match parse_request_url(full) {
            Ok(mut u) => {
                options.add_params(&mut u);
                Ok(get_request(self, u))
            },
            Err(e) => Err(e),
        }
    }

    /// Describes the request that retrieves a specific category by its
    /// unique identifier. An empty identifier would change the meaning of
    /// the call, so it is rejected up front: the result is `None`, distinct
    /// from every recoverable error kind, and no request exists to dispatch.
    pub fn get_category_request(&self, id: &str) -> (r: Option<Result<HttpRequest, Error>>)
        ensures
            r is None <==> id@.len() == 0,
            r matches Some(res) ==> (res is Ok <==> url_normalized(
                spec_base_url() + "/categories/"@ + id@,
            ) is Some),
            r matches Some(res) ==> (res matches Ok(req) ==> {
                &&& req.method == Method::Get
                &&& url_normalized(spec_base_url() + "/categories/"@ + id@) matches Some(u)
                    && req.url@ == u
                &&& header_views(req.headers@) == auth_headers(self.token())
                &&& req.body is None
            }),
            r matches Some(res) ==> (res matches Err(e) ==> e matches Error::UrlParse(_)),
    {
        if id.is_empty() {
            return None;
        }
        let mut full = String::from_str(base_url());
        full.append("/categories/");
        full.append(id);
        proof {
            assert(full@ =~= spec_base_url() + "/categories/"@ + id@);
        }
        match parse_request_url(full) {
            Ok(u) => Some(Ok(get_request(self, u))),
            Err(e) => Some(Err(e)),
        }
    }

    /// Describes the request that updates (or, with `None`, clears) the
    /// category associated with a transaction: a `PATCH` of the
    /// relationship with a JSON body.
    pub fn categorise_transaction_request(
        &self,
        transaction_id: &str,
        category: Option<&str>,
    ) -> (r: Result<HttpRequest, Error>)
        ensures
            r is Ok <==> url_normalized(
                spec_base_url() + "/transactions/"@ + transaction_id@
                    + "/relationships/category"@,
            ) is Some,
            r matches Ok(req) ==> {
                &&& req.method == Method::Patch
                &&& url_normalized(
                    spec_base_url() + "/transactions/"@ + transaction_id@
                        + "/relationships/category"@,
                ) matches Some(u) && req.url@ == u
                &&& header_views(req.headers@) == auth_json_headers(self.token())
                &&& req.body matches Some(b) && b@ == categorise_body(
                    match category {
                        Some(c) => Some(c@),
                        None => None,
                    },
                )
            },
            r matches Err(e) ==> e matches Error::UrlParse(_),
    {
        let mut full = String::from_str(base_url());
        full.append("/transactions/");
        full.append(transaction_id);
        full.append("/relationships/category");
        proof {
            assert(full@ =~= spec_base_url() + "/transactions/"@ + transaction_id@
                + "/relationships/category"@);
        }
        match parse_request_url(full) {
            Ok(u) => {
                let body = match category {
                    None => String::from_str("{\"data\":null}"),
                    Some(id) => {
                        let mut b = String::from_str("{\"data\":{\"type\":\"categories\",\"id\":\"");
                        append_json_escaped(&mut b, id);
                        b.append("\"}}");
                        proof {
                            assert(b@ =~= categorise_body(Some(id@)));
                        }
                        b
                    },
                };
                Ok(json_request(self, Method::Patch, u, body))
            },
            Err(e) => Err(e),
        }
    }
}

/// Classifies and decodes the response to a `list_categories_request`; the
/// endpoint's success status is 200.
pub fn list_categories_response(status: u16, body: &str) -> (r: Result<
    ListCategoriesResponse,
    Error,
>)
    ensures
        classified::<ListCategoriesResponse>(200, status, json_of(body@), r),
{
    classify_response::<ListCategoriesResponse>(200, status, body)
}

/// Classifies and decodes the response to a `get_category_request`; the
/// endpoint's success status is 200.
pub fn get_category_response(status: u16, body: &str) -> (r: Result<GetCategoryResponse, Error>)
    ensures
        classified::<GetCategoryResponse>(200, status, json_of(body@), r),
{
    classify_response::<GetCategoryResponse>(200, status, body)
}

/// Classifies the response to a `categorise_transaction_request`; the
/// endpoint's success status is 204, with no body.
pub fn categorise_transaction_response(status: u16, body: &str) -> (r: Result<(), Error>)
    ensures
        classified_no_content(204, status, json_of(body@), r),
{
    classify_no_content(204, status, body)
}

} // verus!
