//! Types for modelling and interacting with accounts.

use vstd::prelude::*;

use crate::v1::error::Error;
use crate::v1::http::{
    auth_headers, classified, classify_response, get_request, header_views, parse_request_url,
    url_normalized, HttpRequest, Method,
};
use crate::v1::json::{
    as_obj, decode_array, f_str, get, json_of, s_arr, s_field, s_opt_field, s_str,
    Decodable, JsonValue,
};
use crate::v1::paginate::{decode_links, spec_links, Paginated};
use crate::v1::query::{
    dec_u8, enc, lemma_qs_empty, lemma_qs_push, opt_e, push_param, push_param_u8,
    url_suffix, append_query,
};
use crate::v1::{base_url, spec_base_url, Client};

verus! {

/// The account returned by the single-resource fetch.
#[derive(Debug, Clone, PartialEq)]
pub struct GetAccountResponse {
    /// The account returned in this response.
    pub data: Data,
}

/// One page of accounts.
#[derive(Debug, Clone, PartialEq)]
pub struct ListAccountsResponse {
    /// The list of accounts returned in this response.
    pub data: Vec<Data>,
    pub links: ResponseLinks,
}

/// The links of one account resource.
#[derive(Debug, Clone, PartialEq)]
pub struct DataLinks {
    /// The canonical link to this resource within the API (the wire field
    /// `self`).
    pub this: Option<String>,
}

/// The pagination links of a page of accounts.
#[derive(Debug, Clone, PartialEq)]
pub struct ResponseLinks {
    /// The link to the previous page in the results. If this value is
    /// `None` there is no previous page.
    pub prev: Option<String>,
    /// The link to the next page in the results. If this value is `None`
    /// there is no next page.
    pub next: Option<String>,
}

/// One account resource.
#[derive(Debug, Clone, PartialEq)]
pub struct Data {
    /// The type of this resource: `accounts` (the wire field `type`).
    pub resource_type: String,
    /// The unique identifier for this account.
    pub id: String,
    pub attributes: Attributes,
    pub relationships: Relationships,
    pub links: Option<DataLinks>,
}

/// The relationships of an account.
#[derive(Debug, Clone, PartialEq)]
pub struct Relationships {
    pub transactions: Transactions,
}

/// The transactions relationship of an account.
#[derive(Debug, Clone, PartialEq)]
pub struct Transactions {
    pub links: Option<TransactionLinks>,
}

/// The link to an account's transactions.
#[derive(Debug, Clone, PartialEq)]
pub struct TransactionLinks {
    /// The link to retrieve the related resource(s) in this relationship.
    pub related: String,
}

/// The attributes of an account.
#[derive(Debug, Clone, PartialEq)]
pub struct Attributes {
    /// The name associated with the account in the Up application (the
    /// wire field `displayName`).
    pub display_name: String,
    /// The bank account type of this account: `SAVER` or `TRANSACTIONAL`
    /// (the wire field `accountType`).
    pub account_type: String,
    /// The ownership structure of this account: `INDIVIDUAL` or `JOINT`
    /// (the wire field `ownershipType`).
    pub ownership_type: String,
    /// The available balance of the account, taking into account any
    /// amounts that are currently on hold.
    pub balance: Balance,
    /// The date-time at which this account was first opened (the wire
    /// field `createdAt`).
    pub created_at: String,
}

/// The balance of an account.
#[derive(Debug, Clone, PartialEq)]
pub struct Balance {
    /// The ISO 4217 currency code (the wire field `currencyCode`).
    pub currency_code: String,
    /// The amount of money, formatted as a string in the relevant
    /// currency, without the currency symbol.
    pub value: String,
    /// The amount of money in the smallest denomination for the currency
    /// (the wire field `valueInBaseUnits`).
    pub value_in_base_units: i64,
}

// ---------------- decoding ----------------

pub open spec fn spec_balance(v: JsonValue) -> Option<Balance> {
    match v {
        JsonValue::Obj(es) => match (
            s_str(es@, "currencyCode"@),
            s_str(es@, "value"@),
            crate::v1::json::s_i64(es@, "valueInBaseUnits"@),
        ) {
            (Some(currency_code), Some(value), Some(value_in_base_units)) => Some(
                Balance { currency_code, value, value_in_base_units },
            ),
            _ => None,
        },
        _ => None,
    }
}

impl Decodable for Balance {
    open spec fn decode_ok(v: JsonValue) -> bool {
        spec_balance(v) is Some
    }

    open spec fn decode_rel(v: JsonValue, t: Self) -> bool {
        spec_balance(v) == Some(t)
    }

    fn decode(v: &JsonValue) -> (r: Option<Self>) {
        match v {
            JsonValue::Obj(es) => match (
                f_str(es, "currencyCode"),
                f_str(es, "value"),
                crate::v1::json::f_i64(es, "valueInBaseUnits"),
            ) {
                (Some(currency_code), Some(value), Some(value_in_base_units)) => Some(
                    Balance { currency_code, value, value_in_base_units },
                ),
                _ => None,
            },
            _ => None,
        }
    }
}

pub open spec fn spec_attributes(v: JsonValue) -> Option<Attributes> {
    match v {
        JsonValue::Obj(es) => match (
            s_str(es@, "displayName"@),
            s_str(es@, "accountType"@),
            s_str(es@, "ownershipType"@),
            s_field(es@, "balance"@, |x: JsonValue| spec_balance(x)),
            s_str(es@, "createdAt"@),
        ) {
            (
                Some(display_name),
                Some(account_type),
                Some(ownership_type),
                Some(balance),
                Some(created_at),
            ) => Some(
                Attributes { display_name, account_type, ownership_type, balance, created_at },
            ),
            _ => None,
        },
        _ => None,
    }
}

impl Decodable for Attributes {
    open spec fn decode_ok(v: JsonValue) -> bool {
        spec_attributes(v) is Some
    }

    open spec fn decode_rel(v: JsonValue, t: Self) -> bool {
        spec_attributes(v) == Some(t)
    }

    fn decode(v: &JsonValue) -> (r: Option<Self>) {
        match v {
            JsonValue::Obj(es) => {
                let display_name = match f_str(es, "displayName") {
                    Some(s) => s,
                    None => { return None; },
                };
                let account_type = match f_str(es, "accountType") {
                    Some(s) => s,
                    None => { return None; },
                };
                let ownership_type = match f_str(es, "ownershipType") {
                    Some(s) => s,
                    None => { return None; },
                };
                let balance = match get(es, "balance") {
                    Some(bv) => match Balance::decode(bv) {
                        Some(b) => b,
                        None => { return None; },
                    },
                    None => { return None; },
                };
                let created_at = match f_str(es, "createdAt") {
                    Some(s) => s,
                    None => { return None; },
                };
                Some(
                    Attributes { display_name, account_type, ownership_type, balance, created_at },
                )
            },
            _ => None,
        }
    }
}

pub open spec fn spec_transaction_links(v: JsonValue) -> Option<TransactionLinks> {
    match v {
        JsonValue::Obj(es) => match s_str(es@, "related"@) {
            Some(related) => Some(TransactionLinks { related }),
            None => None,
        },
        _ => None,
    }
}

impl Decodable for TransactionLinks {
    open spec fn decode_ok(v: JsonValue) -> bool {
        spec_transaction_links(v) is Some
    }

    open spec fn decode_rel(v: JsonValue, t: Self) -> bool {
        spec_transaction_links(v) == Some(t)
    }

    fn decode(v: &JsonValue) -> (r: Option<Self>) {
        match v {
            JsonValue::Obj(es) => match f_str(es, "related") {
                Some(related) => Some(TransactionLinks { related }),
                None => None,
            },
            _ => None,
        }
    }
}

pub open spec fn spec_transactions(v: JsonValue) -> Option<Transactions> {
    match v {
        JsonValue::Obj(es) => match s_opt_field(
            es@,
            "links"@,
            |x: JsonValue| spec_transaction_links(x),
        ) {
            Some(links) => Some(Transactions { links }),
            None => None,
        },
        _ => None,
    }
}

impl Decodable for Transactions {
    open spec fn decode_ok(v: JsonValue) -> bool {
        spec_transactions(v) is Some
    }

    open spec fn decode_rel(v: JsonValue, t: Self) -> bool {
        spec_transactions(v) == Some(t)
    }

    fn decode(v: &JsonValue) -> (r: Option<Self>) {
        match v {
            JsonValue::Obj(es) => {
                let links = match get(es, "links") {
                    None => None,
                    Some(JsonValue::Null) => None,
                    Some(lv) => match TransactionLinks::decode(lv) {
                        Some(l) => Some(l),
                        None => { return None; },
                    },
                };
                Some(Transactions { links })
            },
            _ => None,
        }
    }
}

pub open spec fn spec_relationships(v: JsonValue) -> Option<Relationships> {
    match v {
        JsonValue::Obj(es) => match s_field(
            es@,
            "transactions"@,
            |x: JsonValue| spec_transactions(x),
        ) {
            Some(transactions) => Some(Relationships { transactions }),
            None => None,
        },
        _ => None,
    }
}

impl Decodable for Relationships {
    open spec fn decode_ok(v: JsonValue) -> bool {
        spec_relationships(v) is Some
    }

    open spec fn decode_rel(v: JsonValue, t: Self) -> bool {
        spec_relationships(v) == Some(t)
    }

    fn decode(v: &JsonValue) -> (r: Option<Self>) {
        match v {
            JsonValue::Obj(es) => match get(es, "transactions") {
                Some(tv) => match Transactions::decode(tv) {
                    Some(transactions) => Some(Relationships { transactions }),
                    None => None,
                },
                None => None,
            },
            _ => None,
        }
    }
}

pub open spec fn spec_data_links(v: JsonValue) -> Option<DataLinks> {
    match v {
        JsonValue::Obj(es) => match crate::v1::json::s_opt_str(es@, "self"@) {
            Some(this) => Some(DataLinks { this }),
            None => None,
        },
        _ => None,
    }
}

impl Decodable for DataLinks {
    open spec fn decode_ok(v: JsonValue) -> bool {
        spec_data_links(v) is Some
    }

    open spec fn decode_rel(v: JsonValue, t: Self) -> bool {
        spec_data_links(v) == Some(t)
    }

    fn decode(v: &JsonValue) -> (r: Option<Self>) {
        match v {
            JsonValue::Obj(es) => match crate::v1::json::f_opt_str(es, "self") {
                Some(this) => Some(DataLinks { this }),
                None => None,
            },
            _ => None,
        }
    }
}

pub open spec fn spec_data(v: JsonValue) -> Option<Data> {
    match v {
        JsonValue::Obj(es) => match (
            s_str(es@, "type"@),
            s_str(es@, "id"@),
            s_field(es@, "attributes"@, |x: JsonValue| spec_attributes(x)),
            s_field(es@, "relationships"@, |x: JsonValue| spec_relationships(x)),
            s_opt_field(es@, "links"@, |x: JsonValue| spec_data_links(x)),
        ) {
            (Some(resource_type), Some(id), Some(attributes), Some(relationships), Some(links)) =>
                Some(Data { resource_type, id, attributes, relationships, links }),
            _ => None,
        },
        _ => None,
    }
}

impl Decodable for Data {
    open spec fn decode_ok(v: JsonValue) -> bool {
        spec_data(v) is Some
    }

    open spec fn decode_rel(v: JsonValue, t: Self) -> bool {
        spec_data(v) == Some(t)
    }

    fn decode(v: &JsonValue) -> (r: Option<Self>) {
        match v {
            JsonValue::Obj(es) => {
                let resource_type = match f_str(es, "type") {
                    Some(s) => s,
                    None => { return None; },
                };
                let id = match f_str(es, "id") {
                    Some(s) => s,
                    None => { return None; },
                };
                let attributes = match get(es, "attributes") {
                    Some(av) => match Attributes::decode(av) {
                        Some(a) => a,
                        None => { return None; },
                    },
                    None => { return None; },
                };
                let relationships = match get(es, "relationships") {
                    Some(rv) => match Relationships::decode(rv) {
                        Some(x) => x,
                        None => { return None; },
                    },
                    None => { return None; },
                };
                let links = match get(es, "links") {
                    None => None,
                    Some(JsonValue::Null) => None,
                    Some(lv) => match DataLinks::decode(lv) {
                        Some(l) => Some(l),
                        None => { return None; },
                    },
                };
                Some(Data { resource_type, id, attributes, relationships, links })
            },
            _ => None,
        }
    }
}

pub open spec fn spec_response_links(v: JsonValue) -> Option<ResponseLinks> {
    match spec_links(v) {
        Some(p) => Some(ResponseLinks { prev: p.0, next: p.1 }),
        None => None,
    }
}

impl Decodable for ResponseLinks {
    open spec fn decode_ok(v: JsonValue) -> bool {
        spec_response_links(v) is Some
    }

    open spec fn decode_rel(v: JsonValue, t: Self) -> bool {
        spec_response_links(v) == Some(t)
    }

    fn decode(v: &JsonValue) -> (r: Option<Self>) {
        match decode_links(v) {
            Some(p) => Some(ResponseLinks { prev: p.0, next: p.1 }),
            None => None,
        }
    }
}

pub open spec fn spec_get_account_response(v: JsonValue) -> Option<GetAccountResponse> {
    match v {
        JsonValue::Obj(es) => match s_field(es@, "data"@, |x: JsonValue| spec_data(x)) {
            Some(data) => Some(GetAccountResponse { data }),
            None => None,
        },
        _ => None,
    }
}

impl Decodable for GetAccountResponse {
    open spec fn decode_ok(v: JsonValue) -> bool {
        spec_get_account_response(v) is Some
    }

    open spec fn decode_rel(v: JsonValue, t: Self) -> bool {
        spec_get_account_response(v) == Some(t)
    }

    fn decode(v: &JsonValue) -> (r: Option<Self>) {
        match v {
            JsonValue::Obj(es) => match get(es, "data") {
                Some(dv) => match Data::decode(dv) {
                    Some(data) => Some(GetAccountResponse { data }),
                    None => None,
                },
                None => None,
            },
            _ => None,
        }
    }
}

impl Decodable for ListAccountsResponse {
    open spec fn decode_ok(v: JsonValue) -> bool {
        match as_obj(v) {
            Some(es) => match s_arr(es, "data"@) {
                Some(a) => (forall|i: int| 0 <= i < a.len() ==> Data::decode_ok(#[trigger] a[i]))
                    && s_field(es, "links"@, |x: JsonValue| spec_response_links(x)) is Some,
                None => false,
            },
            None => false,
        }
    }

    open spec fn decode_rel(v: JsonValue, t: Self) -> bool {
        match as_obj(v) {
            Some(es) => match s_arr(es, "data"@) {
                Some(a) => t.data@.len() == a.len() && (forall|i: int|
                    0 <= i < a.len() ==> Data::decode_rel(a[i], #[trigger] t.data@[i])) && s_field(
                    es,
                    "links"@,
                    |x: JsonValue| spec_response_links(x),
                ) == Some(t.links),
                None => false,
            },
            None => false,
        }
    }

    fn decode(v: &JsonValue) -> (r: Option<Self>) {
        match v {
            JsonValue::Obj(es) => {
                let data = match get(es, "data") {
                    Some(JsonValue::Arr(a)) => match decode_array::<Data>(a) {
                        Some(d) => d,
                        None => {
                            proof {
                                assert(as_obj(*v).unwrap() == es@);
                                assert(s_arr(as_obj(*v).unwrap(), "data"@).unwrap() == a@);
                                assert(!Self::decode_ok(*v));
                            }
                            return None;
                        },
                    },
                    _ => { return None; },
                };
                let links = match get(es, "links") {
                    Some(lv) => match ResponseLinks::decode(lv) {
                        Some(l) => l,
                        None => { return None; },
                    },
                    None => { return None; },
                };
                Some(ListAccountsResponse { data, links })
            },
            _ => None,
        }
    }
}

impl Paginated for ListAccountsResponse {
    open spec fn spec_next(&self) -> Option<String> {
        self.links.next
    }

    open spec fn spec_prev(&self) -> Option<String> {
        self.links.prev
    }

    fn next_link(&self) -> (r: &Option<String>) {
        &self.links.next
    }

    fn prev_link(&self) -> (r: &Option<String>) {
        &self.links.prev
    }
}

// ---------------- options ----------------

/// The optional filter and paging parameters of the account list, in the
/// declared (emitted) order.
pub struct ListAccountsOptions {
    /// The number of records to return in each page.
    pub page_size: Option<u8>,
    /// The type of account for which to return records.
    pub filter_account_type: Option<String>,
    /// The account ownership structure for which to return records.
    pub filter_owership_type: Option<String>,
}

/// The query entries the options emit, in declared order, values encoded.
pub open spec fn accounts_entries(o: ListAccountsOptions) -> Seq<(Seq<char>, Seq<char>)> {
    opt_e(
        "page[size]"@,
        match o.page_size {
            Some(n) => Some(dec_u8(n)),
            None => None,
        },
    ) + opt_e(
        "filter[accountType]"@,
        match o.filter_account_type {
            Some(s) => Some(enc(s@)),
            None => None,
        },
    ) + opt_e(
        "filter[ownershipType]"@,
        match o.filter_owership_type {
            Some(s) => Some(enc(s@)),
            None => None,
        },
    )
}

impl Default for ListAccountsOptions {
    /// Options with no present value: they emit no query string at all.
    fn default() -> (r: Self)
        ensures
            r.page_size is None,
            r.filter_account_type is None,
            r.filter_owership_type is None,
    {
        ListAccountsOptions { page_size: None, filter_account_type: None, filter_owership_type: None }
    }
}

impl ListAccountsOptions {
    /// Sets the page size.
    pub fn page_size(&mut self, value: u8)
        ensures
            final(self).page_size == Some(value),
            final(self).filter_account_type == old(self).filter_account_type,
            final(self).filter_owership_type == old(self).filter_owership_type,
    {
        self.page_size = Some(value);
    }

    /// Sets the account type filter value.
    pub fn filter_account_type(&mut self, value: String)
        ensures
            final(self).filter_account_type == Some(value),
            final(self).page_size == old(self).page_size,
            final(self).filter_owership_type == old(self).filter_owership_type,
    {
        self.filter_account_type = Some(value);
    }

    /// Sets the ownership type filter value.
    pub fn filter_owership_type(&mut self, value: String)
        ensures
            final(self).filter_owership_type == Some(value),
            final(self).page_size == old(self).page_size,
            final(self).filter_account_type == old(self).filter_account_type,
    {
        self.filter_owership_type = Some(value);
    }

    /// Appends the emitted query string (if any entry is present) to `url`.
    pub(crate) fn add_params(&self, url: &mut String)
        ensures
            final(url)@ == old(url)@ + url_suffix(accounts_entries(*self)),
    {
        let mut query = String::new();
        let ghost mut done: Seq<(Seq<char>, Seq<char>)> = Seq::<(Seq<char>, Seq<char>)>::empty();
        if let Some(value) = &self.page_size {
            proof {
                lemma_qs_empty(done);
                lemma_qs_push(done, ("page[size]"@, dec_u8(*value)));
            }
            push_param_u8(&mut query, "page[size]", *value);
            proof {
                done = done.push(("page[size]"@, dec_u8(*value)));
            }
        }
        if let Some(value) = &self.filter_account_type {
            proof {
                lemma_qs_empty(done);
                lemma_qs_push(done, ("filter[accountType]"@, enc(value@)));
            }
            push_param(&mut query, "filter[accountType]", value.as_str());
            proof {
                done = done.push(("filter[accountType]"@, enc(value@)));
            }
        }
        if let Some(value) = &self.filter_owership_type {
            proof {
                lemma_qs_empty(done);
                lemma_qs_push(done, ("filter[ownershipType]"@, enc(value@)));
            }
            push_param(&mut query, "filter[ownershipType]", value.as_str());
            proof {
                done = done.push(("filter[ownershipType]"@, enc(value@)));
            }
        }
        proof {
            assert(done =~= accounts_entries(*self));
        }
        append_query(url, query, Ghost(done));
    }
}

/// With no present value the account list options emit no query string: the
/// request URL ends without `?`.
pub proof fn lemma_accounts_default_no_query(o: ListAccountsOptions)
    requires
        o.page_size is None,
        o.filter_account_type is None,
        o.filter_owership_type is None,
    ensures
        url_suffix(accounts_entries(o)) == Seq::<char>::empty(),
{
    assert(accounts_entries(o) =~= Seq::<(Seq<char>, Seq<char>)>::empty());
}

// ---------------- requests ----------------

impl Client {
    /// Describes the request that retrieves a paginated list of all
    /// accounts for the currently authenticated user.
    pub fn list_accounts_request(&self, options: &ListAccountsOptions) -> (r: Result<
        HttpRequest,
        Error,
    >)
        ensures
            r is Ok <==> url_normalized(spec_base_url() + "/accounts"@) is Some,
            r matches Ok(req) ==> {
                &&& req.method == Method::Get
                &&& url_normalized(spec_base_url() + "/accounts"@) matches Some(u) && req.url@ == u
                    + url_suffix(accounts_entries(*options))
                &&& header_views(req.headers@) == auth_headers(self.token())
                &&& req.body is None
            },
            r matches Err(e) ==> e matches Error::UrlParse(_),
    {
        let mut full = String::from_str(base_url());
        full.append("/accounts");
        proof {
            assert(full@ =~= spec_base_url() + "/accounts"@);
        }
        match parse_request_url(full) {
            Ok(mut u) => {
                options.add_params(&mut u);
                Ok(get_request(self, u))
            },
            Err(e) => Err(e),
        }
    }

    /// Describes the request that retrieves a specific account by its
    /// unique identifier. An empty identifier would change the meaning of
    /// the call (the API would read it as a request for many accounts), so
    /// it is rejected up front: the result is `None`, distinct from every
    /// recoverable error kind, and no request exists to dispatch.
    pub fn get_account_request(&self, id: &str) -> (r: Option<Result<HttpRequest, Error>>)
        ensures
            r is None <==> id@.len() == 0,
            r matches Some(res) ==> (res is Ok <==> url_normalized(
                spec_base_url() + "/accounts/"@ + id@,
            ) is Some),
            r matches Some(res) ==> (res matches Ok(req) ==> {
                &&& req.method == Method::Get
                &&& url_normalized(spec_base_url() + "/accounts/"@ + id@) matches Some(u)
                    && req.url@ == u
                &&& header_views(req.headers@) == auth_headers(self.token())
                &&& req.body is None
            }),
            r matches Some(res) ==> (res matches Err(e) ==> e matches Error::UrlParse(_)),
    {
        if id.is_empty() {
            return None;
        }
        let mut full = String::from_str(base_url());
        full.append("/accounts/");
        full.append(id);
        proof {
            assert(full@ =~= spec_base_url() + "/accounts/"@ + id@);
        }
        match parse_request_url(full) {
            Ok(u) => Some(Ok(get_request(self, u))),
            Err(e) => Some(Err(e)),
        }
    }
}

/// Classifies and decodes the response to a `list_accounts_request`; the
/// endpoint's success status is 200.
pub fn list_accounts_response(status: u16, body: &str) -> (r: Result<ListAccountsResponse, Error>)
    ensures
        classified::<ListAccountsResponse>(200, status, json_of(body@), r),
{
    classify_response::<ListAccountsResponse>(200, status, body)
}

/// Classifies and decodes the response to a `get_account_request`; the
/// endpoint's success status is 200.
pub fn get_account_response(status: u16, body: &str) -> (r: Result<GetAccountResponse, Error>)
    ensures
        classified::<GetAccountResponse>(200, status, json_of(body@), r),
{
    classify_response::<GetAccountResponse>(200, status, body)
}

} // verus!
