//! Types for modelling and interacting with transactions.

use vstd::prelude::*;

use crate::v1::error::Error;
use crate::v1::http::{
    auth_headers, classified, classify_response, get_request, header_views, parse_request_url,
    url_normalized, HttpRequest, Method,
};
use crate::v1::json::{
    as_obj, decode_array, f_bool, f_opt_str, f_str, get, json_of, lookup, s_arr, s_bool, s_field,
    s_opt_field, s_opt_str, s_str, Decodable, JsonValue,
};
use crate::v1::paginate::{decode_links, spec_links, Paginated};
use crate::v1::query::{
    dec_u8, enc, lemma_qs_empty, lemma_qs_push, opt_e, push_param, push_param_u8,
    url_suffix, append_query,
};
use crate::v1::standard::{
    spec_card_purchase, spec_cash_back, spec_hold_info, spec_money, spec_round_up,
    spec_transaction_status, CardPurchaseMethodObject, CashBackObject, HoldInfoObject, MoneyObject,
    RoundUpObject, TransactionStatusEnum,
};
use crate::v1::{base_url, spec_base_url, Client};

verus! {

// ---------------- response objects ----------------

/// One page of transactions.
#[derive(Debug, Clone, PartialEq)]
pub struct ListTransactionsResponse {
    /// The list of transactions returned in this response.
    pub data: Vec<TransactionResource>,
    pub links: ResponseLinks,
}

/// The transaction returned by the single-resource fetch.
#[derive(Debug, Clone, PartialEq)]
pub struct GetTransactionResponse {
    /// The transaction returned in this response.
    pub data: TransactionResource,
}

/// One transaction resource.
#[derive(Debug, Clone, PartialEq)]
pub struct TransactionResource {
    /// The type of this resource: `transactions` (the wire field `type`).
    pub resource_type: String,
    /// The unique identifier for this transaction.
    pub id: String,
    pub attributes: Attributes,
    pub relationships: Relationships,
    pub links: Option<TransactionResourceLinks>,
}

/// The links of one transaction resource.
#[derive(Debug, Clone, PartialEq)]
pub struct TransactionResourceLinks {
    /// The canonical link to this resource within the API (the wire field
    /// `self`).
    pub this: String,
}

/// The relationships of a transaction (wire fields in camel case).
#[derive(Debug, Clone, PartialEq)]
pub struct Relationships {
    pub account: Account,
    /// If this transaction is a transfer between accounts, the account the
    /// transaction went to or came from.
    pub transfer_account: TransferAccount,
    pub category: Category,
    pub parent_category: ParentCategory,
    pub tags: Tags,
}

/// The account relationship of a transaction.
#[derive(Debug, Clone, PartialEq)]
pub struct Account {
    pub data: AccountData,
    pub links: Option<AccountLinks>,
}

/// The identifier of a related account.
#[derive(Debug, Clone, PartialEq)]
pub struct AccountData {
    /// The type of this resource: `accounts` (the wire field `type`).
    pub resource_type: String,
    /// The unique identifier of the resource within its type.
    pub id: String,
}

/// The link to a related account.
#[derive(Debug, Clone, PartialEq)]
pub struct AccountLinks {
    /// The link to retrieve the related resource(s) in this relationship.
    pub related: String,
}

/// The transfer-account relationship of a transaction.
#[derive(Debug, Clone, PartialEq)]
pub struct TransferAccount {
    pub data: Option<AccountData>,
    pub links: Option<AccountLinks>,
}

/// The identifier of a transfer account.
#[derive(Debug, Clone, PartialEq)]
pub struct TransferAccountData {
    /// The type of this resource: `accounts` (the wire field `type`).
    pub resource_type: String,
    /// The unique identifier of the resource within its type.
    pub id: String,
}

/// The link to a transfer account.
#[derive(Debug, Clone, PartialEq)]
pub struct TransferAccountLinks {
    /// The link to retrieve the related resource(s) in this relationship.
    pub related: String,
}

/// The category relationship of a transaction.
#[derive(Debug, Clone, PartialEq)]
pub struct Category {
    pub data: Option<CategoryData>,
    pub links: Option<CategoryLinks>,
}

/// The identifier of a related category.
#[derive(Debug, Clone, PartialEq)]
pub struct CategoryData {
    /// The type of this resource: `categories` (the wire field `type`).
    pub resource_type: String,
    /// The unique identifier of the resource within its type.
    pub id: String,
}

/// The links of the category relationship.
#[derive(Debug, Clone, PartialEq)]
pub struct CategoryLinks {
    /// The link to modify the linkage between the transaction and the
    /// category (the wire field `self`).
    pub this: String,
    pub related: Option<String>,
}

/// The parent-category relationship of a transaction.
#[derive(Debug, Clone, PartialEq)]
pub struct ParentCategory {
    pub data: Option<ParentCategoryData>,
    pub links: Option<ParentCategoryLinks>,
}

/// The identifier of a related parent category.
#[derive(Debug, Clone, PartialEq)]
pub struct ParentCategoryData {
    /// The type of this resource: `categories` (the wire field `type`).
    pub resource_type: String,
    /// The unique identifier of the resource within its type.
    pub id: String,
}

/// The link to a related parent category.
#[derive(Debug, Clone, PartialEq)]
pub struct ParentCategoryLinks {
    /// The link to retrieve the related resource(s) in this relationship.
    pub related: String,
}

/// The tags relationship of a transaction.
#[derive(Debug, Clone, PartialEq)]
pub struct Tags {
    pub data: Vec<TagsData>,
    pub links: Option<TagsLinks>,
}

/// One tag attached to a transaction.
#[derive(Debug, Clone, PartialEq)]
pub struct TagsData {
    /// The type of this resource: `tags` (the wire field `type`).
    pub resource_type: String,
    /// The label of the tag, which also acts as its unique identifier.
    pub id: String,
}

/// The link of the tags relationship.
#[derive(Debug, Clone, PartialEq)]
pub struct TagsLinks {
    /// The link to modify the linkage between the transaction and its tags
    /// (the wire field `self`).
    pub this: String,
}

/// The attributes of a transaction (wire fields in camel case).
#[derive(Debug, Clone, PartialEq)]
pub struct Attributes {
    /// The current processing status of this transaction.
    pub status: TransactionStatusEnum,
    /// The original, unprocessed text of the transaction.
    pub raw_text: Option<String>,
    /// A short description for this transaction.
    pub description: String,
    /// Attached message for this transaction.
    pub message: Option<String>,
    /// True on transactions that support the use of categories.
    pub is_categorizable: bool,
    /// The amounts of this transaction while `HELD`, if it was ever held.
    pub hold_info: Option<HoldInfoObject>,
    /// How this transaction was rounded up, if a Round Up was applied.
    pub round_up: Option<RoundUpObject>,
    /// The cashback reimbursement, if any part was reimbursed.
    pub cashback: Option<CashBackObject>,
    /// The amount of this transaction in Australian dollars.
    pub amount: MoneyObject,
    /// The foreign currency amount, `None` for domestic transactions.
    pub foreign_amount: Option<MoneyObject>,
    /// Information about the card used, if applicable.
    pub card_purchase_method: Option<CardPurchaseMethodObject>,
    /// When this transaction settled; `None` while it is `HELD`.
    pub settled_at: Option<String>,
    /// When this transaction was first encountered.
    pub created_at: String,
}

/// The pagination links of a page of transactions.
#[derive(Debug, Clone, PartialEq)]
pub struct ResponseLinks {
    /// The link to the previous page in the results. If this value is
    /// `None` there is no previous page.
    pub prev: Option<String>,
    /// The link to the next page in the results. If this value is `None`
    /// there is no next page.
    pub next: Option<String>,
}

// ---------------- decoding ----------------

pub open spec fn spec_tx_links(v: JsonValue) -> Option<TransactionResourceLinks> {
    match v {
        JsonValue::Obj(es) => match s_str(es@, "self"@) {
            Some(this) => Some(TransactionResourceLinks { this }),
            None => None,
        },
        _ => None,
    }
}

impl Decodable for TransactionResourceLinks {
    open spec fn decode_ok(v: JsonValue) -> bool {
        spec_tx_links(v) is Some
    }

    open spec fn decode_rel(v: JsonValue, t: Self) -> bool {
        spec_tx_links(v) == Some(t)
    }

    fn decode(v: &JsonValue) -> (r: Option<Self>) {
        match v {
            JsonValue::Obj(es) => match f_str(es, "self") {
                Some(this) => Some(TransactionResourceLinks { this }),
                None => None,
            },
            _ => None,
        }
    }
}

pub open spec fn spec_account_data(v: JsonValue) -> Option<AccountData> {
    match v {
        JsonValue::Obj(es) => match (s_str(es@, "type"@), s_str(es@, "id"@)) {
            (Some(resource_type), Some(id)) => Some(AccountData { resource_type, id }),
            _ => None,
        },
        _ => None,
    }
}

impl Decodable for AccountData {
    open spec fn decode_ok(v: JsonValue) -> bool {
        spec_account_data(v) is Some
    }

    open spec fn decode_rel(v: JsonValue, t: Self) -> bool {
        spec_account_data(v) == Some(t)
    }

    fn decode(v: &JsonValue) -> (r: Option<Self>) {
        match v {
            JsonValue::Obj(es) => match (f_str(es, "type"), f_str(es, "id")) {
                (Some(resource_type), Some(id)) => Some(AccountData { resource_type, id }),
                _ => None,
            },
            _ => None,
        }
    }
}

pub open spec fn spec_account_links(v: JsonValue) -> Option<AccountLinks> {
    match v {
        JsonValue::Obj(es) => match s_str(es@, "related"@) {
            Some(related) => Some(AccountLinks { related }),
            None => None,
        },
        _ => None,
    }
}

impl Decodable for AccountLinks {
    open spec fn decode_ok(v: JsonValue) -> bool {
        spec_account_links(v) is Some
    }

    open spec fn decode_rel(v: JsonValue, t: Self) -> bool {
        spec_account_links(v) == Some(t)
    }

    fn decode(v: &JsonValue) -> (r: Option<Self>) {
        match v {
            JsonValue::Obj(es) => match f_str(es, "related") {
                Some(related) => Some(AccountLinks { related }),
                None => None,
            },
            _ => None,
        }
    }
}

pub open spec fn spec_account_rel(v: JsonValue) -> Option<Account> {
    match v {
        JsonValue::Obj(es) => match (
            s_field(es@, "data"@, |x: JsonValue| spec_account_data(x)),
            s_opt_field(es@, "links"@, |x: JsonValue| spec_account_links(x)),
        ) {
            (Some(data), Some(links)) => Some(Account { data, links }),
            _ => None,
        },
        _ => None,
    }
}

impl Decodable for Account {
    open spec fn decode_ok(v: JsonValue) -> bool {
        spec_account_rel(v) is Some
    }

    open spec fn decode_rel(v: JsonValue, t: Self) -> bool {
        spec_account_rel(v) == Some(t)
    }

    fn decode(v: &JsonValue) -> (r: Option<Self>) {
        match v {
            JsonValue::Obj(es) => {
                let data = match get(es, "data") {
                    Some(dv) => match AccountData::decode(dv) {
                        Some(d) => d,
                        None => { return None; },
                    },
                    None => { return None; },
                };
                let links = match get(es, "links") {
                    None => None,
                    Some(JsonValue::Null) => None,
                    Some(lv) => match AccountLinks::decode(lv) {
                        Some(l) => Some(l),
                        None => { return None; },
                    },
                };
                Some(Account { data, links })
            },
            _ => None,
        }
    }
}

pub open spec fn spec_transfer_account(v: JsonValue) -> Option<TransferAccount> {
    match v {
        JsonValue::Obj(es) => match (
            s_opt_field(es@, "data"@, |x: JsonValue| spec_account_data(x)),
            s_opt_field(es@, "links"@, |x: JsonValue| spec_account_links(x)),
        ) {
            (Some(data), Some(links)) => Some(TransferAccount { data, links }),
            _ => None,
        },
        _ => None,
    }
}

impl Decodable for TransferAccount {
    open spec fn decode_ok(v: JsonValue) -> bool {
        spec_transfer_account(v) is Some
    }

    open spec fn decode_rel(v: JsonValue, t: Self) -> bool {
        spec_transfer_account(v) == Some(t)
    }

    fn decode(v: &JsonValue) -> (r: Option<Self>) {
        match v {
            JsonValue::Obj(es) => {
                let data = match get(es, "data") {
                    None => None,
                    Some(JsonValue::Null) => None,
                    Some(dv) => match AccountData::decode(dv) {
                        Some(d) => Some(d),
                        None => { return None; },
                    },
                };
                let links = match get(es, "links") {
                    None => None,
                    Some(JsonValue::Null) => None,
                    Some(lv) => match AccountLinks::decode(lv) {
                        Some(l) => Some(l),
                        None => { return None; },
                    },
                };
                Some(TransferAccount { data, links })
            },
            _ => None,
        }
    }
}

pub open spec fn spec_category_data(v: JsonValue) -> Option<CategoryData> {
    match v {
        JsonValue::Obj(es) => match (s_str(es@, "type"@), s_str(es@, "id"@)) {
            (Some(resource_type), Some(id)) => Some(CategoryData { resource_type, id }),
            _ => None,
        },
        _ => None,
    }
}

impl Decodable for CategoryData {
    open spec fn decode_ok(v: JsonValue) -> bool {
        spec_category_data(v) is Some
    }

    open spec fn decode_rel(v: JsonValue, t: Self) -> bool {
        spec_category_data(v) == Some(t)
    }

    fn decode(v: &JsonValue) -> (r: Option<Self>) {
        match v {
            JsonValue::Obj(es) => match (f_str(es, "type"), f_str(es, "id")) {
                (Some(resource_type), Some(id)) => Some(CategoryData { resource_type, id }),
                _ => None,
            },
            _ => None,
        }
    }
}

pub open spec fn spec_category_links(v: JsonValue) -> Option<CategoryLinks> {
    match v {
        JsonValue::Obj(es) => match (s_str(es@, "self"@), s_opt_str(es@, "related"@)) {
            (Some(this), Some(related)) => Some(CategoryLinks { this, related }),
            _ => None,
        },
        _ => None,
    }
}

impl Decodable for CategoryLinks {
    open spec fn decode_ok(v: JsonValue) -> bool {
        spec_category_links(v) is Some
    }

    open spec fn decode_rel(v: JsonValue, t: Self) -> bool {
        spec_category_links(v) == Some(t)
    }

    fn decode(v: &JsonValue) -> (r: Option<Self>) {
        match v {
            JsonValue::Obj(es) => match (f_str(es, "self"), f_opt_str(es, "related")) {
                (Some(this), Some(related)) => Some(CategoryLinks { this, related }),
                _ => None,
            },
            _ => None,
        }
    }
}

pub open spec fn spec_category_rel(v: JsonValue) -> Option<Category> {
    match v {
        JsonValue::Obj(es) => match (
            s_opt_field(es@, "data"@, |x: JsonValue| spec_category_data(x)),
            s_opt_field(es@, "links"@, |x: JsonValue| spec_category_links(x)),
        ) {
            (Some(data), Some(links)) => Some(Category { data, links }),
            _ => None,
        },
        _ => None,
    }
}

impl Decodable for Category {
    open spec fn decode_ok(v: JsonValue) -> bool {
        spec_category_rel(v) is Some
    }

    open spec fn decode_rel(v: JsonValue, t: Self) -> bool {
        spec_category_rel(v) == Some(t)
    }

    fn decode(v: &JsonValue) -> (r: Option<Self>) {
        match v {
            JsonValue::Obj(es) => {
                let data = match get(es, "data") {
                    None => None,
                    Some(JsonValue::Null) => None,
                    Some(dv) => match CategoryData::decode(dv) {
                        Some(d) => Some(d),
                        None => { return None; },
                    },
                };
                let links = match get(es, "links") {
                    None => None,
                    Some(JsonValue::Null) => None,
                    Some(lv) => match CategoryLinks::decode(lv) {
                        Some(l) => Some(l),
                        None => { return None; },
                    },
                };
                Some(Category { data, links })
            },
            _ => None,
        }
    }
}

pub open spec fn spec_parent_category_data(v: JsonValue) -> Option<ParentCategoryData> {
    match v {
        JsonValue::Obj(es) => match (s_str(es@, "type"@), s_str(es@, "id"@)) {
            (Some(resource_type), Some(id)) => Some(ParentCategoryData { resource_type, id }),
            _ => None,
        },
        _ => None,
    }
}

impl Decodable for ParentCategoryData {
    open spec fn decode_ok(v: JsonValue) -> bool {
        spec_parent_category_data(v) is Some
    }

    open spec fn decode_rel(v: JsonValue, t: Self) -> bool {
        spec_parent_category_data(v) == Some(t)
    }

    fn decode(v: &JsonValue) -> (r: Option<Self>) {
        match v {
            JsonValue::Obj(es) => match (f_str(es, "type"), f_str(es, "id")) {
                (Some(resource_type), Some(id)) => Some(ParentCategoryData { resource_type, id }),
                _ => None,
            },
            _ => None,
        }
    }
}

pub open spec fn spec_parent_category_links(v: JsonValue) -> Option<ParentCategoryLinks> {
    match v {
        JsonValue::Obj(es) => match s_str(es@, "related"@) {
            Some(related) => Some(ParentCategoryLinks { related }),
            None => None,
        },
        _ => None,
    }
}

impl Decodable for ParentCategoryLinks {
    open spec fn decode_ok(v: JsonValue) -> bool {
        spec_parent_category_links(v) is Some
    }

    open spec fn decode_rel(v: JsonValue, t: Self) -> bool {
        spec_parent_category_links(v) == Some(t)
    }

    fn decode(v: &JsonValue) -> (r: Option<Self>) {
        match v {
            JsonValue::Obj(es) => match f_str(es, "related") {
                Some(related) => Some(ParentCategoryLinks { related }),
                None => None,
            },
            _ => None,
        }
    }
}

pub open spec fn spec_parent_category(v: JsonValue) -> Option<ParentCategory> {
    match v {
        JsonValue::Obj(es) => match (
            s_opt_field(es@, "data"@, |x: JsonValue| spec_parent_category_data(x)),
            s_opt_field(es@, "links"@, |x: JsonValue| spec_parent_category_links(x)),
        ) {
            (Some(data), Some(links)) => Some(ParentCategory { data, links }),
            _ => None,
        },
        _ => None,
    }
}

impl Decodable for ParentCategory {
    open spec fn decode_ok(v: JsonValue) -> bool {
        spec_parent_category(v) is Some
    }

    open spec fn decode_rel(v: JsonValue, t: Self) -> bool {
        spec_parent_category(v) == Some(t)
    }

    fn decode(v: &JsonValue) -> (r: Option<Self>) {
        match v {
            JsonValue::Obj(es) => {
                let data = match get(es, "data") {
                    None => None,
                    Some(JsonValue::Null) => None,
                    Some(dv) => match ParentCategoryData::decode(dv) {
                        Some(d) => Some(d),
                        None => { return None; },
                    },
                };
                let links = match get(es, "links") {
                    None => None,
                    Some(JsonValue::Null) => None,
                    Some(lv) => match ParentCategoryLinks::decode(lv) {
                        Some(l) => Some(l),
                        None => { return None; },
                    },
                };
                Some(ParentCategory { data, links })
            },
            _ => None,
        }
    }
}

pub open spec fn spec_tags_data(v: JsonValue) -> Option<TagsData> {
    match v {
        JsonValue::Obj(es) => match (s_str(es@, "type"@), s_str(es@, "id"@)) {
            (Some(resource_type), Some(id)) => Some(TagsData { resource_type, id }),
            _ => None,
        },
        _ => None,
    }
}

impl Decodable for TagsData {
    open spec fn decode_ok(v: JsonValue) -> bool {
        spec_tags_data(v) is Some
    }

    open spec fn decode_rel(v: JsonValue, t: Self) -> bool {
        spec_tags_data(v) == Some(t)
    }

    fn decode(v: &JsonValue) -> (r: Option<Self>) {
        match v {
            JsonValue::Obj(es) => match (f_str(es, "type"), f_str(es, "id")) {
                (Some(resource_type), Some(id)) => Some(TagsData { resource_type, id }),
                _ => None,
            },
            _ => None,
        }
    }
}

pub open spec fn spec_tags_links(v: JsonValue) -> Option<TagsLinks> {
    match v {
        JsonValue::Obj(es) => match s_str(es@, "self"@) {
            Some(this) => Some(TagsLinks { this }),
            None => None,
        },
        _ => None,
    }
}

impl Decodable for TagsLinks {
    open spec fn decode_ok(v: JsonValue) -> bool {
        spec_tags_links(v) is Some
    }

    open spec fn decode_rel(v: JsonValue, t: Self) -> bool {
        spec_tags_links(v) == Some(t)
    }

    fn decode(v: &JsonValue) -> (r: Option<Self>) {
        match v {
            JsonValue::Obj(es) => match f_str(es, "self") {
                Some(this) => Some(TagsLinks { this }),
                None => None,
            },
            _ => None,
        }
    }
}

impl Decodable for Tags {
    open spec fn decode_ok(v: JsonValue) -> bool {
        match as_obj(v) {
            Some(es) => match s_arr(es, "data"@) {
                Some(a) => (forall|i: int|
                    0 <= i < a.len() ==> TagsData::decode_ok(#[trigger] a[i])) && s_opt_field(
                    es,
                    "links"@,
                    |x: JsonValue| spec_tags_links(x),
                ) is Some,
                None => false,
            },
            None => false,
        }
    }

    open spec fn decode_rel(v: JsonValue, t: Self) -> bool {
        match as_obj(v) {
            Some(es) => match s_arr(es, "data"@) {
                Some(a) => t.data@.len() == a.len() && (forall|i: int|
                    0 <= i < a.len() ==> TagsData::decode_rel(a[i], #[trigger] t.data@[i]))
                    && s_opt_field(es, "links"@, |x: JsonValue| spec_tags_links(x)) == Some(
                    t.links,
                ),
                None => false,
            },
            None => false,
        }
    }

    fn decode(v: &JsonValue) -> (r: Option<Self>) {
        match v {
            JsonValue::Obj(es) => {
                let data = match get(es, "data") {
                    Some(JsonValue::Arr(a)) => match decode_array::<TagsData>(a) {
                        Some(d) => d,
                        None => {
                            proof {
                                assert(as_obj(*v).unwrap() == es@);
                                assert(s_arr(as_obj(*v).unwrap(), "data"@).unwrap() == a@);
                                assert(!Self::decode_ok(*v));
                            }
                            return None;
                        },
                    },
                    _ => { return None; },
                };
                let links = match get(es, "links") {
                    None => None,
                    Some(JsonValue::Null) => None,
                    Some(lv) => match TagsLinks::decode(lv) {
                        Some(l) => Some(l),
                        None => { return None; },
                    },
                };
                Some(Tags { data, links })
            },
            _ => None,
        }
    }
}

/// Whether the relationships object decodes; the tags relationship carries
/// a list, so the statement is relational.
pub open spec fn spec_relationships_ok(v: JsonValue) -> bool {
    match as_obj(v) {
        Some(es) => {
            &&& s_field(es, "account"@, |x: JsonValue| spec_account_rel(x)) is Some
            &&& s_field(es, "transferAccount"@, |x: JsonValue| spec_transfer_account(x)) is Some
            &&& s_field(es, "category"@, |x: JsonValue| spec_category_rel(x)) is Some
            &&& s_field(es, "parentCategory"@, |x: JsonValue| spec_parent_category(x)) is Some
            &&& match lookup(es, "tags"@) {
                Some(tv) => Tags::decode_ok(tv),
                None => false,
            }
        },
        None => false,
    }
}

/// How a decoded relationships object relates to the document.
pub open spec fn spec_relationships_rel(v: JsonValue, t: Relationships) -> bool {
    match as_obj(v) {
        Some(es) => {
            &&& s_field(es, "account"@, |x: JsonValue| spec_account_rel(x)) == Some(t.account)
            &&& s_field(es, "transferAccount"@, |x: JsonValue| spec_transfer_account(x)) == Some(
                t.transfer_account,
            )
            &&& s_field(es, "category"@, |x: JsonValue| spec_category_rel(x)) == Some(t.category)
            &&& s_field(es, "parentCategory"@, |x: JsonValue| spec_parent_category(x)) == Some(
                t.parent_category,
            )
            &&& match lookup(es, "tags"@) {
                Some(tv) => Tags::decode_rel(tv, t.tags),
                None => false,
            }
        },
        None => false,
    }
}

impl Decodable for Relationships {
    open spec fn decode_ok(v: JsonValue) -> bool {
        spec_relationships_ok(v)
    }

    open spec fn decode_rel(v: JsonValue, t: Self) -> bool {
        spec_relationships_rel(v, t)
    }

    fn decode(v: &JsonValue) -> (r: Option<Self>) {
        match v {
            JsonValue::Obj(es) => {
                let account = match get(es, "account") {
                    Some(av) => match Account::decode(av) {
                        Some(a) => a,
                        None => { return None; },
                    },
                    None => { return None; },
                };
                let transfer_account = match get(es, "transferAccount") {
                    Some(av) => match TransferAccount::decode(av) {
                        Some(a) => a,
                        None => { return None; },
                    },
                    None => { return None; },
                };
                let category = match get(es, "category") {
                    Some(cv) => match Category::decode(cv) {
                        Some(c) => c,
                        None => { return None; },
                    },
                    None => { return None; },
                };
                let parent_category = match get(es, "parentCategory") {
                    Some(cv) => match ParentCategory::decode(cv) {
                        Some(c) => c,
                        None => { return None; },
                    },
                    None => { return None; },
                };
                let tags = match get(es, "tags") {
                    Some(tv) => match Tags::decode(tv) {
                        Some(t) => t,
                        None => { return None; },
                    },
                    None => { return None; },
                };
                Some(Relationships { account, transfer_account, category, parent_category, tags })
            },
            _ => None,
        }
    }
}

pub open spec fn spec_tx_attributes(v: JsonValue) -> Option<Attributes> {
    match v {
        JsonValue::Obj(es) => match (
            s_field(es@, "status"@, |x: JsonValue| spec_transaction_status(x)),
            s_opt_str(es@, "rawText"@),
            s_str(es@, "description"@),
            s_opt_str(es@, "message"@),
            s_bool(es@, "isCategorizable"@),
            s_opt_field(es@, "holdInfo"@, |x: JsonValue| spec_hold_info(x)),
            s_opt_field(es@, "roundUp"@, |x: JsonValue| spec_round_up(x)),
            s_opt_field(es@, "cashback"@, |x: JsonValue| spec_cash_back(x)),
            s_field(es@, "amount"@, |x: JsonValue| spec_money(x)),
            s_opt_field(es@, "foreignAmount"@, |x: JsonValue| spec_money(x)),
            s_opt_field(es@, "cardPurchaseMethod"@, |x: JsonValue| spec_card_purchase(x)),
            s_opt_str(es@, "settledAt"@),
            s_str(es@, "createdAt"@),
        ) {
            (
                Some(status),
                Some(raw_text),
                Some(description),
                Some(message),
                Some(is_categorizable),
                Some(hold_info),
                Some(round_up),
                Some(cashback),
                Some(amount),
                Some(foreign_amount),
                Some(card_purchase_method),
                Some(settled_at),
                Some(created_at),
            ) => Some(
                Attributes {
                    status,
                    raw_text,
                    description,
                    message,
                    is_categorizable,
                    hold_info,
                    round_up,
                    cashback,
                    amount,
                    foreign_amount,
                    card_purchase_method,
                    settled_at,
                    created_at,
                },
            ),
            _ => None,
        },
        _ => None,
    }
}

impl Decodable for Attributes {
    open spec fn decode_ok(v: JsonValue) -> bool {
        spec_tx_attributes(v) is Some
    }

    open spec fn decode_rel(v: JsonValue, t: Self) -> bool {
        spec_tx_attributes(v) == Some(t)
    }

    fn decode(v: &JsonValue) -> (r: Option<Self>) {
        match v {
            JsonValue::Obj(es) => {
                let status = match get(es, "status") {
                    Some(sv) => match TransactionStatusEnum::decode(sv) {
                        Some(s) => s,
                        None => { return None; },
                    },
                    None => { return None; },
                };
                let raw_text = match f_opt_str(es, "rawText") {
                    Some(x) => x,
                    None => { return None; },
                };
                let description = match f_str(es, "description") {
                    Some(s) => s,
                    None => { return None; },
                };
                let message = match f_opt_str(es, "message") {
                    Some(x) => x,
                    None => { return None; },
                };
                let is_categorizable = match f_bool(es, "isCategorizable") {
                    Some(b) => b,
                    None => { return None; },
                };
                let hold_info = match get(es, "holdInfo") {
                    None => None,
                    Some(JsonValue::Null) => None,
                    Some(hv) => match HoldInfoObject::decode(hv) {
                        Some(h) => Some(h),
                        None => { return None; },
                    },
                };
                let round_up = match get(es, "roundUp") {
                    None => None,
                    Some(JsonValue::Null) => None,
                    Some(rv) => match RoundUpObject::decode(rv) {
                        Some(x) => Some(x),
                        None => { return None; },
                    },
                };
                let cashback = match get(es, "cashback") {
                    None => None,
                    Some(JsonValue::Null) => None,
                    Some(cv) => match CashBackObject::decode(cv) {
                        Some(x) => Some(x),
                        None => { return None; },
                    },
                };
                let amount = match get(es, "amount") {
                    Some(av) => match MoneyObject::decode(av) {
                        Some(m) => m,
                        None => { return None; },
                    },
                    None => { return None; },
                };
                let foreign_amount = match get(es, "foreignAmount") {
                    None => None,
                    Some(JsonValue::Null) => None,
                    Some(fv) => match MoneyObject::decode(fv) {
                        Some(m) => Some(m),
                        None => { return None; },
                    },
                };
                let card_purchase_method = match get(es, "cardPurchaseMethod") {
                    None => None,
                    Some(cv) => match cv {
                        JsonValue::Null => None,
                        _ => match CardPurchaseMethodObject::decode(cv) {
                            Some(x) => Some(x),
                            None => { return None; },
                        },
                    },
                };
                let settled_at = match f_opt_str(es, "settledAt") {
                    Some(x) => x,
                    None => { return None; },
                };
                let created_at = match f_str(es, "createdAt") {
                    Some(s) => s,
                    None => { return None; },
                };
                Some(
                    Attributes {
                        status,
                        raw_text,
                        description,
                        message,
                        is_categorizable,
                        hold_info,
                        round_up,
                        cashback,
                        amount,
                        foreign_amount,
                        card_purchase_method,
                        settled_at,
                        created_at,
                    },
                )
            },
            _ => None,
        }
    }
}

/// Whether a transaction resource decodes.
pub open spec fn spec_tx_ok(v: JsonValue) -> bool {
    match as_obj(v) {
        Some(es) => {
            &&& s_str(es, "type"@) is Some
            &&& s_str(es, "id"@) is Some
            &&& s_field(es, "attributes"@, |x: JsonValue| spec_tx_attributes(x)) is Some
            &&& match lookup(es, "relationships"@) {
                Some(rv) => spec_relationships_ok(rv),
                None => false,
            }
            &&& s_opt_field(es, "links"@, |x: JsonValue| spec_tx_links(x)) is Some
        },
        None => false,
    }
}

/// How a decoded transaction resource relates to the document.
pub open spec fn spec_tx_rel(v: JsonValue, t: TransactionResource) -> bool {
    match as_obj(v) {
        Some(es) => {
            &&& s_str(es, "type"@) == Some(t.resource_type)
            &&& s_str(es, "id"@) == Some(t.id)
            &&& s_field(es, "attributes"@, |x: JsonValue| spec_tx_attributes(x)) == Some(
                t.attributes,
            )
            &&& match lookup(es, "relationships"@) {
                Some(rv) => spec_relationships_rel(rv, t.relationships),
                None => false,
            }
            &&& s_opt_field(es, "links"@, |x: JsonValue| spec_tx_links(x)) == Some(t.links)
        },
        None => false,
    }
}

impl Decodable for TransactionResource {
    open spec fn decode_ok(v: JsonValue) -> bool {
        spec_tx_ok(v)
    }

    open spec fn decode_rel(v: JsonValue, t: Self) -> bool {
        spec_tx_rel(v, t)
    }

    fn decode(v: &JsonValue) -> (r: Option<Self>) {
        match v {
            JsonValue::Obj(es) => {
                let resource_type = match f_str(es, "type") {
                    Some(s) => s,
                    None => { return None; },
                };
                let id = match f_str(es, "id") {
                    Some(s) => s,
                    None => { return None; },
                };
                let attributes = match get(es, "attributes") {
                    Some(av) => match Attributes::decode(av) {
                        Some(a) => a,
                        None => { return None; },
                    },
                    None => { return None; },
                };
                let relationships = match get(es, "relationships") {
                    Some(rv) => match Relationships::decode(rv) {
                        Some(x) => x,
                        None => { return None; },
                    },
                    None => { return None; },
                };
                let links = match get(es, "links") {
                    None => None,
                    Some(JsonValue::Null) => None,
                    Some(lv) => match TransactionResourceLinks::decode(lv) {
                        Some(l) => Some(l),
                        None => { return None; },
                    },
                };
                Some(TransactionResource { resource_type, id, attributes, relationships, links })
            },
            _ => None,
        }
    }
}

pub open spec fn spec_response_links(v: JsonValue) -> Option<ResponseLinks> {
    match spec_links(v) {
        Some(p) => Some(ResponseLinks { prev: p.0, next: p.1 }),
        None => None,
    }
}

impl Decodable for ResponseLinks {
    open spec fn decode_ok(v: JsonValue) -> bool {
        spec_response_links(v) is Some
    }

    open spec fn decode_rel(v: JsonValue, t: Self) -> bool {
        spec_response_links(v) == Some(t)
    }

    fn decode(v: &JsonValue) -> (r: Option<Self>) {
        match decode_links(v) {
            Some(p) => Some(ResponseLinks { prev: p.0, next: p.1 }),
            None => None,
        }
    }
}

impl Decodable for ListTransactionsResponse {
    open spec fn decode_ok(v: JsonValue) -> bool {
        match as_obj(v) {
            Some(es) => match s_arr(es, "data"@) {
                Some(a) => (forall|i: int| 0 <= i < a.len() ==> spec_tx_ok(#[trigger] a[i]))
                    && s_field(es, "links"@, |x: JsonValue| spec_response_links(x)) is Some,
                None => false,
            },
            None => false,
        }
    }

    open spec fn decode_rel(v: JsonValue, t: Self) -> bool {
        match as_obj(v) {
            Some(es) => match s_arr(es, "data"@) {
                Some(a) => t.data@.len() == a.len() && (forall|i: int|
                    0 <= i < a.len() ==> spec_tx_rel(a[i], #[trigger] t.data@[i])) && s_field(
                    es,
                    "links"@,
                    |x: JsonValue| spec_response_links(x),
                ) == Some(t.links),
                None => false,
            },
            None => false,
        }
    }

    fn decode(v: &JsonValue) -> (r: Option<Self>) {
        match v {
            JsonValue::Obj(es) => {
                let data = match get(es, "data") {
                    Some(JsonValue::Arr(a)) => match decode_array::<TransactionResource>(a) {
                        Some(d) => d,
                        None => {
                            proof {
                                assert(as_obj(*v).unwrap() == es@);
                                assert(s_arr(as_obj(*v).unwrap(), "data"@).unwrap() == a@);
                                assert(!Self::decode_ok(*v));
                            }
                            return None;
                        },
                    },
                    _ => { return None; },
                };
                let links = match get(es, "links") {
                    Some(lv) => match ResponseLinks::decode(lv) {
                        Some(l) => l,
                        None => { return None; },
                    },
                    None => { return None; },
                };
                Some(ListTransactionsResponse { data, links })
            },
            _ => None,
        }
    }
}

impl Decodable for GetTransactionResponse {
    open spec fn decode_ok(v: JsonValue) -> bool {
        match as_obj(v) {
            Some(es) => match lookup(es, "data"@) {
                Some(dv) => spec_tx_ok(dv),
                None => false,
            },
            None => false,
        }
    }

    open spec fn decode_rel(v: JsonValue, t: Self) -> bool {
        match as_obj(v) {
            Some(es) => match lookup(es, "data"@) {
                Some(dv) => spec_tx_rel(dv, t.data),
                None => false,
            },
            None => false,
        }
    }

    fn decode(v: &JsonValue) -> (r: Option<Self>) {
        match v {
            JsonValue::Obj(es) => match get(es, "data") {
                Some(dv) => match TransactionResource::decode(dv) {
                    Some(data) => Some(GetTransactionResponse { data }),
                    None => None,
                },
                None => None,
            },
            _ => None,
        }
    }
}

impl Paginated for ListTransactionsResponse {
    open spec fn spec_next(&self) -> Option<String> {
        self.links.next
    }

    open spec fn spec_prev(&self) -> Option<String> {
        self.links.prev
    }

    fn next_link(&self) -> (r: &Option<String>) {
        &self.links.next
    }

    fn prev_link(&self) -> (r: &Option<String>) {
        &self.links.prev
    }
}

// ---------------- options ----------------

/// The optional filter and paging parameters of the transaction lists, in
/// the declared (emitted) order.
pub struct ListTransactionsOptions {
    /// The number of records to return in each page.
    pub page_size: Option<u8>,
    /// The transaction status for which to return records.
    pub filter_status: Option<String>,
    /// The start date-time from which to return records (rfc-3339). Not to
    /// be used for pagination.
    pub filter_since: Option<String>,
    /// The end date-time up to which to return records (rfc-3339). Not to
    /// be used for pagination.
    pub filter_until: Option<String>,
    /// The category identifier for which to filter transactions.
    pub filter_category: Option<String>,
    /// A transaction tag to filter for.
    pub filter_tag: Option<String>,
}

/// The query entries the options emit, in declared order, values encoded.
pub open spec fn tx_entries(o: ListTransactionsOptions) -> Seq<(Seq<char>, Seq<char>)> {
    opt_e(
        "page[size]"@,
        match o.page_size {
            Some(n) => Some(dec_u8(n)),
            None => None,
        },
    ) + opt_e(
        "filter[status]"@,
        match o.filter_status {
            Some(s) => Some(enc(s@)),
            None => None,
        },
    ) + opt_e(
        "filter[since]"@,
        match o.filter_since {
            Some(s) => Some(enc(s@)),
            None => None,
        },
    ) + opt_e(
        "filter[until]"@,
        match o.filter_until {
            Some(s) => Some(enc(s@)),
            None => None,
        },
    ) + opt_e(
        "filter[category]"@,
        match o.filter_category {
            Some(s) => Some(enc(s@)),
            None => None,
        },
    ) + opt_e(
        "filter[tag]"@,
        match o.filter_tag {
            Some(s) => Some(enc(s@)),
            None => None,
        },
    )
}

impl Default for ListTransactionsOptions {
    /// Options with no present value: they emit no query string at all.
    fn default() -> (r: Self)
        ensures
            r.page_size is None,
            r.filter_status is None,
            r.filter_since is None,
            r.filter_until is None,
            r.filter_category is None,
            r.filter_tag is None,
    {
        ListTransactionsOptions {
            page_size: None,
            filter_status: None,
            filter_since: None,
            filter_until: None,
            filter_category: None,
            filter_tag: None,
        }
    }
}

impl ListTransactionsOptions {
    /// Sets the page size.
    pub fn page_size(&mut self, value: u8)
        ensures
            *final(self) == (ListTransactionsOptions { page_size: Some(value), ..*old(self) }),
    {
        self.page_size = Some(value);
    }

    /// Sets the status filter value.
    pub fn filter_status(&mut self, value: String)
        ensures
            *final(self) == (ListTransactionsOptions { filter_status: Some(value), ..*old(self) }),
    {
        self.filter_status = Some(value);
    }

    /// Sets the since filter value.
    pub fn filter_since(&mut self, value: String)
        ensures
            *final(self) == (ListTransactionsOptions { filter_since: Some(value), ..*old(self) }),
    {
        self.filter_since = Some(value);
    }

    /// Sets the until filter value.
    pub fn filter_until(&mut self, value: String)
        ensures
            *final(self) == (ListTransactionsOptions { filter_until: Some(value), ..*old(self) }),
    {
        self.filter_until = Some(value);
    }

    /// Sets the category filter value.
    pub fn filter_category(&mut self, value: String)
        ensures
            *final(self) == (ListTransactionsOptions {
                filter_category: Some(value),
                ..*old(self)
            }),
    {
        self.filter_category = Some(value);
    }

    /// Sets the tag filter value.
    pub fn filter_tag(&mut self, value: String)
        ensures
            *final(self) == (ListTransactionsOptions { filter_tag: Some(value), ..*old(self) }),
    {
        self.filter_tag = Some(value);
    }

    /// Appends the emitted query string (if any entry is present) to `url`.
    pub(crate) fn add_params(&self, url: &mut String)
        ensures
            final(url)@ == old(url)@ + url_suffix(tx_entries(*self)),
    {
        let mut query = String::new();
        let ghost mut done: Seq<(Seq<char>, Seq<char>)> = Seq::<(Seq<char>, Seq<char>)>::empty();
        if let Some(value) = &self.page_size {
            proof {
                lemma_qs_empty(done);
                lemma_qs_push(done, ("page[size]"@, dec_u8(*value)));
            }
            push_param_u8(&mut query, "page[size]", *value);
            proof {
                done = done.push(("page[size]"@, dec_u8(*value)));
            }
        }
        if let Some(value) = &self.filter_status {
            proof {
                lemma_qs_empty(done);
                lemma_qs_push(done, ("filter[status]"@, enc(value@)));
            }
            push_param(&mut query, "filter[status]", value.as_str());
            proof {
                done = done.push(("filter[status]"@, enc(value@)));
            }
        }
        if let Some(value) = &self.filter_since {
            proof {
                lemma_qs_empty(done);
                lemma_qs_push(done, ("filter[since]"@, enc(value@)));
            }
            push_param(&mut query, "filter[since]", value.as_str());
            proof {
                done = done.push(("filter[since]"@, enc(value@)));
            }
        }
        if let Some(value) = &self.filter_until {
            proof {
                lemma_qs_empty(done);
                lemma_qs_push(done, ("filter[until]"@, enc(value@)));
            }
            push_param(&mut query, "filter[until]", value.as_str());
            proof {
                done = done.push(("filter[until]"@, enc(value@)));
            }
        }
        if let Some(value) = &self.filter_category {
            proof {
                lemma_qs_empty(done);
                lemma_qs_push(done, ("filter[category]"@, enc(value@)));
            }
            push_param(&mut query, "filter[category]", value.as_str());
            proof {
                done = done.push(("filter[category]"@, enc(value@)));
            }
        }
        if let Some(value) = &self.filter_tag {
            proof {
                lemma_qs_empty(done);
                lemma_qs_push(done, ("filter[tag]"@, enc(value@)));
            }
            push_param(&mut query, "filter[tag]", value.as_str());
            proof {
                done = done.push(("filter[tag]"@, enc(value@)));
            }
        }
        proof {
            assert(done =~= tx_entries(*self));
        }
        append_query(url, query, Ghost(done));
    }
}

/// With no present value the transaction list options emit no query string:
/// the request URL ends without `?`.
pub proof fn lemma_tx_default_no_query(o: ListTransactionsOptions)
    requires
        o.page_size is None,
        o.filter_status is None,
        o.filter_since is None,
        o.filter_until is None,
        o.filter_category is None,
        o.filter_tag is None,
    ensures
        url_suffix(tx_entries(o)) == Seq::<char>::empty(),
{
    assert(tx_entries(o) =~= Seq::<(Seq<char>, Seq<char>)>::empty());
}

// ---------------- requests ----------------

impl Client {
    /// Describes the request that retrieves a paginated list of all
    /// transactions across all accounts, newest first.
    pub fn list_transactions_request(&self, options: &ListTransactionsOptions) -> (r: Result<
        HttpRequest,
        Error,
    >)
        ensures
            r is Ok <==> url_normalized(spec_base_url() + "/transactions"@) is Some,
            r matches Ok(req) ==> {
                &&& req.method == Method::Get
                &&& url_normalized(spec_base_url() + "/transactions"@) matches Some(u)
                    && req.url@ == u + url_suffix(tx_entries(*options))
                &&& header_views(req.headers@) == auth_headers(self.token())
                &&& req.body is None
            },
            r matches Err(e) ==> e matches Error::UrlParse(_),
    {
        let mut full = String::from_str(base_url());
        full.append("/transactions");
        proof {
            assert(full@ =~= spec_base_url() + "/transactions"@);
        }
        match parse_request_url(full) {
            Ok(mut u) => {
                options.add_params(&mut u);
                Ok(get_request(self, u))
            },
            Err(e) => Err(e),
        }
    }

    /// Describes the request that retrieves a specific transaction by its
    /// unique identifier. An empty identifier would change the meaning of
    /// the call (the API would read it as a request for many transactions),
    /// so it is rejected up front: the result is `None`, distinct from
    /// every recoverable error kind, and no request exists to dispatch.
    pub fn get_transaction_request(&self, id: &String) -> (r: Option<Result<HttpRequest, Error>>)
        ensures
            r is None <==> id@.len() == 0,
            r matches Some(res) ==> (res is Ok <==> url_normalized(
                spec_base_url() + "/transactions/"@ + id@,
            ) is Some),
            r matches Some(res) ==> (res matches Ok(req) ==> {
                &&& req.method == Method::Get
                &&& url_normalized(spec_base_url() + "/transactions/"@ + id@) matches Some(u)
                    && req.url@ == u
                &&& header_views(req.headers@) == auth_headers(self.token())
                &&& req.body is None
            }),
            r matches Some(res) ==> (res matches Err(e) ==> e matches Error::UrlParse(_)),
    {
        if id.as_str().is_empty() {
            return None;
        }
        let mut full = String::from_str(base_url());
        full.append("/transactions/");
        full.append(id.as_str());
        proof {
            assert(full@ =~= spec_base_url() + "/transactions/"@ + id@);
        }
        match parse_request_url(full) {
            Ok(u) => Some(Ok(get_request(self, u))),
            Err(e) => Some(Err(e)),
        }
    }

    /// Describes the request that retrieves a paginated list of all
    /// transactions of one account, newest first.
    pub fn list_transactions_by_account_request(
        &self,
        account_id: &String,
        options: &ListTransactionsOptions,
    ) -> (r: Result<HttpRequest, Error>)
        ensures
            r is Ok <==> url_normalized(
                spec_base_url() + "/accounts/"@ + account_id@ + "/transactions"@,
            ) is Some,
            r matches Ok(req) ==> {
                &&& req.method == Method::Get
                &&& url_normalized(
                    spec_base_url() + "/accounts/"@ + account_id@ + "/transactions"@,
                ) matches Some(u) && req.url@ == u + url_suffix(tx_entries(*options))
                &&& header_views(req.headers@) == auth_headers(self.token())
                &&& req.body is None
            },
            r matches Err(e) ==> e matches Error::UrlParse(_),
    {
        let mut full = String::from_str(base_url());
        full.append("/accounts/");
        full.append(account_id.as_str());
        full.append("/transactions");
        proof {
            assert(full@ =~= spec_base_url() + "/accounts/"@ + account_id@ + "/transactions"@);
        }
        match parse_request_url(full) {
            Ok(mut u) => {
                options.add_params(&mut u);
                Ok(get_request(self, u))
            },
            Err(e) => Err(e),
        }
    }
}

/// Classifies and decodes the response to a `list_transactions_request` or
/// a `list_transactions_by_account_request`; the success status is 200.
pub fn list_transactions_response(status: u16, body: &str) -> (r: Result<
    ListTransactionsResponse,
    Error,
>)
    ensures
        classified::<ListTransactionsResponse>(200, status, json_of(body@), r),
{
    classify_response::<ListTransactionsResponse>(200, status, body)
}

/// Classifies and decodes the response to a `get_transaction_request`; the
/// endpoint's success status is 200.
pub fn get_transaction_response(status: u16, body: &str) -> (r: Result<
    GetTransactionResponse,
    Error,
>)
    ensures
        classified::<GetTransactionResponse>(200, status, json_of(body@), r),
{
    classify_response::<GetTransactionResponse>(200, status, body)
}

} // verus!
