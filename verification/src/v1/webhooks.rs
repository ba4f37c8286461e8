//! Types for modelling and interacting with webhooks: their configuration,
//! the events they are sent, and their delivery logs.

use vstd::prelude::*;

use crate::v1::error::Error;
use crate::v1::http::{
    auth_headers, auth_json_headers, bare_request, classified, classified_no_content,
    classify_no_content, classify_response, get_request, header_views, json_request,
    parse_request_url, url_normalized, HttpRequest, Method,
};
use crate::v1::json::{
    append_json_escaped, as_obj, decode_array, f_opt_str, f_str, get, json_escaped, json_of,
    s_arr, s_field, s_i64, s_opt_field, s_opt_str, s_str, Decodable, JsonValue,
};
use crate::v1::paginate::{decode_links, spec_links, Paginated};
use crate::v1::query::{
    dec_u8, lemma_qs_empty, lemma_qs_push, opt_e, push_param_u8, url_suffix, append_query,
};
use crate::v1::standard::{
    spec_webhook_delivery_status, spec_webhook_event_type, WebhookDeliveryStatusEnum,
    WebhookEventTypeEnum,
};
use crate::v1::{base_url, spec_base_url, Client};

verus! {

// ---------------- response objects ----------------

/// One page of configured webhooks, ordered oldest first.
#[derive(Debug, Clone, PartialEq)]
pub struct ListWebhooksResponse {
    /// The list of webhooks returned in this response.
    pub data: Vec<WebhookResource>,
    pub links: ResponseLinks,
}

/// The webhook returned by the single-resource fetch.
#[derive(Debug, Clone, PartialEq)]
pub struct GetWebhookResponse {
    /// The webhook returned in the response.
    pub data: WebhookResource,
}

/// The webhook returned after creation; only this response carries the
/// shared `secretKey`.
#[derive(Debug, Clone, PartialEq)]
pub struct CreateWebhookResponse {
    /// The webhook that was created.
    pub data: WebhookResource,
}

/// One webhook resource.
#[derive(Debug, Clone, PartialEq)]
pub struct WebhookResource {
    /// The type of this resource: `webhooks` (the wire field `type`).
    pub resource_type: String,
    /// The unique identifier for this webhook.
    pub id: String,
    pub attributes: Attributes,
    pub relationships: Relationships,
    pub links: WebhookResourceLinks,
}

/// The attributes of a webhook (wire fields in camel case).
#[derive(Debug, Clone, PartialEq)]
pub struct Attributes {
    /// The URL this webhook posts events to.
    pub url: String,
    /// An optional description provided when the webhook was created.
    pub description: Option<String>,
    /// The shared secret key that signs every delivered event; returned
    /// only upon the initial creation of the webhook.
    pub secret_key: Option<String>,
    /// The date-time at which this webhook was created.
    pub created_at: String,
}

/// The relationships of a webhook.
#[derive(Debug, Clone, PartialEq)]
pub struct Relationships {
    pub logs: Logs,
}

/// The delivery-logs relationship of a webhook.
#[derive(Debug, Clone, PartialEq)]
pub struct Logs {
    pub links: Option<LogsLinks>,
}

/// The link to a webhook's delivery logs.
#[derive(Debug, Clone, PartialEq)]
pub struct LogsLinks {
    /// The link to retrieve the related resource(s) in this relationship.
    pub related: String,
}

/// The links of one webhook resource.
#[derive(Debug, Clone, PartialEq)]
pub struct WebhookResourceLinks {
    /// The canonical link to this resource within the API (the wire field
    /// `self`).
    pub this: String,
}

/// The pagination links of a page of webhooks.
#[derive(Debug, Clone, PartialEq)]
pub struct ResponseLinks {
    /// The link to the previous page in the results. If this value is
    /// `None` there is no previous page.
    pub prev: Option<String>,
    /// The link to the next page in the results. If this value is `None`
    /// there is no next page.
    pub next: Option<String>,
}

/// The event sent when a webhook is pinged.
#[derive(Debug, Clone, PartialEq)]
pub struct PingWebhookResponse {
    /// The webhook event data sent to the subscribed webhook.
    pub data: WebhookEventResource,
}

/// One webhook event.
#[derive(Debug, Clone, PartialEq)]
pub struct WebhookEventResource {
    /// The type of this resource: `webhook-events` (the wire field `type`).
    pub resource_type: String,
    /// The unique identifier for this event, constant across delivery
    /// retries.
    pub id: String,
    pub attributes: EventAttributes,
    pub relationships: EventRelationships,
}

/// The relationships of a webhook event.
#[derive(Debug, Clone, PartialEq)]
pub struct EventRelationships {
    pub webhook: Webhook,
    pub transaction: Option<Transaction>,
}

/// The transaction relationship of a webhook event.
#[derive(Debug, Clone, PartialEq)]
pub struct Transaction {
    pub data: TransactionData,
    pub links: Option<TransactionLinks>,
}

/// The webhook relationship of a webhook event.
#[derive(Debug, Clone, PartialEq)]
pub struct Webhook {
    pub data: WebhookData,
    pub links: Option<WebhookLinks>,
}

/// The identifier of a related webhook.
#[derive(Debug, Clone, PartialEq)]
pub struct WebhookData {
    /// The type of this resource: `webhooks` (the wire field `type`).
    pub resource_type: String,
    /// The unique identifier of the resource within its type.
    pub id: String,
}

/// The link to a related webhook.
#[derive(Debug, Clone, PartialEq)]
pub struct WebhookLinks {
    /// The link to retrieve the related resource(s) in this relationship.
    pub related: String,
}

/// The identifier of a related transaction.
#[derive(Debug, Clone, PartialEq)]
pub struct TransactionData {
    /// The type of this resource: `transactions` (the wire field `type`).
    pub resource_type: String,
    /// The unique identifier of the resource within its type.
    pub id: String,
}

/// The link to a related transaction.
#[derive(Debug, Clone, PartialEq)]
pub struct TransactionLinks {
    /// The link to retrieve the related resource(s) in this relationship.
    pub related: String,
}

/// The attributes of a webhook event (wire fields in camel case).
#[derive(Debug, Clone, PartialEq)]
pub struct EventAttributes {
    /// The type of this event, used to determine what action to take.
    pub event_type: WebhookEventTypeEnum,
    /// The date-time at which this event was generated.
    pub created_at: String,
}

/// One page of delivery logs, ordered newest first.
#[derive(Debug, Clone, PartialEq)]
pub struct ListWebhookLogsResponse {
    /// The list of delivery logs returned in this response.
    pub data: Vec<WebhookDeliveryLogResource>,
    pub links: LogsResponseLinks,
}

/// One delivery-log entry.
#[derive(Debug, Clone, PartialEq)]
pub struct WebhookDeliveryLogResource {
    /// The type of this resource: `webhook-delivery-logs` (the wire field
    /// `type`).
    pub resource_type: String,
    /// The unique identifier for this log entry.
    pub id: String,
    pub attributes: DeliveryLogAttributes,
    pub relationships: DeliveryLogRelationships,
}

/// The relationships of a delivery-log entry.
#[derive(Debug, Clone, PartialEq)]
pub struct DeliveryLogRelationships {
    /// The event this delivery attempt carried (the wire field
    /// `webhookEvent`).
    pub webhook_event: WebhookEvent,
}

/// The webhook-event relationship of a delivery-log entry.
#[derive(Debug, Clone, PartialEq)]
pub struct WebhookEvent {
    pub data: WebhookEventData,
}

/// The identifier of a related webhook event.
#[derive(Debug, Clone, PartialEq)]
pub struct WebhookEventData {
    /// The type of this resource: `webhook-events` (the wire field `type`).
    pub resource_type: String,
    /// The unique identifier of the resource within its type.
    pub id: String,
}

/// The attributes of a delivery-log entry (wire fields in camel case).
#[derive(Debug, Clone, PartialEq)]
pub struct DeliveryLogAttributes {
    /// Information about the request that was sent to the webhook URL.
    pub request: Request,
    /// Information about the response received from the webhook URL, if
    /// any.
    pub response: Option<Response>,
    /// The success or failure of this delivery attempt.
    pub delivery_status: WebhookDeliveryStatusEnum,
    /// The date-time at which this log entry was created.
    pub created_at: String,
}

/// The request of one delivery attempt.
#[derive(Debug, Clone, PartialEq)]
pub struct Request {
    /// The payload that was sent in the request body.
    pub body: String,
}

/// The response of one delivery attempt.
#[derive(Debug, Clone, PartialEq)]
pub struct Response {
    /// The HTTP status code received in the response (the wire field
    /// `statusCode`).
    pub status_code: i64,
    /// The payload that was received in the response body.
    pub body: String,
}

/// The pagination links of a page of delivery logs.
#[derive(Debug, Clone, PartialEq)]
pub struct LogsResponseLinks {
    /// The link to the previous page in the results. If this value is
    /// `None` there is no previous page.
    pub prev: Option<String>,
    /// The link to the next page in the results. If this value is `None`
    /// there is no next page.
    pub next: Option<String>,
}

// ---------------- decoding: webhook resources ----------------

pub open spec fn spec_wh_attributes(v: JsonValue) -> Option<Attributes> {
    match v {
        JsonValue::Obj(es) => match (
            s_str(es@, "url"@),
            s_opt_str(es@, "description"@),
            s_opt_str(es@, "secretKey"@),
            s_str(es@, "createdAt"@),
        ) {
            (Some(url), Some(description), Some(secret_key), Some(created_at)) => Some(
                Attributes { url, description, secret_key, created_at },
            ),
            _ => None,
        },
        _ => None,
    }
}

impl Decodable for Attributes {
    open spec fn decode_ok(v: JsonValue) -> bool {
        spec_wh_attributes(v) is Some
    }

    open spec fn decode_rel(v: JsonValue, t: Self) -> bool {
        spec_wh_attributes(v) == Some(t)
    }

    fn decode(v: &JsonValue) -> (r: Option<Self>) {
        match v {
            JsonValue::Obj(es) => match (
                f_str(es, "url"),
                f_opt_str(es, "description"),
                f_opt_str(es, "secretKey"),
                f_str(es, "createdAt"),
            ) {
                (Some(url), Some(description), Some(secret_key), Some(created_at)) => Some(
                    Attributes { url, description, secret_key, created_at },
                ),
                _ => None,
            },
            _ => None,
        }
    }
}

pub open spec fn spec_logs_links(v: JsonValue) -> Option<LogsLinks> {
    match v {
        JsonValue::Obj(es) => match s_str(es@, "related"@) {
            Some(related) => Some(LogsLinks { related }),
            None => None,
        },
        _ => None,
    }
}

impl Decodable for LogsLinks {
    open spec fn decode_ok(v: JsonValue) -> bool {
        spec_logs_links(v) is Some
    }

    open spec fn decode_rel(v: JsonValue, t: Self) -> bool {
        spec_logs_links(v) == Some(t)
    }

    fn decode(v: &JsonValue) -> (r: Option<Self>) {
        match v {
            JsonValue::Obj(es) => match f_str(es, "related") {
                Some(related) => Some(LogsLinks { related }),
                None => None,
            },
            _ => None,
        }
    }
}

pub open spec fn spec_logs(v: JsonValue) -> Option<Logs> {
    match v {
        JsonValue::Obj(es) => match s_opt_field(es@, "links"@, |x: JsonValue| spec_logs_links(x)) {
            Some(links) => Some(Logs { links }),
            None => None,
        },
        _ => None,
    }
}

impl Decodable for Logs {
    open spec fn decode_ok(v: JsonValue) -> bool {
        spec_logs(v) is Some
    }

    open spec fn decode_rel(v: JsonValue, t: Self) -> bool {
        spec_logs(v) == Some(t)
    }

    fn decode(v: &JsonValue) -> (r: Option<Self>) {
        match v {
            JsonValue::Obj(es) => {
                let links = match get(es, "links") {
                    None => None,
                    Some(JsonValue::Null) => None,
                    Some(lv) => match LogsLinks::decode(lv) {
                        Some(l) => Some(l),
                        None => { return None; },
                    },
                };
                Some(Logs { links })
            },
            _ => None,
        }
    }
}

pub open spec fn spec_wh_relationships(v: JsonValue) -> Option<Relationships> {
    match v {
        JsonValue::Obj(es) => match s_field(es@, "logs"@, |x: JsonValue| spec_logs(x)) {
            Some(logs) => Some(Relationships { logs }),
            None => None,
        },
        _ => None,
    }
}

impl Decodable for Relationships {
    open spec fn decode_ok(v: JsonValue) -> bool {
        spec_wh_relationships(v) is Some
    }

    open spec fn decode_rel(v: JsonValue, t: Self) -> bool {
        spec_wh_relationships(v) == Some(t)
    }

    fn decode(v: &JsonValue) -> (r: Option<Self>) {
        match v {
            JsonValue::Obj(es) => match get(es, "logs") {
                Some(lv) => match Logs::decode(lv) {
                    Some(logs) => Some(Relationships { logs }),
                    None => None,
                },
                None => None,
            },
            _ => None,
        }
    }
}

pub open spec fn spec_wh_links(v: JsonValue) -> Option<WebhookResourceLinks> {
    match v {
        JsonValue::Obj(es) => match s_str(es@, "self"@) {
            Some(this) => Some(WebhookResourceLinks { this }),
            None => None,
        },
        _ => None,
    }
}

impl Decodable for WebhookResourceLinks {
    open spec fn decode_ok(v: JsonValue) -> bool {
        spec_wh_links(v) is Some
    }

    open spec fn decode_rel(v: JsonValue, t: Self) -> bool {
        spec_wh_links(v) == Some(t)
    }

    fn decode(v: &JsonValue) -> (r: Option<Self>) {
        match v {
            JsonValue::Obj(es) => match f_str(es, "self") {
                Some(this) => Some(WebhookResourceLinks { this }),
                None => None,
            },
            _ => None,
        }
    }
}

pub open spec fn spec_webhook(v: JsonValue) -> Option<WebhookResource> {
    match v {
        JsonValue::Obj(es) => match (
            s_str(es@, "type"@),
            s_str(es@, "id"@),
            s_field(es@, "attributes"@, |x: JsonValue| spec_wh_attributes(x)),
            s_field(es@, "relationships"@, |x: JsonValue| spec_wh_relationships(x)),
            s_field(es@, "links"@, |x: JsonValue| spec_wh_links(x)),
        ) {
            (Some(resource_type), Some(id), Some(attributes), Some(relationships), Some(links)) =>
                Some(WebhookResource { resource_type, id, attributes, relationships, links }),
            _ => None,
        },
        _ => None,
    }
}

impl Decodable for WebhookResource {
    open spec fn decode_ok(v: JsonValue) -> bool {
        spec_webhook(v) is Some
    }

    open spec fn decode_rel(v: JsonValue, t: Self) -> bool {
        spec_webhook(v) == Some(t)
    }

    fn decode(v: &JsonValue) -> (r: Option<Self>) {
        match v {
            JsonValue::Obj(es) => {
                let resource_type = match f_str(es, "type") {
                    Some(s) => s,
                    None => { return None; },
                };
                let id = match f_str(es, "id") {
                    Some(s) => s,
                    None => { return None; },
                };
                let attributes = match get(es, "attributes") {
                    Some(av) => match Attributes::decode(av) {
                        Some(a) => a,
                        None => { return None; },
                    },
                    None => { return None; },
                };
                let relationships = match get(es, "relationships") {
                    Some(rv) => match Relationships::decode(rv) {
                        Some(x) => x,
                        None => { return None; },
                    },
                    None => { return None; },
                };
                let links = match get(es, "links") {
                    Some(lv) => match WebhookResourceLinks::decode(lv) {
                        Some(l) => l,
                        None => { return None; },
                    },
                    None => { return None; },
                };
                Some(WebhookResource { resource_type, id, attributes, relationships, links })
            },
            _ => None,
        }
    }
}

pub open spec fn spec_response_links(v: JsonValue) -> Option<ResponseLinks> {
    match spec_links(v) {
        Some(p) => Some(ResponseLinks { prev: p.0, next: p.1 }),
        None => None,
    }
}

impl Decodable for ResponseLinks {
    open spec fn decode_ok(v: JsonValue) -> bool {
        spec_response_links(v) is Some
    }

    open spec fn decode_rel(v: JsonValue, t: Self) -> bool {
        spec_response_links(v) == Some(t)
    }

    fn decode(v: &JsonValue) -> (r: Option<Self>) {
        match decode_links(v) {
            Some(p) => Some(ResponseLinks { prev: p.0, next: p.1 }),
            None => None,
        }
    }
}

impl Decodable for ListWebhooksResponse {
    open spec fn decode_ok(v: JsonValue) -> bool {
        match as_obj(v) {
            Some(es) => match s_arr(es, "data"@) {
                Some(a) => (forall|i: int|
                    0 <= i < a.len() ==> WebhookResource::decode_ok(#[trigger] a[i])) && s_field(
                    es,
                    "links"@,
                    |x: JsonValue| spec_response_links(x),
                ) is Some,
                None => false,
            },
            None => false,
        }
    }

    open spec fn decode_rel(v: JsonValue, t: Self) -> bool {
        match as_obj(v) {
            Some(es) => match s_arr(es, "data"@) {
                Some(a) => t.data@.len() == a.len() && (forall|i: int|
                    0 <= i < a.len() ==> WebhookResource::decode_rel(a[i], #[trigger] t.data@[i]))
                    && s_field(es, "links"@, |x: JsonValue| spec_response_links(x)) == Some(
                    t.links,
                ),
                None => false,
            },
            None => false,
        }
    }

    fn decode(v: &JsonValue) -> (r: Option<Self>) {
        match v {
            JsonValue::Obj(es) => {
                let data = match get(es, "data") {
                    Some(JsonValue::Arr(a)) => match decode_array::<WebhookResource>(a) {
                        Some(d) => d,
                        None => {
                            proof {
                                assert(as_obj(*v).unwrap() == es@);
                                assert(s_arr(as_obj(*v).unwrap(), "data"@).unwrap() == a@);
                                assert(!Self::decode_ok(*v));
                            }
                            return None;
                        },
                    },
                    _ => { return None; },
                };
                let links = match get(es, "links") {
                    Some(lv) => match ResponseLinks::decode(lv) {
                        Some(l) => l,
                        None => { return None; },
                    },
                    None => { return None; },
                };
                Some(ListWebhooksResponse { data, links })
            },
            _ => None,
        }
    }
}

pub open spec fn spec_get_webhook(v: JsonValue) -> Option<GetWebhookResponse> {
    match v {
        JsonValue::Obj(es) => match s_field(es@, "data"@, |x: JsonValue| spec_webhook(x)) {
            Some(data) => Some(GetWebhookResponse { data }),
            None => None,
        },
        _ => None,
    }
}

impl Decodable for GetWebhookResponse {
    open spec fn decode_ok(v: JsonValue) -> bool {
        spec_get_webhook(v) is Some
    }

    open spec fn decode_rel(v: JsonValue, t: Self) -> bool {
        spec_get_webhook(v) == Some(t)
    }

    fn decode(v: &JsonValue) -> (r: Option<Self>) {
        match v {
            JsonValue::Obj(es) => match get(es, "data") {
                Some(dv) => match WebhookResource::decode(dv) {
                    Some(data) => Some(GetWebhookResponse { data }),
                    None => None,
                },
                None => None,
            },
            _ => None,
        }
    }
}

pub open spec fn spec_create_webhook(v: JsonValue) -> Option<CreateWebhookResponse> {
    match v {
        JsonValue::Obj(es) => match s_field(es@, "data"@, |x: JsonValue| spec_webhook(x)) {
            Some(data) => Some(CreateWebhookResponse { data }),
            None => None,
        },
        _ => None,
    }
}

impl Decodable for CreateWebhookResponse {
    open spec fn decode_ok(v: JsonValue) -> bool {
        spec_create_webhook(v) is Some
    }

    open spec fn decode_rel(v: JsonValue, t: Self) -> bool {
        spec_create_webhook(v) == Some(t)
    }

    fn decode(v: &JsonValue) -> (r: Option<Self>) {
        match v {
            JsonValue::Obj(es) => match get(es, "data") {
                Some(dv) => match WebhookResource::decode(dv) {
                    Some(data) => Some(CreateWebhookResponse { data }),
                    None => None,
                },
                None => None,
            },
            _ => None,
        }
    }
}

// ---------------- decoding: webhook events ----------------

pub open spec fn spec_webhook_data(v: JsonValue) -> Option<WebhookData> {
    match v {
        JsonValue::Obj(es) => match (s_str(es@, "type"@), s_str(es@, "id"@)) {
            (Some(resource_type), Some(id)) => Some(WebhookData { resource_type, id }),
            _ => None,
        },
        _ => None,
    }
}

impl Decodable for WebhookData {
    open spec fn decode_ok(v: JsonValue) -> bool {
        spec_webhook_data(v) is Some
    }

    open spec fn decode_rel(v: JsonValue, t: Self) -> bool {
        spec_webhook_data(v) == Some(t)
    }

    fn decode(v: &JsonValue) -> (r: Option<Self>) {
        match v {
            JsonValue::Obj(es) => match (f_str(es, "type"), f_str(es, "id")) {
                (Some(resource_type), Some(id)) => Some(WebhookData { resource_type, id }),
                _ => None,
            },
            _ => None,
        }
    }
}

pub open spec fn spec_webhook_links(v: JsonValue) -> Option<WebhookLinks> {
    match v {
        JsonValue::Obj(es) => match s_str(es@, "related"@) {
            Some(related) => Some(WebhookLinks { related }),
            None => None,
        },
        _ => None,
    }
}

impl Decodable for WebhookLinks {
    open spec fn decode_ok(v: JsonValue) -> bool {
        spec_webhook_links(v) is Some
    }

    open spec fn decode_rel(v: JsonValue, t: Self) -> bool {
        spec_webhook_links(v) == Some(t)
    }

    fn decode(v: &JsonValue) -> (r: Option<Self>) {
        match v {
            JsonValue::Obj(es) => match f_str(es, "related") {
                Some(related) => Some(WebhookLinks { related }),
                None => None,
            },
            _ => None,
        }
    }
}

pub open spec fn spec_event_webhook(v: JsonValue) -> Option<Webhook> {
    match v {
        JsonValue::Obj(es) => match (
            s_field(es@, "data"@, |x: JsonValue| spec_webhook_data(x)),
            s_opt_field(es@, "links"@, |x: JsonValue| spec_webhook_links(x)),
        ) {
            (Some(data), Some(links)) => Some(Webhook { data, links }),
            _ => None,
        },
        _ => None,
    }
}

impl Decodable for Webhook {
    open spec fn decode_ok(v: JsonValue) -> bool {
        spec_event_webhook(v) is Some
    }

    open spec fn decode_rel(v: JsonValue, t: Self) -> bool {
        spec_event_webhook(v) == Some(t)
    }

    fn decode(v: &JsonValue) -> (r: Option<Self>) {
        match v {
            JsonValue::Obj(es) => {
                let data = match get(es, "data") {
                    Some(dv) => match WebhookData::decode(dv) {
                        Some(d) => d,
                        None => { return None; },
                    },
                    None => { return None; },
                };
                let links = match get(es, "links") {
                    None => None,
                    Some(JsonValue::Null) => None,
                    Some(lv) => match WebhookLinks::decode(lv) {
                        Some(l) => Some(l),
                        None => { return None; },
                    },
                };
                Some(Webhook { data, links })
            },
            _ => None,
        }
    }
}

pub open spec fn spec_transaction_data(v: JsonValue) -> Option<TransactionData> {
    match v {
        JsonValue::Obj(es) => match (s_str(es@, "type"@), s_str(es@, "id"@)) {
            (Some(resource_type), Some(id)) => Some(TransactionData { resource_type, id }),
            _ => None,
        },
        _ => None,
    }
}

impl Decodable for TransactionData {
    open spec fn decode_ok(v: JsonValue) -> bool {
        spec_transaction_data(v) is Some
    }

    open spec fn decode_rel(v: JsonValue, t: Self) -> bool {
        spec_transaction_data(v) == Some(t)
    }

    fn decode(v: &JsonValue) -> (r: Option<Self>) {
        match v {
            JsonValue::Obj(es) => match (f_str(es, "type"), f_str(es, "id")) {
                (Some(resource_type), Some(id)) => Some(TransactionData { resource_type, id }),
                _ => None,
            },
            _ => None,
        }
    }
}

pub open spec fn spec_transaction_links(v: JsonValue) -> Option<TransactionLinks> {
    match v {
        JsonValue::Obj(es) => match s_str(es@, "related"@) {
            Some(related) => Some(TransactionLinks { related }),
            None => None,
        },
        _ => None,
    }
}

impl Decodable for TransactionLinks {
    open spec fn decode_ok(v: JsonValue) -> bool {
        spec_transaction_links(v) is Some
    }

    open spec fn decode_rel(v: JsonValue, t: Self) -> bool {
        spec_transaction_links(v) == Some(t)
    }

    fn decode(v: &JsonValue) -> (r: Option<Self>) {
        match v {
            JsonValue::Obj(es) => match f_str(es, "related") {
                Some(related) => Some(TransactionLinks { related }),
                None => None,
            },
            _ => None,
        }
    }
}

pub open spec fn spec_event_transaction(v: JsonValue) -> Option<Transaction> {
    match v {
        JsonValue::Obj(es) => match (
            s_field(es@, "data"@, |x: JsonValue| spec_transaction_data(x)),
            s_opt_field(es@, "links"@, |x: JsonValue| spec_transaction_links(x)),
        ) {
            (Some(data), Some(links)) => Some(Transaction { data, links }),
            _ => None,
        },
        _ => None,
    }
}

impl Decodable for Transaction {
    open spec fn decode_ok(v: JsonValue) -> bool {
        spec_event_transaction(v) is Some
    }

    open spec fn decode_rel(v: JsonValue, t: Self) -> bool {
        spec_event_transaction(v) == Some(t)
    }

    fn decode(v: &JsonValue) -> (r: Option<Self>) {
        match v {
            JsonValue::Obj(es) => {
                let data = match get(es, "data") {
                    Some(dv) => match TransactionData::decode(dv) {
                        Some(d) => d,
                        None => { return None; },
                    },
                    None => { return None; },
                };
                let links = match get(es, "links") {
                    None => None,
                    Some(JsonValue::Null) => None,
                    Some(lv) => match TransactionLinks::decode(lv) {
                        Some(l) => Some(l),
                        None => { return None; },
                    },
                };
                Some(Transaction { data, links })
            },
            _ => None,
        }
    }
}

pub open spec fn spec_event_relationships(v: JsonValue) -> Option<EventRelationships> {
    match v {
        JsonValue::Obj(es) => match (
            s_field(es@, "webhook"@, |x: JsonValue| spec_event_webhook(x)),
            s_opt_field(es@, "transaction"@, |x: JsonValue| spec_event_transaction(x)),
        ) {
            (Some(webhook), Some(transaction)) => Some(EventRelationships { webhook, transaction }),
            _ => None,
        },
        _ => None,
    }
}

impl Decodable for EventRelationships {
    open spec fn decode_ok(v: JsonValue) -> bool {
        spec_event_relationships(v) is Some
    }

    open spec fn decode_rel(v: JsonValue, t: Self) -> bool {
        spec_event_relationships(v) == Some(t)
    }

    fn decode(v: &JsonValue) -> (r: Option<Self>) {
        match v {
            JsonValue::Obj(es) => {
                let webhook = match get(es, "webhook") {
                    Some(wv) => match Webhook::decode(wv) {
                        Some(w) => w,
                        None => { return None; },
                    },
                    None => { return None; },
                };
                let transaction = match get(es, "transaction") {
                    None => None,
                    Some(JsonValue::Null) => None,
                    Some(tv) => match Transaction::decode(tv) {
                        Some(t) => Some(t),
                        None => { return None; },
                    },
                };
                Some(EventRelationships { webhook, transaction })
            },
            _ => None,
        }
    }
}

pub open spec fn spec_event_attributes(v: JsonValue) -> Option<EventAttributes> {
    match v {
        JsonValue::Obj(es) => match (
            s_field(es@, "eventType"@, |x: JsonValue| spec_webhook_event_type(x)),
            s_str(es@, "createdAt"@),
        ) {
            (Some(event_type), Some(created_at)) => Some(EventAttributes { event_type, created_at }),
            _ => None,
        },
        _ => None,
    }
}

impl Decodable for EventAttributes {
    open spec fn decode_ok(v: JsonValue) -> bool {
        spec_event_attributes(v) is Some
    }

    open spec fn decode_rel(v: JsonValue, t: Self) -> bool {
        spec_event_attributes(v) == Some(t)
    }

    fn decode(v: &JsonValue) -> (r: Option<Self>) {
        match v {
            JsonValue::Obj(es) => {
                let event_type = match get(es, "eventType") {
                    Some(ev) => match crate::v1::standard::WebhookEventTypeEnum::decode(ev) {
                        Some(e) => e,
                        None => { return None; },
                    },
                    None => { return None; },
                };
                let created_at = match f_str(es, "createdAt") {
                    Some(s) => s,
                    None => { return None; },
                };
                Some(EventAttributes { event_type, created_at })
            },
            _ => None,
        }
    }
}

pub open spec fn spec_event(v: JsonValue) -> Option<WebhookEventResource> {
    match v {
        JsonValue::Obj(es) => match (
            s_str(es@, "type"@),
            s_str(es@, "id"@),
            s_field(es@, "attributes"@, |x: JsonValue| spec_event_attributes(x)),
            s_field(es@, "relationships"@, |x: JsonValue| spec_event_relationships(x)),
        ) {
            (Some(resource_type), Some(id), Some(attributes), Some(relationships)) => Some(
                WebhookEventResource { resource_type, id, attributes, relationships },
            ),
            _ => None,
        },
        _ => None,
    }
}

impl Decodable for WebhookEventResource {
    open spec fn decode_ok(v: JsonValue) -> bool {
        spec_event(v) is Some
    }

    open spec fn decode_rel(v: JsonValue, t: Self) -> bool {
        spec_event(v) == Some(t)
    }

    fn decode(v: &JsonValue) -> (r: Option<Self>) {
        match v {
            JsonValue::Obj(es) => {
                let resource_type = match f_str(es, "type") {
                    Some(s) => s,
                    None => { return None; },
                };
                let id = match f_str(es, "id") {
                    Some(s) => s,
                    None => { return None; },
                };
                let attributes = match get(es, "attributes") {
                    Some(av) => match EventAttributes::decode(av) {
                        Some(a) => a,
                        None => { return None; },
                    },
                    None => { return None; },
                };
                let relationships = match get(es, "relationships") {
                    Some(rv) => match EventRelationships::decode(rv) {
                        Some(x) => x,
                        None => { return None; },
                    },
                    None => { return None; },
                };
                Some(WebhookEventResource { resource_type, id, attributes, relationships })
            },
            _ => None,
        }
    }
}

pub open spec fn spec_ping_webhook(v: JsonValue) -> Option<PingWebhookResponse> {
    match v {
        JsonValue::Obj(es) => match s_field(es@, "data"@, |x: JsonValue| spec_event(x)) {
            Some(data) => Some(PingWebhookResponse { data }),
            None => None,
        },
        _ => None,
    }
}

impl Decodable for PingWebhookResponse {
    open spec fn decode_ok(v: JsonValue) -> bool {
        spec_ping_webhook(v) is Some
    }

    open spec fn decode_rel(v: JsonValue, t: Self) -> bool {
        spec_ping_webhook(v) == Some(t)
    }

    fn decode(v: &JsonValue) -> (r: Option<Self>) {
        match v {
            JsonValue::Obj(es) => match get(es, "data") {
                Some(dv) => match WebhookEventResource::decode(dv) {
                    Some(data) => Some(PingWebhookResponse { data }),
                    None => None,
                },
                None => None,
            },
            _ => None,
        }
    }
}

// ---------------- decoding: delivery logs ----------------

pub open spec fn spec_event_data(v: JsonValue) -> Option<WebhookEventData> {
    match v {
        JsonValue::Obj(es) => match (s_str(es@, "type"@), s_str(es@, "id"@)) {
            (Some(resource_type), Some(id)) => Some(WebhookEventData { resource_type, id }),
            _ => None,
        },
        _ => None,
    }
}

impl Decodable for WebhookEventData {
    open spec fn decode_ok(v: JsonValue) -> bool {
        spec_event_data(v) is Some
    }

    open spec fn decode_rel(v: JsonValue, t: Self) -> bool {
        spec_event_data(v) == Some(t)
    }

    fn decode(v: &JsonValue) -> (r: Option<Self>) {
        match v {
            JsonValue::Obj(es) => match (f_str(es, "type"), f_str(es, "id")) {
                (Some(resource_type), Some(id)) => Some(WebhookEventData { resource_type, id }),
                _ => None,
            },
            _ => None,
        }
    }
}

pub open spec fn spec_log_event(v: JsonValue) -> Option<WebhookEvent> {
    match v {
        JsonValue::Obj(es) => match s_field(es@, "data"@, |x: JsonValue| spec_event_data(x)) {
            Some(data) => Some(WebhookEvent { data }),
            None => None,
        },
        _ => None,
    }
}

impl Decodable for WebhookEvent {
    open spec fn decode_ok(v: JsonValue) -> bool {
        spec_log_event(v) is Some
    }

    open spec fn decode_rel(v: JsonValue, t: Self) -> bool {
        spec_log_event(v) == Some(t)
    }

    fn decode(v: &JsonValue) -> (r: Option<Self>) {
        match v {
            JsonValue::Obj(es) => match get(es, "data") {
                Some(dv) => match WebhookEventData::decode(dv) {
                    Some(data) => Some(WebhookEvent { data }),
                    None => None,
                },
                None => None,
            },
            _ => None,
        }
    }
}

pub open spec fn spec_log_relationships(v: JsonValue) -> Option<DeliveryLogRelationships> {
    match v {
        JsonValue::Obj(es) => match s_field(es@, "webhookEvent"@, |x: JsonValue| spec_log_event(x)) {
            Some(webhook_event) => Some(DeliveryLogRelationships { webhook_event }),
            None => None,
        },
        _ => None,
    }
}

impl Decodable for DeliveryLogRelationships {
    open spec fn decode_ok(v: JsonValue) -> bool {
        spec_log_relationships(v) is Some
    }

    open spec fn decode_rel(v: JsonValue, t: Self) -> bool {
        spec_log_relationships(v) == Some(t)
    }

    fn decode(v: &JsonValue) -> (r: Option<Self>) {
        match v {
            JsonValue::Obj(es) => match get(es, "webhookEvent") {
                Some(wv) => match WebhookEvent::decode(wv) {
                    Some(webhook_event) => Some(DeliveryLogRelationships { webhook_event }),
                    None => None,
                },
                None => None,
            },
            _ => None,
        }
    }
}

pub open spec fn spec_log_request(v: JsonValue) -> Option<Request> {
    match v {
        JsonValue::Obj(es) => match s_str(es@, "body"@) {
            Some(body) => Some(Request { body }),
            None => None,
        },
        _ => None,
    }
}

impl Decodable for Request {
    open spec fn decode_ok(v: JsonValue) -> bool {
        spec_log_request(v) is Some
    }

    open spec fn decode_rel(v: JsonValue, t: Self) -> bool {
        spec_log_request(v) == Some(t)
    }

    fn decode(v: &JsonValue) -> (r: Option<Self>) {
        match v {
            JsonValue::Obj(es) => match f_str(es, "body") {
                Some(body) => Some(Request { body }),
                None => None,
            },
            _ => None,
        }
    }
}

pub open spec fn spec_log_response(v: JsonValue) -> Option<Response> {
    match v {
        JsonValue::Obj(es) => match (s_i64(es@, "statusCode"@), s_str(es@, "body"@)) {
            (Some(status_code), Some(body)) => Some(Response { status_code, body }),
            _ => None,
        },
        _ => None,
    }
}

impl Decodable for Response {
    open spec fn decode_ok(v: JsonValue) -> bool {
        spec_log_response(v) is Some
    }

    open spec fn decode_rel(v: JsonValue, t: Self) -> bool {
        spec_log_response(v) == Some(t)
    }

    fn decode(v: &JsonValue) -> (r: Option<Self>) {
        match v {
            JsonValue::Obj(es) => match (crate::v1::json::f_i64(es, "statusCode"), f_str(es, "body")) {
                (Some(status_code), Some(body)) => Some(Response { status_code, body }),
                _ => None,
            },
            _ => None,
        }
    }
}

pub open spec fn spec_log_attributes(v: JsonValue) -> Option<DeliveryLogAttributes> {
    match v {
        JsonValue::Obj(es) => match (
            s_field(es@, "request"@, |x: JsonValue| spec_log_request(x)),
            s_opt_field(es@, "response"@, |x: JsonValue| spec_log_response(x)),
            s_field(es@, "deliveryStatus"@, |x: JsonValue| spec_webhook_delivery_status(x)),
            s_str(es@, "createdAt"@),
        ) {
            (Some(request), Some(response), Some(delivery_status), Some(created_at)) => Some(
                DeliveryLogAttributes { request, response, delivery_status, created_at },
            ),
            _ => None,
        },
        _ => None,
    }
}

impl Decodable for DeliveryLogAttributes {
    open spec fn decode_ok(v: JsonValue) -> bool {
        spec_log_attributes(v) is Some
    }

    open spec fn decode_rel(v: JsonValue, t: Self) -> bool {
        spec_log_attributes(v) == Some(t)
    }

    fn decode(v: &JsonValue) -> (r: Option<Self>) {
        match v {
            JsonValue::Obj(es) => {
                let request = match get(es, "request") {
                    Some(rv) => match Request::decode(rv) {
                        Some(x) => x,
                        None => { return None; },
                    },
                    None => { return None; },
                };
                let response = match get(es, "response") {
                    None => None,
                    Some(JsonValue::Null) => None,
                    Some(rv) => match Response::decode(rv) {
                        Some(x) => Some(x),
                        None => { return None; },
                    },
                };
                let delivery_status = match get(es, "deliveryStatus") {
                    Some(sv) => match crate::v1::standard::WebhookDeliveryStatusEnum::decode(sv) {
                        Some(s) => s,
                        None => { return None; },
                    },
                    None => { return None; },
                };
                let created_at = match f_str(es, "createdAt") {
                    Some(s) => s,
                    None => { return None; },
                };
                Some(DeliveryLogAttributes { request, response, delivery_status, created_at })
            },
            _ => None,
        }
    }
}

pub open spec fn spec_log(v: JsonValue) -> Option<WebhookDeliveryLogResource> {
    match v {
        JsonValue::Obj(es) => match (
            s_str(es@, "type"@),
            s_str(es@, "id"@),
            s_field(es@, "attributes"@, |x: JsonValue| spec_log_attributes(x)),
            s_field(es@, "relationships"@, |x: JsonValue| spec_log_relationships(x)),
        ) {
            (Some(resource_type), Some(id), Some(attributes), Some(relationships)) => Some(
                WebhookDeliveryLogResource { resource_type, id, attributes, relationships },
            ),
            _ => None,
        },
        _ => None,
    }
}

impl Decodable for WebhookDeliveryLogResource {
    open spec fn decode_ok(v: JsonValue) -> bool {
        spec_log(v) is Some
    }

    open spec fn decode_rel(v: JsonValue, t: Self) -> bool {
        spec_log(v) == Some(t)
    }

    fn decode(v: &JsonValue) -> (r: Option<Self>) {
        match v {
            JsonValue::Obj(es) => {
                let resource_type = match f_str(es, "type") {
                    Some(s) => s,
                    None => { return None; },
                };
                let id = match f_str(es, "id") {
                    Some(s) => s,
                    None => { return None; },
                };
                let attributes = match get(es, "attributes") {
                    Some(av) => match DeliveryLogAttributes::decode(av) {
                        Some(a) => a,
                        None => { return None; },
                    },
                    None => { return None; },
                };
                let relationships = match get(es, "relationships") {
                    Some(rv) => match DeliveryLogRelationships::decode(rv) {
                        Some(x) => x,
                        None => { return None; },
                    },
                    None => { return None; },
                };
                Some(WebhookDeliveryLogResource { resource_type, id, attributes, relationships })
            },
            _ => None,
        }
    }
}

pub open spec fn spec_logs_response_links(v: JsonValue) -> Option<LogsResponseLinks> {
    match spec_links(v) {
        Some(p) => Some(LogsResponseLinks { prev: p.0, next: p.1 }),
        None => None,
    }
}

impl Decodable for LogsResponseLinks {
    open spec fn decode_ok(v: JsonValue) -> bool {
        spec_logs_response_links(v) is Some
    }

    open spec fn decode_rel(v: JsonValue, t: Self) -> bool {
        spec_logs_response_links(v) == Some(t)
    }

    fn decode(v: &JsonValue) -> (r: Option<Self>) {
        match decode_links(v) {
            Some(p) => Some(LogsResponseLinks { prev: p.0, next: p.1 }),
            None => None,
        }
    }
}

impl Decodable for ListWebhookLogsResponse {
    open spec fn decode_ok(v: JsonValue) -> bool {
        match as_obj(v) {
            Some(es) => match s_arr(es, "data"@) {
                Some(a) => (forall|i: int|
                    0 <= i < a.len() ==> WebhookDeliveryLogResource::decode_ok(#[trigger] a[i]))
                    && s_field(es, "links"@, |x: JsonValue| spec_logs_response_links(x)) is Some,
                None => false,
            },
            None => false,
        }
    }

    open spec fn decode_rel(v: JsonValue, t: Self) -> bool {
        match as_obj(v) {
            Some(es) => match s_arr(es, "data"@) {
                Some(a) => t.data@.len() == a.len() && (forall|i: int|
                    0 <= i < a.len() ==> WebhookDeliveryLogResource::decode_rel(
                        a[i],
                        #[trigger] t.data@[i],
                    )) && s_field(es, "links"@, |x: JsonValue| spec_logs_response_links(x))
                    == Some(t.links),
                None => false,
            },
            None => false,
        }
    }

    fn decode(v: &JsonValue) -> (r: Option<Self>) {
        match v {
            JsonValue::Obj(es) => {
                let data = match get(es, "data") {
                    Some(JsonValue::Arr(a)) => match decode_array::<WebhookDeliveryLogResource>(a) {
                        Some(d) => d,
                        None => {
                            proof {
                                assert(as_obj(*v).unwrap() == es@);
                                assert(s_arr(as_obj(*v).unwrap(), "data"@).unwrap() == a@);
                                assert(!Self::decode_ok(*v));
                            }
                            return None;
                        },
                    },
                    _ => { return None; },
                };
                let links = match get(es, "links") {
                    Some(lv) => match LogsResponseLinks::decode(lv) {
                        Some(l) => l,
                        None => { return None; },
                    },
                    None => { return None; },
                };
                Some(ListWebhookLogsResponse { data, links })
            },
            _ => None,
        }
    }
}

impl Paginated for ListWebhooksResponse {
    open spec fn spec_next(&self) -> Option<String> {
        self.links.next
    }

    open spec fn spec_prev(&self) -> Option<String> {
        self.links.prev
    }

    fn next_link(&self) -> (r: &Option<String>) {
        &self.links.next
    }

    fn prev_link(&self) -> (r: &Option<String>) {
        &self.links.prev
    }
}

impl Paginated for ListWebhookLogsResponse {
    open spec fn spec_next(&self) -> Option<String> {
        self.links.next
    }

    open spec fn spec_prev(&self) -> Option<String> {
        self.links.prev
    }

    fn next_link(&self) -> (r: &Option<String>) {
        &self.links.next
    }

    fn prev_link(&self) -> (r: &Option<String>) {
        &self.links.prev
    }
}

// ---------------- options ----------------

/// The optional paging parameters of the webhook list.
pub struct ListWebhooksOptions {
    /// The number of records to return in each page.
    pub page_size: Option<u8>,
}

/// The query entries the webhook list options emit.
pub open spec fn webhooks_entries(o: ListWebhooksOptions) -> Seq<(Seq<char>, Seq<char>)> {
    opt_e(
        "page[size]"@,
        match o.page_size {
            Some(n) => Some(dec_u8(n)),
            None => None,
        },
    )
}

impl Default for ListWebhooksOptions {
    /// Options with no present value: they emit no query string at all.
    fn default() -> (r: Self)
        ensures
            r.page_size is None,
    {
        ListWebhooksOptions { page_size: None }
    }
}

impl ListWebhooksOptions {
    /// Sets the page size.
    pub fn page_size(&mut self, value: u8)
        ensures
            final(self).page_size == Some(value),
    {
        self.page_size = Some(value);
    }

    /// Appends the emitted query string (if the entry is present) to `url`.
    pub(crate) fn add_params(&self, url: &mut String)
        ensures
            final(url)@ == old(url)@ + url_suffix(webhooks_entries(*self)),
    {
        let mut query = String::new();
        let ghost mut done: Seq<(Seq<char>, Seq<char>)> = Seq::<(Seq<char>, Seq<char>)>::empty();
        if let Some(value) = &self.page_size {
            proof {
                lemma_qs_empty(done);
                lemma_qs_push(done, ("page[size]"@, dec_u8(*value)));
            }
            push_param_u8(&mut query, "page[size]", *value);
            proof {
                done = done.push(("page[size]"@, dec_u8(*value)));
            }
        }
        proof {
            assert(done =~= webhooks_entries(*self));
        }
        append_query(url, query, Ghost(done));
    }
}

/// The optional paging parameters of the delivery-log list.
pub struct ListWebhookLogsOptions {
    /// The number of records to return in each page.
    pub page_size: Option<u8>,
}

/// The query entries the delivery-log list options emit.
pub open spec fn webhook_logs_entries(o: ListWebhookLogsOptions) -> Seq<(Seq<char>, Seq<char>)> {
    opt_e(
        "page[size]"@,
        match o.page_size {
            Some(n) => Some(dec_u8(n)),
            None => None,
        },
    )
}

impl Default for ListWebhookLogsOptions {
    /// Options with no present value: they emit no query string at all.
    fn default() -> (r: Self)
        ensures
            r.page_size is None,
    {
        ListWebhookLogsOptions { page_size: None }
    }
}

impl ListWebhookLogsOptions {
    /// Sets the page size.
    pub fn page_size(&mut self, value: u8)
        ensures
            final(self).page_size == Some(value),
    {
        self.page_size = Some(value);
    }

    /// Appends the emitted query string (if the entry is present) to `url`.
    pub(crate) fn add_params(&self, url: &mut String)
        ensures
            final(url)@ == old(url)@ + url_suffix(webhook_logs_entries(*self)),
    {
        let mut query = String::new();
        let ghost mut done: Seq<(Seq<char>, Seq<char>)> = Seq::<(Seq<char>, Seq<char>)>::empty();
        if let Some(value) = &self.page_size {
            proof {
                lemma_qs_empty(done);
                lemma_qs_push(done, ("page[size]"@, dec_u8(*value)));
            }
            push_param_u8(&mut query, "page[size]", *value);
            proof {
                done = done.push(("page[size]"@, dec_u8(*value)));
            }
        }
        proof {
            assert(done =~= webhook_logs_entries(*self));
        }
        append_query(url, query, Ghost(done));
    }
}

// ---------------- request objects ----------------

/// The body of a webhook creation.
#[derive(Debug, Clone, PartialEq)]
pub struct CreateWebhookRequest {
    /// The webhook resource to create.
    pub data: WebhookInputResource,
}

/// The webhook resource to create.
#[derive(Debug, Clone, PartialEq)]
pub struct WebhookInputResource {
    pub attributes: InputAttributes,
}

/// The attributes of a webhook to create.
#[derive(Debug, Clone, PartialEq)]
pub struct InputAttributes {
    /// The URL this webhook should post events to: a valid HTTP or HTTPS
    /// URL of at most 300 characters.
    pub url: String,
    /// An optional description for this webhook, up to 64 characters.
    pub description: Option<String>,
}

/// The rendered body of a webhook creation: the URL and, when present, the
/// description, `null` otherwise.
pub open spec fn webhook_body(url: Seq<char>, description: Option<Seq<char>>) -> Seq<char> {
    "{\"data\":{\"attributes\":{\"url\":\""@ + json_escaped(url) + "\",\"description\":"@
        + (match description {
        None => "null"@,
        Some(d) => seq!['"'] + json_escaped(d) + seq!['"'],
    }) + "}}}"@
}

/// Renders the body of a webhook creation.
pub fn encode_create_webhook_request(req: &CreateWebhookRequest) -> (r: String)
    ensures
        r@ == webhook_body(
            req.data.attributes.url@,
            match req.data.attributes.description {
                Some(d) => Some(d@),
                None => None,
            },
        ),
{
    let mut b = String::from_str("{\"data\":{\"attributes\":{\"url\":\"");
    append_json_escaped(&mut b, req.data.attributes.url.as_str());
    b.append("\",\"description\":");
    match &req.data.attributes.description {
        None => {
            b.append("null");
        },
        Some(d) => {
            crate::v1::query::push_char(&mut b, '"');
            append_json_escaped(&mut b, d.as_str());
            crate::v1::query::push_char(&mut b, '"');
        },
    }
    b.append("}}}");
    proof {
        assert(b@ =~= webhook_body(
            req.data.attributes.url@,
            match req.data.attributes.description {
                Some(d) => Some(d@),
                None => None,
            },
        ));
    }
    b
}

// ---------------- requests ----------------

/// The headers of the empty `POST` that pings a webhook: the bearer token,
/// a `Content-Type`, and an explicit zero `Content-Length`.
pub open spec fn ping_webhook_headers(token: Seq<char>) -> Seq<(Seq<char>, Seq<char>)> {
    auth_json_headers(token).push(("Content-Length"@, "0"@))
}

impl Client {
    /// Describes the request that retrieves a paginated list of configured
    /// webhooks, oldest first.
    pub fn list_webhooks_request(&self, options: &ListWebhooksOptions) -> (r: Result<
        HttpRequest,
        Error,
    >)
        ensures
            r is Ok <==> url_normalized(spec_base_url() + "/webhooks"@) is Some,
            r matches Ok(req) ==> {
                &&& req.method == Method::Get
                &&& url_normalized(spec_base_url() + "/webhooks"@) matches Some(u) && req.url@ == u
                    + url_suffix(webhooks_entries(*options))
                &&& header_views(req.headers@) == auth_headers(self.token())
                &&& req.body is None
            },
            r matches Err(e) ==> e matches Error::UrlParse(_),
    {
        let mut full = String::from_str(base_url());
        full.append("/webhooks");
        proof {
            assert(full@ =~= spec_base_url() + "/webhooks"@);
        }
        match parse_request_url(full) {
            Ok(mut u) => {
                options.add_params(&mut u);
                Ok(get_request(self, u))
            },
            Err(e) => Err(e),
        }
    }

    /// Describes the request that retrieves a specific webhook by its
    /// unique identifier. An empty identifier would change the meaning of
    /// the call, so it is rejected up front: the result is `None`, distinct
    /// from every recoverable error kind, and no request exists to dispatch.
    pub fn get_webhook_request(&self, id: &str) -> (r: Option<Result<HttpRequest, Error>>)
        ensures
            r is None <==> id@.len() == 0,
            r matches Some(res) ==> (res is Ok <==> url_normalized(
                spec_base_url() + "/webhooks/"@ + id@,
            ) is Some),
            r matches Some(res) ==> (res matches Ok(req) ==> {
                &&& req.method == Method::Get
                &&& url_normalized(spec_base_url() + "/webhooks/"@ + id@) matches Some(u)
                    && req.url@ == u
                &&& header_views(req.headers@) == auth_headers(self.token())
                &&& req.body is None
            }),
            r matches Some(res) ==> (res matches Err(e) ==> e matches Error::UrlParse(_)),
    {
        if id.is_empty() {
            return None;
        }
        let mut full = String::from_str(base_url());
        full.append("/webhooks/");
        full.append(id);
        proof {
            assert(full@ =~= spec_base_url() + "/webhooks/"@ + id@);
        }
        match parse_request_url(full) {
            Ok(u) => Some(Ok(get_request(self, u))),
            Err(e) => Some(Err(e)),
        }
    }

    /// Describes the request that creates a new webhook with a given URL
    /// and optional description: a `POST` with a JSON body.
    pub fn create_webhook_request(&self, webhook_url: &str, description: Option<String>) -> (r:
        Result<HttpRequest, Error>)
        ensures
            r is Ok <==> url_normalized(spec_base_url() + "/webhooks"@) is Some,
            r matches Ok(req) ==> {
                &&& req.method == Method::Post
                &&& url_normalized(spec_base_url() + "/webhooks"@) matches Some(u) && req.url@ == u
                &&& header_views(req.headers@) == auth_json_headers(self.token())
                &&& req.body matches Some(b) && b@ == webhook_body(
                    webhook_url@,
                    match description {
                        Some(d) => Some(d@),
                        None => None,
                    },
                )
            },
            r matches Err(e) ==> e matches Error::UrlParse(_),
    {
        let mut full = String::from_str(base_url());
        full.append("/webhooks");
        proof {
            assert(full@ =~= spec_base_url() + "/webhooks"@);
        }
        match parse_request_url(full) {
            Ok(u) => {
                let body = encode_create_webhook_request(
                    &CreateWebhookRequest {
                        data: WebhookInputResource {
                            attributes: InputAttributes {
                                url: String::from_str(webhook_url),
                                description,
                            },
                        },
                    },
                );
                Ok(json_request(self, Method::Post, u, body))
            },
            Err(e) => Err(e),
        }
    }

    /// Describes the request that deletes a specific webhook by its unique
    /// identifier.
    pub fn delete_webhook_request(&self, id: &str) -> (r: Result<HttpRequest, Error>)
        ensures
            r is Ok <==> url_normalized(spec_base_url() + "/webhooks/"@ + id@) is Some,
            r matches Ok(req) ==> {
                &&& req.method == Method::Delete
                &&& url_normalized(spec_base_url() + "/webhooks/"@ + id@) matches Some(u)
                    && req.url@ == u
                &&& header_views(req.headers@) == auth_headers(self.token())
                &&& req.body is None
            },
            r matches Err(e) ==> e matches Error::UrlParse(_),
    {
        let mut full = String::from_str(base_url());
        full.append("/webhooks/");
        full.append(id);
        proof {
            assert(full@ =~= spec_base_url() + "/webhooks/"@ + id@);
        }
        match parse_request_url(full) {
            Ok(u) => Ok(bare_request(self, Method::Delete, u)),
            Err(e) => Err(e),
        }
    }

    /// Describes the request that sends a `PING` event to a webhook: an
    /// empty `POST`, with an explicit zero `Content-Length`.
    pub fn ping_webhook_request(&self, id: &str) -> (r: Result<HttpRequest, Error>)
        ensures
            r is Ok <==> url_normalized(spec_base_url() + "/webhooks/"@ + id@ + "/ping"@) is Some,
            r matches Ok(req) ==> {
                &&& req.method == Method::Post
                &&& url_normalized(spec_base_url() + "/webhooks/"@ + id@ + "/ping"@) matches Some(
                    u,
                ) && req.url@ == u
                &&& header_views(req.headers@) == ping_webhook_headers(self.token())
                &&& req.body is None
            },
            r matches Err(e) ==> e matches Error::UrlParse(_),
    {
        let mut full = String::from_str(base_url());
        full.append("/webhooks/");
        full.append(id);
        full.append("/ping");
        proof {
            assert(full@ =~= spec_base_url() + "/webhooks/"@ + id@ + "/ping"@);
        }
        match parse_request_url(full) {
            Ok(u) => {
                let mut headers: Vec<(String, String)> = Vec::new();
                headers.push((String::from_str("Authorization"), self.auth_header()));
                headers.push(
                    (String::from_str("Content-Type"), String::from_str("application/json")),
                );
                headers.push((String::from_str("Content-Length"), String::from_str("0")));
                proof {
                    assert(header_views(headers@) =~= ping_webhook_headers(self.token()));
                }
                Ok(HttpRequest { method: Method::Post, url: u, headers, body: None })
            },
            Err(e) => Err(e),
        }
    }

    /// Describes the request that retrieves a paginated list of delivery
    /// logs for a webhook, newest first.
    pub fn list_webhook_logs_request(&self, id: &str, options: &ListWebhookLogsOptions) -> (r:
        Result<HttpRequest, Error>)
        ensures
            r is Ok <==> url_normalized(spec_base_url() + "/webhooks/"@ + id@ + "/logs"@) is Some,
            r matches Ok(req) ==> {
                &&& req.method == Method::Get
                &&& url_normalized(spec_base_url() + "/webhooks/"@ + id@ + "/logs"@) matches Some(
                    u,
                ) && req.url@ == u + url_suffix(webhook_logs_entries(*options))
                &&& header_views(req.headers@) == auth_headers(self.token())
                &&& req.body is None
            },
            r matches Err(e) ==> e matches Error::UrlParse(_),
    {
        let mut full = String::from_str(base_url());
        full.append("/webhooks/");
        full.append(id);
        full.append("/logs");
        proof {
            assert(full@ =~= spec_base_url() + "/webhooks/"@ + id@ + "/logs"@);
        }
        match parse_request_url(full) {
            Ok(mut u) => {
                options.add_params(&mut u);
                Ok(get_request(self, u))
            },
            Err(e) => Err(e),
        }
    }
}

/// Classifies and decodes the response to a `list_webhooks_request`; the
/// endpoint's success status is 200.
pub fn list_webhooks_response(status: u16, body: &str) -> (r: Result<ListWebhooksResponse, Error>)
    ensures
        classified::<ListWebhooksResponse>(200, status, json_of(body@), r),
{
    classify_response::<ListWebhooksResponse>(200, status, body)
}

/// Classifies and decodes the response to a `get_webhook_request`; the
/// endpoint's success status is 200.
pub fn get_webhook_response(status: u16, body: &str) -> (r: Result<GetWebhookResponse, Error>)
    ensures
        classified::<GetWebhookResponse>(200, status, json_of(body@), r),
{
    classify_response::<GetWebhookResponse>(200, status, body)
}

/// Classifies and decodes the response to a `create_webhook_request`; the
/// endpoint's success status is 201.
pub fn create_webhook_response(status: u16, body: &str) -> (r: Result<
    CreateWebhookResponse,
    Error,
>)
    ensures
        classified::<CreateWebhookResponse>(201, status, json_of(body@), r),
{
    classify_response::<CreateWebhookResponse>(201, status, body)
}

/// Classifies the response to a `delete_webhook_request`; the endpoint's
/// success status is 204, with no body.
pub fn delete_webhook_response(status: u16, body: &str) -> (r: Result<(), Error>)
    ensures
        classified_no_content(204, status, json_of(body@), r),
{
    classify_no_content(204, status, body)
}

/// Classifies and decodes the response to a `ping_webhook_request`; the
/// endpoint's success status is 201.
pub fn ping_webhook_response(status: u16, body: &str) -> (r: Result<PingWebhookResponse, Error>)
    ensures
        classified::<PingWebhookResponse>(201, status, json_of(body@), r),
{
    classify_response::<PingWebhookResponse>(201, status, body)
}

/// Classifies and decodes the response to a `list_webhook_logs_request`;
/// the endpoint's success status is 200.
pub fn list_webhook_logs_response(status: u16, body: &str) -> (r: Result<
    ListWebhookLogsResponse,
    Error,
>)
    ensures
        classified::<ListWebhookLogsResponse>(200, status, json_of(body@), r),
{
    classify_response::<ListWebhookLogsResponse>(200, status, body)
}

} // verus!
