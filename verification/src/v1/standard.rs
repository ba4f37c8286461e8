//! Objects and enumerations shared by several resource kinds.

use vstd::prelude::*;

use crate::v1::json::{f_opt_str, f_str, get, s_field, s_opt_field, s_opt_str, s_str, str_eq,
    Decodable, JsonValue};

verus! {

/// The bank account types.
#[derive(Debug, Clone, Copy, PartialEq, Eq, Structural)]
pub enum AccountTypeEnum {
    Saver,
    Transactional,
}

pub open spec fn spec_account_type(v: JsonValue) -> Option<AccountTypeEnum> {
    match v {
        JsonValue::Str(s) => if s@ == "SAVER"@ {
            Some(AccountTypeEnum::Saver)
        } else if s@ == "TRANSACTIONAL"@ {
            Some(AccountTypeEnum::Transactional)
        } else {
            None
        },
        _ => None,
    }
}

impl Decodable for AccountTypeEnum {
    open spec fn decode_ok(v: JsonValue) -> bool {
        spec_account_type(v) is Some
    }

    open spec fn decode_rel(v: JsonValue, t: Self) -> bool {
        spec_account_type(v) == Some(t)
    }

    fn decode(v: &JsonValue) -> (r: Option<Self>) {
        match v {
            JsonValue::Str(s) => if str_eq(s.as_str(), "SAVER") {
                Some(AccountTypeEnum::Saver)
            } else if str_eq(s.as_str(), "TRANSACTIONAL") {
                Some(AccountTypeEnum::Transactional)
            } else {
                None
            },
            _ => None,
        }
    }
}

/// An amount of money in some currency.
#[derive(Debug, Clone, PartialEq)]
pub struct MoneyObject {
    /// The ISO 4217 currency code (the wire field `currencyCode`).
    pub currency_code: String,
    /// The amount of money, formatted as a string in the relevant
    /// currency, without the currency symbol.
    pub value: String,
    /// The amount of money in the smallest denomination for the currency
    /// (the wire field `valueInBaseUnits`).
    pub value_in_base_units: i64,
}

pub open spec fn spec_money(v: JsonValue) -> Option<MoneyObject> {
    match v {
        JsonValue::Obj(es) => match (
            s_str(es@, "currencyCode"@),
            s_str(es@, "value"@),
            crate::v1::json::s_i64(es@, "valueInBaseUnits"@),
        ) {
            (Some(currency_code), Some(value), Some(value_in_base_units)) => Some(
                MoneyObject { currency_code, value, value_in_base_units },
            ),
            _ => None,
        },
        _ => None,
    }
}

impl Decodable for MoneyObject {
    open spec fn decode_ok(v: JsonValue) -> bool {
        spec_money(v) is Some
    }

    open spec fn decode_rel(v: JsonValue, t: Self) -> bool {
        spec_money(v) == Some(t)
    }

    fn decode(v: &JsonValue) -> (r: Option<Self>) {
        match v {
            JsonValue::Obj(es) => match (
                f_str(es, "currencyCode"),
                f_str(es, "value"),
                crate::v1::json::f_i64(es, "valueInBaseUnits"),
            ) {
                (Some(currency_code), Some(value), Some(value_in_base_units)) => Some(
                    MoneyObject { currency_code, value, value_in_base_units },
                ),
                _ => None,
            },
            _ => None,
        }
    }
}

/// The account ownership structures.
#[derive(Debug, Clone, Copy, PartialEq, Eq, Structural)]
pub enum OwnershipTypeEnum {
    Individual,
    Joint,
}

pub open spec fn spec_ownership_type(v: JsonValue) -> Option<OwnershipTypeEnum> {
    match v {
        JsonValue::Str(s) => if s@ == "INDIVIDUAL"@ {
            Some(OwnershipTypeEnum::Individual)
        } else if s@ == "JOINT"@ {
            Some(OwnershipTypeEnum::Joint)
        } else {
            None
        },
        _ => None,
    }
}

impl Decodable for OwnershipTypeEnum {
    open spec fn decode_ok(v: JsonValue) -> bool {
        spec_ownership_type(v) is Some
    }

    open spec fn decode_rel(v: JsonValue, t: Self) -> bool {
        spec_ownership_type(v) == Some(t)
    }

    fn decode(v: &JsonValue) -> (r: Option<Self>) {
        match v {
            JsonValue::Str(s) => if str_eq(s.as_str(), "INDIVIDUAL") {
                Some(OwnershipTypeEnum::Individual)
            } else if str_eq(s.as_str(), "JOINT") {
                Some(OwnershipTypeEnum::Joint)
            } else {
                None
            },
            _ => None,
        }
    }
}

/// The processing statuses of a transaction.
#[derive(Debug, Clone, Copy, PartialEq, Eq, Structural)]
pub enum TransactionStatusEnum {
    Held,
    Settled,
}

pub open spec fn spec_transaction_status(v: JsonValue) -> Option<TransactionStatusEnum> {
    match v {
        JsonValue::Str(s) => if s@ == "HELD"@ {
            Some(TransactionStatusEnum::Held)
        } else if s@ == "SETTLED"@ {
            Some(TransactionStatusEnum::Settled)
        } else {
            None
        },
        _ => None,
    }
}

impl Decodable for TransactionStatusEnum {
    open spec fn decode_ok(v: JsonValue) -> bool {
        spec_transaction_status(v) is Some
    }

    open spec fn decode_rel(v: JsonValue, t: Self) -> bool {
        spec_transaction_status(v) == Some(t)
    }

    fn decode(v: &JsonValue) -> (r: Option<Self>) {
        match v {
            JsonValue::Str(s) => if str_eq(s.as_str(), "HELD") {
                Some(TransactionStatusEnum::Held)
            } else if str_eq(s.as_str(), "SETTLED") {
                Some(TransactionStatusEnum::Settled)
            } else {
                None
            },
            _ => None,
        }
    }
}

/// The amounts of a transaction while it was (or is) in the `HELD` status.
#[derive(Debug, Clone, PartialEq)]
pub struct HoldInfoObject {
    /// The amount of this transaction while in the `HELD` status.
    pub amount: MoneyObject,
    /// The foreign currency amount of this transaction while in the `HELD`
    /// status; `None` for domestic transactions (the wire field
    /// `foreignAmount`).
    pub foreign_amount: Option<MoneyObject>,
}

pub open spec fn spec_hold_info(v: JsonValue) -> Option<HoldInfoObject> {
    match v {
        JsonValue::Obj(es) => match (
            s_field(es@, "amount"@, |x: JsonValue| spec_money(x)),
            s_opt_field(es@, "foreignAmount"@, |x: JsonValue| spec_money(x)),
        ) {
            (Some(amount), Some(foreign_amount)) => Some(HoldInfoObject { amount, foreign_amount }),
            _ => None,
        },
        _ => None,
    }
}

impl Decodable for HoldInfoObject {
    open spec fn decode_ok(v: JsonValue) -> bool {
        spec_hold_info(v) is Some
    }

    open spec fn decode_rel(v: JsonValue, t: Self) -> bool {
        spec_hold_info(v) == Some(t)
    }

    fn decode(v: &JsonValue) -> (r: Option<Self>) {
        match v {
            JsonValue::Obj(es) => {
                let amount = match get(es, "amount") {
                    Some(av) => match MoneyObject::decode(av) {
                        Some(m) => m,
                        None => { return None; },
                    },
                    None => { return None; },
                };
                let foreign_amount = match get(es, "foreignAmount") {
                    None => None,
                    Some(JsonValue::Null) => None,
                    Some(fv) => match MoneyObject::decode(fv) {
                        Some(m) => Some(m),
                        None => { return None; },
                    },
                };
                Some(HoldInfoObject { amount, foreign_amount })
            },
            _ => None,
        }
    }
}

/// How a transaction was rounded up.
#[derive(Debug, Clone, PartialEq)]
pub struct RoundUpObject {
    /// The total amount of this Round Up, including any boosts, as a
    /// negative value.
    pub amount: MoneyObject,
    /// The portion of the Round Up owing to boosted Round Ups, as a
    /// negative value; `None` when no boost was added (the wire field
    /// `boostPortion`).
    pub boost_portion: Option<MoneyObject>,
}

pub open spec fn spec_round_up(v: JsonValue) -> Option<RoundUpObject> {
    match v {
        JsonValue::Obj(es) => match (
            s_field(es@, "amount"@, |x: JsonValue| spec_money(x)),
            s_opt_field(es@, "boostPortion"@, |x: JsonValue| spec_money(x)),
        ) {
            (Some(amount), Some(boost_portion)) => Some(RoundUpObject { amount, boost_portion }),
            _ => None,
        },
        _ => None,
    }
}

impl Decodable for RoundUpObject {
    open spec fn decode_ok(v: JsonValue) -> bool {
        spec_round_up(v) is Some
    }

    open spec fn decode_rel(v: JsonValue, t: Self) -> bool {
        spec_round_up(v) == Some(t)
    }

    fn decode(v: &JsonValue) -> (r: Option<Self>) {
        match v {
            JsonValue::Obj(es) => {
                let amount = match get(es, "amount") {
                    Some(av) => match MoneyObject::decode(av) {
                        Some(m) => m,
                        None => { return None; },
                    },
                    None => { return None; },
                };
                let boost_portion = match get(es, "boostPortion") {
                    None => None,
                    Some(JsonValue::Null) => None,
                    Some(bv) => match MoneyObject::decode(bv) {
                        Some(m) => Some(m),
                        None => { return None; },
                    },
                };
                Some(RoundUpObject { amount, boost_portion })
            },
            _ => None,
        }
    }
}

/// An instant reimbursement paid as cashback.
#[derive(Debug, Clone, PartialEq)]
pub struct CashBackObject {
    /// A brief description of why this cashback was paid.
    pub description: String,
    /// The total amount of cashback paid, as a positive value.
    pub amount: MoneyObject,
}

pub open spec fn spec_cash_back(v: JsonValue) -> Option<CashBackObject> {
    match v {
        JsonValue::Obj(es) => match (
            s_str(es@, "description"@),
            s_field(es@, "amount"@, |x: JsonValue| spec_money(x)),
        ) {
            (Some(description), Some(amount)) => Some(CashBackObject { description, amount }),
            _ => None,
        },
        _ => None,
    }
}

impl Decodable for CashBackObject {
    open spec fn decode_ok(v: JsonValue) -> bool {
        spec_cash_back(v) is Some
    }

    open spec fn decode_rel(v: JsonValue, t: Self) -> bool {
        spec_cash_back(v) == Some(t)
    }

    fn decode(v: &JsonValue) -> (r: Option<Self>) {
        match v {
            JsonValue::Obj(es) => {
                let description = match f_str(es, "description") {
                    Some(s) => s,
                    None => { return None; },
                };
                let amount = match get(es, "amount") {
                    Some(av) => match MoneyObject::decode(av) {
                        Some(m) => m,
                        None => { return None; },
                    },
                    None => { return None; },
                };
                Some(CashBackObject { description, amount })
            },
            _ => None,
        }
    }
}

/// The ways a card purchase can be made.
#[derive(Debug, Clone, Copy, PartialEq, Eq, Structural)]
pub enum CardPurchaseMethodEnum {
    BarCode,
    OCR,
    CardPin,
    CardDetails,
    CardOnFile,
    ECommerce,
    MagneticStripe,
    Contactless,
}

pub open spec fn spec_card_purchase_method(v: JsonValue) -> Option<CardPurchaseMethodEnum> {
    match v {
        JsonValue::Str(s) => if s@ == "BAR_CODE"@ {
            Some(CardPurchaseMethodEnum::BarCode)
        } else if s@ == "OCR"@ {
            Some(CardPurchaseMethodEnum::OCR)
        } else if s@ == "CARD_PIN"@ {
            Some(CardPurchaseMethodEnum::CardPin)
        } else if s@ == "CARD_DETAILS"@ {
            Some(CardPurchaseMethodEnum::CardDetails)
        } else if s@ == "CARD_ON_FILE"@ {
            Some(CardPurchaseMethodEnum::CardOnFile)
        } else if s@ == "ECOMMERCE"@ {
            Some(CardPurchaseMethodEnum::ECommerce)
        } else if s@ == "MAGNETIC_STRIPE"@ {
            Some(CardPurchaseMethodEnum::MagneticStripe)
        } else if s@ == "CONTACTLESS"@ {
            Some(CardPurchaseMethodEnum::Contactless)
        } else {
            None
        },
        _ => None,
    }
}

impl Decodable for CardPurchaseMethodEnum {
    open spec fn decode_ok(v: JsonValue) -> bool {
        spec_card_purchase_method(v) is Some
    }

    open spec fn decode_rel(v: JsonValue, t: Self) -> bool {
        spec_card_purchase_method(v) == Some(t)
    }

    fn decode(v: &JsonValue) -> (r: Option<Self>) {
        match v {
            JsonValue::Str(s) => if str_eq(s.as_str(), "BAR_CODE") {
                Some(CardPurchaseMethodEnum::BarCode)
            } else if str_eq(s.as_str(), "OCR") {
                Some(CardPurchaseMethodEnum::OCR)
            } else if str_eq(s.as_str(), "CARD_PIN") {
                Some(CardPurchaseMethodEnum::CardPin)
            } else if str_eq(s.as_str(), "CARD_DETAILS") {
                Some(CardPurchaseMethodEnum::CardDetails)
            } else if str_eq(s.as_str(), "CARD_ON_FILE") {
                Some(CardPurchaseMethodEnum::CardOnFile)
            } else if str_eq(s.as_str(), "ECOMMERCE") {
                Some(CardPurchaseMethodEnum::ECommerce)
            } else if str_eq(s.as_str(), "MAGNETIC_STRIPE") {
                Some(CardPurchaseMethodEnum::MagneticStripe)
            } else if str_eq(s.as_str(), "CONTACTLESS") {
                Some(CardPurchaseMethodEnum::Contactless)
            } else {
                None
            },
            _ => None,
        }
    }
}

/// How a card purchase was made, and with which card.
#[derive(Debug, Clone, PartialEq)]
pub struct CardPurchaseMethodObject {
    /// The type of card purchase.
    pub method: CardPurchaseMethodEnum,
    /// The last four digits of the card used for the purchase, if
    /// applicable (the wire field `cardNumberSuffix`).
    pub card_number_suffix: Option<String>,
}

pub open spec fn spec_card_purchase(v: JsonValue) -> Option<CardPurchaseMethodObject> {
    match v {
        JsonValue::Obj(es) => match (
            s_field(es@, "method"@, |x: JsonValue| spec_card_purchase_method(x)),
            s_opt_str(es@, "cardNumberSuffix"@),
        ) {
            (Some(method), Some(card_number_suffix)) => Some(
                CardPurchaseMethodObject { method, card_number_suffix },
            ),
            _ => None,
        },
        _ => None,
    }
}

impl Decodable for CardPurchaseMethodObject {
    open spec fn decode_ok(v: JsonValue) -> bool {
        spec_card_purchase(v) is Some
    }

    open spec fn decode_rel(v: JsonValue, t: Self) -> bool {
        spec_card_purchase(v) == Some(t)
    }

    fn decode(v: &JsonValue) -> (r: Option<Self>) {
        match v {
            JsonValue::Obj(es) => {
                let method = match get(es, "method") {
                    Some(mv) => match CardPurchaseMethodEnum::decode(mv) {
                        Some(m) => m,
                        None => { return None; },
                    },
                    None => { return None; },
                };
                let card_number_suffix = match f_opt_str(es, "cardNumberSuffix") {
                    Some(x) => x,
                    None => { return None; },
                };
                Some(CardPurchaseMethodObject { method, card_number_suffix })
            },
            _ => None,
        }
    }
}

/// The kinds of event a webhook is sent.
#[derive(Debug, Clone, Copy, PartialEq, Eq, Structural)]
pub enum WebhookEventTypeEnum {
    TransactionCreated,
    TransactionSettled,
    TransactionDeleted,
    Ping,
}

pub open spec fn spec_webhook_event_type(v: JsonValue) -> Option<WebhookEventTypeEnum> {
    match v {
        JsonValue::Str(s) => if s@ == "TRANSACTION_CREATED"@ {
            Some(WebhookEventTypeEnum::TransactionCreated)
        } else if s@ == "TRANSACTION_SETTLED"@ {
            Some(WebhookEventTypeEnum::TransactionSettled)
        } else if s@ == "TRANSACTION_DELETED"@ {
            Some(WebhookEventTypeEnum::TransactionDeleted)
        } else if s@ == "PING"@ {
            Some(WebhookEventTypeEnum::Ping)
        } else {
            None
        },
        _ => None,
    }
}

impl Decodable for WebhookEventTypeEnum {
    open spec fn decode_ok(v: JsonValue) -> bool {
        spec_webhook_event_type(v) is Some
    }

    open spec fn decode_rel(v: JsonValue, t: Self) -> bool {
        spec_webhook_event_type(v) == Some(t)
    }

    fn decode(v: &JsonValue) -> (r: Option<Self>) {
        match v {
            JsonValue::Str(s) => if str_eq(s.as_str(), "TRANSACTION_CREATED") {
                Some(WebhookEventTypeEnum::TransactionCreated)
            } else if str_eq(s.as_str(), "TRANSACTION_SETTLED") {
                Some(WebhookEventTypeEnum::TransactionSettled)
            } else if str_eq(s.as_str(), "TRANSACTION_DELETED") {
                Some(WebhookEventTypeEnum::TransactionDeleted)
            } else if str_eq(s.as_str(), "PING") {
                Some(WebhookEventTypeEnum::Ping)
            } else {
                None
            },
            _ => None,
        }
    }
}

/// The outcomes of one webhook delivery attempt.
#[derive(Debug, Clone, Copy, PartialEq, Eq, Structural)]
pub enum WebhookDeliveryStatusEnum {
    Delivered,
    Undeliverable,
    BadResponseCode,
}

pub open spec fn spec_webhook_delivery_status(v: JsonValue) -> Option<WebhookDeliveryStatusEnum> {
    match v {
        JsonValue::Str(s) => if s@ == "DELIVERED"@ {
            Some(WebhookDeliveryStatusEnum::Delivered)
        } else if s@ == "UNDELIVERABLE"@ {
            Some(WebhookDeliveryStatusEnum::Undeliverable)
        } else if s@ == "BAD_RESPONSE_CODE"@ {
            Some(WebhookDeliveryStatusEnum::BadResponseCode)
        } else {
            None
        },
        _ => None,
    }
}

impl Decodable for WebhookDeliveryStatusEnum {
    open spec fn decode_ok(v: JsonValue) -> bool {
        spec_webhook_delivery_status(v) is Some
    }

    open spec fn decode_rel(v: JsonValue, t: Self) -> bool {
        spec_webhook_delivery_status(v) == Some(t)
    }

    fn decode(v: &JsonValue) -> (r: Option<Self>) {
        match v {
            JsonValue::Str(s) => if str_eq(s.as_str(), "DELIVERED") {
                Some(WebhookDeliveryStatusEnum::Delivered)
            } else if str_eq(s.as_str(), "UNDELIVERABLE") {
                Some(WebhookDeliveryStatusEnum::Undeliverable)
            } else if str_eq(s.as_str(), "BAD_RESPONSE_CODE") {
                Some(WebhookDeliveryStatusEnum::BadResponseCode)
            } else {
                None
            },
            _ => None,
        }
    }
}

} // verus!
