//! The library's model of a JSON document, the trusted bridge to the
//! `serde_json` parser, and the structural-decoding vocabulary shared by
//! every response shape.
//!
//! Decoding is structural: unknown fields are ignored, a required field
//! that is absent (or has the wrong type) fails the decode, and an
//! optional field that is absent or `null` decodes to "no value".

use vstd::prelude::*;

verus! {

/// A JSON document, with numbers restricted to the 64-bit integers the
/// API uses (amounts in base units, HTTP status codes).
#[derive(Debug)]
pub enum JsonValue {
    Null,
    Bool(bool),
    Int(i64),
    Str(String),
    Arr(Vec<JsonValue>),
    Obj(Vec<(String, JsonValue)>),
}

/// The document denoted by a string, or `None` when the string is not
/// valid JSON (or holds a number outside `i64`). Defined only by what
/// `parse_json` returns.
pub uninterp spec fn json_of(s: Seq<char>) -> Option<JsonValue>;

#[verifier::external_type_specification]
#[verifier::external_body]
pub struct ExSerdeValue(serde_json::Value);

/// The recursive arm of `parse_json`: maps a `serde_json` document onto the
/// library's own tree, one variant to one variant. A number that does not
/// fit in `i64` has no image. Carries no contract of its own: `parse_json`
/// is the trusted item.
#[verifier::external_body]
fn from_value(v: serde_json::Value) -> Option<JsonValue> {
    match v {
        serde_json::Value::Null => Some(JsonValue::Null),
        serde_json::Value::Bool(b) => Some(JsonValue::Bool(b)),
        serde_json::Value::Number(n) => n.as_i64().map(JsonValue::Int),
        serde_json::Value::String(s) => Some(JsonValue::Str(s)),
        serde_json::Value::Array(a) => {
            a.into_iter().map(from_value).collect::<Option<Vec<_>>>().map(JsonValue::Arr)
        },
        serde_json::Value::Object(m) => {
            m.into_iter().map(|(k, x)| from_value(x).map(|y| (k, y))).collect::<Option<Vec<_>>>().map(JsonValue::Obj)
        },
    }
}

/// Relies on `serde_json::from_str::<serde_json::Value>`: it decides which
/// strings are valid JSON and which document a valid string denotes, a
/// function of the string alone, here named `json_of`. The `Err` payload is
/// the parser's description of the failure.
#[verifier::external_body]
pub fn parse_json(s: &str) -> (r: Result<JsonValue, String>)
    ensures
        r is Ok <==> json_of(s@) is Some,
        r matches Ok(v) ==> json_of(s@) == Some(v),
{
    match serde_json::from_str::<serde_json::Value>(s) {
        Ok(v) => from_value(v).ok_or_else(|| String::from("number out of range")),
        Err(e) => Err(e.to_string()),
    }
}

/// Relies on `str`'s `PartialEq`: two string slices compare equal exactly
/// when their text is equal.
#[verifier::external_body]
pub fn str_eq(a: &str, b: &str) -> (r: bool)
    ensures
        r == (a@ == b@),
{
    a == b
}

/// The value of the first entry whose key reads `key`, if any.
pub open spec fn lookup(es: Seq<(String, JsonValue)>, key: Seq<char>) -> Option<JsonValue>
    decreases es.len(),
{
    if es.len() == 0 {
        None
    } else if es[0].0@ == key {
        Some(es[0].1)
    } else {
        lookup(es.subrange(1, es.len() as int), key)
    }
}

/// Finds the first entry of an object whose key reads `key`.
pub fn get<'a>(es: &'a Vec<(String, JsonValue)>, key: &str) -> (r: Option<&'a JsonValue>)
    ensures
        match r {
            Some(v) => lookup(es@, key@) == Some(*v),
            None => lookup(es@, key@) is None,
        },
{
    let mut idx: usize = 0;
    proof {
        assert(es@.subrange(0, es@.len() as int) =~= es@);
    }
    while idx < es.len()
        invariant
            idx <= es@.len(),
            lookup(es@, key@) == lookup(es@.subrange(idx as int, es@.len() as int), key@),
        decreases es@.len() - idx,
    {
        let pair = &es[idx];
        proof {
            assert(es@.subrange(idx as int, es@.len() as int)[0] == es@[idx as int]);
        }
        if str_eq(pair.0.as_str(), key) {
            return Some(&pair.1);
        }
        proof {
            assert(es@.subrange(idx as int, es@.len() as int).subrange(
                1,
                (es@.len() - idx) as int,
            ) =~= es@.subrange(idx as int + 1, es@.len() as int));
        }
        idx += 1;
    }
    None
}

// ---------------- field extraction, spec side ----------------

pub open spec fn as_str(v: JsonValue) -> Option<String> {
    match v {
        JsonValue::Str(s) => Some(s),
        _ => None,
    }
}

pub open spec fn as_i64(v: JsonValue) -> Option<i64> {
    match v {
        JsonValue::Int(n) => Some(n),
        _ => None,
    }
}

pub open spec fn as_bool(v: JsonValue) -> Option<bool> {
    match v {
        JsonValue::Bool(b) => Some(b),
        _ => None,
    }
}

pub open spec fn as_arr(v: JsonValue) -> Option<Seq<JsonValue>> {
    match v {
        JsonValue::Arr(a) => Some(a@),
        _ => None,
    }
}

pub open spec fn as_obj(v: JsonValue) -> Option<Seq<(String, JsonValue)>> {
    match v {
        JsonValue::Obj(es) => Some(es@),
        _ => None,
    }
}

/// A required string field: present with a string value, or the decode fails.
pub open spec fn s_str(es: Seq<(String, JsonValue)>, key: Seq<char>) -> Option<String> {
    match lookup(es, key) {
        Some(v) => as_str(v),
        None => None,
    }
}

/// A required integer field.
pub open spec fn s_i64(es: Seq<(String, JsonValue)>, key: Seq<char>) -> Option<i64> {
    match lookup(es, key) {
        Some(v) => as_i64(v),
        None => None,
    }
}

/// A required boolean field.
pub open spec fn s_bool(es: Seq<(String, JsonValue)>, key: Seq<char>) -> Option<bool> {
    match lookup(es, key) {
        Some(v) => as_bool(v),
        None => None,
    }
}

/// A required array field.
pub open spec fn s_arr(es: Seq<(String, JsonValue)>, key: Seq<char>) -> Option<Seq<JsonValue>> {
    match lookup(es, key) {
        Some(v) => as_arr(v),
        None => None,
    }
}

/// An optional string field: absent or `null` is no value, a string is a
/// value, anything else fails the decode.
pub open spec fn s_opt_str(es: Seq<(String, JsonValue)>, key: Seq<char>) -> Option<
    Option<String>,
> {
    match lookup(es, key) {
        None => Some(None),
        Some(JsonValue::Null) => Some(None),
        Some(JsonValue::Str(s)) => Some(Some(s)),
        Some(_) => None,
    }
}

/// A required sub-object decoded by `d`.
pub open spec fn s_field<T>(
    es: Seq<(String, JsonValue)>,
    key: Seq<char>,
    d: spec_fn(JsonValue) -> Option<T>,
) -> Option<T> {
    match lookup(es, key) {
        Some(v) => d(v),
        None => None,
    }
}

/// An optional sub-object decoded by `d`: absent or `null` is no value, a
/// value `d` rejects fails the decode.
pub open spec fn s_opt_field<T>(
    es: Seq<(String, JsonValue)>,
    key: Seq<char>,
    d: spec_fn(JsonValue) -> Option<T>,
) -> Option<Option<T>> {
    match lookup(es, key) {
        None => Some(None),
        Some(JsonValue::Null) => Some(None),
        Some(v) => match d(v) {
            Some(t) => Some(Some(t)),
            None => None,
        },
    }
}

// ---------------- field extraction, exec side ----------------

pub fn f_str(es: &Vec<(String, JsonValue)>, key: &str) -> (r: Option<String>)
    ensures
        r == s_str(es@, key@),
{
    match get(es, key) {
        Some(JsonValue::Str(s)) => Some(s.clone()),
        _ => None,
    }
}

pub fn f_i64(es: &Vec<(String, JsonValue)>, key: &str) -> (r: Option<i64>)
    ensures
        r == s_i64(es@, key@),
{
    match get(es, key) {
        Some(JsonValue::Int(n)) => Some(*n),
        _ => None,
    }
}

pub fn f_bool(es: &Vec<(String, JsonValue)>, key: &str) -> (r: Option<bool>)
    ensures
        r == s_bool(es@, key@),
{
    match get(es, key) {
        Some(JsonValue::Bool(b)) => Some(*b),
        _ => None,
    }
}

pub fn f_opt_str(es: &Vec<(String, JsonValue)>, key: &str) -> (r: Option<Option<String>>)
    ensures
        r == s_opt_str(es@, key@),
{
    match get(es, key) {
        None => Some(None),
        Some(JsonValue::Null) => Some(None),
        Some(JsonValue::Str(s)) => Some(Some(s.clone())),
        Some(_) => None,
    }
}

// ---------------- encoding request bodies ----------------

/// One character of a JSON string literal: quotes and backslashes are
/// escaped, control characters become `\u00XX` escapes, and every other
/// character stands for itself.
pub open spec fn esc_char(c: char) -> Seq<char> {
    if c == '"' {
        seq!['\\', '"']
    } else if c == '\\' {
        seq!['\\', '\\']
    } else if (c as u32) < 0x20 {
        seq![
            '\\',
            'u',
            '0',
            '0',
            crate::v1::query::hex_digit(((c as u32) / 16) as u8),
            crate::v1::query::hex_digit(((c as u32) % 16) as u8),
        ]
    } else {
        seq![c]
    }
}

/// The text of a JSON string literal (between its quotes) denoting `s`.
pub open spec fn json_escaped(s: Seq<char>) -> Seq<char>
    decreases s.len(),
{
    if s.len() == 0 {
        Seq::empty()
    } else {
        esc_char(s[0]) + json_escaped(s.subrange(1, s.len() as int))
    }
}

pub proof fn lemma_esc_concat(a: Seq<char>, b: Seq<char>)
    ensures
        json_escaped(a + b) == json_escaped(a) + json_escaped(b),
    decreases a.len(),
{
    if a.len() == 0 {
        assert(a + b =~= b);
        assert(json_escaped(a) + json_escaped(b) =~= json_escaped(b));
    } else {
        lemma_esc_concat(a.subrange(1, a.len() as int), b);
        assert((a + b).subrange(1, (a + b).len() as int) =~= a.subrange(1, a.len() as int) + b);
        assert((a + b)[0] == a[0]);
        assert(esc_char(a[0]) + (json_escaped(a.subrange(1, a.len() as int)) + json_escaped(b))
            =~= (esc_char(a[0]) + json_escaped(a.subrange(1, a.len() as int))) + json_escaped(b));
    }
}

proof fn lemma_esc_singleton(c: char)
    ensures
        json_escaped(seq![c]) == esc_char(c),
{
    assert(seq![c].len() == 1);
    assert(seq![c][0] == c);
    assert(seq![c].subrange(1, 1) =~= Seq::<char>::empty());
    assert(json_escaped(seq![c]) == esc_char(c) + json_escaped(seq![c].subrange(1, 1)));
    assert(esc_char(c) + json_escaped(Seq::<char>::empty()) =~= esc_char(c));
}

/// Appends `s`, escaped as the inside of a JSON string literal, to `out`.
pub fn append_json_escaped(out: &mut String, s: &str)
    ensures
        final(out)@ == old(out)@ + json_escaped(s@),
{
    let n: usize = s.unicode_len();
    proof {
        assert(s@.subrange(0, 0) =~= Seq::<char>::empty());
    }
    let mut idx: usize = 0;
    while idx < n
        invariant
            idx <= n,
            n == s@.len(),
            out@ == old(out)@ + json_escaped(s@.subrange(0, idx as int)),
        decreases n - idx,
    {
        let c = s.get_char(idx);
        if c == '"' {
            crate::v1::query::push_char(out, '\\');
            crate::v1::query::push_char(out, '"');
        } else if c == '\\' {
            crate::v1::query::push_char(out, '\\');
            crate::v1::query::push_char(out, '\\');
        } else if (c as u32) < 0x20 {
            crate::v1::query::push_char(out, '\\');
            crate::v1::query::push_char(out, 'u');
            crate::v1::query::push_char(out, '0');
            crate::v1::query::push_char(out, '0');
            crate::v1::query::push_char(
                out,
                crate::v1::query::hex_digit_exec(((c as u32) / 16) as u8),
            );
            crate::v1::query::push_char(
                out,
                crate::v1::query::hex_digit_exec(((c as u32) % 16) as u8),
            );
        } else {
            crate::v1::query::push_char(out, c);
        }
        proof {
            lemma_esc_concat(s@.subrange(0, idx as int), seq![s@[idx as int]]);
            lemma_esc_singleton(s@[idx as int]);
            assert(s@.subrange(0, idx as int + 1) =~= s@.subrange(0, idx as int) + seq![
                s@[idx as int],
            ]);
            assert(out@ =~= old(out)@ + json_escaped(s@.subrange(0, idx as int + 1)));
        }
        idx += 1;
    }
    proof {
        assert(s@.subrange(0, s@.len() as int) =~= s@);
    }
}

// ---------------- structural decoding ----------------

/// A shape the classifier can decode a response body into. `decode_ok`
/// says which documents decode, `decode_rel` relates a document to its
/// decoding, and `decode` computes it.
pub trait Decodable: Sized {
    spec fn decode_ok(v: JsonValue) -> bool;

    spec fn decode_rel(v: JsonValue, t: Self) -> bool;

    fn decode(v: &JsonValue) -> (r: Option<Self>)
        ensures
            r is Some ==> Self::decode_ok(*v),
            r is None ==> !Self::decode_ok(*v),
            r matches Some(t) ==> Self::decode_rel(*v, t),
    ;
}

/// Decodes every element of a JSON array, failing if any element fails.
pub fn decode_array<T: Decodable>(a: &Vec<JsonValue>) -> (r: Option<Vec<T>>)
    ensures
        r is Some <==> (forall|i: int| 0 <= i < a@.len() ==> T::decode_ok(#[trigger] a@[i])),
        r matches Some(out) ==> out@.len() == a@.len() && (forall|i: int|
            0 <= i < a@.len() ==> T::decode_rel(a@[i], #[trigger] out@[i])),
{
    let mut out: Vec<T> = Vec::new();
    let mut idx: usize = 0;
    while idx < a.len()
        invariant
            idx <= a@.len(),
            out@.len() == idx,
            forall|i: int| 0 <= i < idx ==> T::decode_ok(#[trigger] a@[i]),
            forall|i: int| 0 <= i < idx ==> T::decode_rel(a@[i], #[trigger] out@[i]),
        decreases a@.len() - idx,
    {
        match T::decode(&a[idx]) {
            Some(t) => out.push(t),
            None => {
                assert(!T::decode_ok(a@[idx as int]));
                return None;
            },
        }
        idx += 1;
    }
    Some(out)
}

} // verus!
