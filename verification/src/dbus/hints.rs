//! Hint values of a D-Bus `Notify` call.

use crate::names::NameMap;
use vstd::prelude::*;

verus! {

/// A D-Bus variant, as far as the daemon reads one.
#[derive(Debug)]
pub enum HintValue {
    /// A byte (`y`).
    U8(u8),
    /// A signed 32-bit number (`i`).
    I32(i32),
    /// A boolean (`b`).
    Bool(bool),
    /// A string (`s`).
    Str(String),
    /// An array (`a…`).
    Array(Vec<HintValue>),
    /// A structure (`(…)`).
    Structure(Vec<HintValue>),
    /// Any other type; its content is never looked at.
    Other,
}

/// The text of a string hint.
pub open spec fn hint_text(value: HintValue) -> Option<Seq<char>> {
    match value {
        HintValue::Str(s) => Some(s@),
        _ => None,
    }
}

/// The bytes of an array hint, if every element is a byte.
pub open spec fn hint_bytes(value: HintValue) -> Option<Seq<u8>> {
    match value {
        HintValue::Array(items) => if forall|i: int| 0 <= i < items@.len() ==> items@[i] is U8 {
            Some(items@.map_values(|v: HintValue| v->U8_0))
        } else {
            None
        },
        _ => None,
    }
}

/// The number of a signed 32-bit hint.
pub fn as_i32(value: &HintValue) -> (r: Option<i32>)
    ensures
        r == (match *value {
            HintValue::I32(n) => Some(n),
            _ => None,
        }),
{
    match value {
        HintValue::I32(n) => Some(*n),
        _ => None,
    }
}

/// The value of a boolean hint.
pub fn as_bool(value: &HintValue) -> (r: Option<bool>)
    ensures
        r == (match *value {
            HintValue::Bool(b) => Some(b),
            _ => None,
        }),
{
    match value {
        HintValue::Bool(b) => Some(*b),
        _ => None,
    }
}

/// The text of a string hint.
pub fn extract_string(value: &HintValue) -> (r: Option<String>)
    ensures
        r is Some == hint_text(*value) is Some,
        r matches Some(s) ==> Some(s@) == hint_text(*value),
{
    match value {
        HintValue::Str(s) => Some(s.clone()),
        _ => None,
    }
}

/// The bytes of an array of bytes.
pub fn as_byte_array(value: &HintValue) -> (r: Option<Vec<u8>>)
    ensures
        r is Some == hint_bytes(*value) is Some,
        r matches Some(b) ==> Some(b@) == hint_bytes(*value),
{
    match value {
        HintValue::Array(items) => {
            let mut out: Vec<u8> = Vec::with_capacity(items.len());
            let mut i: usize = 0;
            while i < items.len()
                invariant
                    *value == HintValue::Array(*items),
                    i <= items@.len(),
                    out@.len() == i,
                    forall|j: int| 0 <= j < i ==> items@[j] is U8,
                    forall|j: int| 0 <= j < i ==> #[trigger] out@[j] == items@[j]->U8_0,
                decreases items@.len() - i,
            {
                match &items[i] {
                    HintValue::U8(b) => out.push(*b),
                    _ => return None,
                }
                i += 1;
            }
            assert(out@ =~= items@.map_values(|v: HintValue| v->U8_0));
            Some(out)
        },
        _ => None,
    }
}

/// The urgency level that the hints ask for: the byte under `urgency`, 1
/// (normal) if there is none.
pub open spec fn urgency_of(hints: Map<Seq<char>, HintValue>) -> u8 {
    if hints.contains_key("urgency"@) {
        match hints["urgency"@] {
            HintValue::U8(u) => u,
            _ => 1,
        }
    } else {
        1
    }
}

/// The category that the hints name: the string under `category`, empty if
/// there is none.
pub open spec fn category_of(hints: Map<Seq<char>, HintValue>) -> Seq<char> {
    if hints.contains_key("category"@) {
        match hint_text(hints["category"@]) {
            Some(text) => text,
            None => Seq::empty(),
        }
    } else {
        Seq::empty()
    }
}

/// Reads the urgency level from the hints.
pub fn urgency_hint(hints: &NameMap<HintValue>) -> (r: u8)
    ensures
        r == urgency_of(hints@),
{
    match hints.get("urgency") {
        Some(HintValue::U8(u)) => *u,
        _ => 1,
    }
}

/// Reads the category from the hints.
pub fn category_hint(hints: &NameMap<HintValue>) -> (r: String)
    ensures
        r@ == category_of(hints@),
{
    match hints.get("category") {
        Some(value) => match extract_string(value) {
            Some(text) => text,
            None => String::new(),
        },
        None => String::new(),
    }
}

/// The urgency is the byte under its name; a value of another type, or none,
/// asks for normal urgency.
pub proof fn urgency_is_a_byte(hints: Map<Seq<char>, HintValue>, urgency: u8)
    ensures
        urgency_of(hints.insert("urgency"@, HintValue::U8(urgency))) == urgency,
        urgency_of(hints.remove("urgency"@)) == 1,
        hints.contains_key("urgency"@) && !(hints["urgency"@] is U8) ==> urgency_of(hints) == 1,
{
}

/// The category is the string under its name; a value of another type, or none,
/// names no category.
pub proof fn category_is_a_string(hints: Map<Seq<char>, HintValue>, category: String)
    ensures
        category_of(hints.insert("category"@, HintValue::Str(category))) == category@,
        category_of(hints.remove("category"@)).len() == 0,
        hints.contains_key("category"@) && !(hints["category"@] is Str) ==> category_of(hints).len()
            == 0,
{
}

/// No other hint changes the urgency or the category.
pub proof fn other_hints_do_not_count(
    hints: Map<Seq<char>, HintValue>,
    name: Seq<char>,
    value: HintValue,
)
    ensures
        name != "urgency"@ ==> urgency_of(hints.insert(name, value)) == urgency_of(hints),
        name != "category"@ ==> category_of(hints.insert(name, value)) == category_of(hints),
{
}

/// A hint has bytes exactly if it is an array of bytes; they are its elements.
pub proof fn bytes_are_the_elements(value: HintValue)
    ensures
        hint_bytes(value) is Some <==> (value matches HintValue::Array(items) && forall|i: int|
            0 <= i < items@.len() ==> #[trigger] items@[i] is U8),
        hint_bytes(value) matches Some(bytes) ==> value matches HintValue::Array(items)
            && bytes.len() == items@.len() && forall|i: int|
            0 <= i < bytes.len() ==> items@[i] == HintValue::U8(#[trigger] bytes[i]),
        hint_text(value) is Some <==> value is Str,
        value matches HintValue::Str(s) ==> hint_text(value) == Some(s@),
{
}

} // verus!
