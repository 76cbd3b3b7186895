//! JSON values, as far as they are looked into.

use crate::text::opt_text;
use vstd::prelude::*;

verus! {

/// `serde_json::Map`, a JSON object.
#[verifier::external_type_specification]
#[verifier::external_body]
#[verifier::reject_recursive_types(K)]
#[verifier::reject_recursive_types(V)]
pub struct ExJsonMap<K, V>(serde_json::Map<K, V>);

/// `serde_json::Value`, a JSON value.
#[verifier::external_type_specification]
#[verifier::external_body]
pub struct ExJsonValue(serde_json::Value);

/// What a JSON value is shown as. A value with parts, and a number, is there as it is
/// written.
pub enum Cell {
    Nothing,
    Text(Seq<char>),
    Truth(bool),
    Written(Seq<char>),
}

/// What was read out of a JSON value.
pub enum CellValue {
    Nothing,
    Text(String),
    Truth(bool),
    Written(String),
}

impl CellValue {
    pub open spec fn view(&self) -> Cell {
        match self {
            CellValue::Nothing => Cell::Nothing,
            CellValue::Text(text) => Cell::Text(text@),
            CellValue::Truth(truth) => Cell::Truth(*truth),
            CellValue::Written(text) => Cell::Written(text@),
        }
    }
}

/// The variants of a JSON value that are looked into. A number, an array and an object are
/// not told apart.
pub enum Kind {
    Nothing,
    Text(Seq<char>),
    Truth(bool),
    Other,
}

enum KindValue {
    Nothing,
    Text(String),
    Truth(bool),
    Other,
}

impl KindValue {
    spec fn view(&self) -> Kind {
        match self {
            KindValue::Nothing => Kind::Nothing,
            KindValue::Text(text) => Kind::Text(text@),
            KindValue::Truth(truth) => Kind::Truth(*truth),
            KindValue::Other => Kind::Other,
        }
    }
}

/// Which variant of `serde_json::Value` a value is.
pub uninterp spec fn kind_of(value: serde_json::Value) -> Kind;

/// Tells the variants of `serde_json::Value` apart, and gives the text or the truth value
/// that is in one.
#[verifier::external_body]
fn read_kind(value: &serde_json::Value) -> (kind: KindValue)
    ensures
        kind@ == kind_of(*value),
{
    match value {
        serde_json::Value::Null => KindValue::Nothing,
        serde_json::Value::String(text) => KindValue::Text(text.clone()),
        serde_json::Value::Bool(truth) => KindValue::Truth(*truth),
        serde_json::Value::Number(_) => KindValue::Other,
        serde_json::Value::Array(_) => KindValue::Other,
        serde_json::Value::Object(_) => KindValue::Other,
    }
}

/// What `serde_json::Value::to_string` writes.
pub uninterp spec fn written_as(value: serde_json::Value) -> Seq<char>;

/// `serde_json::Value::to_string` writes a value as compact JSON. Nothing is said of what
/// that looks like.
#[verifier::external_body]
fn write_value(value: &serde_json::Value) -> (text: String)
    ensures
        text@ == written_as(*value),
{
    value.to_string()
}

/// What a JSON value is shown as: nothing, a text, a truth value, or as it is written.
pub open spec fn cell_in(value: serde_json::Value) -> Cell {
    match kind_of(value) {
        Kind::Nothing => Cell::Nothing,
        Kind::Text(text) => Cell::Text(text),
        Kind::Truth(truth) => Cell::Truth(truth),
        Kind::Other => Cell::Written(written_as(value)),
    }
}

pub(crate) fn read_cell(value: &serde_json::Value) -> (cell: CellValue)
    ensures
        cell@ == cell_in(*value),
{
    match read_kind(value) {
        KindValue::Nothing => CellValue::Nothing,
        KindValue::Text(text) => CellValue::Text(text),
        KindValue::Truth(truth) => CellValue::Truth(truth),
        KindValue::Other => CellValue::Written(write_value(value)),
    }
}

/// The field of a JSON object that has the given name. A value that is no object has no
/// fields.
pub uninterp spec fn field_of(value: serde_json::Value, name: Seq<char>) -> Option<
    serde_json::Value,
>;

/// `serde_json::Value::get` with a name: the field of that name where the value is an
/// object and has one.
#[verifier::external_body]
fn field<'a>(value: &'a serde_json::Value, name: &str) -> (found: Option<&'a serde_json::Value>)
    ensures
        match (found, field_of(*value, name@)) {
            (Some(found), Some(expected)) => *found == expected,
            (None, None) => true,
            _ => false,
        },
{
    value.get(name)
}

/// The text that a JSON value is, where it is one.
pub open spec fn text_of(cell: Cell) -> Option<Seq<char>> {
    match cell {
        Cell::Text(text) => Some(text),
        _ => None,
    }
}

/// The text under a name.
pub open spec fn text_under(value: serde_json::Value, name: Seq<char>) -> Option<Seq<char>> {
    match field_of(value, name) {
        Some(found) => text_of(cell_in(found)),
        None => None,
    }
}

/// The text under a name that stands under another.
pub open spec fn text_within(value: serde_json::Value, outer: Seq<char>, name: Seq<char>) -> Option<
    Seq<char>,
> {
    match field_of(value, outer) {
        Some(found) => text_under(found, name),
        None => None,
    }
}

pub(crate) fn read_text(value: &serde_json::Value, name: &str) -> (text: Option<String>)
    ensures
        opt_text(text) == text_under(*value, name@),
{
    match field(value, name) {
        Some(found) => match read_cell(found) {
            CellValue::Text(text) => Some(text),
            _ => None,
        },
        None => None,
    }
}

pub(crate) fn read_text_within(value: &serde_json::Value, outer: &str, name: &str) -> (text: Option<
    String,
>)
    ensures
        opt_text(text) == text_within(*value, outer@, name@),
{
    match field(value, outer) {
        Some(found) => read_text(found, name),
        None => None,
    }
}

} // verus!
