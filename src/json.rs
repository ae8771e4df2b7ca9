//! The JSON values that arguments arrive as and results leave as.
use vstd::prelude::*;

verus! {

/// A JSON value. A number is held as its JSON text (`1.0`, `-3`), since the
/// dispatch rules never compute with numbers, only carry them.
#[derive(Debug)]
pub enum JsonValue {
    Null,
    Bool(bool),
    Number(String),
    Str(String),
    Array(Vec<JsonValue>),
    Object(Vec<(String, JsonValue)>),
}

/// The string that `v` decodes to, if it is a JSON string.
pub open spec fn string_of(v: JsonValue) -> Option<Seq<char>> {
    match v {
        JsonValue::Str(s) => Some(s@),
        _ => None,
    }
}

} // verus!
