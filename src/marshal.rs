//! Turning positional JSON arguments into the typed values a command declares.
use vstd::prelude::*;

use crate::error::RaycastError;
use crate::json::{string_of, JsonValue};

verus! {

/// The declared type of one parameter.
#[derive(Clone, Copy, PartialEq, Eq, Structural)]
pub enum ParamKind {
    /// A string.
    Text,
    /// A boolean.
    Flag,
    /// An array of strings.
    TextList,
    /// A string or `null`.
    OptionalText,
    /// A JSON number, kept as its text.
    Number,
}

/// One declared parameter: its name, for error reports, and its type.
pub struct Param {
    pub name: String,
    pub kind: ParamKind,
}

/// A decoded argument.
pub enum Arg {
    Text(String),
    Flag(bool),
    TextList(Vec<String>),
    OptionalText(Option<String>),
    Number(String),
}

/// What a decoded argument holds.
pub enum ArgModel {
    Text(Seq<char>),
    Flag(bool),
    TextList(Seq<Seq<char>>),
    OptionalText(Option<Seq<char>>),
    Number(Seq<char>),
}

impl View for Arg {
    type V = ArgModel;

    open spec fn view(&self) -> ArgModel {
        match self {
            Arg::Text(s) => ArgModel::Text(s@),
            Arg::Flag(b) => ArgModel::Flag(*b),
            Arg::TextList(v) => ArgModel::TextList(v@.map_values(|s: String| s@)),
            Arg::OptionalText(o) => ArgModel::OptionalText(
                match o {
                    Some(s) => Some(s@),
                    None => None,
                },
            ),
            Arg::Number(t) => ArgModel::Number(t@),
        }
    }
}

/// Whether every item of a JSON array is a string.
pub open spec fn all_strings(items: Seq<JsonValue>) -> bool {
    forall|i: int| 0 <= i < items.len() ==> (#[trigger] items[i]) is Str
}

/// What `v` decodes to as a parameter of type `kind`, or `None` where its
/// shape is wrong. `null` is the absent value of an optional string; an
/// array of strings decodes item by item.
pub open spec fn decode_spec(kind: ParamKind, v: JsonValue) -> Option<ArgModel> {
    match kind {
        ParamKind::Text => match v {
            JsonValue::Str(s) => Some(ArgModel::Text(s@)),
            _ => None,
        },
        ParamKind::Flag => match v {
            JsonValue::Bool(b) => Some(ArgModel::Flag(b)),
            _ => None,
        },
        ParamKind::TextList => match v {
            JsonValue::Array(items) => if all_strings(items@) {
                Some(ArgModel::TextList(items@.map_values(|x: JsonValue| string_of(x)->0)))
            } else {
                None
            },
            _ => None,
        },
        ParamKind::OptionalText => match v {
            JsonValue::Null => Some(ArgModel::OptionalText(None)),
            JsonValue::Str(s) => Some(ArgModel::OptionalText(Some(s@))),
            _ => None,
        },
        ParamKind::Number => match v {
            JsonValue::Number(t) => Some(ArgModel::Number(t@)),
            _ => None,
        },
    }
}

/// Decodes an array whose items are all strings.
fn decode_string_list(items: &Vec<JsonValue>) -> (r: Option<Vec<String>>)
    ensures
        r is Some <==> all_strings(items@),
        r is Some ==> r->0@.map_values(|s: String| s@) =~= items@.map_values(
            |x: JsonValue| string_of(x)->0,
        ),
{
    let mut out: Vec<String> = Vec::new();
    let mut i: usize = 0;
    while i < items.len()
        invariant
            i <= items@.len(),
            out@.len() == i,
            forall|j: int| 0 <= j < i ==> (#[trigger] items@[j]) is Str,
            forall|j: int| 0 <= j < i ==> (#[trigger] out@[j])@ == string_of(items@[j])->0,
        decreases items@.len() - i,
    {
        match &items[i] {
            JsonValue::Str(s) => {
                out.push(s.clone());
            },
            _ => {
                return None;
            },
        }
        i = i + 1;
    }
    Some(out)
}

/// Decodes one argument as a parameter of type `kind`.
pub fn decode_argument(kind: ParamKind, v: &JsonValue) -> (r: Option<Arg>)
    ensures
        r is Some <==> decode_spec(kind, *v) is Some,
        r is Some ==> r->0@ == decode_spec(kind, *v)->0,
{
    match kind {
        ParamKind::Text => match v {
            JsonValue::Str(s) => Some(Arg::Text(s.clone())),
            _ => None,
        },
        ParamKind::Flag => match v {
            JsonValue::Bool(b) => Some(Arg::Flag(*b)),
            _ => None,
        },
        ParamKind::TextList => match v {
            JsonValue::Array(items) => match decode_string_list(items) {
                Some(list) => Some(Arg::TextList(list)),
                None => None,
            },
            _ => None,
        },
        ParamKind::OptionalText => match v {
            JsonValue::Null => Some(Arg::OptionalText(None)),
            JsonValue::Str(s) => Some(Arg::OptionalText(Some(s.clone()))),
            _ => None,
        },
        ParamKind::Number => match v {
            JsonValue::Number(t) => Some(Arg::Number(t.clone())),
            _ => None,
        },
    }
}

/// Describes the type a parameter of kind `kind` expects, for decoding errors.
fn expected_description(kind: ParamKind) -> (r: String) {
    match kind {
        ParamKind::Text => "invalid type: expected a string".to_owned(),
        ParamKind::Flag => "invalid type: expected a boolean".to_owned(),
        ParamKind::TextList => "invalid type: expected a sequence of strings".to_owned(),
        ParamKind::OptionalText => "invalid type: expected a string or null".to_owned(),
        ParamKind::Number => "invalid type: expected a number".to_owned(),
    }
}

/// The kinds of a parameter list.
pub open spec fn kinds_of(params: Seq<Param>) -> Seq<ParamKind> {
    params.map_values(|p: Param| p.kind)
}

/// Whether every argument decodes as its parameter's type (counts equal).
pub open spec fn all_decode(kinds: Seq<ParamKind>, args: Seq<JsonValue>) -> bool {
    &&& args.len() == kinds.len()
    &&& forall|i: int| 0 <= i < kinds.len() ==> (#[trigger] decode_spec(kinds[i], args[i])) is Some
}

/// Whether `i` is the first position whose argument does not decode.
pub open spec fn first_bad_position(kinds: Seq<ParamKind>, args: Seq<JsonValue>, i: int) -> bool {
    &&& 0 <= i < kinds.len()
    &&& i < args.len()
    &&& decode_spec(kinds[i], args[i]) is None
    &&& forall|j: int| 0 <= j < i ==> (#[trigger] decode_spec(kinds[j], args[j])) is Some
}

/// Whether `decoded` holds the decoding of each argument, in declared order.
pub open spec fn decoded_as(kinds: Seq<ParamKind>, args: Seq<JsonValue>, decoded: Seq<Arg>) -> bool {
    &&& decoded.len() == kinds.len()
    &&& forall|i: int|
        0 <= i < kinds.len() ==> (#[trigger] decoded[i])@ == decode_spec(kinds[i], args[i])->0
}

/// Decodes the arguments of a call to `function` against its parameters.
/// The count is checked first; then positions are decoded from the first
/// on, and the first that fails is reported, the rest left unexamined.
pub fn marshal(function: &str, params: &Vec<Param>, args: &Vec<JsonValue>) -> (r: Result<
    Vec<Arg>,
    RaycastError,
>)
    ensures
        r is Ok <==> all_decode(kinds_of(params@), args@),
        r is Ok ==> decoded_as(kinds_of(params@), args@, r->Ok_0@),
        args@.len() != params@.len() ==> r is Err && r->Err_0.is_count_mismatch(
            function@,
            params@.len(),
            args@.len(),
        ),
        forall|i: int|
            args@.len() == params@.len() && first_bad_position(kinds_of(params@), args@, i)
                ==> r is Err && r->Err_0.is_decoding_error(function@, params@[i].name@, i as nat),
{
    if args.len() != params.len() {
        return Err(
            RaycastError::ArgumentCountMismatch {
                function: function.to_owned(),
                expected: params.len(),
                actual: args.len(),
            },
        );
    }
    let ghost kinds = kinds_of(params@);
    let mut out: Vec<Arg> = Vec::new();
    let mut i: usize = 0;
    while i < params.len()
        invariant
            args@.len() == params@.len(),
            kinds == kinds_of(params@),
            i <= params@.len(),
            out@.len() == i,
            forall|j: int| 0 <= j < i ==> (#[trigger] decode_spec(kinds[j], args@[j])) is Some,
            forall|j: int| 0 <= j < i ==> (#[trigger] out@[j])@ == decode_spec(kinds[j], args@[j])->0,
        decreases params@.len() - i,
    {
        let param = &params[i];
        if i >= args.len() {
            return Err(
                RaycastError::MissingArgument {
                    function: function.to_owned(),
                    parameter: param.name.clone(),
                    position: i,
                },
            );
        }
        assert(kinds[i as int] == param.kind);
        match decode_argument(param.kind, &args[i]) {
            Some(a) => {
                out.push(a);
            },
            None => {
                proof {
                    assert forall|k: int| first_bad_position(kinds, args@, k) implies k == i by {
                        if k < i {
                        } else if k > i {
                            assert(decode_spec(kinds[i as int], args@[i as int]) is Some);
                        }
                    }
                }
                return Err(
                    RaycastError::DecodingError {
                        function: function.to_owned(),
                        parameter: param.name.clone(),
                        position: i,
                        error: expected_description(param.kind),
                    },
                );
            },
        }
        i = i + 1;
    }
    Ok(out)
}

} // verus!
