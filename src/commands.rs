//! The commands this library serves, and how each one's output is encoded.
use vstd::prelude::*;

use crate::json::{string_of, JsonValue};

verus! {

/// `Hello `, an optional formal address, the name, and `!`.
pub open spec fn greeting_text(name: Seq<char>, is_formal: bool) -> Seq<char> {
    "Hello "@ + (if is_formal {
        "Mr/Ms "@
    } else {
        Seq::<char>::empty()
    }) + name + "!"@
}

/// The plain greeting of one name.
pub open spec fn hello_text(name: Seq<char>) -> Seq<char> {
    "Hello "@ + name + "!"@
}

/// The acknowledgement of a present value.
pub open spec fn got_text(value: Seq<char>) -> Seq<char> {
    "Got: "@ + value
}

/// The refusal of a color name that is not known.
pub open spec fn unsupported_color_text(name: Seq<char>) -> Seq<char> {
    name + " is not a supported color"@
}

/// The greeting given once a delay is over.
pub open spec fn delayed_hello_text(name: Seq<char>) -> Seq<char> {
    "... Hello "@ + name + "!"@
}

/// Settles a delayed greeting: a negative duration is refused before any
/// wait; otherwise, once the wait is over, `name` is greeted.
pub fn delayed_greeting(name: String, seconds_negative: bool) -> (r: Result<String, String>)
    ensures
        seconds_negative ==> r is Err && r->Err_0@ == "Seconds must be non-negative"@,
        !seconds_negative ==> r is Ok && r->Ok_0@ == delayed_hello_text(name@),
{
    if seconds_negative {
        return Err("Seconds must be non-negative".to_owned());
    }
    let mut s = "... Hello ".to_owned();
    s.append(name.as_str());
    s.append("!");
    Ok(s)
}

/// Does nothing; its output is encoded as `null`.
pub fn noop() {
}

/// Greets `name`, formally when `is_formal` holds.
pub fn greeting(name: String, is_formal: bool) -> (r: String)
    ensures
        r@ == greeting_text(name@, is_formal),
{
    let mut s = "Hello ".to_owned();
    if is_formal {
        s.append("Mr/Ms ");
    }
    s.append(name.as_str());
    s.append("!");
    s
}

/// Greets one name.
fn hello(name: &String) -> (r: String)
    ensures
        r@ == hello_text(name@),
{
    let mut s = "Hello ".to_owned();
    s.append(name.as_str());
    s.append("!");
    s
}

/// Greets each name, in order.
pub fn greetings(names: Vec<String>) -> (r: Vec<String>)
    ensures
        r@.len() == names@.len(),
        forall|i: int| 0 <= i < names@.len() ==> (#[trigger] r@[i])@ == hello_text(names@[i]@),
{
    let mut out: Vec<String> = Vec::new();
    let mut i: usize = 0;
    while i < names.len()
        invariant
            i <= names@.len(),
            out@.len() == i,
            forall|j: int| 0 <= j < i ==> (#[trigger] out@[j])@ == hello_text(names@[j]@),
        decreases names@.len() - i,
    {
        out.push(hello(&names[i]));
        i = i + 1;
    }
    out
}

/// Acknowledges a value when one is given, and gives nothing otherwise.
pub fn optionals(value: Option<String>) -> (r: Option<String>)
    ensures
        r is Some <==> value is Some,
        r is Some ==> r->0@ == got_text(value->0@),
{
    match value {
        Some(v) => {
            let s = "Got: ".to_owned();
            Some(s.concat(v.as_str()))
        },
        None => None,
    }
}

/// A color whose channels are each fully on or fully off.
#[derive(Debug, Clone, Copy, PartialEq, Eq, Structural)]
pub struct Color {
    pub red: bool,
    pub green: bool,
    pub blue: bool,
}

/// The color that a supported name stands for.
pub open spec fn color_named(name: Seq<char>) -> Option<Color> {
    if name == "red"@ {
        Some(Color { red: true, green: false, blue: false })
    } else if name == "green"@ {
        Some(Color { red: false, green: true, blue: false })
    } else if name == "blue"@ {
        Some(Color { red: false, green: false, blue: true })
    } else {
        None
    }
}

/// Picks the color named `name`: red, green or blue; any other name is refused.
pub fn pick_color(name: String) -> (r: Result<Color, String>)
    ensures
        color_named(name@) is Some ==> r == Ok::<Color, String>(color_named(name@)->0),
        color_named(name@) is None ==> r is Err && r->Err_0@ == unsupported_color_text(name@),
{
    if name == "red".to_owned() {
        Ok(Color { red: true, green: false, blue: false })
    } else if name == "green".to_owned() {
        Ok(Color { red: false, green: true, blue: false })
    } else if name == "blue".to_owned() {
        Ok(Color { red: false, green: false, blue: true })
    } else {
        Err(name.concat(" is not a supported color"))
    }
}

/// The JSON number text of a channel: `1.0` when on, `0.0` when off.
pub open spec fn channel_text(on: bool) -> Seq<char> {
    if on {
        "1.0"@
    } else {
        "0.0"@
    }
}

/// Whether `f` is the member `key` with the number `text`.
pub open spec fn is_number_member(f: (String, JsonValue), key: Seq<char>, text: Seq<char>) -> bool {
    &&& f.0@ == key
    &&& f.1 matches JsonValue::Number(t)
    &&& t@ == text
}

/// Whether `v` is the JSON object of `c`: members red, green and blue, in that order.
pub open spec fn is_color_json(v: JsonValue, c: Color) -> bool {
    &&& v matches JsonValue::Object(members)
    &&& members@.len() == 3
    &&& is_number_member(members@[0], "red"@, channel_text(c.red))
    &&& is_number_member(members@[1], "green"@, channel_text(c.green))
    &&& is_number_member(members@[2], "blue"@, channel_text(c.blue))
}

fn channel_json(on: bool) -> (r: JsonValue)
    ensures
        r matches JsonValue::Number(t) && t@ == channel_text(on),
{
    if on {
        JsonValue::Number("1.0".to_owned())
    } else {
        JsonValue::Number("0.0".to_owned())
    }
}

/// Encodes a color as a JSON object.
pub fn encode_color(c: Color) -> (r: JsonValue)
    ensures
        is_color_json(r, c),
{
    let mut members: Vec<(String, JsonValue)> = Vec::new();
    members.push(("red".to_owned(), channel_json(c.red)));
    members.push(("green".to_owned(), channel_json(c.green)));
    members.push(("blue".to_owned(), channel_json(c.blue)));
    JsonValue::Object(members)
}

/// Whether `v` is the JSON array of the strings `texts`, in order.
pub open spec fn is_string_array(v: JsonValue, texts: Seq<Seq<char>>) -> bool {
    &&& v matches JsonValue::Array(items)
    &&& items@.len() == texts.len()
    &&& forall|i: int| 0 <= i < texts.len() ==> string_of(#[trigger] items@[i]) == Some(texts[i])
}

/// Encodes a list of strings as a JSON array.
pub fn encode_strings(texts: Vec<String>) -> (r: JsonValue)
    ensures
        is_string_array(r, texts@.map_values(|s: String| s@)),
{
    let mut items: Vec<JsonValue> = Vec::new();
    let mut i: usize = 0;
    while i < texts.len()
        invariant
            i <= texts@.len(),
            items@.len() == i,
            forall|j: int| 0 <= j < i ==> string_of(#[trigger] items@[j]) == Some(texts@[j]@),
        decreases texts@.len() - i,
    {
        items.push(JsonValue::Str(texts[i].clone()));
        i = i + 1;
    }
    JsonValue::Array(items)
}

/// Encodes an optional string: `null` when absent.
pub fn encode_optional(value: Option<String>) -> (r: JsonValue)
    ensures
        value is None ==> r is Null,
        value is Some ==> string_of(r) == Some(value->0@),
{
    match value {
        Some(s) => JsonValue::Str(s),
        None => JsonValue::Null,
    }
}

} // verus!
