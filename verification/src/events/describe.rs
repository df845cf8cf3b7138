//! Payloads as text.

use crate::events::event::{EventData, EventType};
use crate::text::{decimal, decimal_text, digits, digits_text};
use vstd::prelude::*;
use vstd::string::StringExecFns;

verus! {

/// A truth value as text.
pub open spec fn bool_text(b: bool) -> Seq<char> {
    if b {
        "true"@
    } else {
        "false"@
    }
}

/// The text at place `i` of `texts`, or no text where there is none.
pub open spec fn text_at(texts: Seq<Seq<char>>, i: int) -> Seq<char> {
    if 0 <= i < texts.len() {
        texts[i]
    } else {
        Seq::empty()
    }
}

/// The text of a payload with one value or with a size.
pub open spec fn shown_one(head: Seq<char>, value: Seq<char>, kind: EventType) -> Seq<char> {
    head + value + ", type: "@ + kind.label()
}

/// The text of a payload with two values.
pub open spec fn shown_two(
    head: Seq<char>,
    first: Seq<char>,
    second: Seq<char>,
    kind: EventType,
) -> Seq<char> {
    head + first + ", "@ + second + ", type: "@ + kind.label()
}

fn truth(b: bool) -> (text: &'static str)
    ensures
        text@ == bool_text(b),
{
    if b {
        "true"
    } else {
        "false"
    }
}

fn one(head: &str, value: &str, kind: &EventType) -> (text: String)
    ensures
        text@ == shown_one(head@, value@, *kind),
{
    let mut text = String::from_str(head);
    text.append(value);
    text.append(", type: ");
    text.append(kind.name());
    text
}

fn two(head: &str, first: &str, second: &str, kind: &EventType) -> (text: String)
    ensures
        text@ == shown_two(head@, first@, second@, *kind),
{
    let mut text = String::from_str(head);
    text.append(first);
    text.append(", ");
    text.append(second);
    text.append(", type: ");
    text.append(kind.name());
    text
}

fn sized(head: &str, size: usize, kind: &EventType) -> (text: String)
    ensures
        text@ == shown_one(head@, digits(size as nat), *kind),
{
    let size_text = digits_text(size as u64);
    one(head, size_text.as_str(), kind)
}

fn float_at(floats: &Vec<String>, i: usize) -> (text: &str)
    ensures
        text@ == text_at(floats@.map_values(|s: String| s@), i as int),
{
    if i < floats.len() {
        floats[i].as_str()
    } else {
        proof {
            reveal_strlit("");
        }
        ""
    }
}

impl EventData {
    /// The payload as text: its shape, its values or its size, and the
    /// kind of its event. `floats` holds the decimal text of the payload's
    /// floating-point values, in order, and `path` the text of its path;
    /// a text that is not given is left empty.
    pub open spec fn described(self, floats: Seq<Seq<char>>, path: Seq<char>) -> Seq<char> {
        match self {
            EventData::Bool(x, kind) => shown_one("EventData::Bool: "@, bool_text(x), kind),
            EventData::Boolp(x, y, kind) => shown_two(
                "EventData::Boolp: "@,
                bool_text(x),
                bool_text(y),
                kind,
            ),
            EventData::Bools(x, kind) => shown_one(
                "EventData::Bools: size: "@,
                digits(x@.len()),
                kind,
            ),
            EventData::U32(x, kind) => shown_one("EventData::U32: "@, digits(x as nat), kind),
            EventData::U32p(x, y, kind) => shown_two(
                "EventData::U32p: "@,
                digits(x as nat),
                digits(y as nat),
                kind,
            ),
            EventData::U32s(x, kind) => shown_one(
                "EventData::U32s: size: "@,
                digits(x@.len()),
                kind,
            ),
            EventData::U64(x, kind) => shown_one("EventData::U64: "@, digits(x as nat), kind),
            EventData::U64p(x, y, kind) => shown_two(
                "EventData::U64p: "@,
                digits(x as nat),
                digits(y as nat),
                kind,
            ),
            EventData::U64s(x, kind) => shown_one(
                "EventData::U64s: size: "@,
                digits(x@.len()),
                kind,
            ),
            EventData::I32(x, kind) => shown_one("EventData::I32: "@, decimal(x as int), kind),
            EventData::I32p(x, y, kind) => shown_two(
                "EventData::I32p: "@,
                decimal(x as int),
                decimal(y as int),
                kind,
            ),
            EventData::I32s(x, kind) => shown_one(
                "EventData::I32s: size: "@,
                digits(x@.len()),
                kind,
            ),
            EventData::I64(x, kind) => shown_one("EventData::I64: "@, decimal(x as int), kind),
            EventData::I64p(x, y, kind) => shown_two(
                "EventData::I64p: "@,
                decimal(x as int),
                decimal(y as int),
                kind,
            ),
            EventData::I64s(x, kind) => shown_one(
                "EventData::I64s: size: "@,
                digits(x@.len()),
                kind,
            ),
            EventData::F32(_, kind) => shown_one("EventData::F32: "@, text_at(floats, 0), kind),
            EventData::F32p(_, _, kind) => shown_two(
                "EventData::F32p: "@,
                text_at(floats, 0),
                text_at(floats, 1),
                kind,
            ),
            EventData::F32s(x, kind) => shown_one(
                "EventData::F32s: size: "@,
                digits(x@.len()),
                kind,
            ),
            EventData::F64(_, kind) => shown_one("EventData::F64: "@, text_at(floats, 0), kind),
            EventData::F64p(_, _, kind) => shown_two(
                "EventData::F64p: "@,
                text_at(floats, 0),
                text_at(floats, 1),
                kind,
            ),
            EventData::F64s(x, kind) => shown_one(
                "EventData::F64s: size: "@,
                digits(x@.len()),
                kind,
            ),
            EventData::StringD(x, kind) => shown_one("EventData::StringD: "@, x@, kind),
            EventData::Strings(x, kind) => shown_one(
                "EventData::Strings: size: "@,
                digits(x@.len()),
                kind,
            ),
            EventData::PathBufD(_, kind) => shown_one("EventData::PathBufD: to_str: "@, path, kind),
            EventData::PathBufs(x, kind) => shown_one(
                "EventData::PathBufs: size: "@,
                digits(x@.len()),
                kind,
            ),
        }
    }

    /// The payload as text. `floats` holds the decimal text of the
    /// payload's floating-point values, in order, and `path` the text of
    /// its path.
    pub fn describe(&self, floats: &Vec<String>, path: &str) -> (text: String)
        ensures
            text@ == self.described(floats@.map_values(|s: String| s@), path@),
    {
        match self {
            EventData::Bool(x, kind) => one("EventData::Bool: ", truth(*x), kind),
            EventData::Boolp(x, y, kind) => two("EventData::Boolp: ", truth(*x), truth(*y), kind),
            EventData::Bools(x, kind) => sized("EventData::Bools: size: ", x.len(), kind),
            EventData::U32(x, kind) => {
                let value = digits_text(*x as u64);
                one("EventData::U32: ", value.as_str(), kind)
            },
            EventData::U32p(x, y, kind) => {
                let first = digits_text(*x as u64);
                let second = digits_text(*y as u64);
                two("EventData::U32p: ", first.as_str(), second.as_str(), kind)
            },
            EventData::U32s(x, kind) => sized("EventData::U32s: size: ", x.len(), kind),
            EventData::U64(x, kind) => {
                let value = digits_text(*x);
                one("EventData::U64: ", value.as_str(), kind)
            },
            EventData::U64p(x, y, kind) => {
                let first = digits_text(*x);
                let second = digits_text(*y);
                two("EventData::U64p: ", first.as_str(), second.as_str(), kind)
            },
            EventData::U64s(x, kind) => sized("EventData::U64s: size: ", x.len(), kind),
            EventData::I32(x, kind) => {
                let value = decimal_text(*x as i64);
                one("EventData::I32: ", value.as_str(), kind)
            },
            EventData::I32p(x, y, kind) => {
                let first = decimal_text(*x as i64);
                let second = decimal_text(*y as i64);
                two("EventData::I32p: ", first.as_str(), second.as_str(), kind)
            },
            EventData::I32s(x, kind) => sized("EventData::I32s: size: ", x.len(), kind),
            EventData::I64(x, kind) => {
                let value = decimal_text(*x);
                one("EventData::I64: ", value.as_str(), kind)
            },
            EventData::I64p(x, y, kind) => {
                let first = decimal_text(*x);
                let second = decimal_text(*y);
                two("EventData::I64p: ", first.as_str(), second.as_str(), kind)
            },
            EventData::I64s(x, kind) => sized("EventData::I64s: size: ", x.len(), kind),
            EventData::F32(_, kind) => one("EventData::F32: ", float_at(floats, 0), kind),
            EventData::F32p(_, _, kind) => two(
                "EventData::F32p: ",
                float_at(floats, 0),
                float_at(floats, 1),
                kind,
            ),
            EventData::F32s(x, kind) => sized("EventData::F32s: size: ", x.len(), kind),
            EventData::F64(_, kind) => one("EventData::F64: ", float_at(floats, 0), kind),
            EventData::F64p(_, _, kind) => two(
                "EventData::F64p: ",
                float_at(floats, 0),
                float_at(floats, 1),
                kind,
            ),
            EventData::F64s(x, kind) => sized("EventData::F64s: size: ", x.len(), kind),
            EventData::StringD(x, kind) => one("EventData::StringD: ", x.as_str(), kind),
            EventData::Strings(x, kind) => sized("EventData::Strings: size: ", x.len(), kind),
            EventData::PathBufD(_, kind) => one("EventData::PathBufD: to_str: ", path, kind),
            EventData::PathBufs(x, kind) => sized("EventData::PathBufs: size: ", x.len(), kind),
        }
    }
}

} // verus!
