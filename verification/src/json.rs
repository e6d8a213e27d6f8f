//! JSON objects as the protocol reads them.
//!
//! Both directions of the protocol exchange one flat JSON object per message:
//! a handful of named members whose values are scalars. Parsing is left to
//! `serde_json`; this module holds the members in plain values and looks
//! them up by name.

use crate::text::decimal;
use crate::text::push_char;
use crate::text::push_decimal;
use crate::text::same_text;
use serde_json::Value;
use vstd::prelude::*;

verus! {

/// The value of one member of a JSON object. Scalars keep their value; of an
/// array or a nested object only the kind is kept, since no message of the
/// protocol carries one.
#[derive(Debug, Clone, PartialEq, Eq)]
pub enum JsonValue {
    Null,
    Bool(bool),
    /// `Some(n)` for a number written as a non-negative integer that fits 64
    /// bits, `None` for every other number.
    Number(Option<u64>),
    Text(String),
    Array,
    Object,
}

/// The mathematical value of a [`JsonValue`].
pub enum JsonValueView {
    Null,
    Bool(bool),
    Number(Option<u64>),
    Text(Seq<char>),
    Array,
    Object,
}

impl View for JsonValue {
    type V = JsonValueView;

    open spec fn view(&self) -> JsonValueView {
        match *self {
            JsonValue::Null => JsonValueView::Null,
            JsonValue::Bool(b) => JsonValueView::Bool(b),
            JsonValue::Number(n) => JsonValueView::Number(n),
            JsonValue::Text(s) => JsonValueView::Text(s@),
            JsonValue::Array => JsonValueView::Array,
            JsonValue::Object => JsonValueView::Object,
        }
    }
}

/// One member of a JSON object: its name and its value.
#[derive(Debug, Clone, PartialEq, Eq)]
pub struct JsonField {
    pub name: String,
    pub value: JsonValue,
}

/// The mathematical value of a [`JsonField`].
pub struct JsonFieldView {
    pub name: Seq<char>,
    pub value: JsonValueView,
}

impl View for JsonField {
    type V = JsonFieldView;

    open spec fn view(&self) -> JsonFieldView {
        JsonFieldView { name: self.name@, value: self.value@ }
    }
}

/// The members of an object, each by its view.
pub open spec fn fields_view(fields: Seq<JsonField>) -> Seq<JsonFieldView> {
    Seq::new(fields.len(), |i: int| fields[i]@)
}

/// The value of the first member called `name`, if there is one.
pub open spec fn lookup(fields: Seq<JsonFieldView>, name: Seq<char>) -> Option<JsonValueView>
    decreases fields.len(),
{
    if fields.len() == 0 {
        None
    } else if fields[0].name == name {
        Some(fields[0].value)
    } else {
        lookup(fields.drop_first(), name)
    }
}

/// What `serde_json` makes of `body`: the members of the JSON object that
/// the bytes spell, or `None` where they spell no JSON object (no JSON at
/// all, or a value of another kind). The members stand in the order in which
/// `serde_json::Map` hands them out. A name that the text holds more than
/// once stands once, with the last of its values.
pub uninterp spec fn json_object(body: Seq<u8>) -> Option<Seq<JsonFieldView>>;

/// Parses `body` as one JSON object.
///
/// Trusted: the body calls `serde_json::from_slice` for a
/// `serde_json::Value`, which reads exactly one JSON value followed by
/// nothing but whitespace and gives the same value for the same bytes. Of an
/// object, its members are handed out one for one; anything else is `None`.
/// The contract only gives that result its name, [`json_object`].
#[verifier::external_body]
pub(crate) fn parse_object(body: &[u8]) -> (fields: Option<Vec<JsonField>>)
    ensures
        match fields {
            Some(f) => json_object(body@) == Some(fields_view(f@)),
            None => json_object(body@) is None,
        },
{
    match serde_json::from_slice::<Value>(body) {
        Ok(Value::Object(members)) => Some(members.into_iter().map(|(name, v)| JsonField {
            name,
            value: match v {
                Value::Null => JsonValue::Null,
                Value::Bool(b) => JsonValue::Bool(b),
                Value::Number(n) => JsonValue::Number(n.as_u64()),
                Value::String(s) => JsonValue::Text(s),
                Value::Array(_) => JsonValue::Array,
                Value::Object(_) => JsonValue::Object,
            },
        }).collect()),
        _ => None,
    }
}

/// The value of the first member of `fields` called `name`.
pub fn find<'a>(fields: &'a Vec<JsonField>, name: &str) -> (value: Option<&'a JsonValue>)
    ensures
        match value {
            Some(v) => lookup(fields_view(fields@), name@) == Some(v@),
            None => lookup(fields_view(fields@), name@) is None,
        },
{
    let ghost all = fields_view(fields@);
    let mut i: usize = 0;
    assert(all.skip(0) == all);
    while i < fields.len()
        invariant
            i <= fields.len(),
            all == fields_view(fields@),
            lookup(all, name@) == lookup(all.skip(i as int), name@),
        decreases fields.len() - i,
    {
        assert(all.skip(i as int)[0] == fields@[i as int]@);
        if same_text(fields[i].name.as_str(), name) {
            return Some(&fields[i].value);
        }
        assert(all.skip(i as int).drop_first() == all.skip(i + 1));
        i += 1;
    }
    None
}

/// Whether `text` can stand between double quotes as it is: it holds no
/// double quote, no backslash and no control character below U+0020.
pub open spec fn plain(text: Seq<char>) -> bool {
    forall|i: int| 0 <= i < text.len() ==> plain_char(#[trigger] text[i])
}

/// Whether `c` is written between double quotes as itself.
pub open spec fn plain_char(c: char) -> bool {
    c != '"' && c != '\\' && c as u32 >= 0x20
}

/// Whether a value has an exact text: `null`, a boolean, a non-negative
/// integer, or a plain string.
pub open spec fn writable_value(value: JsonValueView) -> bool {
    match value {
        JsonValueView::Null => true,
        JsonValueView::Bool(_) => true,
        JsonValueView::Number(n) => n is Some,
        JsonValueView::Text(s) => plain(s),
        JsonValueView::Array => false,
        JsonValueView::Object => false,
    }
}

/// Whether every member has a plain name and a writable value.
pub open spec fn writable(fields: Seq<JsonFieldView>) -> bool {
    forall|i: int|
        0 <= i < fields.len() ==> plain(#[trigger] fields[i].name) && writable_value(
            fields[i].value,
        )
}

/// The compact JSON text of a writable value.
pub open spec fn value_text(value: JsonValueView) -> Seq<char> {
    match value {
        JsonValueView::Null => "null"@,
        JsonValueView::Bool(b) => if b {
            "true"@
        } else {
            "false"@
        },
        JsonValueView::Number(n) => match n {
            Some(n) => decimal(n as nat),
            None => Seq::empty(),
        },
        JsonValueView::Text(s) => seq!['"'] + s + seq!['"'],
        JsonValueView::Array => Seq::empty(),
        JsonValueView::Object => Seq::empty(),
    }
}

/// One member: the quoted name, a colon, the value.
pub open spec fn member_text(field: JsonFieldView) -> Seq<char> {
    seq!['"'] + field.name + seq!['"', ':'] + value_text(field.value)
}

/// The members in order, with a comma between neighbours.
pub open spec fn members_text(fields: Seq<JsonFieldView>) -> Seq<char>
    decreases fields.len(),
{
    if fields.len() == 0 {
        Seq::empty()
    } else if fields.len() == 1 {
        member_text(fields[0])
    } else {
        members_text(fields.drop_last()) + seq![','] + member_text(fields.last())
    }
}

/// The compact JSON text of an object: no whitespace, members in the order
/// given.
pub open spec fn object_text(fields: Seq<JsonFieldView>) -> Seq<char> {
    seq!['{'] + members_text(fields) + seq!['}']
}

fn write_value(out: &mut String, value: &JsonValue)
    requires
        writable_value(value@),
    ensures
        final(out)@ == old(out)@ + value_text(value@),
{
    match value {
        JsonValue::Null => out.append("null"),
        JsonValue::Bool(b) => if *b {
            out.append("true")
        } else {
            out.append("false")
        },
        JsonValue::Number(n) => match n {
            Some(n) => push_decimal(out, *n),
            None => {},
        },
        JsonValue::Text(s) => {
            push_char(out, '"');
            out.append(s.as_str());
            push_char(out, '"');
            assert(out@ == old(out)@ + (seq!['"'] + s@ + seq!['"']));
        },
        JsonValue::Array => {},
        JsonValue::Object => {},
    }
}

/// Writes an object as compact JSON text.
pub(crate) fn write_object(fields: &Vec<JsonField>) -> (out: String)
    requires
        writable(fields_view(fields@)),
    ensures
        out@ == object_text(fields_view(fields@)),
{
    let ghost all = fields_view(fields@);
    let mut out = String::from_str("{");
    proof {
        reveal_strlit("{");
        assert(out@ == seq!['{']);
        assert(all.take(0).len() == 0);
        assert(out@ == seq!['{'] + members_text(all.take(0)));
    }
    let mut i: usize = 0;
    while i < fields.len()
        invariant
            i <= fields.len(),
            all == fields_view(fields@),
            writable(all),
            out@ == seq!['{'] + members_text(all.take(i as int)),
        decreases fields.len() - i,
    {
        let ghost before = out@;
        if i > 0 {
            push_char(&mut out, ',');
        }
        push_char(&mut out, '"');
        out.append(fields[i].name.as_str());
        push_char(&mut out, '"');
        push_char(&mut out, ':');
        assert(all[i as int] == fields@[i as int]@);
        assert(plain(all[i as int].name));
        write_value(&mut out, &fields[i].value);
        proof {
            let next = all.take(i + 1);
            assert(next.last() == all[i as int]);
            assert(next.drop_last() == all.take(i as int));
            let member = member_text(all[i as int]);
            if i > 0 {
                assert(out@ == before + seq![','] + member);
                assert(out@ == seq!['{'] + (members_text(all.take(i as int)) + seq![','] + member));
            } else {
                assert(out@ == before + member);
                assert(members_text(all.take(0)) == Seq::<char>::empty());
                assert(out@ == seq!['{'] + member);
            }
        }
        i += 1;
    }
    assert(all.take(i as int) == all);
    push_char(&mut out, '}');
    out
}

} // verus!
