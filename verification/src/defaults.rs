//! Reading the text of a default as the value of a field.

use vstd::prelude::*;
use crate::number::{Number, number_of_text, read_number};
use crate::text::same_text;
use crate::types::FieldType;
use crate::value::{Value, ValueView};

verus! {

/// The value of an integer field whose default was read as `parsed`: the
/// number itself where it is an integer.
pub open spec fn integer_default_of(parsed: Option<Number>) -> Option<ValueView> {
    match parsed {
        Some(n) => if n.is_integer() {
            Some(ValueView::Number(n))
        } else {
            None
        },
        None => None,
    }
}

/// The value of a float field whose default was read as `parsed`: the number
/// as a binary64.
pub open spec fn float_default_of(parsed: Option<Number>) -> Option<ValueView> {
    match parsed {
        Some(n) => Some(ValueView::Number(Number::Float(n.float_value()))),
        None => None,
    }
}

/// The value of a boolean field with the given default: the two literals
/// `true` and `false`, exactly as written, and nothing else.
pub open spec fn bool_default_of(text: Seq<char>) -> Option<ValueView> {
    if text == "true"@ {
        Some(ValueView::Bool(true))
    } else if text == "false"@ {
        Some(ValueView::Bool(false))
    } else {
        None
    }
}

/// The value that a default's text stands for in a field of the given type,
/// or `None` where the text cannot be read as that type.
pub open spec fn default_value(ty: FieldType, text: Seq<char>) -> Option<ValueView> {
    match ty {
        FieldType::Str => Some(ValueView::Str(text)),
        FieldType::Bool => bool_default_of(text),
        FieldType::Int => integer_default_of(number_of_text(text)),
        FieldType::Float => float_default_of(number_of_text(text)),
    }
}

/// Whether a value has the concrete type that a field of the given type
/// holds.
pub open spec fn has_type(value: ValueView, ty: FieldType) -> bool {
    match ty {
        FieldType::Str => value is Str,
        FieldType::Bool => value is Bool,
        FieldType::Int => value matches ValueView::Number(n) && n.is_integer(),
        FieldType::Float => value matches ValueView::Number(n) && n is Float,
    }
}

/// The value of an integer field, given what its default's text was read as.
pub fn integer_default(parsed: Option<Number>) -> (r: Option<Value>)
    ensures
        match r {
            Some(v) => integer_default_of(parsed) == Some(v@),
            None => integer_default_of(parsed) is None,
        },
{
    match parsed {
        Some(n) => if n.integer() {
            Some(Value::Number(n))
        } else {
            None
        },
        None => None,
    }
}

/// The value of a float field, given what its default's text was read as.
pub fn float_default(parsed: Option<Number>) -> (r: Option<Value>)
    ensures
        match r {
            Some(v) => float_default_of(parsed) == Some(v@),
            None => float_default_of(parsed) is None,
        },
{
    match parsed {
        Some(n) => Some(Value::Number(Number::Float(n.as_float()))),
        None => None,
    }
}

/// The value of a boolean field with the given default.
pub fn bool_default(text: &str) -> (r: Option<Value>)
    ensures
        match r {
            Some(v) => bool_default_of(text@) == Some(v@),
            None => bool_default_of(text@) is None,
        },
{
    if same_text(text, "true") {
        Some(Value::Bool(true))
    } else if same_text(text, "false") {
        Some(Value::Bool(false))
    } else {
        None
    }
}

/// Reads the text of a default as a value of the field's type: an integer
/// field takes an integer, a float field any number, a boolean field one of
/// the two literals, and a text field the text as it is.
pub fn parse_default(ty: FieldType, text: &str) -> (r: Option<Value>)
    ensures
        match r {
            Some(v) => default_value(ty, text@) == Some(v@),
            None => default_value(ty, text@) is None,
        },
{
    match ty {
        FieldType::Str => Some(Value::String(text.to_owned())),
        FieldType::Bool => bool_default(text),
        FieldType::Int => integer_default(read_number(text)),
        FieldType::Float => float_default(read_number(text)),
    }
}

/// A default that can be read has the concrete type of its field: an integer
/// for an integer field, a binary64 for a float field, a boolean for a
/// boolean field and a text for a text field.
pub proof fn lemma_default_has_type(ty: FieldType, text: Seq<char>)
    ensures
        default_value(ty, text) matches Some(v) ==> has_type(v, ty),
{
}

/// The default of a text field is the text itself, whatever it is.
pub proof fn lemma_text_default_is_verbatim(text: Seq<char>)
    ensures
        default_value(FieldType::Str, text) == Some(ValueView::Str(text)),
{
}

} // verus!
