//! Documentation and a sample document for a schema.

use vstd::prelude::*;
use vstd::string::StringExecFns;
use crate::defaults::{default_value, parse_default};
use crate::float::Float64;
use crate::number::Number;
use crate::types::{FieldSchema, FieldSchemaView, FieldType, schema_view};
use crate::value::{Value, ValueView, lemma_object_view, members_view};

verus! {

/// The top-level heading of the documentation of a configuration type.
pub open spec fn doc_heading(name: Seq<char>) -> Seq<char> {
    "# Config - "@ + name + "\n"@
}

/// The section of one field: a blank line, a heading with the field's name
/// and type, and the description under it. A field without description has
/// no section.
pub open spec fn doc_section(field: FieldSchemaView) -> Seq<char> {
    match field.metadata.doc {
        Some(doc) => "\n\n"@ + "## Field: "@ + field.name + " - "@ + field.ty.label() + "\n"@
            + doc,
        None => Seq::empty(),
    }
}

/// The sections of the first `count` fields, in schema order.
pub open spec fn doc_sections(schema: Seq<FieldSchemaView>, count: int) -> Seq<char>
    decreases count,
{
    if count <= 0 {
        Seq::empty()
    } else {
        doc_sections(schema, count - 1) + doc_section(schema[count - 1])
    }
}

/// The documentation of a schema.
pub open spec fn doc_text(schema: Seq<FieldSchemaView>, name: Seq<char>) -> Seq<char> {
    doc_heading(name) + doc_sections(schema, schema.len() as int)
}

/// Renders the documentation of a schema: a heading that names the
/// configuration type, then one section for each field that has a
/// description.
pub fn generate_doc(schema: &[FieldSchema], name: &str) -> (r: String)
    ensures
        r@ == doc_text(schema_view(schema@), name@),
{
    let ghost fields = schema_view(schema@);
    let mut content = String::from_str("# Config - ");
    content.append(name);
    content.append("\n");
    let mut i: usize = 0;
    while i < schema.len()
        invariant
            i <= schema@.len(),
            fields == schema_view(schema@),
            content@ == doc_heading(name@) + doc_sections(fields, i as int),
        decreases schema@.len() - i,
    {
        let field = &schema[i];
        let ghost before = content@;
        assert(fields[i as int] == field@);
        match &field.metadata.doc {
            Some(doc) => {
                content.append("\n\n");
                content.append("## Field: ");
                content.append(field.name.as_str());
                content.append(" - ");
                content.append(field.ty.name());
                content.append("\n");
                content.append(doc.as_str());
                assert(content@ =~= before + doc_section(field@));
            },
            None => {
                assert(content@ =~= before + doc_section(field@));
            },
        }
        assert(doc_heading(name@) + doc_sections(fields, i as int) + doc_section(field@)
            =~= doc_heading(name@) + doc_sections(fields, i as int + 1));
        i += 1;
    }
    content
}

/// The number that a sample holds for an integer field with a lower bound:
/// the bound without its fraction.
pub open spec fn whole_number(bound: Float64) -> Number {
    if bound.truncated() >= 0 {
        Number::PosInt(bound.truncated() as u64)
    } else {
        Number::NegInt(bound.truncated() as i64)
    }
}

/// The value that stands in for a default that cannot be read as the
/// field's type: zero for a number and `false` for a boolean. The default of
/// a text field can always be read.
pub open spec fn fallback_value(ty: FieldType) -> ValueView {
    match ty {
        FieldType::Str => ValueView::Str("REQUIRED"@),
        FieldType::Int => ValueView::Number(Number::PosInt(0)),
        FieldType::Float => ValueView::Number(Number::Float(Float64 { bits: 0 })),
        FieldType::Bool => ValueView::Bool(false),
    }
}

/// The value that a sample holds for a field without a default: for a
/// number, the lower bound or zero; for a text, a placeholder that says what
/// is required; for a boolean, `false`. The bound of an integer field loses
/// its fraction, and a bound that is not finite counts as zero.
pub open spec fn unset_value(field: FieldSchemaView) -> ValueView {
    match field.ty {
        FieldType::Str => match field.metadata.regex {
            Some(pattern) => ValueView::Str("REQUIRED; must match "@ + pattern),
            None => ValueView::Str("REQUIRED"@),
        },
        FieldType::Int => match field.metadata.min {
            Some(min) => ValueView::Number(whole_number(min)),
            None => ValueView::Number(Number::PosInt(0)),
        },
        FieldType::Float => match field.metadata.min {
            Some(min) => if min.is_finite() {
                ValueView::Number(Number::Float(min))
            } else {
                ValueView::Number(Number::PosInt(0))
            },
            None => ValueView::Number(Number::Float(Float64 { bits: 0 })),
        },
        FieldType::Bool => ValueView::Bool(false),
    }
}

/// The value that a sample holds for a field: the default, read as the
/// field's type, where there is one; else what stands for a field that is
/// not set.
pub open spec fn sample_value(field: FieldSchemaView) -> ValueView {
    match field.metadata.default {
        Some(text) => match default_value(field.ty, text) {
            Some(value) => value,
            None => fallback_value(field.ty),
        },
        None => unset_value(field),
    }
}

/// The sample of the first `count` fields: an object that holds, under each
/// field's name, the field's sample value. Of two fields with one name the
/// later one sets the value.
pub open spec fn sample_of(schema: Seq<FieldSchemaView>, count: int) -> ValueView
    decreases count,
{
    if count <= 0 {
        ValueView::Object(Seq::empty())
    } else {
        sample_of(schema, count - 1).with(schema[count - 1].name, sample_value(schema[count - 1]))
    }
}

/// The number that a sample holds for an integer field with a lower bound.
pub fn whole(bound: Float64) -> (r: Number)
    ensures
        r == whole_number(bound),
{
    let n: i64 = bound.truncate();
    if n >= 0 {
        Number::PosInt(n as u64)
    } else {
        Number::NegInt(n)
    }
}

/// The value that stands in for a default that cannot be read.
pub fn fallback(ty: FieldType) -> (r: Value)
    ensures
        r@ == fallback_value(ty),
{
    match ty {
        FieldType::Str => Value::String(String::from_str("REQUIRED")),
        FieldType::Int => Value::Number(Number::PosInt(0)),
        FieldType::Float => Value::Number(Number::Float(Float64::zero())),
        FieldType::Bool => Value::Bool(false),
    }
}

/// The value that a sample holds for a field without a default.
pub fn unset(field: &FieldSchema) -> (r: Value)
    ensures
        r@ == unset_value(field@),
{
    match field.ty {
        FieldType::Str => {
            match &field.metadata.regex {
                Some(pattern) => {
                    let mut text = String::from_str("REQUIRED; must match ");
                    text.append(pattern.as_str());
                    Value::String(text)
                },
                None => Value::String(String::from_str("REQUIRED")),
            }
        },
        FieldType::Int => {
            match field.metadata.min {
                Some(min) => Value::Number(whole(min)),
                None => Value::Number(Number::PosInt(0)),
            }
        },
        FieldType::Float => {
            match field.metadata.min {
                Some(min) => {
                    if min.finite() {
                        Value::Number(Number::Float(min))
                    } else {
                        Value::Number(Number::PosInt(0))
                    }
                },
                None => Value::Number(Number::Float(Float64::zero())),
            }
        },
        FieldType::Bool => Value::Bool(false),
    }
}

/// The value that a sample holds for a field.
pub fn sample_field(field: &FieldSchema) -> (r: Value)
    ensures
        r@ == sample_value(field@),
{
    match &field.metadata.default {
        Some(text) => {
            match parse_default(field.ty, text.as_str()) {
                Some(value) => value,
                None => fallback(field.ty),
            }
        },
        None => unset(field),
    }
}

/// Builds a sample document for a schema: an object with one member for
/// each field, in schema order.
pub fn sample_conf(schema: &[FieldSchema]) -> (r: Value)
    ensures
        r@ == sample_of(schema_view(schema@), schema@.len() as int),
{
    let ghost fields = schema_view(schema@);
    let members: Vec<(String, Value)> = Vec::new();
    proof {
        lemma_object_view(members);
        assert(members_view(members@) =~= Seq::empty());
    }
    let mut sample = Value::Object(members);
    let mut i: usize = 0;
    while i < schema.len()
        invariant
            i <= schema@.len(),
            fields == schema_view(schema@),
            sample@ == sample_of(fields, i as int),
        decreases schema@.len() - i,
    {
        let field = &schema[i];
        assert(fields[i as int] == field@);
        let value = sample_field(field);
        sample.insert(field.name.clone(), value);
        i += 1;
    }
    sample
}

} // verus!
