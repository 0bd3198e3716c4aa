//! The field schema: what a configuration field is called, what type it
//! has, and what constrains it.

use vstd::prelude::*;
use vstd::string::StringExecFns;
use crate::float::Float64;
use crate::text::same_text;

verus! {

/// The type of a configuration field.
#[derive(Clone, Copy, Debug, PartialEq, Eq)]
pub enum FieldType {
    Int,
    Float,
    Str,
    Bool,
}

/// Constraints and annotations of one field. A constraint that does not
/// apply to the field's type is carried along and never looked at.
#[derive(Debug)]
pub struct MetaField {
    /// The default, as text; read as the field's type when it is needed.
    pub default: Option<String>,
    /// Lower bound of a numeric field, inclusive.
    pub min: Option<Float64>,
    /// Upper bound of a numeric field, inclusive.
    pub max: Option<Float64>,
    /// Pattern that a text field has to match somewhere.
    pub regex: Option<String>,
    /// Description for the generated documentation.
    pub doc: Option<String>,
}

/// One field of a schema. A schema is a list of these, in the order in
/// which they are validated.
#[derive(Debug)]
pub struct FieldSchema {
    /// The key under which a document holds the field.
    pub name: String,
    pub ty: FieldType,
    pub metadata: MetaField,
}

/// What a `MetaField` stands for.
pub struct MetaFieldView {
    pub default: Option<Seq<char>>,
    pub min: Option<Float64>,
    pub max: Option<Float64>,
    pub regex: Option<Seq<char>>,
    pub doc: Option<Seq<char>>,
}

/// What a `FieldSchema` stands for.
pub struct FieldSchemaView {
    pub name: Seq<char>,
    pub ty: FieldType,
    pub metadata: MetaFieldView,
}

/// The characters of an optional text.
pub open spec fn text_view(text: Option<String>) -> Option<Seq<char>> {
    match text {
        Some(s) => Some(s@),
        None => None,
    }
}

impl View for MetaField {
    type V = MetaFieldView;

    open spec fn view(&self) -> MetaFieldView {
        MetaFieldView {
            default: text_view(self.default),
            min: self.min,
            max: self.max,
            regex: text_view(self.regex),
            doc: text_view(self.doc),
        }
    }
}

impl View for FieldSchema {
    type V = FieldSchemaView;

    open spec fn view(&self) -> FieldSchemaView {
        FieldSchemaView { name: self.name@, ty: self.ty, metadata: self.metadata@ }
    }
}

/// What a list of fields stands for.
pub open spec fn schema_view(schema: Seq<FieldSchema>) -> Seq<FieldSchemaView> {
    Seq::new(schema.len(), |i: int| schema[i]@)
}

/// The field type that stands for a Rust type of the given name: the text
/// type, the boolean type, the integer types of every width, and the two
/// floating-point types.
pub open spec fn type_named(name: Seq<char>) -> Option<FieldType> {
    if name == "String"@ {
        Some(FieldType::Str)
    } else if name == "bool"@ {
        Some(FieldType::Bool)
    } else if name == "i8"@ || name == "i16"@ || name == "i32"@ || name == "i64"@ || name
        == "isize"@ || name == "u8"@ || name == "u16"@ || name == "u32"@ || name == "u64"@
        || name == "usize"@ {
        Some(FieldType::Int)
    } else if name == "f32"@ || name == "f64"@ {
        Some(FieldType::Float)
    } else {
        None
    }
}

impl FieldType {
    /// The name of the type as documentation shows it.
    pub open spec fn label(self) -> Seq<char> {
        match self {
            FieldType::Int => "Int"@,
            FieldType::Float => "Float"@,
            FieldType::Str => "Str"@,
            FieldType::Bool => "Bool"@,
        }
    }

    /// Whether the type is one of the two numeric ones.
    pub open spec fn is_numeric(self) -> bool {
        self is Int || self is Float
    }

    /// The field type that stands for a Rust type of the given name, or
    /// `None` for a type that a configuration field cannot have.
    pub fn from_type_name(name: &str) -> (r: Option<FieldType>)
        ensures
            r == type_named(name@),
    {
        if same_text(name, "String") {
            Some(FieldType::Str)
        } else if same_text(name, "bool") {
            Some(FieldType::Bool)
        } else if same_text(name, "i8") || same_text(name, "i16") || same_text(name, "i32")
            || same_text(name, "i64") || same_text(name, "isize") || same_text(name, "u8")
            || same_text(name, "u16") || same_text(name, "u32") || same_text(name, "u64")
            || same_text(name, "usize") {
            Some(FieldType::Int)
        } else if same_text(name, "f32") || same_text(name, "f64") {
            Some(FieldType::Float)
        } else {
            None
        }
    }

    /// The name of the type as documentation shows it.
    pub fn name(&self) -> (r: &'static str)
        ensures
            r@ == self.label(),
    {
        match self {
            FieldType::Int => "Int",
            FieldType::Float => "Float",
            FieldType::Str => "Str",
            FieldType::Bool => "Bool",
        }
    }
}

impl MetaField {
    /// No default, no constraint, no description.
    pub fn new() -> (r: MetaField)
        ensures
            r@ == (MetaFieldView { default: None, min: None, max: None, regex: None, doc: None }),
    {
        MetaField { default: None, min: None, max: None, regex: None, doc: None }
    }
}

/// A copy of an optional text.
fn copy_text(text: &Option<String>) -> (r: Option<String>)
    ensures
        text_view(r) == text_view(*text),
{
    match text {
        Some(s) => Some(s.clone()),
        None => None,
    }
}

impl Clone for MetaField {
    fn clone(&self) -> (r: MetaField)
        ensures
            r@ == self@,
    {
        MetaField {
            default: copy_text(&self.default),
            min: self.min,
            max: self.max,
            regex: copy_text(&self.regex),
            doc: copy_text(&self.doc),
        }
    }
}

impl Clone for FieldSchema {
    fn clone(&self) -> (r: FieldSchema)
        ensures
            r@ == self@,
    {
        FieldSchema { name: self.name.clone(), ty: self.ty, metadata: self.metadata.clone() }
    }
}

impl Default for MetaField {
    fn default() -> (r: MetaField)
        ensures
            r@ == (MetaFieldView { default: None, min: None, max: None, regex: None, doc: None }),
    {
        MetaField::new()
    }
}

impl FieldSchema {
    /// A field without default, constraint or description.
    pub fn new(name: &str, ty: FieldType) -> (r: FieldSchema)
        ensures
            r@ == (FieldSchemaView {
                name: name@,
                ty,
                metadata: MetaFieldView {
                    default: None,
                    min: None,
                    max: None,
                    regex: None,
                    doc: None,
                },
            }),
    {
        FieldSchema { name: String::from_str(name), ty, metadata: MetaField::new() }
    }

    /// The field with the given default text.
    pub fn with_default(self, default: &str) -> (r: FieldSchema)
        ensures
            r@ == (FieldSchemaView {
                metadata: MetaFieldView { default: Some(default@), ..self@.metadata },
                ..self@
            }),
    {
        let mut field = self;
        field.metadata.default = Some(String::from_str(default));
        field
    }

    /// The field with the given lower bound.
    pub fn with_min(self, min: Float64) -> (r: FieldSchema)
        ensures
            r@ == (FieldSchemaView {
                metadata: MetaFieldView { min: Some(min), ..self@.metadata },
                ..self@
            }),
    {
        let mut field = self;
        field.metadata.min = Some(min);
        field
    }

    /// The field with the given upper bound.
    pub fn with_max(self, max: Float64) -> (r: FieldSchema)
        ensures
            r@ == (FieldSchemaView {
                metadata: MetaFieldView { max: Some(max), ..self@.metadata },
                ..self@
            }),
    {
        let mut field = self;
        field.metadata.max = Some(max);
        field
    }

    /// The field with the given pattern.
    pub fn with_regex(self, pattern: &str) -> (r: FieldSchema)
        ensures
            r@ == (FieldSchemaView {
                metadata: MetaFieldView { regex: Some(pattern@), ..self@.metadata },
                ..self@
            }),
    {
        let mut field = self;
        field.metadata.regex = Some(String::from_str(pattern));
        field
    }

    /// The field with the given description.
    pub fn with_doc(self, doc: &str) -> (r: FieldSchema)
        ensures
            r@ == (FieldSchemaView {
                metadata: MetaFieldView { doc: Some(doc@), ..self@.metadata },
                ..self@
            }),
    {
        let mut field = self;
        field.metadata.doc = Some(String::from_str(doc));
        field
    }
}

} // verus!
