//! What can go wrong between a file and a typed configuration.

use vstd::prelude::*;
use crate::types::FieldType;
use crate::value::{Value, ValueView};

verus! {

/// `std::io::Error`, carried through as it came.
#[verifier::external_type_specification]
#[verifier::external_body]
pub struct ExIoError(std::io::Error);

/// How a field broke its schema.
#[derive(Debug)]
pub enum Violation {
    /// The number is below the field's lower bound.
    BelowMin { value: Value },
    /// The number is above the field's upper bound.
    AboveMax { value: Value },
    /// The value is no text that the field's pattern matches.
    PatternMismatch { value: Value },
    /// The default's text cannot be read as the field's type.
    BadDefault { default: String, expected: FieldType },
}

/// What a `Violation` stands for.
pub enum ViolationView {
    BelowMin { value: ValueView },
    AboveMax { value: ValueView },
    PatternMismatch { value: ValueView },
    BadDefault { default: Seq<char>, expected: FieldType },
}

impl View for Violation {
    type V = ViolationView;

    open spec fn view(&self) -> ViolationView {
        match self {
            Violation::BelowMin { value } => ViolationView::BelowMin { value: value@ },
            Violation::AboveMax { value } => ViolationView::AboveMax { value: value@ },
            Violation::PatternMismatch { value } => ViolationView::PatternMismatch {
                value: value@,
            },
            Violation::BadDefault { default, expected } => ViolationView::BadDefault {
                default: default@,
                expected: *expected,
            },
        }
    }
}

/// The errors of the pipeline.
#[derive(Debug)]
pub enum ProfigError {
    /// Reading or writing a file failed.
    Io(std::io::Error),
    /// A document is malformed; `format` names the format it was read as.
    Parse { format: &'static str, error: String },
    /// The file extension names no supported format.
    InvalidFormat(String),
    /// A field broke its schema, or its default cannot be read.
    Validation { field: String, detail: Violation },
    /// Anything else, such as a pattern that is no regular expression.
    Custom(String),
}

/// What a `ProfigError` stands for. The cause of an I/O error is not
/// modelled.
pub enum ProfigErrorView {
    Io,
    Parse { format: Seq<char>, error: Seq<char> },
    InvalidFormat(Seq<char>),
    Validation { field: Seq<char>, detail: ViolationView },
    Custom(Seq<char>),
}

impl View for ProfigError {
    type V = ProfigErrorView;

    open spec fn view(&self) -> ProfigErrorView {
        match self {
            ProfigError::Io(_) => ProfigErrorView::Io,
            ProfigError::Parse { format, error } => ProfigErrorView::Parse {
                format: format@,
                error: error@,
            },
            ProfigError::InvalidFormat(message) => ProfigErrorView::InvalidFormat(message@),
            ProfigError::Validation { field, detail } => ProfigErrorView::Validation {
                field: field@,
                detail: detail@,
            },
            ProfigError::Custom(message) => ProfigErrorView::Custom(message@),
        }
    }
}

impl From<std::io::Error> for ProfigError {
    /// Wraps the failure of a file operation.
    fn from(err: std::io::Error) -> (r: ProfigError) {
        ProfigError::Io(err)
    }
}

impl vstd::std_specs::convert::FromSpecImpl<std::io::Error> for ProfigError {
    open spec fn obeys_from_spec() -> bool {
        true
    }

    open spec fn from_spec(err: std::io::Error) -> ProfigError {
        ProfigError::Io(err)
    }
}

impl ProfigError {
    /// The field that a validation error is about.
    pub fn field(&self) -> (r: Option<&String>)
        ensures
            match r {
                Some(name) => self@ matches ProfigErrorView::Validation { field, .. } && field
                    == name@,
                None => !(self@ is Validation),
            },
    {
        match self {
            ProfigError::Validation { field, .. } => Some(field),
            _ => None,
        }
    }
}

} // verus!
