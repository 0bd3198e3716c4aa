//! Validation of a document against a schema.
//!
//! The schema is walked once, in order. A field whose member is there and
//! not null is checked against the constraints of its type; a field whose
//! member is missing or null gets its default, if it has one. The first
//! failure ends the walk: what earlier fields wrote stays written.

use vstd::prelude::*;
use crate::defaults::{default_value, parse_default};
use crate::error::{ProfigError, ProfigErrorView, Violation, ViolationView};
use crate::float::Float64;
use crate::pattern::{matches_pattern, pattern_compiles, pattern_error_text, valid_regex};
use crate::types::{FieldSchema, FieldSchemaView, FieldType, schema_view};
use crate::value::{Value, ValueView};

verus! {

/// Why a walk ended early.
pub enum Failure {
    /// A field broke its schema.
    Violation { field: Seq<char>, detail: ViolationView },
    /// A field's pattern is no regular expression.
    BadPattern { pattern: Seq<char> },
}

/// Where a walk ended: the document as it then was, and why it ended early
/// if it did.
pub struct Outcome {
    pub value: ValueView,
    pub failure: Option<Failure>,
}

/// Whether an error tells of the failure: a violation is told in full, a
/// bad pattern by an error of the `Custom` kind.
pub open spec fn reports(error: ProfigErrorView, failure: Failure) -> bool {
    match failure {
        Failure::Violation { field, detail } => error == (ProfigErrorView::Validation {
            field,
            detail,
        }),
        Failure::BadPattern { .. } => error is Custom,
    }
}

/// Whether a value is a number below the bound. Anything that is no number
/// is not.
pub open spec fn below(value: ValueView, min: Float64) -> bool {
    value matches ValueView::Number(n) && n.float_value().lt(min)
}

/// Whether a value is a number above the bound. Anything that is no number
/// is not.
pub open spec fn above(value: ValueView, max: Float64) -> bool {
    value matches ValueView::Number(n) && max.lt(n.float_value())
}

/// The failure of a numeric field on a value, if any: the lower bound is
/// looked at first.
pub open spec fn bounds_failure(field: FieldSchemaView, value: ValueView) -> Option<Failure> {
    if field.metadata.min matches Some(min) && below(value, min) {
        Some(Failure::Violation { field: field.name, detail: ViolationView::BelowMin { value } })
    } else if field.metadata.max matches Some(max) && above(value, max) {
        Some(Failure::Violation { field: field.name, detail: ViolationView::AboveMax { value } })
    } else {
        None
    }
}

/// The failure of a text field on a value, if any. The pattern is compiled
/// only for a text, so only there can it turn out to be none.
pub open spec fn pattern_failure(field: FieldSchemaView, value: ValueView) -> Option<Failure> {
    match field.metadata.regex {
        Some(pattern) => if value is Str && !pattern_compiles(pattern) {
            Some(Failure::BadPattern { pattern })
        } else if matches_pattern(value, pattern) {
            None
        } else {
            Some(
                Failure::Violation {
                    field: field.name,
                    detail: ViolationView::PatternMismatch { value },
                },
            )
        },
        None => None,
    }
}

/// The failure of a field on the value that the document holds for it, if
/// any. Bounds count for the numeric types only and the pattern for text
/// only; a boolean field has nothing to check.
pub open spec fn present_failure(field: FieldSchemaView, value: ValueView) -> Option<Failure> {
    match field.ty {
        FieldType::Int => bounds_failure(field, value),
        FieldType::Float => bounds_failure(field, value),
        FieldType::Str => pattern_failure(field, value),
        FieldType::Bool => None,
    }
}

/// The document after a field without a member got its default, or the
/// failure where the default cannot be read. Without a default the document
/// stays as it is; so does a document that is no object, which has no
/// members to set.
pub open spec fn fill_default(config: ValueView, field: FieldSchemaView) -> Result<
    ValueView,
    Failure,
> {
    match field.metadata.default {
        Some(text) => match default_value(field.ty, text) {
            Some(value) => Ok(config.with(field.name, value)),
            None => Err(
                Failure::Violation {
                    field: field.name,
                    detail: ViolationView::BadDefault { default: text, expected: field.ty },
                },
            ),
        },
        None => Ok(config),
    }
}

/// One field of the walk.
pub open spec fn step(config: ValueView, field: FieldSchemaView) -> Result<ValueView, Failure> {
    if config.has(field.name) {
        match present_failure(field, config.get(field.name).unwrap()) {
            Some(failure) => Err(failure),
            None => Ok(config),
        }
    } else {
        fill_default(config, field)
    }
}

/// The document after one field of the walk: what the field leaves where it
/// passes, and the document as it was where it fails.
pub open spec fn after(config: ValueView, field: FieldSchemaView) -> ValueView {
    match step(config, field) {
        Ok(next) => next,
        Err(_) => config,
    }
}

/// The walk over the fields from index `from` on.
pub open spec fn run_from(config: ValueView, schema: Seq<FieldSchemaView>, from: int) -> Outcome
    decreases schema.len() - from,
{
    if from < 0 || from >= schema.len() {
        Outcome { value: config, failure: None }
    } else {
        match step(config, schema[from]) {
            Ok(next) => run_from(next, schema, from + 1),
            Err(failure) => Outcome { value: config, failure: Some(failure) },
        }
    }
}

/// The walk over a whole schema.
pub open spec fn run(config: ValueView, schema: Seq<FieldSchemaView>) -> Outcome {
    run_from(config, schema, 0)
}

/// Tells whether a value is a number below the bound.
pub fn less_than_min(value: &Value, min: Float64) -> (r: bool)
    ensures
        r == below(value@, min),
{
    match value {
        Value::Number(n) => n.as_float().less_than(&min),
        _ => false,
    }
}

/// Tells whether a value is a number above the bound.
pub fn greater_than_max(value: &Value, max: Float64) -> (r: bool)
    ensures
        r == above(value@, max),
{
    match value {
        Value::Number(n) => n.as_float().greater_than(&max),
        _ => false,
    }
}

/// Checks a value against the bounds of a field.
pub fn check_bounds(field: &FieldSchema, value: &Value) -> (r: Result<(), ProfigError>)
    ensures
        match r {
            Ok(_) => bounds_failure(field@, value@) is None,
            Err(e) => bounds_failure(field@, value@) matches Some(f) && reports(e@, f),
        },
{
    if let Some(min) = field.metadata.min {
        if less_than_min(value, min) {
            return Err(
                ProfigError::Validation {
                    field: field.name.clone(),
                    detail: Violation::BelowMin { value: value.clone() },
                },
            );
        }
    }
    if let Some(max) = field.metadata.max {
        if greater_than_max(value, max) {
            return Err(
                ProfigError::Validation {
                    field: field.name.clone(),
                    detail: Violation::AboveMax { value: value.clone() },
                },
            );
        }
    }
    Ok(())
}

/// What a pattern's answer means for a field: a match passes, no match is a
/// violation, and a pattern that did not compile is an error of its own
/// kind, which carries the text of the compiler's complaint.
pub fn pattern_verdict(field: &FieldSchema, value: &Value, answer: Result<bool, regex::Error>) -> (r:
    Result<(), ProfigError>)
    ensures
        match answer {
            Ok(true) => r is Ok,
            Ok(false) => r matches Err(e) && e@ == (ProfigErrorView::Validation {
                field: field@.name,
                detail: ViolationView::PatternMismatch { value: value@ },
            }),
            Err(_) => r matches Err(e) && e@ is Custom,
        },
{
    match answer {
        Ok(found) => {
            if found {
                Ok(())
            } else {
                Err(
                    ProfigError::Validation {
                        field: field.name.clone(),
                        detail: Violation::PatternMismatch { value: value.clone() },
                    },
                )
            }
        },
        Err(e) => Err(ProfigError::Custom(pattern_error_text(&e))),
    }
}

/// Checks a value against the pattern of a field.
pub fn check_pattern(field: &FieldSchema, value: &Value) -> (r: Result<(), ProfigError>)
    ensures
        match r {
            Ok(_) => pattern_failure(field@, value@) is None,
            Err(e) => pattern_failure(field@, value@) matches Some(f) && reports(e@, f),
        },
{
    match &field.metadata.regex {
        Some(pattern) => {
            let answer = valid_regex(value, pattern.as_str());
            pattern_verdict(field, value, answer)
        },
        None => Ok(()),
    }
}

/// Checks the value that a document holds for a field.
pub fn check_present(field: &FieldSchema, value: &Value) -> (r: Result<(), ProfigError>)
    ensures
        match r {
            Ok(_) => present_failure(field@, value@) is None,
            Err(e) => present_failure(field@, value@) matches Some(f) && reports(e@, f),
        },
{
    match field.ty {
        FieldType::Int => check_bounds(field, value),
        FieldType::Float => check_bounds(field, value),
        FieldType::Str => check_pattern(field, value),
        FieldType::Bool => Ok(()),
    }
}

/// Gives a field without a member its default.
pub fn apply_default(config: &mut Value, field: &FieldSchema) -> (r: Result<(), ProfigError>)
    ensures
        match r {
            Ok(_) => fill_default(old(config)@, field@) == Ok::<ValueView, Failure>(
                final(config)@,
            ),
            Err(e) => {
                &&& final(config)@ == old(config)@
                &&& fill_default(old(config)@, field@) matches Err(f) && reports(e@, f)
            },
        },
{
    match &field.metadata.default {
        Some(text) => {
            match parse_default(field.ty, text.as_str()) {
                Some(value) => {
                    config.insert(field.name.clone(), value);
                    Ok(())
                },
                None => Err(
                    ProfigError::Validation {
                        field: field.name.clone(),
                        detail: Violation::BadDefault {
                            default: text.clone(),
                            expected: field.ty,
                        },
                    },
                ),
            }
        },
        None => Ok(()),
    }
}

/// Validates one field: checks the member that is there, or fills in the
/// default of the one that is not.
pub fn validate_field(config: &mut Value, field: &FieldSchema) -> (r: Result<(), ProfigError>)
    ensures
        match r {
            Ok(_) => step(old(config)@, field@) == Ok::<ValueView, Failure>(final(config)@),
            Err(e) => {
                &&& final(config)@ == old(config)@
                &&& step(old(config)@, field@) matches Err(f) && reports(e@, f)
            },
        },
{
    let checked = match config.get(field.name.as_str()) {
        Some(value) => {
            if value.is_null() {
                None
            } else {
                Some(check_present(field, value))
            }
        },
        None => None,
    };
    match checked {
        Some(result) => result,
        None => apply_default(config, field),
    }
}

/// Validates a document against a schema, field by field in schema order,
/// and fills in the defaults of the fields that the document lacks.
///
/// On success the document is the one that the walk over the whole schema
/// leaves. On failure it is the document as the failing field found it:
/// the defaults of earlier fields are in it.
pub fn validate_fields(config: &mut Value, schema: &[FieldSchema]) -> (r: Result<(), ProfigError>)
    ensures
        final(config)@ == run(old(config)@, schema_view(schema@)).value,
        match r {
            Ok(_) => run(old(config)@, schema_view(schema@)).failure is None,
            Err(e) => run(old(config)@, schema_view(schema@)).failure matches Some(f) && reports(
                e@,
                f,
            ),
        },
{
    let ghost fields = schema_view(schema@);
    let ghost start = config@;
    let mut i: usize = 0;
    while i < schema.len()
        invariant
            i <= schema@.len(),
            fields == schema_view(schema@),
            start == old(config)@,
            run_from(config@, fields, i as int) == run(start, fields),
        decreases schema@.len() - i,
    {
        assert(fields[i as int] == schema@[i as int]@);
        match validate_field(config, &schema[i]) {
            Ok(_) => {},
            Err(e) => {
                return Err(e);
            },
        }
        i += 1;
    }
    Ok(())
}

} // verus!
