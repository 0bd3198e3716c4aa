//! What holds of validation on every document and every schema.

use vstd::prelude::*;
use crate::defaults::{default_value, has_type};
use crate::error::ViolationView;
use crate::float::Float64;
use crate::pattern::{pattern_compiles, pattern_finds};
use crate::types::{FieldSchemaView, FieldType};
use crate::validator::{
    Failure, Outcome, above, after, below, present_failure, run, run_from, step,
};
use crate::value::{
    ValueView, lemma_lookup_after_upsert, lemma_lookup_other_after_upsert,
};

verus! {

/// Setting a member of an object makes it the member found under its key,
/// and leaves the members under all other keys as they were.
pub proof fn lemma_with(config: ValueView, key: Seq<char>, value: ValueView, other: Seq<char>)
    ensures
        config.with(key, value) is Object <==> config is Object,
        config is Object ==> config.with(key, value).get(key) == Some(value),
        !(config is Object) ==> config.with(key, value) == config,
        other != key ==> config.with(key, value).get(other) == config.get(other),
{
    match config {
        ValueView::Object(members) => {
            lemma_lookup_after_upsert(members, key, value);
            if other != key {
                lemma_lookup_other_after_upsert(members, key, value, other);
            }
        },
        _ => {},
    }
}

/// A default that can be read is never null.
pub proof fn lemma_default_is_not_null(ty: FieldType, text: Seq<char>)
    ensures
        default_value(ty, text) matches Some(v) ==> !(v is Null),
{
}

/// A field does nothing to a document that is no object, whatever else it
/// does: it has no members to check and none to set.
pub proof fn lemma_step_keeps_other_documents(config: ValueView, field: FieldSchemaView)
    requires
        !(config is Object),
    ensures
        step(config, field) matches Ok(next) ==> next == config,
{
}

/// A field that passes leaves every member that is there and not null as it
/// is, and leaves an object an object.
pub proof fn lemma_step_keeps_members(config: ValueView, field: FieldSchemaView, key: Seq<char>)
    requires
        step(config, field) is Ok,
    ensures
        after(config, field) is Object <==> config is Object,
        config.has(key) ==> after(config, field).get(key) == config.get(key),
        key != field.name ==> after(config, field).get(key) == config.get(key),
{
    if !config.has(field.name) {
        match field.metadata.default {
            Some(text) => {
                let value = default_value(field.ty, text).unwrap();
                lemma_with(config, field.name, value, key);
            },
            None => {},
        }
    }
}

/// Numeric bounds are inclusive. A numeric field with both bounds accepts a
/// number that lies between them, the bounds themselves included, and
/// rejects a number below the lower or above the upper bound with a
/// violation that names the field. The number is compared as a binary64.
pub proof fn lemma_bounds(
    config: ValueView,
    field: FieldSchemaView,
    min: Float64,
    max: Float64,
    number: crate::number::Number,
)
    requires
        field.ty.is_numeric(),
        field.metadata.min == Some(min),
        field.metadata.max == Some(max),
        min.le(max),
        config.get(field.name) == Some(ValueView::Number(number)),
    ensures
        min.le(number.float_value()) && number.float_value().le(max) ==> step(config, field)
            == Ok::<ValueView, Failure>(config),
        number.float_value().lt(min) ==> step(config, field) == Err::<ValueView, Failure>(
            Failure::Violation {
                field: field.name,
                detail: ViolationView::BelowMin { value: ValueView::Number(number) },
            },
        ),
        max.lt(number.float_value()) ==> step(config, field) == Err::<ValueView, Failure>(
            Failure::Violation {
                field: field.name,
                detail: ViolationView::AboveMax { value: ValueView::Number(number) },
            },
        ),
        run(config, seq![field]).failure is None <==> step(config, field) is Ok,
{
    let value = ValueView::Number(number);
    assert(config.has(field.name));
    assert(below(value, min) == number.float_value().lt(min));
    assert(above(value, max) == max.lt(number.float_value()));
    lemma_run_of_one(config, field);
}

/// A text field with a pattern accepts a text in which the pattern is
/// found, and rejects every other text with a violation that names the
/// field. A pattern that is no regular expression is a failure of its own
/// kind, met as soon as a text is to be matched.
pub proof fn lemma_pattern(
    config: ValueView,
    field: FieldSchemaView,
    pattern: Seq<char>,
    text: Seq<char>,
)
    requires
        field.ty is Str,
        field.metadata.regex == Some(pattern),
        config.get(field.name) == Some(ValueView::Str(text)),
    ensures
        pattern_compiles(pattern) && pattern_finds(pattern, text) ==> step(config, field)
            == Ok::<ValueView, Failure>(config),
        pattern_compiles(pattern) && !pattern_finds(pattern, text) ==> step(config, field)
            == Err::<ValueView, Failure>(
            Failure::Violation {
                field: field.name,
                detail: ViolationView::PatternMismatch { value: ValueView::Str(text) },
            },
        ),
        !pattern_compiles(pattern) ==> step(config, field) == Err::<ValueView, Failure>(
            Failure::BadPattern { pattern },
        ),
        run(config, seq![field]).failure is None <==> step(config, field) is Ok,
{
    assert(config.has(field.name));
    lemma_run_of_one(config, field);
}

/// A text field with a pattern rejects a value that is there, not null and
/// no text, whatever the pattern is.
pub proof fn lemma_pattern_needs_text(
    config: ValueView,
    field: FieldSchemaView,
    pattern: Seq<char>,
)
    requires
        field.ty is Str,
        field.metadata.regex == Some(pattern),
        config.has(field.name),
        !(config.get(field.name) matches Some(ValueView::Str(_))),
    ensures
        step(config, field) == Err::<ValueView, Failure>(
            Failure::Violation {
                field: field.name,
                detail: ViolationView::PatternMismatch { value: config.get(field.name).unwrap() },
            },
        ),
{
}

/// A constraint that does not apply to a field's type is never looked at:
/// a field passes on a value whatever bounds a text or boolean field has and
/// whatever pattern a numeric or boolean field has.
pub proof fn lemma_inapplicable_constraints(field: FieldSchemaView, value: ValueView)
    ensures
        field.ty is Bool ==> present_failure(field, value) is None,
        field.ty is Str && field.metadata.regex is None ==> present_failure(field, value) is None,
        field.ty.is_numeric() && field.metadata.min is None && field.metadata.max is None
            ==> present_failure(field, value) is None,
        field.ty.is_numeric() && !(value is Number) ==> present_failure(field, value) is None,
{
}

/// The walk over a schema of one field is that field's step.
pub proof fn lemma_run_of_one(config: ValueView, field: FieldSchemaView)
    ensures
        run(config, seq![field]) == match step(config, field) {
            Ok(next) => Outcome { value: next, failure: None },
            Err(failure) => Outcome { value: config, failure: Some(failure) },
        },
{
    let schema = seq![field];
    assert(schema[0] == field);
    match step(config, field) {
        Ok(next) => {
            assert(run_from(next, schema, 1) == Outcome { value: next, failure: None });
        },
        Err(_) => {},
    }
}

/// A field with a default, on an object that has no member for it or a null
/// one: where the default can be read, the field passes and the member is
/// the default, with the concrete type of the field; where it cannot, the
/// field fails with a violation that names the field and the default.
pub proof fn lemma_default_step(config: ValueView, field: FieldSchemaView, text: Seq<char>)
    requires
        field.metadata.default == Some(text),
        !config.has(field.name),
    ensures
        match default_value(field.ty, text) {
            Some(value) => {
                &&& step(config, field) == Ok::<ValueView, Failure>(
                    config.with(field.name, value),
                )
                &&& has_type(value, field.ty)
                &&& config is Object ==> after(config, field).get(field.name) == Some(
                    value,
                )
            },
            None => step(config, field) == Err::<ValueView, Failure>(
                Failure::Violation {
                    field: field.name,
                    detail: ViolationView::BadDefault { default: text, expected: field.ty },
                },
            ),
        },
{
    match default_value(field.ty, text) {
        Some(value) => {
            lemma_with(config, field.name, value, field.name);
        },
        None => {},
    }
}

/// A member that is there and not null stays as it is for the rest of a walk
/// that passes.
pub proof fn lemma_run_keeps_members(
    config: ValueView,
    schema: Seq<FieldSchemaView>,
    from: int,
    key: Seq<char>,
)
    requires
        0 <= from,
        config.has(key),
    ensures
        run_from(config, schema, from).value.get(key) == config.get(key),
    decreases schema.len() - from,
{
    if from < schema.len() {
        match step(config, schema[from]) {
            Ok(next) => {
                lemma_step_keeps_members(config, schema[from], key);
                lemma_run_keeps_members(next, schema, from + 1, key);
            },
            Err(_) => {},
        }
    }
}

/// A walk touches only the members that its fields name: what is found
/// under any other key stays as it is, null and missing members too.
pub proof fn lemma_run_keeps_unrelated_members(
    config: ValueView,
    schema: Seq<FieldSchemaView>,
    from: int,
    key: Seq<char>,
)
    requires
        0 <= from,
        forall|j: int| from <= j < schema.len() ==> (#[trigger] schema[j]).name != key,
    ensures
        run_from(config, schema, from).value.get(key) == config.get(key),
    decreases schema.len() - from,
{
    if from < schema.len() {
        match step(config, schema[from]) {
            Ok(next) => {
                lemma_step_keeps_members(config, schema[from], key);
                lemma_run_keeps_unrelated_members(next, schema, from + 1, key);
            },
            Err(_) => {},
        }
    }
}

/// The walk leaves an object an object and anything else as it is.
pub proof fn lemma_run_keeps_kind(config: ValueView, schema: Seq<FieldSchemaView>, from: int)
    requires
        0 <= from,
    ensures
        run_from(config, schema, from).value is Object <==> config is Object,
        !(config is Object) ==> run_from(config, schema, from).value == config,
    decreases schema.len() - from,
{
    if from < schema.len() {
        match step(config, schema[from]) {
            Ok(next) => {
                lemma_step_keeps_members(config, schema[from], schema[from].name);
                if !(config is Object) {
                    lemma_step_keeps_other_documents(config, schema[from]);
                }
                lemma_run_keeps_kind(next, schema, from + 1);
            },
            Err(_) => {},
        }
    }
}

/// Defaults are filled in with the type of their field. Take an object that
/// has no member, or a null one, for the field at `index`, a default for
/// that field, and no default on any earlier field of the same name. After a
/// walk that passes, the member of that field is the default, read as the
/// field's type.
pub proof fn lemma_default_is_filled_in(
    config: ValueView,
    schema: Seq<FieldSchemaView>,
    index: int,
    text: Seq<char>,
)
    requires
        0 <= index < schema.len(),
        config is Object,
        !config.has(schema[index].name),
        schema[index].metadata.default == Some(text),
        forall|j: int|
            0 <= j < index && (#[trigger] schema[j]).name == schema[index].name
                ==> schema[j].metadata.default is None,
        run(config, schema).failure is None,
    ensures
        default_value(schema[index].ty, text) matches Some(value) && run(config, schema).value.get(
            schema[index].name,
        ) == Some(value) && has_type(value, schema[index].ty),
{
    lemma_default_reached(config, schema, 0, index, text);
}

/// The same, for the rest of a walk that has not yet reached the field.
proof fn lemma_default_reached(
    config: ValueView,
    schema: Seq<FieldSchemaView>,
    from: int,
    index: int,
    text: Seq<char>,
)
    requires
        0 <= from <= index < schema.len(),
        config is Object,
        !config.has(schema[index].name),
        schema[index].metadata.default == Some(text),
        forall|j: int|
            from <= j < index && (#[trigger] schema[j]).name == schema[index].name
                ==> schema[j].metadata.default is None,
        run_from(config, schema, from).failure is None,
    ensures
        default_value(schema[index].ty, text) matches Some(value) && run_from(
            config,
            schema,
            from,
        ).value.get(schema[index].name) == Some(value) && has_type(value, schema[index].ty),
    decreases index - from,
{
    let field = schema[index];
    let next = after(config, schema[from]);
    if from == index {
        lemma_default_step(config, field, text);
        let value = default_value(field.ty, text).unwrap();
        lemma_default_is_not_null(field.ty, text);
        assert(next.has(field.name));
        lemma_run_keeps_members(next, schema, from + 1, field.name);
    } else {
        lemma_step_keeps_members(config, schema[from], field.name);
        if schema[from].name == field.name {
            assert(schema[from].metadata.default is None);
            assert(next == config);
        }
        lemma_default_reached(next, schema, from + 1, index, text);
    }
}

/// Whether a field, where it passes on a document, leaves it as it is.
pub open spec fn settled(config: ValueView, field: FieldSchemaView) -> bool {
    step(config, field) matches Ok(next) ==> next == config
}

/// A field that has passed on a document is settled in what it left.
pub proof fn lemma_settled_after_step(config: ValueView, field: FieldSchemaView)
    requires
        step(config, field) is Ok,
    ensures
        settled(after(config, field), field),
{
    let next = after(config, field);
    if !config.has(field.name) {
        match field.metadata.default {
            Some(text) => {
                let value = default_value(field.ty, text).unwrap();
                lemma_with(config, field.name, value, field.name);
                lemma_default_is_not_null(field.ty, text);
                if config is Object {
                    assert(next.has(field.name));
                }
            },
            None => {},
        }
    }
}

/// A field that is settled in a document stays settled when another field
/// passes on it.
pub proof fn lemma_settled_is_kept(
    config: ValueView,
    other: FieldSchemaView,
    field: FieldSchemaView,
)
    requires
        settled(config, field),
        step(config, other) is Ok,
    ensures
        settled(after(config, other), field),
{
    let next = after(config, other);
    lemma_step_keeps_members(config, other, field.name);
    if next != config {
        // `other` has set its member, which the object lacked.
        assert(!config.has(other.name));
        assert(config is Object);
        if config.has(field.name) {
            assert(next.has(field.name));
        } else {
            match field.metadata.default {
                Some(text) => {
                    match default_value(field.ty, text) {
                        Some(value) => {
                            // Filling in the default would have changed the
                            // object, so the field was not settled.
                            lemma_with(config, field.name, value, field.name);
                            lemma_default_is_not_null(field.ty, text);
                            assert(config.with(field.name, value).has(field.name));
                            assert(false);
                        },
                        None => {},
                    }
                },
                None => {},
            }
        }
    }
}

/// A walk changes nothing where the fields that it gets to are settled: it
/// goes on as long as they are, and may end, on a failure or at the end of
/// the schema, at `upto`.
proof fn lemma_settled_walk(
    config: ValueView,
    schema: Seq<FieldSchemaView>,
    from: int,
    upto: int,
)
    requires
        0 <= from <= upto <= schema.len(),
        forall|j: int| from <= j < upto ==> settled(config, #[trigger] schema[j]),
        upto < schema.len() ==> step(config, schema[upto]) is Err,
    ensures
        run_from(config, schema, from).value == config,
    decreases upto - from,
{
    if from < upto {
        assert(settled(config, schema[from]));
        match step(config, schema[from]) {
            Ok(next) => {
                lemma_settled_walk(config, schema, from + 1, upto);
            },
            Err(_) => {},
        }
    }
}

/// The same as `lemma_validation_is_idempotent`, for the rest of a walk
/// whose earlier fields are settled.
proof fn lemma_idempotent_from(config: ValueView, schema: Seq<FieldSchemaView>, from: int)
    requires
        0 <= from <= schema.len(),
        forall|j: int| 0 <= j < from ==> settled(config, #[trigger] schema[j]),
    ensures
        run(run_from(config, schema, from).value, schema).value == run_from(
            config,
            schema,
            from,
        ).value,
    decreases schema.len() - from,
{
    if from == schema.len() {
        lemma_settled_walk(config, schema, 0, from);
    } else {
        match step(config, schema[from]) {
            Ok(next) => {
                lemma_settled_after_step(config, schema[from]);
                assert forall|j: int| 0 <= j < from + 1 implies settled(
                    next,
                    #[trigger] schema[j],
                ) by {
                    if j < from {
                        lemma_settled_is_kept(config, schema[from], schema[j]);
                    }
                }
                lemma_idempotent_from(next, schema, from + 1);
            },
            Err(_) => {
                lemma_settled_walk(config, schema, 0, from);
            },
        }
    }
}

/// Validation is idempotent. The document that a walk leaves, whether the
/// walk passed or failed, is left as it is by another walk over the same
/// schema: no default is read or written a second time.
pub proof fn lemma_validation_is_idempotent(config: ValueView, schema: Seq<FieldSchemaView>)
    ensures
        run(run(config, schema).value, schema).value == run(config, schema).value,
{
    lemma_idempotent_from(config, schema, 0);
}

} // verus!
