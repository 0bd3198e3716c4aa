use profig::error::{ProfigError, Violation};
use profig::float::Float64;
use profig::number::Number;
use profig::types::{FieldSchema, FieldType};
use profig::validator::{
    check_present, greater_than_max, less_than_min, pattern_verdict, validate_field,
    validate_fields,
};
use profig::value::Value;

fn float(x: f64) -> Float64 {
    Float64::from_bits(x.to_bits())
}

fn uint(n: u64) -> Value {
    Value::Number(Number::PosInt(n))
}

fn text(s: &str) -> Value {
    Value::String(s.to_string())
}

fn object(members: Vec<(&str, Value)>) -> Value {
    Value::Object(members.into_iter().map(|(k, v)| (k.to_string(), v)).collect())
}

fn threads_and_host() -> Vec<FieldSchema> {
    vec![
        FieldSchema::new("threads", FieldType::Int).with_min(float(4.0)).with_max(float(10.0)),
        FieldSchema::new("host", FieldType::Str).with_default("localhost"),
    ]
}

#[test]
fn missing_member_gets_its_default() {
    let mut config = object(vec![("threads", uint(7))]);
    let result = validate_fields(&mut config, &threads_and_host());
    assert!(result.is_ok());
    assert_eq!(config, object(vec![("threads", uint(7)), ("host", text("localhost"))]));
}

#[test]
fn number_below_min_is_rejected_by_name() {
    let mut config = object(vec![("threads", uint(2))]);
    let result = validate_fields(&mut config, &threads_and_host());
    match result {
        Err(ProfigError::Validation { field, detail: Violation::BelowMin { value } }) => {
            assert_eq!(field, "threads");
            assert_eq!(value, uint(2));
        }
        other => panic!("unexpected result: {:?}", other),
    }
    assert_eq!(config, object(vec![("threads", uint(2))]));
}

#[test]
fn present_member_is_not_overwritten() {
    let mut config = object(vec![("threads", uint(7)), ("host", text("x"))]);
    let result = validate_fields(&mut config, &threads_and_host());
    assert!(result.is_ok());
    assert_eq!(config, object(vec![("threads", uint(7)), ("host", text("x"))]));
}

#[test]
fn bad_default_fails_when_member_is_missing() {
    let schema = vec![FieldSchema::new("port", FieldType::Int).with_default("abc")];
    let mut config = object(vec![]);
    match validate_fields(&mut config, &schema) {
        Err(ProfigError::Validation { field, detail: Violation::BadDefault { default, expected } }) => {
            assert_eq!(field, "port");
            assert_eq!(default, "abc");
            assert_eq!(expected, FieldType::Int);
        }
        other => panic!("unexpected result: {:?}", other),
    }
    assert_eq!(config, object(vec![]));
}

#[test]
fn bad_default_fails_when_member_is_null() {
    let schema = vec![FieldSchema::new("port", FieldType::Int).with_default("abc")];
    let mut config = object(vec![("port", Value::Null)]);
    let result = validate_fields(&mut config, &schema);
    assert!(matches!(
        result,
        Err(ProfigError::Validation { detail: Violation::BadDefault { .. }, .. })
    ));
    assert_eq!(config, object(vec![("port", Value::Null)]));
}

#[test]
fn bad_default_fails_every_time() {
    let schema = vec![FieldSchema::new("port", FieldType::Int).with_default("abc")];
    let mut config = object(vec![]);
    for _ in 0..3 {
        assert!(matches!(
            validate_fields(&mut config, &schema),
            Err(ProfigError::Validation { detail: Violation::BadDefault { .. }, .. })
        ));
    }
}

#[test]
fn bad_default_fails_on_a_document_that_is_no_object() {
    let schema = vec![FieldSchema::new("port", FieldType::Int).with_default("abc")];
    let mut config = Value::Null;
    assert!(matches!(
        validate_fields(&mut config, &schema),
        Err(ProfigError::Validation { detail: Violation::BadDefault { .. }, .. })
    ));
}

#[test]
fn default_is_not_read_while_the_member_is_present() {
    let schema = vec![FieldSchema::new("port", FieldType::Int).with_default("abc")];
    let mut config = object(vec![("port", uint(80))]);
    assert!(validate_fields(&mut config, &schema).is_ok());
    assert_eq!(config, object(vec![("port", uint(80))]));
}

#[test]
fn bounds_are_inclusive() {
    let schema = vec![
        FieldSchema::new("n", FieldType::Int).with_min(float(4.0)).with_max(float(10.0)),
    ];
    for n in [4u64, 5, 7, 10] {
        let mut config = object(vec![("n", uint(n))]);
        assert!(validate_fields(&mut config, &schema).is_ok(), "{} should pass", n);
    }
    for n in [0u64, 3] {
        let mut config = object(vec![("n", uint(n))]);
        assert!(matches!(
            validate_fields(&mut config, &schema),
            Err(ProfigError::Validation { detail: Violation::BelowMin { .. }, .. })
        ));
    }
    for n in [11u64, 1000, u64::MAX] {
        let mut config = object(vec![("n", uint(n))]);
        assert!(matches!(
            validate_fields(&mut config, &schema),
            Err(ProfigError::Validation { detail: Violation::AboveMax { .. }, .. })
        ));
    }
}

#[test]
fn negative_integers_are_compared_as_numbers() {
    let schema = vec![
        FieldSchema::new("n", FieldType::Int).with_min(float(-5.0)).with_max(float(5.0)),
    ];
    let mut config = object(vec![("n", Value::Number(Number::NegInt(-5)))]);
    assert!(validate_fields(&mut config, &schema).is_ok());
    let mut config = object(vec![("n", Value::Number(Number::NegInt(-6)))]);
    match validate_fields(&mut config, &schema) {
        Err(ProfigError::Validation { field, detail: Violation::BelowMin { value } }) => {
            assert_eq!(field, "n");
            assert_eq!(value, Value::Number(Number::NegInt(-6)));
        }
        other => panic!("unexpected result: {:?}", other),
    }
}

#[test]
fn float_members_are_checked_against_bounds() {
    let schema = vec![
        FieldSchema::new("ratio", FieldType::Float).with_min(float(0.5)).with_max(float(1.5)),
    ];
    let member = |x: f64| Value::Number(Number::Float(float(x)));
    for x in [0.5, 1.0, 1.5] {
        let mut config = object(vec![("ratio", member(x))]);
        assert!(validate_fields(&mut config, &schema).is_ok(), "{} should pass", x);
    }
    let mut config = object(vec![("ratio", member(0.49))]);
    assert!(matches!(
        validate_fields(&mut config, &schema),
        Err(ProfigError::Validation { detail: Violation::BelowMin { .. }, .. })
    ));
    let mut config = object(vec![("ratio", member(1.51))]);
    match validate_fields(&mut config, &schema) {
        Err(ProfigError::Validation { field, detail: Violation::AboveMax { value } }) => {
            assert_eq!(field, "ratio");
            assert_eq!(value, member(1.51));
        }
        other => panic!("unexpected result: {:?}", other),
    }
}

#[test]
fn one_sided_bounds() {
    let only_min = vec![FieldSchema::new("n", FieldType::Int).with_min(float(4.0))];
    let mut config = object(vec![("n", uint(u64::MAX))]);
    assert!(validate_fields(&mut config, &only_min).is_ok());
    let only_max = vec![FieldSchema::new("n", FieldType::Int).with_max(float(4.0))];
    let mut config = object(vec![("n", Value::Number(Number::NegInt(i64::MIN)))]);
    assert!(validate_fields(&mut config, &only_max).is_ok());
}

#[test]
fn value_that_is_no_number_passes_the_bounds() {
    let schema = vec![
        FieldSchema::new("n", FieldType::Int).with_min(float(4.0)).with_max(float(10.0)),
    ];
    for value in [text("many"), Value::Bool(true), Value::Array(vec![uint(1)])] {
        let mut config = object(vec![("n", value)]);
        assert!(validate_fields(&mut config, &schema).is_ok());
    }
}

#[test]
fn less_than_min_and_greater_than_max() {
    assert!(less_than_min(&uint(3), float(4.0)));
    assert!(!less_than_min(&uint(4), float(4.0)));
    assert!(!less_than_min(&uint(5), float(4.0)));
    assert!(!less_than_min(&text("3"), float(4.0)));
    assert!(!less_than_min(&uint(3), float(f64::NAN)));
    assert!(greater_than_max(&uint(11), float(10.0)));
    assert!(!greater_than_max(&uint(10), float(10.0)));
    assert!(!greater_than_max(&Value::Null, float(10.0)));
    assert!(greater_than_max(&uint(1), float(f64::NEG_INFINITY)));
    assert!(!greater_than_max(&uint(u64::MAX), float(f64::INFINITY)));
}

#[test]
fn large_integers_are_compared_as_binary64() {
    // 2^53 + 1 is not a binary64: as one it is 2^53.
    let n = uint((1u64 << 53) + 1);
    let bound = float((1u64 << 53) as f64);
    assert!(!greater_than_max(&n, bound));
    assert!(!less_than_min(&n, bound));
    assert!(greater_than_max(&uint((1u64 << 53) + 2), bound));
}

#[test]
fn pattern_is_searched_for_not_anchored() {
    let schema = vec![FieldSchema::new("name", FieldType::Str).with_regex("b+")];
    let mut config = object(vec![("name", text("aabbcc"))]);
    assert!(validate_fields(&mut config, &schema).is_ok());
    let anchored = vec![FieldSchema::new("name", FieldType::Str).with_regex("^b+$")];
    let mut config = object(vec![("name", text("aabbcc"))]);
    assert!(matches!(
        validate_fields(&mut config, &anchored),
        Err(ProfigError::Validation { detail: Violation::PatternMismatch { .. }, .. })
    ));
    let mut config = object(vec![("name", text("bbb"))]);
    assert!(validate_fields(&mut config, &anchored).is_ok());
}

#[test]
fn text_that_does_not_match_is_rejected_by_name() {
    let schema = vec![
        FieldSchema::new("email", FieldType::Str).with_regex(r"^[\w\.-]+@[\w\.-]+\.\w+$"),
    ];
    let mut config = object(vec![("email", text("someone@example.org"))]);
    assert!(validate_fields(&mut config, &schema).is_ok());
    let mut config = object(vec![("email", text("nobody"))]);
    match validate_fields(&mut config, &schema) {
        Err(ProfigError::Validation { field, detail: Violation::PatternMismatch { value } }) => {
            assert_eq!(field, "email");
            assert_eq!(value, text("nobody"));
        }
        other => panic!("unexpected result: {:?}", other),
    }
}

#[test]
fn value_that_is_no_text_does_not_match() {
    let schema = vec![FieldSchema::new("name", FieldType::Str).with_regex(".*")];
    let mut config = object(vec![("name", uint(5))]);
    assert!(matches!(
        validate_fields(&mut config, &schema),
        Err(ProfigError::Validation { detail: Violation::PatternMismatch { .. }, .. })
    ));
}

#[test]
fn malformed_pattern_is_its_own_kind_of_error() {
    let schema = vec![FieldSchema::new("name", FieldType::Str).with_regex("foo(bar")];
    let mut config = object(vec![("name", text("foobar"))]);
    match validate_fields(&mut config, &schema) {
        Err(ProfigError::Custom(message)) => assert!(message.contains("foo(bar")),
        other => panic!("unexpected result: {:?}", other),
    }
}

#[test]
fn malformed_pattern_is_not_compiled_for_a_missing_member() {
    let schema = vec![FieldSchema::new("name", FieldType::Str).with_regex("foo(bar")];
    let mut config = object(vec![]);
    assert!(validate_fields(&mut config, &schema).is_ok());
    assert_eq!(config, object(vec![]));
}

#[test]
fn pattern_verdict_on_each_answer() {
    let field = FieldSchema::new("name", FieldType::Str).with_regex("a");
    assert!(pattern_verdict(&field, &text("a"), Ok(true)).is_ok());
    match pattern_verdict(&field, &text("b"), Ok(false)) {
        Err(ProfigError::Validation { field, detail: Violation::PatternMismatch { value } }) => {
            assert_eq!(field, "name");
            assert_eq!(value, text("b"));
        }
        other => panic!("unexpected result: {:?}", other),
    }
    let broken = regex::Regex::new("(").unwrap_err();
    let expected = broken.to_string();
    match pattern_verdict(&field, &text("b"), Err(broken)) {
        Err(ProfigError::Custom(message)) => assert_eq!(message, expected),
        other => panic!("unexpected result: {:?}", other),
    }
}

#[test]
fn inapplicable_constraints_are_ignored() {
    let schema = vec![
        FieldSchema::new("name", FieldType::Str).with_min(float(4.0)).with_max(float(10.0)),
        FieldSchema::new("n", FieldType::Int).with_regex("^x$"),
        FieldSchema::new("flag", FieldType::Bool).with_min(float(4.0)).with_regex("^x$"),
    ];
    let mut config = object(vec![
        ("name", uint(1)),
        ("n", text("no match")),
        ("flag", Value::Bool(false)),
    ]);
    assert!(validate_fields(&mut config, &schema).is_ok());
    let field = FieldSchema::new("flag", FieldType::Bool).with_regex("(");
    assert!(check_present(&field, &text("anything")).is_ok());
}

#[test]
fn defaults_have_the_type_of_their_field() {
    let schema = vec![
        FieldSchema::new("port", FieldType::Int).with_default("5"),
        FieldSchema::new("offset", FieldType::Int).with_default("-3"),
        FieldSchema::new("pi", FieldType::Float).with_default("3.1415"),
        FieldSchema::new("scale", FieldType::Float).with_default("2"),
        FieldSchema::new("debug", FieldType::Bool).with_default("true"),
        FieldSchema::new("quiet", FieldType::Bool).with_default("false"),
        FieldSchema::new("host", FieldType::Str).with_default("5"),
    ];
    let mut config = object(vec![("pi", Value::Null)]);
    assert!(validate_fields(&mut config, &schema).is_ok());
    assert_eq!(
        config,
        object(vec![
            ("pi", Value::Number(Number::Float(float(3.1415)))),
            ("port", uint(5)),
            ("offset", Value::Number(Number::NegInt(-3))),
            ("scale", Value::Number(Number::Float(float(2.0)))),
            ("debug", Value::Bool(true)),
            ("quiet", Value::Bool(false)),
            ("host", text("5")),
        ])
    );
}

#[test]
fn integer_default_with_a_fraction_is_rejected() {
    let schema = vec![FieldSchema::new("port", FieldType::Int).with_default("3.5")];
    let mut config = object(vec![]);
    assert!(matches!(
        validate_fields(&mut config, &schema),
        Err(ProfigError::Validation { detail: Violation::BadDefault { .. }, .. })
    ));
}

#[test]
fn float_and_bool_defaults_that_cannot_be_read() {
    for (ty, default) in [
        (FieldType::Float, "abc"),
        (FieldType::Float, ""),
        (FieldType::Bool, "yes"),
        (FieldType::Bool, "True"),
        (FieldType::Int, " 5"),
    ] {
        let schema = vec![FieldSchema::new("x", ty).with_default(default)];
        let mut config = object(vec![]);
        match validate_fields(&mut config, &schema) {
            Err(ProfigError::Validation {
                field,
                detail: Violation::BadDefault { default: text, expected },
            }) => {
                assert_eq!(field, "x");
                assert_eq!(text, default);
                assert_eq!(expected, ty);
            }
            other => panic!("unexpected result: {:?}", other),
        }
    }
}

#[test]
fn member_without_default_stays_missing_or_null() {
    let schema = vec![
        FieldSchema::new("a", FieldType::Int).with_min(float(1.0)),
        FieldSchema::new("b", FieldType::Str).with_regex("^x$"),
    ];
    let mut config = object(vec![("b", Value::Null)]);
    assert!(validate_fields(&mut config, &schema).is_ok());
    assert_eq!(config, object(vec![("b", Value::Null)]));
}

#[test]
fn unrelated_members_keep_their_shape() {
    let nested = object(vec![("inner", Value::Array(vec![uint(1), Value::Null, text("x")]))]);
    let mut config = object(vec![("other", nested.clone()), ("threads", uint(4))]);
    assert!(validate_fields(&mut config, &threads_and_host()).is_ok());
    assert_eq!(
        config,
        object(vec![("other", nested), ("threads", uint(4)), ("host", text("localhost"))])
    );
}

#[test]
fn failure_keeps_the_defaults_of_earlier_fields() {
    let schema = vec![
        FieldSchema::new("host", FieldType::Str).with_default("localhost"),
        FieldSchema::new("threads", FieldType::Int).with_min(float(4.0)),
    ];
    let mut config = object(vec![("threads", uint(1))]);
    assert!(validate_fields(&mut config, &schema).is_err());
    assert_eq!(config, object(vec![("threads", uint(1)), ("host", text("localhost"))]));
}

#[test]
fn document_that_is_no_object_is_left_alone() {
    for start in [Value::Null, uint(3), text("x"), Value::Array(vec![uint(1)])] {
        let mut config = start.clone();
        assert!(validate_fields(&mut config, &threads_and_host()).is_ok());
        assert_eq!(config, start);
    }
}

#[test]
fn empty_schema_accepts_everything() {
    let mut config = object(vec![("threads", uint(1))]);
    assert!(validate_fields(&mut config, &[]).is_ok());
    assert_eq!(config, object(vec![("threads", uint(1))]));
}

#[test]
fn validation_is_idempotent() {
    let schema = vec![
        FieldSchema::new("threads", FieldType::Int).with_min(float(4.0)).with_max(float(10.0)),
        FieldSchema::new("host", FieldType::Str).with_default("localhost"),
        FieldSchema::new("port", FieldType::Int).with_default("5000"),
        FieldSchema::new("pi", FieldType::Float).with_default("3.1415"),
        FieldSchema::new("debug", FieldType::Bool).with_default("true"),
    ];
    let mut config = object(vec![("threads", uint(7)), ("port", Value::Null)]);
    assert!(validate_fields(&mut config, &schema).is_ok());
    let once = config.clone();
    assert!(validate_fields(&mut config, &schema).is_ok());
    assert_eq!(config, once);
    assert_eq!(
        once,
        object(vec![
            ("threads", uint(7)),
            ("port", uint(5000)),
            ("host", text("localhost")),
            ("pi", Value::Number(Number::Float(float(3.1415)))),
            ("debug", Value::Bool(true)),
        ])
    );
}

#[test]
fn second_walk_changes_nothing_after_a_failure() {
    let schema = vec![
        FieldSchema::new("host", FieldType::Str).with_default("localhost"),
        FieldSchema::new("port", FieldType::Int).with_default("abc"),
        FieldSchema::new("late", FieldType::Str).with_default("never"),
    ];
    let mut config = object(vec![]);
    assert!(validate_fields(&mut config, &schema).is_err());
    let once = config.clone();
    assert_eq!(once, object(vec![("host", text("localhost"))]));
    assert!(validate_fields(&mut config, &schema).is_err());
    assert_eq!(config, once);
}

#[test]
fn default_that_breaks_its_own_bounds_is_found_by_the_next_walk() {
    let schema = vec![
        FieldSchema::new("n", FieldType::Int).with_min(float(10.0)).with_default("5"),
    ];
    let mut config = object(vec![]);
    assert!(validate_fields(&mut config, &schema).is_ok());
    let once = config.clone();
    assert!(matches!(
        validate_fields(&mut config, &schema),
        Err(ProfigError::Validation { detail: Violation::BelowMin { .. }, .. })
    ));
    assert_eq!(config, once);
}

#[test]
fn first_of_two_fields_with_one_name_sets_the_default() {
    let schema = vec![
        FieldSchema::new("x", FieldType::Int).with_default("1"),
        FieldSchema::new("x", FieldType::Int).with_default("2"),
    ];
    let mut config = object(vec![]);
    assert!(validate_fields(&mut config, &schema).is_ok());
    assert_eq!(config, object(vec![("x", uint(1))]));
}

#[test]
fn validate_field_checks_or_fills() {
    let field = FieldSchema::new("host", FieldType::Str).with_default("localhost");
    let mut config = object(vec![]);
    assert!(validate_field(&mut config, &field).is_ok());
    assert_eq!(config, object(vec![("host", text("localhost"))]));
    let field = FieldSchema::new("n", FieldType::Int).with_max(float(1.0));
    let mut config = object(vec![("n", uint(2))]);
    assert!(validate_field(&mut config, &field).is_err());
}

#[test]
fn error_names_its_field() {
    let mut config = object(vec![("threads", uint(2))]);
    let error = validate_fields(&mut config, &threads_and_host()).unwrap_err();
    assert_eq!(error.field().map(|s| s.as_str()), Some("threads"));
    assert_eq!(ProfigError::Custom("x".to_string()).field(), None);
}
