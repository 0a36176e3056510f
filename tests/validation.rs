use oca_sdk_rs::data_validator::{
    check_entry_codes, check_type, describe_error, validate_attribute, validate_data,
    DataValidationStatus, ErrorKind, ValidationSetupError,
};
use oca_sdk_rs::json::{get_member, render_scalar, JsonValue};
use oca_sdk_rs::schema::{Attribute, AttributeType, EntryCodes, NestedAttrType};
use oca_sdk_rs::validator::validate;

fn s(t: &str) -> String {
    t.to_string()
}

fn attr(name: &str) -> Attribute {
    Attribute { name: s(name), attribute_type: None, conformance: None, entry_codes: None }
}

fn typed(name: &str, t: AttributeType) -> Attribute {
    Attribute { attribute_type: Some(NestedAttrType::Value(t)), ..attr(name) }
}

fn mandatory(mut a: Attribute) -> Attribute {
    a.conformance = Some(s("M"));
    a
}

fn flat_codes(name: &str, codes: &[&str]) -> Attribute {
    Attribute {
        entry_codes: Some(EntryCodes::Array(codes.iter().map(|c| s(c)).collect())),
        ..attr(name)
    }
}

fn grouped_codes(name: &str, groups: &[(&str, &[&str])]) -> Attribute {
    let g = groups
        .iter()
        .map(|(k, codes)| (s(k), codes.iter().map(|c| s(c)).collect()))
        .collect();
    Attribute { entry_codes: Some(EntryCodes::Object(g)), ..attr(name) }
}

fn object(members: Vec<(&str, JsonValue)>) -> JsonValue {
    JsonValue::Object(members.into_iter().map(|(k, v)| (s(k), v)).collect())
}

fn num(t: &str) -> JsonValue {
    JsonValue::Number(s(t))
}

fn text(t: &str) -> JsonValue {
    JsonValue::String(s(t))
}

fn errors_of(status: DataValidationStatus) -> Vec<String> {
    match status {
        DataValidationStatus::Valid => vec![],
        DataValidationStatus::Invalid(e) => e,
    }
}

#[test]
fn missing_mandatory_value_is_reported() {
    let attrs = vec![mandatory(typed("age", AttributeType::Numeric))];
    let r = validate_data(&attrs, &object(vec![])).unwrap();
    assert_eq!(errors_of(r), vec![s("Attribute \"age\" value is mandatory")]);
}

#[test]
fn number_where_text_declared_is_reported() {
    let attrs = vec![typed("name", AttributeType::Text)];
    let r = validate_data(&attrs, &object(vec![("name", num("42"))])).unwrap();
    assert_eq!(errors_of(r), vec![s("Attribute \"name\" value (42) is not a string")]);
}

#[test]
fn flat_entry_codes_membership() {
    let attrs = vec![flat_codes("color", &["red", "green"])];
    let r = validate_data(&attrs, &object(vec![("color", text("blue"))])).unwrap();
    assert_eq!(errors_of(r), vec![s("Attribute \"color\" value (\"blue\") is not in entry codes")]);
    let r = validate_data(&attrs, &object(vec![("color", text("red"))])).unwrap();
    assert_eq!(r, DataValidationStatus::Valid);
}

#[test]
fn grouped_entry_codes_take_the_union_of_groups() {
    let attrs = vec![grouped_codes("category", &[("g1", &["a", "b"]), ("g2", &["c"])])];
    let r = validate_data(&attrs, &object(vec![("category", text("c"))])).unwrap();
    assert_eq!(r, DataValidationStatus::Valid);
    let r = validate_data(&attrs, &object(vec![("category", text("d"))])).unwrap();
    assert_eq!(errors_of(r).len(), 1);
}

#[test]
fn array_value_bypasses_array_type() {
    let attrs = vec![Attribute {
        attribute_type: Some(NestedAttrType::Array(Box::new(NestedAttrType::Value(
            AttributeType::Text,
        )))),
        ..attr("tags")
    }];
    let tags = JsonValue::Array(vec![num("1"), num("2"), num("3")]);
    let r = validate_data(&attrs, &object(vec![("tags", tags)])).unwrap();
    assert_eq!(r, DataValidationStatus::Valid);
}

#[test]
fn arrays_and_objects_bypass_every_rule() {
    let a = mandatory(Attribute {
        entry_codes: Some(EntryCodes::Array(vec![s("x")])),
        ..typed("n", AttributeType::Numeric)
    });
    let arr = JsonValue::Array(vec![text("y")]);
    assert!(validate_attribute(&a, Some(&arr)).is_empty());
    let obj = object(vec![("k", JsonValue::Bool(true))]);
    assert!(validate_attribute(&a, Some(&obj)).is_empty());
}

#[test]
fn absent_optional_attribute_gives_no_error() {
    let a = typed("note", AttributeType::Text);
    assert!(validate_attribute(&a, None).is_empty());
    let other = Attribute { conformance: Some(s("O")), ..typed("note", AttributeType::Text) };
    assert!(validate_attribute(&other, None).is_empty());
    let attrs = vec![a, other];
    assert_eq!(validate_data(&attrs, &object(vec![])).unwrap(), DataValidationStatus::Valid);
}

#[test]
fn type_and_entry_code_errors_both_count() {
    let a = Attribute {
        entry_codes: Some(EntryCodes::Array(vec![s("x"), s("y")])),
        ..typed("code", AttributeType::Numeric)
    };
    let errors = validate_attribute(&a, Some(&text("z")));
    assert_eq!(
        errors,
        vec![
            s("Attribute \"code\" value (\"z\") is not a number"),
            s("Attribute \"code\" value (\"z\") is not in entry codes"),
        ]
    );
}

#[test]
fn non_string_value_against_entry_codes_is_an_error_not_a_crash() {
    let attrs = vec![flat_codes("color", &["red"]), mandatory(attr("size"))];
    let r = validate_data(&attrs, &object(vec![("color", num("3"))])).unwrap();
    assert_eq!(
        errors_of(r),
        vec![
            s("Attribute \"color\" value (3) is not comparable to entry codes"),
            s("Attribute \"size\" value is mandatory"),
        ]
    );
    let g = grouped_codes("g", &[("a", &["t"])]);
    assert_eq!(
        check_entry_codes(&g.entry_codes, &JsonValue::Bool(false)),
        Some(ErrorKind::NotComparableToEntryCodes)
    );
}

#[test]
fn errors_follow_attribute_order() {
    let attrs = vec![
        mandatory(attr("b")),
        typed("a", AttributeType::Boolean),
        mandatory(attr("c")),
    ];
    let data = object(vec![("a", JsonValue::Null)]);
    let r = validate_data(&attrs, &data).unwrap();
    assert_eq!(
        errors_of(r),
        vec![
            s("Attribute \"b\" value is mandatory"),
            s("Attribute \"a\" value (null) is not a boolean"),
            s("Attribute \"c\" value is mandatory"),
        ]
    );
}

#[test]
fn non_object_data_is_a_setup_error() {
    let attrs = vec![mandatory(attr("a"))];
    assert_eq!(validate_data(&attrs, &JsonValue::Array(vec![])), Err(ValidationSetupError::NotAnObject));
    assert_eq!(validate_data(&attrs, &num("1")), Err(ValidationSetupError::NotAnObject));
    assert_eq!(ValidationSetupError::NotAnObject.message(), "Data is not an object");
}

#[test]
fn text_entry_point_parses_then_validates() {
    let attrs = vec![mandatory(typed("age", AttributeType::Numeric)), typed("name", AttributeType::Text)];
    let r = validate(&attrs, "{\"age\": 30, \"name\": \"Ann\"}").unwrap();
    assert_eq!(r, DataValidationStatus::Valid);
    let r = validate(&attrs, "{\"name\": true}").unwrap();
    assert_eq!(
        errors_of(r),
        vec![
            s("Attribute \"age\" value is mandatory"),
            s("Attribute \"name\" value (true) is not a string"),
        ]
    );
    let r = validate(&attrs, "{\"age\": 2.5e3}").unwrap();
    assert_eq!(r, DataValidationStatus::Valid);
}

#[test]
fn text_entry_point_reports_parse_failure_and_non_object() {
    let attrs = vec![attr("a")];
    match validate(&attrs, "{not json") {
        Err(e @ ValidationSetupError::ParseFailure(_)) => {
            assert!(e.message().starts_with("Failed to parse data: "))
        }
        other => panic!("unexpected {:?}", other),
    }
    assert_eq!(validate(&attrs, "[1, 2]"), Err(ValidationSetupError::NotAnObject));
}

#[test]
fn parsed_values_keep_their_text() {
    let attrs = vec![typed("flag", AttributeType::Boolean)];
    let r = validate(&attrs, "{\"flag\": -17}").unwrap();
    assert_eq!(errors_of(r), vec![s("Attribute \"flag\" value (-17) is not a boolean")]);
    let r = validate(&attrs, "{\"flag\": \"a\\\"b\"}").unwrap();
    assert_eq!(errors_of(r), vec![s("Attribute \"flag\" value (\"a\\\"b\") is not a boolean")]);
}

#[test]
fn repeated_validation_gives_the_same_result() {
    let attrs = vec![mandatory(typed("x", AttributeType::Text)), flat_codes("y", &["p"])];
    let data = "{\"y\": \"q\"}";
    assert_eq!(validate(&attrs, data), validate(&attrs, data));
    let bad = "{";
    assert_eq!(validate(&attrs, bad), validate(&attrs, bad));
}

#[test]
fn valid_record_meets_every_rule() {
    let attrs = vec![
        mandatory(typed("n", AttributeType::Numeric)),
        mandatory(Attribute {
            entry_codes: Some(EntryCodes::Array(vec![s("on"), s("off")])),
            ..typed("state", AttributeType::Text)
        }),
        typed("when", AttributeType::DateTime),
        typed("blob", AttributeType::Binary),
    ];
    let data = object(vec![
        ("n", num("1")),
        ("state", text("off")),
        ("when", text("2024-01-01")),
        ("blob", text("AAEC")),
    ]);
    assert_eq!(validate_data(&attrs, &data).unwrap(), DataValidationStatus::Valid);
}

#[test]
fn check_type_covers_each_declared_kind() {
    let t = |k| Some(NestedAttrType::Value(k));
    assert_eq!(check_type(&t(AttributeType::Text), &num("1")), Some(ErrorKind::NotAString));
    assert_eq!(check_type(&t(AttributeType::DateTime), &JsonValue::Null), Some(ErrorKind::NotAString));
    assert_eq!(check_type(&t(AttributeType::Binary), &text("x")), None);
    assert_eq!(check_type(&t(AttributeType::Numeric), &text("1")), Some(ErrorKind::NotANumber));
    assert_eq!(check_type(&t(AttributeType::Boolean), &JsonValue::Bool(true)), None);
    assert_eq!(check_type(&t(AttributeType::Boolean), &num("0")), Some(ErrorKind::NotABoolean));
    let arr = Some(NestedAttrType::Array(Box::new(NestedAttrType::Null)));
    assert_eq!(check_type(&arr, &text("x")), Some(ErrorKind::NotAnArray));
    assert_eq!(check_type(&arr, &JsonValue::Array(vec![])), None);
    assert_eq!(check_type(&Some(NestedAttrType::Null), &num("1")), None);
    assert_eq!(check_type(&Some(NestedAttrType::Reference(s("refn:x"))), &num("1")), None);
    assert_eq!(check_type(&None, &num("1")), None);
}

#[test]
fn reference_entry_codes_are_not_checked() {
    let codes = Some(EntryCodes::Sai(s("EABC")));
    assert_eq!(check_entry_codes(&codes, &text("anything")), None);
    assert_eq!(check_entry_codes(&codes, &num("5")), None);
    assert_eq!(check_entry_codes(&None, &num("5")), None);
}

#[test]
fn scalar_rendering() {
    assert_eq!(render_scalar(&JsonValue::Null), "null");
    assert_eq!(render_scalar(&JsonValue::Bool(false)), "false");
    assert_eq!(render_scalar(&num("1.5")), "1.5");
    assert_eq!(render_scalar(&text("a\"b\\c\n")), "\"a\\\"b\\\\c\\n\"");
    assert_eq!(
        describe_error(&s("x"), ErrorKind::NotAnArray, &s("7")),
        "Attribute \"x\" value (7) is not an array"
    );
}

#[test]
fn member_lookup_takes_the_first_match() {
    let fields = vec![(s("a"), num("1")), (s("b"), num("2")), (s("a"), num("3"))];
    assert_eq!(get_member(&fields, &s("a")), Some(&num("1")));
    assert_eq!(get_member(&fields, &s("b")), Some(&num("2")));
    assert_eq!(get_member(&fields, &s("c")), None);
}

#[test]
fn empty_schema_accepts_any_object() {
    let attrs: Vec<Attribute> = vec![];
    assert_eq!(validate_data(&attrs, &object(vec![("z", num("1"))])).unwrap(), DataValidationStatus::Valid);
    assert_eq!(validate(&attrs, "{}").unwrap(), DataValidationStatus::Valid);
}
