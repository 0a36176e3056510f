//! Facts about validation as a whole, proved from the contracts of
//! `validate_data` and `validate`.
use vstd::prelude::*;
use crate::data_validator::{
    attribute_errors, codes_contain, entry_code_violation, groups_contain, option_seq, report,
    type_violation, validation_outcome, violations, DataValidationStatus, ValidationSetupError,
};
use crate::json::{member, JsonValue};
use crate::schema::{Attribute, AttributeType, EntryCodes, NestedAttrType};
use crate::validator::text_validation_outcome;

verus! {

/// The declared type `t` admits the value `v`.
pub open spec fn type_conforms(t: Option<NestedAttrType>, v: JsonValue) -> bool {
    match t {
        Some(NestedAttrType::Value(AttributeType::Numeric)) => v is Number,
        Some(NestedAttrType::Value(AttributeType::Boolean)) => v is Bool,
        Some(NestedAttrType::Value(_)) => v is String,
        Some(NestedAttrType::Array(_)) => v is Array,
        _ => true,
    }
}

/// The value `v` is one of the permitted `codes`.
pub open spec fn entry_codes_conform(codes: Option<EntryCodes>, v: JsonValue) -> bool {
    match codes {
        Some(EntryCodes::Array(c)) => v matches JsonValue::String(s) && codes_contain(c@, s@),
        Some(EntryCodes::Object(g)) => v matches JsonValue::String(s) && groups_contain(g@, s@),
        _ => true,
    }
}

/// How many of its rules (presence, type, entry codes) an attribute breaks
/// with the value `value`; arrays and objects are not held to any.
pub open spec fn broken_rules(attr: Attribute, value: Option<JsonValue>) -> nat {
    match value {
        None => if attr.is_mandatory() {
            1
        } else {
            0
        },
        Some(v) => if v.is_composite() {
            0
        } else {
            (if type_conforms(attr.attribute_type, v) {
                0nat
            } else {
                1nat
            }) + (if entry_codes_conform(attr.entry_codes, v) {
                0nat
            } else {
                1nat
            })
        },
    }
}

/// The number of (attribute, rule) pairs that a record breaks.
pub open spec fn violation_count(attrs: Seq<Attribute>, fields: Seq<(String, JsonValue)>) -> nat
    decreases attrs.len(),
{
    if attrs.len() == 0 {
        0
    } else {
        violation_count(attrs.drop_last(), fields) + broken_rules(
            attrs.last(),
            member(fields, attrs.last().name@),
        )
    }
}

proof fn lemma_type_violation_iff(t: Option<NestedAttrType>, v: JsonValue)
    ensures
        type_violation(t, v) is None <==> type_conforms(t, v),
{
}

proof fn lemma_entry_code_violation_iff(codes: Option<EntryCodes>, v: JsonValue)
    ensures
        entry_code_violation(codes, v) is None <==> entry_codes_conform(codes, v),
{
}

proof fn lemma_attribute_error_count(attr: Attribute, value: Option<JsonValue>)
    ensures
        attribute_errors(attr, value).len() == broken_rules(attr, value),
{
    if let Some(v) = value {
        lemma_type_violation_iff(attr.attribute_type, v);
        lemma_entry_code_violation_iff(attr.entry_codes, v);
        if !v.is_composite() {
            assert(violations(attr, value) == option_seq(type_violation(attr.attribute_type, v))
                + option_seq(entry_code_violation(attr.entry_codes, v)));
        }
    }
}

proof fn lemma_report_len(attrs: Seq<Attribute>, fields: Seq<(String, JsonValue)>)
    ensures
        report(attrs, fields).len() == violation_count(attrs, fields),
    decreases attrs.len(),
{
    if attrs.len() > 0 {
        lemma_report_len(attrs.drop_last(), fields);
        lemma_attribute_error_count(attrs.last(), member(fields, attrs.last().name@));
    }
}

proof fn lemma_no_violation_each(attrs: Seq<Attribute>, fields: Seq<(String, JsonValue)>)
    requires
        violation_count(attrs, fields) == 0,
    ensures
        forall|i: int|
            0 <= i < attrs.len() ==> broken_rules(#[trigger] attrs[i], member(fields, attrs[i].name@))
                == 0,
    decreases attrs.len(),
{
    if attrs.len() > 0 {
        lemma_no_violation_each(attrs.drop_last(), fields);
        assert forall|i: int| 0 <= i < attrs.len() implies broken_rules(
            #[trigger] attrs[i],
            member(fields, attrs[i].name@),
        ) == 0 by {
            if i < attrs.len() - 1 {
                assert(attrs[i] == attrs.drop_last()[i]);
            }
        }
    }
}

/// A record found valid has a value for every mandatory attribute, and every
/// scalar value in it has the declared type and is one of the attribute's
/// entry codes.
pub proof fn lemma_valid_record_conforms(
    attrs: Seq<Attribute>,
    data: JsonValue,
    r: Result<DataValidationStatus, ValidationSetupError>,
)
    requires
        validation_outcome(attrs, data, r),
        r matches Ok(DataValidationStatus::Valid),
    ensures
        data matches JsonValue::Object(fields) && forall|i: int|
            0 <= i < attrs.len() ==> {
                let value = member(fields@, (#[trigger] attrs[i]).name@);
                &&& attrs[i].is_mandatory() ==> value is Some
                &&& value is Some && !value->0.is_composite() ==> type_conforms(
                    attrs[i].attribute_type,
                    value->0,
                ) && entry_codes_conform(attrs[i].entry_codes, value->0)
            },
{
    if let JsonValue::Object(fields) = data {
        lemma_report_len(attrs, fields@);
        lemma_no_violation_each(attrs, fields@);
    }
}

/// The number of messages reported for a record is the number of
/// (attribute, rule) pairs it breaks: no broken rule is merged with another
/// or skipped.
pub proof fn lemma_error_count(
    attrs: Seq<Attribute>,
    data: JsonValue,
    r: Result<DataValidationStatus, ValidationSetupError>,
)
    requires
        validation_outcome(attrs, data, r),
        data is Object,
    ensures
        data matches JsonValue::Object(fields) && r matches Ok(s) && s.messages().len()
            == violation_count(attrs, fields@),
{
    if let JsonValue::Object(fields) = data {
        lemma_report_len(attrs, fields@);
    }
}

/// Validating the same text against the same attributes twice gives the
/// same outcome: the same status with the same messages, or the same error.
pub proof fn lemma_validate_idempotent(
    attrs: Seq<Attribute>,
    text: Seq<char>,
    first: Result<DataValidationStatus, ValidationSetupError>,
    second: Result<DataValidationStatus, ValidationSetupError>,
)
    requires
        text_validation_outcome(attrs, text, first),
        text_validation_outcome(attrs, text, second),
    ensures
        first is Ok <==> second is Ok,
        first matches Ok(s) ==> second matches Ok(t) && (s is Valid <==> t is Valid) && s.messages()
            == t.messages(),
        first matches Err(e) ==> second matches Err(f) && e.message_text() == f.message_text(),
{
}

} // verus!
