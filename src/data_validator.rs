//! Validation of a parsed data record against a schema's attributes.
use vstd::prelude::*;
use crate::json::{get_member, member, render_scalar, scalar_text, JsonValue};
use crate::schema::{Attribute, AttributeType, EntryCodes, NestedAttrType};

verus! {

/// The rule an attribute's value broke.
#[derive(Clone, Copy, Debug, PartialEq, Eq)]
pub enum ErrorKind {
    MissingValue,
    NotAString,
    NotANumber,
    NotABoolean,
    NotAnArray,
    NotInEntryCodes,
    /// Entry codes are strings; a value of another kind cannot be looked up.
    NotComparableToEntryCodes,
}

/// The type rule that `v` breaks under the declared type `t`, if any.
pub open spec fn type_violation(t: Option<NestedAttrType>, v: JsonValue) -> Option<ErrorKind> {
    match t {
        Some(NestedAttrType::Value(k)) => match k {
            AttributeType::Numeric => if v is Number {
                None
            } else {
                Some(ErrorKind::NotANumber)
            },
            AttributeType::Boolean => if v is Bool {
                None
            } else {
                Some(ErrorKind::NotABoolean)
            },
            _ => if v is String {
                None
            } else {
                Some(ErrorKind::NotAString)
            },
        },
        Some(NestedAttrType::Array(_)) => if v is Array {
            None
        } else {
            Some(ErrorKind::NotAnArray)
        },
        _ => None,
    }
}

/// Checks a value against an attribute's declared type.
pub fn check_type(attribute_type: &Option<NestedAttrType>, value: &JsonValue) -> (r: Option<ErrorKind>)
    ensures
        r == type_violation(*attribute_type, *value),
{
    match attribute_type {
        Some(NestedAttrType::Value(k)) => match k {
            AttributeType::Numeric => match value {
                JsonValue::Number(_) => None,
                _ => Some(ErrorKind::NotANumber),
            },
            AttributeType::Boolean => match value {
                JsonValue::Bool(_) => None,
                _ => Some(ErrorKind::NotABoolean),
            },
            _ => match value {
                JsonValue::String(_) => None,
                _ => Some(ErrorKind::NotAString),
            },
        },
        Some(NestedAttrType::Array(_)) => match value {
            JsonValue::Array(_) => None,
            _ => Some(ErrorKind::NotAnArray),
        },
        _ => None,
    }
}

pub open spec fn codes_contain(codes: Seq<String>, s: Seq<char>) -> bool {
    exists|i: int| 0 <= i < codes.len() && #[trigger] codes[i]@ == s
}

pub open spec fn groups_contain(groups: Seq<(String, Vec<String>)>, s: Seq<char>) -> bool {
    exists|g: int| 0 <= g < groups.len() && codes_contain(#[trigger] groups[g].1@, s)
}

/// The entry-code rule that `v` breaks under `codes`, if any. A reference to
/// an external code list is not checked.
pub open spec fn entry_code_violation(codes: Option<EntryCodes>, v: JsonValue) -> Option<ErrorKind> {
    match codes {
        Some(EntryCodes::Array(c)) => match v {
            JsonValue::String(s) => if codes_contain(c@, s@) {
                None
            } else {
                Some(ErrorKind::NotInEntryCodes)
            },
            _ => Some(ErrorKind::NotComparableToEntryCodes),
        },
        Some(EntryCodes::Object(g)) => match v {
            JsonValue::String(s) => if groups_contain(g@, s@) {
                None
            } else {
                Some(ErrorKind::NotInEntryCodes)
            },
            _ => Some(ErrorKind::NotComparableToEntryCodes),
        },
        _ => None,
    }
}

fn contains_code(codes: &Vec<String>, s: &String) -> (r: bool)
    ensures
        r == codes_contain(codes@, s@),
{
    let mut i: usize = 0;
    while i < codes.len()
        invariant
            0 <= i <= codes.len(),
            forall|j: int| 0 <= j < i ==> codes@[j]@ != s@,
        decreases codes.len() - i,
    {
        if codes[i] == *s {
            return true;
        }
        i += 1;
    }
    false
}

fn groups_contain_code(groups: &Vec<(String, Vec<String>)>, s: &String) -> (r: bool)
    ensures
        r == groups_contain(groups@, s@),
{
    let mut g: usize = 0;
    while g < groups.len()
        invariant
            0 <= g <= groups.len(),
            forall|j: int| 0 <= j < g ==> !codes_contain(#[trigger] groups@[j].1@, s@),
        decreases groups.len() - g,
    {
        if contains_code(&groups[g].1, s) {
            return true;
        }
        g += 1;
    }
    false
}

/// Checks a value against an attribute's entry codes: it must be one of a
/// flat list, or one of the codes of any group.
pub fn check_entry_codes(entry_codes: &Option<EntryCodes>, value: &JsonValue) -> (r: Option<ErrorKind>)
    ensures
        r == entry_code_violation(*entry_codes, *value),
{
    match entry_codes {
        Some(EntryCodes::Array(c)) => match value {
            JsonValue::String(s) => if contains_code(c, s) {
                None
            } else {
                Some(ErrorKind::NotInEntryCodes)
            },
            _ => Some(ErrorKind::NotComparableToEntryCodes),
        },
        Some(EntryCodes::Object(g)) => match value {
            JsonValue::String(s) => if groups_contain_code(g, s) {
                None
            } else {
                Some(ErrorKind::NotInEntryCodes)
            },
            _ => Some(ErrorKind::NotComparableToEntryCodes),
        },
        _ => None,
    }
}

/// What an error of the given kind says after the value.
pub open spec fn kind_text(kind: ErrorKind) -> Seq<char> {
    match kind {
        ErrorKind::MissingValue => "is mandatory"@,
        ErrorKind::NotAString => "is not a string"@,
        ErrorKind::NotANumber => "is not a number"@,
        ErrorKind::NotABoolean => "is not a boolean"@,
        ErrorKind::NotAnArray => "is not an array"@,
        ErrorKind::NotInEntryCodes => "is not in entry codes"@,
        ErrorKind::NotComparableToEntryCodes => "is not comparable to entry codes"@,
    }
}

/// The message for an error of `kind` on the attribute `name`, whose value
/// reads `shown` as JSON. A missing value has no text to show.
pub open spec fn error_message(name: Seq<char>, kind: ErrorKind, shown: Seq<char>) -> Seq<char> {
    if kind is MissingValue {
        "Attribute \""@ + name + "\" value "@ + kind_text(kind)
    } else {
        "Attribute \""@ + name + "\" value ("@ + shown + ") "@ + kind_text(kind)
    }
}

fn kind_description(kind: ErrorKind) -> (r: String)
    ensures
        r@ == kind_text(kind),
{
    match kind {
        ErrorKind::MissingValue => String::from_str("is mandatory"),
        ErrorKind::NotAString => String::from_str("is not a string"),
        ErrorKind::NotANumber => String::from_str("is not a number"),
        ErrorKind::NotABoolean => String::from_str("is not a boolean"),
        ErrorKind::NotAnArray => String::from_str("is not an array"),
        ErrorKind::NotInEntryCodes => String::from_str("is not in entry codes"),
        ErrorKind::NotComparableToEntryCodes => String::from_str("is not comparable to entry codes"),
    }
}

/// Writes the message for an error of `kind` on the attribute `name`.
pub fn describe_error(name: &String, kind: ErrorKind, shown: &String) -> (r: String)
    ensures
        r@ == error_message(name@, kind, shown@),
{
    let mut r = String::from_str("Attribute \"");
    r.append(name.as_str());
    if let ErrorKind::MissingValue = kind {
        r.append("\" value ");
    } else {
        r.append("\" value (");
        r.append(shown.as_str());
        r.append(") ");
    }
    let tail = kind_description(kind);
    r.append(tail.as_str());
    r
}

pub open spec fn option_seq(o: Option<ErrorKind>) -> Seq<ErrorKind> {
    match o {
        Some(k) => seq![k],
        None => Seq::empty(),
    }
}

/// The rules that an attribute's value breaks, in the order they are checked:
/// presence, then type, then entry codes. Arrays and objects are not checked.
pub open spec fn violations(attr: Attribute, value: Option<JsonValue>) -> Seq<ErrorKind> {
    match value {
        None => if attr.is_mandatory() {
            seq![ErrorKind::MissingValue]
        } else {
            Seq::empty()
        },
        Some(v) => if v.is_composite() {
            Seq::empty()
        } else {
            option_seq(type_violation(attr.attribute_type, v)) + option_seq(
                entry_code_violation(attr.entry_codes, v),
            )
        },
    }
}

pub open spec fn shown_text(value: Option<JsonValue>) -> Seq<char> {
    match value {
        Some(v) => scalar_text(v),
        None => Seq::empty(),
    }
}

/// The messages for the rules that an attribute's value breaks.
pub open spec fn attribute_errors(attr: Attribute, value: Option<JsonValue>) -> Seq<Seq<char>> {
    violations(attr, value).map_values(|k: ErrorKind| error_message(attr.name@, k, shown_text(value)))
}

pub open spec fn texts(v: Seq<String>) -> Seq<Seq<char>> {
    v.map_values(|s: String| s@)
}

pub open spec fn deref_value(value: Option<&JsonValue>) -> Option<JsonValue> {
    match value {
        Some(v) => Some(*v),
        None => None,
    }
}

fn push_error(errors: &mut Vec<String>, name: &String, kind: ErrorKind, shown: &String)
    ensures
        texts(final(errors)@) == texts(old(errors)@).push(error_message(name@, kind, shown@)),
{
    let m = describe_error(name, kind, shown);
    errors.push(m);
    assert(texts(final(errors)@) =~= texts(old(errors)@).push(error_message(name@, kind, shown@)));
}

/// Checks one attribute against its value in the data, `None` when the data
/// has no member of that name.
pub fn validate_attribute(attribute: &Attribute, value: Option<&JsonValue>) -> (r: Vec<String>)
    ensures
        texts(r@) == attribute_errors(*attribute, deref_value(value)),
        value is None && !attribute.is_mandatory() ==> r@.len() == 0,
        value matches Some(v) && v.is_composite() ==> r@.len() == 0,
{
    let mut errors: Vec<String> = Vec::new();
    let ghost val = deref_value(value);
    let ghost msg = |k: ErrorKind| error_message(attribute.name@, k, shown_text(val));
    match value {
        None => {
            if attribute.mandatory() {
                let empty = String::new();
                push_error(&mut errors, &attribute.name, ErrorKind::MissingValue, &empty);
            }
            assert(texts(errors@) =~= violations(*attribute, val).map_values(msg));
        },
        Some(v) => {
            if !v.is_array_or_object() {
                let shown = render_scalar(v);
                if let Some(k) = check_type(&attribute.attribute_type, v) {
                    push_error(&mut errors, &attribute.name, k, &shown);
                }
                if let Some(k) = check_entry_codes(&attribute.entry_codes, v) {
                    push_error(&mut errors, &attribute.name, k, &shown);
                }
            }
            assert(texts(errors@) =~= violations(*attribute, val).map_values(msg));
        },
    }
    errors
}

/// The messages for a whole record, attribute by attribute in the order of
/// the schema's table.
pub open spec fn report(attrs: Seq<Attribute>, fields: Seq<(String, JsonValue)>) -> Seq<Seq<char>>
    decreases attrs.len(),
{
    if attrs.len() == 0 {
        Seq::empty()
    } else {
        report(attrs.drop_last(), fields) + attribute_errors(
            attrs.last(),
            member(fields, attrs.last().name@),
        )
    }
}

/// The outcome of validating a data record.
#[derive(Debug, PartialEq, Eq)]
pub enum DataValidationStatus {
    Valid,
    /// The messages of every rule broken, in the order they were found.
    Invalid(Vec<String>),
}

impl DataValidationStatus {
    /// `self` reports exactly the messages `msgs`: valid when there are none.
    pub open spec fn reports(&self, msgs: Seq<Seq<char>>) -> bool {
        match self {
            DataValidationStatus::Valid => msgs.len() == 0,
            DataValidationStatus::Invalid(errors) => msgs.len() > 0 && texts(errors@) == msgs,
        }
    }

    /// The messages reported, none when valid.
    pub open spec fn messages(&self) -> Seq<Seq<char>> {
        match self {
            DataValidationStatus::Valid => Seq::empty(),
            DataValidationStatus::Invalid(errors) => texts(errors@),
        }
    }
}

/// Why no attribute of a record could be checked.
#[derive(Debug, PartialEq, Eq)]
pub enum ValidationSetupError {
    /// The data is not a JSON object.
    NotAnObject,
    /// The data text is not JSON; holds the parser's description.
    ParseFailure(String),
}

impl ValidationSetupError {
    pub open spec fn message_text(&self) -> Seq<char> {
        match self {
            ValidationSetupError::NotAnObject => "Data is not an object"@,
            ValidationSetupError::ParseFailure(e) => "Failed to parse data: "@ + e@,
        }
    }

    /// A description of the error.
    pub fn message(&self) -> (r: String)
        ensures
            r@ == self.message_text(),
    {
        match self {
            ValidationSetupError::NotAnObject => String::from_str("Data is not an object"),
            ValidationSetupError::ParseFailure(e) => {
                let mut r = String::from_str("Failed to parse data: ");
                r.append(e.as_str());
                r
            },
        }
    }
}

/// `r` is what validating `data` against `attrs` gives: a setup error when
/// the data is not an object, else the status reporting every broken rule.
pub open spec fn validation_outcome(
    attrs: Seq<Attribute>,
    data: JsonValue,
    r: Result<DataValidationStatus, ValidationSetupError>,
) -> bool {
    match data {
        JsonValue::Object(fields) => r matches Ok(s) && s.reports(report(attrs, fields@)),
        _ => r matches Err(ValidationSetupError::NotAnObject),
    }
}

/// Validates a data record against a schema's attributes. Every attribute is
/// checked and every broken rule reported; the data must be a JSON object.
pub fn validate_data(attributes: &Vec<Attribute>, data: &JsonValue) -> (r: Result<
    DataValidationStatus,
    ValidationSetupError,
>)
    ensures
        validation_outcome(attributes@, *data, r),
{
    let fields = match data {
        JsonValue::Object(fields) => fields,
        _ => {
            return Err(ValidationSetupError::NotAnObject);
        },
    };
    let mut errors: Vec<String> = Vec::new();
    let mut i: usize = 0;
    while i < attributes.len()
        invariant
            0 <= i <= attributes.len(),
            texts(errors@) == report(attributes@.subrange(0, i as int), fields@),
        decreases attributes.len() - i,
    {
        let attr = &attributes[i];
        let value = get_member(fields, &attr.name);
        let mut found = validate_attribute(attr, value);
        let ghost before = errors@;
        let ghost added = found@;
        errors.append(&mut found);
        proof {
            let prefix = attributes@.subrange(0, i + 1);
            assert(prefix.drop_last() =~= attributes@.subrange(0, i as int));
            assert(deref_value(value) == member(fields@, attr.name@));
            assert(texts(errors@) =~= texts(before) + texts(added)) by {
                assert(errors@ =~= before + added);
            };
        }
        i += 1;
    }
    assert(attributes@.subrange(0, attributes@.len() as int) =~= attributes@);
    if errors.len() == 0 {
        Ok(DataValidationStatus::Valid)
    } else {
        Ok(DataValidationStatus::Invalid(errors))
    }
}

} // verus!
