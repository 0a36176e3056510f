//! The JSON data model that validation reads.
use vstd::prelude::*;

verus! {

/// A JSON value. Numbers are held in their textual JSON form; object members
/// keep the order in which they were given.
#[derive(Debug, PartialEq, Eq)]
pub enum JsonValue {
    Null,
    Bool(bool),
    Number(String),
    String(String),
    Array(Vec<JsonValue>),
    Object(Vec<(String, JsonValue)>),
}

impl JsonValue {
    /// Arrays and objects are composite; every other value is a scalar.
    pub open spec fn is_composite(&self) -> bool {
        self is Array || self is Object
    }

    pub fn is_array_or_object(&self) -> (r: bool)
        ensures
            r == self.is_composite(),
    {
        match self {
            JsonValue::Array(_) | JsonValue::Object(_) => true,
            _ => false,
        }
    }
}

/// The value of the first member of `fields` named `name`.
pub open spec fn member(fields: Seq<(String, JsonValue)>, name: Seq<char>) -> Option<JsonValue>
    decreases fields.len(),
{
    if fields.len() == 0 {
        None
    } else if fields[0].0@ == name {
        Some(fields[0].1)
    } else {
        member(fields.drop_first(), name)
    }
}

/// Looks up the member called `name` in the members of an object.
pub fn get_member<'a>(fields: &'a Vec<(String, JsonValue)>, name: &String) -> (r: Option<&'a JsonValue>)
    ensures
        match r {
            Some(v) => member(fields@, name@) == Some(*v),
            None => member(fields@, name@) is None,
        },
{
    let mut i: usize = 0;
    assert(fields@.skip(0) =~= fields@);
    while i < fields.len()
        invariant
            0 <= i <= fields.len(),
            member(fields@, name@) == member(fields@.skip(i as int), name@),
        decreases fields.len() - i,
    {
        assert(fields@.skip(i as int).drop_first() =~= fields@.skip(i + 1));
        if fields[i].0 == *name {
            return Some(&fields[i].1);
        }
        i += 1;
    }
    None
}

/// The compact JSON text of a string: quoted, with its characters escaped.
pub uninterp spec fn json_string_literal(s: Seq<char>) -> Seq<char>;

/// The compact JSON text of a scalar value, as it is shown in error messages.
pub open spec fn scalar_text(v: JsonValue) -> Seq<char> {
    match v {
        JsonValue::Null => "null"@,
        JsonValue::Bool(b) => if b {
            "true"@
        } else {
            "false"@
        },
        JsonValue::Number(t) => t@,
        JsonValue::String(s) => json_string_literal(s@),
        _ => Seq::empty(),
    }
}

/// Relies on serde_json::to_string: the JSON text of a string. Serializing a
/// `str` never fails, so the fallback is never taken.
#[verifier::external_body]
fn quote_string(s: &String) -> (r: String)
    ensures
        r@ == json_string_literal(s@),
{
    serde_json::to_string(s.as_str()).unwrap_or_default()
}

/// Writes a scalar value as compact JSON text.
pub fn render_scalar(v: &JsonValue) -> (r: String)
    requires
        !v.is_composite(),
    ensures
        r@ == scalar_text(*v),
{
    match v {
        JsonValue::Null => String::from_str("null"),
        JsonValue::Bool(b) => if *b {
            String::from_str("true")
        } else {
            String::from_str("false")
        },
        JsonValue::Number(t) => t.clone(),
        JsonValue::String(s) => quote_string(s),
        _ => String::new(),
    }
}

#[verifier::external_type_specification]
#[verifier::external_body]
pub struct ExSerdeValue(serde_json::Value);

/// The document that a JSON text denotes, or the parser's description of why
/// the text is not JSON.
pub uninterp spec fn parsed_json(text: Seq<char>) -> Result<JsonValue, Seq<char>>;

/// Relies on serde_json::from_str: parses a JSON document. Whether it parses,
/// and to what, depends on the text alone; the error carries serde_json's
/// description of the failure.
#[verifier::external_body]
pub(crate) fn parse_json(text: &str) -> (r: Result<JsonValue, String>)
    ensures
        match r {
            Ok(v) => parsed_json(text@) == Ok::<JsonValue, Seq<char>>(v),
            Err(e) => parsed_json(text@) == Err::<JsonValue, Seq<char>>(e@),
        },
{
    match serde_json::from_str::<serde_json::Value>(text) {
        Ok(v) => Ok(from_serde(v)),
        Err(e) => Err(e.to_string()),
    }
}

/// Moves a serde_json value into [`JsonValue`], variant for variant; numbers
/// keep serde_json's text for them.
#[verifier::external_body]
fn from_serde(v: serde_json::Value) -> JsonValue {
    match v {
        serde_json::Value::Null => JsonValue::Null,
        serde_json::Value::Bool(b) => JsonValue::Bool(b),
        serde_json::Value::Number(n) => JsonValue::Number(n.to_string()),
        serde_json::Value::String(s) => JsonValue::String(s),
        serde_json::Value::Array(a) => JsonValue::Array(a.into_iter().map(from_serde).collect()),
        serde_json::Value::Object(m) => JsonValue::Object(
            m.into_iter().map(|(k, x)| (k, from_serde(x))).collect(),
        ),
    }
}

} // verus!
