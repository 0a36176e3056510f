//! The attribute table of a schema bundle, as validation reads it.
use vstd::prelude::*;

verus! {

/// The scalar kinds an attribute may declare.
#[derive(Clone, Copy, Debug, PartialEq, Eq)]
pub enum AttributeType {
    Boolean,
    Binary,
    Text,
    Numeric,
    DateTime,
}

/// The declared type of an attribute.
#[derive(Debug, PartialEq, Eq)]
pub enum NestedAttrType {
    /// A reference to another schema, by its identifier or local name.
    Reference(String),
    Value(AttributeType),
    Array(Box<NestedAttrType>),
    /// The attribute was removed and carries no type.
    Null,
}

/// The values an attribute is restricted to.
#[derive(Debug, PartialEq, Eq)]
pub enum EntryCodes {
    /// A flat list of permitted codes.
    Array(Vec<String>),
    /// Permitted codes grouped by category: a value may be taken from any group.
    Object(Vec<(String, Vec<String>)>),
    /// A reference to an external code list; not checked here.
    Sai(String),
}

/// One attribute of a schema.
#[derive(Debug, PartialEq, Eq)]
pub struct Attribute {
    pub name: String,
    pub attribute_type: Option<NestedAttrType>,
    /// `Some("M")` marks the attribute as mandatory; anything else is optional.
    pub conformance: Option<String>,
    pub entry_codes: Option<EntryCodes>,
}

impl Attribute {
    pub open spec fn is_mandatory(&self) -> bool {
        self.conformance matches Some(c) && c@ == "M"@
    }

    pub fn mandatory(&self) -> (r: bool)
        ensures
            r == self.is_mandatory(),
    {
        match &self.conformance {
            Some(c) => {
                let m = String::from_str("M");
                *c == m
            },
            None => false,
        }
    }
}

} // verus!
