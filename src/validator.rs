//! Validation of a data record given as JSON text.
use vstd::prelude::*;
use crate::data_validator::{validate_data, validation_outcome, ValidationSetupError};
use crate::json::{parse_json, parsed_json};
use crate::schema::Attribute;
pub use crate::data_validator::DataValidationStatus;

verus! {

/// `r` is what validating the JSON text `text` against `attrs` gives: a
/// parse failure when the text is not JSON, else as for the parsed document.
pub open spec fn text_validation_outcome(
    attrs: Seq<Attribute>,
    text: Seq<char>,
    r: Result<DataValidationStatus, ValidationSetupError>,
) -> bool {
    match parsed_json(text) {
        Err(reason) => r matches Err(ValidationSetupError::ParseFailure(e)) && e@ == reason,
        Ok(data) => validation_outcome(attrs, data, r),
    }
}

/// Parses `data` as JSON and validates the document against a schema's
/// attributes.
pub fn validate(attributes: &Vec<Attribute>, data: &str) -> (r: Result<
    DataValidationStatus,
    ValidationSetupError,
>)
    ensures
        text_validation_outcome(attributes@, data@, r),
{
    match parse_json(data) {
        Ok(d) => validate_data(attributes, &d),
        Err(e) => Err(ValidationSetupError::ParseFailure(e)),
    }
}

} // verus!
