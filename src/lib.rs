//! Validation of JSON data records against the attribute table of an OCA
//! schema bundle: presence of mandatory values, scalar types and entry codes.
pub mod json;
pub mod schema;
pub mod data_validator;
pub mod validator;
pub mod theorems;

use vstd::prelude::*;

verus! {

/// Values that can be written out as the JSON text of a schema bundle.
pub trait ToJSON {
    fn get_json_bundle(&self) -> String;
}

} // verus!
