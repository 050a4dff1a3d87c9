//! Declarations of the outside types that the library carries through.

use vstd::prelude::*;

verus! {

/// A JSON value of serde_json, carried opaquely in file descriptors.
#[verifier::external_type_specification]
#[verifier::external_body]
pub struct ExJsonValue(serde_json::Value);

/// A URL parse error of the url crate, returned by the URL wrapper and
/// mapped to the library's own error.
#[verifier::external_type_specification]
#[verifier::external_body]
pub struct ExUrlParseError(url::ParseError);

} // verus!
