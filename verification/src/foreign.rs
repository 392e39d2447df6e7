//! Declarations of the outside failure types that this library converts.
//! Each is opaque: the library carries a value of it into a conversion and
//! reads nothing but the text its Display impl hands back.
use vstd::prelude::*;

verus! {

use serde_json::Error as JsonError;
use rsass::Error as SassError;

#[verifier::external_type_specification]
#[verifier::external_body]
pub struct ExJsonError(JsonError);

#[verifier::external_type_specification]
#[verifier::external_body]
pub struct ExIoError(std::io::Error);

#[verifier::external_type_specification]
#[verifier::external_body]
pub struct ExSassError(SassError);

} // verus!
