//! Outside types that the library's signatures carry.

use vstd::prelude::*;

verus! {

/// The error type of `anyhow`, which resolvers report failures in.
#[verifier::external_type_specification]
#[verifier::external_body]
pub struct ExAnyhowError(anyhow::Error);

/// The error that `String::from_utf8` reports.
#[verifier::external_type_specification]
#[verifier::external_body]
pub struct ExFromUtf8Error(std::string::FromUtf8Error);

} // verus!
