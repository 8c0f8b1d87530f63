//! The types of hyper that pass through this crate unopened.

use vstd::prelude::*;

verus! {

/// `hyper::Uri`, a parsed URI. Nothing is said of what one holds.
#[verifier::external_type_specification]
#[verifier::external_body]
pub struct ExUri(hyper::Uri);

/// `hyper::http::Error`, the error of hyper's URI builder. Nothing is said
/// of what one holds.
#[verifier::external_type_specification]
#[verifier::external_body]
pub struct ExHttpError(hyper::http::Error);

} // verus!
