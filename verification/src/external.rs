//! Declarations of the foreign error types that [`crate::Error`] wraps.
//!
//! Both are opaque to the verifier: a value is carried through unchanged and
//! nothing is known of what it holds.

use vstd::prelude::*;
use serde_json::Error as JsonCause;

verus! {

/// The error type of `std::io`.
#[verifier::external_type_specification]
#[verifier::external_body]
pub struct ExIoError(std::io::Error);

/// The error type of `serde_json`.
#[verifier::external_type_specification]
#[verifier::external_body]
pub struct ExJsonCause(JsonCause);

} // verus!
