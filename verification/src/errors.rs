//! The library's error type and the outside error types it carries.

use vstd::prelude::*;

verus! {

/// The error type of the persistent deny list (`sled`).
#[verifier::external_type_specification]
#[verifier::external_body]
pub struct ExSledError(sled::Error);

/// The error type of the JSON reader (`serde_json`).
#[verifier::external_type_specification]
#[verifier::external_body]
pub struct ExJsonError(serde_json::Error);

/// Why a safety operation did not complete.
#[derive(Debug)]
pub enum SafeError {
    /// The deny list could not be opened, read or written.
    Storage(sled::Error),
    /// The transparency report was not a JSON document.
    Json(serde_json::Error),
    /// The transparency report could not be fetched; the message says why.
    Fetch(String),
}

} // verus!
