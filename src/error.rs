//! Errors of fetching, generating and reading rustdoc JSON.

use vstd::prelude::*;

verus! {

#[verifier::external_type_specification]
#[verifier::external_body]
pub struct ExJsonError(serde_json::Error);

#[verifier::external_type_specification]
#[verifier::external_body]
pub struct ExIoError(std::io::Error);

#[verifier::external_type_specification]
#[verifier::external_body]
pub struct ExBuildError(rustdoc_json_stable::BuildError);

#[verifier::external_type_specification]
#[verifier::external_body]
pub struct ExNetworkError(reqwest::Error);

/// Every way an operation of this library can fail.
#[derive(Debug)]
pub enum DocsError {
    /// The HTTP request for the documentation failed.
    Network(reqwest::Error),
    /// The bytes are not rustdoc JSON of the expected shape.
    Json(serde_json::Error),
    /// Reading or decompressing data failed.
    Io(std::io::Error),
    /// `cargo rustdoc` could not produce the JSON documentation.
    Build(rustdoc_json_stable::BuildError),
    /// The documentation lacks something this library needs.
    Config(String),
}

/// `e` is a `DocsError::Config` with the message `msg`.
pub open spec fn is_config_error(e: DocsError, msg: Seq<char>) -> bool {
    e is Config && e->Config_0@ == msg
}

} // verus!
