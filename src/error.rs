use std::io::Error as IoError;
use tauri_utils::Error as UtilsError;
use zip::result::ZipError;
use vstd::prelude::*;

verus! {

/// The error type of the tauri-utils crate.
#[verifier::external_type_specification]
#[verifier::external_body]
pub struct ExUtilsError(UtilsError);

/// The I/O error type of the standard library.
#[verifier::external_type_specification]
#[verifier::external_body]
pub struct ExIoError(IoError);

/// The error type of the zip crate.
#[verifier::external_type_specification]
#[verifier::external_body]
pub struct ExZipError(ZipError);

/// Errors returned by the bundler.
#[derive(Debug)]
pub enum Error {
    /// Error from the tauri-utils API.
    Resource(UtilsError),
    /// I/O error.
    Io(IoError),
    /// Zip error.
    Zip(ZipError),
    /// Generic error with a message.
    Generic(String),
    /// No bundled project found for the updater.
    UnableToFindProject,
    /// Both a resource list and a resource map were configured.
    ConflictingResources,
}

} // verus!
