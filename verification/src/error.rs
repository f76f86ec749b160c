//! The pipeline's own error type. Every fatal condition a judging run
//! can end in is one of these variants; nothing here is retried.

use vstd::prelude::*;

verus! {

/// `zip::result::ZipError`, declared so the library's error type can
/// carry the archive reader's own failure value.
#[verifier::external_type_specification]
#[verifier::external_body]
pub struct ExZipError(zip::result::ZipError);

/// A fatal condition of one judging run.
#[derive(Debug)]
pub enum Error {
    /// The problem names no test-case archive.
    NoTestCase,
    /// The test-case archive bytes are not a readable zip container.
    BadTestCase(zip::result::ZipError),
    /// The archive opened but could not be unpacked in full.
    BadTestCaseExtract(zip::result::ZipError),
    /// The sandbox result file does not hold the expected
    /// newline-delimited fields.
    MalformedSandboxResult,
    /// A numeric submission-status code outside the known range.
    InvalidStatusCode,
    /// A numeric language code outside the known range.
    InvalidLanguageCode,
    /// A numeric role code outside the known range.
    InvalidRoleCode,
}

} // verus!
