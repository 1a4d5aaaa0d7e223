//! The delivery abstraction: one backend per destination kind, each
//! accepting a resolved screenshot, some also offering an interactive
//! authorization flow.
//!
//! The wire transfers themselves are network work outside the library; the
//! backends here carry each destination's settings and the decisions and
//! names its delivery needs.

use vstd::prelude::*;

pub mod discord;
pub mod dropbox;
pub mod gdrive;
pub mod imgur;
pub mod noop;
pub mod onedrive;
pub mod s3;

verus! {

use crate::steam::GameScreenshot;

/// Why a delivery or authorization attempt failed.
#[derive(Debug, PartialEq, Eq, Structural, Clone, Copy)]
pub enum UploadError {
    /// The remote service could not be reached or rejected the transfer;
    /// the screenshot is queued and retried later.
    Network,
    /// The screenshot file could not be read; it is queued and retried
    /// later, assuming the file reappears at the same path.
    LocalFile,
    /// No stored credentials: the operator must run the interactive
    /// authorization flow first.
    NotAuthorized,
    /// Stored credentials exist but do not decode as a token set.
    MalformedCredentials,
    /// The backend has no authorization flow.
    Unsupported,
}

impl UploadError {
    /// A short description of the failure, for the operator.
    pub fn message(&self) -> (r: &'static str)
        ensures
            r@ == match self {
                UploadError::Network => "could not reach the destination"@,
                UploadError::LocalFile => "could not read the screenshot file"@,
                UploadError::NotAuthorized => "not authorized yet, run the auth flow first"@,
                UploadError::MalformedCredentials => "stored credentials are malformed"@,
                UploadError::Unsupported => "this backend has no authorization flow"@,
            },
    {
        match self {
            UploadError::Network => "could not reach the destination",
            UploadError::LocalFile => "could not read the screenshot file",
            UploadError::NotAuthorized => "not authorized yet, run the auth flow first",
            UploadError::MalformedCredentials => "stored credentials are malformed",
            UploadError::Unsupported => "this backend has no authorization flow",
        }
    }
}

/// A destination for screenshots: `upload` attempts one delivery, `auth`
/// runs the interactive authorization flow where the backend has one.
pub trait Uploader {
    fn name(&self) -> (r: &'static str);

    fn upload(&self, screenshot: &GameScreenshot) -> (r: Result<(), UploadError>);

    fn auth(&self) -> (r: Result<(), UploadError>);
}

} // verus!
