//! The null backend: no destination at all. Each delivery succeeds or fails
//! on a coin toss, which exercises the whole queueing pipeline without a
//! remote service.

use vstd::prelude::*;

verus! {

use crate::steam::GameScreenshot;
use crate::uploaders::{UploadError, Uploader};

#[derive(Clone, Copy)]
pub struct NoopUploader;

/// Relies on `rand::random::<bool>`: a fresh draw, about which nothing is
/// promised.
#[verifier::external_body]
fn random_bool() -> bool {
    rand::random::<bool>()
}

/// What the null backend reports for a drawn coin: heads delivers, tails is
/// the failure that sends the path to the retry queue.
pub fn noop_outcome(coin: bool) -> (r: Result<(), UploadError>)
    ensures
        coin <==> r is Ok,
        !coin ==> r == Result::<(), UploadError>::Err(UploadError::Network),
{
    if coin {
        Ok(())
    } else {
        Err(UploadError::Network)
    }
}

impl NoopUploader {
    pub fn build() -> (r: Result<NoopUploader, UploadError>)
        ensures
            r is Ok,
    {
        Ok(NoopUploader)
    }
}

impl Uploader for NoopUploader {
    fn name(&self) -> (r: &'static str) {
        "noop"
    }

    fn upload(&self, _screenshot: &GameScreenshot) -> (r: Result<(), UploadError>)
        ensures
            r is Ok || r == Result::<(), UploadError>::Err(UploadError::Network),
    {
        noop_outcome(random_bool())
    }

    fn auth(&self) -> (r: Result<(), UploadError>) {
        Err(UploadError::Unsupported)
    }
}

} // verus!
