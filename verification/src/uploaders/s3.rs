//! The object-storage backend: a bucket on an S3-compatible endpoint. The
//! PUT itself happens outside the library; the backend carries the bucket
//! settings, with the region defaulting to the empty custom region when the
//! configuration names none.

use vstd::prelude::*;

verus! {

#[derive(Clone)]
pub struct S3Config {
    pub endpoint: String,
    pub region: Option<String>,
    pub access_key_id: String,
    pub secret_access_key: String,
    pub bucket: String,
}

#[derive(Clone)]
pub struct S3Uploader {
    pub endpoint: String,
    pub region: String,
    pub access_key_id: String,
    pub secret_access_key: String,
    pub bucket: String,
}

impl S3Uploader {
    /// Fixes the bucket settings for the process lifetime; a missing region
    /// becomes the empty custom region.
    pub fn build(config: S3Config) -> (r: Result<S3Uploader, crate::uploaders::UploadError>)
        ensures
            r matches Ok(u) && u.endpoint@ == config.endpoint@ && u.bucket@ == config.bucket@
                && u.access_key_id@ == config.access_key_id@ && u.secret_access_key@
                == config.secret_access_key@ && u.region@ == (match config.region {
                Some(s) => s@,
                None => Seq::<char>::empty(),
            }),
    {
        let region = match config.region {
            Some(s) => s,
            None => String::new(),
        };
        Ok(
            S3Uploader {
                endpoint: config.endpoint,
                region,
                access_key_id: config.access_key_id,
                secret_access_key: config.secret_access_key,
                bucket: config.bucket,
            },
        )
    }
}

} // verus!
