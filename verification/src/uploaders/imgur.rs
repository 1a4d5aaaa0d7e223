//! The image-host backend (Imgur). The HTTP calls run outside the library;
//! here stand the backend's settings, the token freshness discipline, the
//! base64 image payload, the upload's display name, and the success test on
//! the response status.

use vstd::prelude::*;

verus! {

use vstd::string::*;
use crate::strutil::str_eq;
use crate::uploaders::UploadError;

#[derive(Clone)]
pub struct ImgurConfig {
    pub client_id: String,
    pub client_secret: String,
    pub redirect_uri: String,
}

#[derive(Clone)]
pub struct ImgurUploader {
    pub client_id: String,
    pub client_secret: String,
    pub redirect_uri: String,
}

impl ImgurUploader {
    pub fn build(config: ImgurConfig) -> (r: Result<ImgurUploader, UploadError>)
        ensures
            r matches Ok(u) && u.client_id@ == config.client_id@ && u.client_secret@
                == config.client_secret@ && u.redirect_uri@ == config.redirect_uri@,
    {
        Ok(
            ImgurUploader {
                client_id: config.client_id,
                client_secret: config.client_secret,
                redirect_uri: config.redirect_uri,
            },
        )
    }
}

/// The base64 form of a byte string, standard alphabet with padding.
pub uninterp spec fn base64_std(data: Seq<u8>) -> Seq<char>;

/// Relies on base64's `Engine::encode` with the standard padded engine: the
/// output is a function of the input bytes alone, and empty input encodes to
/// the empty string.
#[verifier::external_body]
fn base64_encode(data: &Vec<u8>) -> (r: String)
    ensures
        r@ == base64_std(data@),
        data@.len() == 0 ==> r@.len() == 0,
{
    base64::Engine::encode(&base64::engine::general_purpose::STANDARD, data)
}

/// The value of the image field of the upload form: the screenshot bytes,
/// base64-encoded.
pub fn image_payload(data: &Vec<u8>) -> (r: String)
    ensures
        r@ == base64_std(data@),
        data@.len() == 0 ==> r@.len() == 0,
{
    base64_encode(data)
}

/// The display name of the upload: `<title> - <file name>`.
pub fn upload_name(game: &str, file: &str) -> (r: String)
    ensures
        r@ == game@ + " - "@ + file@,
{
    let mut s = String::from_str(game);
    s.append(" - ");
    s.append(file);
    s
}

/// How long a freshly issued access token is taken to live: fourteen days,
/// in seconds.
pub fn token_lifetime() -> (r: u64)
    ensures
        r == 14 * 24 * 60 * 60,
{
    14 * 24 * 60 * 60
}

/// The expiry timestamp stored with freshly issued tokens: fourteen days
/// from `now`, unless that overflows the clock's range.
pub fn expiry_timestamp(now: u64) -> (r: Option<u64>)
    ensures
        match r {
            Some(e) => e == now + 14 * 24 * 60 * 60,
            None => now + 14 * 24 * 60 * 60 > u64::MAX,
        },
{
    now.checked_add(token_lifetime())
}

/// Whether a refresh round-trip actually replaced the tokens: exactly when
/// the access token changed, the new set must be persisted.
pub fn tokens_changed(old_access: &str, new_access: &str) -> (r: bool)
    ensures
        r == (old_access@ != new_access@),
{
    !str_eq(old_access, new_access)
}

/// What the upload response status means: 200 is the one success; every
/// other code is a delivery failure, queued for retry.
pub fn upload_status(code: u16) -> (r: Result<(), UploadError>)
    ensures
        code == 200 <==> r is Ok,
        code != 200 ==> r == Result::<(), UploadError>::Err(UploadError::Network),
{
    if code == 200 {
        Ok(())
    } else {
        Err(UploadError::Network)
    }
}

} // verus!
