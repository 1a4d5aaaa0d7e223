//! The file-share backend (OneDrive). The OAuth exchange and the uploads
//! run outside the library; here stand the backend's settings, its fixed
//! endpoint URLs, and the root folder its delivery writes under.

use vstd::prelude::*;

verus! {

use vstd::string::*;

#[derive(Clone)]
pub struct OneDriveConfig {
    pub client_id: String,
    pub client_secret: String,
    pub redirect_uri: String,
    pub folder: Option<String>,
}

#[derive(Clone)]
pub struct OneDriveUploader {
    pub client_id: String,
    pub client_secret: String,
    pub redirect_uri: String,
    pub folder: Option<String>,
}

/// The authorization endpoint of the consumer OAuth flow.
pub fn authorize_endpoint() -> (r: &'static str)
    ensures
        r@ == "https://login.microsoftonline.com/consumers/oauth2/v2.0/authorize"@,
{
    "https://login.microsoftonline.com/consumers/oauth2/v2.0/authorize"
}

/// The token endpoint of the consumer OAuth flow.
pub fn token_endpoint() -> (r: &'static str)
    ensures
        r@ == "https://login.microsoftonline.com/consumers/oauth2/v2.0/token"@,
{
    "https://login.microsoftonline.com/consumers/oauth2/v2.0/token"
}

impl OneDriveUploader {
    pub fn build(config: OneDriveConfig) -> (r: Result<
        OneDriveUploader,
        crate::uploaders::UploadError,
    >)
        ensures
            r matches Ok(u) && u.client_id@ == config.client_id@ && u.client_secret@
                == config.client_secret@ && u.redirect_uri@ == config.redirect_uri@ && u.folder
                == config.folder,
    {
        Ok(
            OneDriveUploader {
                client_id: config.client_id,
                client_secret: config.client_secret,
                redirect_uri: config.redirect_uri,
                folder: config.folder,
            },
        )
    }

    /// The root folder path the game folders are created under: the
    /// configured folder, or the drive root.
    pub fn root_folder_path(&self) -> (r: String)
        ensures
            match self.folder {
                Some(f) => r@ == "/"@ + f@,
                None => r@ == "/"@,
            },
    {
        match &self.folder {
            Some(f) => {
                let mut s = String::from_str("/");
                s.append(f.as_str());
                s
            },
            None => String::from_str("/"),
        }
    }
}

} // verus!
