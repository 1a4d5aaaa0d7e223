//! The process configuration: which destination backend to use and its
//! settings, the directory tree to watch, the local data root, and the
//! retry interval. Loaded once at startup; immutable afterwards.

use vstd::prelude::*;

verus! {

use vstd::string::*;
use crate::uploaders::dropbox::DropboxConfig;
use crate::uploaders::gdrive::GoogleDriveConfig;
use crate::uploaders::imgur::ImgurConfig;
use crate::uploaders::onedrive::OneDriveConfig;
use crate::uploaders::s3::S3Config;

/// The configured destination: exactly one backend kind with its settings.
#[derive(Clone)]
pub enum UploaderKind {
    Noop,
    S3(S3Config),
    GoogleDrive(GoogleDriveConfig),
    Dropbox(DropboxConfig),
    OneDrive(OneDriveConfig),
    Imgur(ImgurConfig),
}

#[derive(Clone)]
pub struct Config {
    /// The local data root, holding the queue store and the credentials.
    pub deckshot_path: String,
    /// The directory tree watched for new screenshots.
    pub screenshots_path: String,
    pub uploader: UploaderKind,
    /// Seconds between retry cycles.
    pub retrier_interval: u64,
}

pub fn default_deckshot_path() -> (r: String)
    ensures
        r@ == "/home/deck/.local/share/deckshot"@,
{
    String::from_str("/home/deck/.local/share/deckshot")
}

pub fn default_screenshot_path() -> (r: String)
    ensures
        r@ == "/home/deck/.local/share/Steam/userdata"@,
{
    String::from_str("/home/deck/.local/share/Steam/userdata")
}

pub fn default_retrier_interval() -> (r: u64)
    ensures
        r == 60,
{
    60
}

impl Config {
    /// The queue store file under the data root.
    pub fn db_path(&self) -> (r: String)
        ensures
            r@ == self.deckshot_path@ + "/deckshot.db"@,
    {
        let mut s = self.deckshot_path.clone();
        s.append("/deckshot.db");
        s
    }

    /// The directory under the data root holding one file per credential
    /// key.
    pub fn credentials_dir(&self) -> (r: String)
        ensures
            r@ == self.deckshot_path@ + "/credentials"@,
    {
        let mut s = self.deckshot_path.clone();
        s.append("/credentials");
        s
    }
}

} // verus!
