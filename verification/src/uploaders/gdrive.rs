//! The second cloud-drive backend (Google Drive). The hub, its service
//! account and the uploads run outside the library; here stand the backend's
//! settings, the folder query its delivery issues, and the choice among the
//! folders that come back.

use vstd::prelude::*;

verus! {

use vstd::string::*;

#[derive(Clone)]
pub struct GoogleDriveConfig {
    pub private_key_file: String,
    pub folder: String,
}

#[derive(Clone)]
pub struct GoogleDriveUploader {
    pub folder: String,
}

impl GoogleDriveUploader {
    pub fn build(config: GoogleDriveConfig) -> (r: Result<
        GoogleDriveUploader,
        crate::uploaders::UploadError,
    >)
        ensures
            r matches Ok(u) && u.folder@ == config.folder@,
    {
        Ok(GoogleDriveUploader { folder: config.folder })
    }

    /// The query that looks the game's folder up under the configured
    /// parent folder.
    pub fn folder_query(&self, game: &str) -> (r: String)
        ensures
            r@ == "mimeType = 'application/vnd.google-apps.folder' and '"@ + self.folder@
                + "' in parents and name = '"@ + game@ + "'"@,
    {
        let mut s = String::from_str("mimeType = 'application/vnd.google-apps.folder' and '");
        s.append(self.folder.as_str());
        s.append("' in parents and name = '");
        s.append(game);
        s.append("'");
        s
    }
}

/// Which of the folders the query returned the upload goes into: the first
/// one; none means the game's folder must be created first.
pub fn pick_folder(folder_ids: &Vec<String>) -> (r: Option<String>)
    ensures
        match r {
            Some(id) => folder_ids@.len() > 0 && id@ == folder_ids@[0]@,
            None => folder_ids@.len() == 0,
        },
{
    if folder_ids.len() > 0 {
        Some(folder_ids[0].clone())
    } else {
        None
    }
}

} // verus!
