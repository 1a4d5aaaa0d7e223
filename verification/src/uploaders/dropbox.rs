//! The first cloud-drive backend (Dropbox). The transfer and the PKCE
//! authorization flow run outside the library; here stand the backend's
//! settings and the destination path it uploads under.

use vstd::prelude::*;

verus! {

use vstd::string::*;

#[derive(Clone)]
pub struct DropboxConfig {
    pub client_id: String,
    pub folder: Option<String>,
}

#[derive(Clone)]
pub struct DropboxUploader {
    pub client_id: String,
    pub folder: Option<String>,
}

impl DropboxUploader {
    pub fn build(config: DropboxConfig) -> (r: Result<
        DropboxUploader,
        crate::uploaders::UploadError,
    >)
        ensures
            r matches Ok(u) && u.client_id@ == config.client_id@ && u.folder == config.folder,
    {
        Ok(DropboxUploader { client_id: config.client_id, folder: config.folder })
    }

    /// The absolute path in the user's drive under which `dest` is stored:
    /// below the configured folder when there is one, at the root otherwise.
    pub fn dest_path(&self, dest: &str) -> (r: String)
        ensures
            match self.folder {
                Some(f) => r@ == "/"@ + f@ + "/"@ + dest@,
                None => r@ == "/"@ + dest@,
            },
    {
        match &self.folder {
            Some(f) => {
                let mut s = String::from_str("/");
                s.append(f.as_str());
                s.append("/");
                s.append(dest);
                s
            },
            None => {
                let mut s = String::from_str("/");
                s.append(dest);
                s
            },
        }
    }
}

} // verus!
