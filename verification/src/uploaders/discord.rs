//! The chat-webhook backend (Discord). Sending the message runs outside the
//! library; here stand the channel settings and the announcement text posted
//! beside the screenshot.

use vstd::prelude::*;

verus! {

use vstd::string::*;

#[derive(Clone)]
pub struct DiscordConfig {
    pub token: String,
    pub channel: u64,
    pub username: Option<String>,
}

#[derive(Clone)]
pub struct DiscordUploader {
    pub token: String,
    pub channel: u64,
    pub username: Option<String>,
}

impl DiscordUploader {
    pub fn build(config: DiscordConfig) -> (r: Result<
        DiscordUploader,
        crate::uploaders::UploadError,
    >)
        ensures
            r matches Ok(u) && u.token@ == config.token@ && u.channel == config.channel
                && u.username == config.username,
    {
        Ok(
            DiscordUploader {
                token: config.token,
                channel: config.channel,
                username: config.username,
            },
        )
    }

    /// The announcement posted with the screenshot, naming the configured
    /// user when there is one.
    pub fn message_text(&self, game: &str) -> (r: String)
        ensures
            match self.username {
                Some(u) => r@ == u@ + " took a new screenshot from "@ + game@,
                None => r@ == "New screenshot from "@ + game@,
            },
    {
        match &self.username {
            Some(u) => {
                let mut s = u.clone();
                s.append(" took a new screenshot from ");
                s.append(game);
                s
            },
            None => {
                let mut s = String::from_str("New screenshot from ");
                s.append(game);
                s
            },
        }
    }
}

} // verus!
