use deckshot::config::{
    default_deckshot_path, default_retrier_interval, default_screenshot_path, Config, UploaderKind,
};
use deckshot::steam::GameScreenshot;
use deckshot::uploaders::discord::{DiscordConfig, DiscordUploader};
use deckshot::uploaders::dropbox::{DropboxConfig, DropboxUploader};
use deckshot::uploaders::gdrive::{pick_folder, GoogleDriveConfig, GoogleDriveUploader};
use deckshot::uploaders::imgur::{
    expiry_timestamp, image_payload, token_lifetime, tokens_changed, upload_name, upload_status,
    ImgurConfig, ImgurUploader,
};
use deckshot::uploaders::noop::{noop_outcome, NoopUploader};
use deckshot::uploaders::onedrive::{
    authorize_endpoint, token_endpoint, OneDriveConfig, OneDriveUploader,
};
use deckshot::uploaders::s3::{S3Config, S3Uploader};
use deckshot::uploaders::{UploadError, Uploader};

#[test]
fn defaults_match_the_deck_layout() {
    assert_eq!(default_deckshot_path(), "/home/deck/.local/share/deckshot");
    assert_eq!(default_screenshot_path(), "/home/deck/.local/share/Steam/userdata");
    assert_eq!(default_retrier_interval(), 60);
}

#[test]
fn config_derives_store_paths() {
    let config = Config {
        deckshot_path: "/data".to_string(),
        screenshots_path: "/shots".to_string(),
        uploader: UploaderKind::Noop,
        retrier_interval: 60,
    };
    assert_eq!(config.db_path(), "/data/deckshot.db");
    assert_eq!(config.credentials_dir(), "/data/credentials");
}

#[test]
fn noop_reports_both_outcomes() {
    let _uploader = NoopUploader::build().unwrap();
    assert!(noop_outcome(true).is_ok());
    assert_eq!(noop_outcome(false), Err(UploadError::Network));
}

#[test]
fn noop_auth_is_unsupported() {
    let uploader = NoopUploader::build().unwrap();
    assert_eq!(uploader.name(), "noop");
    assert_eq!(uploader.auth(), Err(UploadError::Unsupported));
}

#[test]
fn noop_upload_is_ok_or_network_error() {
    let uploader = NoopUploader::build().unwrap();
    let screenshot = GameScreenshot::from_path("/x/730/screenshots/1.jpg");
    match uploader.upload(&screenshot) {
        Ok(()) => {},
        Err(e) => assert_eq!(e, UploadError::Network),
    }
}

#[test]
fn s3_build_defaults_missing_region_to_empty() {
    let uploader = S3Uploader::build(S3Config {
        endpoint: "https://s3.example".to_string(),
        region: None,
        access_key_id: "test-key-id".to_string(),
        secret_access_key: "test-key-value".to_string(),
        bucket: "shots".to_string(),
    })
    .unwrap();
    assert_eq!(uploader.region, "");
    assert_eq!(uploader.bucket, "shots");
    let uploader = S3Uploader::build(S3Config {
        endpoint: "https://s3.example".to_string(),
        region: Some("garage".to_string()),
        access_key_id: "test-key-id".to_string(),
        secret_access_key: "test-key-value".to_string(),
        bucket: "shots".to_string(),
    })
    .unwrap();
    assert_eq!(uploader.region, "garage");
}

#[test]
fn dropbox_dest_path_honours_folder() {
    let with_folder = DropboxUploader::build(DropboxConfig {
        client_id: "id".to_string(),
        folder: Some("deck".to_string()),
    })
    .unwrap();
    assert_eq!(with_folder.dest_path("Elden Ring/1.jpg"), "/deck/Elden Ring/1.jpg");
    let without = DropboxUploader::build(DropboxConfig {
        client_id: "id".to_string(),
        folder: None,
    })
    .unwrap();
    assert_eq!(without.dest_path("Elden Ring/1.jpg"), "/Elden Ring/1.jpg");
}

#[test]
fn gdrive_query_and_folder_choice() {
    let uploader = GoogleDriveUploader::build(GoogleDriveConfig {
        private_key_file: "/data/key.json".to_string(),
        folder: "parent-id".to_string(),
    })
    .unwrap();
    assert_eq!(
        uploader.folder_query("Portal 2"),
        "mimeType = 'application/vnd.google-apps.folder' and 'parent-id' in parents and name = 'Portal 2'"
    );
    assert_eq!(pick_folder(&vec!["f1".to_string(), "f2".to_string()]), Some("f1".to_string()));
    assert_eq!(pick_folder(&Vec::new()), None);
}

#[test]
fn onedrive_paths_and_endpoints() {
    let uploader = OneDriveUploader::build(OneDriveConfig {
        client_id: "id".to_string(),
        client_secret: "test-client-secret".to_string(),
        redirect_uri: "http://localhost/redirect".to_string(),
        folder: Some("deck".to_string()),
    })
    .unwrap();
    assert_eq!(uploader.root_folder_path(), "/deck");
    let rootless = OneDriveUploader::build(OneDriveConfig {
        client_id: "id".to_string(),
        client_secret: "test-client-secret".to_string(),
        redirect_uri: "http://localhost/redirect".to_string(),
        folder: None,
    })
    .unwrap();
    assert_eq!(rootless.root_folder_path(), "/");
    assert_eq!(
        authorize_endpoint(),
        "https://login.microsoftonline.com/consumers/oauth2/v2.0/authorize"
    );
    assert_eq!(token_endpoint(), "https://login.microsoftonline.com/consumers/oauth2/v2.0/token");
}

#[test]
fn discord_message_names_user_when_configured() {
    let named = DiscordUploader::build(DiscordConfig {
        token: "test-bot-token".to_string(),
        channel: 42,
        username: Some("deck".to_string()),
    })
    .unwrap();
    assert_eq!(named.message_text("Portal 2"), "deck took a new screenshot from Portal 2");
    let anonymous = DiscordUploader::build(DiscordConfig {
        token: "test-bot-token".to_string(),
        channel: 42,
        username: None,
    })
    .unwrap();
    assert_eq!(anonymous.message_text("Portal 2"), "New screenshot from Portal 2");
}

#[test]
fn imgur_image_payload_is_base64() {
    let _uploader = ImgurUploader::build(ImgurConfig {
        client_id: "id".to_string(),
        client_secret: "test-client-secret".to_string(),
        redirect_uri: "http://localhost/redirect".to_string(),
    })
    .unwrap();
    assert_eq!(image_payload(&vec![97, 98, 99]), "YWJj");
    assert_eq!(image_payload(&vec![0xff]), "/w==");
    assert_eq!(image_payload(&Vec::new()), "");
}

#[test]
fn imgur_upload_name_and_status() {
    assert_eq!(upload_name("Portal 2", "1.jpg"), "Portal 2 - 1.jpg");
    assert!(upload_status(200).is_ok());
    assert_eq!(upload_status(429), Err(UploadError::Network));
    assert_eq!(upload_status(500), Err(UploadError::Network));
}

#[test]
fn imgur_expiry_is_a_fortnight_out() {
    assert_eq!(token_lifetime(), 1209600);
    assert_eq!(expiry_timestamp(0), Some(1209600));
    assert_eq!(expiry_timestamp(1000), Some(1210600));
    assert_eq!(expiry_timestamp(u64::MAX), None);
}

#[test]
fn imgur_refresh_persists_only_on_change() {
    assert!(!tokens_changed("same", "same"));
    assert!(tokens_changed("old", "new"));
}

#[test]
fn upload_error_messages() {
    assert_eq!(UploadError::Network.message(), "could not reach the destination");
    assert_eq!(UploadError::LocalFile.message(), "could not read the screenshot file");
    assert_eq!(
        UploadError::NotAuthorized.message(),
        "not authorized yet, run the auth flow first"
    );
    assert_eq!(UploadError::MalformedCredentials.message(), "stored credentials are malformed");
    assert_eq!(UploadError::Unsupported.message(), "this backend has no authorization flow");
}
