use std::time::Duration;

use modsupdater::config::{APP_NAME, CONFIG_FILE};
use modsupdater::error::{ApiError, CoreError};

#[test]
fn api_error_messages() {
    assert_eq!(ApiError::RateLimited { retry_after: None }.message(), "Rate limited. Retry after None");
    assert_eq!(
        ApiError::RateLimited { retry_after: Some(Duration::from_secs(5)) }.message(),
        format!("Rate limited. Retry after {:?}", Some(Duration::from_secs(5)))
    );
    assert_eq!(
        ApiError::ApiError { status: 500, message: "boom".into() }.message(),
        "API returned error 500: boom"
    );
    assert_eq!(ApiError::NotFound("Resource not found".into()).message(), "Not found: Resource not found");
    assert_eq!(ApiError::RequestFailed("timeout".into()).message(), "Request failed: timeout");
}

#[test]
fn core_error_messages() {
    assert_eq!(
        CoreError::Api(ApiError::NotFound("x".into())).message(),
        "API error: Not found: x"
    );
    assert_eq!(CoreError::Scan("bad dir".into()).message(), "Scan error: bad dir");
    assert_eq!(CoreError::Update("no file".into()).message(), "Update error: no file");
    assert_eq!(CoreError::Config("parse".into()).message(), "Config error: parse");
    let io = std::io::Error::new(std::io::ErrorKind::Other, "disk full");
    assert_eq!(CoreError::Io(io).message(), "IO error: disk full");
    let serde = serde_json::from_str::<u32>("x").unwrap_err();
    let text = serde.to_string();
    assert_eq!(CoreError::Serde(serde).message(), format!("Serialization error: {}", text));
    assert_eq!(
        CoreError::HashMismatch { filename: "a.jar".into(), expected: "aa".into(), actual: "bb".into() }.message(),
        "Hash verification failed for a.jar: expected aa, got bb"
    );
}

#[test]
fn settings_live_under_the_app_directory() {
    assert_eq!(APP_NAME, "modrinth-updater");
    assert_eq!(CONFIG_FILE, "config.toml");
}
