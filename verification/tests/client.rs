use rustybot::BotError;
use rustybot::client::api_version;
use rustybot::client::resolve_credentials;
use rustybot::client::usable_contents;

fn some(s: &str) -> Option<String> {
    Some(s.to_string())
}

#[test]
fn usable_contents_filters_and_keeps_order() {
    let choices = vec![None, some(""), some("first"), some("second"), None, some("third")];
    let contents = usable_contents(&choices);
    assert_eq!(contents, vec!["first", "second", "third"]);
}

#[test]
fn usable_contents_of_nothing_is_empty() {
    assert!(usable_contents(&Vec::new()).is_empty());
    assert!(usable_contents(&vec![None, some("")]).is_empty());
}

#[test]
fn all_credentials_present_resolve() {
    let creds = resolve_credentials(
        Some("key".to_string()),
        Some("https://example.invalid".to_string()),
        Some("model-a".to_string()),
    )
    .expect("all present");
    assert_eq!(creds.api_key, "key");
    assert_eq!(creds.api_base, "https://example.invalid");
    assert_eq!(creds.deployment_id, "model-a");
}

#[test]
fn missing_api_key_is_environment_error() {
    let err = resolve_credentials(None, Some("b".to_string()), Some("d".to_string()))
        .expect_err("key absent");
    assert_eq!(err, BotError::EnvironmentError("missing API key".to_string()));
}

#[test]
fn missing_api_base_is_environment_error() {
    let err = resolve_credentials(Some("k".to_string()), None, Some("d".to_string()))
        .expect_err("base absent");
    assert_eq!(
        err,
        BotError::EnvironmentError("missing API base endpoint".to_string())
    );
}

#[test]
fn missing_deployment_is_environment_error() {
    let err = resolve_credentials(Some("k".to_string()), Some("b".to_string()), None)
        .expect_err("deployment absent");
    assert_eq!(
        err,
        BotError::EnvironmentError("missing deployment identifier".to_string())
    );
}

#[test]
fn fixed_api_version() {
    assert_eq!(api_version(), "2023-05-15");
}
