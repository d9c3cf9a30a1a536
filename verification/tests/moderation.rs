use plotforge_agent::moderation_loop::{
    screen_moderation_response, screen_with_moderation, ModerationLoopError, ModerationScreen,
};
use plotforge_agent::providers_moderation::{
    moderation_response_too_large, parse_moderation_response, validate_moderation_provider_entry,
    FakeModerationProvider, ModerationProvider, ModerationProviderError, ModerationRequest,
    ModerationResponse,
};
use plotforge_agent::schema::{ModerationOutcomeSummary, ModerationProviderEntry};

fn request() -> ModerationRequest {
    ModerationRequest { call_id: "moderation-call".into(), prompt: "a safe player input".into() }
}

#[test]
fn moderation_request_decodes_flagged_false() {
    let response = parse_moderation_response(r#"{"results":[{"flagged":false,"categories":{"violence":false}}]}"#)
        .expect("decode");
    assert!(!response.flagged);
    assert!(response.categories.is_empty());
    assert_eq!(response.usage, None);
}

#[test]
fn moderation_request_decodes_sorted_flagged_categories() {
    let response = parse_moderation_response(
        r#"{"results":[{"flagged":true,"categories":{"violence":true,"hate":true,"sexual":false}}]}"#,
    )
    .expect("decode");
    assert!(response.flagged);
    assert_eq!(response.categories, vec!["hate", "violence"]);
}

#[test]
fn moderation_response_requires_first_result() {
    let error = parse_moderation_response(r#"{"results":[]}"#).expect_err("missing result");
    assert_eq!(error.code, "moderation_provider_http_decode");
    assert_eq!(error.message, "moderation response missing results[0]");
}

#[test]
fn moderation_response_rejects_malformed_shapes() {
    for body in [
        "not json",
        r#"{"results":{}}"#,
        r#"{"results":[{"flagged":"yes","categories":{}}]}"#,
        r#"{"results":[{"flagged":true,"categories":{"hate":1}}]}"#,
        r#"{"results":[{"flagged":false,"categories":{}},{"flagged":false}]}"#,
    ] {
        let error = parse_moderation_response(body).expect_err(body);
        assert_eq!(error.code, "moderation_provider_http_decode", "{body}");
    }
}

#[test]
fn fake_moderation_provider_tracks_calls() {
    let mut provider = FakeModerationProvider::flagged(vec!["violence".into()]);
    let response = provider
        .moderate(&ModerationRequest { call_id: "call".into(), prompt: "prompt".into() })
        .expect("moderate");
    assert!(response.flagged);
    assert_eq!(provider.call_count(), 1);
}

#[test]
fn moderation_loop_none_is_passthrough() {
    assert_eq!(
        screen_with_moderation::<FakeModerationProvider>(None, &request()).expect("pass"),
        None
    );
}

#[test]
fn moderation_loop_not_flagged_returns_summary_and_hash() {
    let mut provider = FakeModerationProvider::pass();
    let outcome = screen_with_moderation(
        Some(ModerationScreen { provider: &mut provider, config_hash: "sha256:moderation" }),
        &request(),
    )
    .expect("screen")
    .expect("outcome");
    assert_eq!(provider.call_count(), 1);
    assert_eq!(outcome.moderation_config_hash, "sha256:moderation");
    assert_eq!(outcome.summary, ModerationOutcomeSummary { flagged: false, categories: Vec::new() });
}

#[test]
fn moderation_loop_flagged_calls_once_and_blocks() {
    let mut provider = FakeModerationProvider::flagged(vec!["violence".into(), "hate".into()]);
    let error = screen_with_moderation(
        Some(ModerationScreen { provider: &mut provider, config_hash: "sha256:moderation" }),
        &request(),
    )
    .expect_err("flagged");
    assert_eq!(provider.call_count(), 1, "moderation loop never retries");
    assert_eq!(
        error,
        ModerationLoopError::ContentFlagged { categories: vec!["hate".into(), "violence".into()] }
    );
    assert_eq!(
        error.message(),
        "moderation provider flagged content in categories: [\"hate\", \"violence\"]"
    );
}

#[test]
fn moderation_loop_rejects_structured_secret_marker() {
    let reply = Ok(ModerationResponse {
        flagged: false,
        categories: vec!["OPENAI_API_KEY=sk-secret".into()],
        usage: None,
        spent_cost_units: 0,
    });
    let error = screen_moderation_response("sha256:moderation", reply).expect_err("secret marker");
    assert_eq!(error, ModerationLoopError::ResponseSecretMarker);
}

#[test]
fn moderation_loop_propagates_provider_error_without_retry() {
    let mut provider =
        FakeModerationProvider::with_error(ModerationProviderError::rate_limit(Some(1_000), "rate limited"));
    let error = screen_with_moderation(
        Some(ModerationScreen { provider: &mut provider, config_hash: "sha256:moderation" }),
        &request(),
    )
    .expect_err("provider error");
    assert_eq!(provider.call_count(), 1, "moderation loop never retries");
    assert!(matches!(error, ModerationLoopError::Provider(_)));
}

#[test]
fn flagged_fake_sorts_and_dedups_categories() {
    let provider = FakeModerationProvider::flagged(vec!["b".into(), "a".into(), "b".into(), "A".into()]);
    assert_eq!(provider.flagged_categories, vec!["A", "a", "b"]);
}

#[test]
fn moderation_client_rejects_unsafe_persisted_fields_without_echo() {
    let entry = |model: &str, env: &str| ModerationProviderEntry {
        id: "moderation-test".into(),
        endpoint_url: "http://127.0.0.1:9/v1".into(),
        model: model.into(),
        credential_env_var: env.into(),
        enabled: true,
        max_concurrency: None,
        requests_per_minute: None,
        daily_token_budget: None,
    };
    let error = validate_moderation_provider_entry(&entry("sk-secret-model", "")).expect_err("unsafe model");
    assert_eq!(error.code, "moderation_provider_invalid_configuration");
    assert!(!error.to_text().contains("sk-secret-model"));
    let error = validate_moderation_provider_entry(&entry("omni", "sk-secret-env-name")).expect_err("unsafe env");
    assert_eq!(error.code, "moderation_provider_invalid_configuration");
    assert!(!error.to_text().contains("sk-secret-env-name"));
    validate_moderation_provider_entry(&entry("omni", "OPENAI_API_KEY")).expect("valid entry");
}

#[test]
fn oversized_body_error_names_the_limit() {
    let error = moderation_response_too_large();
    assert_eq!(error.code, "moderation_provider_response_too_large");
    assert_eq!(error.message, "moderation provider response exceeded the 1048576 byte limit");
}
