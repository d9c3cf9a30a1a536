use plotforge_agent::registry::text_throttle_parts;
use plotforge_agent::registry::{
    join_models_endpoint, model_cache_is_fresh, moderation_config_hash, models_endpoint,
    parse_models_response, provider_kind_key, reject_media_daily_token_budget,
    reject_non_text_daily_token_budget, resolve_image_provider, resolve_moderation_provider,
    resolve_provider_for_model, resolve_tts_provider, text_provider_config, throttle_config_hash,
    ModelDiscoveryError, ModelsAuth, OptionalEnvCredentialResolver, ProviderBuildError,
    LOCAL_PI_MODEL_ID,
};
use plotforge_agent::schema::{
    ImageProviderEntry, ModerationProviderEntry, ProviderEntry, ProviderKind, ProviderRegistry,
    TtsProviderEntry,
};
use plotforge_agent::shared::contains_secret_marker_text;

fn sample_image_entry(id: &str, env_var: &str, enabled: bool) -> ImageProviderEntry {
    ImageProviderEntry {
        id: id.into(),
        endpoint_url: "https://api.openai.com/v1".into(),
        model: "gpt-image-1".into(),
        credential_env_var: env_var.into(),
        enabled,
        default_size: "1024x1024".into(),
        default_quality: "medium".into(),
        max_concurrency: None,
        requests_per_minute: None,
        daily_token_budget: None,
    }
}

fn sample_moderation_entry(id: &str, enabled: bool) -> ModerationProviderEntry {
    ModerationProviderEntry {
        id: id.into(),
        endpoint_url: "https://api.openai.com/v1".into(),
        model: "omni-moderation-latest".into(),
        credential_env_var: "OPENAI_API_KEY".into(),
        enabled,
        max_concurrency: None,
        requests_per_minute: None,
        daily_token_budget: None,
    }
}

fn text_entry(id: &str, kind: ProviderKind, enabled: bool) -> ProviderEntry {
    ProviderEntry {
        id: id.into(),
        kind,
        label: id.into(),
        endpoint_url: "https://x".into(),
        model: "glm-4.6".into(),
        credential_env_var: "ZAI_API_KEY".into(),
        enabled,
        max_output_tokens: None,
        max_concurrency: None,
        requests_per_minute: None,
        daily_token_budget: None,
    }
}

#[test]
fn media_daily_token_budget_is_rejected_as_unsupported() {
    let error = reject_media_daily_token_budget("image-a", Some(1)).expect_err("media daily tokens unsupported");
    assert!(matches!(error, ProviderBuildError::UnsupportedQuota { .. }));
    assert!(error.message().contains("supported only by text providers"));
    reject_media_daily_token_budget("image-a", None).expect("no budget remains supported");
}

#[test]
fn build_moderation_provider_rejects_daily_token_budget() {
    let mut entry = sample_moderation_entry("budgeted", true);
    entry.daily_token_budget = Some(100);
    let error = reject_non_text_daily_token_budget(&entry.id, "moderation", entry.daily_token_budget)
        .expect_err("daily budget must be rejected");
    assert!(matches!(error, ProviderBuildError::UnsupportedQuota { .. }));
    assert_eq!(
        error.message(),
        "unsupported quota configuration for provider `budgeted`: daily_token_budget is supported only by text providers because moderation usage does not report output tokens"
    );
}

#[test]
fn resolve_provider_for_model_returns_entry_for_known_id() {
    let registry = ProviderRegistry {
        version: "1".into(),
        providers: vec![
            text_entry("glm", ProviderKind::OpenAiCompatible, true),
            text_entry("anthropic", ProviderKind::AnthropicMessages, false),
        ],
        image_providers: Vec::new(),
        tts_providers: Vec::new(),
        moderation_providers: Vec::new(),
    };
    let resolved = resolve_provider_for_model("glm", &registry).expect("glm entry");
    assert_eq!(resolved.id, "glm");
    assert!(resolve_provider_for_model("anthropic", &registry).is_none());
    assert!(resolve_provider_for_model("unknown", &registry).is_none());
    assert!(resolve_provider_for_model(LOCAL_PI_MODEL_ID, &registry).is_none());
}

#[test]
fn resolve_image_provider_returns_first_enabled_entry() {
    let registry = ProviderRegistry {
        version: "1".into(),
        providers: Vec::new(),
        tts_providers: Vec::new(),
        moderation_providers: Vec::new(),
        image_providers: vec![
            sample_image_entry("disabled-image", "OFF_KEY", false),
            sample_image_entry("enabled-image", "ON_KEY", true),
            sample_image_entry("second-enabled", "ON2_KEY", true),
        ],
    };
    let resolved = resolve_image_provider(&registry).expect("an enabled entry exists");
    assert_eq!(resolved.id, "enabled-image");
    assert_eq!(resolved.model, "gpt-image-1");
}

#[test]
fn resolve_image_provider_returns_none_when_all_disabled() {
    let registry = ProviderRegistry {
        version: "1".into(),
        providers: Vec::new(),
        tts_providers: Vec::new(),
        moderation_providers: Vec::new(),
        image_providers: vec![sample_image_entry("off", "OFF_KEY", false)],
    };
    assert!(resolve_image_provider(&registry).is_none());
}

#[test]
fn resolve_image_provider_returns_none_when_empty() {
    let registry = ProviderRegistry::default();
    assert!(resolve_image_provider(&registry).is_none());
}

#[test]
fn resolve_moderation_provider_returns_first_enabled() {
    let registry = ProviderRegistry {
        moderation_providers: vec![
            sample_moderation_entry("disabled", false),
            sample_moderation_entry("first", true),
            sample_moderation_entry("second", true),
        ],
        ..ProviderRegistry::default()
    };
    assert_eq!(resolve_moderation_provider(&registry).map(|entry| entry.id.as_str()), Some("first"));
}

#[test]
fn resolve_moderation_provider_none_when_empty_or_disabled() {
    assert!(resolve_moderation_provider(&ProviderRegistry::default()).is_none());
    let registry = ProviderRegistry {
        moderation_providers: vec![sample_moderation_entry("disabled", false)],
        ..ProviderRegistry::default()
    };
    assert!(resolve_moderation_provider(&registry).is_none());
}

#[test]
fn resolve_tts_provider_skips_disabled_entries() {
    let tts = |id: &str, enabled: bool| TtsProviderEntry {
        id: id.into(),
        endpoint_url: "https://api.openai.com/v1".into(),
        model: "gpt-4o-mini-tts".into(),
        credential_env_var: String::new(),
        enabled,
        voice: "coral".into(),
        format: "mp3".into(),
        max_concurrency: None,
        requests_per_minute: None,
        daily_token_budget: None,
    };
    let registry = ProviderRegistry {
        tts_providers: vec![tts("off", false), tts("on", true)],
        ..ProviderRegistry::default()
    };
    assert_eq!(resolve_tts_provider(&registry).map(|e| e.id.as_str()), Some("on"));
}

#[test]
fn moderation_config_hash_is_stable_and_excludes_quota() {
    let entry = sample_moderation_entry("moderation", true);
    let mut quota_edit = entry.clone();
    quota_edit.max_concurrency = Some(2);
    quota_edit.requests_per_minute = Some(30);
    assert_eq!(moderation_config_hash(&entry), moderation_config_hash(&entry));
    assert_eq!(moderation_config_hash(&entry), moderation_config_hash(&quota_edit));

    let mut model_edit = entry.clone();
    model_edit.model = "text-moderation-latest".into();
    assert_ne!(moderation_config_hash(&entry), moderation_config_hash(&model_edit));
    assert!(!contains_secret_marker_text(&moderation_config_hash(&entry)));

    for edit in [
        |entry: &mut ModerationProviderEntry| entry.id.push_str("-other"),
        |entry: &mut ModerationProviderEntry| entry.endpoint_url.push_str("/other"),
        |entry: &mut ModerationProviderEntry| entry.credential_env_var.push_str("_OTHER"),
        |entry: &mut ModerationProviderEntry| entry.enabled = !entry.enabled,
    ] {
        let mut changed = entry.clone();
        edit(&mut changed);
        assert_ne!(moderation_config_hash(&entry), moderation_config_hash(&changed));
    }
}

#[test]
fn optional_resolver_returns_empty_for_missing_env_var() {
    let resolver = OptionalEnvCredentialResolver;
    let value = resolver.resolve_value("PLOTFORGE_DEFINITELY_NOT_SET_VAR_12345", None);
    assert!(value.is_empty());
}

#[test]
fn optional_resolver_returns_empty_for_empty_env_var_name() {
    let resolver = OptionalEnvCredentialResolver;
    assert!(resolver.resolve_value("", Some("ignored".into())).is_empty());
    assert!(resolver.resolve_value("   ", Some("ignored".into())).is_empty());
    assert_eq!(resolver.resolve_value("SET_VAR", Some("value".into())), "value");
}

#[test]
fn text_provider_config_enables_json_schema_for_native_protocols() {
    let compatible = text_provider_config(&text_entry("a", ProviderKind::OpenAiCompatible, true));
    assert!(!compatible.supports_json_schema);
    assert_eq!(compatible.endpoint_url.as_deref(), Some("https://x"));
    assert!(text_provider_config(&text_entry("b", ProviderKind::OpenAiResponses, true)).supports_json_schema);
    assert!(text_provider_config(&text_entry("c", ProviderKind::AnthropicMessages, true)).supports_json_schema);
    assert_eq!(provider_kind_key(ProviderKind::AnthropicMessages), "anthropic_messages");
}

#[test]
fn throttle_hash_is_prefixed_and_order_sensitive() {
    let a = throttle_config_hash(&vec!["openai_compatible", "https://x", "m"]);
    let b = throttle_config_hash(&vec!["https://x", "openai_compatible", "m"]);
    assert!(a.starts_with("sha256:"));
    assert_eq!(a.len(), "sha256:".len() + 64);
    assert_ne!(a, b);
}

#[test]
fn models_endpoint_depends_on_protocol() {
    let (url, auth) = models_endpoint(&text_entry("a", ProviderKind::AnthropicMessages, true));
    assert_eq!(url, "https://x/v1/models");
    assert_eq!(auth, ModelsAuth::ApiKey);
    let (url, auth) = models_endpoint(&text_entry("o", ProviderKind::OpenAiResponses, true));
    assert_eq!(url, "https://x/models");
    assert_eq!(auth, ModelsAuth::Bearer);
    assert_eq!(join_models_endpoint("https://h/v1//", "models"), "https://h/v1/models");
}

#[test]
fn parse_models_response_decodes_openai_and_anthropic_shapes() {
    let openai = r#"{"data":[{"id":"gpt-4o","owned_by":"openai","created":1700000000},{"id":"big","max_input_tokens":5000000000,"max_output_tokens":8192}]}"#;
    let models = parse_models_response(openai, ProviderKind::OpenAiCompatible).expect("decode");
    assert_eq!(models.len(), 2);
    assert_eq!(models[0].id, "gpt-4o");
    assert_eq!(models[0].owned_by.as_deref(), Some("openai"));
    assert_eq!(models[0].created, Some(1_700_000_000));
    assert_eq!(models[1].max_input_tokens, None, "too large for u32");
    assert_eq!(models[1].max_output_tokens, Some(8192));

    let missing = parse_models_response(r#"{"models":[]}"#, ProviderKind::AnthropicMessages).expect_err("no data");
    match missing {
        ModelDiscoveryError::Http { code, message } => {
            assert_eq!(code, "decode");
            assert_eq!(message, "AnthropicMessages model list response missing `data` array");
        }
        other => panic!("unexpected {other:?}"),
    }
    let no_id = parse_models_response(r#"{"data":[{"owned_by":"x"}]}"#, ProviderKind::OpenAiResponses).expect_err("no id");
    assert!(matches!(no_id, ModelDiscoveryError::Http { ref message, .. } if message == "model list entry missing `id`"));
    assert!(matches!(
        parse_models_response("not json", ProviderKind::OpenAiResponses),
        Err(ModelDiscoveryError::Http { .. })
    ));
}

#[test]
fn model_cache_is_fresh_for_one_hour() {
    assert!(model_cache_is_fresh(1_000, 1_000));
    assert!(model_cache_is_fresh(4_599, 1_000));
    assert!(!model_cache_is_fresh(4_600, 1_000));
    assert!(!model_cache_is_fresh(999, 1_000), "a cache from the future is stale");
}

#[test]
fn text_throttle_identity_is_kind_endpoint_model_and_variable() {
    let entry = text_entry("text-a", ProviderKind::AnthropicMessages, true);
    let parts = text_throttle_parts(&entry);
    assert_eq!(parts.len(), 4);
    assert_eq!(parts[0], provider_kind_key(ProviderKind::AnthropicMessages));
    assert_eq!(parts[1], entry.endpoint_url);
    assert_eq!(parts[2], entry.model);
    assert_eq!(parts[3], entry.credential_env_var);
}
