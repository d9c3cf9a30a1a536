use plotforge_agent::json::JsonValue;
use plotforge_agent::prompts::{ChatMessage, MessageRole};
use plotforge_agent::http_headers::{
    credential_header, image_auth_header, is_header_value, models_request_headers, push_bearer_auth,
    push_x_api_key, AuthScheme, CredentialHeader,
};
use plotforge_agent::providers_http::{
    anthropic_body, anthropic_system_and_messages, chat_message_to_json, extract_anthropic_content,
    extract_openai_chat_content, extract_openai_responses_content, http_status_error, join_endpoint,
    openai_chat_body, openai_chat_messages, openai_responses_body,
    openai_responses_instructions_and_input, required_endpoint,
};
use plotforge_agent::providers_text::{
    TextModelProviderErrorKind, TextModelRequest, TextModelResponse, TextProviderConfig,
    TextProviderConfigError,
};
use plotforge_agent::registry::{ModelDiscoveryError, ModelsAuth};
use plotforge_agent::schema::ProviderKind;
use plotforge_agent::schema::AgentRole;
use plotforge_agent::shared::parse_retry_after;

fn sample_config(provider: &str, endpoint: &str, env_var: &str) -> TextProviderConfig {
    TextProviderConfig::openai_compatible(provider, "test-model", endpoint, env_var)
}

fn sample_request(config: &TextProviderConfig) -> TextModelRequest {
    TextModelRequest {
        call_id: "call-1".into(),
        agent: AgentRole::ScenePlanner,
        scene_key: "scene-1".into(),
        run_seed: 1,
        prompt_version: "v1".into(),
        model_version: config.model.clone(),
        provider_config_hash: config.provider_config_hash(),
        prompt: "{\"role\":\"scene_planner\"}".into(),
        messages: None,
    }
}

fn sample_request_with_messages(config: &TextProviderConfig) -> TextModelRequest {
    TextModelRequest {
        call_id: "call-1".into(),
        agent: AgentRole::ScenePlanner,
        scene_key: "scene-1".into(),
        run_seed: 1,
        prompt_version: "scene_planner_v1".into(),
        model_version: config.model.clone(),
        provider_config_hash: config.provider_config_hash(),
        prompt: "user-context".into(),
        messages: Some(vec![
            ChatMessage::new(MessageRole::System, "you are the scene planner"),
            ChatMessage::new(MessageRole::User, "user-context"),
            ChatMessage::new(MessageRole::Assistant, "prior assistant turn"),
        ]),
    }
}

fn sample_request_with_two_user_messages(config: &TextProviderConfig) -> TextModelRequest {
    TextModelRequest {
        call_id: "call-1".into(),
        agent: AgentRole::ScenePlanner,
        scene_key: "scene-1".into(),
        run_seed: 1,
        prompt_version: "scene_planner_v1".into(),
        model_version: config.model.clone(),
        provider_config_hash: config.provider_config_hash(),
        prompt: String::new(),
        messages: Some(vec![
            ChatMessage::new(MessageRole::User, "first user line"),
            ChatMessage::new(MessageRole::User, "second user line"),
        ]),
    }
}

fn items(value: &JsonValue) -> &Vec<JsonValue> {
    value.as_array().expect("messages is an array")
}

fn field<'a>(value: &'a JsonValue, key: &str) -> Option<&'a str> {
    value.get(key).and_then(|v| v.as_str())
}

#[test]
fn join_endpoint_normalises_trailing_slash() {
    assert_eq!(join_endpoint("https://host/v1/", "chat/completions"), "https://host/v1/chat/completions");
    assert_eq!(join_endpoint("https://host/v1", "chat/completions"), "https://host/v1/chat/completions");
}

#[test]
fn message_role_as_str_matches_provider_wire_labels() {
    assert_eq!(MessageRole::System.as_str(), "system");
    assert_eq!(MessageRole::User.as_str(), "user");
    assert_eq!(MessageRole::Assistant.as_str(), "assistant");
}

#[test]
fn openai_chat_messages_falls_back_to_prompt_when_messages_none() {
    let config = sample_config("openai", "https://example.invalid", "TEST_KEY");
    let request = sample_request(&config);
    let messages = openai_chat_messages(&request);
    let array = items(&messages);
    assert_eq!(array.len(), 1, "None path wraps prompt as one message");
    assert_eq!(field(&array[0], "role"), Some("user"));
    assert_eq!(field(&array[0], "content"), Some(request.prompt.as_str()));
}

#[test]
fn openai_chat_messages_serializes_structured_messages_in_order() {
    let config = sample_config("openai", "https://example.invalid", "TEST_KEY");
    let request = sample_request_with_messages(&config);
    let messages = openai_chat_messages(&request);
    let array = items(&messages);
    assert_eq!(array.len(), 3, "all three roles are serialized");
    assert_eq!(field(&array[0], "role"), Some("system"));
    assert_eq!(field(&array[0], "content"), Some("you are the scene planner"));
    assert_eq!(field(&array[1], "role"), Some("user"));
    assert_eq!(field(&array[1], "content"), Some("user-context"));
    assert_eq!(field(&array[2], "role"), Some("assistant"));
    assert_eq!(field(&array[2], "content"), Some("prior assistant turn"));
}

#[test]
fn openai_responses_instructions_and_input_splits_system_and_user() {
    let config = sample_config("openai", "https://example.invalid", "TEST_KEY");
    let request = sample_request_with_messages(&config);
    let (instructions, input) = openai_responses_instructions_and_input(&request);
    assert_eq!(instructions.as_deref(), Some("you are the scene planner"));
    assert_eq!(input, "user-context");
}

#[test]
fn openai_responses_instructions_and_input_joins_multiple_user_messages() {
    let config = sample_config("openai", "https://example.invalid", "TEST_KEY");
    let request = sample_request_with_two_user_messages(&config);
    let (instructions, input) = openai_responses_instructions_and_input(&request);
    assert_eq!(instructions, None, "no system message => no instructions");
    assert_eq!(input, "first user line\nsecond user line");
}

#[test]
fn anthropic_system_and_messages_splits_system_out_of_messages_array() {
    let config = sample_config("anthropic", "https://example.invalid", "TEST_KEY");
    let request = sample_request_with_messages(&config);
    let (system, messages) = anthropic_system_and_messages(&request);
    assert_eq!(system.as_deref(), Some("you are the scene planner"));
    let array = items(&messages);
    assert_eq!(array.len(), 2);
    assert_eq!(field(&array[0], "role"), Some("user"));
    assert_eq!(field(&array[1], "role"), Some("assistant"));
}

#[test]
fn anthropic_system_and_messages_falls_back_to_prompt_when_messages_none() {
    let config = sample_config("anthropic", "https://example.invalid", "TEST_KEY");
    let request = sample_request(&config);
    let (system, messages) = anthropic_system_and_messages(&request);
    assert_eq!(system, None, "no system message on the legacy path");
    let array = items(&messages);
    assert_eq!(array.len(), 1);
    assert_eq!(field(&array[0], "role"), Some("user"));
    assert_eq!(field(&array[0], "content"), Some(request.prompt.as_str()));
}

#[test]
fn openai_responses_none_uses_prompt_as_input() {
    let config = sample_config("openai", "https://example.invalid", "TEST_KEY");
    let request = sample_request(&config);
    let (instructions, input) = openai_responses_instructions_and_input(&request);
    assert_eq!(instructions, None, "None path has no instructions");
    assert_eq!(input, "{\"role\":\"scene_planner\"}");
}

#[test]
fn openai_responses_some_splits_system_to_instructions_and_user_to_input() {
    let config = sample_config("openai", "https://example.invalid", "TEST_KEY");
    let request = sample_request_with_messages(&config);
    let (instructions, input) = openai_responses_instructions_and_input(&request);
    assert_eq!(instructions.as_deref(), Some("you are the scene planner"));
    assert_eq!(input, "user-context");
}

#[test]
fn openai_responses_some_joins_multiple_user_messages_with_newline() {
    let config = sample_config("openai", "https://example.invalid", "TEST_KEY");
    let request = sample_request_with_two_user_messages(&config);
    let (instructions, input) = openai_responses_instructions_and_input(&request);
    assert_eq!(instructions, None);
    assert_eq!(input, "first user line\nsecond user line");
}

#[test]
fn anthropic_some_concatenates_multiple_system_messages_with_newline() {
    let config = sample_config("anthropic", "https://example.invalid", "TEST_KEY");
    let request = TextModelRequest {
        call_id: "call-1".into(),
        agent: AgentRole::ScenePlanner,
        scene_key: "scene-1".into(),
        run_seed: 1,
        prompt_version: "v1".into(),
        model_version: config.model.clone(),
        provider_config_hash: config.provider_config_hash(),
        prompt: String::new(),
        messages: Some(vec![
            ChatMessage::new(MessageRole::System, "rule one"),
            ChatMessage::new(MessageRole::System, "rule two"),
            ChatMessage::new(MessageRole::User, "go"),
        ]),
    };
    let (system, messages) = anthropic_system_and_messages(&request);
    assert_eq!(system.as_deref(), Some("rule one\nrule two"));
    let array = items(&messages);
    assert_eq!(array.len(), 1, "only the user message remains in the array");
    assert_eq!(field(&array[0], "role"), Some("user"));
}

#[test]
fn chat_message_to_json_uses_lowercase_role_labels() {
    for (role, label) in [
        (MessageRole::System, "system"),
        (MessageRole::User, "user"),
        (MessageRole::Assistant, "assistant"),
    ] {
        let json = chat_message_to_json(&ChatMessage::new(role, "c"));
        assert_eq!(field(&json, "role"), Some(label));
        assert_eq!(field(&json, "content"), Some("c"));
    }
}

#[test]
fn parse_retry_after_seconds_form() {
    assert_eq!(parse_retry_after(Some("120")), Some(120_000));
}

#[test]
fn parse_retry_after_zero_seconds() {
    assert_eq!(parse_retry_after(Some("0")), Some(0));
}

#[test]
fn parse_retry_after_http_date_form_is_positive_duration() {
    let parsed = parse_retry_after(Some("Wed, 21 Oct 2099 07:28:00 GMT")).expect("http-date must parse");
    assert!(parsed > 1_000_000, "expected a large future delay, got {parsed}");
}

#[test]
fn parse_retry_after_absent_or_unparseable_is_none() {
    assert_eq!(parse_retry_after(None), None);
    assert_eq!(parse_retry_after(Some("not-a-date")), None);
}

fn roles(messages: &JsonValue) -> Vec<&str> {
    items(messages).iter().map(|m| field(m, "role").expect("role is a string")).collect()
}

fn number(value: &JsonValue, key: &str) -> Option<u64> {
    value.get(key).and_then(|v| v.as_u64())
}

#[test]
fn openai_chat_messages_serializes_each_role_with_lowercase_label() {
    let config = sample_config("openai", "https://example.invalid", "TEST_KEY");
    let request = sample_request_with_messages(&config);
    let messages = openai_chat_messages(&request);
    assert_eq!(roles(&messages), vec!["system", "user", "assistant"]);
}

#[test]
fn openai_compatible_client_decodes_chat_completions_body() {
    let body = r#"{"choices":[{"message":{"content":"{\"id\":\"x\"}"}}]}"#;
    let extracted = extract_openai_chat_content(body).expect("decode");
    assert_eq!(extracted.content, "{\"id\":\"x\"}");
    let response = TextModelResponse::json(&extracted.content);
    assert_eq!(response.raw_json, "{\"id\":\"x\"}");
}

#[test]
fn openai_compatible_client_rejects_missing_content() {
    let body = r#"{"choices":[{"message":{}}]}"#;
    let error = extract_openai_chat_content(body).expect_err("missing content");
    assert!(error.message.contains("choices[0].message.content"));
}

#[test]
fn openai_responses_client_decodes_responses_body() {
    let body = r#"{"output":[{"content":[{"text":"{\"id\":\"y\"}"}]}]}"#;
    let extracted = extract_openai_responses_content(body).expect("decode");
    assert_eq!(extracted.content, "{\"id\":\"y\"}");
}

#[test]
fn anthropic_client_decodes_messages_body() {
    let body = r#"{"content":[{"text":"{\"id\":\"z\"}"}]}"#;
    let extracted = extract_anthropic_content(body).expect("decode");
    assert_eq!(extracted.content, "{\"id\":\"z\"}");
}

#[test]
fn openai_compatible_client_missing_endpoint_returns_explicit_error() {
    let error = required_endpoint(&None, "openai-compatible", "chat/completions")
        .expect_err("missing endpoint should error");
    assert!(error.code.contains("text_provider_missing_endpoint"));
}

#[test]
fn anthropic_client_missing_endpoint_returns_explicit_error() {
    let error = required_endpoint(&None, "anthropic", "messages").expect_err("missing endpoint should error");
    assert!(error.code.contains("text_provider_missing_endpoint"));
}

#[test]
fn http_status_error_carries_status_code() {
    let error = http_status_error(401, "401 Unauthorized", None);
    assert!(error.message.contains("401"));
    assert_eq!(error.code, "text_provider_http_status");
}

#[test]
fn openai_chat_content_filter_finish_reason_surfaces_content_filtered() {
    let body = r#"{"choices":[{"message":{"content":""},"finish_reason":"content_filter"}]}"#;
    let error = extract_openai_chat_content(body).expect_err("content_filter must error");
    assert_eq!(error.kind, TextModelProviderErrorKind::ContentFiltered { reason: "content_filter".into() });
    assert_eq!(error.code, "text_provider_content_filtered");
    assert!(error.message.contains("content policy"), "actionable message, got: {}", error.message);
}

#[test]
fn openai_chat_length_finish_reason_surfaces_output_truncated() {
    let body = r#"{"choices":[{"message":{"content":"{\"id\":\"par"},"finish_reason":"length"}],"usage":{"completion_tokens":4096}}"#;
    let error = extract_openai_chat_content(body).expect_err("length must error");
    assert_eq!(error.kind, TextModelProviderErrorKind::OutputTruncated { output_tokens: Some(4096) });
    assert_eq!(error.code, "text_provider_output_truncated");
    assert!(error.message.contains("max_tokens"), "actionable message, got: {}", error.message);
}

#[test]
fn openai_responses_refusal_surfaces_content_filtered() {
    let body = r#"{"status":"incomplete","incomplete_details":{"reason":"content_filter"},"output":[]}"#;
    let error = extract_openai_responses_content(body).expect_err("refusal must error");
    assert_eq!(error.kind, TextModelProviderErrorKind::ContentFiltered { reason: "content_filter".into() });
    assert_eq!(error.code, "text_provider_content_filtered");
}

#[test]
fn openai_responses_max_output_tokens_surfaces_output_truncated() {
    let body = r#"{"status":"incomplete","incomplete_details":{"reason":"max_output_tokens"},"output":[{"content":[{"text":"partial"}]}],"usage":{"output_tokens":8192}}"#;
    let error = extract_openai_responses_content(body).expect_err("truncation must error");
    assert_eq!(error.kind, TextModelProviderErrorKind::OutputTruncated { output_tokens: Some(8192) });
    assert_eq!(error.code, "text_provider_output_truncated");
}

#[test]
fn openai_responses_refusal_output_type_surfaces_content_filtered() {
    let body = r#"{"status":"completed","output":[{"type":"refusal","refusal":"policy"}]}"#;
    let error = extract_openai_responses_content(body).expect_err("refusal part must error");
    assert_eq!(error.kind, TextModelProviderErrorKind::ContentFiltered { reason: "refusal".into() });
}

#[test]
fn anthropic_max_tokens_stop_reason_surfaces_output_truncated() {
    let body = r#"{"stop_reason":"max_tokens","content":[{"text":"partial"}],"usage":{"output_tokens":8192}}"#;
    let error = extract_anthropic_content(body).expect_err("max_tokens must error");
    assert_eq!(error.kind, TextModelProviderErrorKind::OutputTruncated { output_tokens: Some(8192) });
    assert_eq!(error.code, "text_provider_output_truncated");
    assert!(error.message.contains("max_tokens"), "actionable message, got: {}", error.message);
}

#[test]
fn anthropic_content_filter_stop_reason_surfaces_content_filtered() {
    let body = r#"{"stop_reason":"content_filter","content":[{"text":""}]}"#;
    let error = extract_anthropic_content(body).expect_err("content_filter must error");
    assert_eq!(error.kind, TextModelProviderErrorKind::ContentFiltered { reason: "content_filter".into() });
    assert_eq!(error.code, "text_provider_content_filtered");
    assert!(error.message.contains("content policy"), "actionable message, got: {}", error.message);
}

#[test]
fn anthropic_redacted_content_block_surfaces_content_filtered() {
    let body = r#"{"stop_reason":"end_turn","content":[{"type":"redacted_content"}]}"#;
    let error = extract_anthropic_content(body).expect_err("redacted block must error");
    assert_eq!(error.kind, TextModelProviderErrorKind::ContentFiltered { reason: "redacted_content".into() });
}

#[test]
fn openai_chat_extracts_usage_when_present() {
    let body = r#"{"choices":[{"message":{"content":"{\"id\":\"x\"}"},"finish_reason":"stop"}],"usage":{"prompt_tokens":10,"completion_tokens":20}}"#;
    let extracted = extract_openai_chat_content(body).expect("decode");
    let usage = extracted.usage.expect("usage present");
    assert_eq!(usage.input_tokens, Some(10));
    assert_eq!(usage.output_tokens, Some(20));
    assert_eq!(extracted.finish_reason.as_deref(), Some("stop"));
}

#[test]
fn anthropic_extracts_usage_when_present() {
    let body = r#"{"stop_reason":"end_turn","content":[{"text":"{\"id\":\"z\"}"}],"usage":{"input_tokens":5,"output_tokens":7}}"#;
    let extracted = extract_anthropic_content(body).expect("decode");
    let usage = extracted.usage.expect("usage present");
    assert_eq!(usage.input_tokens, Some(5));
    assert_eq!(usage.output_tokens, Some(7));
}

#[test]
fn openai_compatible_sends_max_tokens_when_configured() {
    let config = sample_config("openai", "https://example.invalid", "TEST_KEY");
    let request = sample_request(&config);
    let body = openai_chat_body(&config.model, Some(8192), &request);
    assert_eq!(number(&body, "max_tokens"), Some(8192));
}

#[test]
fn openai_compatible_omits_max_tokens_when_none() {
    let config = sample_config("openai", "https://example.invalid", "TEST_KEY");
    let request = sample_request(&config);
    let body = openai_chat_body(&config.model, None, &request);
    assert!(body.get("max_tokens").is_none(), "max_tokens must be omitted when None");
}

#[test]
fn openai_responses_sends_max_output_tokens_when_configured() {
    let config = sample_config("openai", "https://example.invalid", "TEST_KEY");
    let request = sample_request(&config);
    let body = openai_responses_body(&config.model, Some(4096), &request);
    assert_eq!(number(&body, "max_output_tokens"), Some(4096));
}

#[test]
fn anthropic_sends_configured_max_tokens() {
    let config = sample_config("anthropic", "https://example.invalid", "TEST_KEY");
    let request = sample_request(&config);
    let body = anthropic_body(&config.model, Some(2048), &request);
    assert_eq!(number(&body, "max_tokens"), Some(2048));
}

#[test]
fn anthropic_defaults_max_tokens_to_8192_when_none() {
    let config = sample_config("anthropic", "https://example.invalid", "TEST_KEY");
    let request = sample_request(&config);
    let body = anthropic_body(&config.model, None, &request);
    assert_eq!(number(&body, "max_tokens"), Some(8192));
}

#[test]
fn openai_chat_messages_none_wraps_prompt_as_single_user() {
    let config = sample_config("openai", "https://example.invalid", "TEST_KEY");
    let request = sample_request(&config);
    let messages = openai_chat_messages(&request);
    let array = items(&messages);
    assert_eq!(array.len(), 1, "None path wraps prompt as one message");
    assert_eq!(field(&array[0], "role"), Some("user"));
    assert_eq!(field(&array[0], "content"), Some("{\"role\":\"scene_planner\"}"));
}

#[test]
fn openai_chat_messages_some_serializes_all_roles_in_order() {
    let config = sample_config("openai", "https://example.invalid", "TEST_KEY");
    let request = sample_request_with_messages(&config);
    let messages = openai_chat_messages(&request);
    assert_eq!(items(&messages).len(), 3, "all three messages preserved in order");
    assert_eq!(roles(&messages), vec!["system", "user", "assistant"]);
    assert_eq!(field(&items(&messages)[0], "content"), Some("you are the scene planner"));
    assert_eq!(field(&items(&messages)[2], "content"), Some("prior assistant turn"));
}

#[test]
fn openai_compatible_sends_multi_message_body_when_some() {
    let config = sample_config("openai", "https://example.invalid", "TEST_KEY");
    let request = sample_request_with_messages(&config);
    let body = openai_chat_body(&config.model, None, &request);
    let messages = body.get("messages").expect("messages");
    assert_eq!(roles(messages), vec!["system", "user", "assistant"]);
    assert_eq!(field(&items(messages)[0], "content"), Some("you are the scene planner"));
    assert_eq!(field(&items(messages)[1], "content"), Some("user-context"));
    assert_eq!(field(&items(messages)[2], "content"), Some("prior assistant turn"));
    let format = body.get("response_format").expect("response_format");
    assert_eq!(field(format, "type"), Some("json_object"));
}

#[test]
fn openai_compatible_single_prompt_body_unchanged_when_none() {
    let config = sample_config("openai", "https://example.invalid", "TEST_KEY");
    let request = sample_request(&config);
    let body = openai_chat_body(&config.model, None, &request);
    let messages = body.get("messages").expect("messages");
    let array = items(messages);
    assert_eq!(array.len(), 1, "None path wraps prompt as one message");
    assert_eq!(field(&array[0], "role"), Some("user"));
    assert_eq!(field(&array[0], "content"), Some("{\"role\":\"scene_planner\"}"));
    assert!(!roles(messages).contains(&"system"));
}

#[test]
fn openai_responses_sends_instructions_and_input_when_some() {
    let config = sample_config("openai", "https://example.invalid", "TEST_KEY");
    let request = sample_request_with_messages(&config);
    let body = openai_responses_body(&config.model, None, &request);
    assert_eq!(field(&body, "instructions"), Some("you are the scene planner"));
    assert_eq!(field(&body, "input"), Some("user-context"));
    assert_ne!(field(&body, "input"), Some("prior assistant turn"));
}

#[test]
fn openai_responses_single_prompt_body_unchanged_when_none() {
    let config = sample_config("openai", "https://example.invalid", "TEST_KEY");
    let request = sample_request(&config);
    let body = openai_responses_body(&config.model, None, &request);
    assert_eq!(field(&body, "input"), Some("{\"role\":\"scene_planner\"}"));
    assert!(body.get("instructions").is_none());
}

#[test]
fn anthropic_none_wraps_prompt_as_single_user_no_system() {
    let config = sample_config("anthropic", "https://example.invalid", "TEST_KEY");
    let request = sample_request(&config);
    let (system, messages) = anthropic_system_and_messages(&request);
    assert_eq!(system, None, "None path has no system param");
    let array = items(&messages);
    assert_eq!(array.len(), 1);
    assert_eq!(field(&array[0], "role"), Some("user"));
    assert_eq!(field(&array[0], "content"), Some("{\"role\":\"scene_planner\"}"));
}

#[test]
fn anthropic_some_lifts_system_to_top_level_and_keeps_user_assistant_in_array() {
    let config = sample_config("anthropic", "https://example.invalid", "TEST_KEY");
    let request = sample_request_with_messages(&config);
    let (system, messages) = anthropic_system_and_messages(&request);
    assert_eq!(system.as_deref(), Some("you are the scene planner"));
    assert_eq!(items(&messages).len(), 2, "system must not appear inside messages");
    assert_eq!(roles(&messages), vec!["user", "assistant"]);
    assert_eq!(field(&items(&messages)[0], "content"), Some("user-context"));
}

#[test]
fn anthropic_sends_system_param_and_messages_array_when_some() {
    let config = sample_config("anthropic", "https://example.invalid", "TEST_KEY");
    let request = sample_request_with_messages(&config);
    let body = anthropic_body(&config.model, None, &request);
    assert_eq!(field(&body, "system"), Some("you are the scene planner"));
    let messages = body.get("messages").expect("messages");
    assert_eq!(roles(messages), vec!["user", "assistant"]);
    assert_eq!(field(&items(messages)[0], "content"), Some("user-context"));
    assert_eq!(number(&body, "max_tokens"), Some(8192));
}

#[test]
fn anthropic_single_prompt_body_unchanged_when_none() {
    let config = sample_config("anthropic", "https://example.invalid", "TEST_KEY");
    let request = sample_request(&config);
    let body = anthropic_body(&config.model, None, &request);
    assert!(body.get("system").is_none());
    let messages = body.get("messages").expect("messages");
    assert_eq!(items(messages).len(), 1);
    assert_eq!(field(&items(messages)[0], "content"), Some("{\"role\":\"scene_planner\"}"));
}

#[test]
fn credential_headers_skip_blank_and_refuse_control_characters() {
    let mut headers: Vec<(String, String)> = Vec::new();
    push_bearer_auth(&mut headers, "   ").expect("blank credential adds nothing");
    assert!(headers.is_empty());
    push_bearer_auth(&mut headers, "token").expect("plain credential");
    assert_eq!(headers, vec![("Authorization".to_string(), "Bearer token".to_string())]);
    let error = push_x_api_key(&mut headers, "bad\nkey").expect_err("newline is illegal");
    assert_eq!(error.code, "text_provider_credential_header");
    assert_eq!(headers.len(), 1, "a refused credential adds nothing");
    push_x_api_key(&mut headers, "k-1").expect("api key");
    assert_eq!(headers[1], ("x-api-key".to_string(), "k-1".to_string()));
    assert!(is_header_value("tab\tand caf\u{e9}"));
    assert!(!is_header_value("del\u{7f}"));
    assert_eq!(credential_header(AuthScheme::Bearer, ""), CredentialHeader::Skip);
    assert_eq!(credential_header(AuthScheme::ApiKey, "a\u{1}"), CredentialHeader::Illegal);
    let image_error = image_auth_header("x\ry").expect_err("carriage return is illegal");
    assert_eq!(image_error.code, "image_provider_credential_header");
    assert_eq!(image_auth_header("tok").expect("legal"), Some("Bearer tok".to_string()));
}

#[test]
fn models_request_headers_follow_provider_kind() {
    let anthropic = models_request_headers(ModelsAuth::ApiKey, "key", ProviderKind::AnthropicMessages)
        .expect("headers");
    assert_eq!(anthropic.len(), 3);
    assert_eq!(anthropic[0], ("content-type".to_string(), "application/json".to_string()));
    assert_eq!(anthropic[1], ("anthropic-version".to_string(), "2023-06-01".to_string()));
    assert_eq!(anthropic[2], ("x-api-key".to_string(), "key".to_string()));
    let open = models_request_headers(ModelsAuth::Bearer, "", ProviderKind::OpenAiCompatible).expect("headers");
    assert_eq!(open.len(), 1);
    match models_request_headers(ModelsAuth::Bearer, "a\u{0}b", ProviderKind::OpenAiCompatible) {
        Err(ModelDiscoveryError::Http { code, .. }) => assert_eq!(code, "credential_header"),
        other => panic!("expected a credential_header failure, got {other:?}"),
    }
}

#[test]
fn config_hash_ignores_output_cap_and_schema_support() {
    let base = sample_config("openai", "https://example.invalid", "TEST_KEY");
    let mut capped = base.clone();
    capped.max_output_tokens = Some(1024);
    capped.supports_json_schema = !base.supports_json_schema;
    assert_eq!(base.provider_config_hash(), capped.provider_config_hash());
    let mut other_model = base.clone();
    other_model.model = "other-model".into();
    assert_ne!(base.provider_config_hash(), other_model.provider_config_hash());
}

#[test]
fn validate_accepts_blank_credential_variable_for_local_endpoint() {
    let config = sample_config("local", "http://127.0.0.1:11434/v1", "");
    assert_eq!(config.validate(), Ok(()));
    let config = sample_config("local", "http://127.0.0.1:11434/v1", "   ");
    assert_eq!(config.validate(), Ok(()));
}

#[test]
fn validate_rejects_lowercase_credential_variable() {
    let config = sample_config("openai", "https://api.openai.com/v1", "openai_api_key");
    assert_eq!(
        config.validate(),
        Err(TextProviderConfigError::InvalidField {
            field: "credential_env_var",
            reason: "must contain only uppercase ASCII letters, digits, or underscores".into(),
        })
    );
}
