use plotforge_agent::providers_image::{
    decode_b64_image, generations_url, parse_image_response, FakeImageProvider, ImageGenerationRequest,
    ImagePayload, ImageProvider, ImageProviderError, ImageProviderErrorKind, SceneImagePipeline,
};
use plotforge_agent::providers_tts::{
    speech_url, tts_audio_output, tts_progress_message, tts_request_id_suffix, tts_status_error,
    tts_voice, FakeTtsProvider, TtsPipeline, TtsProvider, TtsProviderError, TtsProviderErrorKind,
    TtsRequest, TtsTarget,
};

#[test]
fn openai_image_client_decodes_b64_json_response() {
    let payload = parse_image_response(r#"{"data":[{"b64_json":" aGVsbG8= "}]}"#).expect("decode");
    assert_eq!(payload, ImagePayload::Bytes(b"hello".to_vec()));
}

#[test]
fn openai_image_client_fetches_url_when_no_b64_json() {
    let payload = parse_image_response(r#"{"data":[{"url":"https://img/x.png","b64_json":null}]}"#).expect("decode");
    assert_eq!(payload, ImagePayload::Url("https://img/x.png".into()));
}

#[test]
fn openai_image_client_content_filter_surfaces_content_filtered() {
    let error = parse_image_response(r#"{"data":[{"content_filter":true,"b64_json":"aGk="}]}"#).expect_err("filtered");
    assert_eq!(error.kind, ImageProviderErrorKind::ContentFiltered { reason: "content_filter".into() });
    assert_eq!(error.code, "image_provider_content_filtered");
    assert!(!error.retryable());
}

#[test]
fn openai_image_client_missing_data_array_is_decode_error() {
    let error = parse_image_response(r#"{"images":[]}"#).expect_err("no data");
    assert_eq!(error.code, "image_provider_http_decode");
    let error = parse_image_response(r#"{"data":[]}"#).expect_err("empty data");
    assert_eq!(error.message, "images response missing data[0]");
    let error = parse_image_response(r#"{"data":[{}]}"#).expect_err("no payload");
    assert_eq!(error.message, "images response data[0] has neither b64_json nor url");
    let error = decode_b64_image("%%%").expect_err("bad base64");
    assert_eq!(error.code, "image_provider_b64_decode");
}

#[test]
fn fake_image_provider_counts_calls_and_fails_as_configured() {
    let request = ImageGenerationRequest {
        scene_key: "scene-1".into(),
        prompt: "test".into(),
        output_path: "assets/generated/scene-1.png".into(),
    };
    let mut ok = FakeImageProvider::success();
    let response = ok.generate(&request).expect("fake image");
    assert_eq!(response.bytes, b"plotforge-fake-png\nscene=scene-1\nprompt=test\n".to_vec());
    assert_eq!(response.request_id.as_deref(), Some("fake-image-scene-1"));
    assert_eq!(ok.call_count(), 1);
    let mut failing = FakeImageProvider::timeout();
    assert_eq!(failing.generate(&request).expect_err("timeout").kind, ImageProviderErrorKind::Timeout);
    let mut pipeline = SceneImagePipeline::new(FakeImageProvider::provider_error());
    assert!(pipeline.provider.generate(&request).is_err());
    assert_eq!(pipeline.provider.call_count(), 1);
    assert_eq!(generations_url("https://api.openai.com/v1/"), "https://api.openai.com/v1/images/generations");
    assert_eq!(ImageProviderError::rate_limit(None, "x").code, "image_provider_rate_limit");
}

#[test]
fn openai_tts_client_rejects_empty_audio_body() {
    let error = tts_audio_output(Vec::new(), "gpt-4o-mini-tts").expect_err("empty");
    assert_eq!(error.code, "tts_provider_empty_body");
    let output = tts_audio_output(vec![1, 2, 3], "gpt-4o-mini-tts").expect("audio");
    assert_eq!(output.provider, "openai_tts");
    assert_eq!(output.model.as_deref(), Some("gpt-4o-mini-tts"));
    assert_eq!(output.spent_cost_units, 1);
}

#[test]
fn openai_tts_client_surfaces_rate_limit_with_retry_after() {
    let error = tts_status_error(429, "429 Too Many Requests", Some(2_000));
    assert_eq!(error.kind, TtsProviderErrorKind::RateLimit { retry_after_ms: Some(2_000) });
    assert_eq!(error.message, "tts provider returned HTTP 429 Too Many Requests");
    let error = tts_status_error(500, "500 Internal Server Error", None);
    assert_eq!(error.code, "tts_provider_http_status");
}

#[test]
fn fake_tts_provider_names_target_voice_and_text() {
    let request = TtsRequest::beat_narration("s1", "b2", "Hello", "coral");
    assert_eq!(request.output_path, "assets/generated/audio/s1-b2.wav");
    assert_eq!(tts_progress_message(&request), "generating beat narration audio for s1/b2");
    assert_eq!(tts_request_id_suffix(&request), "beat-s1-b2");
    let mut provider = FakeTtsProvider::success();
    let output = provider.synthesize(&request).expect("fake audio");
    assert_eq!(
        String::from_utf8(output.bytes).unwrap(),
        "plotforge-fake-wav\ntarget=Beat { scene_key: \"s1\", beat_id: \"b2\" }\nvoice=coral\ntext=Hello\n"
    );
    assert_eq!(output.request_id.as_deref(), Some("fake-tts-beat-s1-b2"));
    assert_eq!(provider.call_count(), 1);
    let mut pipeline = TtsPipeline::new(FakeTtsProvider::provider_error());
    assert!(pipeline.provider.synthesize(&request).is_err());
    assert_eq!(speech_url("http://h/v1"), "http://h/v1/audio/speech");
    assert_eq!(tts_voice("", "alloy"), "alloy");
    assert_eq!(tts_voice("coral", "alloy"), "coral");
    let scene = TtsRequest::scene_narration("s1", "t", "v");
    assert_eq!(scene.target, TtsTarget::Scene { scene_key: "s1".into() });
    assert!(!TtsProviderError::content_filtered("x").retryable());
}
