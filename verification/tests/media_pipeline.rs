use plotforge_agent::providers_image::image_url_bytes;
use plotforge_agent::providers_moderation::ModerationProviderError;
use plotforge_agent::http_headers::{image_auth_header, moderation_auth_header, tts_auth_header};
use plotforge_agent::media_pipeline::{
    cached_scene_background, cached_tts_asset, image_generation_outcome, image_job_request,
    scene_background_reference, scene_image_prompt, tts_generation_outcome, tts_job_request,
    AssetProviderMetadata, AssetRecord, AssetReference, AssetReferenceKind, AssetSourceKind, JobKind,
};
use plotforge_agent::providers_image::{
    fake_image_bytes, ImageGenerationRequest, ImageGenerationResponse, ImageProviderError,
    SceneImageRequest,
};
use plotforge_agent::providers_moderation::check_moderation_prompt;
use plotforge_agent::providers_tts::{
    fake_tts_bytes, silent_audio_bytes, tts_missing_credential, TtsProviderError, TtsProviderOutput,
    TtsRequest,
};
use plotforge_agent::schema::{AssetKind, Scene};

fn scene() -> Scene {
    Scene {
        key: "civic-crisis-002".into(),
        title: "Tax Resistance".into(),
        location: "Civic Hall".into(),
        dramatic_purpose: "Raise the stakes.".into(),
        hook: "Runners are beaten.".into(),
        background_asset: String::new(),
        audio_refs: Vec::new(),
        character_ids: Vec::new(),
        plot_thread_updates: Vec::new(),
        entry_beat_id: None,
        beats: Vec::new(),
    }
}

fn record(kind: AssetKind, source: AssetSourceKind, slot: &str, prompt_hash: &str, fallback_used: bool) -> AssetRecord {
    AssetRecord {
        id: format!("asset-{slot}-{prompt_hash}"),
        kind,
        source,
        project_path: "assets/generated/x".into(),
        export_path: "assets/generated/x".into(),
        provider_metadata: Some(AssetProviderMetadata {
            provider: "fake".into(),
            model: None,
            request_id: None,
            prompt_hash: Some(prompt_hash.into()),
            fallback_used,
        }),
        references: vec![AssetReference {
            reference_kind: AssetReferenceKind::Scene,
            reference_id: "civic-crisis-002".into(),
            slot: slot.into(),
        }],
    }
}

#[test]
fn background_request_describes_the_scene() {
    let request = SceneImageRequest::background(&scene());
    assert_eq!(request.output_path, "assets/generated/civic-crisis-002.png");
    assert_eq!(
        request.prompt,
        "scene_key=civic-crisis-002; title=Tax Resistance; location=Civic Hall; hook=Runners are beaten.; dramatic_purpose=Raise the stakes."
    );
    assert_eq!(scene_image_prompt(&scene()), request.prompt);
    let reference = scene_background_reference("civic-crisis-002");
    assert_eq!(reference.slot, "background_asset");
    assert_eq!(reference.reference_kind, AssetReferenceKind::Scene);
}

#[test]
fn jobs_carry_their_limits() {
    let image = image_job_request();
    assert_eq!(image.kind, JobKind::ImageGeneration);
    assert_eq!(image.timeout_ms, 60_000);
    assert_eq!(image.max_attempts, 2);
    let tts = tts_job_request();
    assert_eq!(tts.kind, JobKind::TtsGeneration);
    assert_eq!(tts.timeout_ms, 30_000);
}

#[test]
fn only_a_generated_answer_to_the_same_prompt_is_cached() {
    let records = vec![
        record(AssetKind::Image, AssetSourceKind::Placeholder, "background_asset", "h1", true),
        record(AssetKind::Image, AssetSourceKind::Generated, "portrait", "h1", false),
        record(AssetKind::Image, AssetSourceKind::Generated, "background_asset", "h2", false),
        record(AssetKind::Image, AssetSourceKind::Generated, "background_asset", "h1", false),
        record(AssetKind::Image, AssetSourceKind::Generated, "background_asset", "h1", false),
    ];
    assert_eq!(cached_scene_background(&records, "h1"), Some(3));
    assert_eq!(cached_scene_background(&records, "h3"), None);
    let reference = AssetReference {
        reference_kind: AssetReferenceKind::Scene,
        reference_id: "civic-crisis-002".into(),
        slot: "scene_audio".into(),
    };
    let audio = vec![
        record(AssetKind::Audio, AssetSourceKind::Generated, "narration", "a", false),
        record(AssetKind::Audio, AssetSourceKind::Generated, "scene_audio", "a", false),
    ];
    assert_eq!(cached_tts_asset(&audio, AssetKind::Audio, &reference, "a"), Some(1));
    assert_eq!(cached_tts_asset(&audio, AssetKind::Voice, &reference, "a"), None);
}

#[test]
fn image_outcome_records_answer_or_placeholder() {
    let request = SceneImageRequest::background(&scene());
    let response = ImageGenerationResponse::png(vec![1, 2, 3], "fake-image", Some("m".into()), None, 2);
    let ok = image_generation_outcome(&request, "hash", Ok(response));
    assert_eq!(ok.input.source, AssetSourceKind::Generated);
    assert_eq!(ok.bytes, vec![1, 2, 3]);
    assert_eq!(ok.spent_cost_units, Some(2));
    assert!(!ok.fallback_used);
    let failed = image_generation_outcome(&request, "hash", Err(ImageProviderError::timeout("slow")));
    assert_eq!(failed.input.source, AssetSourceKind::Placeholder);
    assert!(failed.fallback_used);
    assert!(failed.retryable);
    let meta = failed.input.provider_metadata.clone().expect("metadata");
    assert_eq!(meta.provider, "plotforge-placeholder");
    assert!(meta.fallback_used);
    let error = failed.error.expect("error");
    assert_eq!(error.code, "image_provider_timeout");
    assert_eq!(error.message, "image provider timed out: slow");
    assert_eq!(
        failed.bytes,
        b"plotforge-placeholder-png\nscene=civic-crisis-002\nprompt_hash=hash\n".to_vec()
    );
    let filtered = image_generation_outcome(&request, "hash", Err(ImageProviderError::content_filtered("policy")));
    assert!(!filtered.retryable);
    assert_eq!(filtered.error.expect("error").code, "image_provider_content_filtered");
}

#[test]
fn tts_outcome_records_answer_or_silence() {
    let request = TtsRequest::beat_narration("s1", "b2", "Hello", "coral");
    let reference = request.reference();
    assert_eq!(reference.slot, "beat_audio:b2:narration");
    let hash = request.prompt_hash();
    assert_eq!(hash.len(), 64);
    let ok = tts_generation_outcome(&request, &hash, Ok(TtsProviderOutput::audio(vec![9], "fake-tts", None, None, 1)));
    assert_eq!(ok.input.references, vec![reference.clone()]);
    assert_eq!(ok.input.kind, AssetKind::Audio);
    let failed = tts_generation_outcome(&request, &hash, Err(TtsProviderError::provider("tts_provider_error", "down")));
    assert!(failed.fallback_used);
    assert_eq!(failed.bytes, silent_audio_bytes(&request, &hash));
    assert_eq!(failed.error.expect("error").code, "tts_provider_error");
    let stored = AssetRecord {
        id: "asset-1".into(),
        kind: AssetKind::Audio,
        source: AssetSourceKind::Generated,
        project_path: "p".into(),
        export_path: "e".into(),
        provider_metadata: None,
        references: Vec::new(),
    };
    let media = request.media_reference(&stored);
    assert_eq!(media.asset_id.as_deref(), Some("asset-1"));
    assert_eq!(media.slot, "narration");
}

#[test]
fn fake_media_bytes_name_their_request() {
    let request = ImageGenerationRequest { scene_key: "s".into(), prompt: "p".into(), output_path: "o".into() };
    assert_eq!(fake_image_bytes(&request), b"plotforge-fake-png\nscene=s\nprompt=p\n".to_vec());
    let tts = TtsRequest::scene_narration("s", "t", "v");
    assert_eq!(
        fake_tts_bytes(&tts),
        b"plotforge-fake-wav\ntarget=Scene { scene_key: \"s\" }\nvoice=v\ntext=t\n".to_vec()
    );
}

#[test]
fn openai_image_client_omits_auth_header_for_empty_credential_env_var() {
    assert_eq!(image_auth_header("").expect("no-auth endpoint"), None);
    assert_eq!(tts_auth_header("").expect("no-auth endpoint"), None);
    assert_eq!(moderation_auth_header("key").expect("auth"), Some("Bearer key".to_string()));
}

#[test]
fn moderation_rejects_secret_prompt_before_http() {
    let error = check_moderation_prompt("OPENAI_API_KEY=sk-secret").expect_err("secret prompt");
    assert_eq!(error.code, "moderation_provider_prompt_secret");
}

#[test]
fn openai_tts_client_surfaces_missing_credential_explicitly() {
    let error = tts_missing_credential("PLOTFORGE_TTS_TEST_MISSING_KEY");
    assert!(error.code.contains("missing_credential"), "error code must mention missing_credential, got: {}", error.code);
}

#[test]
fn character_voice_uses_voice_card_and_voice_slot() {
    let request = TtsRequest::character_voice("hero", "warm baritone", "Hello there.");
    assert_eq!(request.voice, "warm baritone");
    assert_eq!(request.output_path, "assets/generated/voices/hero.wav");
    assert_eq!(request.asset_kind, AssetKind::Voice);
    let reference = request.reference();
    assert_eq!(reference.reference_kind, AssetReferenceKind::Character);
    assert_eq!(reference.slot, "voice");
    let preflight = ModerationProviderError::throttle_preflight("gate closed");
    assert_eq!(preflight.code, "moderation_provider_throttle_preflight");
    assert_eq!(preflight.message, "gate closed");
}

fn registered(input: &plotforge_agent::media_pipeline::AssetRecordInput) -> AssetRecord {
    AssetRecord {
        id: "asset-new".into(),
        kind: input.kind,
        source: input.source,
        project_path: input.project_path.clone(),
        export_path: input.export_path.clone().unwrap_or_default(),
        provider_metadata: input.provider_metadata.clone(),
        references: input.references.clone(),
    }
}

#[test]
fn generated_background_is_a_cache_hit_and_placeholder_is_not() {
    let request = SceneImageRequest::background(&scene());
    let response = ImageGenerationResponse::png(vec![7], "fake-image", None, None, 1);
    let ok = image_generation_outcome(&request, "hash-1", Ok(response));
    assert_eq!(cached_scene_background(&vec![registered(&ok.input)], "hash-1"), Some(0));
    let failed = image_generation_outcome(&request, "hash-1", Err(ImageProviderError::timeout("slow")));
    assert_eq!(cached_scene_background(&vec![registered(&failed.input)], "hash-1"), None);
    let speech = TtsRequest::scene_narration("s1", "Hello", "coral");
    let hash = speech.prompt_hash();
    let done = tts_generation_outcome(&speech, &hash, Ok(TtsProviderOutput::audio(vec![1], "fake-tts", None, None, 1)));
    assert_eq!(cached_tts_asset(&vec![registered(&done.input)], AssetKind::Audio, &speech.reference(), &hash), Some(0));
    let silent = tts_generation_outcome(&speech, &hash, Err(TtsProviderError::timeout("slow")));
    assert_eq!(cached_tts_asset(&vec![registered(&silent.input)], AssetKind::Audio, &speech.reference(), &hash), None);
}

#[test]
fn url_fetch_requires_success_and_a_body() {
    let missing = image_url_bytes(404, "404 Not Found", Vec::new()).expect_err("404");
    assert_eq!(missing.code, "image_provider_url_fetch");
    assert_eq!(missing.message, "image url returned HTTP 404 Not Found");
    let empty = image_url_bytes(200, "200 OK", Vec::new()).expect_err("empty body");
    assert_eq!(empty.message, "image url returned empty body");
    assert_eq!(image_url_bytes(200, "200 OK", vec![1, 2]).expect("bytes"), vec![1, 2]);
}
