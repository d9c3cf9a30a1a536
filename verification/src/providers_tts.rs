//! Text-to-speech provider interface: requests, outputs, errors, the
//! deterministic fake provider, and the rules of the OpenAI speech client.

use vstd::prelude::*;
use crate::shared::counted_call;
use vstd::utf8::encode_utf8;
use crate::providers_http::{join_endpoint, joined_endpoint};
use crate::providers_image::utf8_bytes;
use crate::schema::AssetKind;
use crate::json::JsonValue;
use crate::text::{debug_quoted, str_debug};

verus! {

/// What a narration or voice sample is for.
#[derive(Clone, Debug, PartialEq, Eq)]
pub enum TtsTarget {
    Scene { scene_key: String },
    Beat { scene_key: String, beat_id: String },
    Character { character_id: String },
}

#[derive(Clone, Debug, PartialEq, Eq)]
pub struct TtsRequest {
    pub target: TtsTarget,
    pub text: String,
    pub voice: String,
    pub output_path: String,
    pub asset_kind: AssetKind,
}

impl TtsRequest {
    /// Narration of a scene, written to `assets/generated/audio/{scene}-scene.wav`.
    pub fn scene_narration(scene_key: &str, text: &str, voice: &str) -> (r: TtsRequest)
        ensures
            r.target matches TtsTarget::Scene { scene_key: k } && k@ == scene_key@,
            r.text@ == text@,
            r.voice@ == voice@,
            r.output_path@ == "assets/generated/audio/"@ + scene_key@ + "-scene.wav"@,
            r.asset_kind == AssetKind::Audio,
    {
        let mut output_path = String::from_str("assets/generated/audio/");
        output_path.append(scene_key);
        output_path.append("-scene.wav");
        TtsRequest {
            target: TtsTarget::Scene { scene_key: String::from_str(scene_key) },
            text: String::from_str(text),
            voice: String::from_str(voice),
            output_path,
            asset_kind: AssetKind::Audio,
        }
    }

    /// Narration of a beat, written to `assets/generated/audio/{scene}-{beat}.wav`.
    pub fn beat_narration(scene_key: &str, beat_id: &str, beat_text: &str, voice: &str) -> (r: TtsRequest)
        ensures
            r.target matches TtsTarget::Beat { scene_key: k, beat_id: b } && k@ == scene_key@ && b@
                == beat_id@,
            r.text@ == beat_text@,
            r.voice@ == voice@,
            r.output_path@ == "assets/generated/audio/"@ + scene_key@ + "-"@ + beat_id@ + ".wav"@,
            r.asset_kind == AssetKind::Audio,
    {
        let mut output_path = String::from_str("assets/generated/audio/");
        output_path.append(scene_key);
        output_path.append("-");
        output_path.append(beat_id);
        output_path.append(".wav");
        TtsRequest {
            target: TtsTarget::Beat {
                scene_key: String::from_str(scene_key),
                beat_id: String::from_str(beat_id),
            },
            text: String::from_str(beat_text),
            voice: String::from_str(voice),
            output_path,
            asset_kind: AssetKind::Audio,
        }
    }

    /// A character's voice sample, in the character's voice card, written to
    /// `assets/generated/voices/{character}.wav`.
    pub fn character_voice(character_id: &str, voice_card: &str, sample_text: &str) -> (r: TtsRequest)
        ensures
            r.target matches TtsTarget::Character { character_id: c } && c@ == character_id@,
            r.text@ == sample_text@,
            r.voice@ == voice_card@,
            r.output_path@ == "assets/generated/voices/"@ + character_id@ + ".wav"@,
            r.asset_kind == AssetKind::Voice,
    {
        let mut output_path = String::from_str("assets/generated/voices/");
        output_path.append(character_id);
        output_path.append(".wav");
        TtsRequest {
            target: TtsTarget::Character { character_id: String::from_str(character_id) },
            text: String::from_str(sample_text),
            voice: String::from_str(voice_card),
            output_path,
            asset_kind: AssetKind::Voice,
        }
    }
}

#[derive(Clone, Debug, PartialEq, Eq)]
pub struct TtsProviderOutput {
    pub bytes: Vec<u8>,
    pub provider: String,
    pub model: Option<String>,
    pub request_id: Option<String>,
    pub spent_cost_units: u64,
}

impl TtsProviderOutput {
    pub fn audio(
        bytes: Vec<u8>,
        provider: &str,
        model: Option<String>,
        request_id: Option<String>,
        spent_cost_units: u64,
    ) -> (r: TtsProviderOutput)
        ensures
            r.bytes == bytes,
            r.provider@ == provider@,
            r.model == model,
            r.request_id == request_id,
            r.spent_cost_units == spent_cost_units,
    {
        TtsProviderOutput {
            bytes,
            provider: String::from_str(provider),
            model,
            request_id,
            spent_cost_units,
        }
    }
}

#[derive(Clone, Debug, PartialEq, Eq)]
pub enum TtsProviderErrorKind {
    Provider,
    Timeout,
    /// HTTP 429, with the server-advised delay in milliseconds when present.
    RateLimit { retry_after_ms: Option<u64> },
    /// The provider refused on content-policy grounds; not retried.
    ContentFiltered { reason: String },
}

#[derive(Clone, Debug, PartialEq, Eq)]
pub struct TtsProviderError {
    pub kind: TtsProviderErrorKind,
    pub code: String,
    pub message: String,
}

pub open spec fn tts_kind_retryable(kind: TtsProviderErrorKind) -> bool {
    match kind {
        TtsProviderErrorKind::Provider => true,
        TtsProviderErrorKind::Timeout => true,
        TtsProviderErrorKind::RateLimit { .. } => true,
        TtsProviderErrorKind::ContentFiltered { .. } => false,
    }
}

impl TtsProviderError {
    pub fn provider(code: &str, message: &str) -> (r: TtsProviderError)
        ensures
            r.kind == TtsProviderErrorKind::Provider,
            r.code@ == code@,
            r.message@ == message@,
    {
        TtsProviderError {
            kind: TtsProviderErrorKind::Provider,
            code: String::from_str(code),
            message: String::from_str(message),
        }
    }

    pub fn timeout(message: &str) -> (r: TtsProviderError)
        ensures
            r.kind == TtsProviderErrorKind::Timeout,
            r.code@ == "tts_provider_timeout"@,
            r.message@ == message@,
    {
        TtsProviderError {
            kind: TtsProviderErrorKind::Timeout,
            code: String::from_str("tts_provider_timeout"),
            message: String::from_str(message),
        }
    }

    pub fn rate_limit(retry_after_ms: Option<u64>, message: &str) -> (r: TtsProviderError)
        ensures
            r.kind == (TtsProviderErrorKind::RateLimit { retry_after_ms }),
            r.code@ == "tts_provider_rate_limit"@,
            r.message@ == message@,
    {
        TtsProviderError {
            kind: TtsProviderErrorKind::RateLimit { retry_after_ms },
            code: String::from_str("tts_provider_rate_limit"),
            message: String::from_str(message),
        }
    }

    pub fn content_filtered(reason: &str) -> (r: TtsProviderError)
        ensures
            r.kind matches TtsProviderErrorKind::ContentFiltered { reason: x } && x@ == reason@,
            r.code@ == "tts_provider_content_filtered"@,
            r.message@ == "content policy triggered; modify prompt"@,
    {
        TtsProviderError {
            kind: TtsProviderErrorKind::ContentFiltered { reason: String::from_str(reason) },
            code: String::from_str("tts_provider_content_filtered"),
            message: String::from_str("content policy triggered; modify prompt"),
        }
    }

    /// Whether a retry may succeed.
    pub fn retryable(&self) -> (r: bool)
        ensures
            r == tts_kind_retryable(self.kind),
    {
        match self.kind {
            TtsProviderErrorKind::Provider => true,
            TtsProviderErrorKind::Timeout => true,
            TtsProviderErrorKind::RateLimit { .. } => true,
            TtsProviderErrorKind::ContentFiltered { .. } => false,
        }
    }

    /// `{code}: {message}`.
    pub fn to_text(&self) -> (r: String)
        ensures
            r@ == self.code@ + ": "@ + self.message@,
    {
        let mut r = self.code.clone();
        r.append(": ");
        r.append(self.message.as_str());
        r
    }
}

/// A speech synthesizer.
pub trait TtsProvider {
    fn synthesize(&mut self, request: &TtsRequest) -> Result<TtsProviderOutput, TtsProviderError>;
}

/// Synthesizes narration and voices through a provider.
#[derive(Clone, Debug)]
pub struct TtsPipeline<P> {
    pub provider: P,
}

impl<P> TtsPipeline<P> {
    pub fn new(provider: P) -> (r: Self)
        ensures
            r.provider == provider,
    {
        TtsPipeline { provider }
    }
}

/// The progress line reported while a target's audio is generated.
pub open spec fn tts_progress_text(t: TtsTarget) -> Seq<char> {
    match t {
        TtsTarget::Scene { scene_key } => "generating scene narration audio for "@ + scene_key@,
        TtsTarget::Beat { scene_key, beat_id } => "generating beat narration audio for "@
            + scene_key@ + "/"@ + beat_id@,
        TtsTarget::Character { character_id } => "generating character voice audio for "@
            + character_id@,
    }
}

pub fn tts_progress_message(request: &TtsRequest) -> (r: String)
    ensures
        r@ == tts_progress_text(request.target),
{
    match &request.target {
        TtsTarget::Scene { scene_key } => {
            let mut r = String::from_str("generating scene narration audio for ");
            r.append(scene_key.as_str());
            r
        },
        TtsTarget::Beat { scene_key, beat_id } => {
            let mut r = String::from_str("generating beat narration audio for ");
            r.append(scene_key.as_str());
            r.append("/");
            r.append(beat_id.as_str());
            r
        },
        TtsTarget::Character { character_id } => {
            let mut r = String::from_str("generating character voice audio for ");
            r.append(character_id.as_str());
            r
        },
    }
}

/// The part of a fake request id that names the target.
pub open spec fn tts_suffix_text(t: TtsTarget) -> Seq<char> {
    match t {
        TtsTarget::Scene { scene_key } => "scene-"@ + scene_key@,
        TtsTarget::Beat { scene_key, beat_id } => "beat-"@ + scene_key@ + "-"@ + beat_id@,
        TtsTarget::Character { character_id } => "character-"@ + character_id@,
    }
}

pub fn tts_request_id_suffix(request: &TtsRequest) -> (r: String)
    ensures
        r@ == tts_suffix_text(request.target),
{
    match &request.target {
        TtsTarget::Scene { scene_key } => {
            let mut r = String::from_str("scene-");
            r.append(scene_key.as_str());
            r
        },
        TtsTarget::Beat { scene_key, beat_id } => {
            let mut r = String::from_str("beat-");
            r.append(scene_key.as_str());
            r.append("-");
            r.append(beat_id.as_str());
            r
        },
        TtsTarget::Character { character_id } => {
            let mut r = String::from_str("character-");
            r.append(character_id.as_str());
            r
        },
    }
}

/// `{:?}` of a target.
pub open spec fn target_debug(t: TtsTarget) -> Seq<char> {
    match t {
        TtsTarget::Scene { scene_key } => "Scene { scene_key: "@ + str_debug(scene_key@) + " }"@,
        TtsTarget::Beat { scene_key, beat_id } => "Beat { scene_key: "@ + str_debug(scene_key@)
            + ", beat_id: "@ + str_debug(beat_id@) + " }"@,
        TtsTarget::Character { character_id } => "Character { character_id: "@ + str_debug(
            character_id@,
        ) + " }"@,
    }
}

pub fn target_debug_text(t: &TtsTarget) -> (r: String)
    ensures
        r@ == target_debug(*t),
{
    match t {
        TtsTarget::Scene { scene_key } => {
            let mut r = String::from_str("Scene { scene_key: ");
            r.append(debug_quoted(scene_key.as_str()).as_str());
            r.append(" }");
            r
        },
        TtsTarget::Beat { scene_key, beat_id } => {
            let mut r = String::from_str("Beat { scene_key: ");
            r.append(debug_quoted(scene_key.as_str()).as_str());
            r.append(", beat_id: ");
            r.append(debug_quoted(beat_id.as_str()).as_str());
            r.append(" }");
            r
        },
        TtsTarget::Character { character_id } => {
            let mut r = String::from_str("Character { character_id: ");
            r.append(debug_quoted(character_id.as_str()).as_str());
            r.append(" }");
            r
        },
    }
}

/// The text of fake audio: a header naming the target, voice and text.
pub open spec fn fake_tts_text(request: TtsRequest) -> Seq<char> {
    "plotforge-fake-wav\ntarget="@ + target_debug(request.target) + "\nvoice="@ + request.voice@
        + "\ntext="@ + request.text@ + "\n"@
}

/// The bytes of the fake provider's audio for `request` (`fake_tts_text`).
pub fn fake_tts_bytes(request: &TtsRequest) -> (r: Vec<u8>)
    ensures
        r@ == encode_utf8(fake_tts_text(*request)),
{
    let mut text = String::from_str("plotforge-fake-wav\ntarget=");
    text.append(target_debug_text(&request.target).as_str());
    text.append("\nvoice=");
    text.append(request.voice.as_str());
    text.append("\ntext=");
    text.append(request.text.as_str());
    text.append("\n");
    utf8_bytes(text.as_str())
}

/// The text of silent fallback audio: a header naming the target and the
/// prompt hash.
pub open spec fn silent_audio_text(request: TtsRequest, prompt_hash: Seq<char>) -> Seq<char> {
    "plotforge-silent-wav\ntarget="@ + target_debug(request.target) + "\nprompt_hash="@ + prompt_hash
        + "\n"@
}

pub fn silent_audio_bytes(request: &TtsRequest, prompt_hash: &str) -> (r: Vec<u8>)
    ensures
        r@ == encode_utf8(silent_audio_text(*request, prompt_hash@)),
{
    let mut text = String::from_str("plotforge-silent-wav\ntarget=");
    text.append(target_debug_text(&request.target).as_str());
    text.append("\nprompt_hash=");
    text.append(prompt_hash);
    text.append("\n");
    utf8_bytes(text.as_str())
}

/// How the fake TTS provider fails, when it does.
#[derive(Clone, Copy, Debug, PartialEq, Eq, Structural)]
pub enum FakeTtsFailureKind {
    ProviderError,
    Timeout,
}

/// A deterministic speech provider that counts the calls made on it. It is
/// not `Clone`, so every call is made on the one value whose counter
/// reports it.
#[derive(Debug)]
pub struct FakeTtsProvider {
    pub failure: Option<FakeTtsFailureKind>,
    pub calls: u32,
}

impl FakeTtsProvider {
    pub fn success() -> (r: FakeTtsProvider)
        ensures
            r.failure is None,
            r.calls == 0,
    {
        FakeTtsProvider { failure: None, calls: 0 }
    }

    pub fn provider_error() -> (r: FakeTtsProvider)
        ensures
            r.failure == Some(FakeTtsFailureKind::ProviderError),
            r.calls == 0,
    {
        FakeTtsProvider::with_failure(FakeTtsFailureKind::ProviderError)
    }

    pub fn timeout() -> (r: FakeTtsProvider)
        ensures
            r.failure == Some(FakeTtsFailureKind::Timeout),
            r.calls == 0,
    {
        FakeTtsProvider::with_failure(FakeTtsFailureKind::Timeout)
    }

    fn with_failure(kind: FakeTtsFailureKind) -> (r: FakeTtsProvider)
        ensures
            r.failure == Some(kind),
            r.calls == 0,
    {
        FakeTtsProvider { failure: Some(kind), calls: 0 }
    }

    pub fn call_count(&self) -> (r: u32)
        ensures
            r == self.calls,
    {
        self.calls
    }
}

impl TtsProvider for FakeTtsProvider {
    /// Counts the call (saturating), then fails as configured or answers
    /// fake audio naming the target, voice and text.
    fn synthesize(&mut self, request: &TtsRequest) -> (r: Result<TtsProviderOutput, TtsProviderError>)
        ensures
            counted_call(old(self).calls, final(self).calls),
            final(self).failure == old(self).failure,
            match old(self).failure {
                Some(FakeTtsFailureKind::ProviderError) => r matches Err(e) && e.kind
                    == TtsProviderErrorKind::Provider && e.code@ == "tts_provider_error"@,
                Some(FakeTtsFailureKind::Timeout) => r matches Err(e) && e.kind
                    == TtsProviderErrorKind::Timeout,
                None => r matches Ok(out) && out.bytes@ == encode_utf8(fake_tts_text(*request))
                    && out.provider@ == "fake-tts"@ && (out.model matches Some(m) && m@
                    == "fake-tts-v1"@) && (out.request_id matches Some(id) && id@ == "fake-tts-"@
                    + tts_suffix_text(request.target)) && out.spent_cost_units == 1,
            },
    {
        if self.calls < u32::MAX {
            self.calls = self.calls + 1;
        }
        match self.failure {
            Some(FakeTtsFailureKind::ProviderError) => Err(
                TtsProviderError::provider(
                    "tts_provider_error",
                    "fake tts provider failed OPENAI_API_KEY=sk-tts-secret",
                ),
            ),
            Some(FakeTtsFailureKind::Timeout) => Err(
                TtsProviderError::timeout("fake tts provider timeout token=tts-secret"),
            ),
            None => {
                let mut id = String::from_str("fake-tts-");
                id.append(tts_request_id_suffix(request).as_str());
                Ok(
                    TtsProviderOutput::audio(
                        fake_tts_bytes(request),
                        "fake-tts",
                        Some(String::from_str("fake-tts-v1")),
                        Some(id),
                        1,
                    ),
                )
            },
        }
    }
}

/// `{endpoint}/audio/speech`, without doubled slashes.
pub fn speech_url(endpoint_url: &str) -> (r: String)
    ensures
        r@ == joined_endpoint(endpoint_url@, "audio/speech"@),
{
    join_endpoint(endpoint_url, "audio/speech")
}

/// The voice a request is spoken in: its own, or the client's default when
/// it names none.
pub fn tts_voice<'a>(request_voice: &'a str, default_voice: &'a str) -> (r: &'a str)
    ensures
        r@ == (if request_voice@.len() == 0 {
            default_voice@
        } else {
            request_voice@
        }),
{
    if request_voice.unicode_len() == 0 {
        default_voice
    } else {
        request_voice
    }
}

/// The error for a credential that could not be resolved.
pub fn tts_missing_credential(env_var: &str) -> (r: TtsProviderError)
    ensures
        r.kind == TtsProviderErrorKind::Provider,
        r.code@ == "tts_provider_missing_credential"@,
        r.message@ == "tts provider credential env var `"@ + env_var@
            + "` is missing or empty; set it before synthesizing audio"@,
{
    let mut m = String::from_str("tts provider credential env var `");
    m.append(env_var);
    m.append("` is missing or empty; set it before synthesizing audio");
    TtsProviderError::provider("tts_provider_missing_credential", m.as_str())
}

/// The error for a non-success HTTP status (`status_text` is how the status
/// prints, such as `429 Too Many Requests`).
pub fn tts_status_error(status: u16, status_text: &str, retry_after_ms: Option<u64>) -> (r: TtsProviderError)
    ensures
        r.message@ == "tts provider returned HTTP "@ + status_text@,
        status == 429 ==> r.kind == (TtsProviderErrorKind::RateLimit { retry_after_ms }) && r.code@
            == "tts_provider_rate_limit"@,
        status != 429 ==> r.kind == TtsProviderErrorKind::Provider && r.code@
            == "tts_provider_http_status"@,
{
    let mut m = String::from_str("tts provider returned HTTP ");
    m.append(status_text);
    if status == 429 {
        TtsProviderError::rate_limit(retry_after_ms, m.as_str())
    } else {
        TtsProviderError::provider("tts_provider_http_status", m.as_str())
    }
}

/// The output of a successful speech call: an empty body is an error, never
/// a zero-byte asset.
pub fn tts_audio_output(bytes: Vec<u8>, model: &str) -> (r: Result<TtsProviderOutput, TtsProviderError>)
    ensures
        bytes@.len() == 0 ==> (r matches Err(e) && e.kind == TtsProviderErrorKind::Provider && e.code@
            == "tts_provider_empty_body"@ && e.message@ == "tts provider returned an empty audio body"@),
        bytes@.len() > 0 ==> (r matches Ok(out) && out.bytes == bytes && out.provider@
            == "openai_tts"@ && (out.model matches Some(m) && m@ == model@) && out.request_id is None
            && out.spent_cost_units == 1),
{
    if bytes.len() == 0 {
        return Err(
            TtsProviderError::provider(
                "tts_provider_empty_body",
                "tts provider returned an empty audio body",
            ),
        );
    }
    Ok(TtsProviderOutput::audio(bytes, "openai_tts", Some(String::from_str(model)), None, 1))
}

/// The speech request body: model, input text, voice and response format.
pub fn tts_request_body(model: &str, input: &str, voice: &str, format: &str) -> (r: JsonValue)
    ensures
        r matches JsonValue::Object(es) && es@.len() == 4 && es@[0].0@ == "model"@ && es@[0].1
            == JsonValue::Str(es@[0].1->Str_0) && es@[0].1->Str_0@ == model@ && es@[1].0@ == "input"@
            && es@[1].1 == JsonValue::Str(es@[1].1->Str_0) && es@[1].1->Str_0@ == input@
            && es@[2].0@ == "voice"@ && es@[2].1 == JsonValue::Str(es@[2].1->Str_0)
            && es@[2].1->Str_0@ == voice@ && es@[3].0@ == "response_format"@ && es@[3].1
            == JsonValue::Str(es@[3].1->Str_0) && es@[3].1->Str_0@ == format@,
{
    let mut es: Vec<(String, JsonValue)> = Vec::new();
    es.push((String::from_str("model"), JsonValue::Str(String::from_str(model))));
    es.push((String::from_str("input"), JsonValue::Str(String::from_str(input))));
    es.push((String::from_str("voice"), JsonValue::Str(String::from_str(voice))));
    es.push((String::from_str("response_format"), JsonValue::Str(String::from_str(format))));
    JsonValue::Object(es)
}

} // verus!
