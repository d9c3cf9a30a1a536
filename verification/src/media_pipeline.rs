//! The decisions of the scene-image and speech pipelines: the job each
//! generation runs as, the assets they reference, the cached record that
//! makes a generation unnecessary, and the asset recorded after the
//! provider answered or failed (a placeholder, visibly marked, on failure).

use vstd::prelude::*;
use vstd::utf8::encode_utf8;
use crate::providers_image::{
    image_kind_retryable, placeholder_image_bytes, ImageGenerationResponse,
    ImageProviderError, ImageProviderErrorKind, SceneImageRequest,
};
use crate::providers_tts::{
    silent_audio_bytes, silent_audio_text, target_debug, target_debug_text, tts_kind_retryable,
    TtsProviderError, TtsProviderErrorKind, TtsProviderOutput, TtsRequest, TtsTarget,
};
use crate::schema::{AssetKind, RuntimeError, Scene};
use crate::shared::{hex_lower, sha256_utf8, stable_prompt_hash};
use crate::text::str_eq;

verus! {

pub const IMAGE_JOB_TIMEOUT_MS: u64 = 60_000;

pub const IMAGE_JOB_MAX_ATTEMPTS: u32 = 2;

pub const IMAGE_JOB_ESTIMATED_COST_UNITS: u64 = 1;

pub const TTS_JOB_TIMEOUT_MS: u64 = 30_000;

pub const TTS_JOB_MAX_ATTEMPTS: u32 = 2;

pub const TTS_JOB_ESTIMATED_COST_UNITS: u64 = 1;

/// The slot of a scene's background image.
pub open spec fn scene_background_slot() -> Seq<char> {
    "background_asset"@
}

/// The kind of a background job.
#[derive(Clone, Copy, Debug, PartialEq, Eq, Structural)]
pub enum JobKind {
    ImageGeneration,
    TtsGeneration,
}

/// A background job to enqueue: its kind, time limit, attempts and cost.
#[derive(Clone, Copy, Debug, PartialEq, Eq, Structural)]
pub struct JobRequest {
    pub kind: JobKind,
    pub timeout_ms: u64,
    pub max_attempts: u32,
    pub estimated_cost_units: u64,
}

/// The job of a scene-image generation.
pub fn image_job_request() -> (r: JobRequest)
    ensures
        r == (JobRequest {
            kind: JobKind::ImageGeneration,
            timeout_ms: IMAGE_JOB_TIMEOUT_MS,
            max_attempts: IMAGE_JOB_MAX_ATTEMPTS,
            estimated_cost_units: IMAGE_JOB_ESTIMATED_COST_UNITS,
        }),
{
    JobRequest {
        kind: JobKind::ImageGeneration,
        timeout_ms: IMAGE_JOB_TIMEOUT_MS,
        max_attempts: IMAGE_JOB_MAX_ATTEMPTS,
        estimated_cost_units: IMAGE_JOB_ESTIMATED_COST_UNITS,
    }
}

/// The job of a speech synthesis.
pub fn tts_job_request() -> (r: JobRequest)
    ensures
        r == (JobRequest {
            kind: JobKind::TtsGeneration,
            timeout_ms: TTS_JOB_TIMEOUT_MS,
            max_attempts: TTS_JOB_MAX_ATTEMPTS,
            estimated_cost_units: TTS_JOB_ESTIMATED_COST_UNITS,
        }),
{
    JobRequest {
        kind: JobKind::TtsGeneration,
        timeout_ms: TTS_JOB_TIMEOUT_MS,
        max_attempts: TTS_JOB_MAX_ATTEMPTS,
        estimated_cost_units: TTS_JOB_ESTIMATED_COST_UNITS,
    }
}

/// What an asset reference points at.
#[derive(Clone, Copy, Debug, PartialEq, Eq, Structural)]
pub enum AssetReferenceKind {
    Scene,
    Character,
}

/// A use of an asset by a scene or character, in a named slot.
#[derive(Clone, Debug, PartialEq, Eq)]
pub struct AssetReference {
    pub reference_kind: AssetReferenceKind,
    pub reference_id: String,
    pub slot: String,
}

/// Where an asset came from.
#[derive(Clone, Copy, Debug, PartialEq, Eq, Structural)]
pub enum AssetSourceKind {
    Generated,
    Placeholder,
}

/// Which provider made an asset, from which prompt, and whether it is a
/// fallback.
#[derive(Clone, Debug, PartialEq, Eq)]
pub struct AssetProviderMetadata {
    pub provider: String,
    pub model: Option<String>,
    pub request_id: Option<String>,
    pub prompt_hash: Option<String>,
    pub fallback_used: bool,
}

/// A registered asset.
#[derive(Clone, Debug, PartialEq, Eq)]
pub struct AssetRecord {
    pub id: String,
    pub kind: AssetKind,
    pub source: AssetSourceKind,
    pub project_path: String,
    pub export_path: String,
    pub provider_metadata: Option<AssetProviderMetadata>,
    pub references: Vec<AssetReference>,
}

/// An asset to register.
#[derive(Clone, Debug, PartialEq, Eq)]
pub struct AssetRecordInput {
    pub kind: AssetKind,
    pub source: AssetSourceKind,
    pub project_path: String,
    pub export_path: Option<String>,
    pub provider_metadata: Option<AssetProviderMetadata>,
    pub references: Vec<AssetReference>,
}

/// How a story element refers to a registered media asset.
#[derive(Clone, Debug, PartialEq, Eq)]
pub struct MediaAssetReference {
    pub asset_id: Option<String>,
    pub kind: AssetKind,
    pub source: AssetSourceKind,
    pub project_path: String,
    pub export_path: String,
    pub slot: String,
}

/// The code and message of the runtime error an image failure becomes.
pub open spec fn image_runtime_error(e: ImageProviderError) -> (Seq<char>, Seq<char>) {
    match e.kind {
        ImageProviderErrorKind::Timeout => (
            "image_provider_timeout"@,
            "image provider timed out: "@ + e.message@,
        ),
        _ => (e.code@, e.message@),
    }
}

impl ImageProviderError {
    /// The runtime error this failure is reported as (`image_runtime_error`).
    pub fn into_runtime_error(self) -> (r: RuntimeError)
        ensures
            (r.code@, r.message@) == image_runtime_error(self),
    {
        match self.kind {
            ImageProviderErrorKind::Timeout => {
                let mut message = String::from_str("image provider timed out: ");
                message.append(self.message.as_str());
                RuntimeError { code: String::from_str("image_provider_timeout"), message }
            },
            _ => RuntimeError { code: self.code, message: self.message },
        }
    }
}

/// The code and message of the runtime error a speech failure becomes.
pub open spec fn tts_runtime_error(e: TtsProviderError) -> (Seq<char>, Seq<char>) {
    match e.kind {
        TtsProviderErrorKind::Timeout => (
            "tts_provider_timeout"@,
            "tts provider timed out: "@ + e.message@,
        ),
        _ => (e.code@, e.message@),
    }
}

impl TtsProviderError {
    /// The runtime error this failure is reported as (`tts_runtime_error`).
    pub fn into_runtime_error(self) -> (r: RuntimeError)
        ensures
            (r.code@, r.message@) == tts_runtime_error(self),
    {
        match self.kind {
            TtsProviderErrorKind::Timeout => {
                let mut message = String::from_str("tts provider timed out: ");
                message.append(self.message.as_str());
                RuntimeError { code: String::from_str("tts_provider_timeout"), message }
            },
            _ => RuntimeError { code: self.code, message: self.message },
        }
    }
}

/// The prompt of a scene's background image.
pub open spec fn scene_image_prompt_text(scene: Scene) -> Seq<char> {
    "scene_key="@ + scene.key@ + "; title="@ + scene.title@ + "; location="@ + scene.location@
        + "; hook="@ + scene.hook@ + "; dramatic_purpose="@ + scene.dramatic_purpose@
}

pub fn scene_image_prompt(scene: &Scene) -> (r: String)
    ensures
        r@ == scene_image_prompt_text(*scene),
{
    let mut r = String::from_str("scene_key=");
    r.append(scene.key.as_str());
    r.append("; title=");
    r.append(scene.title.as_str());
    r.append("; location=");
    r.append(scene.location.as_str());
    r.append("; hook=");
    r.append(scene.hook.as_str());
    r.append("; dramatic_purpose=");
    r.append(scene.dramatic_purpose.as_str());
    r
}

impl SceneImageRequest {
    /// The background of `scene`, written to `assets/generated/{key}.png`.
    pub fn background(scene: &Scene) -> (r: SceneImageRequest)
        ensures
            r.scene_key@ == scene.key@,
            r.prompt@ == scene_image_prompt_text(*scene),
            r.output_path@ == "assets/generated/"@ + scene.key@ + ".png"@,
    {
        let mut output_path = String::from_str("assets/generated/");
        output_path.append(scene.key.as_str());
        output_path.append(".png");
        SceneImageRequest {
            scene_key: scene.key.clone(),
            prompt: scene_image_prompt(scene),
            output_path,
        }
    }
}

/// `r` is the reference of kind `kind` to `id` in slot `slot`.
pub open spec fn reference_is(r: AssetReference, kind: AssetReferenceKind, id: Seq<char>, slot: Seq<char>) -> bool {
    r.reference_kind == kind && r.reference_id@ == id && r.slot@ == slot
}

/// The background slot of a scene.
pub fn scene_background_reference(scene_key: &str) -> (r: AssetReference)
    ensures
        reference_is(r, AssetReferenceKind::Scene, scene_key@, scene_background_slot()),
{
    AssetReference {
        reference_kind: AssetReferenceKind::Scene,
        reference_id: String::from_str(scene_key),
        slot: String::from_str("background_asset"),
    }
}

/// `m` records a provider answer (not a fallback) to the prompt hashed
/// `prompt_hash`.
pub open spec fn answers_prompt(m: Option<AssetProviderMetadata>, prompt_hash: Seq<char>) -> bool {
    m matches Some(meta) && !meta.fallback_used && (meta.prompt_hash matches Some(h) && h@
        == prompt_hash)
}

/// `r` is a generated scene background made from the prompt hashed
/// `prompt_hash`.
pub open spec fn cached_background(r: AssetRecord, prompt_hash: Seq<char>) -> bool {
    &&& r.kind == AssetKind::Image
    &&& r.source == AssetSourceKind::Generated
    &&& exists|k: int|
        0 <= k < r.references@.len() && (#[trigger] r.references@[k]).slot@ == scene_background_slot()
    &&& answers_prompt(r.provider_metadata, prompt_hash)
}

/// `i` is the first position in `records` whose record satisfies `p`, or
/// `None` when none does.
pub open spec fn first_match(records: Seq<AssetRecord>, p: spec_fn(AssetRecord) -> bool, i: Option<usize>) -> bool {
    match i {
        Some(i) => i < records.len() && p(records[i as int]) && forall|j: int|
            0 <= j < i ==> !p(#[trigger] records[j]),
        None => forall|j: int| 0 <= j < records.len() ==> !p(#[trigger] records[j]),
    }
}

fn opt_str_eq(a: &Option<String>, b: &str) -> (r: bool)
    ensures
        r == (a matches Some(x) && x@ == b@),
{
    match a {
        Some(x) => str_eq(x.as_str(), b),
        None => false,
    }
}

fn metadata_answers(m: &Option<AssetProviderMetadata>, prompt_hash: &str) -> (r: bool)
    ensures
        r == answers_prompt(*m, prompt_hash@),
{
    match m {
        Some(meta) => !meta.fallback_used && opt_str_eq(&meta.prompt_hash, prompt_hash),
        None => false,
    }
}

fn has_background_slot(references: &Vec<AssetReference>) -> (r: bool)
    ensures
        r == exists|k: int|
            0 <= k < references@.len() && (#[trigger] references@[k]).slot@ == scene_background_slot(),
{
    let mut k: usize = 0;
    while k < references.len()
        invariant
            k <= references@.len(),
            forall|j: int| 0 <= j < k ==> (#[trigger] references@[j]).slot@ != scene_background_slot(),
        decreases references@.len() - k,
    {
        if str_eq(references[k].slot.as_str(), "background_asset") {
            return true;
        }
        k = k + 1;
    }
    false
}

/// The position, among the records that reference a scene, of the first
/// generated background made from the prompt hashed `prompt_hash`: a cached
/// answer that makes a new generation unnecessary.
pub fn cached_scene_background(records: &Vec<AssetRecord>, prompt_hash: &str) -> (r: Option<usize>)
    ensures
        first_match(records@, |x: AssetRecord| cached_background(x, prompt_hash@), r),
{
    let mut i: usize = 0;
    while i < records.len()
        invariant
            i <= records@.len(),
            forall|j: int| 0 <= j < i ==> !cached_background(#[trigger] records@[j], prompt_hash@),
        decreases records@.len() - i,
    {
        let record = &records[i];
        if record.kind == AssetKind::Image && record.source == AssetSourceKind::Generated
            && has_background_slot(&record.references) && metadata_answers(
            &record.provider_metadata,
            prompt_hash,
        ) {
            return Some(i);
        }
        i = i + 1;
    }
    None
}

/// `a` and `b` are the same reference.
pub open spec fn same_reference(a: AssetReference, b: AssetReference) -> bool {
    a.reference_kind == b.reference_kind && a.reference_id@ == b.reference_id@ && a.slot@ == b.slot@
}

fn references_equal(a: &AssetReference, b: &AssetReference) -> (r: bool)
    ensures
        r == same_reference(*a, *b),
{
    a.reference_kind == b.reference_kind && str_eq(a.reference_id.as_str(), b.reference_id.as_str())
        && str_eq(a.slot.as_str(), b.slot.as_str())
}

/// `r` is a generated asset of kind `kind` that uses `reference` and was
/// made from the prompt hashed `prompt_hash`.
pub open spec fn cached_speech(
    r: AssetRecord,
    kind: AssetKind,
    reference: AssetReference,
    prompt_hash: Seq<char>,
) -> bool {
    &&& r.kind == kind
    &&& r.source == AssetSourceKind::Generated
    &&& exists|k: int|
        0 <= k < r.references@.len() && same_reference(#[trigger] r.references@[k], reference)
    &&& answers_prompt(r.provider_metadata, prompt_hash)
}

fn has_reference(references: &Vec<AssetReference>, reference: &AssetReference) -> (r: bool)
    ensures
        r == exists|k: int|
            0 <= k < references@.len() && same_reference(#[trigger] references@[k], *reference),
{
    let mut k: usize = 0;
    while k < references.len()
        invariant
            k <= references@.len(),
            forall|j: int| 0 <= j < k ==> !same_reference(#[trigger] references@[j], *reference),
        decreases references@.len() - k,
    {
        if references_equal(&references[k], reference) {
            return true;
        }
        k = k + 1;
    }
    false
}

/// The position, among the records that reference a speech target, of the
/// first generated asset of `kind` that uses `reference` and was made from
/// the prompt hashed `prompt_hash`.
pub fn cached_tts_asset(
    records: &Vec<AssetRecord>,
    kind: AssetKind,
    reference: &AssetReference,
    prompt_hash: &str,
) -> (r: Option<usize>)
    ensures
        first_match(records@, |x: AssetRecord| cached_speech(x, kind, *reference, prompt_hash@), r),
{
    let mut i: usize = 0;
    while i < records.len()
        invariant
            i <= records@.len(),
            forall|j: int|
                0 <= j < i ==> !cached_speech(#[trigger] records@[j], kind, *reference, prompt_hash@),
        decreases records@.len() - i,
    {
        let record = &records[i];
        if record.kind == kind && record.source == AssetSourceKind::Generated && has_reference(
            &record.references,
            reference,
        ) && metadata_answers(&record.provider_metadata, prompt_hash) {
            return Some(i);
        }
        i = i + 1;
    }
    None
}

/// The text whose hash identifies a speech request.
pub open spec fn tts_prompt_text(request: TtsRequest) -> Seq<char> {
    "target="@ + target_debug(request.target) + "; voice="@ + request.voice@ + "; text="@
        + request.text@
}

/// The slot a speech target's audio fills.
pub open spec fn tts_reference_of(t: TtsTarget) -> (AssetReferenceKind, Seq<char>, Seq<char>) {
    match t {
        TtsTarget::Scene { scene_key } => (AssetReferenceKind::Scene, scene_key@, "scene_audio"@),
        TtsTarget::Beat { scene_key, beat_id } => (
            AssetReferenceKind::Scene,
            scene_key@,
            "beat_audio:"@ + beat_id@ + ":narration"@,
        ),
        TtsTarget::Character { character_id } => (
            AssetReferenceKind::Character,
            character_id@,
            "voice"@,
        ),
    }
}

/// The slot name a media reference to a target's audio carries.
pub open spec fn tts_media_slot(t: TtsTarget) -> Seq<char> {
    match t {
        TtsTarget::Scene { .. } => "scene_audio"@,
        TtsTarget::Beat { .. } => "narration"@,
        TtsTarget::Character { .. } => "voice"@,
    }
}

impl TtsRequest {
    /// The hash of the request's target, voice and text.
    pub fn prompt_hash(&self) -> (r: String)
        ensures
            r@ == hex_lower(sha256_utf8(tts_prompt_text(*self))),
    {
        let mut text = String::from_str("target=");
        text.append(target_debug_text(&self.target).as_str());
        text.append("; voice=");
        text.append(self.voice.as_str());
        text.append("; text=");
        text.append(self.text.as_str());
        stable_prompt_hash(text.as_str())
    }

    /// The reference the request's audio is registered under.
    pub fn reference(&self) -> (r: AssetReference)
        ensures
            (r.reference_kind, r.reference_id@, r.slot@) == tts_reference_of(self.target),
    {
        match &self.target {
            TtsTarget::Scene { scene_key } => AssetReference {
                reference_kind: AssetReferenceKind::Scene,
                reference_id: scene_key.clone(),
                slot: String::from_str("scene_audio"),
            },
            TtsTarget::Beat { scene_key, beat_id } => {
                let mut slot = String::from_str("beat_audio:");
                slot.append(beat_id.as_str());
                slot.append(":narration");
                AssetReference {
                    reference_kind: AssetReferenceKind::Scene,
                    reference_id: scene_key.clone(),
                    slot,
                }
            },
            TtsTarget::Character { character_id } => AssetReference {
                reference_kind: AssetReferenceKind::Character,
                reference_id: character_id.clone(),
                slot: String::from_str("voice"),
            },
        }
    }

    /// How the target refers to the registered `record`.
    pub fn media_reference(&self, record: &AssetRecord) -> (r: MediaAssetReference)
        ensures
            r.asset_id == Some(record.id),
            r.kind == record.kind,
            r.source == record.source,
            r.project_path == record.project_path,
            r.export_path == record.export_path,
            r.slot@ == tts_media_slot(self.target),
    {
        let slot = match &self.target {
            TtsTarget::Scene { .. } => String::from_str("scene_audio"),
            TtsTarget::Beat { .. } => String::from_str("narration"),
            TtsTarget::Character { .. } => String::from_str("voice"),
        };
        MediaAssetReference {
            asset_id: Some(record.id.clone()),
            kind: record.kind,
            source: record.source,
            project_path: record.project_path.clone(),
            export_path: record.export_path.clone(),
            slot,
        }
    }
}

/// What a pipeline registers after its provider answered or failed: the
/// asset and its bytes, the cost spent (on an answer), whether it fell
/// back, and the error and its retryability (on a failure).
#[derive(Clone, Debug, PartialEq, Eq)]
pub struct MediaOutcome {
    pub input: AssetRecordInput,
    pub bytes: Vec<u8>,
    pub spent_cost_units: Option<u64>,
    pub fallback_used: bool,
    pub error: Option<RuntimeError>,
    pub retryable: bool,
}

/// `m` is `(provider, model, request id, prompt hash, fallback)`.
pub open spec fn metadata_is(
    m: Option<AssetProviderMetadata>,
    provider: Seq<char>,
    model: Option<String>,
    request_id: Option<String>,
    prompt_hash: Seq<char>,
    fallback_used: bool,
) -> bool {
    m matches Some(meta) && meta.provider@ == provider && meta.model == model && meta.request_id
        == request_id && (meta.prompt_hash matches Some(h) && h@ == prompt_hash)
        && meta.fallback_used == fallback_used
}

/// `input` registers an asset of `kind` from `source` at `path` (exported at
/// the same path), used by `reference` only.
pub open spec fn input_at(
    input: AssetRecordInput,
    kind: AssetKind,
    source: AssetSourceKind,
    path: Seq<char>,
    reference: AssetReference,
) -> bool {
    &&& input.kind == kind
    &&& input.source == source
    &&& input.project_path@ == path
    &&& input.export_path matches Some(p) && p@ == path
    &&& input.references@.len() == 1
    &&& input.references@[0] == reference
}

/// `r` is what a scene-image generation registers after the provider's
/// `result` (see `image_generation_outcome`).
pub open spec fn image_outcome_is(
    request: SceneImageRequest,
    prompt_hash: Seq<char>,
    result: Result<ImageGenerationResponse, ImageProviderError>,
    r: MediaOutcome,
) -> bool {
    exists|reference: AssetReference|
        reference_is(reference, AssetReferenceKind::Scene, request.scene_key@, scene_background_slot())
        && match result {
            Ok(response) => {
                &&& input_at(r.input, AssetKind::Image, AssetSourceKind::Generated, request.output_path@, reference)
                &&& metadata_is(r.input.provider_metadata, response.provider@, response.model, response.request_id, prompt_hash, false)
                &&& r.bytes == response.bytes
                &&& r.spent_cost_units == Some(response.spent_cost_units)
                &&& !r.fallback_used
                &&& r.error is None
            },
            Err(error) => {
                &&& input_at(r.input, AssetKind::Image, AssetSourceKind::Placeholder, request.output_path@, reference)
                &&& r.input.provider_metadata matches Some(meta) && meta.provider@ == "plotforge-placeholder"@
                    && (meta.model matches Some(m) && m@ == "placeholder-image-v1"@) && meta.request_id is None
                    && (meta.prompt_hash matches Some(h) && h@ == prompt_hash) && meta.fallback_used
                &&& r.bytes@ == encode_utf8("plotforge-placeholder-png\nscene="@ + request.scene_key@ + "\nprompt_hash="@ + prompt_hash + "\n"@)
                &&& r.spent_cost_units is None
                &&& r.fallback_used
                &&& r.error matches Some(e) && (e.code@, e.message@) == image_runtime_error(error)
                &&& r.retryable == image_kind_retryable(error.kind)
            },
        }
}

/// The asset a scene-image generation registers after the provider's
/// `result`: the generated image on an answer; on a failure, a placeholder
/// image marked as a fallback, with the failure's runtime error.
pub fn image_generation_outcome(
    request: &SceneImageRequest,
    prompt_hash: &str,
    result: Result<ImageGenerationResponse, ImageProviderError>,
) -> (r: MediaOutcome)
    ensures
        image_outcome_is(*request, prompt_hash@, result, r),
{
    let reference = scene_background_reference(request.scene_key.as_str());
    let ghost g_reference = reference;
    let mut references: Vec<AssetReference> = Vec::new();
    references.push(reference);
    match result {
        Ok(response) => {
            let metadata = AssetProviderMetadata {
                provider: response.provider,
                model: response.model,
                request_id: response.request_id,
                prompt_hash: Some(String::from_str(prompt_hash)),
                fallback_used: false,
            };
            MediaOutcome {
                input: AssetRecordInput {
                    kind: AssetKind::Image,
                    source: AssetSourceKind::Generated,
                    project_path: request.output_path.clone(),
                    export_path: Some(request.output_path.clone()),
                    provider_metadata: Some(metadata),
                    references,
                },
                bytes: response.bytes,
                spent_cost_units: Some(response.spent_cost_units),
                fallback_used: false,
                error: None,
                retryable: false,
            }
        },
        Err(error) => {
            let retryable = error.retryable();
            let runtime_error = error.into_runtime_error();
            let metadata = AssetProviderMetadata {
                provider: String::from_str("plotforge-placeholder"),
                model: Some(String::from_str("placeholder-image-v1")),
                request_id: None,
                prompt_hash: Some(String::from_str(prompt_hash)),
                fallback_used: true,
            };
            MediaOutcome {
                input: AssetRecordInput {
                    kind: AssetKind::Image,
                    source: AssetSourceKind::Placeholder,
                    project_path: request.output_path.clone(),
                    export_path: Some(request.output_path.clone()),
                    provider_metadata: Some(metadata),
                    references,
                },
                bytes: placeholder_image_bytes(request.scene_key.as_str(), prompt_hash),
                spent_cost_units: None,
                fallback_used: true,
                error: Some(runtime_error),
                retryable,
            }
        },
    }
}

/// `r` is what a speech synthesis registers after the provider's `result`
/// (see `tts_generation_outcome`).
pub open spec fn tts_outcome_is(
    request: TtsRequest,
    prompt_hash: Seq<char>,
    result: Result<TtsProviderOutput, TtsProviderError>,
    r: MediaOutcome,
) -> bool {
    &&& r.input.references@.len() == 1
    &&& (r.input.references@[0].reference_kind, r.input.references@[0].reference_id@, r.input.references@[0].slot@)
        == tts_reference_of(request.target)
    &&& r.input.kind == request.asset_kind
    &&& r.input.project_path@ == request.output_path@
    &&& r.input.export_path matches Some(p) && p@ == request.output_path@
    &&& match result {
        Ok(output) => {
            &&& r.input.source == AssetSourceKind::Generated
            &&& metadata_is(r.input.provider_metadata, output.provider@, output.model, output.request_id, prompt_hash, false)
            &&& r.bytes == output.bytes
            &&& r.spent_cost_units == Some(output.spent_cost_units)
            &&& !r.fallback_used
            &&& r.error is None
        },
        Err(error) => {
            &&& r.input.source == AssetSourceKind::Placeholder
            &&& r.input.provider_metadata matches Some(meta) && meta.provider@ == "plotforge-silent-fallback"@
                && (meta.model matches Some(m) && m@ == "silent-audio-v1"@) && meta.request_id is None
                && (meta.prompt_hash matches Some(h) && h@ == prompt_hash) && meta.fallback_used
            &&& r.bytes@ == encode_utf8(silent_audio_text(request, prompt_hash))
            &&& r.spent_cost_units is None
            &&& r.fallback_used
            &&& r.error matches Some(e) && (e.code@, e.message@) == tts_runtime_error(error)
            &&& r.retryable == tts_kind_retryable(error.kind)
        },
    }
}

/// The asset a speech synthesis registers after the provider's `result`:
/// the synthesized audio on an answer; on a failure, silent audio marked as
/// a fallback, with the failure's runtime error.
pub fn tts_generation_outcome(
    request: &TtsRequest,
    prompt_hash: &str,
    result: Result<TtsProviderOutput, TtsProviderError>,
) -> (r: MediaOutcome)
    ensures
        tts_outcome_is(*request, prompt_hash@, result, r),
{
    let mut references: Vec<AssetReference> = Vec::new();
    references.push(request.reference());
    match result {
        Ok(output) => {
            let metadata = AssetProviderMetadata {
                provider: output.provider,
                model: output.model,
                request_id: output.request_id,
                prompt_hash: Some(String::from_str(prompt_hash)),
                fallback_used: false,
            };
            MediaOutcome {
                input: AssetRecordInput {
                    kind: request.asset_kind,
                    source: AssetSourceKind::Generated,
                    project_path: request.output_path.clone(),
                    export_path: Some(request.output_path.clone()),
                    provider_metadata: Some(metadata),
                    references,
                },
                bytes: output.bytes,
                spent_cost_units: Some(output.spent_cost_units),
                fallback_used: false,
                error: None,
                retryable: false,
            }
        },
        Err(error) => {
            let retryable = error.retryable();
            let runtime_error = error.into_runtime_error();
            let metadata = AssetProviderMetadata {
                provider: String::from_str("plotforge-silent-fallback"),
                model: Some(String::from_str("silent-audio-v1")),
                request_id: None,
                prompt_hash: Some(String::from_str(prompt_hash)),
                fallback_used: true,
            };
            MediaOutcome {
                input: AssetRecordInput {
                    kind: request.asset_kind,
                    source: AssetSourceKind::Placeholder,
                    project_path: request.output_path.clone(),
                    export_path: Some(request.output_path.clone()),
                    provider_metadata: Some(metadata),
                    references,
                },
                bytes: silent_audio_bytes(request, prompt_hash),
                spent_cost_units: None,
                fallback_used: true,
                error: Some(runtime_error),
                retryable,
            }
        },
    }
}

} // verus!

verus! {

/// `record` is what the registry holds for `input`: the same kind, source,
/// provider metadata and references (the registry assigns the id).
pub open spec fn registered_as(record: AssetRecord, input: AssetRecordInput) -> bool {
    &&& record.kind == input.kind
    &&& record.source == input.source
    &&& record.provider_metadata == input.provider_metadata
    &&& record.references == input.references
}

/// Two requests for the same prompt: when the first found no cached
/// background and generated one, and its answer was registered, the second
/// lookup finds exactly that record, so the second request reuses it and
/// generates nothing.
pub proof fn lemma_second_request_reuses_background(
    records: Seq<AssetRecord>,
    request: SceneImageRequest,
    prompt_hash: Seq<char>,
    response: ImageGenerationResponse,
    outcome: MediaOutcome,
    record: AssetRecord,
    second: Option<usize>,
)
    requires
        forall|j: int| 0 <= j < records.len() ==> !cached_background(#[trigger] records[j], prompt_hash),
        image_outcome_is(request, prompt_hash, Ok(response), outcome),
        registered_as(record, outcome.input),
        first_match(records.push(record), |x: AssetRecord| cached_background(x, prompt_hash), second),
    ensures
        second == Some(records.len() as usize),
        records.push(record)[records.len() as int] == record,
{
    lemma_answered_background_is_cached(request, prompt_hash, response, outcome, record);
    let all = records.push(record);
    match second {
        Some(i) => {
            if (i as int) < records.len() {
                assert(all[i as int] == records[i as int]);
            }
        },
        None => {
            assert(all[records.len() as int] == record);
        },
    }
}

/// A generated background is found again by the cache: once the answer to
/// the prompt hashed `prompt_hash` is registered, its record is a cache hit
/// for that prompt, so the same prompt is not generated twice.
pub proof fn lemma_answered_background_is_cached(
    request: SceneImageRequest,
    prompt_hash: Seq<char>,
    response: ImageGenerationResponse,
    outcome: MediaOutcome,
    record: AssetRecord,
)
    requires
        image_outcome_is(request, prompt_hash, Ok(response), outcome),
        registered_as(record, outcome.input),
    ensures
        cached_background(record, prompt_hash),
{
    let reference = choose|reference: AssetReference|
        reference_is(reference, AssetReferenceKind::Scene, request.scene_key@, scene_background_slot())
            && input_at(
            outcome.input,
            AssetKind::Image,
            AssetSourceKind::Generated,
            request.output_path@,
            reference,
        ) && metadata_is(
            outcome.input.provider_metadata,
            response.provider@,
            response.model,
            response.request_id,
            prompt_hash,
            false,
        ) && outcome.bytes == response.bytes && outcome.spent_cost_units == Some(
            response.spent_cost_units,
        ) && !outcome.fallback_used && outcome.error is None;
    assert(record.references@[0] == reference);
    assert(record.references@[0].slot@ == scene_background_slot());
}

/// A placeholder background never answers the cache: after a failed
/// generation, whatever prompt is asked next, its record is not a hit, so
/// the scene's background is generated again rather than kept as a
/// placeholder.
pub proof fn lemma_placeholder_background_is_not_cached(
    request: SceneImageRequest,
    prompt_hash: Seq<char>,
    error: ImageProviderError,
    outcome: MediaOutcome,
    record: AssetRecord,
    any_hash: Seq<char>,
)
    requires
        image_outcome_is(request, prompt_hash, Err(error), outcome),
        registered_as(record, outcome.input),
    ensures
        !cached_background(record, any_hash),
{
}

/// A synthesized narration or voice is found again by the cache under its
/// own reference and prompt hash.
pub proof fn lemma_answered_speech_is_cached(
    request: TtsRequest,
    prompt_hash: Seq<char>,
    output: TtsProviderOutput,
    outcome: MediaOutcome,
    record: AssetRecord,
    reference: AssetReference,
)
    requires
        tts_outcome_is(request, prompt_hash, Ok(output), outcome),
        registered_as(record, outcome.input),
        (reference.reference_kind, reference.reference_id@, reference.slot@) == tts_reference_of(
            request.target,
        ),
    ensures
        cached_speech(record, request.asset_kind, reference, prompt_hash),
{
    assert(same_reference(record.references@[0], reference));
}

/// Silent fallback audio never answers the cache.
pub proof fn lemma_silent_speech_is_not_cached(
    request: TtsRequest,
    prompt_hash: Seq<char>,
    error: TtsProviderError,
    outcome: MediaOutcome,
    record: AssetRecord,
    kind: AssetKind,
    reference: AssetReference,
    any_hash: Seq<char>,
)
    requires
        tts_outcome_is(request, prompt_hash, Err(error), outcome),
        registered_as(record, outcome.input),
    ensures
        !cached_speech(record, kind, reference, any_hash),
{
}

} // verus!
