//! Image provider interface: requests, responses, errors, the deterministic fake
//! provider, and the decoding of an OpenAI Images API reply.

use vstd::prelude::*;
use crate::shared::counted_call;
use base64::Engine;
use vstd::utf8::encode_utf8;
use crate::json::{JsonValue, json_parse_outcome, member, parse_json};
use crate::providers_http::{join_endpoint, joined_endpoint};
use crate::text::trim;
use crate::text::trim_seq;

verus! {

#[derive(Clone, Debug, PartialEq, Eq)]
pub struct ImageGenerationRequest {
    pub scene_key: String,
    pub prompt: String,
    pub output_path: String,
}

#[derive(Clone, Debug, PartialEq, Eq)]
pub struct ImageGenerationResponse {
    pub bytes: Vec<u8>,
    pub provider: String,
    pub model: Option<String>,
    pub request_id: Option<String>,
    pub spent_cost_units: u64,
}

impl ImageGenerationResponse {
    pub fn png(
        bytes: Vec<u8>,
        provider: &str,
        model: Option<String>,
        request_id: Option<String>,
        spent_cost_units: u64,
    ) -> (r: ImageGenerationResponse)
        ensures
            r.bytes == bytes,
            r.provider@ == provider@,
            r.model == model,
            r.request_id == request_id,
            r.spent_cost_units == spent_cost_units,
    {
        ImageGenerationResponse {
            bytes,
            provider: String::from_str(provider),
            model,
            request_id,
            spent_cost_units,
        }
    }
}

#[derive(Clone, Debug, PartialEq, Eq)]
pub enum ImageProviderErrorKind {
    Provider,
    Timeout,
    /// HTTP 429, with the server-advised delay in milliseconds when present.
    RateLimit { retry_after_ms: Option<u64> },
    /// The provider refused on content-policy grounds; not retried.
    ContentFiltered { reason: String },
}

#[derive(Clone, Debug, PartialEq, Eq)]
pub struct ImageProviderError {
    pub kind: ImageProviderErrorKind,
    pub code: String,
    pub message: String,
}

/// Transient failure classes are retried.
pub open spec fn image_kind_retryable(kind: ImageProviderErrorKind) -> bool {
    match kind {
        ImageProviderErrorKind::Provider => true,
        ImageProviderErrorKind::Timeout => true,
        ImageProviderErrorKind::RateLimit { .. } => true,
        ImageProviderErrorKind::ContentFiltered { .. } => false,
    }
}

impl ImageProviderError {
    pub fn provider(code: &str, message: &str) -> (r: ImageProviderError)
        ensures
            r.kind == ImageProviderErrorKind::Provider,
            r.code@ == code@,
            r.message@ == message@,
    {
        ImageProviderError {
            kind: ImageProviderErrorKind::Provider,
            code: String::from_str(code),
            message: String::from_str(message),
        }
    }

    pub fn timeout(message: &str) -> (r: ImageProviderError)
        ensures
            r.kind == ImageProviderErrorKind::Timeout,
            r.code@ == "image_provider_timeout"@,
            r.message@ == message@,
    {
        ImageProviderError {
            kind: ImageProviderErrorKind::Timeout,
            code: String::from_str("image_provider_timeout"),
            message: String::from_str(message),
        }
    }

    pub fn rate_limit(retry_after_ms: Option<u64>, message: &str) -> (r: ImageProviderError)
        ensures
            r.kind == (ImageProviderErrorKind::RateLimit { retry_after_ms }),
            r.code@ == "image_provider_rate_limit"@,
            r.message@ == message@,
    {
        ImageProviderError {
            kind: ImageProviderErrorKind::RateLimit { retry_after_ms },
            code: String::from_str("image_provider_rate_limit"),
            message: String::from_str(message),
        }
    }

    pub fn content_filtered(reason: &str) -> (r: ImageProviderError)
        ensures
            r.kind matches ImageProviderErrorKind::ContentFiltered { reason: x } && x@ == reason@,
            r.code@ == "image_provider_content_filtered"@,
            r.message@ == "content policy triggered; modify prompt"@,
    {
        ImageProviderError {
            kind: ImageProviderErrorKind::ContentFiltered { reason: String::from_str(reason) },
            code: String::from_str("image_provider_content_filtered"),
            message: String::from_str("content policy triggered; modify prompt"),
        }
    }

    /// Whether a retry may succeed.
    pub fn retryable(&self) -> (r: bool)
        ensures
            r == image_kind_retryable(self.kind),
    {
        match self.kind {
            ImageProviderErrorKind::Provider => true,
            ImageProviderErrorKind::Timeout => true,
            ImageProviderErrorKind::RateLimit { .. } => true,
            ImageProviderErrorKind::ContentFiltered { .. } => false,
        }
    }

    /// `{code}: {message}`.
    pub fn to_text(&self) -> (r: String)
        ensures
            r@ == self.code@ + ": "@ + self.message@,
    {
        let mut r = self.code.clone();
        r.append(": ");
        r.append(self.message.as_str());
        r
    }
}

/// An image generator.
pub trait ImageProvider {
    fn generate(&mut self, request: &ImageGenerationRequest) -> Result<
        ImageGenerationResponse,
        ImageProviderError,
    >;
}

/// A scene background to generate.
#[derive(Clone, Debug, PartialEq, Eq)]
pub struct SceneImageRequest {
    pub scene_key: String,
    pub prompt: String,
    pub output_path: String,
}

/// Generates scene images through a provider.
#[derive(Clone, Debug)]
pub struct SceneImagePipeline<P> {
    pub provider: P,
}

impl<P> SceneImagePipeline<P> {
    pub fn new(provider: P) -> (r: Self)
        ensures
            r.provider == provider,
    {
        SceneImagePipeline { provider }
    }
}

/// How the fake image provider fails, when it does.
#[derive(Clone, Copy, Debug, PartialEq, Eq, Structural)]
pub enum FakeImageFailureKind {
    ProviderError,
    Timeout,
}

/// A deterministic image provider that counts the calls made on it. It is
/// not `Clone`, so every call is made on the one value whose counter
/// reports it.
#[derive(Debug)]
pub struct FakeImageProvider {
    pub failure: Option<FakeImageFailureKind>,
    pub calls: u32,
}

/// The bytes of a fake image: a text header naming the scene and prompt.
pub open spec fn fake_image_text(request: ImageGenerationRequest) -> Seq<char> {
    "plotforge-fake-png\nscene="@ + request.scene_key@ + "\nprompt="@ + request.prompt@ + "\n"@
}

/// The UTF-8 bytes of `s` (`String::into_bytes`).
pub fn utf8_bytes(s: &str) -> (r: Vec<u8>)
    ensures
        r@ == encode_utf8(s@),
{
    vstd::slice::slice_to_vec(s.as_bytes())
}

/// The bytes of the fake provider's image for `request` (`fake_image_text`).
pub fn fake_image_bytes(request: &ImageGenerationRequest) -> (r: Vec<u8>)
    ensures
        r@ == encode_utf8(fake_image_text(*request)),
{
    let mut text = String::from_str("plotforge-fake-png\nscene=");
    text.append(request.scene_key.as_str());
    text.append("\nprompt=");
    text.append(request.prompt.as_str());
    text.append("\n");
    utf8_bytes(text.as_str())
}

impl FakeImageProvider {
    pub fn success() -> (r: FakeImageProvider)
        ensures
            r.failure is None,
            r.calls == 0,
    {
        FakeImageProvider { failure: None, calls: 0 }
    }

    pub fn provider_error() -> (r: FakeImageProvider)
        ensures
            r.failure == Some(FakeImageFailureKind::ProviderError),
            r.calls == 0,
    {
        FakeImageProvider::with_failure(FakeImageFailureKind::ProviderError)
    }

    pub fn timeout() -> (r: FakeImageProvider)
        ensures
            r.failure == Some(FakeImageFailureKind::Timeout),
            r.calls == 0,
    {
        FakeImageProvider::with_failure(FakeImageFailureKind::Timeout)
    }

    fn with_failure(kind: FakeImageFailureKind) -> (r: FakeImageProvider)
        ensures
            r.failure == Some(kind),
            r.calls == 0,
    {
        FakeImageProvider { failure: Some(kind), calls: 0 }
    }

    pub fn call_count(&self) -> (r: u32)
        ensures
            r == self.calls,
    {
        self.calls
    }
}

impl ImageProvider for FakeImageProvider {
    /// Counts the call (saturating), then fails as configured or answers a
    /// fake PNG naming the scene and prompt.
    fn generate(&mut self, request: &ImageGenerationRequest) -> (r: Result<
        ImageGenerationResponse,
        ImageProviderError,
    >)
        ensures
            counted_call(old(self).calls, final(self).calls),
            final(self).failure == old(self).failure,
            match old(self).failure {
                Some(FakeImageFailureKind::ProviderError) => r matches Err(e) && e.kind
                    == ImageProviderErrorKind::Provider && e.code@ == "image_provider_error"@,
                Some(FakeImageFailureKind::Timeout) => r matches Err(e) && e.kind
                    == ImageProviderErrorKind::Timeout,
                None => r matches Ok(resp) && resp.bytes@ == encode_utf8(fake_image_text(*request))
                    && resp.provider@ == "fake-image"@ && (resp.model matches Some(m) && m@
                    == "placeholder-v1"@) && (resp.request_id matches Some(id) && id@ == "fake-image-"@
                    + request.scene_key@) && resp.spent_cost_units == 1,
            },
    {
        if self.calls < u32::MAX {
            self.calls = self.calls + 1;
        }
        match self.failure {
            Some(FakeImageFailureKind::ProviderError) => Err(
                ImageProviderError::provider(
                    "image_provider_error",
                    "fake image provider failed OPENAI_API_KEY=sk-image-secret",
                ),
            ),
            Some(FakeImageFailureKind::Timeout) => Err(
                ImageProviderError::timeout("fake image provider timeout token=image-secret"),
            ),
            None => {
                let mut id = String::from_str("fake-image-");
                id.append(request.scene_key.as_str());
                Ok(
                    ImageGenerationResponse::png(
                        fake_image_bytes(request),
                        "fake-image",
                        Some(String::from_str("placeholder-v1")),
                        Some(id),
                        1,
                    ),
                )
            },
        }
    }
}

/// `{endpoint}/images/generations`, without doubled slashes.
pub fn generations_url(endpoint_url: &str) -> (r: String)
    ensures
        r@ == joined_endpoint(endpoint_url@, "images/generations"@),
{
    join_endpoint(endpoint_url, "images/generations")
}

/// What the `base64` crate's standard engine decodes `text` to, or the text
/// of its decode error.
pub uninterp spec fn base64_standard_decode(text: Seq<char>) -> Result<Seq<u8>, Seq<char>>;

/// `base64::engine::general_purpose::STANDARD.decode(text)`.
#[verifier::external_body]
fn base64_decode(text: &str) -> (r: Result<Vec<u8>, String>)
    ensures
        match (r, base64_standard_decode(text@)) {
            (Ok(b), Ok(c)) => b@ == c,
            (Err(e), Err(m)) => e@ == m,
            _ => false,
        },
{
    base64::engine::general_purpose::STANDARD.decode(text).map_err(|error| error.to_string())
}

/// Decodes an inline base64 image (surrounding whitespace ignored).
pub fn decode_b64_image(b64: &str) -> (r: Result<Vec<u8>, ImageProviderError>)
    ensures
        match base64_standard_decode(trim_seq(b64@)) {
            Ok(bytes) => r matches Ok(b) && b@ == bytes,
            Err(m) => r matches Err(e) && e.kind == ImageProviderErrorKind::Provider && e.code@
                == "image_provider_b64_decode"@ && e.message@ == "failed to decode b64_json: "@ + m,
        },
{
    match base64_decode(trim(b64)) {
        Ok(bytes) => Ok(bytes),
        Err(m) => {
            let mut message = String::from_str("failed to decode b64_json: ");
            message.append(m.as_str());
            Err(ImageProviderError::provider("image_provider_b64_decode", message.as_str()))
        },
    }
}

/// Where the image of an Images API reply is: inline, or at a URL still to
/// be fetched.
#[derive(Clone, Debug, PartialEq, Eq)]
pub enum ImagePayload {
    Bytes(Vec<u8>),
    Url(String),
}

/// An optional member that, when present and not `null`, must have the
/// type that `ok` accepts.
pub open spec fn optional_member_ok(entries: Seq<(String, JsonValue)>, key: Seq<char>, string: bool) -> bool {
    match member(entries, key) {
        None => true,
        Some(JsonValue::Null) => true,
        Some(JsonValue::Str(_)) => string,
        Some(JsonValue::Bool(_)) => !string,
        _ => false,
    }
}

/// A well-formed `data` entry: an object whose `b64_json` and `url` are
/// strings and whose `content_filter` is a boolean, each when present.
pub open spec fn image_entry_ok(v: JsonValue) -> bool {
    match v {
        JsonValue::Object(entries) => optional_member_ok(entries@, "b64_json"@, true)
            && optional_member_ok(entries@, "url"@, true) && optional_member_ok(
            entries@,
            "content_filter"@,
            false,
        ),
        _ => false,
    }
}

/// The `data` list of a well-formed reply.
pub open spec fn image_data(v: JsonValue) -> Option<Seq<JsonValue>> {
    match v {
        JsonValue::Object(entries) => match member(entries@, "data"@) {
            Some(JsonValue::Array(items)) => if forall|i: int|
                0 <= i < items@.len() ==> #[trigger] image_entry_ok(items@[i]) {
                Some(items@)
            } else {
                None
            },
            _ => None,
        },
        _ => None,
    }
}

pub open spec fn member_str(entries: Seq<(String, JsonValue)>, key: Seq<char>) -> Option<Seq<char>> {
    match member(entries, key) {
        Some(JsonValue::Str(s)) => Some(s@),
        _ => None,
    }
}

/// What a parsed Images API reply yields.
pub open spec fn image_payload_spec(v: JsonValue, r: Result<ImagePayload, ImageProviderError>) -> bool {
    match image_data(v) {
        None => r matches Err(e) && e.kind == ImageProviderErrorKind::Provider && e.code@
            == "image_provider_http_decode"@,
        Some(items) => if items.len() == 0 {
            r matches Err(e) && e.kind == ImageProviderErrorKind::Provider && e.code@
                == "image_provider_http_decode"@ && e.message@ == "images response missing data[0]"@
        } else {
            let entries = items[0]->Object_0@;
            if member(entries, "content_filter"@) == Some(JsonValue::Bool(true)) {
                r matches Err(e) && (e.kind matches ImageProviderErrorKind::ContentFiltered { reason }
                    && reason@ == "content_filter"@) && e.code@ == "image_provider_content_filtered"@
            } else if member_str(entries, "b64_json"@) is Some {
                match base64_standard_decode(trim_seq(member_str(entries, "b64_json"@)->0)) {
                    Ok(bytes) => r matches Ok(ImagePayload::Bytes(b)) && b@ == bytes,
                    Err(m) => r matches Err(e) && e.code@ == "image_provider_b64_decode"@
                        && e.message@ == "failed to decode b64_json: "@ + m,
                }
            } else if member_str(entries, "url"@) is Some {
                r matches Ok(ImagePayload::Url(u)) && u@ == member_str(entries, "url"@)->0
            } else {
                r matches Err(e) && e.kind == ImageProviderErrorKind::Provider && e.code@
                    == "image_provider_http_decode"@ && e.message@
                    == "images response data[0] has neither b64_json nor url"@
            }
        },
    }
}

fn optional_member_check(v: &JsonValue, key: &str, string: bool) -> (r: bool)
    requires
        v is Object,
    ensures
        r == optional_member_ok(v->Object_0@, key@, string),
{
    match v.get(key) {
        None => true,
        Some(JsonValue::Null) => true,
        Some(JsonValue::Str(_)) => string,
        Some(JsonValue::Bool(_)) => !string,
        _ => false,
    }
}

fn image_entry_check(v: &JsonValue) -> (r: bool)
    ensures
        r == image_entry_ok(*v),
{
    match v {
        JsonValue::Object(_) => optional_member_check(v, "b64_json", true) && optional_member_check(
            v,
            "url",
            true,
        ) && optional_member_check(v, "content_filter", false),
        _ => false,
    }
}

fn read_image_data(v: &JsonValue) -> (r: Option<&Vec<JsonValue>>)
    ensures
        match image_data(*v) {
            None => r is None,
            Some(items) => r matches Some(x) && x@ == items,
        },
        r matches Some(x) ==> forall|i: int| 0 <= i < x@.len() ==> #[trigger] image_entry_ok(x@[i]),
{
    match v {
        JsonValue::Object(_) => match v.get("data") {
            Some(JsonValue::Array(items)) => {
                let mut i: usize = 0;
                while i < items.len()
                    invariant
                        i <= items@.len(),
                        forall|k: int| 0 <= k < i ==> #[trigger] image_entry_ok(items@[k]),
                        (v matches JsonValue::Object(es) && member(es@, "data"@) == Some(
                            JsonValue::Array(*items),
                        )),
                    decreases items@.len() - i,
                {
                    if !image_entry_check(&items[i]) {
                        assert(!image_entry_ok(items@[i as int]));
                        return None;
                    }
                    i = i + 1;
                }
                Some(items)
            },
            _ => None,
        },
        _ => None,
    }
}

/// Reads the image out of a parsed Images API reply: a content-filter flag
/// wins, then inline base64, then a URL.
pub fn image_payload_from_json(v: &JsonValue) -> (r: Result<ImagePayload, ImageProviderError>)
    ensures
        image_payload_spec(*v, r),
{
    let items = match read_image_data(v) {
        Some(items) => items,
        None => {
            return Err(
                ImageProviderError::provider(
                    "image_provider_http_decode",
                    "images response was not JSON: unexpected images response shape",
                ),
            );
        },
    };
    if items.len() == 0 {
        return Err(
            ImageProviderError::provider(
                "image_provider_http_decode",
                "images response missing data[0]",
            ),
        );
    }
    let entry = &items[0];
    assert(image_entry_ok(items@[0]));
    match entry.get("content_filter") {
        Some(JsonValue::Bool(true)) => {
            return Err(ImageProviderError::content_filtered("content_filter"));
        },
        _ => {},
    }
    match entry.get("b64_json") {
        Some(JsonValue::Str(b64)) => {
            return match decode_b64_image(b64.as_str()) {
                Ok(bytes) => Ok(ImagePayload::Bytes(bytes)),
                Err(e) => Err(e),
            };
        },
        _ => {},
    }
    match entry.get("url") {
        Some(JsonValue::Str(url)) => Ok(ImagePayload::Url(url.clone())),
        _ => Err(
            ImageProviderError::provider(
                "image_provider_http_decode",
                "images response data[0] has neither b64_json nor url",
            ),
        ),
    }
}

/// Decodes an Images API reply body.
pub fn parse_image_response(text: &str) -> (r: Result<ImagePayload, ImageProviderError>)
    ensures
        match json_parse_outcome(text@) {
            Err(m) => r matches Err(e) && e.kind == ImageProviderErrorKind::Provider && e.code@
                == "image_provider_http_decode"@ && e.message@ == "images response was not JSON: "@
                + m,
            Ok(v) => image_payload_spec(v, r),
        },
{
    match parse_json(text) {
        Err(m) => {
            let mut message = String::from_str("images response was not JSON: ");
            message.append(m.as_str());
            Err(ImageProviderError::provider("image_provider_http_decode", message.as_str()))
        },
        Ok(v) => image_payload_from_json(&v),
    }
}

/// The error for a credential that could not be resolved.
pub fn image_missing_credential(env_var: &str) -> (r: ImageProviderError)
    ensures
        r.kind == ImageProviderErrorKind::Provider,
        r.code@ == "image_provider_missing_credential"@,
        r.message@ == "image provider credential env var `"@ + env_var@
            + "` is missing or empty; set it before generating images"@,
{
    let mut m = String::from_str("image provider credential env var `");
    m.append(env_var);
    m.append("` is missing or empty; set it before generating images");
    ImageProviderError::provider("image_provider_missing_credential", m.as_str())
}

/// The error for a non-success HTTP status (`status_text` is how the status
/// prints, such as `429 Too Many Requests`).
pub fn image_status_error(status: u16, status_text: &str, retry_after_ms: Option<u64>) -> (r: ImageProviderError)
    ensures
        r.message@ == "provider returned HTTP "@ + status_text@,
        status == 429 ==> r.kind == (ImageProviderErrorKind::RateLimit { retry_after_ms }) && r.code@
            == "image_provider_rate_limit"@,
        status != 429 ==> r.kind == ImageProviderErrorKind::Provider && r.code@
            == "image_provider_http_status"@,
{
    let mut m = String::from_str("provider returned HTTP ");
    m.append(status_text);
    if status == 429 {
        ImageProviderError::rate_limit(retry_after_ms, m.as_str())
    } else {
        ImageProviderError::provider("image_provider_http_status", m.as_str())
    }
}

/// The Images API request body: model, prompt, size and quality, a PNG
/// output, one image.
pub fn image_request_body(model: &str, prompt: &str, size: &str, quality: &str) -> (r: JsonValue)
    ensures
        r matches JsonValue::Object(es) && es@.len() == 6 && es@[0].0@ == "model"@ && es@[0].1
            == JsonValue::Str(es@[0].1->Str_0) && es@[0].1->Str_0@ == model@ && es@[1].0@ == "prompt"@
            && es@[1].1 == JsonValue::Str(es@[1].1->Str_0) && es@[1].1->Str_0@ == prompt@
            && es@[2].0@ == "size"@ && es@[2].1 == JsonValue::Str(es@[2].1->Str_0) && es@[2].1->Str_0@
            == size@ && es@[3].0@ == "quality"@ && es@[3].1 == JsonValue::Str(es@[3].1->Str_0)
            && es@[3].1->Str_0@ == quality@ && es@[4].0@ == "output_format"@ && es@[4].1
            == JsonValue::Str(es@[4].1->Str_0) && es@[4].1->Str_0@ == "png"@ && es@[5].0@ == "n"@
            && crate::json::is_u64_number(es@[5].1, 1),
{
    let mut es: Vec<(String, JsonValue)> = Vec::new();
    es.push((String::from_str("model"), JsonValue::Str(String::from_str(model))));
    es.push((String::from_str("prompt"), JsonValue::Str(String::from_str(prompt))));
    es.push((String::from_str("size"), JsonValue::Str(String::from_str(size))));
    es.push((String::from_str("quality"), JsonValue::Str(String::from_str(quality))));
    es.push((String::from_str("output_format"), JsonValue::Str(String::from_str("png"))));
    es.push((String::from_str("n"), crate::json::u64_number(1)));
    JsonValue::Object(es)
}

/// The image a successful generation yields: the fetched or decoded bytes,
/// from `openai-image` with the configured model, at one cost unit.
pub fn openai_image_response(bytes: Vec<u8>, model: &str) -> (r: ImageGenerationResponse)
    ensures
        r.bytes == bytes,
        r.provider@ == "openai-image"@,
        r.model matches Some(m) && m@ == model@,
        r.request_id is None,
        r.spent_cost_units == 1,
{
    ImageGenerationResponse::png(bytes, "openai-image", Some(String::from_str(model)), None, 1)
}

/// The bytes of the placeholder registered when generation falls back.
pub fn placeholder_image_bytes(scene_key: &str, prompt_hash: &str) -> (r: Vec<u8>)
    ensures
        r@ == encode_utf8("plotforge-placeholder-png\nscene="@ + scene_key@ + "\nprompt_hash="@
            + prompt_hash@ + "\n"@),
{
    let mut text = String::from_str("plotforge-placeholder-png\nscene=");
    text.append(scene_key);
    text.append("\nprompt_hash=");
    text.append(prompt_hash);
    text.append("\n");
    utf8_bytes(text.as_str())
}

/// The image behind a returned URL, from the fetch's status (and how it
/// prints, such as `404 Not Found`) and body: a non-success status or an
/// empty body is an `image_provider_url_fetch` failure.
pub fn image_url_bytes(status: u16, status_text: &str, body: Vec<u8>) -> (r: Result<
    Vec<u8>,
    ImageProviderError,
>)
    ensures
        !(200 <= status <= 299) ==> (r matches Err(e) && e.kind == ImageProviderErrorKind::Provider
            && e.code@ == "image_provider_url_fetch"@ && e.message@ == "image url returned HTTP "@
            + status_text@),
        200 <= status <= 299 && body@.len() == 0 ==> (r matches Err(e) && e.kind
            == ImageProviderErrorKind::Provider && e.code@ == "image_provider_url_fetch"@
            && e.message@ == "image url returned empty body"@),
        200 <= status <= 299 && body@.len() > 0 ==> r == Ok::<Vec<u8>, ImageProviderError>(body),
{
    if !(200 <= status && status <= 299) {
        let mut message = String::from_str("image url returned HTTP ");
        message.append(status_text);
        return Err(ImageProviderError::provider("image_provider_url_fetch", message.as_str()));
    }
    if body.len() == 0 {
        return Err(ImageProviderError::provider("image_provider_url_fetch", "image url returned empty body"));
    }
    Ok(body)
}

} // verus!
