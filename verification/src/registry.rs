//! Provider registry rules: which registered provider serves a model id,
//! which media and moderation providers are active, the configuration a
//! text provider entry stands for, reproducibility hashes, quota checks,
//! and the decoding of upstream model listings.

use vstd::prelude::*;
use crate::json::{JsonValue, json_parse_outcome, member, parse_json};
use crate::providers_http::{join_endpoint, joined_endpoint};
use crate::providers_text::TextProviderConfig;
use crate::schema::{
    ImageProviderEntry, ModerationProviderEntry, ProviderEntry, ProviderKind, ProviderRegistry,
    RemoteModelInfo, TtsProviderEntry,
};
use crate::shared::{hex_lower, sha256_utf8, stable_sha256_hash};
use crate::text::{is_blank, is_blank_str, join_seq, str_eq};
use crate::providers_text::bool_text;
use crate::providers_text::bool_str;

verus! {

/// The reserved model id of the offline local mock.
pub const LOCAL_PI_MODEL_ID: &'static str = "local-pi";

/// The index of the first `true` flag.
pub open spec fn first_true(flags: Seq<bool>) -> Option<int>
    decreases flags.len(),
{
    if flags.len() == 0 {
        None
    } else if flags[0] {
        Some(0)
    } else {
        match first_true(flags.drop_first()) {
            Some(i) => Some(i + 1),
            None => None,
        }
    }
}

proof fn lemma_first_true(flags: Seq<bool>, i: int)
    requires
        0 <= i <= flags.len(),
        forall|k: int| 0 <= k < i ==> !flags[k],
    ensures
        i < flags.len() && flags[i] ==> first_true(flags) == Some(i),
        i == flags.len() ==> first_true(flags) is None,
    decreases i,
{
    if i > 0 {
        assert forall|k: int| 0 <= k < i - 1 implies !flags.drop_first()[k] by {
            assert(flags.drop_first()[k] == flags[k + 1]);
        }
        lemma_first_true(flags.drop_first(), i - 1);
    } else if flags.len() > 0 {
    }
}

/// `first_true` finds the first set flag, and finds none only when no flag
/// is set.
pub proof fn lemma_first_true_characterized(flags: Seq<bool>)
    ensures
        match first_true(flags) {
            Some(i) => 0 <= i < flags.len() && flags[i] && forall|j: int| 0 <= j < i ==> !flags[j],
            None => forall|j: int| 0 <= j < flags.len() ==> !flags[j],
        },
    decreases flags.len(),
{
    if flags.len() > 0 && !flags[0] {
        lemma_first_true_characterized(flags.drop_first());
        match first_true(flags.drop_first()) {
            Some(i) => {
                assert forall|j: int| 0 <= j < i + 1 implies !flags[j] by {
                    if j > 0 {
                        assert(flags[j] == flags.drop_first()[j - 1]);
                    }
                }
                assert(flags[i + 1] == flags.drop_first()[i]);
            },
            None => {
                assert forall|j: int| 0 <= j < flags.len() implies !flags[j] by {
                    if j > 0 {
                        assert(flags[j] == flags.drop_first()[j - 1]);
                    }
                }
            },
        }
    }
}

/// A registry lookup answers the first entry that qualifies, never one that
/// does not, and answers nothing only when no entry qualifies.
pub proof fn lemma_picks_first_qualifying<T>(r: Option<&T>, items: Seq<T>, flags: Seq<bool>)
    requires
        picks(r, items, flags),
        flags.len() == items.len(),
    ensures
        r is None <==> forall|j: int| 0 <= j < flags.len() ==> !flags[j],
        r is Some ==> exists|i: int|
            0 <= i < items.len() && r == Some(&items[i]) && flags[i] && forall|j: int|
                0 <= j < i ==> !flags[j],
{
    lemma_first_true_characterized(flags);
    match first_true(flags) {
        Some(i) => {
            assert(0 <= i < items.len() && r == Some(&items[i]) && flags[i]);
        },
        None => {},
    }
}

/// A moderation entry's reproducibility hash does not depend on its quota
/// fields (`max_concurrency`, `requests_per_minute`, `daily_token_budget`).
pub proof fn lemma_moderation_hash_ignores_quota(a: ModerationProviderEntry, b: ModerationProviderEntry)
    requires
        a.id == b.id,
        a.endpoint_url == b.endpoint_url,
        a.model == b.model,
        a.credential_env_var == b.credential_env_var,
        a.enabled == b.enabled,
    ensures
        "sha256:"@ + hex_lower(sha256_utf8(moderation_hash_input(a))) == "sha256:"@ + hex_lower(
            sha256_utf8(moderation_hash_input(b)),
        ),
{
}

/// `Option<&T>` holds the element `first_true` points at.
pub open spec fn picks<T>(r: Option<&T>, items: Seq<T>, flags: Seq<bool>) -> bool {
    match first_true(flags) {
        Some(i) => r == Some(&items[i]),
        None => r is None,
    }
}

pub open spec fn image_enabled_flags(v: Seq<ImageProviderEntry>) -> Seq<bool> {
    v.map_values(|e: ImageProviderEntry| e.enabled)
}

pub open spec fn tts_enabled_flags(v: Seq<TtsProviderEntry>) -> Seq<bool> {
    v.map_values(|e: TtsProviderEntry| e.enabled)
}

pub open spec fn moderation_enabled_flags(v: Seq<ModerationProviderEntry>) -> Seq<bool> {
    v.map_values(|e: ModerationProviderEntry| e.enabled)
}

/// The flags of the text entries that serve `model_id`: registered under
/// that id and enabled.
pub open spec fn serves_flags(v: Seq<ProviderEntry>, model_id: Seq<char>) -> Seq<bool> {
    v.map_values(|e: ProviderEntry| e.id@ == model_id && e.enabled)
}

/// The first enabled image provider, in registry order.
pub fn resolve_image_provider(registry: &ProviderRegistry) -> (r: Option<&ImageProviderEntry>)
    ensures
        picks(r, registry.image_providers@, image_enabled_flags(registry.image_providers@)),
{
    let v = &registry.image_providers;
    let ghost flags = image_enabled_flags(v@);
    let mut i: usize = 0;
    while i < v.len()
        invariant
            i <= v@.len(),
            flags == image_enabled_flags(v@),
            *v == registry.image_providers,
            forall|k: int| 0 <= k < i ==> !flags[k],
        decreases v@.len() - i,
    {
        assert(flags[i as int] == v@[i as int].enabled);
        if v[i].enabled {
            proof {
                lemma_first_true(flags, i as int);
            }
            return Some(&v[i]);
        }
        i = i + 1;
    }
    proof {
        lemma_first_true(flags, i as int);
    }
    None
}

/// The first enabled TTS provider, in registry order.
pub fn resolve_tts_provider(registry: &ProviderRegistry) -> (r: Option<&TtsProviderEntry>)
    ensures
        picks(r, registry.tts_providers@, tts_enabled_flags(registry.tts_providers@)),
{
    let v = &registry.tts_providers;
    let ghost flags = tts_enabled_flags(v@);
    let mut i: usize = 0;
    while i < v.len()
        invariant
            i <= v@.len(),
            flags == tts_enabled_flags(v@),
            *v == registry.tts_providers,
            forall|k: int| 0 <= k < i ==> !flags[k],
        decreases v@.len() - i,
    {
        assert(flags[i as int] == v@[i as int].enabled);
        if v[i].enabled {
            proof {
                lemma_first_true(flags, i as int);
            }
            return Some(&v[i]);
        }
        i = i + 1;
    }
    proof {
        lemma_first_true(flags, i as int);
    }
    None
}

/// The first enabled moderation provider, in registry order.
pub fn resolve_moderation_provider(registry: &ProviderRegistry) -> (r: Option<&ModerationProviderEntry>)
    ensures
        picks(
            r,
            registry.moderation_providers@,
            moderation_enabled_flags(registry.moderation_providers@),
        ),
{
    let v = &registry.moderation_providers;
    let ghost flags = moderation_enabled_flags(v@);
    let mut i: usize = 0;
    while i < v.len()
        invariant
            i <= v@.len(),
            flags == moderation_enabled_flags(v@),
            *v == registry.moderation_providers,
            forall|k: int| 0 <= k < i ==> !flags[k],
        decreases v@.len() - i,
    {
        assert(flags[i as int] == v@[i as int].enabled);
        if v[i].enabled {
            proof {
                lemma_first_true(flags, i as int);
            }
            return Some(&v[i]);
        }
        i = i + 1;
    }
    proof {
        lemma_first_true(flags, i as int);
    }
    None
}

/// The registered text provider that serves `model_id`: none for the local
/// mock id, else the first enabled entry registered under that id.
pub fn resolve_provider_for_model<'a>(model_id: &str, registry: &'a ProviderRegistry) -> (r: Option<
    &'a ProviderEntry,
>)
    ensures
        model_id@ == LOCAL_PI_MODEL_ID@ ==> r is None,
        model_id@ != LOCAL_PI_MODEL_ID@ ==> picks(
            r,
            registry.providers@,
            serves_flags(registry.providers@, model_id@),
        ),
{
    if str_eq(model_id, LOCAL_PI_MODEL_ID) {
        return None;
    }
    assert(model_id@ != LOCAL_PI_MODEL_ID@);
    let v = &registry.providers;
    let ghost flags = serves_flags(v@, model_id@);
    let mut i: usize = 0;
    while i < v.len()
        invariant
            i <= v@.len(),
            flags == serves_flags(v@, model_id@),
            *v == registry.providers,
            model_id@ != LOCAL_PI_MODEL_ID@,
            forall|k: int| 0 <= k < i ==> !flags[k],
        decreases v@.len() - i,
    {
        assert(flags[i as int] == (v@[i as int].id@ == model_id@ && v@[i as int].enabled));
        if v[i].enabled && str_eq(v[i].id.as_str(), model_id) {
            proof {
                lemma_first_true(flags, i as int);
            }
            return Some(&v[i]);
        }
        i = i + 1;
    }
    proof {
        lemma_first_true(flags, i as int);
    }
    None
}

/// The stable key of a provider kind.
pub open spec fn kind_key(kind: ProviderKind) -> Seq<char> {
    match kind {
        ProviderKind::OpenAiCompatible => "openai_compatible"@,
        ProviderKind::OpenAiResponses => "openai_responses"@,
        ProviderKind::AnthropicMessages => "anthropic_messages"@,
    }
}

pub fn provider_kind_key(kind: ProviderKind) -> (r: &'static str)
    ensures
        r@ == kind_key(kind),
{
    match kind {
        ProviderKind::OpenAiCompatible => "openai_compatible",
        ProviderKind::OpenAiResponses => "openai_responses",
        ProviderKind::AnthropicMessages => "anthropic_messages",
    }
}

/// Provider-native JSON Schema output is used with the Responses and
/// Messages protocols, not with generic OpenAI-compatible endpoints.
pub open spec fn kind_supports_json_schema(kind: ProviderKind) -> bool {
    kind == ProviderKind::OpenAiResponses || kind == ProviderKind::AnthropicMessages
}

/// The local configuration a text provider entry stands for.
pub open spec fn entry_config(entry: ProviderEntry) -> TextProviderConfig {
    TextProviderConfig {
        enabled: entry.enabled,
        provider: entry.id,
        model: entry.model,
        endpoint_url: Some(entry.endpoint_url),
        credential_env_var: entry.credential_env_var,
        max_output_tokens: entry.max_output_tokens,
        supports_json_schema: kind_supports_json_schema(entry.kind),
    }
}

pub fn text_provider_config(entry: &ProviderEntry) -> (r: TextProviderConfig)
    ensures
        r == entry_config(*entry),
{
    let supports_json_schema = match entry.kind {
        ProviderKind::OpenAiResponses => true,
        ProviderKind::AnthropicMessages => true,
        ProviderKind::OpenAiCompatible => false,
    };
    TextProviderConfig {
        enabled: entry.enabled,
        provider: entry.id.clone(),
        model: entry.model.clone(),
        endpoint_url: Some(entry.endpoint_url.clone()),
        credential_env_var: entry.credential_env_var.clone(),
        max_output_tokens: entry.max_output_tokens,
        supports_json_schema,
    }
}

/// An entry with a blank credential variable name is a local no-auth
/// endpoint: its credential resolves to the empty string.
pub fn uses_optional_credential(credential_env_var: &str) -> (r: bool)
    ensures
        r == is_blank(credential_env_var@),
{
    is_blank_str(credential_env_var)
}

/// `sha256:` and the hex SHA-256 of `parts` joined with line breaks: the
/// upstream identity under which a throttle gate is shared.
pub fn throttle_config_hash(parts: &Vec<&str>) -> (r: String)
    ensures
        r@ == "sha256:"@ + hex_lower(
            sha256_utf8(join_seq(parts@.map_values(|p: &str| p@), "\n"@)),
        ),
{
    let mut joined = String::new();
    let mut i: usize = 0;
    while i < parts.len()
        invariant
            i <= parts@.len(),
            joined@ == join_seq(parts@.take(i as int).map_values(|p: &str| p@), "\n"@),
        decreases parts@.len() - i,
    {
        let ghost before = parts@.take(i as int).map_values(|p: &str| p@);
        assert(parts@.take(i + 1).map_values(|p: &str| p@) =~= before.push(parts@[i as int]@));
        assert(before.push(parts@[i as int]@).drop_last() =~= before);
        if i > 0 {
            joined.append("\n");
        }
        joined.append(parts[i]);
        i = i + 1;
    }
    assert(parts@.take(i as int) =~= parts@);
    let mut r = String::from_str("sha256:");
    r.append(stable_sha256_hash(joined.as_str()).as_str());
    r
}

/// The throttle identity parts of a text entry.
pub fn text_throttle_parts(entry: &ProviderEntry) -> (r: Vec<&str>)
    ensures
        r@.map_values(|p: &str| p@) == seq![
            kind_key(entry.kind),
            entry.endpoint_url@,
            entry.model@,
            entry.credential_env_var@,
        ],
{
    let r = vec![
        provider_kind_key(entry.kind),
        entry.endpoint_url.as_str(),
        entry.model.as_str(),
        entry.credential_env_var.as_str(),
    ];
    assert(r@.map_values(|p: &str| p@) =~= seq![
        kind_key(entry.kind),
        entry.endpoint_url@,
        entry.model@,
        entry.credential_env_var@,
    ]);
    r
}

/// The text hashed into a moderation entry's reproducibility identity; the
/// quota fields are left out.
pub open spec fn moderation_hash_input(entry: ModerationProviderEntry) -> Seq<char> {
    "id="@ + entry.id@ + "\nendpoint_url="@ + entry.endpoint_url@ + "\nmodel="@ + entry.model@
        + "\ncredential_env_var="@ + entry.credential_env_var@ + "\nenabled="@ + bool_text(
        entry.enabled,
    ) + "\n"@
}

/// Canonical moderation reproducibility identity.
pub fn moderation_config_hash(entry: &ModerationProviderEntry) -> (r: String)
    ensures
        r@ == "sha256:"@ + hex_lower(sha256_utf8(moderation_hash_input(*entry))),
{
    let mut input = String::from_str("id=");
    input.append(entry.id.as_str());
    input.append("\nendpoint_url=");
    input.append(entry.endpoint_url.as_str());
    input.append("\nmodel=");
    input.append(entry.model.as_str());
    input.append("\ncredential_env_var=");
    input.append(entry.credential_env_var.as_str());
    input.append("\nenabled=");
    input.append(bool_str(entry.enabled));
    input.append("\n");
    assert(input@ =~= moderation_hash_input(*entry));
    let mut r = String::from_str("sha256:");
    r.append(stable_sha256_hash(input.as_str()).as_str());
    r
}

/// Why a provider could not be built.
#[derive(Clone, Debug, PartialEq, Eq)]
pub enum ProviderBuildError {
    InvalidConfiguration { message: String },
    ClientConstruction { provider_id: String, message: String },
    InvalidThrottle { provider_id: String, message: String },
    UnsupportedQuota { provider_id: String, message: String },
}

pub open spec fn build_error_text(e: ProviderBuildError) -> Seq<char> {
    match e {
        ProviderBuildError::InvalidConfiguration { message } => "invalid provider configuration: "@
            + message@,
        ProviderBuildError::ClientConstruction { provider_id, message } =>
            "could not construct HTTP client for provider `"@ + provider_id@ + "`: "@ + message@,
        ProviderBuildError::InvalidThrottle { provider_id, message } =>
            "invalid throttle configuration for provider `"@ + provider_id@ + "`: "@ + message@,
        ProviderBuildError::UnsupportedQuota { provider_id, message } =>
            "unsupported quota configuration for provider `"@ + provider_id@ + "`: "@ + message@,
    }
}

fn id_message(head: &str, id: &str, message: &str) -> (r: String)
    ensures
        r@ == head@ + id@ + "`: "@ + message@,
{
    let mut r = String::from_str(head);
    r.append(id);
    r.append("`: ");
    r.append(message);
    r
}

impl ProviderBuildError {
    /// The error's text.
    pub fn message(&self) -> (r: String)
        ensures
            r@ == build_error_text(*self),
    {
        match self {
            ProviderBuildError::InvalidConfiguration { message } => {
                let mut r = String::from_str("invalid provider configuration: ");
                r.append(message.as_str());
                r
            },
            ProviderBuildError::ClientConstruction { provider_id, message } => id_message(
                "could not construct HTTP client for provider `",
                provider_id.as_str(),
                message.as_str(),
            ),
            ProviderBuildError::InvalidThrottle { provider_id, message } => id_message(
                "invalid throttle configuration for provider `",
                provider_id.as_str(),
                message.as_str(),
            ),
            ProviderBuildError::UnsupportedQuota { provider_id, message } => id_message(
                "unsupported quota configuration for provider `",
                provider_id.as_str(),
                message.as_str(),
            ),
        }
    }
}

/// The reason a non-text provider's daily token budget is refused.
pub open spec fn budget_refusal_text(provider_kind: Seq<char>) -> Seq<char> {
    "daily_token_budget is supported only by text providers because "@ + provider_kind
        + " usage does not report output tokens"@
}

/// Only text providers report output tokens, so only they may carry a daily
/// token budget.
pub fn reject_non_text_daily_token_budget(
    provider_id: &str,
    provider_kind: &str,
    daily_token_budget: Option<u64>,
) -> (r: Result<(), ProviderBuildError>)
    ensures
        daily_token_budget is None ==> r is Ok,
        daily_token_budget is Some ==> (r matches Err(
            ProviderBuildError::UnsupportedQuota { provider_id: p, message: m },
        ) && p@ == provider_id@ && m@ == budget_refusal_text(provider_kind@)),
{
    if daily_token_budget.is_some() {
        let mut message = String::from_str(
            "daily_token_budget is supported only by text providers because ",
        );
        message.append(provider_kind);
        message.append(" usage does not report output tokens");
        return Err(
            ProviderBuildError::UnsupportedQuota { provider_id: String::from_str(provider_id), message },
        );
    }
    Ok(())
}

/// The daily token budget check for image and TTS providers.
pub fn reject_media_daily_token_budget(provider_id: &str, daily_token_budget: Option<u64>) -> (r: Result<
    (),
    ProviderBuildError,
>)
    ensures
        daily_token_budget is None ==> r is Ok,
        daily_token_budget is Some ==> (r matches Err(
            ProviderBuildError::UnsupportedQuota { provider_id: p, message: m },
        ) && p@ == provider_id@ && m@ == budget_refusal_text("image and TTS"@)),
{
    reject_non_text_daily_token_budget(provider_id, "image and TTS", daily_token_budget)
}

/// The credential of the lenient resolver: none is expected for a blank
/// variable name, and an unset variable gives the empty credential.
#[derive(Clone, Copy, Debug, Default)]
pub struct OptionalEnvCredentialResolver;

impl OptionalEnvCredentialResolver {
    pub fn resolve_value(&self, env_var: &str, value: Option<String>) -> (r: String)
        ensures
            is_blank(env_var@) ==> r@.len() == 0,
            !is_blank(env_var@) ==> r@ == match value {
                Some(v) => v@,
                None => Seq::<char>::empty(),
            },
    {
        if is_blank_str(env_var) {
            return String::new();
        }
        match value {
            Some(v) => v,
            None => String::new(),
        }
    }
}

/// A model listing fetched at `fetched_at` is still fresh at `now` for one
/// hour.
pub const MODEL_DISCOVERY_TTL_SECS: u64 = 3600;

pub fn model_cache_is_fresh(now: u64, fetched_at: u64) -> (r: bool)
    ensures
        r == (fetched_at <= now && now - fetched_at < MODEL_DISCOVERY_TTL_SECS),
{
    now >= fetched_at && now - fetched_at < MODEL_DISCOVERY_TTL_SECS
}

/// Why model discovery failed; the texts carry no credential and no raw
/// upstream body.
#[derive(Clone, Debug, PartialEq, Eq)]
pub enum ModelDiscoveryError {
    MissingCredential { env_var: String },
    Http { code: String, message: String },
    Cache { message: String },
}

impl ModelDiscoveryError {
    pub fn message(&self) -> (r: String)
        ensures
            match self {
                ModelDiscoveryError::MissingCredential { env_var } => r@
                    == "missing provider credential for model discovery: env var `"@ + env_var@
                    + "` is not set"@,
                ModelDiscoveryError::Http { code, message } => r@
                    == "model discovery HTTP request failed (status "@ + code@ + "): "@ + message@,
                ModelDiscoveryError::Cache { message } => r@ == "model discovery cache error: "@
                    + message@,
            },
    {
        match self {
            ModelDiscoveryError::MissingCredential { env_var } => {
                let mut r = String::from_str(
                    "missing provider credential for model discovery: env var `",
                );
                r.append(env_var.as_str());
                r.append("` is not set");
                r
            },
            ModelDiscoveryError::Http { code, message } => {
                let mut r = String::from_str("model discovery HTTP request failed (status ");
                r.append(code.as_str());
                r.append("): ");
                r.append(message.as_str());
                r
            },
            ModelDiscoveryError::Cache { message } => {
                let mut r = String::from_str("model discovery cache error: ");
                r.append(message.as_str());
                r
            },
        }
    }
}

/// The authentication header a `/models` request carries.
#[derive(Clone, Copy, Debug, PartialEq, Eq, Structural)]
pub enum ModelsAuth {
    Bearer,
    ApiKey,
}

/// `{endpoint}/{relative}`, without doubled slashes.
pub fn join_models_endpoint(base_url: &str, relative: &str) -> (r: String)
    ensures
        r@ == joined_endpoint(base_url@, relative@),
{
    join_endpoint(base_url, relative)
}

/// The `/models` URL and authentication of an entry: Anthropic lists at
/// `v1/models` with an API key header, the OpenAI protocols at `models`
/// with a bearer token.
pub fn models_endpoint(entry: &ProviderEntry) -> (r: (String, ModelsAuth))
    ensures
        entry.kind == ProviderKind::AnthropicMessages ==> r.0@ == joined_endpoint(
            entry.endpoint_url@,
            "v1/models"@,
        ) && r.1 == ModelsAuth::ApiKey,
        entry.kind != ProviderKind::AnthropicMessages ==> r.0@ == joined_endpoint(
            entry.endpoint_url@,
            "models"@,
        ) && r.1 == ModelsAuth::Bearer,
{
    match entry.kind {
        ProviderKind::AnthropicMessages => (
            join_models_endpoint(entry.endpoint_url.as_str(), "v1/models"),
            ModelsAuth::ApiKey,
        ),
        _ => (join_models_endpoint(entry.endpoint_url.as_str(), "models"), ModelsAuth::Bearer),
    }
}

/// `{:?}` of a provider kind.
pub open spec fn kind_debug(kind: ProviderKind) -> Seq<char> {
    match kind {
        ProviderKind::OpenAiCompatible => "OpenAiCompatible"@,
        ProviderKind::OpenAiResponses => "OpenAiResponses"@,
        ProviderKind::AnthropicMessages => "AnthropicMessages"@,
    }
}

fn kind_debug_str(kind: ProviderKind) -> (r: &'static str)
    ensures
        r@ == kind_debug(kind),
{
    match kind {
        ProviderKind::OpenAiCompatible => "OpenAiCompatible",
        ProviderKind::OpenAiResponses => "OpenAiResponses",
        ProviderKind::AnthropicMessages => "AnthropicMessages",
    }
}

/// A member read as a string.
pub open spec fn str_member(v: JsonValue, key: Seq<char>) -> Option<Seq<char>> {
    match v {
        JsonValue::Object(es) => match member(es@, key) {
            Some(JsonValue::Str(s)) => Some(s@),
            _ => None,
        },
        _ => None,
    }
}

/// A member read as an unsigned 64-bit integer.
pub open spec fn u64_member(v: JsonValue, key: Seq<char>) -> Option<u64> {
    match v {
        JsonValue::Object(es) => match member(es@, key) {
            Some(JsonValue::Number { as_u64, .. }) => as_u64,
            _ => None,
        },
        _ => None,
    }
}

/// A member read as an unsigned 32-bit integer (absent when it does not fit).
pub open spec fn u32_member(v: JsonValue, key: Seq<char>) -> Option<u32> {
    match u64_member(v, key) {
        Some(n) => if n <= u32::MAX {
            Some(n as u32)
        } else {
            None
        },
        None => None,
    }
}

/// `m` describes listing entry `item`.
pub open spec fn model_info_of(item: JsonValue, m: RemoteModelInfo) -> bool {
    &&& str_member(item, "id"@) == Some(m.id@)
    &&& match (str_member(item, "owned_by"@), m.owned_by) {
        (Some(s), Some(o)) => o@ == s,
        (None, None) => true,
        _ => false,
    }
    &&& m.created == u64_member(item, "created"@)
    &&& m.max_input_tokens == u32_member(item, "max_input_tokens"@)
    &&& m.max_output_tokens == u32_member(item, "max_output_tokens"@)
}

/// The `data` array of a listing.
pub open spec fn listing_data(v: JsonValue) -> Option<Seq<JsonValue>> {
    match v {
        JsonValue::Object(es) => match member(es@, "data"@) {
            Some(JsonValue::Array(items)) => Some(items@),
            _ => None,
        },
        _ => None,
    }
}

/// What the decoder makes of a parsed listing.
pub open spec fn models_decoded(v: JsonValue, kind: ProviderKind, r: Result<Vec<RemoteModelInfo>, ModelDiscoveryError>) -> bool {
    match listing_data(v) {
        None => r matches Err(ModelDiscoveryError::Http { code, message }) && code@ == "decode"@
            && message@ == kind_debug(kind) + " model list response missing `data` array"@,
        Some(items) => if forall|i: int| 0 <= i < items.len() ==> #[trigger] str_member(items[i], "id"@) is Some {
            r matches Ok(models) && models@.len() == items.len() && forall|i: int|
                0 <= i < items.len() ==> model_info_of(items[i], #[trigger] models@[i])
        } else {
            r matches Err(ModelDiscoveryError::Http { code, message }) && code@ == "decode"@
                && message@ == "model list entry missing `id`"@
        },
    }
}

fn member_u32(item: &JsonValue, key: &str) -> (r: Option<u32>)
    ensures
        r == u32_member(*item, key@),
{
    match item.get(key) {
        Some(JsonValue::Number { as_u64: Some(n), .. }) => if *n <= 4294967295u64 {
            Some(*n as u32)
        } else {
            None
        },
        _ => None,
    }
}

fn decode_model(item: &JsonValue) -> (r: Option<RemoteModelInfo>)
    ensures
        match r {
            Some(m) => model_info_of(*item, m),
            None => str_member(*item, "id"@) is None,
        },
{
    let id = match item.get("id") {
        Some(JsonValue::Str(s)) => s.clone(),
        _ => return None,
    };
    let owned_by = match item.get("owned_by") {
        Some(JsonValue::Str(s)) => Some(s.clone()),
        _ => None,
    };
    let created = match item.get("created") {
        Some(JsonValue::Number { as_u64, .. }) => *as_u64,
        _ => None,
    };
    Some(
        RemoteModelInfo {
            id,
            owned_by,
            created,
            max_input_tokens: member_u32(item, "max_input_tokens"),
            max_output_tokens: member_u32(item, "max_output_tokens"),
        },
    )
}

/// Decodes a parsed `/models` listing: every entry of `data` must carry an
/// `id`; the optional fields are read when they have the right type.
pub fn models_from_json(v: &JsonValue, kind: ProviderKind) -> (r: Result<
    Vec<RemoteModelInfo>,
    ModelDiscoveryError,
>)
    ensures
        models_decoded(*v, kind, r),
{
    let data = match v.get("data") {
        Some(JsonValue::Array(items)) => items,
        _ => {
            let mut message = String::from_str(kind_debug_str(kind));
            message.append(" model list response missing `data` array");
            return Err(ModelDiscoveryError::Http { code: String::from_str("decode"), message });
        },
    };
    let mut models: Vec<RemoteModelInfo> = Vec::new();
    let mut i: usize = 0;
    while i < data.len()
        invariant
            i <= data@.len(),
            listing_data(*v) == Some(data@),
            models@.len() == i,
            forall|k: int| 0 <= k < i ==> #[trigger] str_member(data@[k], "id"@) is Some,
            forall|k: int| 0 <= k < i ==> model_info_of(data@[k], #[trigger] models@[k]),
        decreases data@.len() - i,
    {
        match decode_model(&data[i]) {
            Some(m) => models.push(m),
            None => {
                return Err(
                    ModelDiscoveryError::Http {
                        code: String::from_str("decode"),
                        message: String::from_str("model list entry missing `id`"),
                    },
                );
            },
        }
        i = i + 1;
    }
    Ok(models)
}

/// Decodes a `/models` reply body.
pub fn parse_models_response(body: &str, kind: ProviderKind) -> (r: Result<
    Vec<RemoteModelInfo>,
    ModelDiscoveryError,
>)
    ensures
        match json_parse_outcome(body@) {
            Err(m) => r matches Err(ModelDiscoveryError::Http { code, message }) && code@
                == "decode"@ && message@ == "model list response was not JSON: "@ + m,
            Ok(v) => models_decoded(v, kind, r),
        },
{
    match parse_json(body) {
        Err(m) => {
            let mut message = String::from_str("model list response was not JSON: ");
            message.append(m.as_str());
            Err(ModelDiscoveryError::Http { code: String::from_str("decode"), message })
        },
        Ok(v) => models_from_json(&v, kind),
    }
}

} // verus!
