//! Text model provider interface: requests, responses, errors, the local provider
//! configuration with its validation and hash, credential resolution
//! outcomes, and the configured provider adapter.

use vstd::prelude::*;
use crate::prompts::ChatMessage;
use crate::schema::{AgentRole, ReproducibilityMetadata};
use crate::shared::{
    contains_secret_marker_text, has_secret_marker, hex_lower, sha256_utf8, stable_sha256_hash,
};
use crate::text::{
    all_upper_digit_underscore, is_blank, is_blank_str, starts_with_seq, str_starts_with,
    upper_digit_underscore_only,
};

verus! {

/// A request to a text model.
#[derive(Clone, Debug, PartialEq, Eq)]
pub struct TextModelRequest {
    pub call_id: String,
    pub agent: AgentRole,
    pub scene_key: String,
    pub run_seed: u64,
    pub prompt_version: String,
    pub model_version: String,
    pub provider_config_hash: String,
    pub prompt: String,
    /// `None`: the single `prompt` path; `Some`: a structured chat turn.
    pub messages: Option<Vec<ChatMessage>>,
}

/// A text model's raw answer.
#[derive(Clone, Debug, PartialEq, Eq)]
pub struct TextModelResponse {
    pub raw_json: String,
}

impl TextModelResponse {
    pub fn json(raw_json: &str) -> (r: TextModelResponse)
        ensures
            r.raw_json@ == raw_json@,
    {
        TextModelResponse { raw_json: String::from_str(raw_json) }
    }
}

/// Failure classes of a text provider call.
#[derive(Clone, Debug, PartialEq, Eq)]
pub enum TextModelProviderErrorKind {
    Provider,
    Timeout,
    /// HTTP 429, with the server-advised delay in milliseconds when present.
    RateLimit { retry_after_ms: Option<u64> },
    /// The provider refused the request on content-policy grounds.
    ContentFiltered { reason: String },
    /// The provider stopped at its output token limit.
    OutputTruncated { output_tokens: Option<u64> },
}

/// Transient failure classes are retried; content filtering and truncation
/// reproduce on retry and are not.
pub open spec fn kind_is_retryable(kind: TextModelProviderErrorKind) -> bool {
    match kind {
        TextModelProviderErrorKind::Provider => true,
        TextModelProviderErrorKind::Timeout => true,
        TextModelProviderErrorKind::RateLimit { .. } => true,
        _ => false,
    }
}

impl TextModelProviderErrorKind {
    pub fn is_retryable(&self) -> (r: bool)
        ensures
            r == kind_is_retryable(*self),
    {
        match self {
            TextModelProviderErrorKind::Provider => true,
            TextModelProviderErrorKind::Timeout => true,
            TextModelProviderErrorKind::RateLimit { .. } => true,
            TextModelProviderErrorKind::ContentFiltered { .. } => false,
            TextModelProviderErrorKind::OutputTruncated { .. } => false,
        }
    }
}

/// A redaction-safe text provider failure.
#[derive(Clone, Debug, PartialEq, Eq)]
pub struct TextModelProviderError {
    pub kind: TextModelProviderErrorKind,
    pub code: String,
    pub message: String,
}

impl TextModelProviderError {
    pub fn provider(code: &str, message: &str) -> (r: TextModelProviderError)
        ensures
            r.kind == TextModelProviderErrorKind::Provider,
            r.code@ == code@,
            r.message@ == message@,
    {
        TextModelProviderError {
            kind: TextModelProviderErrorKind::Provider,
            code: String::from_str(code),
            message: String::from_str(message),
        }
    }

    pub fn timeout(message: &str) -> (r: TextModelProviderError)
        ensures
            r.kind == TextModelProviderErrorKind::Timeout,
            r.code@ == "text_provider_timeout"@,
            r.message@ == message@,
    {
        TextModelProviderError {
            kind: TextModelProviderErrorKind::Timeout,
            code: String::from_str("text_provider_timeout"),
            message: String::from_str(message),
        }
    }

    pub fn rate_limit(retry_after_ms: Option<u64>, message: &str) -> (r: TextModelProviderError)
        ensures
            r.kind == (TextModelProviderErrorKind::RateLimit { retry_after_ms }),
            r.code@ == "text_provider_rate_limit"@,
            r.message@ == message@,
    {
        TextModelProviderError {
            kind: TextModelProviderErrorKind::RateLimit { retry_after_ms },
            code: String::from_str("text_provider_rate_limit"),
            message: String::from_str(message),
        }
    }

    pub fn content_filtered(reason: &str) -> (r: TextModelProviderError)
        ensures
            r.kind matches TextModelProviderErrorKind::ContentFiltered { reason: rr } && rr@
                == reason@,
            r.code@ == "text_provider_content_filtered"@,
            r.message@ == "content policy triggered; modify prompt"@,
    {
        TextModelProviderError {
            kind: TextModelProviderErrorKind::ContentFiltered { reason: String::from_str(reason) },
            code: String::from_str("text_provider_content_filtered"),
            message: String::from_str("content policy triggered; modify prompt"),
        }
    }

    pub fn output_truncated(output_tokens: Option<u64>) -> (r: TextModelProviderError)
        ensures
            r.kind == (TextModelProviderErrorKind::OutputTruncated { output_tokens }),
            r.code@ == "text_provider_output_truncated"@,
            r.message@ == "output truncated at max_tokens; raise max_output_tokens"@,
    {
        TextModelProviderError {
            kind: TextModelProviderErrorKind::OutputTruncated { output_tokens },
            code: String::from_str("text_provider_output_truncated"),
            message: String::from_str("output truncated at max_tokens; raise max_output_tokens"),
        }
    }
}

/// A text model provider. Implementations supply their reproducibility
/// identity and complete requests.
pub trait TextModelProvider {
    /// `r` is an answer this provider may give to `request`. A provider
    /// that states nothing of its answers keeps the default, which admits
    /// every answer.
    open spec fn replies(
        &self,
        request: TextModelRequest,
        r: Result<TextModelResponse, TextModelProviderError>,
    ) -> bool {
        true
    }

    fn reproducibility_metadata(&self, run_seed: u64) -> ReproducibilityMetadata;

    fn complete(&self, request: &TextModelRequest) -> (r: Result<
        TextModelResponse,
        TextModelProviderError,
    >)
        ensures
            self.replies(*request, r),
    ;
}

/// Local configuration of a text provider.
#[derive(Clone, Debug, PartialEq, Eq)]
pub struct TextProviderConfig {
    pub enabled: bool,
    pub provider: String,
    pub model: String,
    pub endpoint_url: Option<String>,
    pub credential_env_var: String,
    pub max_output_tokens: Option<u32>,
    pub supports_json_schema: bool,
}

/// The first rule a configuration breaks, as `(field, reason)`.
pub open spec fn config_violation(c: TextProviderConfig) -> Option<(Seq<char>, Seq<char>)> {
    if let Some(v) = field_violation("provider"@, c.provider@) {
        Some(v)
    } else if let Some(v) = field_violation("model"@, c.model@) {
        Some(v)
    } else if c.endpoint_url is Some && field_violation(
        "endpoint_url"@,
        c.endpoint_url->0@,
    ) is Some {
        field_violation("endpoint_url"@, c.endpoint_url->0@)
    } else if c.endpoint_url is Some && !starts_with_seq(c.endpoint_url->0@, "https://"@)
        && !starts_with_seq(c.endpoint_url->0@, "http://"@) {
        Some(("endpoint_url"@, "must start with http:// or https://"@))
    } else if !is_blank(c.credential_env_var@) && !upper_digit_underscore_only(
        c.credential_env_var@,
    ) {
        Some(
            (
                "credential_env_var"@,
                "must contain only uppercase ASCII letters, digits, or underscores"@,
            ),
        )
    } else {
        None
    }
}

/// A configuration field must be non-blank and free of credential markers.
pub open spec fn field_violation(field: Seq<char>, value: Seq<char>) -> Option<
    (Seq<char>, Seq<char>),
> {
    if is_blank(value) {
        Some((field, "must not be empty"@))
    } else if has_secret_marker(value) {
        Some((field, "must not contain secret markers"@))
    } else {
        None
    }
}

/// Rendering of a `bool` by `Display`.
pub open spec fn bool_text(b: bool) -> Seq<char> {
    if b {
        "true"@
    } else {
        "false"@
    }
}

/// The text hashed into a configuration's reproducibility hash.
pub open spec fn config_hash_input(c: TextProviderConfig) -> Seq<char> {
    "enabled="@ + bool_text(c.enabled) + "\nprovider="@ + c.provider@ + "\nmodel="@ + c.model@
        + "\nendpoint_url="@ + (if c.endpoint_url is Some {
        c.endpoint_url->0@
    } else {
        Seq::<char>::empty()
    }) + "\ncredential_env_var="@ + c.credential_env_var@ + "\n"@
}

/// The reproducibility hash of a configuration identifies the provider by
/// its enabled flag, provider, model, endpoint and the name of its
/// credential variable: two configurations that agree on these share their
/// hash input (hence their hash), whatever their output cap or JSON-schema
/// support.
pub proof fn lemma_config_hash_ignores_limits(a: TextProviderConfig, b: TextProviderConfig)
    requires
        a.enabled == b.enabled,
        a.provider@ == b.provider@,
        a.model@ == b.model@,
        (a.endpoint_url is Some) == (b.endpoint_url is Some),
        a.endpoint_url is Some ==> a.endpoint_url->0@ == b.endpoint_url->0@,
        a.credential_env_var@ == b.credential_env_var@,
    ensures
        config_hash_input(a) == config_hash_input(b),
        hex_lower(sha256_utf8(config_hash_input(a))) == hex_lower(sha256_utf8(config_hash_input(b))),
{
}

pub fn bool_str(b: bool) -> (r: &'static str)
    ensures
        r@ == bool_text(b),
{
    if b {
        "true"
    } else {
        "false"
    }
}

fn require_safe_config_field(field: &'static str, value: &str) -> (r: Result<
    (),
    TextProviderConfigError,
>)
    ensures
        match field_violation(field@, value@) {
            None => r is Ok,
            Some((f, reason)) => r matches Err(TextProviderConfigError::InvalidField {
                field: ff,
                reason: rr,
            }) && ff@ == f && rr@ == reason,
        },
{
    if is_blank_str(value) {
        return Err(
            TextProviderConfigError::InvalidField {
                field,
                reason: String::from_str("must not be empty"),
            },
        );
    }
    if contains_secret_marker_text(value) {
        return Err(
            TextProviderConfigError::InvalidField {
                field,
                reason: String::from_str("must not contain secret markers"),
            },
        );
    }
    Ok(())
}

impl TextProviderConfig {
    pub fn disabled() -> (r: TextProviderConfig)
        ensures
            !r.enabled,
            r.provider@ == "disabled"@,
            r.model@ == "disabled"@,
            r.endpoint_url is None,
            r.credential_env_var@ == "PLOTFORGE_TEXT_PROVIDER_TOKEN"@,
            r.max_output_tokens is None,
            !r.supports_json_schema,
    {
        TextProviderConfig {
            enabled: false,
            provider: String::from_str("disabled"),
            model: String::from_str("disabled"),
            endpoint_url: None,
            credential_env_var: String::from_str("PLOTFORGE_TEXT_PROVIDER_TOKEN"),
            max_output_tokens: None,
            supports_json_schema: false,
        }
    }

    pub fn openai_compatible(
        provider: &str,
        model: &str,
        endpoint_url: &str,
        credential_env_var: &str,
    ) -> (r: TextProviderConfig)
        ensures
            r.enabled,
            r.provider@ == provider@,
            r.model@ == model@,
            r.endpoint_url matches Some(e) && e@ == endpoint_url@,
            r.credential_env_var@ == credential_env_var@,
            r.max_output_tokens is None,
            !r.supports_json_schema,
    {
        TextProviderConfig {
            enabled: true,
            provider: String::from_str(provider),
            model: String::from_str(model),
            endpoint_url: Some(String::from_str(endpoint_url)),
            credential_env_var: String::from_str(credential_env_var),
            max_output_tokens: None,
            supports_json_schema: false,
        }
    }

    /// Checks, in order: `provider` and `model` are non-blank and free of
    /// credential markers; an `endpoint_url`, when present, likewise and
    /// starts with `http://` or `https://`; `credential_env_var` is blank (a
    /// local endpoint without authentication) or made only of uppercase ASCII
    /// letters, digits and underscores.
    pub fn validate(&self) -> (r: Result<(), TextProviderConfigError>)
        ensures
            match config_violation(*self) {
                None => r is Ok,
                Some((f, reason)) => r matches Err(TextProviderConfigError::InvalidField {
                    field: ff,
                    reason: rr,
                }) && ff@ == f && rr@ == reason,
            },
    {
        require_safe_config_field("provider", self.provider.as_str())?;
        require_safe_config_field("model", self.model.as_str())?;
        if let Some(endpoint_url) = &self.endpoint_url {
            require_safe_config_field("endpoint_url", endpoint_url.as_str())?;
            if !str_starts_with(endpoint_url.as_str(), "https://") && !str_starts_with(
                endpoint_url.as_str(),
                "http://",
            ) {
                return Err(
                    TextProviderConfigError::InvalidField {
                        field: "endpoint_url",
                        reason: String::from_str("must start with http:// or https://"),
                    },
                );
            }
        }
        if !is_blank_str(self.credential_env_var.as_str()) && !all_upper_digit_underscore(
            self.credential_env_var.as_str(),
        ) {
            return Err(
                TextProviderConfigError::InvalidField {
                    field: "credential_env_var",
                    reason: String::from_str(
                        "must contain only uppercase ASCII letters, digits, or underscores",
                    ),
                },
            );
        }
        Ok(())
    }

    /// `sha256:` followed by the hex SHA-256 of the enabled flag, provider,
    /// model, endpoint and credential variable name (never a credential).
    pub fn provider_config_hash(&self) -> (r: String)
        ensures
            r@ == "sha256:"@ + hex_lower(sha256_utf8(config_hash_input(*self))),
    {
        let mut input = String::from_str("enabled=");
        input.append(bool_str(self.enabled));
        input.append("\nprovider=");
        input.append(self.provider.as_str());
        input.append("\nmodel=");
        input.append(self.model.as_str());
        input.append("\nendpoint_url=");
        match &self.endpoint_url {
            Some(endpoint_url) => input.append(endpoint_url.as_str()),
            None => {},
        }
        input.append("\ncredential_env_var=");
        input.append(self.credential_env_var.as_str());
        input.append("\n");
        assert(input@ =~= config_hash_input(*self));
        let hash = stable_sha256_hash(input.as_str());
        let mut r = String::from_str("sha256:");
        r.append(hash.as_str());
        r
    }

    /// Reproducibility identity of runs made through this configuration.
    pub fn reproducibility_metadata(&self, run_seed: u64) -> (r: ReproducibilityMetadata)
        ensures
            r.run_seed == run_seed,
            r.prompt_version@ == crate::prompts::TEXT_PROMPT_VERSION@,
            r.model_version@ == self.model@,
            r.provider_config_hash@ == "sha256:"@ + hex_lower(
                sha256_utf8(config_hash_input(*self)),
            ),
            r.trace_id is None,
            r.snapshot_id is None,
            r.mcp_tool_call_hash is None,
    {
        ReproducibilityMetadata {
            run_seed,
            prompt_version: String::from_str(crate::prompts::TEXT_PROMPT_VERSION),
            model_version: self.model.clone(),
            provider_config_hash: self.provider_config_hash(),
            trace_id: None,
            snapshot_id: None,
            mcp_tool_call_hash: None,
        }
    }
}

/// A configuration field broke a rule.
#[derive(Clone, Debug, PartialEq, Eq)]
pub enum TextProviderConfigError {
    InvalidField { field: &'static str, reason: String },
}

impl TextProviderConfigError {
    /// `invalid text provider config field {field}: {reason}`.
    pub fn message(&self) -> (r: String)
        ensures
            match self {
                TextProviderConfigError::InvalidField { field, reason } => r@
                    == "invalid text provider config field "@ + field@ + ": "@ + reason@,
            },
    {
        match self {
            TextProviderConfigError::InvalidField { field, reason } => {
                let mut r = String::from_str("invalid text provider config field ");
                r.append(field);
                r.append(": ");
                r.append(reason.as_str());
                r
            },
        }
    }
}

/// Why a credential could not be had.
#[derive(Clone, Debug, PartialEq, Eq)]
pub enum ProviderCredentialError {
    Missing { env_var: String },
    Empty { env_var: String },
}

/// The text of a credential error; it names the variable, never a value.
pub open spec fn credential_error_text(e: ProviderCredentialError) -> Seq<char> {
    match e {
        ProviderCredentialError::Missing { env_var } => "missing provider credential in env var `"@
            + env_var@ + "`"@,
        ProviderCredentialError::Empty { env_var } => "provider credential env var `"@ + env_var@
            + "` is empty"@,
    }
}

impl ProviderCredentialError {
    /// The error's text; it names the variable, never a value.
    pub fn message(&self) -> (r: String)
        ensures
            r@ == credential_error_text(*self),
    {
        match self {
            ProviderCredentialError::Missing { env_var } => {
                let mut r = String::from_str("missing provider credential in env var `");
                r.append(env_var.as_str());
                r.append("`");
                r
            },
            ProviderCredentialError::Empty { env_var } => {
                let mut r = String::from_str("provider credential env var `");
                r.append(env_var.as_str());
                r.append("` is empty");
                r
            },
        }
    }
}

/// Resolves the credential stored under an environment variable name.
pub trait ProviderCredentialResolver {
    /// `r` is what this resolver may answer for `env_var`. A resolver that
    /// states nothing of its answers keeps the default, which admits every
    /// answer.
    open spec fn resolves(&self, env_var: Seq<char>, r: Result<String, ProviderCredentialError>) -> bool {
        true
    }

    fn resolve(&self, env_var: &str) -> (r: Result<String, ProviderCredentialError>)
        ensures
            self.resolves(env_var@, r),
    ;
}

/// The strict resolver: a missing or blank variable is an error.
#[derive(Clone, Copy, Debug, Default)]
pub struct EnvCredentialResolver;

impl EnvCredentialResolver {
    /// A set, non-blank value is the credential; a blank one is `Empty`, an
    /// unset one `Missing`.
    pub fn resolve_value(&self, env_var: &str, value: Option<String>) -> (r: Result<
        String,
        ProviderCredentialError,
    >)
        ensures
            match value {
                Some(v) => if !is_blank(v@) {
                    r == Ok::<String, ProviderCredentialError>(v)
                } else {
                    r matches Err(ProviderCredentialError::Empty { env_var: e }) && e@ == env_var@
                },
                None => r matches Err(ProviderCredentialError::Missing { env_var: e }) && e@
                    == env_var@,
            },
    {
        match value {
            Some(v) => if !is_blank_str(v.as_str()) {
                Ok(v)
            } else {
                Err(ProviderCredentialError::Empty { env_var: String::from_str(env_var) })
            },
            None => Err(ProviderCredentialError::Missing { env_var: String::from_str(env_var) }),
        }
    }
}

/// What a text client is handed for one call.
pub struct TextModelClientRequest<'a> {
    pub config: &'a TextProviderConfig,
    pub credential: &'a str,
    pub request: &'a TextModelRequest,
}

/// The transport of a text provider (an HTTP client, or a test double).
pub trait TextModelClient {
    /// `r` is what this client may answer when called with `config`, the
    /// credential `credential` and `request`. A client that states nothing
    /// of its answers keeps the default, which admits every answer.
    open spec fn answers(
        &self,
        config: TextProviderConfig,
        credential: Seq<char>,
        request: TextModelRequest,
        r: Result<TextModelResponse, TextModelProviderError>,
    ) -> bool {
        true
    }

    fn complete(&self, request: TextModelClientRequest<'_>) -> (r: Result<
        TextModelResponse,
        TextModelProviderError,
    >)
        ensures
            self.answers(*request.config, request.credential@, *request.request, r),
    ;
}

/// A text provider made of a local configuration, a transport and a
/// credential resolver. It checks the configuration, the enabled flag and
/// the prompt before any credential is read or any request is sent.
#[derive(Clone, Debug)]
pub struct ConfiguredTextModelProvider<C, R> {
    pub config: TextProviderConfig,
    pub client: C,
    pub credential_resolver: R,
}

/// The error that a configured provider answers before it calls out, if
/// any: `(code, message)`.
pub open spec fn configured_precheck(c: TextProviderConfig, prompt: Seq<char>) -> Option<
    (Seq<char>, Seq<char>),
> {
    match config_violation(c) {
        Some((f, reason)) => Some(
            ("text_provider_config"@, "invalid text provider config field "@ + f + ": "@ + reason),
        ),
        None => if !c.enabled {
            Some(("text_provider_disabled"@, "text provider is disabled by local configuration"@))
        } else if has_secret_marker(prompt) {
            Some(("text_provider_prompt_secret"@, "text model prompt contained a secret marker"@))
        } else {
            None
        },
    }
}

/// What a configured provider answers to `request`: the precheck error when
/// there is one; otherwise the credential is resolved, a resolver failure is
/// `text_provider_missing_credential` with the resolver's text, and a
/// resolved credential goes to the client with the provider's configuration
/// and the request, whose answer is the provider's.
pub open spec fn configured_reply<C: TextModelClient, R: ProviderCredentialResolver>(
    p: ConfiguredTextModelProvider<C, R>,
    request: TextModelRequest,
    r: Result<TextModelResponse, TextModelProviderError>,
) -> bool {
    match configured_precheck(p.config, request.prompt@) {
        Some((code, message)) => r matches Err(e) && e.kind == TextModelProviderErrorKind::Provider
            && e.code@ == code && e.message@ == message,
        None => exists|c: Result<String, ProviderCredentialError>|
            #[trigger] p.credential_resolver.resolves(p.config.credential_env_var@, c) && match c {
                Err(ce) => r matches Err(x) && x.kind == TextModelProviderErrorKind::Provider
                    && x.code@ == "text_provider_missing_credential"@ && x.message@
                    == credential_error_text(ce),
                Ok(cred) => p.client.answers(p.config, cred@, request, r),
            },
    }
}

impl<C, R> ConfiguredTextModelProvider<C, R> {
    pub fn new(config: TextProviderConfig, client: C, credential_resolver: R) -> (r: Self)
        ensures
            r.config == config,
            r.client == client,
            r.credential_resolver == credential_resolver,
    {
        ConfiguredTextModelProvider { config, client, credential_resolver }
    }

    pub fn config(&self) -> (r: &TextProviderConfig)
        ensures
            *r == self.config,
    {
        &self.config
    }
}

impl<C: TextModelClient, R: ProviderCredentialResolver> TextModelProvider for ConfiguredTextModelProvider<
    C,
    R,
> {
    open spec fn replies(
        &self,
        request: TextModelRequest,
        r: Result<TextModelResponse, TextModelProviderError>,
    ) -> bool {
        configured_reply(*self, request, r)
    }

    fn reproducibility_metadata(&self, run_seed: u64) -> (r: ReproducibilityMetadata)
        ensures
            r.run_seed == run_seed,
            r.prompt_version@ == crate::prompts::TEXT_PROMPT_VERSION@,
            r.model_version@ == self.config.model@,
            r.provider_config_hash@ == "sha256:"@ + hex_lower(
                sha256_utf8(config_hash_input(self.config)),
            ),
    {
        self.config.reproducibility_metadata(run_seed)
    }

    /// Checks the configuration, the enabled flag and the prompt; then
    /// resolves the credential (a failure is `text_provider_missing_credential`
    /// with the resolver's text) and hands the call to the client.
    fn complete(&self, request: &TextModelRequest) -> (r: Result<
        TextModelResponse,
        TextModelProviderError,
    >)
        ensures
            configured_reply(*self, *request, r),
    {
        match self.config.validate() {
            Ok(()) => {},
            Err(error) => {
                let message = error.message();
                return Err(TextModelProviderError::provider("text_provider_config", message.as_str()));
            },
        }
        if !self.config.enabled {
            return Err(
                TextModelProviderError::provider(
                    "text_provider_disabled",
                    "text provider is disabled by local configuration",
                ),
            );
        }
        if contains_secret_marker_text(request.prompt.as_str()) {
            return Err(
                TextModelProviderError::provider(
                    "text_provider_prompt_secret",
                    "text model prompt contained a secret marker",
                ),
            );
        }
        let resolved = self.credential_resolver.resolve(self.config.credential_env_var.as_str());
        let ghost c0 = resolved;
        let credential = match resolved {
            Ok(c) => c,
            Err(error) => {
                let message = error.message();
                return Err(
                    TextModelProviderError::provider(
                        "text_provider_missing_credential",
                        message.as_str(),
                    ),
                );
            },
        };
        self.client.complete(
            TextModelClientRequest {
                config: &self.config,
                credential: credential.as_str(),
                request,
            },
        )
    }
}

} // verus!
