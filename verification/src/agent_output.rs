//! The text-agent output pipeline around one provider call: the prompt
//! check and the request before it, the answer check and JSON repair after
//! it, the envelope checks once the envelope is decoded, and the runtime
//! errors that failures become.

use vstd::prelude::*;
use crate::pipelines::{repair_json_text, repaired_json};
use crate::prompts::ChatMessage;
use crate::providers_text::{TextModelProviderError, TextModelProviderErrorKind, TextModelRequest};
use crate::scene_planner::{agent_role_name, role_name};
use crate::schema::{AgentOutputEnvelope, AgentRole, PayloadKind, ReproducibilityMetadata, RuntimeError};
use crate::shared::{contains_secret_marker_text, has_secret_marker};
use crate::text::{is_blank, is_blank_str, str_eq};

verus! {

/// Why a text-agent call produced no usable envelope.
#[derive(Clone, Debug, PartialEq, Eq)]
pub enum ProviderPipelineError {
    /// The provider call failed.
    Provider(TextModelProviderError),
    /// The answer was not a JSON envelope.
    InvalidJson { agent: AgentRole, message: String },
    /// The prompt, the answer or the envelope broke a rule.
    Validation { agent: AgentRole, message: String },
}

/// The code and message of the runtime error a pipeline failure becomes.
pub open spec fn runtime_error_of(e: ProviderPipelineError) -> (Seq<char>, Seq<char>) {
    match e {
        ProviderPipelineError::Provider(error) => match error.kind {
            TextModelProviderErrorKind::Timeout => (
                "text_provider_timeout"@,
                "text provider timed out: "@ + error.message@,
            ),
            _ => (error.code@, error.message@),
        },
        ProviderPipelineError::InvalidJson { agent, message } => (
            "text_provider_invalid_json"@,
            role_name(agent) + " returned invalid JSON: "@ + message@,
        ),
        ProviderPipelineError::Validation { agent, message } => (
            "text_provider_schema_validation"@,
            role_name(agent) + " returned invalid proposal: "@ + message@,
        ),
    }
}

impl ProviderPipelineError {
    /// The runtime error this failure is reported as (`runtime_error_of`).
    pub fn into_runtime_error(self) -> (r: RuntimeError)
        ensures
            (r.code@, r.message@) == runtime_error_of(self),
    {
        match self {
            ProviderPipelineError::Provider(error) => match error.kind {
                TextModelProviderErrorKind::Timeout => {
                    let mut message = String::from_str("text provider timed out: ");
                    message.append(error.message.as_str());
                    RuntimeError { code: String::from_str("text_provider_timeout"), message }
                },
                _ => RuntimeError { code: error.code, message: error.message },
            },
            ProviderPipelineError::InvalidJson { agent, message } => {
                let mut text = String::from_str(agent_role_name(agent));
                text.append(" returned invalid JSON: ");
                text.append(message.as_str());
                RuntimeError { code: String::from_str("text_provider_invalid_json"), message: text }
            },
            ProviderPipelineError::Validation { agent, message } => {
                let mut text = String::from_str(agent_role_name(agent));
                text.append(" returned invalid proposal: ");
                text.append(message.as_str());
                RuntimeError {
                    code: String::from_str("text_provider_schema_validation"),
                    message: text,
                }
            },
        }
    }
}

/// The name of a payload kind.
pub open spec fn payload_kind_text(kind: PayloadKind) -> Seq<char> {
    match kind {
        PayloadKind::WorldExpansion => "world_expansion"@,
        PayloadKind::StoryCraftPlan => "story_craft_plan"@,
        PayloadKind::CharacterProfile => "character_profile"@,
        PayloadKind::ScenePlan => "scene_plan"@,
        PayloadKind::BeatDrafts => "beat_drafts"@,
        PayloadKind::Review => "review"@,
    }
}

pub fn payload_kind(kind: PayloadKind) -> (r: &'static str)
    ensures
        r@ == payload_kind_text(kind),
{
    match kind {
        PayloadKind::WorldExpansion => "world_expansion",
        PayloadKind::StoryCraftPlan => "story_craft_plan",
        PayloadKind::CharacterProfile => "character_profile",
        PayloadKind::ScenePlan => "scene_plan",
        PayloadKind::BeatDrafts => "beat_drafts",
        PayloadKind::Review => "review",
    }
}

/// `e` is `Validation` for `agent` with message `m`.
pub open spec fn is_validation(e: ProviderPipelineError, agent: AgentRole, m: Seq<char>) -> bool {
    e matches ProviderPipelineError::Validation { agent: a, message } && a == agent && message@ == m
}

/// `e` is `InvalidJson` for `agent` with message `m`.
pub open spec fn is_invalid_json(e: ProviderPipelineError, agent: AgentRole, m: Seq<char>) -> bool {
    e matches ProviderPipelineError::InvalidJson { agent: a, message } && a == agent && message@ == m
}

/// The first rule an envelope breaks, as its message, against the expected
/// agent and the contract and schema versions of this runtime.
pub open spec fn envelope_violation(
    e: AgentOutputEnvelope,
    expected: AgentRole,
    contract_version: Seq<char>,
    schema_version: Seq<char>,
) -> Option<Seq<char>> {
    if e.contract_version@ != contract_version {
        Some(
            "unsupported contract version `"@ + e.contract_version@ + "`, expected `"@
                + contract_version + "`"@,
        )
    } else if e.schema_version@ != schema_version {
        Some(
            "unsupported schema version `"@ + e.schema_version@ + "`, expected `"@ + schema_version
                + "`"@,
        )
    } else if e.agent != expected {
        Some(
            "envelope agent `"@ + role_name(e.agent) + "` did not match requested agent `"@
                + role_name(expected) + "`"@,
        )
    } else if e.proposal_agent != e.agent {
        Some(
            "proposal agent `"@ + role_name(e.proposal_agent) + "` did not match envelope agent `"@
                + role_name(e.agent) + "`"@,
        )
    } else if is_blank(e.reproducibility.prompt_version@) {
        Some("missing prompt_version"@)
    } else if is_blank(e.reproducibility.model_version@) {
        Some("missing model_version"@)
    } else if is_blank(e.reproducibility.provider_config_hash@) {
        Some("missing provider_config_hash"@)
    } else {
        None
    }
}

fn quoted_mismatch(first: &str, a: &str, middle: &str, b: &str) -> (r: String)
    ensures
        r@ == first@ + a@ + middle@ + b@ + "`"@,
{
    let mut r = String::from_str(first);
    r.append(a);
    r.append(middle);
    r.append(b);
    r.append("`");
    r
}

/// Checks an envelope's versions, agents and reproducibility block: `Ok`
/// exactly when `envelope_violation` finds nothing, else its message.
pub fn validate_agent_output_envelope(
    envelope: &AgentOutputEnvelope,
    expected_agent: AgentRole,
    contract_version: &str,
    schema_version: &str,
) -> (r: Result<(), String>)
    ensures
        match envelope_violation(*envelope, expected_agent, contract_version@, schema_version@) {
            None => r is Ok,
            Some(m) => r matches Err(x) && x@ == m,
        },
        r is Ok ==> envelope.contract_version@ == contract_version@ && envelope.schema_version@
            == schema_version@ && envelope.agent == expected_agent && envelope.proposal_agent
            == expected_agent,
{
    if !str_eq(envelope.contract_version.as_str(), contract_version) {
        return Err(
            quoted_mismatch(
                "unsupported contract version `",
                envelope.contract_version.as_str(),
                "`, expected `",
                contract_version,
            ),
        );
    }
    if !str_eq(envelope.schema_version.as_str(), schema_version) {
        return Err(
            quoted_mismatch(
                "unsupported schema version `",
                envelope.schema_version.as_str(),
                "`, expected `",
                schema_version,
            ),
        );
    }
    if envelope.agent != expected_agent {
        return Err(
            quoted_mismatch(
                "envelope agent `",
                agent_role_name(envelope.agent),
                "` did not match requested agent `",
                agent_role_name(expected_agent),
            ),
        );
    }
    if envelope.proposal_agent != envelope.agent {
        return Err(
            quoted_mismatch(
                "proposal agent `",
                agent_role_name(envelope.proposal_agent),
                "` did not match envelope agent `",
                agent_role_name(envelope.agent),
            ),
        );
    }
    if is_blank_str(envelope.reproducibility.prompt_version.as_str()) {
        return Err(String::from_str("missing prompt_version"));
    }
    if is_blank_str(envelope.reproducibility.model_version.as_str()) {
        return Err(String::from_str("missing model_version"));
    }
    if is_blank_str(envelope.reproducibility.provider_config_hash.as_str()) {
        return Err(String::from_str("missing provider_config_hash"));
    }
    Ok(())
}

/// Before the call: a prompt that holds a secret marker is refused.
pub fn check_agent_prompt(agent: AgentRole, prompt: &str) -> (r: Result<(), ProviderPipelineError>)
    ensures
        r is Ok <==> !has_secret_marker(prompt@),
        r matches Err(e) ==> is_validation(
            e,
            agent,
            "text generation prompt contained a secret marker"@,
        ),
{
    if contains_secret_marker_text(prompt) {
        return Err(
            ProviderPipelineError::Validation {
                agent,
                message: String::from_str("text generation prompt contained a secret marker"),
            },
        );
    }
    Ok(())
}

/// The reproducibility identity a text-agent request carries: the
/// provider's own, with a structured template's prompt version in place of
/// the provider's when there is one.
pub fn request_reproducibility(
    provider_reproducibility: ReproducibilityMetadata,
    prompt_version_override: Option<&str>,
) -> (r: ReproducibilityMetadata)
    ensures
        match prompt_version_override {
            Some(v) => r.prompt_version@ == v@ && r == (ReproducibilityMetadata {
                prompt_version: r.prompt_version,
                ..provider_reproducibility
            }),
            None => r == provider_reproducibility,
        },
{
    let mut r = provider_reproducibility;
    match prompt_version_override {
        Some(v) => {
            r.prompt_version = String::from_str(v);
        },
        None => {},
    }
    r
}

/// The request an agent call sends: its ids and prompt, with the run seed
/// and versions of the runtime's reproducibility block.
pub fn agent_model_request(
    agent: AgentRole,
    call_id: &str,
    scene_key: &str,
    prompt: &str,
    messages: Option<Vec<ChatMessage>>,
    reproducibility: &ReproducibilityMetadata,
) -> (r: TextModelRequest)
    ensures
        r.call_id@ == call_id@,
        r.agent == agent,
        r.scene_key@ == scene_key@,
        r.run_seed == reproducibility.run_seed,
        r.prompt_version@ == reproducibility.prompt_version@,
        r.model_version@ == reproducibility.model_version@,
        r.provider_config_hash@ == reproducibility.provider_config_hash@,
        r.prompt@ == prompt@,
        r.messages == messages,
{
    TextModelRequest {
        call_id: String::from_str(call_id),
        agent,
        scene_key: String::from_str(scene_key),
        run_seed: reproducibility.run_seed,
        prompt_version: reproducibility.prompt_version.clone(),
        model_version: reproducibility.model_version.clone(),
        provider_config_hash: reproducibility.provider_config_hash.clone(),
        prompt: String::from_str(prompt),
        messages,
    }
}

/// After the call: an answer that holds a secret marker is refused;
/// otherwise its JSON is recovered (`repaired_json`), or the answer is
/// invalid JSON with the repair's message.
pub fn agent_reply_json(agent: AgentRole, raw_json: &str) -> (r: Result<String, ProviderPipelineError>)
    ensures
        has_secret_marker(raw_json@) ==> (r matches Err(e) && is_validation(
            e,
            agent,
            "provider output contained a secret marker"@,
        )),
        !has_secret_marker(raw_json@) ==> match repaired_json(raw_json@) {
            Ok(text) => r matches Ok(x) && x@ == text,
            Err(m) => r matches Err(e) && is_invalid_json(e, agent, m),
        },
{
    if contains_secret_marker_text(raw_json) {
        return Err(
            ProviderPipelineError::Validation {
                agent,
                message: String::from_str("provider output contained a secret marker"),
            },
        );
    }
    match repair_json_text(raw_json) {
        Ok(text) => Ok(text),
        Err(message) => Err(ProviderPipelineError::InvalidJson { agent, message }),
    }
}

/// Once the envelope is decoded: it is checked (`envelope_violation`), and
/// its reproducibility block is replaced by the runtime's own, which a real
/// provider cannot echo.
pub fn accept_agent_envelope(
    envelope: AgentOutputEnvelope,
    agent: AgentRole,
    reproducibility: ReproducibilityMetadata,
    contract_version: &str,
    schema_version: &str,
) -> (r: Result<AgentOutputEnvelope, ProviderPipelineError>)
    ensures
        match envelope_violation(envelope, agent, contract_version@, schema_version@) {
            Some(m) => r matches Err(e) && is_validation(e, agent, m),
            None => r == Ok::<AgentOutputEnvelope, ProviderPipelineError>(
                AgentOutputEnvelope { reproducibility, ..envelope },
            ),
        },
{
    match validate_agent_output_envelope(&envelope, agent, contract_version, schema_version) {
        Ok(()) => {},
        Err(message) => {
            return Err(ProviderPipelineError::Validation { agent, message });
        },
    }
    Ok(AgentOutputEnvelope { reproducibility, ..envelope })
}

/// The payload an agent's envelope must carry: `Ok` when it does, else a
/// validation failure naming the payload that came.
pub fn expect_payload(agent: AgentRole, envelope: &AgentOutputEnvelope, expected: PayloadKind) -> (r:
    Result<(), ProviderPipelineError>)
    ensures
        r is Ok <==> envelope.payload == expected,
        r matches Err(e) ==> is_validation(
            e,
            agent,
            "unexpected payload `"@ + payload_kind_text(envelope.payload) + "`"@,
        ),
{
    if envelope.payload == expected {
        return Ok(());
    }
    let mut message = String::from_str("unexpected payload `");
    message.append(payload_kind(envelope.payload));
    message.append("`");
    Err(ProviderPipelineError::Validation { agent, message })
}


/// An envelope is accepted exactly when its contract and schema versions
/// are the runtime's, both its agents are the requested one, and its
/// prompt version, model version and provider configuration hash are not
/// blank; an envelope of another schema version (its contract version
/// right) is refused naming both versions.
pub proof fn lemma_envelope_accepted_iff_consistent(
    e: AgentOutputEnvelope,
    expected: AgentRole,
    contract_version: Seq<char>,
    schema_version: Seq<char>,
)
    ensures
        envelope_violation(e, expected, contract_version, schema_version) is None <==> (
        e.contract_version@ == contract_version && e.schema_version@ == schema_version && e.agent
            == expected && e.proposal_agent == expected && !is_blank(e.reproducibility.prompt_version@)
            && !is_blank(e.reproducibility.model_version@) && !is_blank(
            e.reproducibility.provider_config_hash@,
        )),
        e.contract_version@ == contract_version && e.schema_version@ != schema_version
            ==> envelope_violation(e, expected, contract_version, schema_version) == Some(
            "unsupported schema version `"@ + e.schema_version@ + "`, expected `"@ + schema_version
                + "`"@,
        ),
{
}
} // verus!
