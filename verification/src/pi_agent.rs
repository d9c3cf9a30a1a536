//! pi-Agent facade rules: request validation, the user message with project
//! context, the deterministic trace-evidence identity, and the capability
//! list the facade advertises.

use vstd::prelude::*;
use crate::agent_output::{payload_kind, payload_kind_text, runtime_error_of, ProviderPipelineError};
use crate::schema::{AgentOutputEnvelope, ReproducibilityMetadata};
use crate::shared::{
    contains_secret_marker_text, has_secret_marker, hex_lower, secret_markers, sha256_utf8,
    stable_sha256_hash,
};
use crate::text::{
    ascii_lower, ascii_lower_seq, contains_seq, decimal_string, is_blank, is_blank_str, occurs_at,
    str_eq, trim, trim_seq, u64_to_string,
};

verus! {

/// pi-Agent failures; none carries a raw provider response or secret.
#[derive(Clone, Debug, PartialEq, Eq)]
pub enum PiAgentError {
    AgentIdMismatch { facade: String, request: String },
    PromptSecretMarker,
    EmptyPromptHash,
    Provider { code: String, message: String },
    UnsupportedPayloadKind { kind: String },
}

pub open spec fn pi_agent_error_text(e: PiAgentError) -> Seq<char> {
    match e {
        PiAgentError::AgentIdMismatch { facade, request } => "pi-agent request agent_id `"@
            + request@ + "` did not match facade agent_id `"@ + facade@ + "`"@,
        PiAgentError::PromptSecretMarker =>
            "pi-agent request prompt summary contained a secret marker"@,
        PiAgentError::EmptyPromptHash => "pi-agent request prompt hash must not be empty"@,
        PiAgentError::Provider { code, message } => "pi-agent provider failure: "@ + code@ + ": "@
            + message@,
        PiAgentError::UnsupportedPayloadKind { kind } =>
            "pi-agent envelope carried unsupported payload kind `"@ + kind@ + "`"@,
    }
}

impl PiAgentError {
    /// The error's text.
    pub fn message(&self) -> (r: String)
        ensures
            r@ == pi_agent_error_text(*self),
    {
        match self {
            PiAgentError::AgentIdMismatch { facade, request } => {
                let mut r = String::from_str("pi-agent request agent_id `");
                r.append(request.as_str());
                r.append("` did not match facade agent_id `");
                r.append(facade.as_str());
                r.append("`");
                r
            },
            PiAgentError::PromptSecretMarker => String::from_str(
                "pi-agent request prompt summary contained a secret marker",
            ),
            PiAgentError::EmptyPromptHash => String::from_str(
                "pi-agent request prompt hash must not be empty",
            ),
            PiAgentError::Provider { code, message } => {
                let mut r = String::from_str("pi-agent provider failure: ");
                r.append(code.as_str());
                r.append(": ");
                r.append(message.as_str());
                r
            },
            PiAgentError::UnsupportedPayloadKind { kind } => {
                let mut r = String::from_str("pi-agent envelope carried unsupported payload kind `");
                r.append(kind.as_str());
                r.append("`");
                r
            },
        }
    }
}

/// A redaction-safe pi-Agent run request.
#[derive(Clone, Debug, PartialEq, Eq)]
pub struct PiAgentRunRequest {
    pub agent_id: String,
    pub run_seed: u64,
    pub prompt_summary: String,
    pub prompt_hash: String,
}

/// Checks a request against the facade's identity, in order: the agent id
/// must match, the prompt hash must not be blank, the prompt summary must
/// carry no secret marker.
pub fn check_pi_agent_request(facade_agent_id: &str, request: &PiAgentRunRequest) -> (r: Result<
    (),
    PiAgentError,
>)
    ensures
        request.agent_id@ != facade_agent_id@ ==> (r matches Err(
            PiAgentError::AgentIdMismatch { facade, request: req },
        ) && facade@ == facade_agent_id@ && req@ == request.agent_id@),
        request.agent_id@ == facade_agent_id@ && is_blank(request.prompt_hash@) ==> r == Err::<
            (),
            PiAgentError,
        >(PiAgentError::EmptyPromptHash),
        request.agent_id@ == facade_agent_id@ && !is_blank(request.prompt_hash@) && has_secret_marker(
            request.prompt_summary@,
        ) ==> r == Err::<(), PiAgentError>(PiAgentError::PromptSecretMarker),
        request.agent_id@ == facade_agent_id@ && !is_blank(request.prompt_hash@)
            && !has_secret_marker(request.prompt_summary@) ==> r is Ok,
{
    if !str_eq(request.agent_id.as_str(), facade_agent_id) {
        return Err(
            PiAgentError::AgentIdMismatch {
                facade: String::from_str(facade_agent_id),
                request: request.agent_id.clone(),
            },
        );
    }
    if is_blank_str(request.prompt_hash.as_str()) {
        return Err(PiAgentError::EmptyPromptHash);
    }
    if contains_secret_marker_text(request.prompt_summary.as_str()) {
        return Err(PiAgentError::PromptSecretMarker);
    }
    Ok(())
}

/// The user message of a run with project context: the player's input
/// alone when the context is blank, else the trimmed input, a blank line,
/// and the context.
pub open spec fn user_message_text(prompt_summary: Seq<char>, context: Seq<char>) -> Seq<char> {
    if is_blank(context) {
        prompt_summary
    } else {
        trim_seq(prompt_summary) + "\n\n"@ + context
    }
}

pub fn pi_agent_user_message(prompt_summary: &str, context: &str) -> (r: String)
    ensures
        r@ == user_message_text(prompt_summary@, context@),
{
    if is_blank_str(context) {
        String::from_str(prompt_summary)
    } else {
        let mut r = String::from_str(trim(prompt_summary));
        r.append("\n\n");
        r.append(context);
        r
    }
}

/// The deterministic trace-evidence id of a run:
/// `pi-agent-evidence-` and the hex SHA-256 of `{agent_id}:{run_seed}`.
pub fn pi_agent_trace_evidence_id(agent_id: &str, run_seed: u64) -> (r: String)
    ensures
        r@ == "pi-agent-evidence-"@ + hex_lower(
            sha256_utf8(agent_id@ + ":"@ + decimal_string(run_seed as nat)),
        ),
{
    let mut input = String::from_str(agent_id);
    input.append(":");
    input.append(u64_to_string(run_seed).as_str());
    let mut r = String::from_str("pi-agent-evidence-");
    r.append(stable_sha256_hash(input.as_str()).as_str());
    r
}

/// The call id and scene key of a one-shot run.
pub fn pi_agent_call_id(agent_id: &str, run_seed: u64) -> (r: (String, String))
    ensures
        r.0@ == "pi-agent-"@ + agent_id@ + "-"@ + decimal_string(run_seed as nat),
        r.1@ == "pi-agent-"@ + agent_id@,
{
    let mut call_id = String::from_str("pi-agent-");
    call_id.append(agent_id);
    call_id.append("-");
    call_id.append(u64_to_string(run_seed).as_str());
    let mut scene_key = String::from_str("pi-agent-");
    scene_key.append(agent_id);
    (call_id, scene_key)
}

/// One capability the facade advertises, and whether it is wired.
#[derive(Clone, Debug, PartialEq, Eq)]
pub struct PiAgentCapability {
    pub id: String,
    pub label: String,
    pub status: String,
    pub source: String,
    pub evidence: String,
}

fn capability(id: &str, label: &str, status: &str, source: &str, evidence: &str) -> (r: PiAgentCapability)
    ensures
        r.id@ == id@,
        r.label@ == label@,
        r.status@ == status@,
        r.source@ == source@,
        r.evidence@ == evidence@,
{
    PiAgentCapability {
        id: String::from_str(id),
        label: String::from_str(label),
        status: String::from_str(status),
        source: String::from_str(source),
        evidence: String::from_str(evidence),
    }
}

/// A text whose lowercase has no `y`, `:` or `=`, and neither `be` nor `k-`,
/// carries no credential marker: each marker holds one of these.
proof fn lemma_marker_free(t: Seq<char>)
    requires
        forall|j: int|
            0 <= j < t.len() ==> ascii_lower(#[trigger] t[j]) != 'y' && ascii_lower(t[j]) != ':'
                && ascii_lower(t[j]) != '=',
        forall|j: int|
            0 <= j < t.len() - 1 ==> !(ascii_lower(#[trigger] t[j]) == 'b' && ascii_lower(t[j + 1])
                == 'e') && !(ascii_lower(t[j]) == 'k' && ascii_lower(t[j + 1]) == '-'),
    ensures
        !has_secret_marker(t),
{
    let h = ascii_lower_seq(t);
    reveal_strlit("sk-");
    reveal_strlit("api_key");
    reveal_strlit("secret_key");
    reveal_strlit("openai_api_key");
    reveal_strlit("authorization:");
    reveal_strlit("bearer");
    reveal_strlit("token=");
    assert forall|i: int| 0 <= i < secret_markers().len() implies !contains_seq(
        h,
        #[trigger] secret_markers()[i],
    ) by {
        let m = secret_markers()[i];
        if contains_seq(h, m) {
            let p = choose|p: int| occurs_at(h, m, p);
            let sub = h.subrange(p, p + m.len());
            assert(sub == m);
            assert(h.len() == t.len());
            if i == 0 {
                assert(m == "sk-"@);
                assert(m[1] == 'k' && m[2] == '-');
                assert(sub[1] == h[p + 1] && sub[2] == h[p + 2]);
                assert(h[p + 1] == ascii_lower(t[p + 1]) && h[p + 2] == ascii_lower(t[p + 2]));
            } else if i == 5 {
                assert(m == "bearer"@);
                assert(m[0] == 'b' && m[1] == 'e');
                assert(sub[0] == h[p] && sub[1] == h[p + 1]);
                assert(h[p] == ascii_lower(t[p]) && h[p + 1] == ascii_lower(t[p + 1]));
            } else {
                let k: int = if i == 1 {
                    6
                } else if i == 2 {
                    9
                } else if i == 3 {
                    13
                } else if i == 4 {
                    13
                } else {
                    5
                };
                if i == 1 {
                    assert(m == "api_key"@);
                    assert(m[6] == 'y');
                } else if i == 2 {
                    assert(m == "secret_key"@);
                    assert(m[9] == 'y');
                } else if i == 3 {
                    assert(m == "openai_api_key"@);
                    assert(m[13] == 'y');
                } else if i == 4 {
                    assert(m == "authorization:"@);
                    assert(m[13] == ':');
                } else {
                    assert(m == "token="@);
                    assert(m[5] == '=');
                }
                assert(m[k] == 'y' || m[k] == ':' || m[k] == '=');
                assert(sub[k] == h[p + k]);
                assert(h[p + k] == ascii_lower(t[p + k]));
            }
        }
    }
}

/// The capability list: text generation is wired; MCP tool use is wired
/// exactly on turns that drive MCP tool calls; image generation and Steam
/// upload are not implemented.
pub fn pi_agent_capabilities_with_mcp(mcp_enabled: bool) -> (r: Vec<PiAgentCapability>)
    ensures
        r@.len() == 4,
        r@[0].id@ == "pi-agent.text-generation"@ && r@[0].status@ == "wired"@,
        r@[1].id@ == "pi-agent.mcp-tool-use"@ && r@[1].status@ == (if mcp_enabled {
            "wired"@
        } else {
            "not-implemented"@
        }),
        r@[1].evidence@ == (if mcp_enabled {
            "complete_with_mcp_tools loop is driving MCP tool calls this turn."@
        } else {
            "MCP tool use is opt-in via AgentSessionConfig.enabled_mcp_servers; not active on this turn."@
        }),
        r@[0].evidence@ == "FakeTextModelProvider produces validated agent output envelopes."@,
        r@[2].id@ == "pi-agent.image-generation"@ && r@[2].status@ == "not-implemented"@,
        r@[2].evidence@ == "Deferred to a later phase; no image provider is wired into the pi-Agent facade."@,
        r@[3].id@ == "pi-agent.steam-upload"@ && r@[3].status@ == "not-implemented"@,
        r@[3].evidence@ == "Steam/Workshop integration remains deferred; no upload automation is implied."@,
        forall|i: int| 0 <= i < 4 ==> !has_secret_marker(#[trigger] r@[i].evidence@),
{
    proof {
        reveal_strlit("FakeTextModelProvider produces validated agent output envelopes.");
        lemma_marker_free("FakeTextModelProvider produces validated agent output envelopes."@);
        reveal_strlit("complete_with_mcp_tools loop is driving MCP tool calls this turn.");
        lemma_marker_free("complete_with_mcp_tools loop is driving MCP tool calls this turn."@);
        reveal_strlit("MCP tool use is opt-in via AgentSessionConfig.enabled_mcp_servers; not active on this turn.");
        lemma_marker_free("MCP tool use is opt-in via AgentSessionConfig.enabled_mcp_servers; not active on this turn."@);
        reveal_strlit("Deferred to a later phase; no image provider is wired into the pi-Agent facade.");
        lemma_marker_free("Deferred to a later phase; no image provider is wired into the pi-Agent facade."@);
        reveal_strlit("Steam/Workshop integration remains deferred; no upload automation is implied.");
        lemma_marker_free("Steam/Workshop integration remains deferred; no upload automation is implied."@);
    }
    let mcp_status = if mcp_enabled {
        "wired"
    } else {
        "not-implemented"
    };
    let mcp_evidence = if mcp_enabled {
        "complete_with_mcp_tools loop is driving MCP tool calls this turn."
    } else {
        "MCP tool use is opt-in via AgentSessionConfig.enabled_mcp_servers; not active on this turn."
    };
    let mut r: Vec<PiAgentCapability> = Vec::new();
    r.push(
        capability(
            "pi-agent.text-generation",
            "Text generation",
            "wired",
            "local-mock-text-provider",
            "FakeTextModelProvider produces validated agent output envelopes.",
        ),
    );
    r.push(
        capability(
            "pi-agent.mcp-tool-use",
            "MCP tool use",
            mcp_status,
            "plotforge-mcp-client",
            mcp_evidence,
        ),
    );
    r.push(
        capability(
            "pi-agent.image-generation",
            "Image generation",
            "not-implemented",
            "deferred",
            "Deferred to a later phase; no image provider is wired into the pi-Agent facade.",
        ),
    );
    r.push(
        capability(
            "pi-agent.steam-upload",
            "Steam upload",
            "not-implemented",
            "deferred",
            "Steam/Workshop integration remains deferred; no upload automation is implied.",
        ),
    );
    r
}

/// The capability list of the one-shot path (no MCP tool use).
pub fn pi_agent_capabilities() -> (r: Vec<PiAgentCapability>)
    ensures
        r@.len() == 4,
        r@[1].id@ == "pi-agent.mcp-tool-use"@ && r@[1].status@ == "not-implemented"@,
{
    pi_agent_capabilities_with_mcp(false)
}

/// Who answered a pi-Agent run and what it can do.
#[derive(Clone, Debug, PartialEq, Eq)]
pub struct PiAgentDescriptor {
    pub agent_id: String,
    pub is_local_pi: bool,
    pub capabilities: Vec<PiAgentCapability>,
}

/// The redaction-safe result of a pi-Agent run.
#[derive(Clone, Debug, PartialEq, Eq)]
pub struct PiAgentRunResult {
    pub descriptor: PiAgentDescriptor,
    pub reproducibility: ReproducibilityMetadata,
    pub trace_id: Option<String>,
    pub evidence_summary: String,
}

/// The trace-evidence id of `agent_id`'s run with `run_seed`.
pub open spec fn trace_evidence_text(agent_id: Seq<char>, run_seed: u64) -> Seq<char> {
    "pi-agent-evidence-"@ + hex_lower(sha256_utf8(agent_id + ":"@ + decimal_string(run_seed as nat)))
}

/// The evidence summary of a run: the kind of the validated proposal and
/// the provider configuration hash, and, on a turn with MCP tool use, that
/// fact and the per-round tool-call summary (when there is one).
pub open spec fn evidence_summary_text(
    kind: Seq<char>,
    provider_config_hash: Seq<char>,
    used_mcp: bool,
    mcp_evidence: Seq<char>,
) -> Seq<char> {
    let base = "pi-Agent validated a "@ + kind + " proposal from "@ + provider_config_hash
        + " provider evidence"@ + (if used_mcp {
        " with MCP tool use"@
    } else {
        Seq::<char>::empty()
    }) + "."@;
    if used_mcp && mcp_evidence.len() > 0 {
        base + " MCP tool-call rounds:"@ + mcp_evidence
    } else {
        base
    }
}

/// `r` is the result a run of `agent_id` reports for `envelope`: the
/// envelope's reproducibility block with the run's trace-evidence id (and
/// the MCP hash, when given), the descriptor of the local pi-Agent with the
/// capabilities of the turn, and the evidence summary.
pub open spec fn run_result_is(
    r: PiAgentRunResult,
    agent_id: Seq<char>,
    envelope: AgentOutputEnvelope,
    run_seed: u64,
    mcp_hash: Option<String>,
    mcp_evidence: Seq<char>,
) -> bool {
    let trace = trace_evidence_text(agent_id, run_seed);
    &&& r.reproducibility.run_seed == envelope.reproducibility.run_seed
    &&& r.reproducibility.prompt_version == envelope.reproducibility.prompt_version
    &&& r.reproducibility.model_version == envelope.reproducibility.model_version
    &&& r.reproducibility.provider_config_hash == envelope.reproducibility.provider_config_hash
    &&& r.reproducibility.snapshot_id == envelope.reproducibility.snapshot_id
    &&& r.reproducibility.mcp_tool_call_hash == match mcp_hash {
        Some(h) => Some(h),
        None => envelope.reproducibility.mcp_tool_call_hash,
    }
    &&& r.reproducibility.trace_id matches Some(t) && t@ == trace
    &&& r.trace_id matches Some(t) && t@ == trace
    &&& r.descriptor.agent_id@ == agent_id
    &&& r.descriptor.is_local_pi
    &&& r.descriptor.capabilities@.len() == 4
    &&& r.descriptor.capabilities@[1].status@ == (if mcp_hash is Some {
        "wired"@
    } else {
        "not-implemented"@
    })
    &&& r.evidence_summary@ == evidence_summary_text(
        payload_kind_text(envelope.payload),
        envelope.reproducibility.provider_config_hash@,
        mcp_hash is Some,
        mcp_evidence,
    )
}

/// The result of a run of `agent_id` for a validated `envelope`
/// (`run_result_is`); `mcp_hash` is the hash of the MCP servers the turn
/// could call, and `mcp_evidence` its per-round tool-call summary.
pub fn assemble_run_result(
    agent_id: &str,
    envelope: &AgentOutputEnvelope,
    run_seed: u64,
    mcp_hash: Option<String>,
    mcp_evidence: &str,
) -> (r: PiAgentRunResult)
    ensures
        run_result_is(r, agent_id@, *envelope, run_seed, mcp_hash, mcp_evidence@),
{
    let used_mcp = mcp_hash.is_some();
    let mut reproducibility = envelope.reproducibility.copied();
    match mcp_hash {
        Some(h) => {
            reproducibility.mcp_tool_call_hash = Some(h);
        },
        None => {},
    }
    let trace = pi_agent_trace_evidence_id(agent_id, run_seed);
    reproducibility.trace_id = Some(trace.clone());
    let descriptor = PiAgentDescriptor {
        agent_id: String::from_str(agent_id),
        is_local_pi: true,
        capabilities: pi_agent_capabilities_with_mcp(used_mcp),
    };
    let mut summary = String::from_str("pi-Agent validated a ");
    summary.append(payload_kind(envelope.payload));
    summary.append(" proposal from ");
    summary.append(reproducibility.provider_config_hash.as_str());
    summary.append(" provider evidence");
    if used_mcp {
        summary.append(" with MCP tool use");
    }
    summary.append(".");
    if used_mcp && mcp_evidence.unicode_len() > 0 {
        summary.append(" MCP tool-call rounds:");
        summary.append(mcp_evidence);
    }
    PiAgentRunResult { descriptor, reproducibility, trace_id: Some(trace), evidence_summary: summary }
}

/// The result of a one-shot run (no MCP tool use).
pub fn assemble_result(agent_id: &str, envelope: &AgentOutputEnvelope, run_seed: u64) -> (r:
    PiAgentRunResult)
    ensures
        run_result_is(r, agent_id@, *envelope, run_seed, None, Seq::empty()),
{
    assemble_run_result(agent_id, envelope, run_seed, None, "")
}

/// A pipeline failure as the pi-Agent reports it: the code and message of
/// its runtime error.
pub fn pi_agent_provider_error(error: ProviderPipelineError) -> (r: PiAgentError)
    ensures
        r matches PiAgentError::Provider { code, message } && (code@, message@) == runtime_error_of(
            error,
        ),
{
    let runtime_error = error.into_runtime_error();
    PiAgentError::Provider { code: runtime_error.code, message: runtime_error.message }
}

} // verus!
