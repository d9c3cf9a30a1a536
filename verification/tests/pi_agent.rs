use plotforge_agent::pi_agent::pi_agent_call_id;
use plotforge_agent::pi_agent::{
    check_pi_agent_request, pi_agent_capabilities, pi_agent_capabilities_with_mcp,
    pi_agent_trace_evidence_id, pi_agent_user_message, PiAgentCapability, PiAgentError,
    PiAgentRunRequest,
};
use plotforge_agent::shared::contains_secret_marker_text;

fn request(agent_id: &str, prompt_summary: &str, prompt_hash: &str) -> PiAgentRunRequest {
    PiAgentRunRequest {
        agent_id: agent_id.into(),
        run_seed: 7,
        prompt_summary: prompt_summary.into(),
        prompt_hash: prompt_hash.into(),
    }
}

#[test]
fn pi_agent_capabilities_describe_wired_and_deferred() {
    let capabilities = pi_agent_capabilities();
    let wired: Vec<&PiAgentCapability> = capabilities.iter().filter(|c| c.status == "wired").collect();
    assert_eq!(wired.len(), 1, "got {wired:?}");
    assert_eq!(wired[0].id, "pi-agent.text-generation");
    let mcp = capabilities.iter().find(|c| c.id == "pi-agent.mcp-tool-use").expect("present");
    assert_eq!(mcp.status, "not-implemented");
    for capability in &capabilities {
        assert!(!contains_secret_marker_text(&capability.evidence));
        assert!(!capability.evidence.contains("sk-"));
    }
}

#[test]
fn pi_agent_capabilities_with_mcp_flips_mcp_tool_use() {
    let capabilities = pi_agent_capabilities_with_mcp(true);
    let mcp = capabilities.iter().find(|c| c.id == "pi-agent.mcp-tool-use").expect("present");
    assert_eq!(mcp.status, "wired");
    let wired: Vec<&PiAgentCapability> = capabilities.iter().filter(|c| c.status == "wired").collect();
    assert_eq!(wired.len(), 2, "got {wired:?}");
    for capability in &capabilities {
        assert!(!contains_secret_marker_text(&capability.evidence));
        assert!(!capability.evidence.contains("sk-"));
    }
}

#[test]
fn pi_agent_rejects_mismatched_request_agent_id() {
    let error = check_pi_agent_request("pi-agent-local", &request("other", "ok", "sha256:x")).expect_err("mismatch");
    assert_eq!(
        error,
        PiAgentError::AgentIdMismatch { facade: "pi-agent-local".into(), request: "other".into() }
    );
    assert_eq!(error.message(), "pi-agent request agent_id `other` did not match facade agent_id `pi-agent-local`");
}

#[test]
fn pi_agent_rejects_empty_prompt_hash() {
    let error = check_pi_agent_request("a", &request("a", "ok", "  ")).expect_err("empty hash");
    assert_eq!(error, PiAgentError::EmptyPromptHash);
}

#[test]
fn pi_agent_rejects_secret_marker_in_prompt_summary() {
    let error = check_pi_agent_request("a", &request("a", "use Bearer abc", "sha256:x")).expect_err("secret");
    assert_eq!(error, PiAgentError::PromptSecretMarker);
    check_pi_agent_request("a", &request("a", "Generate a scene.", "sha256:x")).expect("valid");
}

#[test]
fn pi_agent_trace_id_changes_with_agent_id_and_run_seed() {
    let a = pi_agent_trace_evidence_id("pi-agent-local", 7);
    assert!(a.starts_with("pi-agent-evidence-"));
    assert_eq!(a, pi_agent_trace_evidence_id("pi-agent-local", 7));
    assert_ne!(a, pi_agent_trace_evidence_id("pi-agent-local", 8));
    assert_ne!(a, pi_agent_trace_evidence_id("pi-agent-other", 7));
}

#[test]
fn user_message_appends_context_after_a_blank_line() {
    assert_eq!(pi_agent_user_message("  go north ", "# World"), "go north\n\n# World");
    assert_eq!(pi_agent_user_message("  go north ", "   "), "  go north ");
}

#[test]
fn one_shot_call_ids_name_agent_and_seed() {
    let (call_id, scene_key) = pi_agent_call_id("pi-agent-local", 42);
    assert_eq!(call_id, "pi-agent-pi-agent-local-42");
    assert_eq!(scene_key, "pi-agent-pi-agent-local");
}
