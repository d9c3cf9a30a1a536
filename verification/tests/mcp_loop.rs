use std::cell::Cell;

use plotforge_agent::json::JsonValue;
use plotforge_agent::mcp_loop::{
    check_tool_result, complete_with_mcp_tools, contains_mcp_secret_marker, finalize_mcp_turn,
    mcp_error_code, mcp_tool_call_hash, next_round_prompt, parse_mcp_tool_calls, tool_note,
    tool_evidence, tool_result_summary, mcp_round_step, McpErrorKind, McpRoundAction, McpLoopError, McpToolCallResult, McpToolClient,
    McpToolContentBlock, McpToolError, MAX_ROUNDS,
};
use plotforge_agent::pi_agent::{assemble_result, PiAgentRunRequest};
use plotforge_agent::providers_text::{
    TextModelProvider, TextModelProviderError, TextModelRequest, TextModelResponse,
};
use plotforge_agent::schema::{AgentOutputEnvelope, AgentRole, PayloadKind, ReproducibilityMetadata};
use plotforge_agent::shared::contains_secret_marker_text;

fn local_reproducibility(run_seed: u64) -> ReproducibilityMetadata {
    ReproducibilityMetadata {
        run_seed,
        prompt_version: "local-mock-v1".into(),
        model_version: "local-mock".into(),
        provider_config_hash: "sha256:local".into(),
        trace_id: None,
        snapshot_id: None,
        mcp_tool_call_hash: None,
    }
}

/// Answers a scripted sequence of replies, one per call (the last repeats).
struct ScriptedProvider {
    responses: Vec<String>,
    call: Cell<usize>,
}

impl ScriptedProvider {
    fn new(responses: Vec<String>) -> Self {
        Self { responses, call: Cell::new(0) }
    }
}

impl TextModelProvider for ScriptedProvider {
    fn reproducibility_metadata(&self, run_seed: u64) -> ReproducibilityMetadata {
        local_reproducibility(run_seed)
    }

    fn complete(&self, _request: &TextModelRequest) -> Result<TextModelResponse, TextModelProviderError> {
        let index = self.call.get();
        self.call.set(index + 1);
        let response = self
            .responses
            .get(index)
            .cloned()
            .unwrap_or_else(|| self.responses.last().cloned().unwrap_or_default());
        Ok(TextModelResponse::json(&response))
    }
}

/// Answers every tool call with the same result (or error), recording calls.
struct MockMcpToolClient {
    invocations: Vec<(String, String, JsonValue)>,
    result: McpToolCallResult,
    error: Option<McpToolError>,
}

impl MockMcpToolClient {
    fn ok(text: &str) -> Self {
        Self {
            invocations: Vec::new(),
            result: McpToolCallResult {
                ok: true,
                content: vec![McpToolContentBlock::Text { text: text.into() }],
                is_error: false,
            },
            error: None,
        }
    }

    fn error(error: McpToolError) -> Self {
        Self {
            invocations: Vec::new(),
            result: McpToolCallResult { ok: true, content: Vec::new(), is_error: false },
            error: Some(error),
        }
    }
}

impl McpToolClient for MockMcpToolClient {
    fn invoke_tool(&mut self, server_id: &str, tool_name: &str, arguments: &JsonValue) -> Result<McpToolCallResult, McpToolError> {
        let arguments = match arguments {
            JsonValue::Null => JsonValue::Null,
            _ => JsonValue::Str("<arguments>".into()),
        };
        self.invocations.push((server_id.to_string(), tool_name.to_string(), arguments));
        if let Some(error) = &self.error {
            return Err(error.clone());
        }
        Ok(self.result.clone())
    }
}

fn make_request(agent_id: &str) -> PiAgentRunRequest {
    PiAgentRunRequest {
        agent_id: agent_id.into(),
        run_seed: 7,
        prompt_summary: "Generate a validated scene plan proposal.".into(),
        prompt_hash: "sha256:abc".into(),
    }
}

fn final_envelope_json() -> String {
    r#"{"contract_version":"1","agent":"scene_planner","proposal":{"id":"p","output":{"scene_plan":{"scene_key":"pi-agent-pi-agent-local"}}}}"#.to_string()
}

fn final_envelope() -> AgentOutputEnvelope {
    AgentOutputEnvelope {
        contract_version: "1".into(),
        schema_version: "1".into(),
        agent: AgentRole::ScenePlanner,
        proposal_agent: AgentRole::ScenePlanner,
        payload: PayloadKind::ScenePlan,
        reproducibility: local_reproducibility(7),
    }
}

fn tool_call_json(server_id: &str, tool_name: &str, arguments: &str) -> String {
    format!(
        r#"{{"mcp_tool_calls":[{{"server_id":"{server_id}","tool_name":"{tool_name}","arguments":{arguments}}}]}}"#
    )
}

#[test]
fn parse_mcp_tool_calls_recognizes_signal() {
    let tool_call = r#"{"mcp_tool_calls":[{"server_id":"srv","tool_name":"t","arguments":{"a":1}}]}"#;
    let parsed = parse_mcp_tool_calls(tool_call).expect("tool-call turn parsed");
    assert_eq!(parsed.len(), 1);
    assert_eq!(parsed[0].server_id, "srv");
    assert_eq!(parsed[0].tool_name, "t");

    let final_json = r#"{"contract_version":"1","proposal":{"id":"p","agent":"scene_planner"}}"#;
    assert!(parse_mcp_tool_calls(final_json).is_none(), "final envelope is not a tool-call turn");

    assert!(parse_mcp_tool_calls(r#"{"mcp_tool_calls":[]}"#).is_none());
    assert!(parse_mcp_tool_calls("not json").is_none());
}

#[test]
fn tool_calls_keep_order_and_default_arguments() {
    let raw = "  {\"mcp_tool_calls\":[{\"server_id\":\"a\",\"tool_name\":\"x\"},{\"server_id\":\"b\",\"tool_name\":\"y\",\"arguments\":[true]}]}\n";
    let parsed = parse_mcp_tool_calls(raw).expect("parsed");
    assert_eq!(parsed.len(), 2);
    assert_eq!(parsed[0].arguments, JsonValue::Null);
    assert_eq!(parsed[1].server_id, "b");
    assert_eq!(parsed[1].arguments, JsonValue::Array(vec![JsonValue::Bool(true)]));
    assert!(parse_mcp_tool_calls(r#"{"mcp_tool_calls":[{"server_id":"a"}]}"#).is_none());
}

#[test]
fn mcp_loop_rejects_secret_marker_in_tool_result() {
    let result = McpToolCallResult {
        ok: true,
        is_error: false,
        content: vec![McpToolContentBlock::Text { text: "OPENAI_API_KEY=sk-leak".into() }],
    };
    let error = check_tool_result("lookup", &result).expect_err("secret");
    assert_eq!(error, McpLoopError::ToolResultSecretMarker { tool_name: "lookup".into() });
    let clean = McpToolCallResult { ok: true, is_error: false, content: vec![McpToolContentBlock::Image] };
    check_tool_result("lookup", &clean).expect("clean result");
}

#[test]
fn summaries_never_carry_block_content() {
    let result = McpToolCallResult {
        ok: true,
        is_error: false,
        content: vec![
            McpToolContentBlock::Text { text: "private".into() },
            McpToolContentBlock::Image,
            McpToolContentBlock::Resource,
        ],
    };
    assert_eq!(tool_result_summary(&result), "ok=true is_error=false blocks=[text,image,resource]");
    assert_eq!(tool_note("t", "srv", &result), "\n[tool t: server=srv: ok=true is_error=false blocks=3]");
    assert_eq!(
        next_round_prompt("Plan.", 0, "\n[n]"),
        "Plan.\n\nMCP tool round 0 complete. Tool results (redacted):\n[n]\nContinue and produce the final scene plan proposal."
    );
}

#[test]
fn mcp_errors_and_hashes() {
    assert_eq!(mcp_error_code(McpErrorKind::UnknownServer), "mcp_unknown_server");
    assert_eq!(McpLoopError::ExceededRounds(MAX_ROUNDS).message(), "mcp_loop_exceeded_rounds: 10");
    assert_eq!(mcp_tool_call_hash(&Vec::new()), None);
    let h = mcp_tool_call_hash(&vec!["a".into(), "b".into()]).expect("hash");
    assert!(h.starts_with("sha256:") && h.len() == 71);
    assert!(contains_mcp_secret_marker("{\"token\":\"SK-abc\"}"));
    assert!(!contains_mcp_secret_marker("{\"a\":1}"));
}

#[test]
fn mcp_loop_empty_servers_matches_run_with_envelope() {
    let provider = ScriptedProvider::new(vec![final_envelope_json()]);
    let mut mcp = MockMcpToolClient::ok("tool result");
    let request = make_request("pi-agent-local");
    let turn = complete_with_mcp_tools(&provider, "pi-agent-local", &request, &mut mcp)
        .expect("empty-server path succeeds");
    assert_eq!(turn.raw_json, final_envelope_json());
    assert_eq!(turn.evidence, "");
    let (looped_result, _) = finalize_mcp_turn("pi-agent-local", 7, Ok(final_envelope()), None, &turn.evidence)
        .expect("empty-server path succeeds");
    let direct_result = assemble_result("pi-agent-local", &final_envelope(), 7);
    assert_eq!(looped_result.reproducibility, direct_result.reproducibility);
    assert_eq!(looped_result.trace_id, direct_result.trace_id);
    assert_eq!(looped_result.evidence_summary, direct_result.evidence_summary);
    assert!(looped_result.reproducibility.mcp_tool_call_hash.is_none(), "passthrough must not stamp an MCP hash");
    assert!(mcp.invocations.is_empty(), "passthrough must not invoke any tools");
}

#[test]
fn mcp_loop_invokes_tool_then_finalizes() {
    let tool_call = tool_call_json("local-fs", "list_files", r#"{"path":"/tmp"}"#);
    let provider = ScriptedProvider::new(vec![tool_call, final_envelope_json()]);
    let mut mcp = MockMcpToolClient::ok("file: a.txt");
    let request = make_request("pi-agent-local");
    let turn = complete_with_mcp_tools(&provider, "pi-agent-local", &request, &mut mcp).expect("loop succeeds");
    assert_eq!(mcp.invocations.len(), 1, "loop must invoke the tool once");
    assert_eq!(mcp.invocations[0].0, "local-fs");
    assert_eq!(mcp.invocations[0].1, "list_files");
    let hash = mcp_tool_call_hash(&vec!["local-fs|stdio||".to_string()]);
    let (result, envelope) = finalize_mcp_turn("pi-agent-local", 7, Ok(final_envelope()), hash, &turn.evidence)
        .expect("loop succeeds");
    assert_eq!(envelope.payload, PayloadKind::ScenePlan, "final envelope must be a ScenePlan");
    assert!(
        result.reproducibility.mcp_tool_call_hash.as_ref().unwrap().starts_with("sha256:"),
        "mcp_tool_call_hash must be present and sha256-prefixed"
    );
    assert!(!contains_secret_marker_text(&result.evidence_summary));
    let summary = &result.evidence_summary;
    assert!(summary.contains("list_files"), "evidence summary must name the invoked tool");
    assert!(summary.contains("local-fs"), "evidence summary must name the server id");
    assert!(summary.contains("content_hash=sha256:"), "evidence summary must carry the redaction-safe content hash");
    assert!(!summary.contains("/tmp"), "evidence summary must not carry raw tool arguments");
    assert!(!summary.contains("file: a.txt"), "evidence summary must not carry raw tool result bodies");
    let mcp_capability = result
        .descriptor
        .capabilities
        .iter()
        .find(|c| c.id == "pi-agent.mcp-tool-use")
        .expect("mcp-tool-use capability present on the loop result");
    assert_eq!(mcp_capability.status, "wired", "mcp-tool-use must be wired on a turn that drove tool calls");
}

#[test]
fn mcp_loop_tool_error_is_explicit() {
    let tool_call = tool_call_json("local-fs", "boom", "{}");
    let provider = ScriptedProvider::new(vec![tool_call, final_envelope_json()]);
    let mut mcp = MockMcpToolClient::error(McpToolError { kind: McpErrorKind::ToolError, detail: "tool exploded".into() });
    let request = make_request("pi-agent-local");
    let error = complete_with_mcp_tools(&provider, "pi-agent-local", &request, &mut mcp).expect_err("tool error must surface");
    assert!(
        matches!(error, McpLoopError::ToolFailure { ref code, .. } if code == "mcp_tool_error"),
        "expected ToolFailure with mcp_tool_error code, got {error:?}"
    );
}

#[test]
fn mcp_loop_rejects_secret_marker_in_tool_args() {
    let tool_call = tool_call_json("local-fs", "read_file", r#"{"token":"sk-test-secret-marker"}"#);
    let provider = ScriptedProvider::new(vec![tool_call, final_envelope_json()]);
    let mut mcp = MockMcpToolClient::ok("should not be reached");
    let request = make_request("pi-agent-local");
    let error = complete_with_mcp_tools(&provider, "pi-agent-local", &request, &mut mcp)
        .expect_err("secret marker in tool args must be rejected");
    assert!(
        matches!(error, McpLoopError::ToolArgSecretMarker { ref tool_name } if tool_name == "read_file"),
        "expected ToolArgSecretMarker, got {error:?}"
    );
    assert!(mcp.invocations.is_empty(), "tool must not be invoked when args carry a secret marker");
}

#[test]
fn mcp_loop_rejects_secret_marker_in_tool_result_round() {
    let tool_call = tool_call_json("local-fs", "leak", "{}");
    let provider = ScriptedProvider::new(vec![tool_call, final_envelope_json()]);
    let mut mcp = MockMcpToolClient::ok("the api_key is sk-test-secret-marker here");
    let request = make_request("pi-agent-local");
    let error = complete_with_mcp_tools(&provider, "pi-agent-local", &request, &mut mcp)
        .expect_err("secret marker in tool result must be rejected");
    assert!(
        matches!(error, McpLoopError::ToolResultSecretMarker { ref tool_name } if tool_name == "leak"),
        "expected ToolResultSecretMarker, got {error:?}"
    );
}

#[test]
fn mcp_loop_exceeds_rounds() {
    let tool_call = tool_call_json("local-fs", "loop", "{}");
    let provider = ScriptedProvider::new(vec![tool_call; MAX_ROUNDS + 1]);
    let mut mcp = MockMcpToolClient::ok("looping");
    let request = make_request("pi-agent-local");
    let error = complete_with_mcp_tools(&provider, "pi-agent-local", &request, &mut mcp)
        .expect_err("runaway loop must surface");
    assert_eq!(error, McpLoopError::ExceededRounds(MAX_ROUNDS));
    assert_eq!(mcp.invocations.len(), MAX_ROUNDS, "one tool call per round");
}

#[test]
fn tool_notes_and_evidence_ignore_block_text() {
    let a = McpToolCallResult { ok: true, is_error: false, content: vec![McpToolContentBlock::Text { text: "alpha".into() }] };
    let b = McpToolCallResult { ok: true, is_error: false, content: vec![McpToolContentBlock::Text { text: "a very different body".into() }] };
    assert_eq!(tool_note("t", "s", &a), tool_note("t", "s", &b));
    assert_eq!(tool_evidence(2, "t", "s", &a), tool_evidence(2, "t", "s", &b));
    assert_eq!(tool_result_summary(&a), tool_result_summary(&b));
}

#[test]
fn round_step_finishes_on_a_reply_without_tool_calls() {
    assert_eq!(mcp_round_step(&final_envelope_json()), McpRoundAction::Finish);
    assert_eq!(mcp_round_step(r#"{"mcp_tool_calls":[]}"#), McpRoundAction::Finish);
    assert_eq!(mcp_round_step("not json"), McpRoundAction::Finish);
}

#[test]
fn round_step_invokes_requested_calls_in_order() {
    let raw = r#"{"mcp_tool_calls":[{"server_id":"a","tool_name":"x","arguments":{"k":1}},{"server_id":"b","tool_name":"y"}]}"#;
    match mcp_round_step(raw) {
        McpRoundAction::Invoke(calls) => {
            assert_eq!(calls.len(), 2);
            assert_eq!((calls[0].server_id.as_str(), calls[0].tool_name.as_str()), ("a", "x"));
            assert_eq!((calls[1].server_id.as_str(), calls[1].tool_name.as_str()), ("b", "y"));
            assert_eq!(calls[1].arguments, JsonValue::Null);
        }
        McpRoundAction::Finish => panic!("a tool-call reply must not finish the loop"),
    }
}

#[test]
fn mcp_loop_exceeded_rounds_calls_provider_and_tool_once_per_round() {
    let tool_call = tool_call_json("local-fs", "loop", "{}");
    let provider = ScriptedProvider::new(vec![tool_call; MAX_ROUNDS + 1]);
    let mut mcp = MockMcpToolClient::ok("looping");
    let request = make_request("pi-agent-local");
    let error = complete_with_mcp_tools(&provider, "pi-agent-local", &request, &mut mcp)
        .expect_err("runaway loop must surface");
    assert_eq!(error, McpLoopError::ExceededRounds(MAX_ROUNDS));
    assert_eq!(provider.call.get(), MAX_ROUNDS, "one provider call per round");
    assert_eq!(mcp.invocations.len(), MAX_ROUNDS);
}
