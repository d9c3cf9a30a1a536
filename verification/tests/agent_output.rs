use plotforge_agent::agent_output::{
    accept_agent_envelope, agent_model_request, agent_reply_json, check_agent_prompt, expect_payload,
    payload_kind, request_reproducibility, validate_agent_output_envelope, ProviderPipelineError,
};
use plotforge_agent::generation::{
    character_generation_prompt, fallback_character, generation_outcome, story_craft_generation_prompt,
    world_generation_prompt, GenerationStatus,
};
use plotforge_agent::mcp_loop::{
    check_mcp_loop_request, final_turn_reproducibility, finalize_mcp_turn, mcp_final_call_id,
    mcp_round_request, tool_evidence, McpLoopError, McpToolCallResult, McpToolContentBlock,
};
use plotforge_agent::pi_agent::{assemble_result, assemble_run_result, pi_agent_provider_error, PiAgentError, PiAgentRunRequest};
use plotforge_agent::providers_text::TextModelProviderError;
use plotforge_agent::schema::{AgentOutputEnvelope, AgentRole, PayloadKind, ReproducibilityMetadata};
use plotforge_agent::shared::stable_sha256_hash;

fn reproducibility(trace_id: Option<&str>) -> ReproducibilityMetadata {
    ReproducibilityMetadata {
        run_seed: 99,
        prompt_version: "text_v1".into(),
        model_version: "local-model".into(),
        provider_config_hash: "sha256:config".into(),
        trace_id: trace_id.map(|t| t.to_string()),
        snapshot_id: None,
        mcp_tool_call_hash: None,
    }
}

fn envelope(agent: AgentRole, payload: PayloadKind) -> AgentOutputEnvelope {
    AgentOutputEnvelope {
        contract_version: "contract-1".into(),
        schema_version: "schema-1".into(),
        agent,
        proposal_agent: agent,
        payload,
        reproducibility: reproducibility(None),
    }
}

#[test]
fn envelope_checks_report_the_first_broken_rule() {
    let good = envelope(AgentRole::ScenePlanner, PayloadKind::ScenePlan);
    assert_eq!(validate_agent_output_envelope(&good, AgentRole::ScenePlanner, "contract-1", "schema-1"), Ok(()));
    assert_eq!(
        validate_agent_output_envelope(&good, AgentRole::ScenePlanner, "contract-2", "schema-1"),
        Err("unsupported contract version `contract-1`, expected `contract-2`".to_string())
    );
    assert_eq!(
        validate_agent_output_envelope(&good, AgentRole::BeatWriter, "contract-1", "schema-1"),
        Err("envelope agent `ScenePlanner` did not match requested agent `BeatWriter`".to_string())
    );
    let mut mixed = good.clone();
    mixed.proposal_agent = AgentRole::PlotDoctor;
    assert_eq!(
        validate_agent_output_envelope(&mixed, AgentRole::ScenePlanner, "contract-1", "schema-1"),
        Err("proposal agent `PlotDoctor` did not match envelope agent `ScenePlanner`".to_string())
    );
    let mut blank = good.clone();
    blank.reproducibility.model_version = "  ".into();
    assert_eq!(
        validate_agent_output_envelope(&blank, AgentRole::ScenePlanner, "contract-1", "schema-1"),
        Err("missing model_version".to_string())
    );
}

#[test]
fn accepted_envelope_carries_the_runtime_reproducibility() {
    let mut incoming = envelope(AgentRole::ScenePlanner, PayloadKind::ScenePlan);
    incoming.reproducibility.provider_config_hash = "sha256:provider-echo".into();
    let local = reproducibility(Some("local"));
    let accepted = accept_agent_envelope(incoming.clone(), AgentRole::ScenePlanner, local.clone(), "contract-1", "schema-1")
        .expect("valid envelope");
    assert_eq!(accepted.reproducibility, local);
    assert_eq!(accepted.payload, PayloadKind::ScenePlan);
    let error = accept_agent_envelope(incoming, AgentRole::BeatWriter, local, "contract-1", "schema-1")
        .expect_err("wrong agent");
    assert_eq!(error.into_runtime_error().code, "text_provider_schema_validation");
}

#[test]
fn prompts_and_replies_with_secret_markers_are_refused() {
    assert!(check_agent_prompt(AgentRole::ScenePlanner, "plan the next scene").is_ok());
    let error = check_agent_prompt(AgentRole::ScenePlanner, "OPENAI_API_KEY=sk-secret").expect_err("secret");
    let runtime = error.into_runtime_error();
    assert_eq!(runtime.code, "text_provider_schema_validation");
    assert_eq!(runtime.message, "ScenePlanner returned invalid proposal: text generation prompt contained a secret marker");
    assert_eq!(agent_reply_json(AgentRole::BeatWriter, "  {\"id\":1}  ").expect("json"), "{\"id\":1}");
    assert_eq!(agent_reply_json(AgentRole::BeatWriter, "noise {\"id\":2} tail").expect("repaired"), "{\"id\":2}");
    let invalid = agent_reply_json(AgentRole::BeatWriter, "no json here").expect_err("invalid");
    assert_eq!(
        invalid,
        ProviderPipelineError::InvalidJson {
            agent: AgentRole::BeatWriter,
            message: "unable to repair provider JSON envelope".into()
        }
    );
    assert_eq!(
        invalid.into_runtime_error().message,
        "BeatWriter returned invalid JSON: unable to repair provider JSON envelope"
    );
    let leaked = agent_reply_json(AgentRole::BeatWriter, "{\"token\":\"sk-live\"}").expect_err("secret");
    assert_eq!(
        leaked,
        ProviderPipelineError::Validation {
            agent: AgentRole::BeatWriter,
            message: "provider output contained a secret marker".into()
        }
    );
}

#[test]
fn runtime_errors_keep_provider_codes_and_name_timeouts() {
    let timeout = ProviderPipelineError::Provider(TextModelProviderError::timeout("slow upstream"));
    let runtime = timeout.into_runtime_error();
    assert_eq!(runtime.code, "text_provider_timeout");
    assert_eq!(runtime.message, "text provider timed out: slow upstream");
    let provider = ProviderPipelineError::Provider(TextModelProviderError::provider("text_provider_http_status", "provider returned HTTP 500"));
    let runtime = provider.into_runtime_error();
    assert_eq!(runtime.code, "text_provider_http_status");
    assert_eq!(runtime.message, "provider returned HTTP 500");
    match pi_agent_provider_error(ProviderPipelineError::Provider(TextModelProviderError::timeout("t"))) {
        PiAgentError::Provider { code, message } => {
            assert_eq!(code, "text_provider_timeout");
            assert_eq!(message, "text provider timed out: t");
        }
        other => panic!("unexpected {other:?}"),
    }
}

#[test]
fn model_request_uses_runtime_identity() {
    let repro = reproducibility(None);
    let request = agent_model_request(AgentRole::PlotDoctor, "call-7", "scene-3", "prompt", None, &repro);
    assert_eq!(request.call_id, "call-7");
    assert_eq!(request.scene_key, "scene-3");
    assert_eq!(request.run_seed, 99);
    assert_eq!(request.model_version, "local-model");
    assert_eq!(request.provider_config_hash, "sha256:config");
}

#[test]
fn unexpected_payloads_are_named() {
    assert_eq!(payload_kind(PayloadKind::BeatDrafts), "beat_drafts");
    let env = envelope(AgentRole::PlotDoctor, PayloadKind::ScenePlan);
    assert!(expect_payload(AgentRole::PlotDoctor, &env, PayloadKind::ScenePlan).is_ok());
    assert_eq!(
        expect_payload(AgentRole::PlotDoctor, &env, PayloadKind::Review),
        Err(ProviderPipelineError::Validation {
            agent: AgentRole::PlotDoctor,
            message: "unexpected payload `scene_plan`".into()
        })
    );
}

#[test]
fn generation_prompts_count_bytes_and_items() {
    assert_eq!(
        world_generation_prompt("expand the harbor", "caf\u{e9}", "", &vec!["a".to_string(), "b".to_string()]),
        "agent=StoryArchitect; expansion_goal=expand the harbor; world_bible_chars=5; canon_chars=0; forbidden_fact_count=2"
    );
    assert_eq!(
        story_craft_generation_prompt("heist", "ab", "abc", 1, 3),
        "agent=StoryCraftPlanner; concept=heist; world_bible_chars=2; canon_chars=3; forbidden_fact_count=1; character_count=3"
    );
    assert_eq!(
        character_generation_prompt("spy", "mentor", 2, "w", "story"),
        "agent=CharacterDesigner; concept=spy; role_hint=mentor; existing_character_count=2; world_bible_chars=1; story_bible_chars=5"
    );
}

#[test]
fn generation_outcome_falls_back_visibly() {
    let local = reproducibility(Some("local"));
    let ok = generation_outcome(
        AgentRole::StoryArchitect,
        PayloadKind::WorldExpansion,
        Ok(envelope(AgentRole::StoryArchitect, PayloadKind::WorldExpansion)),
        local.clone(),
    );
    assert_eq!(ok.status, GenerationStatus::Succeeded);
    assert!(!ok.fallback_used);
    assert_eq!(ok.envelopes.len(), 1);
    let wrong = generation_outcome(
        AgentRole::StoryArchitect,
        PayloadKind::WorldExpansion,
        Ok(envelope(AgentRole::StoryArchitect, PayloadKind::Review)),
        local.clone(),
    );
    assert_eq!(wrong.status, GenerationStatus::Fallback);
    assert!(wrong.fallback_used);
    assert_eq!(wrong.reproducibility, local);
    assert!(wrong.envelopes.is_empty());
    let error = wrong.error.expect("fallback error");
    assert_eq!(error.code, "text_provider_schema_validation");
    assert_eq!(error.message, "StoryArchitect returned invalid proposal: unexpected payload `review`");
}

#[test]
fn fallback_character_is_visible_and_hashed() {
    let character = fallback_character("a river town", "  ferryman ", 7, "sha256:local");
    assert_eq!(character.id, "fallback-character");
    assert_eq!(character.role, "ferryman");
    assert_eq!(character.traits, vec!["visible fallback", "editable"]);
    let portrait = character.portrait_request.expect("portrait request");
    assert_eq!(portrait.prompt_summary, "Fallback portrait request for ferryman.");
    assert_eq!(portrait.prompt_hash, format!("sha256:{}", stable_sha256_hash("a river town\n  ferryman \n7")));
    assert_eq!(portrait.provider_config_hash, "sha256:local");
    assert!(portrait.fallback_allowed);
    assert_eq!(fallback_character("x", "   ", 1, "h").role, "Fallback story catalyst");
}

#[test]
fn pi_agent_overwrites_provider_supplied_trace_id() {
    let mut env = envelope(AgentRole::ScenePlanner, PayloadKind::ScenePlan);
    env.reproducibility.trace_id = Some("provider-supplied-trace-xyz".into());
    let result = assemble_result("pi-agent-local", &env, 99);
    let expected = format!("pi-agent-evidence-{}", stable_sha256_hash("pi-agent-local:99"));
    assert_eq!(result.reproducibility.trace_id.as_deref(), Some(expected.as_str()));
    let top = result.trace_id.as_ref().expect("top-level trace id present");
    assert_eq!(top, &expected);
    assert_ne!(top, "provider-supplied-trace-xyz");
    assert_eq!(result.evidence_summary, "pi-Agent validated a scene_plan proposal from sha256:config provider evidence.");
    assert_eq!(result.descriptor.capabilities[1].status, "not-implemented");
}

#[test]
fn mcp_result_names_tool_use_and_rounds() {
    let env = envelope(AgentRole::ScenePlanner, PayloadKind::ScenePlan);
    let result = assemble_run_result("pi-agent-local", &env, 5, Some("sha256:mcp".into()), "\n[r0 tool=search]");
    assert_eq!(
        result.evidence_summary,
        "pi-Agent validated a scene_plan proposal from sha256:config provider evidence with MCP tool use. MCP tool-call rounds:\n[r0 tool=search]"
    );
    assert_eq!(result.reproducibility.mcp_tool_call_hash.as_deref(), Some("sha256:mcp"));
    assert_eq!(result.descriptor.capabilities[1].status, "wired");
}

fn loop_request(agent_id: &str, prompt_summary: &str, prompt_hash: &str) -> PiAgentRunRequest {
    PiAgentRunRequest {
        agent_id: agent_id.into(),
        run_seed: 3,
        prompt_summary: prompt_summary.into(),
        prompt_hash: prompt_hash.into(),
    }
}

#[test]
fn mcp_loop_checks_request_identity_first() {
    assert!(check_mcp_loop_request("pi", &loop_request("pi", "plan", "sha256:1")).is_ok());
    assert_eq!(
        check_mcp_loop_request("pi", &loop_request("other", "plan", "sha256:1")),
        Err(McpLoopError::ProviderFailure {
            code: "pi_agent_id_mismatch".into(),
            message: "pi-agent request agent_id `other` did not match facade agent_id `pi`".into()
        })
    );
    match check_mcp_loop_request("pi", &loop_request("pi", "plan", " ")) {
        Err(McpLoopError::ProviderFailure { code, .. }) => assert_eq!(code, "pi_agent_empty_prompt_hash"),
        other => panic!("unexpected {other:?}"),
    }
    match check_mcp_loop_request("pi", &loop_request("pi", "token=abc", "sha256:1")) {
        Err(McpLoopError::ProviderFailure { code, .. }) => assert_eq!(code, "pi_agent_prompt_secret_marker"),
        other => panic!("unexpected {other:?}"),
    }
}

#[test]
fn mcp_round_ids_and_evidence() {
    let repro = reproducibility(None);
    let request = mcp_round_request("pi", 3, 2, "prompt", &repro);
    assert_eq!(request.call_id, "pi-agent-mcp-pi-3-r2");
    assert_eq!(request.scene_key, "pi-agent-pi");
    assert_eq!(mcp_final_call_id("pi", 3), "pi-agent-mcp-final-pi-3");
    let result = McpToolCallResult {
        ok: true,
        is_error: false,
        content: vec![McpToolContentBlock::Text { text: "hello".into() }, McpToolContentBlock::Image],
    };
    let hash = stable_sha256_hash("ok=true is_error=false blocks=[text,image]");
    assert_eq!(
        tool_evidence(1, "search", "srv", &result),
        format!("\n[r1 tool=search server=srv blocks=[text,image] content_hash=sha256:{}]", &hash[..12])
    );
    let replayed = final_turn_reproducibility(&repro, 11, &Some("sha256:mcp".into()));
    assert_eq!(replayed.run_seed, 11);
    assert_eq!(replayed.mcp_tool_call_hash.as_deref(), Some("sha256:mcp"));
    assert_eq!(replayed.model_version, "local-model");
}

#[test]
fn mcp_final_turn_maps_pipeline_failures() {
    let failed = finalize_mcp_turn(
        "pi",
        3,
        Err(ProviderPipelineError::Validation { agent: AgentRole::ScenePlanner, message: "bad".into() }),
        None,
        "",
    );
    assert_eq!(
        failed,
        Err(McpLoopError::ProviderFailure {
            code: "text_provider_schema_validation".into(),
            message: "ScenePlanner returned invalid proposal: bad".into()
        })
    );
    let env = envelope(AgentRole::ScenePlanner, PayloadKind::ScenePlan);
    let (result, returned) = finalize_mcp_turn("pi", 3, Ok(env.clone()), Some("sha256:m".into()), "").expect("final");
    assert_eq!(returned, env);
    assert!(result.evidence_summary.ends_with("with MCP tool use."));
    let leaky = finalize_mcp_turn("pi", 3, Ok(env), Some("sha256:m".into()), " token=x");
    assert_eq!(leaky.map(|_| ()), Err(McpLoopError::ToolResultSecretMarker { tool_name: "<evidence-summary>".into() }));
}

#[test]
fn generated_character_hashes_the_prompt() {
    let character = plotforge_agent::generation::generated_character("agent=CharacterDesigner; concept=spy", "sha256:cfg");
    assert_eq!(character.id, "generated-character");
    assert_eq!(character.traits, vec!["observant", "cost-aware", "direct"]);
    let portrait = character.portrait_request.expect("portrait");
    assert_eq!(portrait.prompt_hash, format!("sha256:{}", stable_sha256_hash("agent=CharacterDesigner; concept=spy")));
    assert_eq!(portrait.provider_config_hash, "sha256:cfg");
}

#[test]
fn template_prompt_version_replaces_the_providers_own() {
    let base = reproducibility(None);
    let stamped = request_reproducibility(base.clone(), Some("scene_planner_v1"));
    assert_eq!(stamped.prompt_version, "scene_planner_v1");
    assert_eq!(stamped.model_version, base.model_version);
    assert_eq!(stamped.provider_config_hash, base.provider_config_hash);
    assert_eq!(request_reproducibility(base.clone(), None), base);
}
