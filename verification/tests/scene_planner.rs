use plotforge_agent::scene_planner::{agent_call_id, provider_plan_calls};
use plotforge_agent::schema::PayloadKind;
use plotforge_agent::agent_output::ProviderPipelineError;
use plotforge_agent::paths::{codex_curated_skills_dir, external_skill_root_candidates, redbox_skills_dir};
use plotforge_agent::providers_text::TextModelProviderError;
use plotforge_agent::schema::{AgentRole, BeatNext, ReproducibilityMetadata, ScenePlanProposal};
use plotforge_agent::scene_planner::{
    agent_role_name, choice_input_terms, civic_outcome, civic_scene, fallback_scene,
    image_continue_plan, mock_plan_scene, with_scene_background,
    pad3, payload_call_suffix, provider_continue_plan, provider_plan_outcome, resource,
    text_model_prompt, thread_for_action, turn_scene_key, ScenePlan,
};

#[test]
fn scene_keys_pad_turns_to_three_digits() {
    assert_eq!(pad3(0), "000");
    assert_eq!(pad3(7), "007");
    assert_eq!(pad3(42), "042");
    assert_eq!(pad3(123), "123");
    assert_eq!(pad3(12345), "12345");
    assert_eq!(turn_scene_key("civic-crisis", 3), "civic-crisis-003");
    assert_eq!(turn_scene_key("fallback", 1000), "fallback-1000");
}

#[test]
fn actions_map_to_plot_threads() {
    assert_eq!(thread_for_action("raise_tax"), "tax-disorder");
    assert_eq!(thread_for_action("inspect_corruption"), "council-insider");
    assert_eq!(thread_for_action("pay_army"), "border-payroll");
    assert_eq!(thread_for_action("continue"), "tax-disorder");
    assert_eq!(civic_outcome("pay_army").0, "Border Payroll Relief");
    assert_eq!(civic_outcome("something-else").0, "Council of Unsteady Advisers");
}

#[test]
fn roles_have_call_suffixes_and_debug_names() {
    assert_eq!(payload_call_suffix(AgentRole::ScenePlanner), "scene-plan");
    assert_eq!(payload_call_suffix(AgentRole::BeatWriter), "beats");
    assert_eq!(payload_call_suffix(AgentRole::PlotDoctor), "review");
    assert_eq!(agent_role_name(AgentRole::DeslopRefiner), "DeslopRefiner");
}

#[test]
fn choice_input_terms_cover_each_action() {
    assert_eq!(choice_input_terms("raise_tax"), vec!["raise", "tax", "levy", "加征", "港税"]);
    assert_eq!(choice_input_terms("continue")[0], "continue");
    assert!(choice_input_terms("unknown").is_empty());
}

#[test]
fn civic_scene_reports_resources_and_links_beats() {
    let scene = civic_scene(2, "raise_tax", "Raise the port tax.", 120, -5, 40);
    assert_eq!(scene.key, "civic-crisis-002");
    assert_eq!(scene.title, "Tax Resistance Memorials");
    assert_eq!(scene.location, "Civic Hall");
    assert_eq!(scene.background_asset, "assets/generated/civic-crisis-002.png");
    assert_eq!(scene.entry_beat_id.as_deref(), Some("civic-crisis-002-beat-001"));
    assert_eq!(scene.character_ids, vec!["city-treasurer", "guild-liaison"]);
    assert_eq!(scene.plot_thread_updates.len(), 1);
    assert_eq!(scene.plot_thread_updates[0].0, "tax-disorder");
    assert_eq!(scene.beats.len(), 2);
    assert_eq!(
        scene.beats[0].text,
        "The council absorbs the order: Raise the port tax. The treasury stands at 120, public order at -5, and army morale at 40."
    );
    assert_eq!(scene.beats[0].next, BeatNext::Beat("civic-crisis-002-beat-002".to_string()));
    assert_eq!(scene.beats[0].choices.len(), 4);
    assert!(!scene.beats[0].choices[2].change_scene);
    assert_eq!(scene.beats[1].next, BeatNext::Scene);
    assert_eq!(scene.beats[1].choices.len(), 3);
    assert!(scene.beats[1].choices.iter().all(|c| c.change_scene));
}

#[test]
fn fallback_scene_keeps_one_recovery_choice() {
    let scene = fallback_scene(5, "pay_army");
    assert_eq!(scene.key, "fallback-005");
    assert_eq!(scene.title, "Fallback Council");
    assert_eq!(scene.plot_thread_updates[0].0, "tax-disorder");
    assert_eq!(scene.plot_thread_updates[0].1, "Fallback response for action `pay_army`.");
    assert_eq!(scene.beats.len(), 2);
    assert_eq!(scene.beats[0].choices.len(), 1);
    assert_eq!(scene.beats[0].choices[0].action_type, "continue");
    assert_eq!(scene.beats[1].next, BeatNext::End);
}

#[test]
fn text_model_prompt_names_turn_and_action() {
    let prompt = text_model_prompt(AgentRole::ScenePlanner, "provider-scene-004", "pay_army", "Pay them now", 4);
    assert_eq!(
        prompt,
        "agent=ScenePlanner; scene_key=provider-scene-004; action_type=pay_army; player_input=Pay them now; turn=4"
    );
}

fn resources() -> Vec<(String, i32)> {
    vec![("treasury".to_string(), 80), ("army_morale".to_string(), -3)]
}

#[test]
fn resources_default_to_zero() {
    assert_eq!(resource(&resources(), "treasury"), 80);
    assert_eq!(resource(&resources(), "public_order"), 0);
}

#[test]
fn mock_planner_continues_or_builds_civic_scene() {
    let civic = mock_plan_scene(1, "pay_army", "Pay them.", &resources(), None);
    assert!(!civic.fallback_used);
    assert_eq!(civic.scene.key, "civic-crisis-002");
    assert_eq!(
        civic.scene.beats[0].text,
        "The council absorbs the order: Pay them. The treasury stands at 80, public order at 0, and army morale at -3."
    );
    let current = fallback_scene(9, "x");
    let kept = mock_plan_scene(1, "continue", "", &resources(), Some(current.clone()));
    assert_eq!(kept.scene, current);
    assert!(!kept.fallback_used);
    let missing = mock_plan_scene(1, "continue", "", &resources(), None);
    assert!(missing.fallback_used);
    assert_eq!(missing.scene.key, "fallback-002");
    let error = missing.error.expect("fallback error");
    assert_eq!(error.code, "fallback_scene");
    assert_eq!(error.message, "Mock agent used a fallback scene because the requested scene was missing.");
}

#[test]
fn provider_planner_falls_back_with_runtime_error() {
    let missing = provider_continue_plan(4, "continue", None);
    assert_eq!(
        missing.error.expect("error").message,
        "Provider pipeline used a fallback scene because the requested scene was missing."
    );
    let failed = provider_plan_outcome(
        4,
        "raise_tax",
        Err(ProviderPipelineError::Provider(TextModelProviderError::timeout("slow"))),
    );
    assert!(failed.fallback_used);
    assert_eq!(failed.scene.key, "fallback-005");
    let error = failed.error.expect("error");
    assert_eq!(error.code, "text_provider_timeout");
    assert_eq!(error.message, "text provider timed out: slow");
    let generated = civic_scene(5, "raise_tax", "x", 0, 0, 0);
    let ok = provider_plan_outcome(4, "raise_tax", Ok(generated.clone()));
    assert_eq!(ok.scene, generated);
    assert!(ok.error.is_none());
}

#[test]
fn scene_plan_from_proposal_seeds_one_entry_beat() {
    let proposal = ScenePlanProposal {
        scene_key: "provider-scene-003".into(),
        title: "Provider Planned Scene".into(),
        location: "Civic Hall".into(),
        scene_summary: "A fake text model proposes the next civic crisis.".into(),
        dramatic_purpose: "Exercise the pipeline.".into(),
        hook: "The fake provider returns a plan.".into(),
        cast: vec!["city-treasurer".into()],
        entry_beat_id: "  ".into(),
        background_asset: None,
    };
    let repro = ReproducibilityMetadata {
        run_seed: 1,
        prompt_version: "p".into(),
        model_version: "m".into(),
        provider_config_hash: "h".into(),
        trace_id: None,
        snapshot_id: None,
        mcp_tool_call_hash: None,
    };
    let plan = ScenePlan::from_proposal(&proposal, repro.clone()).expect("plan");
    assert_eq!(plan.scene.entry_beat_id.as_deref(), Some("provider-scene-003-beat-001"));
    assert_eq!(plan.scene.beats.len(), 1);
    assert_eq!(plan.scene.beats[0].text, proposal.scene_summary);
    assert_eq!(plan.scene.beats[0].next, BeatNext::Unset);
    assert_eq!(plan.scene.background_asset, "");
    assert_eq!(plan.review.score, 50);
    assert_eq!(plan.review.ai_slop_risk, 20);
    assert_eq!(plan.reproducibility, repro);
    assert!(!plan.fallback_used);
}

#[test]
fn external_skill_roots_follow_scan_order() {
    let roots = external_skill_root_candidates("/home/u");
    assert_eq!(roots.len(), 9);
    assert_eq!(roots[0], ("codex".to_string(), "/home/u/.codex/skills".to_string()));
    assert_eq!(roots[5], ("open_claw".to_string(), "/home/u/.openclaw/skills".to_string()));
    assert_eq!(roots[8], ("codex".to_string(), "/home/u/.codex/vendor_imports/skills/skills/.curated".to_string()));
    assert_eq!(redbox_skills_dir(None), None);
    assert_eq!(codex_curated_skills_dir(Some("/h/")).as_deref(), Some("/h/.codex/vendor_imports/skills/skills/.curated"));
}

#[test]
fn image_planner_sets_background_and_keeps_image_fallback() {
    let missing = image_continue_plan(0, "continue", None);
    assert_eq!(missing.scene.key, "fallback-001");
    assert_eq!(
        missing.error.expect("error").message,
        "Image provider pipeline used a fallback scene because the requested scene was missing."
    );
    let scene = civic_scene(3, "inspect_corruption", "Look.", 1, 2, 3);
    let planned = with_scene_background(scene.clone(), "assets/generated/civic-crisis-003.png", true, None);
    assert_eq!(planned.scene.background_asset, "assets/generated/civic-crisis-003.png");
    assert_eq!(planned.scene.key, scene.key);
    assert!(planned.fallback_used);
}

#[test]
fn provider_plan_calls_three_agents_in_order() {
    assert_eq!(agent_call_id("provider-scene-004", AgentRole::BeatWriter), "provider-scene-004-beats");
    assert_eq!(
        provider_plan_calls(),
        vec![
            (AgentRole::ScenePlanner, PayloadKind::ScenePlan),
            (AgentRole::BeatWriter, PayloadKind::BeatDrafts),
            (AgentRole::PlotDoctor, PayloadKind::Review),
        ]
    );
}
