use plotforge_agent::prompts::{
    prompt_version_for_role, ChatMessage, MessageRole, PromptAssembler, PromptTemplate,
    BEAT_WRITER_V1, PLOT_DOCTOR_V1, SCENE_PLANNER_V1, TEXT_PROMPT_VERSION,
};
use plotforge_agent::schema::AgentRole;

#[test]
fn message_role_as_str_returns_wire_tokens() {
    assert_eq!(MessageRole::System.as_str(), "system");
    assert_eq!(MessageRole::User.as_str(), "user");
    assert_eq!(MessageRole::Assistant.as_str(), "assistant");
}

#[test]
fn chat_message_derives_clone_copy_debug_eq() {
    let role = MessageRole::User;
    let copied_role = role;
    assert_eq!(role, copied_role);

    let msg = ChatMessage::system("hello");
    let cloned = msg.clone();
    assert_eq!(msg, cloned);
    let debug = format!("{msg:?}");
    assert!(debug.contains("ChatMessage"));
    assert!(debug.contains("System"));
}

#[test]
fn chat_message_constructors_set_role_and_content() {
    let sys = ChatMessage::system("system-text");
    assert_eq!(sys.role, MessageRole::System);
    assert_eq!(sys.content, "system-text");

    let usr = ChatMessage::user("user-text");
    assert_eq!(usr.role, MessageRole::User);
    assert_eq!(usr.content, "user-text");

    let general = ChatMessage::new(MessageRole::Assistant, "assistant-text");
    assert_eq!(general.role, MessageRole::Assistant);
    assert_eq!(general.content, "assistant-text");
}

fn test_template(system_message: &'static str, output_instructions: &'static str) -> PromptTemplate {
    PromptTemplate { id: "test", version: "test_v1", system_message, output_instructions }
}

#[test]
fn assembler_returns_system_then_user() {
    let template = test_template("ROLE", "OUTPUT");
    let messages = PromptAssembler::assemble(&template, "CONTEXT");
    assert_eq!(messages.len(), 2, "assemble must produce exactly 2 messages");
    assert_eq!(messages[0].role, MessageRole::System);
    assert_eq!(messages[1].role, MessageRole::User);
}

#[test]
fn assembler_system_message_concatenates_system_and_output_instructions() {
    let template = test_template("ROLE-TEXT", "OUTPUT-TEXT");
    let messages = PromptAssembler::assemble(&template, "ignored-context");
    assert_eq!(messages[0].content, "ROLE-TEXT\n\nOUTPUT-TEXT");
    assert!(messages[0].content.contains("ROLE-TEXT"));
    assert!(messages[0].content.contains("OUTPUT-TEXT"));
}

#[test]
fn assembler_user_message_contains_context() {
    let template = test_template("ROLE", "OUTPUT");
    let messages = PromptAssembler::assemble(&template, "the per-call context");
    assert_eq!(messages[1].role, MessageRole::User);
    assert_eq!(messages[1].content, "the per-call context");
}

#[test]
fn assembler_with_empty_context_still_emits_user_message() {
    let template = test_template("ROLE", "OUTPUT");
    let messages = PromptAssembler::assemble(&template, "");
    assert_eq!(messages.len(), 2);
    assert_eq!(messages[1].role, MessageRole::User);
    assert_eq!(messages[1].content, "");
}

#[test]
fn built_in_templates_have_distinct_versions_and_ids() {
    assert_eq!(SCENE_PLANNER_V1().id, "scene_planner");
    assert_eq!(SCENE_PLANNER_V1().version, "scene_planner_v1");
    assert_eq!(BEAT_WRITER_V1().id, "beat_writer");
    assert_eq!(BEAT_WRITER_V1().version, "beat_writer_v1");
    assert_eq!(PLOT_DOCTOR_V1().id, "plot_doctor");
    assert_eq!(PLOT_DOCTOR_V1().version, "plot_doctor_v1");

    let versions = [SCENE_PLANNER_V1().version, BEAT_WRITER_V1().version, PLOT_DOCTOR_V1().version];
    let unique: std::collections::HashSet<&str> = versions.iter().copied().collect();
    assert_eq!(unique.len(), 3, "built-in template versions must be distinct");
}

#[test]
fn built_in_templates_have_non_empty_system_and_output() {
    for template in [SCENE_PLANNER_V1(), BEAT_WRITER_V1(), PLOT_DOCTOR_V1()] {
        assert!(!template.system_message.trim().is_empty(), "template {} system", template.id);
        assert!(!template.output_instructions.trim().is_empty(), "template {} output", template.id);
    }
}

#[test]
fn scene_planner_template_mentions_json_envelope_and_scene_plan() {
    let t = SCENE_PLANNER_V1();
    let combined = format!("{}\n\n{}", t.system_message, t.output_instructions);
    let lower = combined.to_lowercase();
    assert!(
        lower.contains("agentoutputenvelope")
            || lower.contains("agent output envelope")
            || lower.contains("json")
    );
    assert!(lower.contains("sceneplan") || lower.contains("scene plan"));
}

#[test]
fn beat_writer_template_mentions_beats() {
    let t = BEAT_WRITER_V1();
    let combined = format!("{}\n\n{}", t.system_message, t.output_instructions);
    let lower = combined.to_lowercase();
    assert!(lower.contains("beatdrafts") || lower.contains("beat drafts") || lower.contains("beats"));
}

#[test]
fn plot_doctor_template_mentions_review() {
    let t = PLOT_DOCTOR_V1();
    let combined = format!("{}\n\n{}", t.system_message, t.output_instructions);
    let lower = combined.to_lowercase();
    assert!(
        lower.contains("narrativereview")
            || lower.contains("narrative review")
            || lower.contains("review")
    );
}

#[test]
fn prompt_version_for_role_maps_scene_planner_correctly() {
    assert_eq!(prompt_version_for_role(&AgentRole::ScenePlanner), SCENE_PLANNER_V1().version);
}

#[test]
fn prompt_version_for_role_maps_beat_writer_correctly() {
    assert_eq!(prompt_version_for_role(&AgentRole::BeatWriter), BEAT_WRITER_V1().version);
}

#[test]
fn prompt_version_for_role_maps_plot_doctor_correctly() {
    assert_eq!(prompt_version_for_role(&AgentRole::PlotDoctor), PLOT_DOCTOR_V1().version);
}

#[test]
fn prompt_version_for_role_falls_back_to_legacy_for_other_roles() {
    let legacy = TEXT_PROMPT_VERSION;
    for role in [
        AgentRole::StoryArchitect,
        AgentRole::StoryCraftPlanner,
        AgentRole::CharacterDesigner,
        AgentRole::ConsistencyChecker,
        AgentRole::DeslopRefiner,
    ] {
        assert_eq!(prompt_version_for_role(&role), legacy, "role {role:?} falls back");
    }
}

#[test]
fn prompt_version_for_role_distinct_for_templated_roles() {
    assert_ne!(prompt_version_for_role(&AgentRole::ScenePlanner), TEXT_PROMPT_VERSION);
    assert_ne!(prompt_version_for_role(&AgentRole::BeatWriter), TEXT_PROMPT_VERSION);
    assert_ne!(prompt_version_for_role(&AgentRole::PlotDoctor), TEXT_PROMPT_VERSION);
}

#[test]
fn prompt_template_is_copy() {
    let template = SCENE_PLANNER_V1();
    let copied = template;
    assert_eq!(template, copied);
}
