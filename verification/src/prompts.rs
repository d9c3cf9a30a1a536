//! Prompt template system and version management.
//!
//! Templates are versioned for reproducibility: every template carries a
//! `version` string that flows into the reproducibility metadata so a
//! generated envelope can be traced back to the template that produced it.
//! Roles without a built-in template keep the legacy shared prompt version.

use vstd::prelude::*;
use crate::schema::AgentRole;
use crate::text::join_seq;

verus! {

/// The role of a chat message within a multi-turn prompt.
#[derive(Clone, Copy, Debug, PartialEq, Eq, Structural)]
pub enum MessageRole {
    System,
    User,
    Assistant,
}

/// Lowercase wire token of a role.
pub open spec fn role_token(role: MessageRole) -> Seq<char> {
    match role {
        MessageRole::System => "system"@,
        MessageRole::User => "user"@,
        MessageRole::Assistant => "assistant"@,
    }
}

impl MessageRole {
    /// Returns the lowercase wire string for the role (`"system"`, `"user"`,
    /// `"assistant"`), the value serialized into chat request bodies.
    pub fn as_str(&self) -> (r: &'static str)
        ensures
            r@ == role_token(*self),
    {
        match self {
            MessageRole::System => "system",
            MessageRole::User => "user",
            MessageRole::Assistant => "assistant",
        }
    }
}

/// A single chat message: a role plus content.
#[derive(Clone, Debug, PartialEq, Eq)]
pub struct ChatMessage {
    pub role: MessageRole,
    pub content: String,
}

impl ChatMessage {
    /// Construct a message with the given role and content.
    pub fn new(role: MessageRole, content: &str) -> (r: ChatMessage)
        ensures
            r.role == role,
            r.content@ == content@,
    {
        ChatMessage { role, content: String::from_str(content) }
    }

    /// Convenience constructor for a system message.
    pub fn system(content: &str) -> (r: ChatMessage)
        ensures
            r.role == MessageRole::System,
            r.content@ == content@,
    {
        Self::new(MessageRole::System, content)
    }

    /// Convenience constructor for a user message.
    pub fn user(content: &str) -> (r: ChatMessage)
        ensures
            r.role == MessageRole::User,
            r.content@ == content@,
    {
        Self::new(MessageRole::User, content)
    }
}

/// A versioned prompt template for an agent role. `id` is a stable
/// identifier, `version` the reproducibility version string,
/// `system_message` the role text and `output_instructions` the JSON output
/// contract the model must follow.
#[derive(Clone, Copy, Debug, PartialEq, Eq)]
pub struct PromptTemplate {
    pub id: &'static str,
    pub version: &'static str,
    pub system_message: &'static str,
    pub output_instructions: &'static str,
}

/// The prompt version reported by callers that have no template.
pub const TEXT_PROMPT_VERSION: &'static str = "plotforge-agent-text-prompt-v1";

/// Built-in ScenePlanner template (v1).
#[allow(non_snake_case)]
pub fn SCENE_PLANNER_V1() -> (r: PromptTemplate)
    ensures
        r.id@ == "scene_planner"@,
        r.version@ == "scene_planner_v1"@,
{
    PromptTemplate {
        id: "scene_planner",
        version: "scene_planner_v1",
        system_message: "You are the ScenePlanner agent for PlotForge. Your job is to propose the next scene as a structured scene plan. Given the current story state, world bible, canon, and player intent, choose a scene key, title, location, summary, dramatic purpose, hook, and entry beat. Keep the player in control: every scene must introduce visible pressure and a concrete consequence, never a hidden prophecy or a cost-free resolution. Do not invent facts that contradict the canon or the forbidden facts. Return your result as a JSON AgentOutputEnvelope whose proposal.output is a ScenePlan payload.",
        output_instructions: "Respond with a single JSON object matching the AgentOutputEnvelope schema: { id, contract_version, schema_version, agent, reproducibility, proposal }. The proposal.output must be a ScenePlan payload with non-empty scene_key, title, location, scene_summary, dramatic_purpose, hook, and entry_beat_id. Output only the JSON object \u{2014} no prose, no markdown fences, no commentary.",
    }
}

/// Built-in BeatWriter template (v1).
#[allow(non_snake_case)]
pub fn BEAT_WRITER_V1() -> (r: PromptTemplate)
    ensures
        r.id@ == "beat_writer"@,
        r.version@ == "beat_writer_v1"@,
{
    PromptTemplate {
        id: "beat_writer",
        version: "beat_writer_v1",
        system_message: "You are the BeatWriter agent for PlotForge. Your job is to write the beats for a planned scene. Given the scene plan, world bible, style guide, and current story state, write the narrative beats and the choices the player can take. Each beat must be specific and consequence-first; each choice must have a clear dramatic purpose and an action_type. Keep prose tight and avoid vague grandeur or convenient prophecy. Do not contradict canon, forbidden facts, or the scene plan. Return your result as a JSON AgentOutputEnvelope whose proposal.output is a BeatDrafts payload.",
        output_instructions: "Respond with a single JSON object matching the AgentOutputEnvelope schema: { id, contract_version, schema_version, agent, reproducibility, proposal }. The proposal.output must be a BeatDrafts payload with the scene's scene_key and a non-empty beats list. Each beat needs a unique id, the scene_key, narrative text, at least one choice, and a narrative_function. Output only the JSON object \u{2014} no prose, no markdown fences, no commentary.",
    }
}

/// Built-in PlotDoctor template (v1).
#[allow(non_snake_case)]
pub fn PLOT_DOCTOR_V1() -> (r: PromptTemplate)
    ensures
        r.id@ == "plot_doctor"@,
        r.version@ == "plot_doctor_v1"@,
{
    PromptTemplate {
        id: "plot_doctor",
        version: "plot_doctor_v1",
        system_message: "You are the PlotDoctor agent for PlotForge. Your job is to review the narrative quality of a scene and its beats. Given the scene plan, beats, world bible, and style guide, score the scene on hook, pacing, character consistency, payoff, and choice meaningfulness; estimate the AI-slop risk; and list concrete issues to fix. Be honest and specific: do not inflate scores, and do not rubber-stamp vague prose. Return your result as a JSON AgentOutputEnvelope whose proposal.output is a Review payload carrying a NarrativeReview.",
        output_instructions: "Respond with a single JSON object matching the AgentOutputEnvelope schema: { id, contract_version, schema_version, agent, reproducibility, proposal }. The proposal.output must be a Review payload with a NarrativeReview that has the scene's scene_key and all score fields populated (hook_score, pacing_score, character_consistency_score, payoff_score, choice_meaningfulness_score, score, ai_slop_risk). Output only the JSON object \u{2014} no prose, no markdown fences, no commentary.",
    }
}

/// Assembles a chat-message list from a prompt template and per-call context.
#[derive(Clone, Copy, Debug, Default, PartialEq, Eq)]
pub struct PromptAssembler;

impl PromptAssembler {
    /// The two-message chat list for `template` + `context`: a `System`
    /// message holding `system_message`, a blank line and
    /// `output_instructions`, then a `User` message holding `context`
    /// verbatim.
    pub fn assemble(template: &PromptTemplate, context: &str) -> (r: Vec<ChatMessage>)
        ensures
            r@.len() == 2,
            r@[0].role == MessageRole::System,
            r@[0].content@ == template.system_message@ + "\n\n"@ + template.output_instructions@,
            r@[1].role == MessageRole::User,
            r@[1].content@ == context@,
    {
        let mut system_content = String::from_str(template.system_message);
        system_content.append("\n\n");
        system_content.append(template.output_instructions);
        let mut messages: Vec<ChatMessage> = Vec::new();
        messages.push(ChatMessage { role: MessageRole::System, content: system_content });
        messages.push(ChatMessage::user(context));
        messages
    }
}

/// Prompt version of the built-in template for `role`, or the legacy shared
/// version for roles without one.
pub open spec fn role_prompt_version(role: AgentRole) -> Seq<char> {
    match role {
        AgentRole::ScenePlanner => "scene_planner_v1"@,
        AgentRole::BeatWriter => "beat_writer_v1"@,
        AgentRole::PlotDoctor => "plot_doctor_v1"@,
        _ => TEXT_PROMPT_VERSION@,
    }
}

/// Maps an agent role to the version string of its built-in prompt
/// template; roles without a template report the legacy shared version.
pub fn prompt_version_for_role(role: &AgentRole) -> (r: &'static str)
    ensures
        r@ == role_prompt_version(*role),
{
    match role {
        AgentRole::ScenePlanner => SCENE_PLANNER_V1().version,
        AgentRole::BeatWriter => BEAT_WRITER_V1().version,
        AgentRole::PlotDoctor => PLOT_DOCTOR_V1().version,
        AgentRole::StoryArchitect | AgentRole::StoryCraftPlanner | AgentRole::CharacterDesigner
        | AgentRole::ConsistencyChecker | AgentRole::DeslopRefiner => TEXT_PROMPT_VERSION,
    }
}

/// Contents of the messages with role `role`, in order.
pub open spec fn role_contents(ms: Seq<ChatMessage>, role: MessageRole) -> Seq<Seq<char>>
    decreases ms.len(),
{
    if ms.len() == 0 {
        seq![]
    } else {
        let t = role_contents(ms.drop_last(), role);
        if ms.last().role == role {
            t.push(ms.last().content@)
        } else {
            t
        }
    }
}

/// The contents of the messages with role `role`, joined with `"\n"`.
pub fn join_role_contents(messages: &[ChatMessage], role: MessageRole) -> (r: String)
    ensures
        r@ == join_seq(role_contents(messages@, role), "\n"@),
{
    let mut out = String::new();
    let mut count: usize = 0;
    let mut i: usize = 0;
    while i < messages.len()
        invariant
            i <= messages@.len(),
            count <= i,
            count == role_contents(messages@.take(i as int), role).len(),
            out@ == join_seq(role_contents(messages@.take(i as int), role), "\n"@),
        decreases messages@.len() - i,
    {
        let ghost before = role_contents(messages@.take(i as int), role);
        assert(messages@.take(i + 1).drop_last() =~= messages@.take(i as int));
        if messages[i].role == role {
            if count > 0 {
                out.append("\n");
            }
            out.append(messages[i].content.as_str());
            let ghost after = before.push(messages@[i as int].content@);
            assert(after.drop_last() =~= before);
            count = count + 1;
        }
        i = i + 1;
    }
    assert(messages@.take(i as int) =~= messages@);
    out
}

} // verus!
