//! The parts of the PlotForge contract types that the agent logic reads,
//! held as plain values.

use vstd::prelude::*;

verus! {

/// The agent roles that take part in text generation.
#[derive(Clone, Copy, Debug, PartialEq, Eq, Structural)]
pub enum AgentRole {
    StoryArchitect,
    StoryCraftPlanner,
    CharacterDesigner,
    ScenePlanner,
    BeatWriter,
    PlotDoctor,
    ConsistencyChecker,
    DeslopRefiner,
}

/// Reproducibility identity recorded with every generated envelope.
#[derive(Clone, Debug, PartialEq, Eq)]
pub struct ReproducibilityMetadata {
    pub run_seed: u64,
    pub prompt_version: String,
    pub model_version: String,
    pub provider_config_hash: String,
    pub trace_id: Option<String>,
    pub snapshot_id: Option<String>,
    /// The hash of the MCP servers a turn could call, when it could.
    pub mcp_tool_call_hash: Option<String>,
}

fn copy_opt_string(o: &Option<String>) -> (r: Option<String>)
    ensures
        r == *o,
{
    match o {
        Some(s) => Some(s.clone()),
        None => None,
    }
}

impl ReproducibilityMetadata {
    /// A copy equal to this block (field by field).
    pub fn copied(&self) -> (r: ReproducibilityMetadata)
        ensures
            r == *self,
    {
        ReproducibilityMetadata {
            run_seed: self.run_seed,
            prompt_version: self.prompt_version.clone(),
            model_version: self.model_version.clone(),
            provider_config_hash: self.provider_config_hash.clone(),
            trace_id: copy_opt_string(&self.trace_id),
            snapshot_id: copy_opt_string(&self.snapshot_id),
            mcp_tool_call_hash: copy_opt_string(&self.mcp_tool_call_hash),
        }
    }
}

/// The wire protocol of a registered text provider.
#[derive(Clone, Copy, Debug, PartialEq, Eq, Structural)]
pub enum ProviderKind {
    OpenAiCompatible,
    OpenAiResponses,
    AnthropicMessages,
}

/// A registered text provider. Holds the *name* of the credential variable,
/// never a credential.
#[derive(Clone, Debug, PartialEq, Eq)]
pub struct ProviderEntry {
    pub id: String,
    pub kind: ProviderKind,
    pub label: String,
    pub endpoint_url: String,
    pub model: String,
    pub credential_env_var: String,
    pub enabled: bool,
    pub max_output_tokens: Option<u32>,
    pub max_concurrency: Option<u32>,
    pub requests_per_minute: Option<u32>,
    pub daily_token_budget: Option<u64>,
}

/// A registered image provider.
#[derive(Clone, Debug, PartialEq, Eq)]
pub struct ImageProviderEntry {
    pub id: String,
    pub endpoint_url: String,
    pub model: String,
    pub credential_env_var: String,
    pub enabled: bool,
    pub default_size: String,
    pub default_quality: String,
    pub max_concurrency: Option<u32>,
    pub requests_per_minute: Option<u32>,
    pub daily_token_budget: Option<u64>,
}

/// A registered text-to-speech provider.
#[derive(Clone, Debug, PartialEq, Eq)]
pub struct TtsProviderEntry {
    pub id: String,
    pub endpoint_url: String,
    pub model: String,
    pub credential_env_var: String,
    pub enabled: bool,
    pub voice: String,
    pub format: String,
    pub max_concurrency: Option<u32>,
    pub requests_per_minute: Option<u32>,
    pub daily_token_budget: Option<u64>,
}

/// A registered moderation provider.
#[derive(Clone, Debug, PartialEq, Eq)]
pub struct ModerationProviderEntry {
    pub id: String,
    pub endpoint_url: String,
    pub model: String,
    pub credential_env_var: String,
    pub enabled: bool,
    pub max_concurrency: Option<u32>,
    pub requests_per_minute: Option<u32>,
    pub daily_token_budget: Option<u64>,
}

/// The user-global provider registry.
#[derive(Clone, Debug, PartialEq, Eq)]
pub struct ProviderRegistry {
    pub version: String,
    pub providers: Vec<ProviderEntry>,
    pub image_providers: Vec<ImageProviderEntry>,
    pub tts_providers: Vec<TtsProviderEntry>,
    pub moderation_providers: Vec<ModerationProviderEntry>,
}

impl Default for ProviderRegistry {
    /// An empty registry.
    fn default() -> (r: ProviderRegistry)
        ensures
            r.version@.len() == 0,
            r.providers@.len() == 0,
            r.image_providers@.len() == 0,
            r.tts_providers@.len() == 0,
            r.moderation_providers@.len() == 0,
    {
        ProviderRegistry {
            version: String::new(),
            providers: Vec::new(),
            image_providers: Vec::new(),
            tts_providers: Vec::new(),
            moderation_providers: Vec::new(),
        }
    }
}

/// One model that a provider serves, as its `/models` listing describes it.
#[derive(Clone, Debug, PartialEq, Eq)]
pub struct RemoteModelInfo {
    pub id: String,
    pub owned_by: Option<String>,
    pub created: Option<u64>,
    pub max_input_tokens: Option<u32>,
    pub max_output_tokens: Option<u32>,
}

/// A cached model listing and when it was fetched (Unix seconds).
#[derive(Clone, Debug, PartialEq, Eq)]
pub struct RemoteModelList {
    pub models: Vec<RemoteModelInfo>,
    pub fetched_at: u64,
}

/// The outcome of a moderation pre-flight that let the content through.
#[derive(Clone, Debug, PartialEq, Eq)]
pub struct ModerationOutcomeSummary {
    pub flagged: bool,
    pub categories: Vec<String>,
}

/// The kind of a media asset produced by the generation pipelines.
#[derive(Clone, Copy, Debug, PartialEq, Eq, Structural)]
pub enum AssetKind {
    Image,
    Audio,
    Voice,
}

/// Where a beat leads.
#[derive(Clone, Debug, PartialEq, Eq)]
pub enum BeatNext {
    /// No continuation is set.
    Unset,
    Beat(String),
    Scene,
    End,
}

/// A player choice offered by a beat.
#[derive(Clone, Debug, PartialEq, Eq)]
pub struct Choice {
    pub id: String,
    pub label: String,
    pub action_type: String,
    pub input_terms: Vec<String>,
    pub dramatic_purpose: String,
    pub change_scene: bool,
}

/// One beat of a scene.
#[derive(Clone, Debug, PartialEq, Eq)]
pub struct Beat {
    pub id: String,
    pub text: String,
    pub speaker: Option<String>,
    pub line_delivery: Option<String>,
    pub audio_refs: Vec<String>,
    pub choices: Vec<Choice>,
    pub next: BeatNext,
}

/// A scene, with its beats and the plot thread updates it makes (in order,
/// each thread once).
#[derive(Clone, Debug, PartialEq, Eq)]
pub struct Scene {
    pub key: String,
    pub title: String,
    pub location: String,
    pub dramatic_purpose: String,
    pub hook: String,
    pub background_asset: String,
    pub audio_refs: Vec<String>,
    pub character_ids: Vec<String>,
    pub plot_thread_updates: Vec<(String, String)>,
    pub entry_beat_id: Option<String>,
    pub beats: Vec<Beat>,
}

/// A runtime error as the pipelines report it: a stable code and a message.
#[derive(Clone, Debug, PartialEq, Eq)]
pub struct RuntimeError {
    pub code: String,
    pub message: String,
}

/// The kind of payload an agent proposal carries.
#[derive(Clone, Copy, Debug, PartialEq, Eq, Structural)]
pub enum PayloadKind {
    WorldExpansion,
    StoryCraftPlan,
    CharacterProfile,
    ScenePlan,
    BeatDrafts,
    Review,
}

/// The parts of an agent output envelope that the pipelines check: its
/// versions, the agent that wrote it and the agent of its proposal, the kind
/// of payload, and its reproducibility block.
#[derive(Clone, Debug, PartialEq, Eq)]
pub struct AgentOutputEnvelope {
    pub contract_version: String,
    pub schema_version: String,
    pub agent: AgentRole,
    pub proposal_agent: AgentRole,
    pub payload: PayloadKind,
    pub reproducibility: ReproducibilityMetadata,
}

/// The skeleton of a scene that a scene-plan proposal carries.
#[derive(Clone, Debug, PartialEq, Eq)]
pub struct ScenePlanProposal {
    pub scene_key: String,
    pub title: String,
    pub location: String,
    pub scene_summary: String,
    pub dramatic_purpose: String,
    pub hook: String,
    pub cast: Vec<String>,
    pub entry_beat_id: String,
    pub background_asset: Option<String>,
}

/// A narrative review of a scene: scores out of 100 and the issues found.
#[derive(Clone, Debug, PartialEq, Eq)]
pub struct NarrativeReview {
    pub scene_key: String,
    pub score: u32,
    pub hook_score: u32,
    pub pacing_score: u32,
    pub character_consistency_score: u32,
    pub payoff_score: u32,
    pub choice_meaningfulness_score: u32,
    pub ai_slop_risk: u32,
    pub issues: Vec<String>,
}

/// A request for a character portrait.
#[derive(Clone, Debug, PartialEq, Eq)]
pub struct CharacterPortraitRequest {
    pub prompt_summary: String,
    pub style: String,
    pub target_asset_slot: String,
    pub prompt_hash: String,
    pub provider_config_hash: String,
    pub reference_asset_ids: Vec<String>,
    pub fallback_allowed: bool,
}

/// A story character.
#[derive(Clone, Debug, PartialEq, Eq)]
pub struct Character {
    pub id: String,
    pub name: String,
    pub role: String,
    pub traits: Vec<String>,
    pub visual_card: String,
    pub voice_card: String,
    pub portrait_request: Option<CharacterPortraitRequest>,
}

} // verus!
