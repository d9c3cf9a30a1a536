//! World, story-craft and character generation: the prompts sent to the
//! text agents, the evidence recorded for an answer or a fallback, and the
//! placeholder character used when generation fails.

use vstd::prelude::*;
use vstd::utf8::encode_utf8;
use crate::agent_output::{expect_payload, runtime_error_of, payload_kind_text, ProviderPipelineError};
use crate::scene_planner::role_name;
use crate::schema::{
    AgentOutputEnvelope, AgentRole, Character, CharacterPortraitRequest, PayloadKind,
    ReproducibilityMetadata, RuntimeError,
};
use crate::shared::{hex_lower, sha256_utf8, stable_sha256_hash};
use crate::text::{decimal_string, is_blank, is_blank_str, trim, trim_seq, u64_to_string};

verus! {

/// Whether a generation used the provider's answer or fell back.
#[derive(Clone, Copy, Debug, PartialEq, Eq, Structural)]
pub enum GenerationStatus {
    Succeeded,
    Fallback,
}

/// What a generation records about how its result was made.
#[derive(Clone, Debug, PartialEq, Eq)]
pub struct GenerationEvidence {
    pub status: GenerationStatus,
    pub fallback_used: bool,
    pub error: Option<RuntimeError>,
    pub reproducibility: ReproducibilityMetadata,
    pub envelopes: Vec<AgentOutputEnvelope>,
}

/// The byte length of a text, written in decimal.
pub open spec fn byte_len_text(s: Seq<char>) -> Seq<char> {
    decimal_string((encode_utf8(s).len() as usize) as nat)
}

fn byte_len_string(s: &str) -> (r: String)
    ensures
        r@ == byte_len_text(s@),
{
    u64_to_string(s.len() as u64)
}

/// The prompt of a world expansion.
pub open spec fn world_prompt_text(
    expansion_goal: Seq<char>,
    world_bible_markdown: Seq<char>,
    canon_markdown: Seq<char>,
    forbidden_fact_count: nat,
) -> Seq<char> {
    "agent=StoryArchitect; expansion_goal="@ + expansion_goal + "; world_bible_chars="@
        + byte_len_text(world_bible_markdown) + "; canon_chars="@ + byte_len_text(canon_markdown)
        + "; forbidden_fact_count="@ + decimal_string(forbidden_fact_count)
}

pub fn world_generation_prompt(
    expansion_goal: &str,
    world_bible_markdown: &str,
    canon_markdown: &str,
    forbidden_facts: &Vec<String>,
) -> (r: String)
    ensures
        r@ == world_prompt_text(
            expansion_goal@,
            world_bible_markdown@,
            canon_markdown@,
            forbidden_facts@.len(),
        ),
{
    let mut r = String::from_str("agent=StoryArchitect; expansion_goal=");
    r.append(expansion_goal);
    r.append("; world_bible_chars=");
    r.append(byte_len_string(world_bible_markdown).as_str());
    r.append("; canon_chars=");
    r.append(byte_len_string(canon_markdown).as_str());
    r.append("; forbidden_fact_count=");
    r.append(u64_to_string(forbidden_facts.len() as u64).as_str());
    r
}

/// The prompt of a story-craft plan.
pub open spec fn story_craft_prompt_text(
    concept: Seq<char>,
    world_bible_markdown: Seq<char>,
    canon_markdown: Seq<char>,
    forbidden_fact_count: nat,
    character_count: nat,
) -> Seq<char> {
    "agent=StoryCraftPlanner; concept="@ + concept + "; world_bible_chars="@ + byte_len_text(
        world_bible_markdown,
    ) + "; canon_chars="@ + byte_len_text(canon_markdown) + "; forbidden_fact_count="@
        + decimal_string(forbidden_fact_count) + "; character_count="@ + decimal_string(
        character_count,
    )
}

pub fn story_craft_generation_prompt(
    concept: &str,
    world_bible_markdown: &str,
    canon_markdown: &str,
    forbidden_fact_count: usize,
    character_count: usize,
) -> (r: String)
    ensures
        r@ == story_craft_prompt_text(
            concept@,
            world_bible_markdown@,
            canon_markdown@,
            forbidden_fact_count as nat,
            character_count as nat,
        ),
{
    let mut r = String::from_str("agent=StoryCraftPlanner; concept=");
    r.append(concept);
    r.append("; world_bible_chars=");
    r.append(byte_len_string(world_bible_markdown).as_str());
    r.append("; canon_chars=");
    r.append(byte_len_string(canon_markdown).as_str());
    r.append("; forbidden_fact_count=");
    r.append(u64_to_string(forbidden_fact_count as u64).as_str());
    r.append("; character_count=");
    r.append(u64_to_string(character_count as u64).as_str());
    r
}

/// The prompt of a character design.
pub open spec fn character_prompt_text(
    concept: Seq<char>,
    role_hint: Seq<char>,
    existing_character_count: nat,
    world_bible_markdown: Seq<char>,
    story_bible_markdown: Seq<char>,
) -> Seq<char> {
    "agent=CharacterDesigner; concept="@ + concept + "; role_hint="@ + role_hint
        + "; existing_character_count="@ + decimal_string(existing_character_count)
        + "; world_bible_chars="@ + byte_len_text(world_bible_markdown) + "; story_bible_chars="@
        + byte_len_text(story_bible_markdown)
}

pub fn character_generation_prompt(
    concept: &str,
    role_hint: &str,
    existing_character_count: usize,
    world_bible_markdown: &str,
    story_bible_markdown: &str,
) -> (r: String)
    ensures
        r@ == character_prompt_text(
            concept@,
            role_hint@,
            existing_character_count as nat,
            world_bible_markdown@,
            story_bible_markdown@,
        ),
{
    let mut r = String::from_str("agent=CharacterDesigner; concept=");
    r.append(concept);
    r.append("; role_hint=");
    r.append(role_hint);
    r.append("; existing_character_count=");
    r.append(u64_to_string(existing_character_count as u64).as_str());
    r.append("; world_bible_chars=");
    r.append(byte_len_string(world_bible_markdown).as_str());
    r.append("; story_bible_chars=");
    r.append(byte_len_string(story_bible_markdown).as_str());
    r
}

/// The evidence of a generation.
pub fn generation_evidence(
    status: GenerationStatus,
    fallback_used: bool,
    error: Option<RuntimeError>,
    reproducibility: ReproducibilityMetadata,
    envelopes: Vec<AgentOutputEnvelope>,
) -> (r: GenerationEvidence)
    ensures
        r == (GenerationEvidence { status, fallback_used, error, reproducibility, envelopes }),
{
    GenerationEvidence { status, fallback_used, error, reproducibility, envelopes }
}

/// `ev` records a fallback after `error`, with the local reproducibility
/// block and no envelope.
pub open spec fn is_fallback_evidence(
    ev: GenerationEvidence,
    error: ProviderPipelineError,
    local: ReproducibilityMetadata,
) -> bool {
    &&& ev.status == GenerationStatus::Fallback
    &&& ev.fallback_used
    &&& ev.error matches Some(e) && (e.code@, e.message@) == runtime_error_of(error)
    &&& ev.reproducibility == local
    &&& ev.envelopes@.len() == 0
}

/// The evidence of a generation that fell back after `error`.
pub fn fallback_evidence(error: ProviderPipelineError, local: ReproducibilityMetadata) -> (r:
    GenerationEvidence)
    ensures
        is_fallback_evidence(r, error, local),
{
    let runtime_error = error.into_runtime_error();
    generation_evidence(GenerationStatus::Fallback, true, Some(runtime_error), local, Vec::new())
}

/// The evidence of a generation by `agent` that expects a `expected`
/// payload, from the outcome of its text-agent call: the envelope when the
/// call succeeded with that payload, else a fallback after the failure (an
/// unexpected payload is a validation failure naming it).
pub fn generation_outcome(
    agent: AgentRole,
    expected: PayloadKind,
    outcome: Result<AgentOutputEnvelope, ProviderPipelineError>,
    local: ReproducibilityMetadata,
) -> (r: GenerationEvidence)
    ensures
        match outcome {
            Ok(envelope) => if envelope.payload == expected {
                &&& r.status == GenerationStatus::Succeeded
                &&& !r.fallback_used
                &&& r.error is None
                &&& r.reproducibility == envelope.reproducibility
                &&& r.envelopes@ == seq![envelope]
            } else {
                &&& r.status == GenerationStatus::Fallback
                &&& r.fallback_used
                &&& r.error matches Some(e) && e.code@ == "text_provider_schema_validation"@
                    && e.message@ == role_name(agent) + " returned invalid proposal: "@ + (
                "unexpected payload `"@ + payload_kind_text(envelope.payload) + "`"@)
                &&& r.reproducibility == local
                &&& r.envelopes@.len() == 0
            },
            Err(error) => is_fallback_evidence(r, error, local),
        },
{
    match outcome {
        Ok(envelope) => match expect_payload(agent, &envelope, expected) {
            Ok(()) => {
                let reproducibility = envelope.reproducibility.copied();
                let mut envelopes: Vec<AgentOutputEnvelope> = Vec::new();
                envelopes.push(envelope);
                generation_evidence(GenerationStatus::Succeeded, false, None, reproducibility, envelopes)
            },
            Err(error) => fallback_evidence(error, local),
        },
        Err(error) => fallback_evidence(error, local),
    }
}

/// The role of the placeholder character: the trimmed role hint, or a
/// generic catalyst when the hint is blank.
pub open spec fn fallback_role(role_hint: Seq<char>) -> Seq<char> {
    if is_blank(role_hint) {
        "Fallback story catalyst"@
    } else {
        trim_seq(role_hint)
    }
}

/// The hash of the placeholder character's portrait prompt.
pub open spec fn fallback_portrait_hash(concept: Seq<char>, role_hint: Seq<char>, run_seed: u64) -> Seq<char> {
    "sha256:"@ + hex_lower(
        sha256_utf8(concept + "\n"@ + role_hint + "\n"@ + decimal_string(run_seed as nat)),
    )
}

/// The placeholder character of a failed character generation: fixed id,
/// name and cards, the fallback role, and a portrait request that may fall
/// back, hashed from the request and the run seed. `local_config_hash` is
/// the provider configuration hash of the local reproducibility block.
pub fn fallback_character(concept: &str, role_hint: &str, run_seed: u64, local_config_hash: &str) -> (r:
    Character)
    ensures
        r.id@ == "fallback-character"@,
        r.name@ == "Fallback Character"@,
        r.role@ == fallback_role(role_hint@),
        crate::text::views(r.traits@) == seq!["visible fallback"@, "editable"@],
        r.visual_card@ == "Fallback character card; edit before production use."@,
        r.voice_card@ == "Plain fallback voice; edit before production use."@,
        r.portrait_request matches Some(p) && {
            &&& p.prompt_summary@ == "Fallback portrait request for "@ + fallback_role(role_hint@)
                + "."@
            &&& p.style@ == "local placeholder character card"@
            &&& p.target_asset_slot@ == "portrait"@
            &&& p.prompt_hash@ == fallback_portrait_hash(concept@, role_hint@, run_seed)
            &&& p.provider_config_hash@ == local_config_hash@
            &&& p.reference_asset_ids@.len() == 0
            &&& p.fallback_allowed
        },
{
    let role: &str = if is_blank_str(role_hint) {
        "Fallback story catalyst"
    } else {
        trim(role_hint)
    };
    let mut hash_input = String::from_str(concept);
    hash_input.append("\n");
    hash_input.append(role_hint);
    hash_input.append("\n");
    hash_input.append(u64_to_string(run_seed).as_str());
    let mut prompt_hash = String::from_str("sha256:");
    prompt_hash.append(stable_sha256_hash(hash_input.as_str()).as_str());
    let mut summary = String::from_str("Fallback portrait request for ");
    summary.append(role);
    summary.append(".");
    let mut traits: Vec<String> = Vec::new();
    traits.push(String::from_str("visible fallback"));
    traits.push(String::from_str("editable"));
    assert(crate::text::views(traits@) =~= seq!["visible fallback"@, "editable"@]);
    Character {
        id: String::from_str("fallback-character"),
        name: String::from_str("Fallback Character"),
        role: String::from_str(role),
        traits,
        visual_card: String::from_str("Fallback character card; edit before production use."),
        voice_card: String::from_str("Plain fallback voice; edit before production use."),
        portrait_request: Some(
            CharacterPortraitRequest {
                prompt_summary: summary,
                style: String::from_str("local placeholder character card"),
                target_asset_slot: String::from_str("portrait"),
                prompt_hash,
                provider_config_hash: String::from_str(local_config_hash),
                reference_asset_ids: Vec::new(),
                fallback_allowed: true,
            },
        ),
    }
}

/// The character the local provider proposes for a prompt: fixed cards
/// and traits, and a portrait request hashed from the prompt under the
/// provider's configuration hash.
pub fn generated_character(prompt: &str, provider_config_hash: &str) -> (r: Character)
    ensures
        r.id@ == "generated-character"@,
        r.name@ == "Generated Envoy"@,
        r.role@ == "Pressure-bearing story catalyst"@,
        crate::text::views(r.traits@) == seq!["observant"@, "cost-aware"@, "direct"@],
        r.visual_card@ == "Historically grounded portrait, restrained clothing, alert posture."@,
        r.voice_card@ == "Concise, tactful, and specific about consequences."@,
        r.portrait_request matches Some(p) && {
            &&& p.prompt_summary@ == "Portrait for a pressure-bearing story catalyst."@
            &&& p.style@ == "grounded historical character card"@
            &&& p.target_asset_slot@ == "portrait"@
            &&& p.prompt_hash@ == "sha256:"@ + hex_lower(sha256_utf8(prompt@))
            &&& p.provider_config_hash@ == provider_config_hash@
            &&& p.reference_asset_ids@.len() == 0
            &&& p.fallback_allowed
        },
{
    let mut prompt_hash = String::from_str("sha256:");
    prompt_hash.append(stable_sha256_hash(prompt).as_str());
    let mut traits: Vec<String> = Vec::new();
    traits.push(String::from_str("observant"));
    traits.push(String::from_str("cost-aware"));
    traits.push(String::from_str("direct"));
    assert(crate::text::views(traits@) =~= seq!["observant"@, "cost-aware"@, "direct"@]);
    Character {
        id: String::from_str("generated-character"),
        name: String::from_str("Generated Envoy"),
        role: String::from_str("Pressure-bearing story catalyst"),
        traits,
        visual_card: String::from_str(
            "Historically grounded portrait, restrained clothing, alert posture.",
        ),
        voice_card: String::from_str("Concise, tactful, and specific about consequences."),
        portrait_request: Some(
            CharacterPortraitRequest {
                prompt_summary: String::from_str("Portrait for a pressure-bearing story catalyst."),
                style: String::from_str("grounded historical character card"),
                target_asset_slot: String::from_str("portrait"),
                prompt_hash,
                provider_config_hash: String::from_str(provider_config_hash),
                reference_asset_ids: Vec::new(),
                fallback_allowed: true,
            },
        ),
    }
}

} // verus!
