//! Scene planner rules: planner errors, the provider-backed and mock
//! pipelines, scene keys, the plot thread and civic outcome of each player
//! action, the input terms that select a choice, and the provider prompt.

use vstd::prelude::*;
use crate::agent_output::{runtime_error_of, ProviderPipelineError};
use crate::schema::{
    AgentRole, Beat, BeatNext, Choice, NarrativeReview, PayloadKind, ReproducibilityMetadata,
    RuntimeError, Scene, ScenePlanProposal,
};
use crate::text::{is_blank, is_blank_str};
use crate::text::{decimal_string, str_eq, u64_to_string};

verus! {

#[derive(Clone, Debug, PartialEq, Eq)]
pub struct ScenePlannerError {
    pub code: String,
    pub message: String,
}

impl ScenePlannerError {
    pub fn new(code: &str, message: &str) -> (r: ScenePlannerError)
        ensures
            r.code@ == code@,
            r.message@ == message@,
    {
        ScenePlannerError { code: String::from_str(code), message: String::from_str(message) }
    }

    /// `{code}: {message}`.
    pub fn to_text(&self) -> (r: String)
        ensures
            r@ == self.code@ + ": "@ + self.message@,
    {
        let mut r = self.code.clone();
        r.append(": ");
        r.append(self.message.as_str());
        r
    }
}

/// Plans scenes through a text provider.
#[derive(Clone, Debug)]
pub struct ProviderAgentPipeline<P> {
    pub provider: P,
}

impl<P> ProviderAgentPipeline<P> {
    pub fn new(provider: P) -> (r: Self)
        ensures
            r.provider == provider,
    {
        ProviderAgentPipeline { provider }
    }
}

/// The deterministic offline scene planner.
#[derive(Clone, Copy, Debug, Default)]
pub struct MockAgentPipeline;

/// The plot thread a player action advances.
pub open spec fn thread_of(action_type: Seq<char>) -> Seq<char> {
    if action_type == "raise_tax"@ {
        "tax-disorder"@
    } else if action_type == "inspect_corruption"@ {
        "council-insider"@
    } else if action_type == "pay_army"@ {
        "border-payroll"@
    } else {
        "tax-disorder"@
    }
}

pub fn thread_for_action(action_type: &str) -> (r: &'static str)
    ensures
        r@ == thread_of(action_type@),
{
    if str_eq(action_type, "raise_tax") {
        "tax-disorder"
    } else if str_eq(action_type, "inspect_corruption") {
        "council-insider"
    } else if str_eq(action_type, "pay_army") {
        "border-payroll"
    } else {
        "tax-disorder"
    }
}

/// The suffix of a provider call id, by the role that answers it.
pub open spec fn call_suffix(agent: AgentRole) -> Seq<char> {
    match agent {
        AgentRole::ScenePlanner => "scene-plan"@,
        AgentRole::BeatWriter => "beats"@,
        AgentRole::PlotDoctor => "review"@,
        AgentRole::StoryArchitect => "story-architect"@,
        AgentRole::StoryCraftPlanner => "story-craft-planner"@,
        AgentRole::CharacterDesigner => "character-designer"@,
        AgentRole::ConsistencyChecker => "consistency-checker"@,
        AgentRole::DeslopRefiner => "deslop-refiner"@,
    }
}

pub fn payload_call_suffix(agent: AgentRole) -> (r: &'static str)
    ensures
        r@ == call_suffix(agent),
{
    match agent {
        AgentRole::ScenePlanner => "scene-plan",
        AgentRole::BeatWriter => "beats",
        AgentRole::PlotDoctor => "review",
        AgentRole::StoryArchitect => "story-architect",
        AgentRole::StoryCraftPlanner => "story-craft-planner",
        AgentRole::CharacterDesigner => "character-designer",
        AgentRole::ConsistencyChecker => "consistency-checker",
        AgentRole::DeslopRefiner => "deslop-refiner",
    }
}

/// `{:?}` of a role.
pub open spec fn role_name(agent: AgentRole) -> Seq<char> {
    match agent {
        AgentRole::StoryArchitect => "StoryArchitect"@,
        AgentRole::StoryCraftPlanner => "StoryCraftPlanner"@,
        AgentRole::CharacterDesigner => "CharacterDesigner"@,
        AgentRole::ScenePlanner => "ScenePlanner"@,
        AgentRole::BeatWriter => "BeatWriter"@,
        AgentRole::PlotDoctor => "PlotDoctor"@,
        AgentRole::ConsistencyChecker => "ConsistencyChecker"@,
        AgentRole::DeslopRefiner => "DeslopRefiner"@,
    }
}

pub fn agent_role_name(agent: AgentRole) -> (r: &'static str)
    ensures
        r@ == role_name(agent),
{
    match agent {
        AgentRole::StoryArchitect => "StoryArchitect",
        AgentRole::StoryCraftPlanner => "StoryCraftPlanner",
        AgentRole::CharacterDesigner => "CharacterDesigner",
        AgentRole::ScenePlanner => "ScenePlanner",
        AgentRole::BeatWriter => "BeatWriter",
        AgentRole::PlotDoctor => "PlotDoctor",
        AgentRole::ConsistencyChecker => "ConsistencyChecker",
        AgentRole::DeslopRefiner => "DeslopRefiner",
    }
}

/// `n` in decimal, left-padded with zeros to at least three digits
/// (`{n:03}`).
pub open spec fn padded3(n: nat) -> Seq<char> {
    let d = decimal_string(n);
    if d.len() >= 3 {
        d
    } else if d.len() == 2 {
        "0"@ + d
    } else {
        "00"@ + d
    }
}

pub fn pad3(n: u32) -> (r: String)
    ensures
        r@ == padded3(n as nat),
{
    let d = u64_to_string(n as u64);
    let len = d.unicode_len();
    if len >= 3 {
        d
    } else if len == 2 {
        let mut r = String::from_str("0");
        r.append(d.as_str());
        r
    } else {
        let mut r = String::from_str("00");
        r.append(d.as_str());
        r
    }
}

/// The key of a scene planned for `turn`, under `prefix`
/// (`provider-scene`, `civic-crisis`, `fallback`).
pub fn turn_scene_key(prefix: &str, turn: u32) -> (r: String)
    ensures
        r@ == prefix@ + "-"@ + padded3(turn as nat),
{
    let mut r = String::from_str(prefix);
    r.append("-");
    r.append(pad3(turn).as_str());
    r
}

/// The civic scene a player action leads to: title, hook, and the update to
/// the plot thread it advances.
pub open spec fn civic_outcome_text(action_type: Seq<char>) -> (Seq<char>, Seq<char>, Seq<char>) {
    if action_type == "raise_tax"@ {
        (
            "Tax Resistance Memorials"@,
            "Before the ink dries, three provinces report tax runners beaten outside county offices."@,
            "The new levy fills ledgers while lighting provincial resistance."@,
        )
    } else if action_type == "inspect_corruption"@ {
        (
            "The Sealed Corruption Ledger"@,
            "A trembling clerk presents accounts that name both border officers and civic brokers."@,
            "The insider channel becomes harder to dismiss."@,
        )
    } else if action_type == "pay_army"@ {
        (
            "Border Payroll Relief"@,
            "Courier drums announce that the garrison has received silver, but the capital coffers echo."@,
            "The army is calmed for now, at a visible treasury cost."@,
        )
    } else {
        (
            "Council of Unsteady Advisers"@,
            "Every minister bows lower than usual while avoiding the map of burning counties."@,
            "The council delays, and every delay becomes a political fact."@,
        )
    }
}

pub fn civic_outcome(action_type: &str) -> (r: (&'static str, &'static str, &'static str))
    ensures
        (r.0@, r.1@, r.2@) == civic_outcome_text(action_type@),
{
    if str_eq(action_type, "raise_tax") {
        (
            "Tax Resistance Memorials",
            "Before the ink dries, three provinces report tax runners beaten outside county offices.",
            "The new levy fills ledgers while lighting provincial resistance.",
        )
    } else if str_eq(action_type, "inspect_corruption") {
        (
            "The Sealed Corruption Ledger",
            "A trembling clerk presents accounts that name both border officers and civic brokers.",
            "The insider channel becomes harder to dismiss.",
        )
    } else if str_eq(action_type, "pay_army") {
        (
            "Border Payroll Relief",
            "Courier drums announce that the garrison has received silver, but the capital coffers echo.",
            "The army is calmed for now, at a visible treasury cost.",
        )
    } else {
        (
            "Council of Unsteady Advisers",
            "Every minister bows lower than usual while avoiding the map of burning counties.",
            "The council delays, and every delay becomes a political fact.",
        )
    }
}

/// The words in a player's input that select a choice of `action_type`.
pub open spec fn input_terms_of(action_type: Seq<char>) -> Seq<Seq<char>> {
    if action_type == "continue"@ {
        seq!["continue"@, "hear"@, "minister"@, "听"@, "继续"@, "陈情"@]
    } else if action_type == "raise_tax"@ {
        seq!["raise"@, "tax"@, "levy"@, "加征"@, "港税"@]
    } else if action_type == "inspect_corruption"@ {
        seq!["inspect"@, "corruption"@, "严查"@, "贪墨"@, "查"@]
    } else if action_type == "pay_army"@ {
        seq!["pay"@, "army"@, "军饷"@, "拨"@, "内帑"@, "边军"@]
    } else {
        Seq::empty()
    }
}

fn strings_of(terms: &[&str]) -> (r: Vec<String>)
    ensures
        crate::text::views(r@) == terms@.map_values(|t: &str| t@),
{
    let mut r: Vec<String> = Vec::new();
    let mut i: usize = 0;
    while i < terms.len()
        invariant
            i <= terms@.len(),
            crate::text::views(r@) == terms@.take(i as int).map_values(|t: &str| t@),
        decreases terms@.len() - i,
    {
        let ghost before = r@;
        let x = String::from_str(terms[i]);
        r.push(x);
        assert(crate::text::views(r@) =~= crate::text::views(before).push(terms@[i as int]@));
        assert(terms@.take(i + 1).map_values(|t: &str| t@) =~= terms@.take(i as int).map_values(
            |t: &str| t@,
        ).push(terms@[i as int]@));
        i = i + 1;
    }
    assert(terms@.take(i as int) =~= terms@);
    r
}

pub fn choice_input_terms(action_type: &str) -> (r: Vec<String>)
    ensures
        crate::text::views(r@) == input_terms_of(action_type@),
{
    let terms: Vec<&str> = if str_eq(action_type, "continue") {
        vec!["continue", "hear", "minister", "听", "继续", "陈情"]
    } else if str_eq(action_type, "raise_tax") {
        vec!["raise", "tax", "levy", "加征", "港税"]
    } else if str_eq(action_type, "inspect_corruption") {
        vec!["inspect", "corruption", "严查", "贪墨", "查"]
    } else if str_eq(action_type, "pay_army") {
        vec!["pay", "army", "军饷", "拨", "内帑", "边军"]
    } else {
        Vec::new()
    };
    let r = strings_of(terms.as_slice());
    assert(terms@.map_values(|t: &str| t@) =~= input_terms_of(action_type@));
    r
}

/// The prompt a provider-backed planner sends for one role.
pub open spec fn planner_prompt_text(
    agent: AgentRole,
    scene_key: Seq<char>,
    action_type: Seq<char>,
    player_input: Seq<char>,
    turn: nat,
) -> Seq<char> {
    "agent="@ + role_name(agent) + "; scene_key="@ + scene_key + "; action_type="@ + action_type
        + "; player_input="@ + player_input + "; turn="@ + decimal_string(turn)
}

pub fn text_model_prompt(
    agent: AgentRole,
    scene_key: &str,
    action_type: &str,
    player_input: &str,
    turn: u32,
) -> (r: String)
    ensures
        r@ == planner_prompt_text(agent, scene_key@, action_type@, player_input@, turn as nat),
{
    let mut r = String::from_str("agent=");
    r.append(agent_role_name(agent));
    r.append("; scene_key=");
    r.append(scene_key);
    r.append("; action_type=");
    r.append(action_type);
    r.append("; player_input=");
    r.append(player_input);
    r.append("; turn=");
    r.append(u64_to_string(turn as u64).as_str());
    r
}

/// `c` is the choice with these texts, and the input terms of its action.
pub open spec fn choice_is(
    c: Choice,
    id: Seq<char>,
    label: Seq<char>,
    action_type: Seq<char>,
    dramatic_purpose: Seq<char>,
    change_scene: bool,
) -> bool {
    &&& c.id@ == id
    &&& c.label@ == label
    &&& c.action_type@ == action_type
    &&& crate::text::views(c.input_terms@) == input_terms_of(action_type)
    &&& c.dramatic_purpose@ == dramatic_purpose
    &&& c.change_scene == change_scene
}

pub fn make_choice(
    id: &str,
    label: &str,
    action_type: &str,
    dramatic_purpose: &str,
    change_scene: bool,
) -> (r: Choice)
    ensures
        choice_is(r, id@, label@, action_type@, dramatic_purpose@, change_scene),
{
    Choice {
        id: String::from_str(id),
        label: String::from_str(label),
        action_type: String::from_str(action_type),
        input_terms: choice_input_terms(action_type),
        dramatic_purpose: String::from_str(dramatic_purpose),
        change_scene,
    }
}

pub open spec fn raise_tax_choice(c: Choice) -> bool {
    choice_is(c, "raise-tax"@, "Press another emergency levy"@, "raise_tax"@, "Gain treasury while risking unrest."@, true)
}

pub open spec fn inspect_choice(c: Choice) -> bool {
    choice_is(
        c,
        "inspect-corruption"@,
        "Investigate payroll corruption"@,
        "inspect_corruption"@,
        "Seek hidden leakage while destabilizing civic factions."@,
        true,
    )
}

pub open spec fn continue_council_choice(c: Choice) -> bool {
    choice_is(
        c,
        "continue-council"@,
        "Hear one more minister"@,
        "continue"@,
        "Stay in the scene to gather more pressure before committing."@,
        false,
    )
}

pub open spec fn pay_army_choice(c: Choice) -> bool {
    choice_is(c, "pay-army"@, "Pay the border army first"@, "pay_army"@, "Spend scarce treasury to buy military time."@, true)
}

pub open spec fn opt_str_is(o: Option<String>, s: Seq<char>) -> bool {
    o matches Some(x) && x@ == s
}

/// The opening line of a civic scene: the order, then the three resources.
pub open spec fn council_line(player_input: Seq<char>, treasury: i32, public_order: i32, army_morale: i32) -> Seq<char> {
    "The council absorbs the order: "@ + player_input + " The treasury stands at "@ + crate::text::int_string(
        treasury as int,
    ) + ", public order at "@ + crate::text::int_string(public_order as int) + ", and army morale at "@
        + crate::text::int_string(army_morale as int) + "."@
}

/// The civic scene the mock planner writes for `turn` after a player
/// action: its title, hook and thread update follow the action, its two
/// beats offer the four civic choices (the second without "continue").
pub open spec fn civic_scene_is(
    s: Scene,
    turn: nat,
    action_type: Seq<char>,
    player_input: Seq<char>,
    treasury: i32,
    public_order: i32,
    army_morale: i32,
) -> bool {
    let key = "civic-crisis"@ + "-"@ + padded3(turn);
    let first = key + "-beat-001"@;
    let second = key + "-beat-002"@;
    let (title, hook, update) = civic_outcome_text(action_type);
    &&& s.key@ == key
    &&& s.title@ == title
    &&& s.location@ == "Civic Hall"@
    &&& s.dramatic_purpose@ == "Show the consequence of `"@ + action_type
        + "` and push the city toward a harder tradeoff."@
    &&& s.hook@ == hook
    &&& s.background_asset@ == "assets/generated/"@ + key + ".png"@
    &&& s.audio_refs@.len() == 0
    &&& crate::text::views(s.character_ids@) == seq!["city-treasurer"@, "guild-liaison"@]
    &&& s.plot_thread_updates@.len() == 1
    &&& s.plot_thread_updates@[0].0@ == thread_of(action_type)
    &&& s.plot_thread_updates@[0].1@ == update
    &&& opt_str_is(s.entry_beat_id, first)
    &&& s.beats@.len() == 2
    &&& s.beats@[0].id@ == first
    &&& s.beats@[0].text@ == council_line(player_input, treasury, public_order, army_morale)
    &&& opt_str_is(s.beats@[0].speaker, "city-treasurer"@)
    &&& opt_str_is(s.beats@[0].line_delivery, "controlled alarm"@)
    &&& s.beats@[0].audio_refs@.len() == 0
    &&& s.beats@[0].choices@.len() == 4
    &&& raise_tax_choice(s.beats@[0].choices@[0])
    &&& inspect_choice(s.beats@[0].choices@[1])
    &&& continue_council_choice(s.beats@[0].choices@[2])
    &&& pay_army_choice(s.beats@[0].choices@[3])
    &&& (s.beats@[0].next matches BeatNext::Beat(b) && b@ == second)
    &&& s.beats@[1].id@ == second
    &&& s.beats@[1].text@
        == "A second minister adds a sharper warning: every answer now has a visible cost."@
    &&& opt_str_is(s.beats@[1].speaker, "war-minister"@)
    &&& opt_str_is(s.beats@[1].line_delivery, "terse warning"@)
    &&& s.beats@[1].audio_refs@.len() == 0
    &&& s.beats@[1].choices@.len() == 3
    &&& raise_tax_choice(s.beats@[1].choices@[0])
    &&& inspect_choice(s.beats@[1].choices@[1])
    &&& pay_army_choice(s.beats@[1].choices@[2])
    &&& s.beats@[1].next == BeatNext::Scene
}

fn with_suffix(base: &str, suffix: &str) -> (r: String)
    ensures
        r@ == base@ + suffix@,
{
    let mut r = String::from_str(base);
    r.append(suffix);
    r
}

/// The civic scene of the mock planner; `treasury`, `public_order` and
/// `army_morale` are the world's resources (absent ones count as 0).
pub fn civic_scene(
    turn: u32,
    action_type: &str,
    player_input: &str,
    treasury: i32,
    public_order: i32,
    army_morale: i32,
) -> (r: Scene)
    ensures
        civic_scene_is(r, turn as nat, action_type@, player_input@, treasury, public_order, army_morale),
{
    let scene_key = turn_scene_key("civic-crisis", turn);
    let (title, hook, thread_update) = civic_outcome(action_type);
    let first_beat_id = with_suffix(scene_key.as_str(), "-beat-001");
    let second_beat_id = with_suffix(scene_key.as_str(), "-beat-002");

    let mut purpose = String::from_str("Show the consequence of `");
    purpose.append(action_type);
    purpose.append("` and push the city toward a harder tradeoff.");

    let mut background = String::from_str("assets/generated/");
    background.append(scene_key.as_str());
    background.append(".png");

    let mut line = String::from_str("The council absorbs the order: ");
    line.append(player_input);
    line.append(" The treasury stands at ");
    line.append(crate::text::i32_to_string(treasury).as_str());
    line.append(", public order at ");
    line.append(crate::text::i32_to_string(public_order).as_str());
    line.append(", and army morale at ");
    line.append(crate::text::i32_to_string(army_morale).as_str());
    line.append(".");

    let mut first_choices: Vec<Choice> = Vec::new();
    first_choices.push(make_choice("raise-tax", "Press another emergency levy", "raise_tax", "Gain treasury while risking unrest.", true));
    first_choices.push(make_choice(
        "inspect-corruption",
        "Investigate payroll corruption",
        "inspect_corruption",
        "Seek hidden leakage while destabilizing civic factions.",
        true,
    ));
    first_choices.push(make_choice(
        "continue-council",
        "Hear one more minister",
        "continue",
        "Stay in the scene to gather more pressure before committing.",
        false,
    ));
    first_choices.push(make_choice("pay-army", "Pay the border army first", "pay_army", "Spend scarce treasury to buy military time.", true));

    let mut second_choices: Vec<Choice> = Vec::new();
    second_choices.push(make_choice("raise-tax", "Press another emergency levy", "raise_tax", "Gain treasury while risking unrest.", true));
    second_choices.push(make_choice(
        "inspect-corruption",
        "Investigate payroll corruption",
        "inspect_corruption",
        "Seek hidden leakage while destabilizing civic factions.",
        true,
    ));
    second_choices.push(make_choice("pay-army", "Pay the border army first", "pay_army", "Spend scarce treasury to buy military time.", true));

    let first = Beat {
        id: first_beat_id.clone(),
        text: line,
        speaker: Some(String::from_str("city-treasurer")),
        line_delivery: Some(String::from_str("controlled alarm")),
        audio_refs: Vec::new(),
        choices: first_choices,
        next: BeatNext::Beat(second_beat_id.clone()),
    };
    let second = Beat {
        id: second_beat_id,
        text: String::from_str(
            "A second minister adds a sharper warning: every answer now has a visible cost.",
        ),
        speaker: Some(String::from_str("war-minister")),
        line_delivery: Some(String::from_str("terse warning")),
        audio_refs: Vec::new(),
        choices: second_choices,
        next: BeatNext::Scene,
    };
    let mut character_ids: Vec<String> = Vec::new();
    character_ids.push(String::from_str("city-treasurer"));
    character_ids.push(String::from_str("guild-liaison"));
    assert(crate::text::views(character_ids@) =~= seq!["city-treasurer"@, "guild-liaison"@]);
    let mut updates: Vec<(String, String)> = Vec::new();
    updates.push((String::from_str(thread_for_action(action_type)), String::from_str(thread_update)));
    let mut beats: Vec<Beat> = Vec::new();
    beats.push(first);
    beats.push(second);
    Scene {
        key: scene_key,
        title: String::from_str(title),
        location: String::from_str("Civic Hall"),
        dramatic_purpose: purpose,
        hook: String::from_str(hook),
        background_asset: background,
        audio_refs: Vec::new(),
        character_ids,
        plot_thread_updates: updates,
        entry_beat_id: Some(first_beat_id),
        beats,
    }
}

/// The scene the mock planner falls back to when the requested scene is
/// missing: one recovery beat with a "continue" choice, then an ending beat.
pub open spec fn fallback_scene_is(s: Scene, turn: nat, action_type: Seq<char>) -> bool {
    let key = "fallback"@ + "-"@ + padded3(turn);
    let first = key + "-beat-001"@;
    let second = key + "-beat-002"@;
    &&& s.key@ == key
    &&& s.title@ == "Fallback Council"@
    &&& s.location@ == "Civic Hall"@
    &&& s.dramatic_purpose@ == "Keep the deterministic mock loop visible after a missing scene."@
    &&& s.hook@ == "A fallback council forms because the requested scene was missing."@
    &&& s.background_asset@ == "assets/generated/"@ + key + ".png"@
    &&& s.audio_refs@.len() == 0
    &&& s.character_ids@.len() == 0
    &&& s.plot_thread_updates@.len() == 1
    &&& s.plot_thread_updates@[0].0@ == "tax-disorder"@
    &&& s.plot_thread_updates@[0].1@ == "Fallback response for action `"@ + action_type + "`."@
    &&& opt_str_is(s.entry_beat_id, first)
    &&& s.beats@.len() == 2
    &&& s.beats@[0].id@ == first
    &&& s.beats@[0].text@ == "The council waits for the engine to recover a valid scene."@
    &&& s.beats@[0].speaker is None
    &&& s.beats@[0].line_delivery is None
    &&& s.beats@[0].audio_refs@.len() == 0
    &&& s.beats@[0].choices@.len() == 1
    &&& choice_is(
        s.beats@[0].choices@[0],
        "continue"@,
        "Continue"@,
        "continue"@,
        "Remain in the current recovery beat."@,
        false,
    )
    &&& (s.beats@[0].next matches BeatNext::Beat(b) && b@ == second)
    &&& s.beats@[1].id@ == second
    &&& s.beats@[1].text@
        == "The recovery beat has no new scene request; the fallback remains visible."@
    &&& s.beats@[1].speaker is None
    &&& s.beats@[1].line_delivery is None
    &&& s.beats@[1].audio_refs@.len() == 0
    &&& s.beats@[1].choices@.len() == 0
    &&& s.beats@[1].next == BeatNext::End
}

pub fn fallback_scene(turn: u32, action_type: &str) -> (r: Scene)
    ensures
        fallback_scene_is(r, turn as nat, action_type@),
{
    let scene_key = turn_scene_key("fallback", turn);
    let first_beat_id = with_suffix(scene_key.as_str(), "-beat-001");
    let second_beat_id = with_suffix(scene_key.as_str(), "-beat-002");
    let mut background = String::from_str("assets/generated/");
    background.append(scene_key.as_str());
    background.append(".png");
    let mut update = String::from_str("Fallback response for action `");
    update.append(action_type);
    update.append("`.");
    let mut choices: Vec<Choice> = Vec::new();
    choices.push(make_choice("continue", "Continue", "continue", "Remain in the current recovery beat.", false));
    let first = Beat {
        id: first_beat_id.clone(),
        text: String::from_str("The council waits for the engine to recover a valid scene."),
        speaker: None,
        line_delivery: None,
        audio_refs: Vec::new(),
        choices,
        next: BeatNext::Beat(second_beat_id.clone()),
    };
    let second = Beat {
        id: second_beat_id,
        text: String::from_str(
            "The recovery beat has no new scene request; the fallback remains visible.",
        ),
        speaker: None,
        line_delivery: None,
        audio_refs: Vec::new(),
        choices: Vec::new(),
        next: BeatNext::End,
    };
    let mut updates: Vec<(String, String)> = Vec::new();
    updates.push((String::from_str("tax-disorder"), update));
    let mut beats: Vec<Beat> = Vec::new();
    beats.push(first);
    beats.push(second);
    Scene {
        key: scene_key,
        title: String::from_str("Fallback Council"),
        location: String::from_str("Civic Hall"),
        dramatic_purpose: String::from_str(
            "Keep the deterministic mock loop visible after a missing scene.",
        ),
        hook: String::from_str("A fallback council forms because the requested scene was missing."),
        background_asset: background,
        audio_refs: Vec::new(),
        character_ids: Vec::new(),
        plot_thread_updates: updates,
        entry_beat_id: Some(first_beat_id),
        beats,
    }
}

/// The value of resource `key` among a world's resources (each key once):
/// its value when present, else 0.
pub open spec fn resource_value(resources: Seq<(String, i32)>, key: Seq<char>) -> i32 {
    if exists|i: int| 0 <= i < resources.len() && (#[trigger] resources[i]).0@ == key {
        resources[choose|i: int| 0 <= i < resources.len() && (#[trigger] resources[i]).0@ == key].1
    } else {
        0
    }
}

/// The keys of `resources` occur once each.
pub open spec fn unique_keys(resources: Seq<(String, i32)>) -> bool {
    forall|i: int, j: int|
        0 <= i < resources.len() && 0 <= j < resources.len() && i != j ==> (#[trigger] resources[i]).0@
            != (#[trigger] resources[j]).0@
}

pub fn resource(resources: &Vec<(String, i32)>, key: &str) -> (r: i32)
    requires
        unique_keys(resources@),
    ensures
        r == resource_value(resources@, key@),
{
    let mut i: usize = 0;
    while i < resources.len()
        invariant
            i <= resources@.len(),
            unique_keys(resources@),
            forall|j: int| 0 <= j < i ==> (#[trigger] resources@[j]).0@ != key@,
        decreases resources@.len() - i,
    {
        if str_eq(resources[i].0.as_str(), key) {
            proof {
                let w = choose|j: int| 0 <= j < resources@.len() && (#[trigger] resources@[j]).0@ == key@;
                assert(resources@[i as int].0@ == key@);
                if w != i as int {
                    assert(resources@[w].0@ != resources@[i as int].0@);
                }
            }
            return resources[i].1;
        }
        i = i + 1;
    }
    0
}

/// A scene chosen by a planner, whether it is the fallback, and the error
/// that made it fall back.
#[derive(Clone, Debug, PartialEq, Eq)]
pub struct PlannedScene {
    pub scene: Scene,
    pub fallback_used: bool,
    pub error: Option<RuntimeError>,
}

/// `p` is the fallback scene for `turn`, with a `fallback_scene` error
/// carrying `message`.
pub open spec fn is_fallback_plan(p: PlannedScene, turn: nat, action_type: Seq<char>, message: Seq<char>) -> bool {
    &&& fallback_scene_is(p.scene, turn, action_type)
    &&& p.fallback_used
    &&& p.error matches Some(e) && e.code@ == "fallback_scene"@ && e.message@ == message
}

/// The plan of a `continue` action: the project's current scene when it
/// has one, else the fallback scene of `next_turn` with `missing_message`.
pub fn continue_plan(next_turn: u32, action_type: &str, current_scene: Option<Scene>, missing_message: &str) -> (r:
    PlannedScene)
    ensures
        match current_scene {
            Some(s) => r == (PlannedScene { scene: s, fallback_used: false, error: None }),
            None => is_fallback_plan(r, next_turn as nat, action_type@, missing_message@),
        },
{
    match current_scene {
        Some(scene) => PlannedScene { scene, fallback_used: false, error: None },
        None => PlannedScene {
            scene: fallback_scene(next_turn, action_type),
            fallback_used: true,
            error: Some(
                RuntimeError {
                    code: String::from_str("fallback_scene"),
                    message: String::from_str(missing_message),
                },
            ),
        },
    }
}

/// The message of the mock planner's fallback.
pub open spec fn mock_missing_message() -> Seq<char> {
    "Mock agent used a fallback scene because the requested scene was missing."@
}

/// The mock planner's next scene after turn `turn`: a `continue` keeps the
/// current scene (or falls back when it is missing); any other action
/// leads to the civic scene of the next turn, drawn from the world's
/// treasury, public order and army morale.
pub fn mock_plan_scene(
    turn: u32,
    action_type: &str,
    player_input: &str,
    resources: &Vec<(String, i32)>,
    current_scene: Option<Scene>,
) -> (r: PlannedScene)
    requires
        turn < u32::MAX,
        unique_keys(resources@),
    ensures
        action_type@ == "continue"@ ==> match current_scene {
            Some(s) => r == (PlannedScene { scene: s, fallback_used: false, error: None }),
            None => is_fallback_plan(r, (turn + 1) as nat, action_type@, mock_missing_message()),
        },
        action_type@ != "continue"@ ==> {
            &&& civic_scene_is(
                r.scene,
                (turn + 1) as nat,
                action_type@,
                player_input@,
                resource_value(resources@, "treasury"@),
                resource_value(resources@, "public_order"@),
                resource_value(resources@, "army_morale"@),
            )
            &&& !r.fallback_used
            &&& r.error is None
        },
{
    let next_turn = turn + 1;
    if str_eq(action_type, "continue") {
        return continue_plan(
            next_turn,
            action_type,
            current_scene,
            "Mock agent used a fallback scene because the requested scene was missing.",
        );
    }
    let treasury = resource(resources, "treasury");
    let public_order = resource(resources, "public_order");
    let army_morale = resource(resources, "army_morale");
    PlannedScene {
        scene: civic_scene(next_turn, action_type, player_input, treasury, public_order, army_morale),
        fallback_used: false,
        error: None,
    }
}

/// The message of the provider planner's fallback on `continue`.
pub open spec fn provider_missing_message() -> Seq<char> {
    "Provider pipeline used a fallback scene because the requested scene was missing."@
}

/// The provider planner's next scene after turn `turn` on a `continue`:
/// the current scene, or the fallback when it is missing.
pub fn provider_continue_plan(turn: u32, action_type: &str, current_scene: Option<Scene>) -> (r:
    PlannedScene)
    requires
        turn < u32::MAX,
    ensures
        match current_scene {
            Some(s) => r == (PlannedScene { scene: s, fallback_used: false, error: None }),
            None => is_fallback_plan(r, (turn + 1) as nat, action_type@, provider_missing_message()),
        },
{
    continue_plan(
        turn + 1,
        action_type,
        current_scene,
        "Provider pipeline used a fallback scene because the requested scene was missing.",
    )
}

/// The provider planner's next scene after turn `turn` on any other
/// action, from the outcome of the provider's plan: the generated scene, or
/// the fallback scene with the failure's runtime error.
pub fn provider_plan_outcome(turn: u32, action_type: &str, generated: Result<Scene, ProviderPipelineError>) -> (r:
    PlannedScene)
    requires
        turn < u32::MAX,
    ensures
        match generated {
            Ok(s) => r == (PlannedScene { scene: s, fallback_used: false, error: None }),
            Err(e) => {
                &&& fallback_scene_is(r.scene, (turn + 1) as nat, action_type@)
                &&& r.fallback_used
                &&& r.error matches Some(x) && (x.code@, x.message@) == runtime_error_of(e)
            },
        },
{
    match generated {
        Ok(scene) => PlannedScene { scene, fallback_used: false, error: None },
        Err(error) => PlannedScene {
            scene: fallback_scene(turn + 1, action_type),
            fallback_used: true,
            error: Some(error.into_runtime_error()),
        },
    }
}

/// A scene plan: the scene, its narrative review, the reproducibility
/// block, and whether and why the planner fell back.
#[derive(Clone, Debug, PartialEq, Eq)]
pub struct ScenePlan {
    pub scene: Scene,
    pub review: NarrativeReview,
    pub reproducibility: ReproducibilityMetadata,
    pub fallback_used: bool,
    pub error: Option<RuntimeError>,
}

/// The entry beat id of a scene-plan proposal: its own when not blank,
/// else the first beat id of its scene.
pub open spec fn proposal_beat_id(p: ScenePlanProposal) -> Seq<char> {
    if is_blank(p.entry_beat_id@) {
        p.scene_key@ + "-beat-001"@
    } else {
        p.entry_beat_id@
    }
}

/// `r` is the neutral review of scene `key`: every score 50, slop risk 20,
/// no issue.
pub open spec fn is_neutral_review(r: NarrativeReview, key: Seq<char>) -> bool {
    &&& r.scene_key@ == key
    &&& r.score == 50 && r.hook_score == 50 && r.pacing_score == 50
    &&& r.character_consistency_score == 50 && r.payoff_score == 50
    &&& r.choice_meaningfulness_score == 50
    &&& r.ai_slop_risk == 20
    &&& r.issues@.len() == 0
}

fn copy_strings(v: &Vec<String>) -> (r: Vec<String>)
    ensures
        r@ == v@,
{
    let mut r: Vec<String> = Vec::new();
    let mut i: usize = 0;
    while i < v.len()
        invariant
            i <= v@.len(),
            r@ == v@.take(i as int),
        decreases v@.len() - i,
    {
        r.push(v[i].clone());
        assert(v@.take(i + 1) =~= v@.take(i as int).push(v@[i as int]));
        i = i + 1;
    }
    assert(v@.take(i as int) =~= v@);
    r
}

impl ScenePlan {
    /// The plan of a scene-plan proposal: a committable scene with one entry
    /// beat that carries the summary and leads nowhere yet, a neutral
    /// review, and the envelope's reproducibility block.
    pub fn from_proposal(proposal: &ScenePlanProposal, reproducibility: ReproducibilityMetadata) -> (r:
        Result<ScenePlan, ScenePlannerError>)
        ensures
            r matches Ok(plan) && {
                let beat_id = proposal_beat_id(*proposal);
                &&& plan.scene.key@ == proposal.scene_key@
                &&& plan.scene.title@ == proposal.title@
                &&& plan.scene.location@ == proposal.location@
                &&& plan.scene.dramatic_purpose@ == proposal.dramatic_purpose@
                &&& plan.scene.hook@ == proposal.hook@
                &&& plan.scene.background_asset@ == match proposal.background_asset {
                    Some(b) => b@,
                    None => Seq::<char>::empty(),
                }
                &&& plan.scene.audio_refs@.len() == 0
                &&& plan.scene.character_ids@ == proposal.cast@
                &&& plan.scene.plot_thread_updates@.len() == 0
                &&& opt_str_is(plan.scene.entry_beat_id, beat_id)
                &&& plan.scene.beats@.len() == 1
                &&& plan.scene.beats@[0].id@ == beat_id
                &&& plan.scene.beats@[0].text@ == proposal.scene_summary@
                &&& plan.scene.beats@[0].speaker is None
                &&& plan.scene.beats@[0].line_delivery is None
                &&& plan.scene.beats@[0].audio_refs@.len() == 0
                &&& plan.scene.beats@[0].choices@.len() == 0
                &&& plan.scene.beats@[0].next == BeatNext::Unset
                &&& is_neutral_review(plan.review, proposal.scene_key@)
                &&& plan.reproducibility == reproducibility
                &&& !plan.fallback_used
                &&& plan.error is None
            },
    {
        let beat_id = if is_blank_str(proposal.entry_beat_id.as_str()) {
            with_suffix(proposal.scene_key.as_str(), "-beat-001")
        } else {
            proposal.entry_beat_id.clone()
        };
        let beat = Beat {
            id: beat_id.clone(),
            text: proposal.scene_summary.clone(),
            speaker: None,
            line_delivery: None,
            audio_refs: Vec::new(),
            choices: Vec::new(),
            next: BeatNext::Unset,
        };
        let background_asset = match &proposal.background_asset {
            Some(b) => b.clone(),
            None => String::new(),
        };
        let mut beats: Vec<Beat> = Vec::new();
        beats.push(beat);
        let scene = Scene {
            key: proposal.scene_key.clone(),
            title: proposal.title.clone(),
            location: proposal.location.clone(),
            dramatic_purpose: proposal.dramatic_purpose.clone(),
            hook: proposal.hook.clone(),
            background_asset,
            audio_refs: Vec::new(),
            character_ids: copy_strings(&proposal.cast),
            plot_thread_updates: Vec::new(),
            entry_beat_id: Some(beat_id),
            beats,
        };
        let review = NarrativeReview {
            scene_key: proposal.scene_key.clone(),
            score: 50,
            hook_score: 50,
            pacing_score: 50,
            character_consistency_score: 50,
            payoff_score: 50,
            choice_meaningfulness_score: 50,
            ai_slop_risk: 20,
            issues: Vec::new(),
        };
        Ok(ScenePlan { scene, review, reproducibility, fallback_used: false, error: None })
    }
}

/// The message of the image-aware planner's fallback on `continue`.
pub open spec fn image_missing_message() -> Seq<char> {
    "Image provider pipeline used a fallback scene because the requested scene was missing."@
}

/// The image-aware planner's next scene after turn `turn` on a `continue`:
/// the current scene, or the fallback when it is missing.
pub fn image_continue_plan(turn: u32, action_type: &str, current_scene: Option<Scene>) -> (r:
    PlannedScene)
    requires
        turn < u32::MAX,
    ensures
        match current_scene {
            Some(s) => r == (PlannedScene { scene: s, fallback_used: false, error: None }),
            None => is_fallback_plan(r, (turn + 1) as nat, action_type@, image_missing_message()),
        },
{
    continue_plan(
        turn + 1,
        action_type,
        current_scene,
        "Image provider pipeline used a fallback scene because the requested scene was missing.",
    )
}

/// A generated scene once its background image is registered: the scene
/// takes the asset's export path as its background, and the plan carries
/// the image pipeline's fallback flag and error (a placeholder image is
/// still a usable scene).
pub fn with_scene_background(
    scene: Scene,
    export_path: &str,
    image_fallback_used: bool,
    image_error: Option<RuntimeError>,
) -> (r: PlannedScene)
    ensures
        r.scene == (Scene { background_asset: r.scene.background_asset, ..scene }),
        r.scene.background_asset@ == export_path@,
        r.fallback_used == image_fallback_used,
        r.error == image_error,
{
    let mut scene = scene;
    scene.background_asset = String::from_str(export_path);
    PlannedScene { scene, fallback_used: image_fallback_used, error: image_error }
}

/// The call id of `agent`'s call while planning `scene_key`.
pub fn agent_call_id(scene_key: &str, agent: AgentRole) -> (r: String)
    ensures
        r@ == scene_key@ + "-"@ + call_suffix(agent),
{
    let mut r = String::from_str(scene_key);
    r.append("-");
    r.append(payload_call_suffix(agent));
    r
}

/// The calls of a provider-backed plan, in order, each with the payload
/// its envelope must carry: the scene plan, then the beats, then the
/// review.
pub fn provider_plan_calls() -> (r: Vec<(AgentRole, PayloadKind)>)
    ensures
        r@ == seq![
            (AgentRole::ScenePlanner, PayloadKind::ScenePlan),
            (AgentRole::BeatWriter, PayloadKind::BeatDrafts),
            (AgentRole::PlotDoctor, PayloadKind::Review),
        ],
{
    let r = vec![
        (AgentRole::ScenePlanner, PayloadKind::ScenePlan),
        (AgentRole::BeatWriter, PayloadKind::BeatDrafts),
        (AgentRole::PlotDoctor, PayloadKind::Review),
    ];
    assert(r@ =~= seq![
        (AgentRole::ScenePlanner, PayloadKind::ScenePlan),
        (AgentRole::BeatWriter, PayloadKind::BeatDrafts),
        (AgentRole::PlotDoctor, PayloadKind::Review),
    ]);
    r
}


/// `a[i..j]` is one `_`-separated word of `a`.
pub open spec fn underscore_word(a: Seq<char>, i: int, j: int) -> bool {
    &&& 0 <= i <= j <= a.len()
    &&& (i == 0 || a[i - 1] == '_')
    &&& (j == a.len() || a[j] == '_')
    &&& forall|m: int| i <= m < j ==> a[m] != '_'
}

proof fn lemma_single_word(a: Seq<char>, i: int, j: int)
    requires
        underscore_word(a, i, j),
        forall|m: int| 0 <= m < a.len() ==> a[m] != '_',
    ensures
        i == 0 && j == a.len(),
{
}

proof fn lemma_two_words(a: Seq<char>, k: int, i: int, j: int)
    requires
        underscore_word(a, i, j),
        0 <= k < a.len(),
        a[k] == '_',
        forall|m: int| 0 <= m < a.len() && m != k ==> a[m] != '_',
    ensures
        (i == 0 && j == k) || (i == k + 1 && j == a.len()),
{
    if i == 0 {
        if j != k {
            if j < a.len() {
                assert(a[j] == '_');
            } else {
                assert(a[k] != '_');
            }
        }
    } else {
        assert(a[i - 1] == '_');
        if j < a.len() {
            assert(a[j] == '_');
        }
    }
}

/// A choice can be picked by typing any word of its action type: every
/// `_`-separated word of an action type that has input terms is one of them
/// (`pay_army` answers to `pay` and to `army`).
pub proof fn lemma_input_terms_cover_action_words(a: Seq<char>, i: int, j: int)
    requires
        input_terms_of(a).len() > 0,
        underscore_word(a, i, j),
    ensures
        input_terms_of(a).contains(a.subrange(i, j)),
{
    reveal_strlit("continue");
    reveal_strlit("raise_tax");
    reveal_strlit("inspect_corruption");
    reveal_strlit("pay_army");
    reveal_strlit("raise");
    reveal_strlit("tax");
    reveal_strlit("inspect");
    reveal_strlit("corruption");
    reveal_strlit("pay");
    reveal_strlit("army");
    let terms = input_terms_of(a);
    if a == "continue"@ {
        lemma_single_word(a, i, j);
        assert(a.subrange(i, j) =~= "continue"@);
        assert(terms[0] == "continue"@);
    } else if a == "raise_tax"@ {
        lemma_two_words(a, 5, i, j);
        if i == 0 {
            assert(a.subrange(i, j) =~= "raise"@);
            assert(terms[0] == "raise"@);
        } else {
            assert(a.subrange(i, j) =~= "tax"@);
            assert(terms[1] == "tax"@);
        }
    } else if a == "inspect_corruption"@ {
        lemma_two_words(a, 7, i, j);
        if i == 0 {
            assert(a.subrange(i, j) =~= "inspect"@);
            assert(terms[0] == "inspect"@);
        } else {
            assert(a.subrange(i, j) =~= "corruption"@);
            assert(terms[1] == "corruption"@);
        }
    } else {
        assert(a == "pay_army"@);
        lemma_two_words(a, 3, i, j);
        if i == 0 {
            assert(a.subrange(i, j) =~= "pay"@);
            assert(terms[0] == "pay"@);
        } else {
            assert(a.subrange(i, j) =~= "army"@);
            assert(terms[1] == "army"@);
        }
    }
}
} // verus!
