//! Narrative event parts: trigger conditions, outcomes and their effects,
//! the game context that triggers are checked against, and the check.

use crate::ids::{ChallengeId, CharacterId, EventChainId, LocationId, NarrativeEventId, SceneId};
use crate::text::{
    opt_text,
    chars_of, contains_chars, contains_text, eq_ignore_ascii_case, eq_ignoring_ascii_case,
    is_substring, lowercase, str_eq, texts, to_lowercase, trim_str, trimmed,
};
use vstd::prelude::*;

verus! {

// ---------------------------------------------------------------------------
// Sentiment values
// ---------------------------------------------------------------------------

/// A relationship sentiment, from -1.0 (hatred) to 1.0 (love), held as the
/// bits of an IEEE 754 single-precision number.
#[derive(Debug, Clone, Copy, PartialEq, Eq, Structural, Hash)]
pub struct Sentiment {
    pub bits: u32,
}

/// Whether the bits are those of a NaN.
pub open spec fn is_nan_bits(b: u32) -> bool {
    (b & 0x7f80_0000u32) == 0x7f80_0000u32 && (b & 0x007f_ffffu32) != 0
}

/// The position of a non-NaN number in the order of values: its magnitude
/// bits with its sign (both zeros sit at 0).
pub open spec fn order_key(b: u32) -> int {
    if (b & 0x8000_0000u32) != 0 {
        -((b & 0x7fff_ffffu32) as int)
    } else {
        (b & 0x7fff_ffffu32) as int
    }
}

/// `a >= b` between the numbers the bits stand for (false with a NaN).
pub open spec fn sentiment_ge(a: Sentiment, b: Sentiment) -> bool {
    !is_nan_bits(a.bits) && !is_nan_bits(b.bits) && order_key(a.bits) >= order_key(b.bits)
}

/// `a <= b` between the numbers the bits stand for (false with a NaN).
pub open spec fn sentiment_le(a: Sentiment, b: Sentiment) -> bool {
    !is_nan_bits(a.bits) && !is_nan_bits(b.bits) && order_key(a.bits) <= order_key(b.bits)
}

pub(crate) fn nan_bits(b: u32) -> (r: bool)
    ensures
        r == is_nan_bits(b),
{
    (b & 0x7f80_0000u32) == 0x7f80_0000u32 && (b & 0x007f_ffffu32) != 0
}

pub(crate) fn key_of(b: u32) -> (k: i64)
    ensures
        k == order_key(b),
{
    let m: u32 = b & 0x7fff_ffffu32;
    if (b & 0x8000_0000u32) != 0 {
        -(m as i64)
    } else {
        m as i64
    }
}

impl Sentiment {
    /// The sentiment with these bits.
    pub fn from_bits(bits: u32) -> (s: Self)
        ensures
            s.bits == bits,
    {
        Sentiment { bits }
    }

    /// Whether this sentiment is at least `other`.
    pub fn at_least(&self, other: &Sentiment) -> (b: bool)
        ensures
            b == sentiment_ge(*self, *other),
    {
        !nan_bits(self.bits) && !nan_bits(other.bits) && key_of(self.bits) >= key_of(other.bits)
    }

    /// Whether this sentiment is at most `other`.
    pub fn at_most(&self, other: &Sentiment) -> (b: bool)
        ensures
            b == sentiment_le(*self, *other),
    {
        !nan_bits(self.bits) && !nan_bits(other.bits) && key_of(self.bits) <= key_of(other.bits)
    }
}

// ---------------------------------------------------------------------------
// Triggers
// ---------------------------------------------------------------------------

/// How several trigger conditions combine.
#[derive(Debug, Clone, Copy, PartialEq, Eq, Structural)]
pub enum TriggerLogic {
    /// Every condition must be met.
    All,
    /// One condition is enough.
    Any,
    /// At least this many conditions must be met.
    AtLeast(u32),
}

impl Default for TriggerLogic {
    fn default() -> (l: Self)
        ensures
            l == TriggerLogic::All,
    {
        TriggerLogic::All
    }
}

/// The kinds of trigger condition of a narrative event.
#[derive(Debug, PartialEq, Eq)]
pub enum NarrativeTriggerType {
    /// The player's recent action contains one of the keywords (ignoring
    /// case); the NPC and the description are notes for the DM.
    NpcAction {
        npc_id: CharacterId,
        npc_name: String,
        action_keywords: Vec<String>,
        action_description: String,
    },
    /// The player is at the location.
    PlayerEntersLocation { location_id: LocationId, location_name: String },
    /// The player is at the location at the given time of day.
    TimeAtLocation { location_id: LocationId, location_name: String, time_context: String },
    /// One of the keywords was a recent dialogue topic.
    DialogueTopic { keywords: Vec<String>, with_npc: Option<CharacterId>, npc_name: Option<String> },
    /// The challenge was completed (successfully, or not, where required).
    ChallengeCompleted {
        challenge_id: ChallengeId,
        challenge_name: String,
        requires_success: Option<bool>,
    },
    /// One character's sentiment toward another lies within the bounds.
    RelationshipThreshold {
        character_id: CharacterId,
        character_name: String,
        with_character: CharacterId,
        with_character_name: String,
        min_sentiment: Option<Sentiment>,
        max_sentiment: Option<Sentiment>,
    },
    /// The player holds the item (at least `quantity` of it, 1 by default).
    HasItem { item_name: String, quantity: Option<u32> },
    /// The player does not hold the item.
    MissingItem { item_name: String },
    /// Another narrative event was completed (with the given outcome).
    EventCompleted {
        event_id: NarrativeEventId,
        event_name: String,
        outcome_name: Option<String>,
    },
    /// Enough turns have passed (since the session start or an event).
    TurnCount { turns: u32, since_event: Option<NarrativeEventId> },
    /// A game flag is set to true.
    FlagSet { flag_name: String },
    /// A game flag is not set, or false.
    FlagNotSet { flag_name: String },
    /// A character's stat lies within the bounds.
    StatThreshold {
        character_id: CharacterId,
        stat_name: String,
        min_value: Option<i32>,
        max_value: Option<i32>,
    },
    /// Combat ended with a given result (not evaluated yet: never met).
    CombatResult { victory: Option<bool>, involved_npc: Option<CharacterId> },
    /// A condition that an LLM judges; met when it was judged true.
    Custom { description: String, llm_evaluation: bool },
    /// The player character knows the spell.
    KnowsSpell { spell_id: String, spell_name: String },
    /// The player character has the feat.
    HasFeat { feat_id: String, feat_name: String },
    /// The player character has levels in the class (at least `min_level`).
    HasClass { class_id: String, class_name: String, min_level: Option<u8> },
    /// The player character's origin (race) is this one.
    HasOrigin { origin_id: String, origin_name: String },
    /// The player character knows about the creature.
    KnowsCreature { creature_id: String, creature_name: String },
}

/// Whether two trigger kinds are the same variant with the same contents.
pub open spec fn same_trigger_type(a: NarrativeTriggerType, b: NarrativeTriggerType) -> bool {
    match (a, b) {
        (NarrativeTriggerType::NpcAction { npc_id: a_npc_id, npc_name: a_npc_name, action_keywords: a_action_keywords, action_description: a_action_description }, NarrativeTriggerType::NpcAction { npc_id: b_npc_id, npc_name: b_npc_name, action_keywords: b_action_keywords, action_description: b_action_description }) => a_npc_id == b_npc_id && a_npc_name@ == b_npc_name@ && texts(a_action_keywords@) == texts(b_action_keywords@) && a_action_description@ == b_action_description@,
        (NarrativeTriggerType::PlayerEntersLocation { location_id: a_location_id, location_name: a_location_name }, NarrativeTriggerType::PlayerEntersLocation { location_id: b_location_id, location_name: b_location_name }) => a_location_id == b_location_id && a_location_name@ == b_location_name@,
        (NarrativeTriggerType::TimeAtLocation { location_id: a_location_id, location_name: a_location_name, time_context: a_time_context }, NarrativeTriggerType::TimeAtLocation { location_id: b_location_id, location_name: b_location_name, time_context: b_time_context }) => a_location_id == b_location_id && a_location_name@ == b_location_name@ && a_time_context@ == b_time_context@,
        (NarrativeTriggerType::DialogueTopic { keywords: a_keywords, with_npc: a_with_npc, npc_name: a_npc_name }, NarrativeTriggerType::DialogueTopic { keywords: b_keywords, with_npc: b_with_npc, npc_name: b_npc_name }) => texts(a_keywords@) == texts(b_keywords@) && a_with_npc == b_with_npc && opt_text(a_npc_name) == opt_text(b_npc_name),
        (NarrativeTriggerType::ChallengeCompleted { challenge_id: a_challenge_id, challenge_name: a_challenge_name, requires_success: a_requires_success }, NarrativeTriggerType::ChallengeCompleted { challenge_id: b_challenge_id, challenge_name: b_challenge_name, requires_success: b_requires_success }) => a_challenge_id == b_challenge_id && a_challenge_name@ == b_challenge_name@ && a_requires_success == b_requires_success,
        (NarrativeTriggerType::RelationshipThreshold { character_id: a_character_id, character_name: a_character_name, with_character: a_with_character, with_character_name: a_with_character_name, min_sentiment: a_min_sentiment, max_sentiment: a_max_sentiment }, NarrativeTriggerType::RelationshipThreshold { character_id: b_character_id, character_name: b_character_name, with_character: b_with_character, with_character_name: b_with_character_name, min_sentiment: b_min_sentiment, max_sentiment: b_max_sentiment }) => a_character_id == b_character_id && a_character_name@ == b_character_name@ && a_with_character == b_with_character && a_with_character_name@ == b_with_character_name@ && a_min_sentiment == b_min_sentiment && a_max_sentiment == b_max_sentiment,
        (NarrativeTriggerType::HasItem { item_name: a_item_name, quantity: a_quantity }, NarrativeTriggerType::HasItem { item_name: b_item_name, quantity: b_quantity }) => a_item_name@ == b_item_name@ && a_quantity == b_quantity,
        (NarrativeTriggerType::MissingItem { item_name: a_item_name }, NarrativeTriggerType::MissingItem { item_name: b_item_name }) => a_item_name@ == b_item_name@,
        (NarrativeTriggerType::EventCompleted { event_id: a_event_id, event_name: a_event_name, outcome_name: a_outcome_name }, NarrativeTriggerType::EventCompleted { event_id: b_event_id, event_name: b_event_name, outcome_name: b_outcome_name }) => a_event_id == b_event_id && a_event_name@ == b_event_name@ && opt_text(a_outcome_name) == opt_text(b_outcome_name),
        (NarrativeTriggerType::TurnCount { turns: a_turns, since_event: a_since_event }, NarrativeTriggerType::TurnCount { turns: b_turns, since_event: b_since_event }) => a_turns == b_turns && a_since_event == b_since_event,
        (NarrativeTriggerType::FlagSet { flag_name: a_flag_name }, NarrativeTriggerType::FlagSet { flag_name: b_flag_name }) => a_flag_name@ == b_flag_name@,
        (NarrativeTriggerType::FlagNotSet { flag_name: a_flag_name }, NarrativeTriggerType::FlagNotSet { flag_name: b_flag_name }) => a_flag_name@ == b_flag_name@,
        (NarrativeTriggerType::StatThreshold { character_id: a_character_id, stat_name: a_stat_name, min_value: a_min_value, max_value: a_max_value }, NarrativeTriggerType::StatThreshold { character_id: b_character_id, stat_name: b_stat_name, min_value: b_min_value, max_value: b_max_value }) => a_character_id == b_character_id && a_stat_name@ == b_stat_name@ && a_min_value == b_min_value && a_max_value == b_max_value,
        (NarrativeTriggerType::CombatResult { victory: a_victory, involved_npc: a_involved_npc }, NarrativeTriggerType::CombatResult { victory: b_victory, involved_npc: b_involved_npc }) => a_victory == b_victory && a_involved_npc == b_involved_npc,
        (NarrativeTriggerType::Custom { description: a_description, llm_evaluation: a_llm_evaluation }, NarrativeTriggerType::Custom { description: b_description, llm_evaluation: b_llm_evaluation }) => a_description@ == b_description@ && a_llm_evaluation == b_llm_evaluation,
        (NarrativeTriggerType::KnowsSpell { spell_id: a_spell_id, spell_name: a_spell_name }, NarrativeTriggerType::KnowsSpell { spell_id: b_spell_id, spell_name: b_spell_name }) => a_spell_id@ == b_spell_id@ && a_spell_name@ == b_spell_name@,
        (NarrativeTriggerType::HasFeat { feat_id: a_feat_id, feat_name: a_feat_name }, NarrativeTriggerType::HasFeat { feat_id: b_feat_id, feat_name: b_feat_name }) => a_feat_id@ == b_feat_id@ && a_feat_name@ == b_feat_name@,
        (NarrativeTriggerType::HasClass { class_id: a_class_id, class_name: a_class_name, min_level: a_min_level }, NarrativeTriggerType::HasClass { class_id: b_class_id, class_name: b_class_name, min_level: b_min_level }) => a_class_id@ == b_class_id@ && a_class_name@ == b_class_name@ && a_min_level == b_min_level,
        (NarrativeTriggerType::HasOrigin { origin_id: a_origin_id, origin_name: a_origin_name }, NarrativeTriggerType::HasOrigin { origin_id: b_origin_id, origin_name: b_origin_name }) => a_origin_id@ == b_origin_id@ && a_origin_name@ == b_origin_name@,
        (NarrativeTriggerType::KnowsCreature { creature_id: a_creature_id, creature_name: a_creature_name }, NarrativeTriggerType::KnowsCreature { creature_id: b_creature_id, creature_name: b_creature_name }) => a_creature_id@ == b_creature_id@ && a_creature_name@ == b_creature_name@,
        _ => false,
    }
}

/// A copy of a list of strings.
pub fn copy_strings(v: &Vec<String>) -> (r: Vec<String>)
    ensures
        r@ == v@,
{
    let r = v.clone();
    assert(r@ =~= v@);
    r
}

/// A copy of an optional string.
pub fn copy_opt_string(o: &Option<String>) -> (r: Option<String>)
    ensures
        r == *o,
{
    match o {
        Some(s) => Some(s.clone()),
        None => None,
    }
}

impl Clone for NarrativeTriggerType {
    fn clone(&self) -> (r: Self)
        ensures
            same_trigger_type(r, *self),
    {
        match self {
            NarrativeTriggerType::NpcAction {
                npc_id,
                npc_name,
                action_keywords,
                action_description,
            } => NarrativeTriggerType::NpcAction {
                npc_id: *npc_id,
                npc_name: npc_name.clone(),
                action_keywords: copy_strings(action_keywords),
                action_description: action_description.clone(),
            },
            NarrativeTriggerType::PlayerEntersLocation { location_id, location_name } => {
                NarrativeTriggerType::PlayerEntersLocation {
                    location_id: *location_id,
                    location_name: location_name.clone(),
                }
            },
            NarrativeTriggerType::TimeAtLocation { location_id, location_name, time_context } => {
                NarrativeTriggerType::TimeAtLocation {
                    location_id: *location_id,
                    location_name: location_name.clone(),
                    time_context: time_context.clone(),
                }
            },
            NarrativeTriggerType::DialogueTopic { keywords, with_npc, npc_name } => {
                NarrativeTriggerType::DialogueTopic {
                    keywords: copy_strings(keywords),
                    with_npc: *with_npc,
                    npc_name: copy_opt_string(npc_name),
                }
            },
            NarrativeTriggerType::ChallengeCompleted {
                challenge_id,
                challenge_name,
                requires_success,
            } => NarrativeTriggerType::ChallengeCompleted {
                challenge_id: *challenge_id,
                challenge_name: challenge_name.clone(),
                requires_success: *requires_success,
            },
            NarrativeTriggerType::RelationshipThreshold {
                character_id,
                character_name,
                with_character,
                with_character_name,
                min_sentiment,
                max_sentiment,
            } => NarrativeTriggerType::RelationshipThreshold {
                character_id: *character_id,
                character_name: character_name.clone(),
                with_character: *with_character,
                with_character_name: with_character_name.clone(),
                min_sentiment: *min_sentiment,
                max_sentiment: *max_sentiment,
            },
            NarrativeTriggerType::HasItem { item_name, quantity } => NarrativeTriggerType::HasItem {
                item_name: item_name.clone(),
                quantity: *quantity,
            },
            NarrativeTriggerType::MissingItem { item_name } => NarrativeTriggerType::MissingItem {
                item_name: item_name.clone(),
            },
            NarrativeTriggerType::EventCompleted { event_id, event_name, outcome_name } => {
                NarrativeTriggerType::EventCompleted {
                    event_id: *event_id,
                    event_name: event_name.clone(),
                    outcome_name: copy_opt_string(outcome_name),
                }
            },
            NarrativeTriggerType::TurnCount { turns, since_event } => NarrativeTriggerType::TurnCount {
                turns: *turns,
                since_event: *since_event,
            },
            NarrativeTriggerType::FlagSet { flag_name } => NarrativeTriggerType::FlagSet {
                flag_name: flag_name.clone(),
            },
            NarrativeTriggerType::FlagNotSet { flag_name } => NarrativeTriggerType::FlagNotSet {
                flag_name: flag_name.clone(),
            },
            NarrativeTriggerType::StatThreshold { character_id, stat_name, min_value, max_value } => {
                NarrativeTriggerType::StatThreshold {
                    character_id: *character_id,
                    stat_name: stat_name.clone(),
                    min_value: *min_value,
                    max_value: *max_value,
                }
            },
            NarrativeTriggerType::CombatResult { victory, involved_npc } => {
                NarrativeTriggerType::CombatResult { victory: *victory, involved_npc: *involved_npc }
            },
            NarrativeTriggerType::Custom { description, llm_evaluation } => {
                NarrativeTriggerType::Custom {
                    description: description.clone(),
                    llm_evaluation: *llm_evaluation,
                }
            },
            NarrativeTriggerType::KnowsSpell { spell_id, spell_name } => {
                NarrativeTriggerType::KnowsSpell {
                    spell_id: spell_id.clone(),
                    spell_name: spell_name.clone(),
                }
            },
            NarrativeTriggerType::HasFeat { feat_id, feat_name } => NarrativeTriggerType::HasFeat {
                feat_id: feat_id.clone(),
                feat_name: feat_name.clone(),
            },
            NarrativeTriggerType::HasClass { class_id, class_name, min_level } => {
                NarrativeTriggerType::HasClass {
                    class_id: class_id.clone(),
                    class_name: class_name.clone(),
                    min_level: *min_level,
                }
            },
            NarrativeTriggerType::HasOrigin { origin_id, origin_name } => {
                NarrativeTriggerType::HasOrigin {
                    origin_id: origin_id.clone(),
                    origin_name: origin_name.clone(),
                }
            },
            NarrativeTriggerType::KnowsCreature { creature_id, creature_name } => {
                NarrativeTriggerType::KnowsCreature {
                    creature_id: creature_id.clone(),
                    creature_name: creature_name.clone(),
                }
            },
        }
    }
}

/// One trigger condition of a narrative event.
#[derive(Debug, PartialEq, Eq)]
pub struct NarrativeTrigger {
    /// What must hold.
    pub trigger_type: NarrativeTriggerType,
    /// Human-readable description for the DM.
    pub description: String,
    /// Whether this condition must be met whatever the logic says.
    pub is_required: bool,
    /// Identifier of this trigger within its event.
    pub trigger_id: String,
}

impl Clone for NarrativeTrigger {
    fn clone(&self) -> (r: Self)
        ensures
            same_trigger(r, *self),
    {
        NarrativeTrigger {
            trigger_type: self.trigger_type.clone(),
            description: self.description.clone(),
            is_required: self.is_required,
            trigger_id: self.trigger_id.clone(),
        }
    }
}

impl NarrativeTrigger {
    /// An optional (not required) trigger condition.
    pub fn new(trigger_type: NarrativeTriggerType, description: &str, trigger_id: &str) -> (t:
        Self)
        ensures
            t.trigger_type == trigger_type,
            t.description@ == description@,
            !t.is_required,
            t.trigger_id@ == trigger_id@,
    {
        NarrativeTrigger {
            trigger_type,
            description: description.to_owned(),
            is_required: false,
            trigger_id: trigger_id.to_owned(),
        }
    }
}

/// Whether two triggers have the same contents.
pub open spec fn same_trigger(a: NarrativeTrigger, b: NarrativeTrigger) -> bool {
    &&& same_trigger_type(a.trigger_type, b.trigger_type)
    &&& a.description@ == b.description@
    &&& a.is_required == b.is_required
    &&& a.trigger_id@ == b.trigger_id@
}

/// Whether two lists of triggers have the same contents.
pub open spec fn same_triggers(a: Seq<NarrativeTrigger>, b: Seq<NarrativeTrigger>) -> bool {
    &&& a.len() == b.len()
    &&& forall|i: int| 0 <= i < a.len() ==> same_trigger(#[trigger] a[i], b[i])
}

/// Whether two optional trigger kinds have the same contents.
pub open spec fn same_opt_trigger_type(
    a: Option<NarrativeTriggerType>,
    b: Option<NarrativeTriggerType>,
) -> bool {
    match (a, b) {
        (Some(x), Some(y)) => same_trigger_type(x, y),
        (None, None) => true,
        _ => false,
    }
}

/// A copy of a list of triggers.
pub fn copy_triggers(v: &Vec<NarrativeTrigger>) -> (r: Vec<NarrativeTrigger>)
    ensures
        same_triggers(r@, v@),
{
    v.clone()
}


/// How the player reaches an outcome.
#[derive(Debug, PartialEq, Eq)]
pub enum OutcomeCondition {
    /// The DM picks this outcome.
    DmChoice,
    /// A challenge result decides.
    ChallengeResult { challenge_id: Option<ChallengeId>, success_required: bool },
    /// A combat result decides.
    CombatResult { victory_required: bool },
    /// A dialogue choice was made.
    DialogueChoice { keywords: Vec<String> },
    /// The player takes a given action.
    PlayerAction { action_keywords: Vec<String> },
    /// The player holds an item.
    HasItem { item_name: String },
    /// A condition that an LLM judges.
    Custom { description: String },
}

/// An effect of an event outcome.
#[derive(Debug, PartialEq, Eq)]
pub enum EventEffect {
    /// Changes the relationship between two characters.
    ModifyRelationship {
        from_character: CharacterId,
        from_name: String,
        to_character: CharacterId,
        to_name: String,
        sentiment_change: Sentiment,
        reason: String,
    },
    /// Gives an item to the player.
    GiveItem { item_name: String, item_description: Option<String>, quantity: u32 },
    /// Takes an item from the player.
    TakeItem { item_name: String, quantity: u32 },
    /// Reveals information to the players.
    RevealInformation { info_type: String, title: String, content: String, persist_to_journal: bool },
    /// Sets a game flag.
    SetFlag { flag_name: String, value: bool },
    /// Enables a challenge.
    EnableChallenge { challenge_id: ChallengeId, challenge_name: String },
    /// Disables a challenge.
    DisableChallenge { challenge_id: ChallengeId, challenge_name: String },
    /// Enables another narrative event.
    EnableEvent { event_id: NarrativeEventId, event_name: String },
    /// Disables another narrative event.
    DisableEvent { event_id: NarrativeEventId, event_name: String },
    /// Moves to another scene.
    TriggerScene { scene_id: SceneId, scene_name: String },
    /// Starts a combat encounter.
    StartCombat { participants: Vec<CharacterId>, participant_names: Vec<String>, combat_description: String },
    /// Changes a character's stat.
    ModifyStat { character_id: CharacterId, character_name: String, stat_name: String, modifier: i32 },
    /// Adds experience or another reward.
    AddReward { reward_type: String, amount: i32, description: String },
    /// A custom effect for the DM or an LLM.
    Custom { description: String, requires_dm_action: bool },
}

/// Whether two outcome conditions are the same variant with the same contents.
pub open spec fn same_condition(a: OutcomeCondition, b: OutcomeCondition) -> bool {
    match (a, b) {
        (OutcomeCondition::DmChoice, OutcomeCondition::DmChoice) => true,
        (OutcomeCondition::ChallengeResult { challenge_id: a_challenge_id, success_required: a_success_required }, OutcomeCondition::ChallengeResult { challenge_id: b_challenge_id, success_required: b_success_required }) => a_challenge_id == b_challenge_id && a_success_required == b_success_required,
        (OutcomeCondition::CombatResult { victory_required: a_victory_required }, OutcomeCondition::CombatResult { victory_required: b_victory_required }) => a_victory_required == b_victory_required,
        (OutcomeCondition::DialogueChoice { keywords: a_keywords }, OutcomeCondition::DialogueChoice { keywords: b_keywords }) => texts(a_keywords@) == texts(b_keywords@),
        (OutcomeCondition::PlayerAction { action_keywords: a_action_keywords }, OutcomeCondition::PlayerAction { action_keywords: b_action_keywords }) => texts(a_action_keywords@) == texts(b_action_keywords@),
        (OutcomeCondition::HasItem { item_name: a_item_name }, OutcomeCondition::HasItem { item_name: b_item_name }) => a_item_name@ == b_item_name@,
        (OutcomeCondition::Custom { description: a_description }, OutcomeCondition::Custom { description: b_description }) => a_description@ == b_description@,
        _ => false,
    }
}

impl Clone for OutcomeCondition {
    fn clone(&self) -> (r: Self)
        ensures
            same_condition(r, *self),
    {
        match self {
            OutcomeCondition::DmChoice => OutcomeCondition::DmChoice,
            OutcomeCondition::ChallengeResult { challenge_id, success_required } => OutcomeCondition::ChallengeResult { challenge_id: *challenge_id, success_required: *success_required },
            OutcomeCondition::CombatResult { victory_required } => OutcomeCondition::CombatResult { victory_required: *victory_required },
            OutcomeCondition::DialogueChoice { keywords } => OutcomeCondition::DialogueChoice { keywords: copy_strings(keywords) },
            OutcomeCondition::PlayerAction { action_keywords } => OutcomeCondition::PlayerAction { action_keywords: copy_strings(action_keywords) },
            OutcomeCondition::HasItem { item_name } => OutcomeCondition::HasItem { item_name: item_name.clone() },
            OutcomeCondition::Custom { description } => OutcomeCondition::Custom { description: description.clone() },
        }
    }
}

/// Whether two effects are the same variant with the same contents.
pub open spec fn same_effect(a: EventEffect, b: EventEffect) -> bool {
    match (a, b) {
        (EventEffect::ModifyRelationship { from_character: a_from_character, from_name: a_from_name, to_character: a_to_character, to_name: a_to_name, sentiment_change: a_sentiment_change, reason: a_reason }, EventEffect::ModifyRelationship { from_character: b_from_character, from_name: b_from_name, to_character: b_to_character, to_name: b_to_name, sentiment_change: b_sentiment_change, reason: b_reason }) => a_from_character == b_from_character && a_from_name@ == b_from_name@ && a_to_character == b_to_character && a_to_name@ == b_to_name@ && a_sentiment_change == b_sentiment_change && a_reason@ == b_reason@,
        (EventEffect::GiveItem { item_name: a_item_name, item_description: a_item_description, quantity: a_quantity }, EventEffect::GiveItem { item_name: b_item_name, item_description: b_item_description, quantity: b_quantity }) => a_item_name@ == b_item_name@ && opt_text(a_item_description) == opt_text(b_item_description) && a_quantity == b_quantity,
        (EventEffect::TakeItem { item_name: a_item_name, quantity: a_quantity }, EventEffect::TakeItem { item_name: b_item_name, quantity: b_quantity }) => a_item_name@ == b_item_name@ && a_quantity == b_quantity,
        (EventEffect::RevealInformation { info_type: a_info_type, title: a_title, content: a_content, persist_to_journal: a_persist_to_journal }, EventEffect::RevealInformation { info_type: b_info_type, title: b_title, content: b_content, persist_to_journal: b_persist_to_journal }) => a_info_type@ == b_info_type@ && a_title@ == b_title@ && a_content@ == b_content@ && a_persist_to_journal == b_persist_to_journal,
        (EventEffect::SetFlag { flag_name: a_flag_name, value: a_value }, EventEffect::SetFlag { flag_name: b_flag_name, value: b_value }) => a_flag_name@ == b_flag_name@ && a_value == b_value,
        (EventEffect::EnableChallenge { challenge_id: a_challenge_id, challenge_name: a_challenge_name }, EventEffect::EnableChallenge { challenge_id: b_challenge_id, challenge_name: b_challenge_name }) => a_challenge_id == b_challenge_id && a_challenge_name@ == b_challenge_name@,
        (EventEffect::DisableChallenge { challenge_id: a_challenge_id, challenge_name: a_challenge_name }, EventEffect::DisableChallenge { challenge_id: b_challenge_id, challenge_name: b_challenge_name }) => a_challenge_id == b_challenge_id && a_challenge_name@ == b_challenge_name@,
        (EventEffect::EnableEvent { event_id: a_event_id, event_name: a_event_name }, EventEffect::EnableEvent { event_id: b_event_id, event_name: b_event_name }) => a_event_id == b_event_id && a_event_name@ == b_event_name@,
        (EventEffect::DisableEvent { event_id: a_event_id, event_name: a_event_name }, EventEffect::DisableEvent { event_id: b_event_id, event_name: b_event_name }) => a_event_id == b_event_id && a_event_name@ == b_event_name@,
        (EventEffect::TriggerScene { scene_id: a_scene_id, scene_name: a_scene_name }, EventEffect::TriggerScene { scene_id: b_scene_id, scene_name: b_scene_name }) => a_scene_id == b_scene_id && a_scene_name@ == b_scene_name@,
        (EventEffect::StartCombat { participants: a_participants, participant_names: a_participant_names, combat_description: a_combat_description }, EventEffect::StartCombat { participants: b_participants, participant_names: b_participant_names, combat_description: b_combat_description }) => a_participants@ == b_participants@ && texts(a_participant_names@) == texts(b_participant_names@) && a_combat_description@ == b_combat_description@,
        (EventEffect::ModifyStat { character_id: a_character_id, character_name: a_character_name, stat_name: a_stat_name, modifier: a_modifier }, EventEffect::ModifyStat { character_id: b_character_id, character_name: b_character_name, stat_name: b_stat_name, modifier: b_modifier }) => a_character_id == b_character_id && a_character_name@ == b_character_name@ && a_stat_name@ == b_stat_name@ && a_modifier == b_modifier,
        (EventEffect::AddReward { reward_type: a_reward_type, amount: a_amount, description: a_description }, EventEffect::AddReward { reward_type: b_reward_type, amount: b_amount, description: b_description }) => a_reward_type@ == b_reward_type@ && a_amount == b_amount && a_description@ == b_description@,
        (EventEffect::Custom { description: a_description, requires_dm_action: a_requires_dm_action }, EventEffect::Custom { description: b_description, requires_dm_action: b_requires_dm_action }) => a_description@ == b_description@ && a_requires_dm_action == b_requires_dm_action,
        _ => false,
    }
}

impl Clone for EventEffect {
    fn clone(&self) -> (r: Self)
        ensures
            same_effect(r, *self),
    {
        match self {
            EventEffect::ModifyRelationship { from_character, from_name, to_character, to_name, sentiment_change, reason } => EventEffect::ModifyRelationship { from_character: *from_character, from_name: from_name.clone(), to_character: *to_character, to_name: to_name.clone(), sentiment_change: *sentiment_change, reason: reason.clone() },
            EventEffect::GiveItem { item_name, item_description, quantity } => EventEffect::GiveItem { item_name: item_name.clone(), item_description: copy_opt_string(item_description), quantity: *quantity },
            EventEffect::TakeItem { item_name, quantity } => EventEffect::TakeItem { item_name: item_name.clone(), quantity: *quantity },
            EventEffect::RevealInformation { info_type, title, content, persist_to_journal } => EventEffect::RevealInformation { info_type: info_type.clone(), title: title.clone(), content: content.clone(), persist_to_journal: *persist_to_journal },
            EventEffect::SetFlag { flag_name, value } => EventEffect::SetFlag { flag_name: flag_name.clone(), value: *value },
            EventEffect::EnableChallenge { challenge_id, challenge_name } => EventEffect::EnableChallenge { challenge_id: *challenge_id, challenge_name: challenge_name.clone() },
            EventEffect::DisableChallenge { challenge_id, challenge_name } => EventEffect::DisableChallenge { challenge_id: *challenge_id, challenge_name: challenge_name.clone() },
            EventEffect::EnableEvent { event_id, event_name } => EventEffect::EnableEvent { event_id: *event_id, event_name: event_name.clone() },
            EventEffect::DisableEvent { event_id, event_name } => EventEffect::DisableEvent { event_id: *event_id, event_name: event_name.clone() },
            EventEffect::TriggerScene { scene_id, scene_name } => EventEffect::TriggerScene { scene_id: *scene_id, scene_name: scene_name.clone() },
            EventEffect::StartCombat { participants, participant_names, combat_description } => EventEffect::StartCombat { participants: copy_ids(participants), participant_names: copy_strings(participant_names), combat_description: combat_description.clone() },
            EventEffect::ModifyStat { character_id, character_name, stat_name, modifier } => EventEffect::ModifyStat { character_id: *character_id, character_name: character_name.clone(), stat_name: stat_name.clone(), modifier: *modifier },
            EventEffect::AddReward { reward_type, amount, description } => EventEffect::AddReward { reward_type: reward_type.clone(), amount: *amount, description: description.clone() },
            EventEffect::Custom { description, requires_dm_action } => EventEffect::Custom { description: description.clone(), requires_dm_action: *requires_dm_action },
        }
    }
}

/// A copy of a list of character ids.
pub fn copy_ids(v: &Vec<CharacterId>) -> (r: Vec<CharacterId>)
    ensures
        r@ == v@,
{
    let r = v.clone();
    assert(r@ =~= v@);
    r
}

/// Whether two lists of effects have the same contents.
pub open spec fn same_effects(a: Seq<EventEffect>, b: Seq<EventEffect>) -> bool {
    &&& a.len() == b.len()
    &&& forall|i: int| 0 <= i < a.len() ==> same_effect(#[trigger] a[i], b[i])
}

/// A copy of a list of effects.
pub fn copy_effects(v: &Vec<EventEffect>) -> (r: Vec<EventEffect>)
    ensures
        same_effects(r@, v@),
{
    v.clone()
}

/// Whether two optional conditions have the same contents.
pub open spec fn same_opt_condition(a: Option<OutcomeCondition>, b: Option<OutcomeCondition>) -> bool {
    match (a, b) {
        (Some(x), Some(y)) => same_condition(x, y),
        (None, None) => true,
        _ => false,
    }
}

/// A copy of an optional condition.
pub fn copy_opt_condition(o: &Option<OutcomeCondition>) -> (r: Option<OutcomeCondition>)
    ensures
        same_opt_condition(r, *o),
{
    match o {
        Some(c) => Some(c.clone()),
        None => None,
    }
}

/// A copy of an optional trigger kind.
pub fn copy_opt_trigger_type(o: &Option<NarrativeTriggerType>) -> (r: Option<NarrativeTriggerType>)
    ensures
        same_opt_trigger_type(r, *o),
{
    match o {
        Some(t) => Some(t.clone()),
        None => None,
    }
}

/// A link from an outcome to a follow-up event.
#[derive(Debug, PartialEq, Eq)]
pub struct ChainedEvent {
    /// The event to chain to.
    pub event_id: NarrativeEventId,
    pub event_name: String,
    /// Turns before the chained event becomes live.
    pub delay_turns: u32,
    /// A further condition for the chain, beyond the parent's completion.
    pub additional_trigger: Option<NarrativeTriggerType>,
    /// Why this chains.
    pub chain_reason: Option<String>,
}

/// Whether two chain links have the same contents.
pub open spec fn same_chain(a: ChainedEvent, b: ChainedEvent) -> bool {
    &&& a.event_id == b.event_id
    &&& a.event_name@ == b.event_name@
    &&& a.delay_turns == b.delay_turns
    &&& same_opt_trigger_type(a.additional_trigger, b.additional_trigger)
    &&& opt_text(a.chain_reason) == opt_text(b.chain_reason)
}

impl Clone for ChainedEvent {
    fn clone(&self) -> (r: Self)
        ensures
            same_chain(r, *self),
    {
        ChainedEvent {
            event_id: self.event_id,
            event_name: self.event_name.clone(),
            delay_turns: self.delay_turns,
            additional_trigger: copy_opt_trigger_type(&self.additional_trigger),
            chain_reason: copy_opt_string(&self.chain_reason),
        }
    }
}

/// Whether two lists of chain links have the same contents.
pub open spec fn same_chains(a: Seq<ChainedEvent>, b: Seq<ChainedEvent>) -> bool {
    &&& a.len() == b.len()
    &&& forall|i: int| 0 <= i < a.len() ==> same_chain(#[trigger] a[i], b[i])
}

/// A copy of a list of chain links.
pub fn copy_chains(v: &Vec<ChainedEvent>) -> (r: Vec<ChainedEvent>)
    ensures
        same_chains(r@, v@),
{
    v.clone()
}

/// An outcome branch of a narrative event.
#[derive(Debug, PartialEq, Eq)]
pub struct EventOutcome {
    /// Identifier of this outcome within its event.
    pub name: String,
    /// Label for the DM.
    pub label: String,
    /// What happens.
    pub description: String,
    /// How the player reaches this outcome.
    pub condition: Option<OutcomeCondition>,
    /// What this outcome does.
    pub effects: Vec<EventEffect>,
    /// Events to chain to afterwards.
    pub chain_events: Vec<ChainedEvent>,
    /// Summary for the timeline.
    pub timeline_summary: Option<String>,
}

/// Whether two outcomes have the same contents.
pub open spec fn same_outcome(a: EventOutcome, b: EventOutcome) -> bool {
    &&& a.name@ == b.name@
    &&& a.label@ == b.label@
    &&& a.description@ == b.description@
    &&& same_opt_condition(a.condition, b.condition)
    &&& same_effects(a.effects@, b.effects@)
    &&& same_chains(a.chain_events@, b.chain_events@)
    &&& opt_text(a.timeline_summary) == opt_text(b.timeline_summary)
}

impl Clone for EventOutcome {
    fn clone(&self) -> (r: Self)
        ensures
            same_outcome(r, *self),
    {
        EventOutcome {
            name: self.name.clone(),
            label: self.label.clone(),
            description: self.description.clone(),
            condition: copy_opt_condition(&self.condition),
            effects: copy_effects(&self.effects),
            chain_events: copy_chains(&self.chain_events),
            timeline_summary: copy_opt_string(&self.timeline_summary),
        }
    }
}

/// Whether two lists of outcomes have the same contents.
pub open spec fn same_outcomes(a: Seq<EventOutcome>, b: Seq<EventOutcome>) -> bool {
    &&& a.len() == b.len()
    &&& forall|i: int| 0 <= i < a.len() ==> same_outcome(#[trigger] a[i], b[i])
}

/// A copy of a list of outcomes.
pub fn copy_outcomes(v: &Vec<EventOutcome>) -> (r: Vec<EventOutcome>)
    ensures
        same_outcomes(r@, v@),
{
    v.clone()
}

/// A featured NPC of a narrative event.
#[derive(Debug, Clone, PartialEq, Eq)]
pub struct FeaturedNpc {
    pub character_id: CharacterId,
    /// The NPC's role in the event.
    pub role: Option<String>,
}

impl FeaturedNpc {
    /// A featured NPC without a role.
    pub fn new(character_id: CharacterId) -> (f: Self)
        ensures
            f.character_id == character_id,
            f.role is None,
    {
        FeaturedNpc { character_id, role: None }
    }

    /// A featured NPC with a role.
    pub fn with_role(character_id: CharacterId, role: &str) -> (f: Self)
        ensures
            f.character_id == character_id,
            opt_text(f.role) == Some(role@),
    {
        FeaturedNpc { character_id, role: Some(role.to_owned()) }
    }
}

/// An event's place in an event chain.
#[derive(Debug, Clone, Copy, PartialEq, Eq, Structural)]
pub struct EventChainMembership {
    pub chain_id: EventChainId,
    /// Position in the chain, from 0.
    pub position: u32,
    /// Whether the event is completed within the chain.
    pub is_completed: bool,
}

impl EventChainMembership {
    /// Membership at `position`, not completed.
    pub fn new(chain_id: EventChainId, position: u32) -> (m: Self)
        ensures
            m == (EventChainMembership { chain_id, position, is_completed: false }),
    {
        EventChainMembership { chain_id, position, is_completed: false }
    }
}


// ---------------------------------------------------------------------------
// The game context that triggers are checked against
// ---------------------------------------------------------------------------

/// The value of the last pair whose text key is `k`.
pub open spec fn text_lookup<V>(pairs: Seq<(String, V)>, k: Seq<char>) -> Option<V>
    decreases pairs.len(),
{
    if pairs.len() == 0 {
        None
    } else if pairs.last().0@ == k {
        Some(pairs.last().1)
    } else {
        text_lookup(pairs.drop_last(), k)
    }
}

/// The value of the last pair whose key is `k`.
pub open spec fn key_lookup<K, V>(pairs: Seq<(K, V)>, k: K) -> Option<V>
    decreases pairs.len(),
{
    if pairs.len() == 0 {
        None
    } else if pairs.last().0 == k {
        Some(pairs.last().1)
    } else {
        key_lookup(pairs.drop_last(), k)
    }
}

/// The map that a list of pairs stands for: a later pair with the same key
/// replaces an earlier one, as an insertion into a map does.
pub open spec fn key_map<K, V>(pairs: Seq<(K, V)>) -> Map<K, V>
    decreases pairs.len(),
{
    if pairs.len() == 0 {
        Map::empty()
    } else {
        key_map(pairs.drop_last()).insert(pairs.last().0, pairs.last().1)
    }
}

/// The map that a list of pairs with text keys stands for, keyed by the
/// keys' texts.
pub open spec fn text_key_map<V>(pairs: Seq<(String, V)>) -> Map<Seq<char>, V>
    decreases pairs.len(),
{
    if pairs.len() == 0 {
        Map::empty()
    } else {
        text_key_map(pairs.drop_last()).insert(pairs.last().0@, pairs.last().1)
    }
}

/// Looking a key up in a list of pairs reads the map the list stands for:
/// the value of the key if the map holds it, nothing otherwise.
pub proof fn law_key_lookup_reads_map<K, V>(pairs: Seq<(K, V)>, k: K)
    ensures
        key_lookup(pairs, k) == (if key_map(pairs).contains_key(k) {
            Some(key_map(pairs)[k])
        } else {
            None
        }),
    decreases pairs.len(),
{
    if pairs.len() > 0 {
        law_key_lookup_reads_map(pairs.drop_last(), k);
    }
}

/// Looking a text up in a list of pairs with text keys reads the map the
/// list stands for.
pub proof fn law_text_lookup_reads_map<V>(pairs: Seq<(String, V)>, k: Seq<char>)
    ensures
        text_lookup(pairs, k) == (if text_key_map(pairs).contains_key(k) {
            Some(text_key_map(pairs)[k])
        } else {
            None
        }),
    decreases pairs.len(),
{
    if pairs.len() > 0 {
        law_text_lookup_reads_map(pairs.drop_last(), k);
    }
}

/// Adding a pair to a list inserts it into the map the list stands for.
pub proof fn law_adding_a_pair_inserts<K, V>(pairs: Seq<(K, V)>, k: K, v: V)
    ensures
        key_map(pairs.push((k, v))) == key_map(pairs).insert(k, v),
{
    assert(pairs.push((k, v)).drop_last() =~= pairs);
}

/// The last recorded sentiment of `from` toward `to`.
pub open spec fn relationship_lookup(
    rs: Seq<(CharacterId, CharacterId, Sentiment)>,
    from: CharacterId,
    to: CharacterId,
) -> Option<Sentiment>
    decreases rs.len(),
{
    if rs.len() == 0 {
        None
    } else if rs.last().0 == from && rs.last().1 == to {
        Some(rs.last().2)
    } else {
        relationship_lookup(rs.drop_last(), from, to)
    }
}

/// The last recorded value of a character's stat.
pub open spec fn stat_lookup(ss: Seq<(CharacterId, String, i32)>, id: CharacterId, name: Seq<char>) -> Option<
    i32,
>
    decreases ss.len(),
{
    if ss.len() == 0 {
        None
    } else if ss.last().0 == id && ss.last().1@ == name {
        Some(ss.last().2)
    } else {
        stat_lookup(ss.drop_last(), id, name)
    }
}

/// The level of the first class whose id equals `class_id` ignoring ASCII
/// case.
pub open spec fn class_level_lookup(cls: Seq<(String, u8)>, class_id: Seq<char>) -> Option<u8>
    decreases cls.len(),
{
    if cls.len() == 0 {
        None
    } else if eq_ignoring_ascii_case(cls[0].0@, class_id) {
        Some(cls[0].1)
    } else {
        class_level_lookup(cls.drop_first(), class_id)
    }
}

/// How many entries hold exactly the text `t`.
pub open spec fn count_text(s: Seq<String>, t: Seq<char>) -> nat
    decreases s.len(),
{
    if s.len() == 0 {
        0
    } else {
        count_text(s.drop_last(), t) + if s.last()@ == t {
            1nat
        } else {
            0nat
        }
    }
}

/// Whether some entry equals `t` ignoring ASCII case.
pub open spec fn has_ignoring_case(s: Seq<String>, t: Seq<char>) -> bool {
    exists|i: int| 0 <= i < s.len() && eq_ignoring_ascii_case(#[trigger] s[i]@, t)
}

/// Whether one of the keywords is among the topics.
pub open spec fn any_topic(keywords: Seq<String>, topics: Seq<String>) -> bool {
    exists|i: int| 0 <= i < keywords.len() && texts(topics).contains(#[trigger] keywords[i]@)
}

/// Whether the action, lower-cased, contains one of the keywords,
/// lower-cased.
pub open spec fn action_has_keyword(action: Seq<char>, keywords: Seq<String>) -> bool {
    exists|i: int|
        0 <= i < keywords.len() && is_substring(lowercase(action), lowercase(#[trigger] keywords[i]@))
}

/// The game state that narrative triggers are checked against. Maps are
/// held as lists of pairs where the last pair for a key counts: such a list
/// stands for the map `key_map` (or `text_key_map`) gives, and the lookups
/// by key read that map (see `law_key_lookup_reads_map`). Class levels are
/// the exception: a class is found by the first id equal to it ignoring
/// ASCII case.
#[derive(Debug, Clone, PartialEq)]
pub struct TriggerContext {
    pub current_location: Option<LocationId>,
    pub current_scene: Option<SceneId>,
    /// Time of day (such as "evening").
    pub time_context: Option<String>,
    /// Game flags by name.
    pub flags: Vec<(String, bool)>,
    /// Names of the items the player holds, one entry per item.
    pub inventory: Vec<String>,
    pub completed_events: Vec<NarrativeEventId>,
    /// The outcome each completed event ended with.
    pub event_outcomes: Vec<(NarrativeEventId, String)>,
    /// Turns since each event.
    pub turns_since_event: Vec<(NarrativeEventId, u32)>,
    pub completed_challenges: Vec<ChallengeId>,
    /// Whether each completed challenge succeeded.
    pub challenge_successes: Vec<(ChallengeId, bool)>,
    /// Turns since the session started.
    pub turn_count: u32,
    pub recent_dialogue_topics: Vec<String>,
    pub recent_player_action: Option<String>,
    /// Results of custom triggers judged beforehand, by trigger
    /// description; a custom trigger not listed is not met.
    pub custom_trigger_results: Vec<(String, bool)>,
    /// Sentiment of one character (first) toward another (second).
    pub relationships: Vec<(CharacterId, CharacterId, Sentiment)>,
    /// Effective stat values by character and stat name.
    pub character_stats: Vec<(CharacterId, String, i32)>,
    /// Spell ids the player character knows.
    pub known_spells: Vec<String>,
    /// Feat ids the player character has.
    pub character_feats: Vec<String>,
    /// Class ids with the player character's level in each.
    pub class_levels: Vec<(String, u8)>,
    /// The player character's origin (race) id.
    pub origin_id: Option<String>,
    /// Creature ids the player character knows about.
    pub known_creatures: Vec<String>,
}

/// A context with nothing in it.
pub open spec fn empty_context(c: TriggerContext) -> bool {
    &&& c.current_location is None
    &&& c.current_scene is None
    &&& c.time_context is None
    &&& c.flags@.len() == 0
    &&& c.inventory@.len() == 0
    &&& c.completed_events@.len() == 0
    &&& c.event_outcomes@.len() == 0
    &&& c.turns_since_event@.len() == 0
    &&& c.completed_challenges@.len() == 0
    &&& c.challenge_successes@.len() == 0
    &&& c.turn_count == 0
    &&& c.recent_dialogue_topics@.len() == 0
    &&& c.recent_player_action is None
    &&& c.custom_trigger_results@.len() == 0
    &&& c.relationships@.len() == 0
    &&& c.character_stats@.len() == 0
    &&& c.known_spells@.len() == 0
    &&& c.character_feats@.len() == 0
    &&& c.class_levels@.len() == 0
    &&& c.origin_id is None
    &&& c.known_creatures@.len() == 0
}

/// The test "belongs to another character than `id`".
pub open spec fn stat_of_other(id: CharacterId) -> spec_fn((CharacterId, String, i32)) -> bool {
    |e: (CharacterId, String, i32)| e.0 != id
}

/// Stat entries of a character from name and value pairs.
pub open spec fn stat_entries(id: CharacterId, stats: Seq<(String, i32)>) -> Seq<(CharacterId, String, i32)> {
    stats.map_values(|p: (String, i32)| (id, p.0, p.1))
}

impl Default for TriggerContext {
    fn default() -> (c: Self)
        ensures
            empty_context(c),
    {
        TriggerContext::new()
    }
}

impl TriggerContext {
    /// An empty context.
    pub fn new() -> (c: Self)
        ensures
            empty_context(c),
    {
        TriggerContext {
            current_location: None,
            current_scene: None,
            time_context: None,
            flags: Vec::new(),
            inventory: Vec::new(),
            completed_events: Vec::new(),
            event_outcomes: Vec::new(),
            turns_since_event: Vec::new(),
            completed_challenges: Vec::new(),
            challenge_successes: Vec::new(),
            turn_count: 0,
            recent_dialogue_topics: Vec::new(),
            recent_player_action: None,
            custom_trigger_results: Vec::new(),
            relationships: Vec::new(),
            character_stats: Vec::new(),
            known_spells: Vec::new(),
            character_feats: Vec::new(),
            class_levels: Vec::new(),
            origin_id: None,
            known_creatures: Vec::new(),
        }
    }

    /// Records a custom trigger result judged beforehand.
    pub fn add_custom_trigger_result(&mut self, description: String, met: bool)
        ensures
            final(self).custom_trigger_results@ == old(self).custom_trigger_results@.push(
                (description, met),
            ),
            text_key_map(final(self).custom_trigger_results@) == text_key_map(
                old(self).custom_trigger_results@,
            ).insert(description@, met),
            *final(self) == (TriggerContext {
                custom_trigger_results: final(self).custom_trigger_results,
                ..*old(self)
            }),
    {
        let ghost before = self.custom_trigger_results@;
        self.custom_trigger_results.push((description, met));
        assert(self.custom_trigger_results@.drop_last() =~= before);
    }

    /// This context with the given custom trigger results (in place of any
    /// earlier ones).
    pub fn with_custom_trigger_results(self, results: Vec<(String, bool)>) -> (c: Self)
        ensures
            c == (TriggerContext { custom_trigger_results: results, ..self }),
    {
        TriggerContext { custom_trigger_results: results, ..self }
    }

    /// Records the sentiment of `from_character` toward `to_character`.
    pub fn add_relationship(
        &mut self,
        from_character: CharacterId,
        to_character: CharacterId,
        sentiment: Sentiment,
    )
        ensures
            final(self).relationships@ == old(self).relationships@.push(
                (from_character, to_character, sentiment),
            ),
            *final(self) == (TriggerContext {
                relationships: final(self).relationships,
                ..*old(self)
            }),
    {
        self.relationships.push((from_character, to_character, sentiment));
    }

    /// The sentiment of `from_character` toward `to_character`, if
    /// recorded.
    pub fn get_relationship(&self, from_character: CharacterId, to_character: CharacterId) -> (r:
        Option<Sentiment>)
        ensures
            r == relationship_lookup(self.relationships@, from_character, to_character),
    {
        let ghost rs = self.relationships@;
        let mut j = self.relationships.len();
        assert(rs.take(j as int) =~= rs);
        while j > 0
            invariant
                j <= rs.len(),
                rs == self.relationships@,
                relationship_lookup(rs, from_character, to_character) == relationship_lookup(
                    rs.take(j as int),
                    from_character,
                    to_character,
                ),
            decreases j,
        {
            let e = &self.relationships[j - 1];
            assert(rs.take(j as int).drop_last() =~= rs.take(j - 1));
            if e.0 == from_character && e.1 == to_character {
                return Some(e.2);
            }
            j = j - 1;
        }
        None
    }

    /// Records the effective value of a character's stat.
    pub fn add_character_stat(&mut self, character_id: CharacterId, stat_name: &str, value: i32)
        ensures
            final(self).character_stats@.len() == old(self).character_stats@.len() + 1,
            final(self).character_stats@.drop_last() == old(self).character_stats@,
            final(self).character_stats@.last().0 == character_id,
            final(self).character_stats@.last().1@ == stat_name@,
            final(self).character_stats@.last().2 == value,
            *final(self) == (TriggerContext {
                character_stats: final(self).character_stats,
                ..*old(self)
            }),
    {
        let ghost before = self.character_stats@;
        self.character_stats.push((character_id, stat_name.to_owned(), value));
        assert(self.character_stats@.drop_last() =~= before);
    }

    /// Replaces all the stats of a character with the given ones.
    pub fn add_character_stats(&mut self, character_id: CharacterId, stats: Vec<(String, i32)>)
        ensures
            final(self).character_stats@ == old(self).character_stats@.filter(
                stat_of_other(character_id),
            ) + stat_entries(character_id, stats@),
            *final(self) == (TriggerContext {
                character_stats: final(self).character_stats,
                ..*old(self)
            }),
    {
        let ghost all = self.character_stats@;
        let mut kept: Vec<(CharacterId, String, i32)> = Vec::new();
        for i in 0..self.character_stats.len()
            invariant
                all == self.character_stats@,
                kept@ == all.take(i as int).filter(stat_of_other(character_id)),
        {
            proof {
                reveal(Seq::filter);
            }
            assert(all.take(i + 1).drop_last() =~= all.take(i as int));
            let e = &self.character_stats[i];
            if e.0 != character_id {
                kept.push((e.0, e.1.clone(), e.2));
            }
        }
        assert(all.take(all.len() as int) =~= all);
        let ghost base = kept@;
        for i in 0..stats.len()
            invariant
                kept@ == base + stat_entries(character_id, stats@.take(i as int)),
        {
            let p = &stats[i];
            kept.push((character_id, p.0.clone(), p.1));
            assert(stat_entries(character_id, stats@.take(i + 1)) =~= stat_entries(
                character_id,
                stats@.take(i as int),
            ).push((character_id, stats@[i as int].0, stats@[i as int].1)));
        }
        assert(stats@.take(stats@.len() as int) =~= stats@);
        self.character_stats = kept;
    }

    /// The effective value of a character's stat, if recorded.
    pub fn get_character_stat(&self, character_id: CharacterId, stat_name: &str) -> (r: Option<
        i32,
    >)
        ensures
            r == stat_lookup(self.character_stats@, character_id, stat_name@),
    {
        let ghost ss = self.character_stats@;
        let mut j = self.character_stats.len();
        assert(ss.take(j as int) =~= ss);
        while j > 0
            invariant
                j <= ss.len(),
                ss == self.character_stats@,
                stat_lookup(ss, character_id, stat_name@) == stat_lookup(
                    ss.take(j as int),
                    character_id,
                    stat_name@,
                ),
            decreases j,
        {
            let e = &self.character_stats[j - 1];
            assert(ss.take(j as int).drop_last() =~= ss.take(j - 1));
            if e.0 == character_id && str_eq(e.1.as_str(), stat_name) {
                return Some(e.2);
            }
            j = j - 1;
        }
        None
    }
}


// ---------------------------------------------------------------------------
// Checking one trigger
// ---------------------------------------------------------------------------

/// Looks up a boolean by text key (the last pair counts).
fn lookup_bool(pairs: &Vec<(String, bool)>, k: &str) -> (r: Option<bool>)
    ensures
        r == text_lookup(pairs@, k@),
{
    let ghost ps = pairs@;
    let mut j = pairs.len();
    assert(ps.take(j as int) =~= ps);
    while j > 0
        invariant
            j <= ps.len(),
            ps == pairs@,
            text_lookup(ps, k@) == text_lookup(ps.take(j as int), k@),
        decreases j,
    {
        assert(ps.take(j as int).drop_last() =~= ps.take(j - 1));
        if str_eq(pairs[j - 1].0.as_str(), k) {
            return Some(pairs[j - 1].1);
        }
        j = j - 1;
    }
    None
}

/// Looks up the outcome a completed event ended with.
fn lookup_outcome(pairs: &Vec<(NarrativeEventId, String)>, k: NarrativeEventId) -> (r: Option<&String>)
    ensures
        match key_lookup(pairs@, k) {
            Some(v) => r == Some(&v),
            None => r is None,
        },
{
    let ghost ps = pairs@;
    let mut j = pairs.len();
    assert(ps.take(j as int) =~= ps);
    while j > 0
        invariant
            j <= ps.len(),
            ps == pairs@,
            key_lookup(ps, k) == key_lookup(ps.take(j as int), k),
        decreases j,
    {
        assert(ps.take(j as int).drop_last() =~= ps.take(j - 1));
        if pairs[j - 1].0 == k {
            return Some(&pairs[j - 1].1);
        }
        j = j - 1;
    }
    None
}

/// Looks up the turns since an event.
fn lookup_turns(pairs: &Vec<(NarrativeEventId, u32)>, k: NarrativeEventId) -> (r: Option<u32>)
    ensures
        r == key_lookup(pairs@, k),
{
    let ghost ps = pairs@;
    let mut j = pairs.len();
    assert(ps.take(j as int) =~= ps);
    while j > 0
        invariant
            j <= ps.len(),
            ps == pairs@,
            key_lookup(ps, k) == key_lookup(ps.take(j as int), k),
        decreases j,
    {
        assert(ps.take(j as int).drop_last() =~= ps.take(j - 1));
        if pairs[j - 1].0 == k {
            return Some(pairs[j - 1].1);
        }
        j = j - 1;
    }
    None
}

/// Looks up whether a completed challenge succeeded.
fn lookup_success(pairs: &Vec<(ChallengeId, bool)>, k: ChallengeId) -> (r: Option<bool>)
    ensures
        r == key_lookup(pairs@, k),
{
    let ghost ps = pairs@;
    let mut j = pairs.len();
    assert(ps.take(j as int) =~= ps);
    while j > 0
        invariant
            j <= ps.len(),
            ps == pairs@,
            key_lookup(ps, k) == key_lookup(ps.take(j as int), k),
        decreases j,
    {
        assert(ps.take(j as int).drop_last() =~= ps.take(j - 1));
        if pairs[j - 1].0 == k {
            return Some(pairs[j - 1].1);
        }
        j = j - 1;
    }
    None
}

/// Looks up the level of the first class matching ignoring ASCII case.
fn lookup_class_level(cls: &Vec<(String, u8)>, class_id: &str) -> (r: Option<u8>)
    ensures
        r == class_level_lookup(cls@, class_id@),
{
    let ghost cs = cls@;
    let mut i: usize = 0;
    assert(cs.skip(0) =~= cs);
    while i < cls.len()
        invariant
            i <= cs.len(),
            cs == cls@,
            class_level_lookup(cs, class_id@) == class_level_lookup(cs.skip(i as int), class_id@),
        decreases cs.len() - i,
    {
        assert(cs.skip(i as int).drop_first() =~= cs.skip(i + 1));
        assert(cs.skip(i as int)[0] == cs[i as int]);
        if eq_ignore_ascii_case(cls[i].0.as_str(), class_id) {
            return Some(cls[i].1);
        }
        i = i + 1;
    }
    None
}

/// How many entries hold exactly `t`.
fn count_matching(s: &Vec<String>, t: &str) -> (n: usize)
    ensures
        n == count_text(s@, t@),
{
    let ghost all = s@;
    let mut n: usize = 0;
    for i in 0..s.len()
        invariant
            all == s@,
            n == count_text(all.take(i as int), t@),
            n <= i,
    {
        assert(all.take(i + 1).drop_last() =~= all.take(i as int));
        if str_eq(s[i].as_str(), t) {
            n = n + 1;
        }
    }
    assert(all.take(all.len() as int) =~= all);
    n
}

/// Whether some entry equals `t` ignoring ASCII case.
fn contains_ignoring_case(s: &Vec<String>, t: &str) -> (b: bool)
    ensures
        b == has_ignoring_case(s@, t@),
{
    for i in 0..s.len()
        invariant
            forall|m: int| 0 <= m < i ==> !eq_ignoring_ascii_case(s@[m]@, t@),
    {
        if eq_ignore_ascii_case(s[i].as_str(), t) {
            return true;
        }
    }
    false
}

/// Whether one of the keywords is among the topics.
fn has_any_topic(keywords: &Vec<String>, topics: &Vec<String>) -> (b: bool)
    ensures
        b == any_topic(keywords@, topics@),
{
    for i in 0..keywords.len()
        invariant
            forall|m: int| 0 <= m < i ==> !texts(topics@).contains(keywords@[m]@),
    {
        if contains_text(topics, keywords[i].as_str()) {
            return true;
        }
    }
    false
}

/// Whether the action, lower-cased, contains one of the keywords,
/// lower-cased.
fn action_contains_keyword(action: &str, keywords: &Vec<String>) -> (b: bool)
    ensures
        b == action_has_keyword(action@, keywords@),
{
    let lowered = to_lowercase(action);
    let hay = chars_of(lowered.as_str());
    for i in 0..keywords.len()
        invariant
            hay@ == lowercase(action@),
            forall|m: int|
                0 <= m < i ==> !is_substring(lowercase(action@), lowercase(keywords@[m]@)),
    {
        let kw = to_lowercase(keywords[i].as_str());
        let needle = chars_of(kw.as_str());
        if contains_chars(&hay, &needle) {
            return true;
        }
    }
    false
}

/// Whether the value meets optional lower and upper bounds.
pub open spec fn within_bounds(v: i32, min: Option<i32>, max: Option<i32>) -> bool {
    (match min {
        Some(m) => v >= m,
        None => true,
    }) && (match max {
        Some(m) => v <= m,
        None => true,
    })
}

/// Whether the sentiment meets optional lower and upper bounds.
pub open spec fn sentiment_within(s: Sentiment, min: Option<Sentiment>, max: Option<Sentiment>) -> bool {
    (match min {
        Some(m) => sentiment_ge(s, m),
        None => true,
    }) && (match max {
        Some(m) => sentiment_le(s, m),
        None => true,
    })
}

/// Whether a trigger condition holds in the context.
pub open spec fn trigger_met(t: NarrativeTriggerType, ctx: TriggerContext) -> bool {
    match t {
        NarrativeTriggerType::FlagSet { flag_name } => text_lookup(ctx.flags@, flag_name@) == Some(
            true,
        ),
        NarrativeTriggerType::FlagNotSet { flag_name } => text_lookup(ctx.flags@, flag_name@)
            != Some(true),
        NarrativeTriggerType::PlayerEntersLocation { location_id, .. } => ctx.current_location
            == Some(location_id),
        NarrativeTriggerType::HasItem { item_name, quantity } => (count_text(
            ctx.inventory@,
            item_name@,
        ) as u32) >= match quantity {
            Some(q) => q,
            None => 1u32,
        },
        NarrativeTriggerType::MissingItem { item_name } => !texts(ctx.inventory@).contains(
            item_name@,
        ),
        NarrativeTriggerType::EventCompleted { event_id, outcome_name, .. } => {
            ctx.completed_events@.contains(event_id) && match outcome_name {
                Some(required) => match key_lookup(ctx.event_outcomes@, event_id) {
                    Some(o) => o@ == required@,
                    None => false,
                },
                None => true,
            }
        },
        NarrativeTriggerType::TurnCount { turns, since_event } => match since_event {
            Some(e) => match key_lookup(ctx.turns_since_event@, e) {
                Some(n) => n >= turns,
                None => false,
            },
            None => ctx.turn_count >= turns,
        },
        NarrativeTriggerType::ChallengeCompleted { challenge_id, requires_success, .. } => {
            ctx.completed_challenges@.contains(challenge_id) && match requires_success {
                Some(need) => key_lookup(ctx.challenge_successes@, challenge_id) == Some(need),
                None => true,
            }
        },
        NarrativeTriggerType::DialogueTopic { keywords, .. } => any_topic(
            keywords@,
            ctx.recent_dialogue_topics@,
        ),
        NarrativeTriggerType::TimeAtLocation { location_id, time_context, .. } => {
            ctx.current_location == Some(location_id) && match ctx.time_context {
                Some(now) => lowercase(trimmed(now@)) == lowercase(trimmed(time_context@)),
                None => false,
            }
        },
        NarrativeTriggerType::NpcAction { action_keywords, .. } => match ctx.recent_player_action {
            Some(a) => action_has_keyword(a@, action_keywords@),
            None => false,
        },
        NarrativeTriggerType::RelationshipThreshold {
            character_id,
            with_character,
            min_sentiment,
            max_sentiment,
            ..
        } => match relationship_lookup(ctx.relationships@, character_id, with_character) {
            Some(s) => sentiment_within(s, min_sentiment, max_sentiment),
            None => false,
        },
        NarrativeTriggerType::StatThreshold { character_id, stat_name, min_value, max_value } => {
            match stat_lookup(ctx.character_stats@, character_id, stat_name@) {
                Some(v) => within_bounds(v, min_value, max_value),
                None => false,
            }
        },
        NarrativeTriggerType::CombatResult { .. } => false,
        NarrativeTriggerType::Custom { description, llm_evaluation } => llm_evaluation
            && text_lookup(ctx.custom_trigger_results@, description@) == Some(true),
        NarrativeTriggerType::KnowsSpell { spell_id, .. } => has_ignoring_case(
            ctx.known_spells@,
            spell_id@,
        ),
        NarrativeTriggerType::HasFeat { feat_id, .. } => has_ignoring_case(
            ctx.character_feats@,
            feat_id@,
        ),
        NarrativeTriggerType::HasClass { class_id, min_level, .. } => match class_level_lookup(
            ctx.class_levels@,
            class_id@,
        ) {
            Some(level) => match min_level {
                Some(m) => level >= m,
                None => true,
            },
            None => false,
        },
        NarrativeTriggerType::HasOrigin { origin_id, .. } => match ctx.origin_id {
            Some(o) => eq_ignoring_ascii_case(o@, origin_id@),
            None => false,
        },
        NarrativeTriggerType::KnowsCreature { creature_id, .. } => has_ignoring_case(
            ctx.known_creatures@,
            creature_id@,
        ),
    }
}

/// Whether the list holds the id.
fn contains_event(v: &Vec<NarrativeEventId>, id: NarrativeEventId) -> (b: bool)
    ensures
        b == v@.contains(id),
{
    for i in 0..v.len()
        invariant
            forall|m: int| 0 <= m < i ==> v@[m] != id,
    {
        if v[i] == id {
            return true;
        }
    }
    false
}

/// Whether the list holds the id.
fn contains_challenge(v: &Vec<ChallengeId>, id: ChallengeId) -> (b: bool)
    ensures
        b == v@.contains(id),
{
    for i in 0..v.len()
        invariant
            forall|m: int| 0 <= m < i ==> v@[m] != id,
    {
        if v[i] == id {
            return true;
        }
    }
    false
}

/// Whether a trigger condition holds in the context.
pub fn trigger_matches(trigger: &NarrativeTriggerType, context: &TriggerContext) -> (b: bool)
    ensures
        b == trigger_met(*trigger, *context),
{
    match trigger {
        NarrativeTriggerType::FlagSet { flag_name } => {
            lookup_bool(&context.flags, flag_name.as_str()) == Some(true)
        },
        NarrativeTriggerType::FlagNotSet { flag_name } => {
            lookup_bool(&context.flags, flag_name.as_str()) != Some(true)
        },
        NarrativeTriggerType::PlayerEntersLocation { location_id, .. } => {
            match context.current_location {
                Some(l) => l == *location_id,
                None => false,
            }
        },
        NarrativeTriggerType::HasItem { item_name, quantity } => {
            let count = count_matching(&context.inventory, item_name.as_str()) as u32;
            let needed = match quantity {
                Some(q) => *q,
                None => 1,
            };
            count >= needed
        },
        NarrativeTriggerType::MissingItem { item_name } => {
            !contains_text(&context.inventory, item_name.as_str())
        },
        NarrativeTriggerType::EventCompleted { event_id, outcome_name, .. } => {
            if contains_event(&context.completed_events, *event_id) {
                match outcome_name {
                    Some(required) => match lookup_outcome(&context.event_outcomes, *event_id) {
                        Some(o) => str_eq(o.as_str(), required.as_str()),
                        None => false,
                    },
                    None => true,
                }
            } else {
                false
            }
        },
        NarrativeTriggerType::TurnCount { turns, since_event } => match since_event {
            Some(e) => match lookup_turns(&context.turns_since_event, *e) {
                Some(n) => n >= *turns,
                None => false,
            },
            None => context.turn_count >= *turns,
        },
        NarrativeTriggerType::ChallengeCompleted { challenge_id, requires_success, .. } => {
            if contains_challenge(&context.completed_challenges, *challenge_id) {
                match requires_success {
                    Some(need) => match lookup_success(&context.challenge_successes, *challenge_id) {
                        Some(s) => s == *need,
                        None => false,
                    },
                    None => true,
                }
            } else {
                false
            }
        },
        NarrativeTriggerType::DialogueTopic { keywords, .. } => {
            has_any_topic(keywords, &context.recent_dialogue_topics)
        },
        NarrativeTriggerType::TimeAtLocation { location_id, time_context, .. } => {
            let at_location = match context.current_location {
                Some(l) => l == *location_id,
                None => false,
            };
            let time_matches = match &context.time_context {
                Some(now) => {
                    let a = to_lowercase(trim_str(now.as_str()).as_str());
                    let b = to_lowercase(trim_str(time_context.as_str()).as_str());
                    str_eq(a.as_str(), b.as_str())
                },
                None => false,
            };
            at_location && time_matches
        },
        NarrativeTriggerType::NpcAction { action_keywords, .. } => {
            match &context.recent_player_action {
                Some(a) => action_contains_keyword(a.as_str(), action_keywords),
                None => false,
            }
        },
        NarrativeTriggerType::RelationshipThreshold {
            character_id,
            with_character,
            min_sentiment,
            max_sentiment,
            ..
        } => match context.get_relationship(*character_id, *with_character) {
            Some(s) => {
                let meets_min = match min_sentiment {
                    Some(m) => s.at_least(m),
                    None => true,
                };
                let meets_max = match max_sentiment {
                    Some(m) => s.at_most(m),
                    None => true,
                };
                meets_min && meets_max
            },
            None => false,
        },
        NarrativeTriggerType::StatThreshold { character_id, stat_name, min_value, max_value } => {
            match context.get_character_stat(*character_id, stat_name.as_str()) {
                Some(v) => {
                    let meets_min = match min_value {
                        Some(m) => v >= *m,
                        None => true,
                    };
                    let meets_max = match max_value {
                        Some(m) => v <= *m,
                        None => true,
                    };
                    meets_min && meets_max
                },
                None => false,
            }
        },
        NarrativeTriggerType::CombatResult { .. } => false,
        NarrativeTriggerType::Custom { description, llm_evaluation } => {
            if *llm_evaluation {
                lookup_bool(&context.custom_trigger_results, description.as_str()) == Some(true)
            } else {
                false
            }
        },
        NarrativeTriggerType::KnowsSpell { spell_id, .. } => {
            contains_ignoring_case(&context.known_spells, spell_id.as_str())
        },
        NarrativeTriggerType::HasFeat { feat_id, .. } => {
            contains_ignoring_case(&context.character_feats, feat_id.as_str())
        },
        NarrativeTriggerType::HasClass { class_id, min_level, .. } => {
            match lookup_class_level(&context.class_levels, class_id.as_str()) {
                Some(level) => match min_level {
                    Some(m) => level >= *m,
                    None => true,
                },
                None => false,
            }
        },
        NarrativeTriggerType::HasOrigin { origin_id, .. } => match &context.origin_id {
            Some(o) => eq_ignore_ascii_case(o.as_str(), origin_id.as_str()),
            None => false,
        },
        NarrativeTriggerType::KnowsCreature { creature_id, .. } => {
            contains_ignoring_case(&context.known_creatures, creature_id.as_str())
        },
    }
}


// ---------------------------------------------------------------------------
// Checking all the triggers of an event
// ---------------------------------------------------------------------------

/// The ids of the triggers that hold, in order.
pub open spec fn matched_ids(ts: Seq<NarrativeTrigger>, ctx: TriggerContext) -> Seq<Seq<char>>
    decreases ts.len(),
{
    if ts.len() == 0 {
        Seq::empty()
    } else if trigger_met(ts.last().trigger_type, ctx) {
        matched_ids(ts.drop_last(), ctx).push(ts.last().trigger_id@)
    } else {
        matched_ids(ts.drop_last(), ctx)
    }
}

/// The ids of the triggers that do not hold, in order.
pub open spec fn unmatched_ids(ts: Seq<NarrativeTrigger>, ctx: TriggerContext) -> Seq<Seq<char>>
    decreases ts.len(),
{
    if ts.len() == 0 {
        Seq::empty()
    } else if trigger_met(ts.last().trigger_type, ctx) {
        unmatched_ids(ts.drop_last(), ctx)
    } else {
        unmatched_ids(ts.drop_last(), ctx).push(ts.last().trigger_id@)
    }
}

/// Whether `matched` of `total` conditions satisfy the logic.
pub open spec fn logic_satisfied(logic: TriggerLogic, matched: int, total: int) -> bool {
    match logic {
        TriggerLogic::All => matched == total,
        TriggerLogic::Any => matched > 0,
        TriggerLogic::AtLeast(n) => matched >= n,
    }
}

/// Whether every required trigger's id is among the matched ids.
pub open spec fn required_met(ts: Seq<NarrativeTrigger>, matched: Seq<Seq<char>>) -> bool {
    forall|i: int| 0 <= i < ts.len() && (#[trigger] ts[i]).is_required ==> matched.contains(ts[i].trigger_id@)
}

/// Whether an event with these triggers and logic fires in the context:
/// there is at least one trigger, the logic is satisfied and every
/// required trigger holds.
pub open spec fn fires(ts: Seq<NarrativeTrigger>, logic: TriggerLogic, ctx: TriggerContext) -> bool {
    &&& ts.len() > 0
    &&& logic_satisfied(logic, matched_ids(ts, ctx).len() as int, ts.len() as int)
    &&& required_met(ts, matched_ids(ts, ctx))
}

/// The result of checking an event's triggers.
#[derive(Debug, Clone, PartialEq, Eq)]
pub struct TriggerEvaluation {
    pub is_triggered: bool,
    /// Ids of the triggers that hold, in order.
    pub matched_triggers: Vec<String>,
    /// Ids of the triggers that do not hold, in order.
    pub unmatched_triggers: Vec<String>,
    pub total_triggers: usize,
}

impl TriggerEvaluation {
    /// An evaluation from its parts.
    pub fn new(
        is_triggered: bool,
        matched_triggers: Vec<String>,
        unmatched_triggers: Vec<String>,
        total_triggers: usize,
    ) -> (e: Self)
        ensures
            e == (TriggerEvaluation {
                is_triggered,
                matched_triggers,
                unmatched_triggers,
                total_triggers,
            }),
    {
        TriggerEvaluation { is_triggered, matched_triggers, unmatched_triggers, total_triggers }
    }
}

/// Checks every trigger against the context and decides whether the event
/// fires.
pub fn evaluate_trigger_list(
    triggers: &Vec<NarrativeTrigger>,
    logic: TriggerLogic,
    context: &TriggerContext,
) -> (e: TriggerEvaluation)
    ensures
        texts(e.matched_triggers@) == matched_ids(triggers@, *context),
        texts(e.unmatched_triggers@) == unmatched_ids(triggers@, *context),
        e.total_triggers == triggers@.len(),
        e.is_triggered == fires(triggers@, logic, *context),
{
    let ghost ts = triggers@;
    let mut matched: Vec<String> = Vec::new();
    let mut unmatched: Vec<String> = Vec::new();
    for i in 0..triggers.len()
        invariant
            ts == triggers@,
            texts(matched@) == matched_ids(ts.take(i as int), *context),
            texts(unmatched@) == unmatched_ids(ts.take(i as int), *context),
            matched@.len() + unmatched@.len() == i,
    {
        assert(ts.take(i + 1).drop_last() =~= ts.take(i as int));
        assert(ts.take(i + 1).last() == ts[i as int]);
        let t = &triggers[i];
        if trigger_matches(&t.trigger_type, context) {
            let ghost before = matched@;
            matched.push(t.trigger_id.clone());
            assert(texts(matched@) =~= texts(before).push(t.trigger_id@));
        } else {
            let ghost before = unmatched@;
            unmatched.push(t.trigger_id.clone());
            assert(texts(unmatched@) =~= texts(before).push(t.trigger_id@));
        }
    }
    assert(ts.take(ts.len() as int) =~= ts);
    let total = triggers.len();
    let matched_count = matched.len();
    proof {
        lemma_matched_len(ts, *context);
    }
    let is_triggered = if total == 0 {
        false
    } else {
        match logic {
            TriggerLogic::All => matched_count == total,
            TriggerLogic::Any => matched_count > 0,
            TriggerLogic::AtLeast(n) => matched_count >= n as usize,
        }
    };
    let mut all_required = true;
    for i in 0..triggers.len()
        invariant
            ts == triggers@,
            texts(matched@) == matched_ids(ts, *context),
            all_required == (forall|m: int|
                0 <= m < i && (#[trigger] ts[m]).is_required ==> texts(matched@).contains(
                    ts[m].trigger_id@,
                )),
    {
        if triggers[i].is_required && !contains_text(&matched, triggers[i].trigger_id.as_str()) {
            all_required = false;
        }
    }
    TriggerEvaluation::new(is_triggered && all_required, matched, unmatched, total)
}

/// The matched ids number no more than the triggers.
pub proof fn lemma_matched_len(ts: Seq<NarrativeTrigger>, ctx: TriggerContext)
    ensures
        matched_ids(ts, ctx).len() + unmatched_ids(ts, ctx).len() == ts.len(),
    decreases ts.len(),
{
    if ts.len() > 0 {
        lemma_matched_len(ts.drop_last(), ctx);
    }
}


// ---------------------------------------------------------------------------
// Laws
// ---------------------------------------------------------------------------

/// An event without trigger conditions never fires by itself.
pub proof fn law_no_triggers_never_fire(logic: TriggerLogic, ctx: TriggerContext)
    ensures
        !fires(Seq::<NarrativeTrigger>::empty(), logic, ctx),
{
}

/// Every trigger is either matched or unmatched: the two lists together
/// are as long as the trigger list.
pub proof fn law_matched_and_unmatched_cover_all(ts: Seq<NarrativeTrigger>, ctx: TriggerContext)
    ensures
        matched_ids(ts, ctx).len() + unmatched_ids(ts, ctx).len() == ts.len(),
{
    lemma_matched_len(ts, ctx);
}

/// An id is among the matched ids exactly when some trigger with that id
/// holds.
pub proof fn lemma_matched_contains(ts: Seq<NarrativeTrigger>, ctx: TriggerContext, id: Seq<char>)
    ensures
        matched_ids(ts, ctx).contains(id) <==> exists|i: int|
            0 <= i < ts.len() && ts[i].trigger_id@ == id && trigger_met(ts[i].trigger_type, ctx),
    decreases ts.len(),
{
    if ts.len() > 0 {
        let t = ts.drop_last();
        lemma_matched_contains(t, ctx, id);
        let m = matched_ids(t, ctx);
        if matched_ids(ts, ctx).contains(id) {
            if m.contains(id) {
                let i = choose|i: int|
                    0 <= i < t.len() && t[i].trigger_id@ == id && trigger_met(t[i].trigger_type, ctx);
                assert(ts[i] == t[i]);
            } else {
                let k = choose|k: int| 0 <= k < matched_ids(ts, ctx).len() && matched_ids(ts, ctx)[k] == id;
                if trigger_met(ts.last().trigger_type, ctx) {
                    assert(matched_ids(ts, ctx) == m.push(ts.last().trigger_id@));
                    if k < m.len() {
                        assert(m[k] == id);
                    }
                    assert(ts[ts.len() - 1] == ts.last());
                }
            }
        }
        if exists|i: int|
            0 <= i < ts.len() && ts[i].trigger_id@ == id && trigger_met(ts[i].trigger_type, ctx) {
            let i = choose|i: int|
                0 <= i < ts.len() && ts[i].trigger_id@ == id && trigger_met(ts[i].trigger_type, ctx);
            if i < t.len() {
                assert(t[i] == ts[i]);
                let k = choose|k: int| 0 <= k < m.len() && m[k] == id;
                if trigger_met(ts.last().trigger_type, ctx) {
                    assert(matched_ids(ts, ctx)[k] == id);
                }
            } else {
                assert(matched_ids(ts, ctx) == m.push(id));
                assert(matched_ids(ts, ctx)[m.len() as int] == id);
            }
        }
    }
}

/// The matched list has every trigger exactly when every trigger holds.
pub proof fn lemma_all_matched(ts: Seq<NarrativeTrigger>, ctx: TriggerContext)
    ensures
        (matched_ids(ts, ctx).len() == ts.len()) <==> forall|i: int|
            0 <= i < ts.len() ==> trigger_met(#[trigger] ts[i].trigger_type, ctx),
        matched_ids(ts, ctx).len() <= ts.len(),
    decreases ts.len(),
{
    if ts.len() > 0 {
        let t = ts.drop_last();
        lemma_all_matched(t, ctx);
        if forall|i: int| 0 <= i < ts.len() ==> trigger_met(#[trigger] ts[i].trigger_type, ctx) {
            assert forall|i: int| 0 <= i < t.len() implies trigger_met(#[trigger] t[i].trigger_type, ctx) by {
                assert(t[i] == ts[i]);
            }
            assert(trigger_met(ts[ts.len() - 1].trigger_type, ctx));
        }
        if matched_ids(ts, ctx).len() == ts.len() {
            assert forall|i: int| 0 <= i < ts.len() implies trigger_met(#[trigger] ts[i].trigger_type, ctx) by {
                if i < t.len() {
                    assert(t[i] == ts[i]);
                }
            }
        }
    }
}

/// With "all" logic an event fires exactly when it has triggers and every
/// one of them holds.
pub proof fn law_all_logic_fires_when_every_trigger_holds(ts: Seq<NarrativeTrigger>, ctx: TriggerContext)
    ensures
        fires(ts, TriggerLogic::All, ctx) <==> (ts.len() > 0 && forall|i: int|
            0 <= i < ts.len() ==> trigger_met(#[trigger] ts[i].trigger_type, ctx)),
{
    lemma_all_matched(ts, ctx);
    if ts.len() > 0 && forall|i: int| 0 <= i < ts.len() ==> trigger_met(#[trigger] ts[i].trigger_type, ctx) {
        assert forall|i: int| 0 <= i < ts.len() && (#[trigger] ts[i]).is_required implies matched_ids(
            ts,
            ctx,
        ).contains(ts[i].trigger_id@) by {
            lemma_matched_contains(ts, ctx, ts[i].trigger_id@);
            assert(trigger_met(ts[i].trigger_type, ctx));
        }
    }
}

/// A required trigger that does not hold, with no other holding trigger
/// of the same id, keeps the event from firing whatever the logic.
pub proof fn law_unmet_required_trigger_blocks(
    ts: Seq<NarrativeTrigger>,
    logic: TriggerLogic,
    ctx: TriggerContext,
    k: int,
)
    requires
        0 <= k < ts.len(),
        ts[k].is_required,
        forall|i: int|
            0 <= i < ts.len() && ts[i].trigger_id@ == ts[k].trigger_id@ ==> !trigger_met(
                #[trigger] ts[i].trigger_type,
                ctx,
            ),
    ensures
        !fires(ts, logic, ctx),
{
    lemma_matched_contains(ts, ctx, ts[k].trigger_id@);
}

/// With "any" logic and no required triggers, an event fires exactly when
/// one of its triggers holds.
pub proof fn law_any_logic_fires_when_one_trigger_holds(ts: Seq<NarrativeTrigger>, ctx: TriggerContext)
    requires
        forall|i: int| 0 <= i < ts.len() ==> !(#[trigger] ts[i]).is_required,
    ensures
        fires(ts, TriggerLogic::Any, ctx) <==> exists|i: int|
            0 <= i < ts.len() && trigger_met(#[trigger] ts[i].trigger_type, ctx),
{
    if exists|i: int| 0 <= i < ts.len() && trigger_met(#[trigger] ts[i].trigger_type, ctx) {
        let i = choose|i: int| 0 <= i < ts.len() && trigger_met(#[trigger] ts[i].trigger_type, ctx);
        lemma_matched_contains(ts, ctx, ts[i].trigger_id@);
    }
    if matched_ids(ts, ctx).len() > 0 {
        let id = matched_ids(ts, ctx)[0];
        lemma_matched_contains(ts, ctx, id);
    }
}

/// A flag trigger and its negation never agree.
pub proof fn law_flag_set_and_not_set_disagree(flag_name: String, ctx: TriggerContext)
    ensures
        trigger_met(NarrativeTriggerType::FlagSet { flag_name }, ctx) != trigger_met(
            NarrativeTriggerType::FlagNotSet { flag_name },
            ctx,
        ),
{
}

/// An item is counted exactly when it is held.
pub proof fn lemma_count_text_positive(s: Seq<String>, t: Seq<char>)
    ensures
        (count_text(s, t) > 0) <==> texts(s).contains(t),
        count_text(s, t) <= s.len(),
    decreases s.len(),
{
    if s.len() > 0 {
        lemma_count_text_positive(s.drop_last(), t);
        assert(texts(s.drop_last()) =~= texts(s).drop_last());
        if texts(s).contains(t) {
            let k = choose|k: int| 0 <= k < texts(s).len() && texts(s)[k] == t;
            if k < s.len() - 1 {
                assert(texts(s.drop_last())[k] == t);
            }
        }
        if texts(s.drop_last()).contains(t) {
            let k = choose|k: int| 0 <= k < texts(s.drop_last()).len() && texts(s.drop_last())[k] == t;
            assert(texts(s)[k] == t);
        }
        if s.last()@ == t {
            assert(texts(s)[s.len() - 1] == t);
        }
    }
}

/// Holding an item (one of it) and missing it are opposite conditions.
pub proof fn law_has_item_opposes_missing_item(item_name: String, ctx: TriggerContext)
    requires
        ctx.inventory@.len() <= u32::MAX,
    ensures
        trigger_met(NarrativeTriggerType::HasItem { item_name, quantity: None }, ctx) != trigger_met(
            NarrativeTriggerType::MissingItem { item_name },
            ctx,
        ),
{
    lemma_count_text_positive(ctx.inventory@, item_name@);
}


/// An NPC-action trigger holds exactly when the player has acted and some
/// one of its keywords, at any place in the list, lower-cased, occurs in the
/// lower-cased action.
pub proof fn law_npc_action_matches_any_keyword(t: NarrativeTriggerType, ctx: TriggerContext)
    requires
        t is NpcAction,
    ensures
        trigger_met(t, ctx) <==> (ctx.recent_player_action is Some && exists|i: int|
            0 <= i < t->action_keywords@.len() && is_substring(
                lowercase(ctx.recent_player_action->0@),
                lowercase(#[trigger] t->action_keywords@[i]@),
            )),
{
}

/// A dialogue-topic trigger holds exactly when some one of its keywords, at
/// any place in the list, is among the recent dialogue topics.
pub proof fn law_dialogue_topic_matches_any_keyword(t: NarrativeTriggerType, ctx: TriggerContext)
    requires
        t is DialogueTopic,
    ensures
        trigger_met(t, ctx) <==> exists|i: int, j: int|
            0 <= i < t->DialogueTopic_keywords@.len() && 0 <= j
                < ctx.recent_dialogue_topics@.len() && #[trigger] t->DialogueTopic_keywords@[i]@
                == #[trigger] ctx.recent_dialogue_topics@[j]@,
{
    let ks = t->DialogueTopic_keywords@;
    let ts = ctx.recent_dialogue_topics@;
    if trigger_met(t, ctx) {
        let i = choose|i: int| 0 <= i < ks.len() && texts(ts).contains(#[trigger] ks[i]@);
        let j = choose|j: int| 0 <= j < texts(ts).len() && texts(ts)[j] == ks[i]@;
        assert(ks[i]@ == ts[j]@);
    }
    if exists|i: int, j: int|
        0 <= i < ks.len() && 0 <= j < ts.len() && #[trigger] ks[i]@ == #[trigger] ts[j]@ {
        let (i, j) = choose|i: int, j: int|
            0 <= i < ks.len() && 0 <= j < ts.len() && #[trigger] ks[i]@ == #[trigger] ts[j]@;
        assert(texts(ts)[j] == ks[i]@);
        assert(texts(ts).contains(ks[i]@));
    }
}
} // verus!
