//! Story events: the immutable timeline of what happened during play.

use crate::ids::{ChallengeId, CharacterId, LocationId, NarrativeEventId, SceneId, StoryEventId, WorldId};
use crate::narrative::Sentiment;
use crate::text::{append_str, int_text, texts, u32_text};
use crate::value_objects::Timestamp;
use vstd::prelude::*;

verus! {

/// Free-form JSON data, carried through unread.
#[verifier::external_type_specification]
#[verifier::external_body]
pub struct ExJsonValue(serde_json::Value);

/// `Clone::clone` of `serde_json::Value` (a deep copy); nothing is stated of
/// the copy, which is only carried along.
pub assume_specification[ <serde_json::Value as std::clone::Clone>::clone ](v: &serde_json::Value) -> serde_json::Value;

/// Stages of a combat.
#[derive(Debug, Clone, Copy, PartialEq, Eq, Structural, Hash)]
pub enum CombatEventType {
    Started,
    RoundCompleted,
    CharacterDefeated,
    CharacterFled,
    Ended,
}

/// How a combat ended.
#[derive(Debug, Clone, Copy, PartialEq, Eq, Structural, Hash)]
pub enum CombatOutcome {
    Victory,
    Defeat,
    Fled,
    Negotiated,
    Draw,
    Interrupted,
}

/// Result of an attempted challenge.
#[derive(Debug, Clone, Copy, PartialEq, Eq, Structural, Hash)]
pub enum ChallengeEventOutcome {
    CriticalSuccess,
    Success,
    PartialSuccess,
    Failure,
    CriticalFailure,
}

/// The variant name of each challenge result, as written in summaries.
pub open spec fn outcome_name(o: ChallengeEventOutcome) -> Seq<char> {
    match o {
        ChallengeEventOutcome::CriticalSuccess => "CriticalSuccess"@,
        ChallengeEventOutcome::Success => "Success"@,
        ChallengeEventOutcome::PartialSuccess => "PartialSuccess"@,
        ChallengeEventOutcome::Failure => "Failure"@,
        ChallengeEventOutcome::CriticalFailure => "CriticalFailure"@,
    }
}

impl ChallengeEventOutcome {
    /// The variant name of this result.
    pub fn name(&self) -> (r: &'static str)
        ensures
            r@ == outcome_name(*self),
    {
        match self {
            ChallengeEventOutcome::CriticalSuccess => "CriticalSuccess",
            ChallengeEventOutcome::Success => "Success",
            ChallengeEventOutcome::PartialSuccess => "PartialSuccess",
            ChallengeEventOutcome::Failure => "Failure",
            ChallengeEventOutcome::CriticalFailure => "CriticalFailure",
        }
    }
}

/// Where an acquired item came from.
#[derive(Debug, Clone, PartialEq)]
pub enum ItemSource {
    Found { location: String },
    Purchased { from: String, cost: Option<String> },
    Gifted { from: CharacterId },
    Looted { from: String },
    Crafted,
    Reward { for_what: String },
    Stolen { from: String },
    Custom { description: String },
}

/// Kind of information revealed to the players.
#[derive(Debug, Clone, Copy, PartialEq, Eq, Structural, Hash)]
pub enum InfoType {
    Lore,
    Quest,
    Character,
    Location,
    Item,
    Secret,
    Rumor,
}

/// Importance of revealed information.
#[derive(Debug, Clone, Copy, PartialEq, Eq, Structural, Hash)]
pub enum InfoImportance {
    Minor,
    Notable,
    Major,
    Critical,
}

/// Importance of a game master's marker.
#[derive(Debug, Clone, Copy, PartialEq, Eq, Structural, Hash)]
pub enum MarkerImportance {
    Minor,
    Notable,
    Major,
    Critical,
}

/// Kinds of game master's marker.
#[derive(Debug, Clone, Copy, PartialEq, Eq, Structural, Hash)]
pub enum DmMarkerType {
    Note,
    PlotPoint,
    CharacterMoment,
    WorldEvent,
    PlayerDecision,
    Foreshadowing,
    Callback,
    Custom,
}

/// What happened, with its details.
#[derive(Debug, Clone, PartialEq)]
pub enum StoryEventType {
    /// A player character moved to a new location.
    LocationChange {
        from_location: Option<LocationId>,
        to_location: LocationId,
        character_id: CharacterId,
        travel_method: Option<String>,
    },
    /// Dialogue with an NPC.
    DialogueExchange {
        npc_id: CharacterId,
        npc_name: String,
        player_dialogue: String,
        npc_response: String,
        topics_discussed: Vec<String>,
        tone: Option<String>,
    },
    /// A combat started, went on or ended.
    CombatEvent {
        combat_type: CombatEventType,
        participants: Vec<CharacterId>,
        enemies: Vec<String>,
        outcome: Option<CombatOutcome>,
        location_id: LocationId,
        rounds: Option<u32>,
    },
    /// A challenge was attempted.
    ChallengeAttempted {
        challenge_id: Option<ChallengeId>,
        challenge_name: String,
        character_id: CharacterId,
        skill_used: Option<String>,
        difficulty: Option<String>,
        roll_result: Option<i32>,
        modifier: Option<i32>,
        outcome: ChallengeEventOutcome,
    },
    /// A character acquired an item.
    ItemAcquired {
        item_name: String,
        item_description: Option<String>,
        character_id: CharacterId,
        source: ItemSource,
        quantity: u32,
    },
    /// An item passed between characters.
    ItemTransferred {
        item_name: String,
        from_character: Option<CharacterId>,
        to_character: CharacterId,
        quantity: u32,
        reason: Option<String>,
    },
    /// An item was used.
    ItemUsed {
        item_name: String,
        character_id: CharacterId,
        target: Option<String>,
        effect: String,
        consumed: bool,
    },
    /// A relationship changed; sentiments are single-precision numbers held as bits.
    RelationshipChanged {
        from_character: CharacterId,
        to_character: CharacterId,
        previous_sentiment: Option<Sentiment>,
        new_sentiment: Sentiment,
        sentiment_change: Sentiment,
        reason: String,
    },
    /// The scene changed.
    SceneTransition {
        from_scene: Option<SceneId>,
        to_scene: SceneId,
        from_scene_name: Option<String>,
        to_scene_name: String,
        trigger_reason: String,
    },
    /// Information was revealed to the players.
    InformationRevealed {
        info_type: InfoType,
        title: String,
        content: String,
        source: Option<CharacterId>,
        importance: InfoImportance,
        persist_to_journal: bool,
    },
    /// An NPC acted.
    NpcAction {
        npc_id: CharacterId,
        npc_name: String,
        action_type: String,
        description: String,
        dm_approved: bool,
        dm_modified: bool,
    },
    /// The game master left a marker.
    DmMarker { title: String, note: String, importance: MarkerImportance, marker_type: DmMarkerType },
    /// A narrative event was triggered.
    NarrativeEventTriggered {
        narrative_event_id: NarrativeEventId,
        narrative_event_name: String,
        outcome_branch: Option<String>,
        effects_applied: Vec<String>,
    },
    /// A character's stat changed.
    StatModified {
        character_id: CharacterId,
        stat_name: String,
        previous_value: i32,
        new_value: i32,
        reason: String,
    },
    /// A flag was set or unset.
    FlagChanged { flag_name: String, new_value: bool, reason: String },
    /// A session started.
    SessionStarted { session_number: u32, session_name: Option<String>, players_present: Vec<String> },
    /// A session ended.
    SessionEnded { duration_minutes: u32, summary: String },
    /// Anything else.
    Custom { event_subtype: String, title: String, description: String, data: serde_json::Value },
}

/// The summary written for a combat event.
pub open spec fn combat_summary(t: CombatEventType, o: Option<CombatOutcome>) -> Seq<char> {
    match t {
        CombatEventType::Started => "Combat began"@,
        CombatEventType::Ended => match o {
            Some(CombatOutcome::Victory) => "Won the battle"@,
            Some(CombatOutcome::Defeat) => "Lost the battle"@,
            Some(CombatOutcome::Fled) => "Fled from combat"@,
            Some(CombatOutcome::Negotiated) => "Combat ended through negotiation"@,
            Some(CombatOutcome::Draw) => "Combat ended in a draw"@,
            Some(CombatOutcome::Interrupted) => "Combat was interrupted"@,
            None => "Combat ended"@,
        },
        CombatEventType::RoundCompleted => "Combat round completed"@,
        CombatEventType::CharacterDefeated => "Character defeated in combat"@,
        CombatEventType::CharacterFled => "Character fled from combat"@,
    }
}

/// The summary written automatically for each kind of event.
pub open spec fn auto_summary(e: StoryEventType) -> Seq<char> {
    match e {
        StoryEventType::LocationChange { .. } => "Traveled to a new location"@,
        StoryEventType::DialogueExchange { npc_name, .. } => "Spoke with "@ + npc_name@,
        StoryEventType::CombatEvent { combat_type, outcome, .. } => combat_summary(combat_type, outcome),
        StoryEventType::ChallengeAttempted { challenge_name, outcome, .. } => challenge_name@ + ": "@
            + outcome_name(outcome),
        StoryEventType::ItemAcquired { item_name, .. } => "Acquired "@ + item_name@,
        StoryEventType::ItemTransferred { item_name, .. } => "Transferred "@ + item_name@,
        StoryEventType::ItemUsed { item_name, .. } => "Used "@ + item_name@,
        StoryEventType::RelationshipChanged { reason, .. } => reason@,
        StoryEventType::SceneTransition { to_scene_name, .. } => "Entered: "@ + to_scene_name@,
        StoryEventType::InformationRevealed { title, .. } => "Discovered: "@ + title@,
        StoryEventType::NpcAction { npc_name, action_type, .. } => npc_name@ + " performed "@
            + action_type@,
        StoryEventType::DmMarker { title, .. } => title@,
        StoryEventType::NarrativeEventTriggered { narrative_event_name, .. } => "Event: "@
            + narrative_event_name@,
        StoryEventType::StatModified { stat_name, reason, .. } => stat_name@ + " changed: "@
            + reason@,
        StoryEventType::FlagChanged { flag_name, new_value, .. } => "Flag "@ + flag_name@ + ": "@ + (
        if new_value {
            "set"@
        } else {
            "unset"@
        }),
        StoryEventType::SessionStarted { session_number, .. } => "Session "@ + int_text(
            session_number as int,
        ) + " started"@,
        StoryEventType::SessionEnded { summary, .. } => summary@,
        StoryEventType::Custom { title, .. } => title@,
    }
}

/// The display name of each kind of event.
pub open spec fn event_type_name(e: StoryEventType) -> &'static str {
    match e {
        StoryEventType::LocationChange { .. } => "Location Change",
        StoryEventType::DialogueExchange { .. } => "Dialogue",
        StoryEventType::CombatEvent { .. } => "Combat",
        StoryEventType::ChallengeAttempted { .. } => "Challenge",
        StoryEventType::ItemAcquired { .. } => "Item Acquired",
        StoryEventType::ItemTransferred { .. } => "Item Transfer",
        StoryEventType::ItemUsed { .. } => "Item Used",
        StoryEventType::RelationshipChanged { .. } => "Relationship",
        StoryEventType::SceneTransition { .. } => "Scene Transition",
        StoryEventType::InformationRevealed { .. } => "Information",
        StoryEventType::NpcAction { .. } => "NPC Action",
        StoryEventType::DmMarker { .. } => "DM Marker",
        StoryEventType::NarrativeEventTriggered { .. } => "Narrative Event",
        StoryEventType::StatModified { .. } => "Stat Modified",
        StoryEventType::FlagChanged { .. } => "Flag Changed",
        StoryEventType::SessionStarted { .. } => "Session Start",
        StoryEventType::SessionEnded { .. } => "Session End",
        StoryEventType::Custom { .. } => "Custom",
    }
}

/// `a` followed by `b`.
fn concat(a: &str, b: &str) -> (s: String)
    ensures
        s@ == a@ + b@,
{
    let mut s = String::new();
    append_str(&mut s, a);
    append_str(&mut s, b);
    assert(s@ =~= a@ + b@);
    s
}

/// `a`, `b` and `c` one after another.
fn concat3(a: &str, b: &str, c: &str) -> (s: String)
    ensures
        s@ == a@ + b@ + c@,
{
    let mut s = concat(a, b);
    append_str(&mut s, c);
    s
}

fn combat_text(t: CombatEventType, o: Option<CombatOutcome>) -> (s: String)
    ensures
        s@ == combat_summary(t, o),
{
    match t {
        CombatEventType::Started => "Combat began".to_string(),
        CombatEventType::Ended => match o {
            Some(CombatOutcome::Victory) => "Won the battle".to_string(),
            Some(CombatOutcome::Defeat) => "Lost the battle".to_string(),
            Some(CombatOutcome::Fled) => "Fled from combat".to_string(),
            Some(CombatOutcome::Negotiated) => "Combat ended through negotiation".to_string(),
            Some(CombatOutcome::Draw) => "Combat ended in a draw".to_string(),
            Some(CombatOutcome::Interrupted) => "Combat was interrupted".to_string(),
            None => "Combat ended".to_string(),
        },
        CombatEventType::RoundCompleted => "Combat round completed".to_string(),
        CombatEventType::CharacterDefeated => "Character defeated in combat".to_string(),
        CombatEventType::CharacterFled => "Character fled from combat".to_string(),
    }
}

/// An immutable record of something that happened during play.
#[derive(Debug, Clone)]
pub struct StoryEvent {
    pub id: StoryEventId,
    pub world_id: WorldId,
    pub event_type: StoryEventType,
    /// When it happened (real time).
    pub timestamp: Timestamp,
    /// In-game time, such as "Day 3, Evening".
    pub game_time: Option<String>,
    /// Narrative summary.
    pub summary: String,
    /// Hidden from the timeline, but still kept.
    pub is_hidden: bool,
    pub tags: Vec<String>,
}

impl StoryEvent {
    /// A visible event with a fresh id, no game time, summary or tags.
    pub fn new(world_id: WorldId, event_type: StoryEventType, now: Timestamp) -> (e: Self)
        ensures
            e.world_id == world_id,
            e.event_type == event_type,
            e.timestamp == now,
            e.game_time is None,
            e.summary@ == Seq::<char>::empty(),
            !e.is_hidden,
            e.tags@.len() == 0,
    {
        StoryEvent {
            id: StoryEventId::new(),
            world_id,
            event_type,
            timestamp: now,
            game_time: None,
            summary: String::new(),
            is_hidden: false,
            tags: Vec::new(),
        }
    }

    pub fn with_game_time(self, game_time: &str) -> (e: Self)
        ensures
            e.game_time matches Some(g) && g@ == game_time@,
            e == (StoryEvent { game_time: e.game_time, ..self }),
    {
        StoryEvent { game_time: Some(game_time.to_string()), ..self }
    }

    pub fn with_summary(self, summary: &str) -> (e: Self)
        ensures
            e.summary@ == summary@,
            e == (StoryEvent { summary: e.summary, ..self }),
    {
        StoryEvent { summary: summary.to_string(), ..self }
    }

    /// This event with one more tag at the end.
    pub fn with_tag(self, tag: &str) -> (e: Self)
        ensures
            texts(e.tags@) == texts(self.tags@).push(tag@),
            e == (StoryEvent { tags: e.tags, ..self }),
    {
        let mut e = self;
        let ghost before = e.tags@;
        e.tags.push(tag.to_string());
        assert(texts(e.tags@) =~= texts(before).push(tag@));
        e
    }

    /// This event, hidden from the timeline.
    pub fn hidden(self) -> (e: Self)
        ensures
            e == (StoryEvent { is_hidden: true, ..self }),
    {
        StoryEvent { is_hidden: true, ..self }
    }

    /// Replaces the summary with the one written for this kind of event.
    pub fn auto_summarize(&mut self)
        ensures
            final(self).summary@ == auto_summary(old(self).event_type),
            *final(self) == (StoryEvent { summary: final(self).summary, ..*old(self) }),
    {
        let s = match &self.event_type {
            StoryEventType::LocationChange { .. } => "Traveled to a new location".to_string(),
            StoryEventType::DialogueExchange { npc_name, .. } => concat("Spoke with ", npc_name.as_str()),
            StoryEventType::CombatEvent { combat_type, outcome, .. } => combat_text(*combat_type, *outcome),
            StoryEventType::ChallengeAttempted { challenge_name, outcome, .. } => concat3(
                challenge_name.as_str(),
                ": ",
                outcome.name(),
            ),
            StoryEventType::ItemAcquired { item_name, .. } => concat("Acquired ", item_name.as_str()),
            StoryEventType::ItemTransferred { item_name, .. } => concat("Transferred ", item_name.as_str()),
            StoryEventType::ItemUsed { item_name, .. } => concat("Used ", item_name.as_str()),
            StoryEventType::RelationshipChanged { reason, .. } => reason.clone(),
            StoryEventType::SceneTransition { to_scene_name, .. } => concat("Entered: ", to_scene_name.as_str()),
            StoryEventType::InformationRevealed { title, .. } => concat("Discovered: ", title.as_str()),
            StoryEventType::NpcAction { npc_name, action_type, .. } => concat3(
                npc_name.as_str(),
                " performed ",
                action_type.as_str(),
            ),
            StoryEventType::DmMarker { title, .. } => title.clone(),
            StoryEventType::NarrativeEventTriggered { narrative_event_name, .. } => concat(
                "Event: ",
                narrative_event_name.as_str(),
            ),
            StoryEventType::StatModified { stat_name, reason, .. } => concat3(
                stat_name.as_str(),
                " changed: ",
                reason.as_str(),
            ),
            StoryEventType::FlagChanged { flag_name, new_value, .. } => {
                let mut s = concat3("Flag ", flag_name.as_str(), ": ");
                append_str(&mut s, if *new_value { "set" } else { "unset" });
                s
            },
            StoryEventType::SessionStarted { session_number, .. } => {
                let n = u32_text(*session_number);
                concat3("Session ", n.as_str(), " started")
            },
            StoryEventType::SessionEnded { summary, .. } => summary.clone(),
            StoryEventType::Custom { title, .. } => title.clone(),
        };
        self.summary = s;
    }

    /// The display name of this event's kind.
    pub fn kind_name(&self) -> (r: &'static str)
        ensures
            r == event_type_name(self.event_type),
    {
        match &self.event_type {
            StoryEventType::LocationChange { .. } => "Location Change",
            StoryEventType::DialogueExchange { .. } => "Dialogue",
            StoryEventType::CombatEvent { .. } => "Combat",
            StoryEventType::ChallengeAttempted { .. } => "Challenge",
            StoryEventType::ItemAcquired { .. } => "Item Acquired",
            StoryEventType::ItemTransferred { .. } => "Item Transfer",
            StoryEventType::ItemUsed { .. } => "Item Used",
            StoryEventType::RelationshipChanged { .. } => "Relationship",
            StoryEventType::SceneTransition { .. } => "Scene Transition",
            StoryEventType::InformationRevealed { .. } => "Information",
            StoryEventType::NpcAction { .. } => "NPC Action",
            StoryEventType::DmMarker { .. } => "DM Marker",
            StoryEventType::NarrativeEventTriggered { .. } => "Narrative Event",
            StoryEventType::StatModified { .. } => "Stat Modified",
            StoryEventType::FlagChanged { .. } => "Flag Changed",
            StoryEventType::SessionStarted { .. } => "Session Start",
            StoryEventType::SessionEnded { .. } => "Session End",
            StoryEventType::Custom { .. } => "Custom",
        }
    }
}

/// A character involved in a story event, with the role it played.
#[derive(Debug, Clone)]
pub struct InvolvedCharacter {
    pub character_id: CharacterId,
    /// Such as "Speaker", "Target", "Witness" or "Actor".
    pub role: String,
}

impl InvolvedCharacter {
    pub fn new(character_id: CharacterId, role: &str) -> (c: Self)
        ensures
            c.character_id == character_id,
            c.role@ == role@,
    {
        InvolvedCharacter { character_id, role: role.to_string() }
    }

    /// The character as the one who acted.
    pub fn actor(character_id: CharacterId) -> (c: Self)
        ensures
            c.character_id == character_id,
            c.role@ == "Actor"@,
    {
        Self::new(character_id, "Actor")
    }

    /// The character as the one acted upon.
    pub fn target(character_id: CharacterId) -> (c: Self)
        ensures
            c.character_id == character_id,
            c.role@ == "Target"@,
    {
        Self::new(character_id, "Target")
    }

    /// The character as the one who spoke.
    pub fn speaker(character_id: CharacterId) -> (c: Self)
        ensures
            c.character_id == character_id,
            c.role@ == "Speaker"@,
    {
        Self::new(character_id, "Speaker")
    }

    /// The character as a witness.
    pub fn witness(character_id: CharacterId) -> (c: Self)
        ensures
            c.character_id == character_id,
            c.role@ == "Witness"@,
    {
        Self::new(character_id, "Witness")
    }
}


/// The summaries of combat events tell the events apart: two combat events
/// with the same summary are of the same kind, and two ended combats with the
/// same summary had the same outcome. A won battle's summary begins with
/// "Won", a lost one's with "Lost".
pub proof fn law_combat_summaries_tell_outcomes(
    t1: CombatEventType,
    o1: Option<CombatOutcome>,
    t2: CombatEventType,
    o2: Option<CombatOutcome>,
)
    ensures
        combat_summary(t1, o1) == combat_summary(t2, o2) ==> t1 == t2,
        combat_summary(CombatEventType::Ended, o1) == combat_summary(CombatEventType::Ended, o2)
            ==> o1 == o2,
        combat_summary(CombatEventType::Ended, Some(CombatOutcome::Victory)).take(3) == "Won"@,
        combat_summary(CombatEventType::Ended, Some(CombatOutcome::Defeat)).take(4) == "Lost"@,
{
    reveal_strlit("Combat began");
    reveal_strlit("Won the battle");
    reveal_strlit("Lost the battle");
    reveal_strlit("Fled from combat");
    reveal_strlit("Combat ended through negotiation");
    reveal_strlit("Combat ended in a draw");
    reveal_strlit("Combat was interrupted");
    reveal_strlit("Combat ended");
    reveal_strlit("Combat round completed");
    reveal_strlit("Character defeated in combat");
    reveal_strlit("Character fled from combat");
    reveal_strlit("Won");
    reveal_strlit("Lost");
    assert("Combat began"@.len() != "Won the battle"@.len());
    assert("Combat began"@.len() != "Lost the battle"@.len());
    assert("Combat began"@.len() != "Fled from combat"@.len());
    assert("Combat began"@.len() != "Combat ended through negotiation"@.len());
    assert("Combat began"@.len() != "Combat ended in a draw"@.len());
    assert("Combat began"@.len() != "Combat was interrupted"@.len());
    assert("Combat began"@[7] != "Combat ended"@[7]);
    assert("Combat began"@.len() != "Combat round completed"@.len());
    assert("Combat began"@.len() != "Character defeated in combat"@.len());
    assert("Combat began"@.len() != "Character fled from combat"@.len());
    assert("Won the battle"@.len() != "Lost the battle"@.len());
    assert("Won the battle"@.len() != "Fled from combat"@.len());
    assert("Won the battle"@.len() != "Combat ended through negotiation"@.len());
    assert("Won the battle"@.len() != "Combat ended in a draw"@.len());
    assert("Won the battle"@.len() != "Combat was interrupted"@.len());
    assert("Won the battle"@.len() != "Combat ended"@.len());
    assert("Won the battle"@.len() != "Combat round completed"@.len());
    assert("Won the battle"@.len() != "Character defeated in combat"@.len());
    assert("Won the battle"@.len() != "Character fled from combat"@.len());
    assert("Lost the battle"@.len() != "Fled from combat"@.len());
    assert("Lost the battle"@.len() != "Combat ended through negotiation"@.len());
    assert("Lost the battle"@.len() != "Combat ended in a draw"@.len());
    assert("Lost the battle"@.len() != "Combat was interrupted"@.len());
    assert("Lost the battle"@.len() != "Combat ended"@.len());
    assert("Lost the battle"@.len() != "Combat round completed"@.len());
    assert("Lost the battle"@.len() != "Character defeated in combat"@.len());
    assert("Lost the battle"@.len() != "Character fled from combat"@.len());
    assert("Fled from combat"@.len() != "Combat ended through negotiation"@.len());
    assert("Fled from combat"@.len() != "Combat ended in a draw"@.len());
    assert("Fled from combat"@.len() != "Combat was interrupted"@.len());
    assert("Fled from combat"@.len() != "Combat ended"@.len());
    assert("Fled from combat"@.len() != "Combat round completed"@.len());
    assert("Fled from combat"@.len() != "Character defeated in combat"@.len());
    assert("Fled from combat"@.len() != "Character fled from combat"@.len());
    assert("Combat ended through negotiation"@.len() != "Combat ended in a draw"@.len());
    assert("Combat ended through negotiation"@.len() != "Combat was interrupted"@.len());
    assert("Combat ended through negotiation"@.len() != "Combat ended"@.len());
    assert("Combat ended through negotiation"@.len() != "Combat round completed"@.len());
    assert("Combat ended through negotiation"@.len() != "Character defeated in combat"@.len());
    assert("Combat ended through negotiation"@.len() != "Character fled from combat"@.len());
    assert("Combat ended in a draw"@[7] != "Combat was interrupted"@[7]);
    assert("Combat ended in a draw"@.len() != "Combat ended"@.len());
    assert("Combat ended in a draw"@[7] != "Combat round completed"@[7]);
    assert("Combat ended in a draw"@.len() != "Character defeated in combat"@.len());
    assert("Combat ended in a draw"@.len() != "Character fled from combat"@.len());
    assert("Combat was interrupted"@.len() != "Combat ended"@.len());
    assert("Combat was interrupted"@[7] != "Combat round completed"@[7]);
    assert("Combat was interrupted"@.len() != "Character defeated in combat"@.len());
    assert("Combat was interrupted"@.len() != "Character fled from combat"@.len());
    assert("Combat ended"@.len() != "Combat round completed"@.len());
    assert("Combat ended"@.len() != "Character defeated in combat"@.len());
    assert("Combat ended"@.len() != "Character fled from combat"@.len());
    assert("Combat round completed"@.len() != "Character defeated in combat"@.len());
    assert("Combat round completed"@.len() != "Character fled from combat"@.len());
    assert("Character defeated in combat"@.len() != "Character fled from combat"@.len());
    assert("Won the battle"@.take(3) =~= "Won"@);
    assert("Lost the battle"@.take(4) =~= "Lost"@);
}

} // verus!
