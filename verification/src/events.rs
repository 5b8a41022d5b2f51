//! What a mutation did: the outcomes that aggregate methods hand back, and
//! the domain events that other parts of the system react to.

use crate::ids::{ChallengeId, CharacterId, NarrativeEventId, StoryEventId, WorldId};
use crate::narrative::{EventOutcome, NarrativeTrigger};
use crate::narrative_event::{EventActivation, FavoriteStatus};
use crate::value_objects::{
    AssetPath, CampbellArchetype, CharacterName, CharacterState, Description, NarrativeEventName,
};
use vstd::prelude::*;

verus! {

/// Outcome of applying damage to a character.
#[derive(Debug, Clone, Copy, PartialEq, Eq, Structural)]
pub enum DamageOutcome {
    /// The character was already dead; nothing changed.
    AlreadyDead,
    /// The character took damage and survived.
    Wounded { damage_dealt: i32, remaining_hp: i32 },
    /// The damage killed the character.
    Killed { damage_dealt: i32 },
    /// The character has no hit points to track.
    NoHpTracking,
}

/// Outcome of healing a character.
#[derive(Debug, Clone, Copy, PartialEq, Eq, Structural)]
pub enum HealOutcome {
    /// The amount was not positive.
    InvalidAmount,
    /// The character is dead and cannot be healed.
    Dead,
    /// Healing was applied.
    Healed { amount_healed: i32, new_hp: i32 },
    /// The character was already at full hit points.
    AlreadyFull,
    /// The character has no hit points to track.
    NoHpTracking,
}

/// An archetype transformation that occurred.
#[derive(Debug, Clone, PartialEq, Eq)]
pub struct ArchetypeShift {
    pub from: CampbellArchetype,
    pub to: CampbellArchetype,
    pub reason: String,
}

/// Outcome of updating character metadata fields.
#[derive(Debug, Clone, PartialEq, Eq)]
pub enum CharacterUpdate {
    NameChanged { from: CharacterName, to: CharacterName },
    DescriptionChanged { from: Description, to: Description },
    SpriteChanged { from: Option<AssetPath>, to: Option<AssetPath> },
    PortraitChanged { from: Option<AssetPath>, to: Option<AssetPath> },
}

/// Outcome of toggling a character between active and inactive.
#[derive(Debug, Clone, Copy, PartialEq, Eq, Structural)]
pub enum CharacterStateChange {
    StateChanged { from: CharacterState, to: CharacterState },
    Unchanged { state: CharacterState },
}

/// Outcome of an attempt to resurrect a character.
#[derive(Debug, Clone, Copy, PartialEq, Eq, Structural)]
pub enum ResurrectOutcome {
    /// The character was not dead.
    NotDead,
    /// The character is alive again with these hit points.
    Resurrected { hp_restored_to: i32 },
}

/// Outcome of a challenge or skill check.
#[derive(Debug, Clone, Copy, PartialEq, Eq, Structural)]
pub enum ChallengeOutcome {
    /// Passed by the given margin.
    Success { margin: i32 },
    /// Failed by the given margin.
    Failure { margin: i32 },
    /// Critical success (natural 20 or equivalent).
    CriticalSuccess,
    /// Critical failure (natural 1 or equivalent).
    CriticalFailure,
}


/// Outcome of updating a narrative event's fields or state.
#[derive(Debug, Clone)]
pub enum NarrativeEventUpdate {
    NameChanged { from: NarrativeEventName, to: NarrativeEventName },
    DescriptionChanged { from: String, to: String },
    SceneDirectionChanged { from: String, to: String },
    TriggerConditionsUpdated { from: Vec<NarrativeTrigger>, to: Vec<NarrativeTrigger> },
    OutcomesUpdated { from: Vec<EventOutcome>, to: Vec<EventOutcome> },
    ActivationChanged { from: EventActivation, to: EventActivation },
    PriorityChanged { from: i32, to: i32 },
    FavoriteChanged { from: FavoriteStatus, to: FavoriteStatus },
    Triggered { outcome: Option<String>, trigger_count: u32, active: bool },
    Reset { trigger_count: u32 },
}


/// A significant change in the domain, for other parts of the system to react
/// to.
#[derive(Debug, Clone)]
pub enum DomainEvent {
    StoryEventCreated { story_event_id: StoryEventId, world_id: WorldId, event_type: String },
    NarrativeEventTriggered {
        event_id: NarrativeEventId,
        world_id: WorldId,
        event_name: String,
        outcome_name: String,
    },
    ChallengeResolved {
        challenge_id: Option<ChallengeId>,
        challenge_name: String,
        world_id: WorldId,
        character_id: CharacterId,
        success: bool,
        roll: Option<i32>,
        total: Option<i32>,
    },
    GenerationBatchQueued {
        batch_id: String,
        world_id: WorldId,
        entity_type: String,
        entity_id: String,
        asset_type: String,
        position: u32,
    },
    /// Progress of a batch: the bits of a single-precision number.
    GenerationBatchProgress { batch_id: String, world_id: WorldId, progress: u32 },
    GenerationBatchCompleted {
        batch_id: String,
        world_id: WorldId,
        entity_type: String,
        entity_id: String,
        asset_type: String,
        asset_count: u32,
    },
    GenerationBatchFailed {
        batch_id: String,
        world_id: WorldId,
        entity_type: String,
        entity_id: String,
        asset_type: String,
        error: String,
    },
    SuggestionQueued {
        request_id: String,
        field_type: String,
        entity_id: Option<String>,
        world_id: Option<WorldId>,
    },
    SuggestionProgress { request_id: String, status: String, world_id: Option<WorldId> },
    SuggestionCompleted {
        request_id: String,
        field_type: String,
        suggestions: Vec<String>,
        world_id: Option<WorldId>,
    },
    SuggestionFailed {
        request_id: String,
        field_type: String,
        error: String,
        world_id: Option<WorldId>,
    },
}

/// The storage name of each kind of domain event.
pub open spec fn domain_event_type(e: DomainEvent) -> &'static str {
    match e {
        DomainEvent::StoryEventCreated { .. } => "story_event_created",
        DomainEvent::NarrativeEventTriggered { .. } => "narrative_event_triggered",
        DomainEvent::ChallengeResolved { .. } => "challenge_resolved",
        DomainEvent::GenerationBatchQueued { .. } => "generation_batch_queued",
        DomainEvent::GenerationBatchProgress { .. } => "generation_batch_progress",
        DomainEvent::GenerationBatchCompleted { .. } => "generation_batch_completed",
        DomainEvent::GenerationBatchFailed { .. } => "generation_batch_failed",
        DomainEvent::SuggestionQueued { .. } => "suggestion_queued",
        DomainEvent::SuggestionProgress { .. } => "suggestion_progress",
        DomainEvent::SuggestionCompleted { .. } => "suggestion_completed",
        DomainEvent::SuggestionFailed { .. } => "suggestion_failed",
    }
}

/// The world an event belongs to: every event but the suggestion ones has
/// one; those carry it optionally.
pub open spec fn domain_event_world(e: DomainEvent) -> Option<WorldId> {
    match e {
        DomainEvent::StoryEventCreated { world_id, .. } => Some(world_id),
        DomainEvent::NarrativeEventTriggered { world_id, .. } => Some(world_id),
        DomainEvent::ChallengeResolved { world_id, .. } => Some(world_id),
        DomainEvent::GenerationBatchQueued { world_id, .. } => Some(world_id),
        DomainEvent::GenerationBatchProgress { world_id, .. } => Some(world_id),
        DomainEvent::GenerationBatchCompleted { world_id, .. } => Some(world_id),
        DomainEvent::GenerationBatchFailed { world_id, .. } => Some(world_id),
        DomainEvent::SuggestionQueued { world_id, .. } => world_id,
        DomainEvent::SuggestionProgress { world_id, .. } => world_id,
        DomainEvent::SuggestionCompleted { world_id, .. } => world_id,
        DomainEvent::SuggestionFailed { world_id, .. } => world_id,
    }
}

impl DomainEvent {
    /// The storage name of this event's kind.
    pub fn event_type(&self) -> (r: &'static str)
        ensures
            r == domain_event_type(*self),
    {
        match self {
            DomainEvent::StoryEventCreated { .. } => "story_event_created",
            DomainEvent::NarrativeEventTriggered { .. } => "narrative_event_triggered",
            DomainEvent::ChallengeResolved { .. } => "challenge_resolved",
            DomainEvent::GenerationBatchQueued { .. } => "generation_batch_queued",
            DomainEvent::GenerationBatchProgress { .. } => "generation_batch_progress",
            DomainEvent::GenerationBatchCompleted { .. } => "generation_batch_completed",
            DomainEvent::GenerationBatchFailed { .. } => "generation_batch_failed",
            DomainEvent::SuggestionQueued { .. } => "suggestion_queued",
            DomainEvent::SuggestionProgress { .. } => "suggestion_progress",
            DomainEvent::SuggestionCompleted { .. } => "suggestion_completed",
            DomainEvent::SuggestionFailed { .. } => "suggestion_failed",
        }
    }

    /// The world this event belongs to, where it has one.
    pub fn world_id(&self) -> (r: Option<WorldId>)
        ensures
            r == domain_event_world(*self),
    {
        match self {
            DomainEvent::StoryEventCreated { world_id, .. } => Some(*world_id),
            DomainEvent::NarrativeEventTriggered { world_id, .. } => Some(*world_id),
            DomainEvent::ChallengeResolved { world_id, .. } => Some(*world_id),
            DomainEvent::GenerationBatchQueued { world_id, .. } => Some(*world_id),
            DomainEvent::GenerationBatchProgress { world_id, .. } => Some(*world_id),
            DomainEvent::GenerationBatchCompleted { world_id, .. } => Some(*world_id),
            DomainEvent::GenerationBatchFailed { world_id, .. } => Some(*world_id),
            DomainEvent::SuggestionQueued { world_id, .. } => *world_id,
            DomainEvent::SuggestionProgress { world_id, .. } => *world_id,
            DomainEvent::SuggestionCompleted { world_id, .. } => *world_id,
            DomainEvent::SuggestionFailed { world_id, .. } => *world_id,
        }
    }
}

} // verus!
