//! The narrative event aggregate: a DM-designed event with trigger
//! conditions, outcome branches, and a life cycle of activation and
//! triggering.

use crate::events::NarrativeEventUpdate;
use crate::ids::{NarrativeEventId, WorldId};
use crate::narrative::{
    copy_opt_string, copy_outcomes, copy_triggers, evaluate_trigger_list, fires, matched_ids, same_outcomes,
    same_triggers, unmatched_ids, EventOutcome, NarrativeTrigger, TriggerContext,
    TriggerEvaluation, TriggerLogic,
};
use crate::tag::Tag;
use crate::text::{opt_as_str, opt_str_text, opt_text, str_eq, texts};
use crate::value_objects::{
    description_or_empty, Description, NarrativeEventName, Timestamp,
};
use vstd::prelude::*;

verus! {

/// Whether an event can fire.
#[derive(Debug, Clone, Copy, PartialEq, Eq, Structural)]
pub enum EventActivation {
    Active,
    Inactive,
}

/// Whether an event fires once or again and again.
#[derive(Debug, Clone, Copy, PartialEq, Eq, Structural)]
enum EventRepeatability {
    OneShot,
    Repeatable,
}

/// Whether the DM marked an event as a favorite.
#[derive(Debug, Clone, Copy, PartialEq, Eq, Structural)]
pub enum FavoriteStatus {
    Normal,
    Favorite,
}

/// Whether and how an event last fired.
#[derive(Debug, Clone, PartialEq, Eq)]
enum TriggerStatus {
    Never,
    Triggered { at: Timestamp, selected_outcome: Option<String> },
}

/// A narrative event.
#[derive(Debug, Clone)]
pub struct NarrativeEvent {
    id: NarrativeEventId,
    world_id: WorldId,
    name: NarrativeEventName,
    description: Description,
    tags: Vec<Tag>,
    trigger_conditions: Vec<NarrativeTrigger>,
    trigger_logic: TriggerLogic,
    scene_direction: Description,
    suggested_opening: Option<String>,
    outcomes: Vec<EventOutcome>,
    default_outcome: Option<String>,
    activation: EventActivation,
    trigger_status: TriggerStatus,
    repeatability: EventRepeatability,
    trigger_count: u32,
    delay_turns: u32,
    expires_after_turns: Option<u32>,
    priority: i32,
    favorite: FavoriteStatus,
    created_at: Timestamp,
    updated_at: Timestamp,
}

/// Abstract state of a narrative event.
pub ghost struct NarrativeEventView {
    pub id: NarrativeEventId,
    pub world_id: WorldId,
    pub name: Seq<char>,
    pub description: Seq<char>,
    pub tags: Seq<Tag>,
    pub trigger_conditions: Seq<NarrativeTrigger>,
    pub trigger_logic: TriggerLogic,
    /// Directions for the DM when the event plays out.
    pub scene_direction: Seq<char>,
    pub suggested_opening: Option<Seq<char>>,
    pub outcomes: Seq<EventOutcome>,
    /// Name of the outcome used when none is chosen.
    pub default_outcome: Option<Seq<char>>,
    pub active: bool,
    /// When the event last fired, while it counts as fired.
    pub triggered_at: Option<Timestamp>,
    /// The outcome chosen when it last fired, while it counts as fired.
    pub selected_outcome: Option<Seq<char>>,
    pub repeatable: bool,
    /// How many times the event has fired.
    pub trigger_count: u32,
    /// Turns to wait after the conditions hold.
    pub delay_turns: u32,
    /// Turns after which the event lapses.
    pub expires_after_turns: Option<u32>,
    pub priority: i32,
    pub favorite: bool,
    pub created_at: Timestamp,
    pub updated_at: Timestamp,
}

impl View for NarrativeEvent {
    type V = NarrativeEventView;

    closed spec fn view(&self) -> NarrativeEventView {
        NarrativeEventView {
            id: self.id,
            world_id: self.world_id,
            name: self.name@,
            description: self.description@,
            tags: self.tags@,
            trigger_conditions: self.trigger_conditions@,
            trigger_logic: self.trigger_logic,
            scene_direction: self.scene_direction@,
            suggested_opening: opt_text(self.suggested_opening),
            outcomes: self.outcomes@,
            default_outcome: opt_text(self.default_outcome),
            active: self.activation == EventActivation::Active,
            triggered_at: match self.trigger_status {
                TriggerStatus::Triggered { at, .. } => Some(at),
                TriggerStatus::Never => None,
            },
            selected_outcome: match self.trigger_status {
                TriggerStatus::Triggered { selected_outcome, .. } => opt_text(selected_outcome),
                TriggerStatus::Never => None,
            },
            repeatable: self.repeatability == EventRepeatability::Repeatable,
            trigger_count: self.trigger_count,
            delay_turns: self.delay_turns,
            expires_after_turns: self.expires_after_turns,
            priority: self.priority,
            favorite: self.favorite == FavoriteStatus::Favorite,
            created_at: self.created_at,
            updated_at: self.updated_at,
        }
    }
}

/// An event as `new` makes it: active, one-shot, never fired, with no
/// triggers, outcomes or tags, and created and updated at `now`.
pub open spec fn fresh_event(
    id: NarrativeEventId,
    world_id: WorldId,
    name: Seq<char>,
    now: Timestamp,
) -> NarrativeEventView {
    NarrativeEventView {
        id,
        world_id,
        name,
        description: Seq::empty(),
        tags: Seq::empty(),
        trigger_conditions: Seq::empty(),
        trigger_logic: TriggerLogic::All,
        scene_direction: Seq::empty(),
        suggested_opening: None,
        outcomes: Seq::empty(),
        default_outcome: None,
        active: true,
        triggered_at: None,
        selected_outcome: None,
        repeatable: false,
        trigger_count: 0,
        delay_turns: 0,
        expires_after_turns: None,
        priority: 0,
        favorite: false,
        created_at: now,
        updated_at: now,
    }
}

/// The event after firing with `outcome` at `now`: it counts one more
/// firing, records the time and outcome, and a one-shot event goes
/// inactive.
pub open spec fn after_trigger(v: NarrativeEventView, outcome: Option<Seq<char>>, now: Timestamp) -> NarrativeEventView {
    NarrativeEventView {
        triggered_at: Some(now),
        selected_outcome: outcome,
        trigger_count: (v.trigger_count + 1) as u32,
        updated_at: now,
        active: if v.repeatable {
            v.active
        } else {
            false
        },
        ..v
    }
}

/// The event after a reset at `now`: no longer counted as fired; the count
/// stays.
pub open spec fn after_reset(v: NarrativeEventView, now: Timestamp) -> NarrativeEventView {
    NarrativeEventView { triggered_at: None, selected_outcome: None, updated_at: now, ..v }
}

/// `i` is the first position of an outcome with this name.
pub open spec fn first_outcome_at(outcomes: Seq<EventOutcome>, name: Seq<char>, i: int) -> bool {
    &&& 0 <= i < outcomes.len()
    &&& outcomes[i].name@ == name
    &&& forall|j: int| 0 <= j < i ==> outcomes[j].name@ != name
}

/// Whether an outcome with this name exists.
pub open spec fn has_outcome(outcomes: Seq<EventOutcome>, name: Seq<char>) -> bool {
    exists|i: int| 0 <= i < outcomes.len() && outcomes[i].name@ == name
}

impl NarrativeEvent {
    /// A new event with a fresh random id, as `fresh_event` describes.
    pub fn new(world_id: WorldId, name: NarrativeEventName, now: Timestamp) -> (e: Self)
        ensures
            e@ == fresh_event(e@.id, world_id, name@, now),
    {
        let e = NarrativeEvent {
            id: NarrativeEventId::new(),
            world_id,
            name,
            description: Description::empty(),
            tags: Vec::new(),
            trigger_conditions: Vec::new(),
            trigger_logic: TriggerLogic::All,
            scene_direction: Description::empty(),
            suggested_opening: None,
            outcomes: Vec::new(),
            default_outcome: None,
            activation: EventActivation::Active,
            trigger_status: TriggerStatus::Never,
            repeatability: EventRepeatability::OneShot,
            trigger_count: 0,
            delay_turns: 0,
            expires_after_turns: None,
            priority: 0,
            favorite: FavoriteStatus::Normal,
            created_at: now,
            updated_at: now,
        };
        assert(e@.tags =~= Seq::<Tag>::empty());
        assert(e@.trigger_conditions =~= Seq::<NarrativeTrigger>::empty());
        assert(e@.outcomes =~= Seq::<EventOutcome>::empty());
        e
    }

    pub fn id(&self) -> (r: NarrativeEventId)
        ensures
            r == self@.id,
    {
        self.id
    }

    pub fn world_id(&self) -> (r: WorldId)
        ensures
            r == self@.world_id,
    {
        self.world_id
    }

    pub fn name(&self) -> (r: &NarrativeEventName)
        ensures
            r@ == self@.name,
    {
        &self.name
    }

    pub fn description(&self) -> (r: &str)
        ensures
            r@ == self@.description,
    {
        self.description.as_str()
    }

    pub fn tags(&self) -> (r: &[Tag])
        ensures
            r@ == self@.tags,
    {
        self.tags.as_slice()
    }

    pub fn trigger_conditions(&self) -> (r: &[NarrativeTrigger])
        ensures
            r@ == self@.trigger_conditions,
    {
        self.trigger_conditions.as_slice()
    }

    pub fn trigger_logic(&self) -> (r: TriggerLogic)
        ensures
            r == self@.trigger_logic,
    {
        self.trigger_logic
    }

    pub fn scene_direction(&self) -> (r: &str)
        ensures
            r@ == self@.scene_direction,
    {
        self.scene_direction.as_str()
    }

    pub fn suggested_opening(&self) -> (r: Option<&str>)
        ensures
            opt_str_text(r) == self@.suggested_opening,
    {
        opt_as_str(&self.suggested_opening)
    }

    pub fn outcomes(&self) -> (r: &[EventOutcome])
        ensures
            r@ == self@.outcomes,
    {
        self.outcomes.as_slice()
    }

    pub fn default_outcome(&self) -> (r: Option<&str>)
        ensures
            opt_str_text(r) == self@.default_outcome,
    {
        opt_as_str(&self.default_outcome)
    }

    pub fn is_active(&self) -> (b: bool)
        ensures
            b == self@.active,
    {
        matches!(self.activation, EventActivation::Active)
    }

    /// Whether the event counts as fired.
    pub fn is_triggered(&self) -> (b: bool)
        ensures
            b == self@.triggered_at is Some,
    {
        matches!(self.trigger_status, TriggerStatus::Triggered { .. })
    }

    pub fn triggered_at(&self) -> (r: Option<Timestamp>)
        ensures
            r == self@.triggered_at,
    {
        match &self.trigger_status {
            TriggerStatus::Triggered { at, .. } => Some(*at),
            TriggerStatus::Never => None,
        }
    }

    pub fn selected_outcome(&self) -> (r: Option<&str>)
        ensures
            opt_str_text(r) == self@.selected_outcome,
    {
        match &self.trigger_status {
            TriggerStatus::Triggered { selected_outcome, .. } => opt_as_str(selected_outcome),
            TriggerStatus::Never => None,
        }
    }

    pub fn is_repeatable(&self) -> (b: bool)
        ensures
            b == self@.repeatable,
    {
        matches!(self.repeatability, EventRepeatability::Repeatable)
    }

    pub fn trigger_count(&self) -> (r: u32)
        ensures
            r == self@.trigger_count,
    {
        self.trigger_count
    }

    pub fn delay_turns(&self) -> (r: u32)
        ensures
            r == self@.delay_turns,
    {
        self.delay_turns
    }

    pub fn expires_after_turns(&self) -> (r: Option<u32>)
        ensures
            r == self@.expires_after_turns,
    {
        self.expires_after_turns
    }

    pub fn priority(&self) -> (r: i32)
        ensures
            r == self@.priority,
    {
        self.priority
    }

    pub fn is_favorite(&self) -> (b: bool)
        ensures
            b == self@.favorite,
    {
        matches!(self.favorite, FavoriteStatus::Favorite)
    }

    pub fn created_at(&self) -> (r: Timestamp)
        ensures
            r == self@.created_at,
    {
        self.created_at
    }

    pub fn updated_at(&self) -> (r: Timestamp)
        ensures
            r == self@.updated_at,
    {
        self.updated_at
    }

    /// This event with the given id (used when loading from storage).
    pub fn with_id(self, id: NarrativeEventId) -> (e: Self)
        ensures
            e@ == (NarrativeEventView { id, ..self@ }),
    {
        NarrativeEvent { id, ..self }
    }

    /// This event with the given description (empty when over-long).
    pub fn with_description(self, description: &str) -> (e: Self)
        ensures
            e@ == (NarrativeEventView { description: description_or_empty(description@), ..self@ }),
    {
        NarrativeEvent { description: Description::new_or_empty(description), ..self }
    }

    /// This event with the given tags.
    pub fn with_tags(self, tags: Vec<Tag>) -> (e: Self)
        ensures
            e@ == (NarrativeEventView { tags: tags@, ..self@ }),
    {
        NarrativeEvent { tags, ..self }
    }

    /// This event with one more tag.
    pub fn with_tag(self, tag: Tag) -> (e: Self)
        ensures
            e@ == (NarrativeEventView { tags: self@.tags.push(tag), ..self@ }),
    {
        let mut e = self;
        e.tags.push(tag);
        e
    }

    /// This event with the given trigger conditions.
    pub fn with_trigger_conditions(self, conditions: Vec<NarrativeTrigger>) -> (e: Self)
        ensures
            e@ == (NarrativeEventView { trigger_conditions: conditions@, ..self@ }),
    {
        NarrativeEvent { trigger_conditions: conditions, ..self }
    }

    /// This event with one more trigger condition.
    pub fn with_trigger_condition(self, condition: NarrativeTrigger) -> (e: Self)
        ensures
            e@ == (NarrativeEventView {
                trigger_conditions: self@.trigger_conditions.push(condition),
                ..self@
            }),
    {
        let mut e = self;
        e.trigger_conditions.push(condition);
        e
    }

    /// This event with the given trigger logic.
    pub fn with_trigger_logic(self, logic: TriggerLogic) -> (e: Self)
        ensures
            e@ == (NarrativeEventView { trigger_logic: logic, ..self@ }),
    {
        NarrativeEvent { trigger_logic: logic, ..self }
    }

    /// This event with the given scene direction.
    pub fn with_scene_direction(self, direction: Description) -> (e: Self)
        ensures
            e@ == (NarrativeEventView { scene_direction: direction@, ..self@ }),
    {
        NarrativeEvent { scene_direction: direction, ..self }
    }

    /// This event with the given suggested opening.
    pub fn with_suggested_opening(self, opening: &str) -> (e: Self)
        ensures
            e@ == (NarrativeEventView { suggested_opening: Some(opening@), ..self@ }),
    {
        NarrativeEvent { suggested_opening: Some(opening.to_owned()), ..self }
    }

    /// This event with the given outcomes.
    pub fn with_outcomes(self, outcomes: Vec<EventOutcome>) -> (e: Self)
        ensures
            e@ == (NarrativeEventView { outcomes: outcomes@, ..self@ }),
    {
        NarrativeEvent { outcomes, ..self }
    }

    /// This event with one more outcome.
    pub fn with_outcome(self, outcome: EventOutcome) -> (e: Self)
        ensures
            e@ == (NarrativeEventView { outcomes: self@.outcomes.push(outcome), ..self@ }),
    {
        let mut e = self;
        e.outcomes.push(outcome);
        e
    }

    /// This event with the given default outcome name.
    pub fn with_default_outcome(self, outcome_name: &str) -> (e: Self)
        ensures
            e@ == (NarrativeEventView { default_outcome: Some(outcome_name@), ..self@ }),
    {
        NarrativeEvent { default_outcome: Some(outcome_name.to_owned()), ..self }
    }

    /// This event, active or not.
    pub fn with_active(self, active: bool) -> (e: Self)
        ensures
            e@ == (NarrativeEventView { active, ..self@ }),
    {
        let activation = if active {
            EventActivation::Active
        } else {
            EventActivation::Inactive
        };
        NarrativeEvent { activation, ..self }
    }

    /// This event, repeatable or not.
    pub fn with_repeatable(self, repeatable: bool) -> (e: Self)
        ensures
            e@ == (NarrativeEventView { repeatable, ..self@ }),
    {
        let repeatability = if repeatable {
            EventRepeatability::Repeatable
        } else {
            EventRepeatability::OneShot
        };
        NarrativeEvent { repeatability, ..self }
    }

    /// This event with the given delay.
    pub fn with_delay_turns(self, turns: u32) -> (e: Self)
        ensures
            e@ == (NarrativeEventView { delay_turns: turns, ..self@ }),
    {
        NarrativeEvent { delay_turns: turns, ..self }
    }

    /// This event lapsing after the given number of turns.
    pub fn with_expires_after_turns(self, turns: u32) -> (e: Self)
        ensures
            e@ == (NarrativeEventView { expires_after_turns: Some(turns), ..self@ }),
    {
        NarrativeEvent { expires_after_turns: Some(turns), ..self }
    }

    /// This event with the given priority.
    pub fn with_priority(self, priority: i32) -> (e: Self)
        ensures
            e@ == (NarrativeEventView { priority, ..self@ }),
    {
        NarrativeEvent { priority, ..self }
    }

    /// This event, favorite or not.
    pub fn with_favorite(self, favorite: bool) -> (e: Self)
        ensures
            e@ == (NarrativeEventView { favorite, ..self@ }),
    {
        let status = if favorite {
            FavoriteStatus::Favorite
        } else {
            FavoriteStatus::Normal
        };
        NarrativeEvent { favorite: status, ..self }
    }

    /// This event as never fired, with the given count (used when loading
    /// from storage).
    pub fn with_not_triggered(self, trigger_count: u32) -> (e: Self)
        ensures
            e@ == (NarrativeEventView {
                triggered_at: None,
                selected_outcome: None,
                trigger_count,
                ..self@
            }),
    {
        NarrativeEvent { trigger_status: TriggerStatus::Never, trigger_count, ..self }
    }

    /// This event as fired at the given time with the given outcome and
    /// count (used when loading from storage).
    pub fn with_triggered(
        self,
        triggered_at: Timestamp,
        selected_outcome: Option<String>,
        trigger_count: u32,
    ) -> (e: Self)
        ensures
            e@ == (NarrativeEventView {
                triggered_at: Some(triggered_at),
                selected_outcome: opt_text(selected_outcome),
                trigger_count,
                ..self@
            }),
    {
        NarrativeEvent {
            trigger_status: TriggerStatus::Triggered { at: triggered_at, selected_outcome },
            trigger_count,
            ..self
        }
    }

    /// This event with the given creation time.
    pub fn with_created_at(self, created_at: Timestamp) -> (e: Self)
        ensures
            e@ == (NarrativeEventView { created_at, ..self@ }),
    {
        NarrativeEvent { created_at, ..self }
    }

    /// This event with the given update time.
    pub fn with_updated_at(self, updated_at: Timestamp) -> (e: Self)
        ensures
            e@ == (NarrativeEventView { updated_at, ..self@ }),
    {
        NarrativeEvent { updated_at, ..self }
    }

    /// Renames the event.
    pub fn set_name(&mut self, name: NarrativeEventName, now: Timestamp) -> (u:
        NarrativeEventUpdate)
        ensures
            u matches NarrativeEventUpdate::NameChanged { from, to } && from@ == old(self)@.name
                && to@ == name@,
            final(self)@ == (NarrativeEventView { name: name@, updated_at: now, ..old(self)@ }),
    {
        let mut previous = name;
        std::mem::swap(&mut self.name, &mut previous);
        self.updated_at = now;
        NarrativeEventUpdate::NameChanged { from: previous, to: self.name.clone() }
    }

    /// Replaces the description (with the empty one when over-long).
    pub fn set_description(&mut self, description: &str, now: Timestamp) -> (u:
        NarrativeEventUpdate)
        ensures
            u matches NarrativeEventUpdate::DescriptionChanged { from, to } && from@ == old(
                self,
            )@.description && to@ == description_or_empty(description@),
            final(self)@ == (NarrativeEventView {
                description: description_or_empty(description@),
                updated_at: now,
                ..old(self)@
            }),
    {
        let mut previous = Description::new_or_empty(description);
        std::mem::swap(&mut self.description, &mut previous);
        self.updated_at = now;
        NarrativeEventUpdate::DescriptionChanged {
            from: previous.as_str().to_owned(),
            to: self.description.as_str().to_owned(),
        }
    }

    /// Replaces the scene direction.
    pub fn set_scene_direction(&mut self, direction: Description, now: Timestamp) -> (u:
        NarrativeEventUpdate)
        ensures
            u matches NarrativeEventUpdate::SceneDirectionChanged { from, to } && from@ == old(
                self,
            )@.scene_direction && to@ == direction@,
            final(self)@ == (NarrativeEventView {
                scene_direction: direction@,
                updated_at: now,
                ..old(self)@
            }),
    {
        let mut previous = direction;
        std::mem::swap(&mut self.scene_direction, &mut previous);
        self.updated_at = now;
        NarrativeEventUpdate::SceneDirectionChanged {
            from: previous.as_str().to_owned(),
            to: self.scene_direction.as_str().to_owned(),
        }
    }

    /// Replaces the trigger conditions.
    pub fn set_trigger_conditions(&mut self, conditions: Vec<NarrativeTrigger>, now: Timestamp) -> (u:
        NarrativeEventUpdate)
        ensures
            u matches NarrativeEventUpdate::TriggerConditionsUpdated { from, to } && from@ == old(
                self,
            )@.trigger_conditions && same_triggers(to@, conditions@),
            final(self)@ == (NarrativeEventView {
                trigger_conditions: conditions@,
                updated_at: now,
                ..old(self)@
            }),
    {
        let mut previous = conditions;
        std::mem::swap(&mut self.trigger_conditions, &mut previous);
        self.updated_at = now;
        NarrativeEventUpdate::TriggerConditionsUpdated {
            from: previous,
            to: copy_triggers(&self.trigger_conditions),
        }
    }

    /// Replaces the outcomes.
    pub fn set_outcomes(&mut self, outcomes: Vec<EventOutcome>, now: Timestamp) -> (u:
        NarrativeEventUpdate)
        ensures
            u matches NarrativeEventUpdate::OutcomesUpdated { from, to } && from@ == old(
                self,
            )@.outcomes && same_outcomes(to@, outcomes@),
            final(self)@ == (NarrativeEventView {
                outcomes: outcomes@,
                updated_at: now,
                ..old(self)@
            }),
    {
        let mut previous = outcomes;
        std::mem::swap(&mut self.outcomes, &mut previous);
        self.updated_at = now;
        NarrativeEventUpdate::OutcomesUpdated { from: previous, to: copy_outcomes(&self.outcomes) }
    }

    /// Activates or deactivates the event.
    pub fn set_active(&mut self, active: EventActivation, now: Timestamp) -> (u:
        NarrativeEventUpdate)
        ensures
            u == (NarrativeEventUpdate::ActivationChanged {
                from: if old(self)@.active {
                    EventActivation::Active
                } else {
                    EventActivation::Inactive
                },
                to: active,
            }),
            final(self)@ == (NarrativeEventView {
                active: active == EventActivation::Active,
                updated_at: now,
                ..old(self)@
            }),
    {
        let previous = self.activation;
        self.activation = active;
        self.updated_at = now;
        NarrativeEventUpdate::ActivationChanged { from: previous, to: self.activation }
    }

    /// Sets the priority.
    pub fn set_priority(&mut self, priority: i32, now: Timestamp) -> (u: NarrativeEventUpdate)
        ensures
            u == (NarrativeEventUpdate::PriorityChanged { from: old(self)@.priority, to: priority }),
            final(self)@ == (NarrativeEventView { priority, updated_at: now, ..old(self)@ }),
    {
        let previous = self.priority;
        self.priority = priority;
        self.updated_at = now;
        NarrativeEventUpdate::PriorityChanged { from: previous, to: self.priority }
    }

    /// Marks or unmarks the event as a favorite.
    pub fn set_favorite(&mut self, favorite: FavoriteStatus, now: Timestamp) -> (u:
        NarrativeEventUpdate)
        ensures
            u == (NarrativeEventUpdate::FavoriteChanged {
                from: if old(self)@.favorite {
                    FavoriteStatus::Favorite
                } else {
                    FavoriteStatus::Normal
                },
                to: favorite,
            }),
            final(self)@ == (NarrativeEventView {
                favorite: favorite == FavoriteStatus::Favorite,
                updated_at: now,
                ..old(self)@
            }),
    {
        let previous = self.favorite;
        self.favorite = favorite;
        self.updated_at = now;
        NarrativeEventUpdate::FavoriteChanged { from: previous, to: self.favorite }
    }

    /// Checks the event's triggers against the game context.
    pub fn evaluate_triggers(&self, context: &TriggerContext) -> (e: TriggerEvaluation)
        ensures
            texts(e.matched_triggers@) == matched_ids(self@.trigger_conditions, *context),
            texts(e.unmatched_triggers@) == unmatched_ids(self@.trigger_conditions, *context),
            e.total_triggers == self@.trigger_conditions.len(),
            e.is_triggered == fires(self@.trigger_conditions, self@.trigger_logic, *context),
    {
        evaluate_trigger_list(&self.trigger_conditions, self.trigger_logic, context)
    }

    /// Marks the event as fired with the given outcome; a one-shot event
    /// goes inactive.
    pub fn trigger(&mut self, outcome_name: Option<String>, now: Timestamp) -> (u:
        NarrativeEventUpdate)
        requires
            old(self)@.trigger_count < u32::MAX,
        ensures
            final(self)@ == after_trigger(old(self)@, opt_text(outcome_name), now),
            u matches NarrativeEventUpdate::Triggered { outcome, trigger_count, active } && opt_text(
                outcome,
            ) == opt_text(outcome_name) && trigger_count == final(self)@.trigger_count && active
                == final(self)@.active,
    {
        let outcome = copy_opt_string(&outcome_name);
        self.trigger_status = TriggerStatus::Triggered { at: now, selected_outcome: outcome_name };
        self.trigger_count = self.trigger_count + 1;
        self.updated_at = now;
        if !self.is_repeatable() {
            self.activation = EventActivation::Inactive;
        }
        NarrativeEventUpdate::Triggered {
            outcome,
            trigger_count: self.trigger_count,
            active: self.is_active(),
        }
    }

    /// Clears the fired state (for repeatable events); the count stays.
    pub fn reset(&mut self, now: Timestamp) -> (u: NarrativeEventUpdate)
        ensures
            final(self)@ == after_reset(old(self)@, now),
            u == (NarrativeEventUpdate::Reset { trigger_count: old(self)@.trigger_count }),
    {
        let trigger_count = self.trigger_count;
        self.trigger_status = TriggerStatus::Never;
        self.updated_at = now;
        NarrativeEventUpdate::Reset { trigger_count }
    }

    /// The first outcome with this name.
    pub fn get_outcome(&self, name: &str) -> (r: Option<&EventOutcome>)
        ensures
            r is Some <==> has_outcome(self@.outcomes, name@),
            forall|i: int| first_outcome_at(self@.outcomes, name@, i) ==> r == Some(&self@.outcomes[i]),
    {
        for i in 0..self.outcomes.len()
            invariant
                forall|j: int| 0 <= j < i ==> self@.outcomes[j].name@ != name@,
        {
            if str_eq(self.outcomes[i].name.as_str(), name) {
                return Some(&self.outcomes[i]);
            }
        }
        None
    }

    /// The outcome named as the default, if there is one of that name.
    pub fn get_default_outcome(&self) -> (r: Option<&EventOutcome>)
        ensures
            self@.default_outcome is None ==> r is None,
            self@.default_outcome matches Some(n) ==> ((r is Some <==> has_outcome(self@.outcomes, n))
                && forall|i: int| first_outcome_at(self@.outcomes, n, i) ==> r == Some(&self@.outcomes[i])),
    {
        match &self.default_outcome {
            Some(name) => self.get_outcome(name.as_str()),
            None => None,
        }
    }
}


// ---------------------------------------------------------------------------
// Laws
// ---------------------------------------------------------------------------

/// Firing counts once more and records the firing; a reset afterwards
/// clears the record but keeps the count.
pub proof fn law_trigger_then_reset_keeps_count(
    v: NarrativeEventView,
    outcome: Option<Seq<char>>,
    fired: Timestamp,
    cleared: Timestamp,
)
    requires
        v.trigger_count < u32::MAX,
    ensures
        after_trigger(v, outcome, fired).triggered_at == Some(fired),
        after_trigger(v, outcome, fired).selected_outcome == outcome,
        after_trigger(v, outcome, fired).trigger_count == v.trigger_count + 1,
        after_reset(after_trigger(v, outcome, fired), cleared).triggered_at is None,
        after_reset(after_trigger(v, outcome, fired), cleared).selected_outcome is None,
        after_reset(after_trigger(v, outcome, fired), cleared).trigger_count == v.trigger_count + 1,
{
}

/// A one-shot event goes inactive when it fires; a repeatable one keeps
/// its activation.
pub proof fn law_one_shot_events_deactivate(v: NarrativeEventView, outcome: Option<Seq<char>>, now: Timestamp)
    ensures
        !v.repeatable ==> !after_trigger(v, outcome, now).active,
        v.repeatable ==> after_trigger(v, outcome, now).active == v.active,
{
}

/// Firing and resetting change nothing but the firing record, the count,
/// the update time and (for a one-shot event) the activation.
pub proof fn law_trigger_keeps_configuration(v: NarrativeEventView, outcome: Option<Seq<char>>, now: Timestamp)
    ensures
        after_trigger(v, outcome, now).trigger_conditions == v.trigger_conditions,
        after_trigger(v, outcome, now).trigger_logic == v.trigger_logic,
        after_trigger(v, outcome, now).outcomes == v.outcomes,
        after_trigger(v, outcome, now).repeatable == v.repeatable,
        after_reset(v, now).trigger_conditions == v.trigger_conditions,
        after_reset(v, now).active == v.active,
        after_reset(v, now).trigger_count == v.trigger_count,
{
}

} // verus!
