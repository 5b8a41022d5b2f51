//! Interaction templates: what players can do in a scene.

use crate::ids::{CharacterId, InteractionId, ItemId, SceneId};
use crate::text::texts;
use vstd::prelude::*;

verus! {

/// Kind of interaction.
#[derive(Debug, Clone, PartialEq, Eq)]
pub enum InteractionType {
    Dialogue,
    Examine,
    UseItem,
    PickUp,
    GiveItem,
    Attack,
    Travel,
    Custom(String),
}

/// Kind of thing an interaction targets.
#[derive(Debug, Clone, Copy, PartialEq, Eq, Structural, Hash)]
pub enum InteractionTargetType {
    Character,
    Item,
    Region,
    Environment,
    /// No target (named `None` elsewhere).
    NoTarget,
}

/// What an interaction targets.
#[derive(Debug, Clone)]
pub enum InteractionTarget {
    Character(CharacterId),
    Item(ItemId),
    Environment(String),
    /// No target (named `None` elsewhere).
    NoTarget,
}

/// A condition for an interaction to be offered.
#[derive(Debug, Clone)]
pub enum InteractionCondition {
    HasItem(ItemId),
    CharacterPresent(CharacterId),
    HasRelationship { with_character: CharacterId, relationship_type: Option<String> },
    FlagSet(String),
    FlagNotSet(String),
    Custom(String),
}

/// What an interaction requires of an item.
#[derive(Debug, Clone, Copy, PartialEq, Eq, Structural)]
pub struct InteractionRequirement {
    /// Whether the item is used up.
    pub consumed: bool,
}

impl Default for InteractionRequirement {
    fn default() -> (r: Self)
        ensures
            !r.consumed,
    {
        InteractionRequirement { consumed: false }
    }
}

/// An interaction offered in a scene.
#[derive(Debug, Clone)]
pub struct InteractionTemplate {
    pub id: InteractionId,
    pub scene_id: SceneId,
    pub name: String,
    pub interaction_type: InteractionType,
    pub target: InteractionTarget,
    /// Hints for generating the prompt.
    pub prompt_hints: String,
    /// Tools the model may call for this interaction.
    pub allowed_tools: Vec<String>,
    pub conditions: Vec<InteractionCondition>,
    pub is_available: bool,
    pub order: u32,
}

impl InteractionTemplate {
    /// An available interaction with a fresh id, no hints, tools or
    /// conditions, at order 0.
    pub fn new(
        scene_id: SceneId,
        name: &str,
        interaction_type: InteractionType,
        target: InteractionTarget,
    ) -> (t: Self)
        ensures
            t.scene_id == scene_id,
            t.name@ == name@,
            t.interaction_type == interaction_type,
            t.target == target,
            t.prompt_hints@ == Seq::<char>::empty(),
            t.allowed_tools@.len() == 0,
            t.conditions@.len() == 0,
            t.is_available,
            t.order == 0,
    {
        InteractionTemplate {
            id: InteractionId::new(),
            scene_id,
            name: name.to_string(),
            interaction_type,
            target,
            prompt_hints: String::new(),
            allowed_tools: Vec::new(),
            conditions: Vec::new(),
            is_available: true,
            order: 0,
        }
    }

    pub fn with_prompt_hints(self, hints: &str) -> (t: Self)
        ensures
            t.prompt_hints@ == hints@,
            t == (InteractionTemplate { prompt_hints: t.prompt_hints, ..self }),
    {
        InteractionTemplate { prompt_hints: hints.to_string(), ..self }
    }

    /// This interaction with one more allowed tool at the end.
    pub fn with_allowed_tool(self, tool: &str) -> (t: Self)
        ensures
            texts(t.allowed_tools@) == texts(self.allowed_tools@).push(tool@),
            t == (InteractionTemplate { allowed_tools: t.allowed_tools, ..self }),
    {
        let mut t = self;
        let ghost before = t.allowed_tools@;
        t.allowed_tools.push(tool.to_string());
        assert(texts(t.allowed_tools@) =~= texts(before).push(tool@));
        t
    }

    /// This interaction with one more condition at the end.
    pub fn with_condition(self, condition: InteractionCondition) -> (t: Self)
        ensures
            t.conditions@ == self.conditions@.push(condition),
            t == (InteractionTemplate { conditions: t.conditions, ..self }),
    {
        let mut t = self;
        t.conditions.push(condition);
        t
    }

    pub fn with_order(self, order: u32) -> (t: Self)
        ensures
            t == (InteractionTemplate { order, ..self }),
    {
        InteractionTemplate { order, ..self }
    }

    /// This interaction, not offered.
    pub fn disabled(self) -> (t: Self)
        ensures
            t == (InteractionTemplate { is_available: false, ..self }),
    {
        InteractionTemplate { is_available: false, ..self }
    }
}

} // verus!
