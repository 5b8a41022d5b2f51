//! Goals: abstract things that characters can want.

use crate::ids::{GoalId, WorldId};
use crate::text::{opt_as_str, opt_str_text, opt_text};
use crate::value_objects::GoalName;
use vstd::prelude::*;

verus! {

/// Abstract state of a goal.
pub ghost struct GoalView {
    pub id: GoalId,
    pub world_id: WorldId,
    pub name: Seq<char>,
    pub description: Option<Seq<char>>,
}

/// An abstract goal, such as "Power" or "Revenge".
#[derive(Debug, Clone)]
pub struct Goal {
    id: GoalId,
    world_id: WorldId,
    name: GoalName,
    description: Option<String>,
}

impl View for Goal {
    type V = GoalView;

    closed spec fn view(&self) -> GoalView {
        GoalView {
            id: self.id,
            world_id: self.world_id,
            name: self.name@,
            description: opt_text(self.description),
        }
    }
}

impl Goal {
    /// A goal with a fresh id and no description.
    pub fn new(world_id: WorldId, name: GoalName) -> (g: Self)
        ensures
            g@ == (GoalView { id: g@.id, world_id, name: name@, description: None }),
    {
        Goal { id: GoalId::new(), world_id, name, description: None }
    }

    pub fn id(&self) -> (r: GoalId)
        ensures
            r == self@.id,
    {
        self.id
    }

    pub fn world_id(&self) -> (r: WorldId)
        ensures
            r == self@.world_id,
    {
        self.world_id
    }

    pub fn name(&self) -> (r: &GoalName)
        ensures
            r@ == self@.name,
    {
        &self.name
    }

    pub fn description(&self) -> (r: Option<&str>)
        ensures
            opt_str_text(r) == self@.description,
    {
        opt_as_str(&self.description)
    }

    pub fn with_description(self, description: &str) -> (g: Self)
        ensures
            g@ == (GoalView { description: Some(description@), ..self@ }),
    {
        Goal { description: Some(description.to_string()), ..self }
    }

    pub fn with_id(self, id: GoalId) -> (g: Self)
        ensures
            g@ == (GoalView { id, ..self@ }),
    {
        Goal { id, ..self }
    }

    /// A goal from stored parts.
    pub fn from_storage(id: GoalId, world_id: WorldId, name: GoalName, description: Option<String>) -> (g: Self)
        ensures
            g@ == (GoalView { id, world_id, name: name@, description: opt_text(description) }),
    {
        Goal { id, world_id, name, description }
    }
}

} // verus!
