//! Acts: the story arcs of a world, each at a stage of the hero's journey.

use crate::ids::{ActId, WorldId};
use crate::monomyth::MonomythStage;
use vstd::prelude::*;

verus! {

/// Abstract state of an act.
pub ghost struct ActView {
    pub id: ActId,
    pub world_id: WorldId,
    pub name: Seq<char>,
    pub stage: MonomythStage,
    pub description: Seq<char>,
    pub order: u32,
}

/// A story arc within a world.
#[derive(Debug, Clone)]
pub struct Act {
    id: ActId,
    world_id: WorldId,
    name: String,
    stage: MonomythStage,
    description: String,
    order: u32,
}

impl View for Act {
    type V = ActView;

    closed spec fn view(&self) -> ActView {
        ActView {
            id: self.id,
            world_id: self.world_id,
            name: self.name@,
            stage: self.stage,
            description: self.description@,
            order: self.order,
        }
    }
}

impl Act {
    /// An act with a fresh id and no description.
    pub fn new(world_id: WorldId, name: &str, stage: MonomythStage, order: u32) -> (a: Self)
        ensures
            a@ == (ActView { id: a@.id, world_id, name: name@, stage, description: Seq::empty(), order }),
    {
        Act {
            id: ActId::new(),
            world_id,
            name: name.to_string(),
            stage,
            description: String::new(),
            order,
        }
    }

    /// An act from stored parts.
    pub fn from_parts(
        id: ActId,
        world_id: WorldId,
        name: String,
        stage: MonomythStage,
        description: String,
        order: u32,
    ) -> (a: Self)
        ensures
            a@ == (ActView { id, world_id, name: name@, stage, description: description@, order }),
    {
        Act { id, world_id, name, stage, description, order }
    }

    pub fn id(&self) -> (r: ActId)
        ensures
            r == self@.id,
    {
        self.id
    }

    pub fn world_id(&self) -> (r: WorldId)
        ensures
            r == self@.world_id,
    {
        self.world_id
    }

    pub fn name(&self) -> (r: &str)
        ensures
            r@ == self@.name,
    {
        self.name.as_str()
    }

    pub fn stage(&self) -> (r: MonomythStage)
        ensures
            r == self@.stage,
    {
        self.stage
    }

    pub fn description(&self) -> (r: &str)
        ensures
            r@ == self@.description,
    {
        self.description.as_str()
    }

    pub fn order(&self) -> (r: u32)
        ensures
            r == self@.order,
    {
        self.order
    }

    pub fn with_description(self, description: &str) -> (a: Self)
        ensures
            a@ == (ActView { description: description@, ..self@ }),
    {
        Act { description: description.to_string(), ..self }
    }
}

} // verus!
