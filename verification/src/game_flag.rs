//! Game flags: named booleans that story logic sets and tests.

use crate::ids::{PlayerCharacterId, WorldId};
use crate::value_objects::Timestamp;
use vstd::prelude::*;

verus! {

/// A named flag and its value.
#[derive(Debug, Clone)]
pub struct GameFlag {
    name: String,
    value: bool,
    updated_at: Timestamp,
}

impl GameFlag {
    /// Abstract state: the name, value and time of the last update.
    pub closed spec fn spec_parts(&self) -> (Seq<char>, bool, Timestamp) {
        (self.name@, self.value, self.updated_at)
    }

    /// The flag with the given value, updated at `now`.
    pub fn new(name: &str, value: bool, now: Timestamp) -> (f: Self)
        ensures
            f.spec_parts() == (name@, value, now),
    {
        GameFlag { name: name.to_string(), value, updated_at: now }
    }

    /// The flag, set.
    pub fn set(name: &str, now: Timestamp) -> (f: Self)
        ensures
            f.spec_parts() == (name@, true, now),
    {
        Self::new(name, true, now)
    }

    /// The flag, unset.
    pub fn unset(name: &str, now: Timestamp) -> (f: Self)
        ensures
            f.spec_parts() == (name@, false, now),
    {
        Self::new(name, false, now)
    }

    pub fn name(&self) -> (r: &str)
        ensures
            r@ == self.spec_parts().0,
    {
        self.name.as_str()
    }

    pub fn value(&self) -> (r: bool)
        ensures
            r == self.spec_parts().1,
    {
        self.value
    }

    pub fn updated_at(&self) -> (r: Timestamp)
        ensures
            r == self.spec_parts().2,
    {
        self.updated_at
    }

    pub fn with_value(self, value: bool) -> (f: Self)
        ensures
            f.spec_parts() == (self.spec_parts().0, value, self.spec_parts().2),
    {
        GameFlag { value, ..self }
    }

    pub fn with_updated_at(self, updated_at: Timestamp) -> (f: Self)
        ensures
            f.spec_parts() == (self.spec_parts().0, self.spec_parts().1, updated_at),
    {
        GameFlag { updated_at, ..self }
    }
}

/// Whose flag it is: the world's, or one player character's.
#[derive(Debug, Clone, Copy, PartialEq, Eq, Structural)]
pub enum FlagScope {
    World(WorldId),
    PlayerCharacter(PlayerCharacterId),
}

impl FlagScope {
    /// The world, for a world flag.
    pub fn world_id(&self) -> (r: Option<WorldId>)
        ensures
            r == match *self {
                FlagScope::World(id) => Some(id),
                FlagScope::PlayerCharacter(_) => None::<WorldId>,
            },
    {
        match self {
            FlagScope::World(id) => Some(*id),
            FlagScope::PlayerCharacter(_) => None,
        }
    }

    /// The player character, for a character's flag.
    pub fn player_character_id(&self) -> (r: Option<PlayerCharacterId>)
        ensures
            r == match *self {
                FlagScope::World(_) => None::<PlayerCharacterId>,
                FlagScope::PlayerCharacter(id) => Some(id),
            },
    {
        match self {
            FlagScope::World(_) => None,
            FlagScope::PlayerCharacter(id) => Some(*id),
        }
    }

    pub fn is_world(&self) -> (b: bool)
        ensures
            b == (*self is World),
    {
        matches!(self, FlagScope::World(_))
    }

    pub fn is_player_character(&self) -> (b: bool)
        ensures
            b == (*self is PlayerCharacter),
    {
        matches!(self, FlagScope::PlayerCharacter(_))
    }
}

} // verus!
