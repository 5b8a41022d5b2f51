//! The plain character record: an NPC with a name checked at creation, its
//! Campbell archetypes and its stats, all fields open.

use crate::disposition::DispositionLevel;
use crate::error::DomainError;
use crate::ids::{CharacterId, WorldId};
use crate::text::{chars_of, longer_than_bytes, trim_str, trimmed, utf8_len};
use crate::value_objects::{
    change_views, ArchetypeChange, ArchetypeChangeView, CampbellArchetype, StatBlock, Timestamp,
};
use vstd::prelude::*;

verus! {

/// An NPC with layered archetypes.
#[derive(Debug, Clone)]
pub struct Character {
    pub id: CharacterId,
    pub world_id: WorldId,
    pub name: String,
    pub description: String,
    pub sprite_asset: Option<String>,
    pub portrait_asset: Option<String>,
    /// The archetype the character starts with.
    pub base_archetype: CampbellArchetype,
    /// The archetype the character plays now.
    pub current_archetype: CampbellArchetype,
    /// Lasting changes of archetype, oldest first.
    pub archetype_history: Vec<ArchetypeChange>,
    pub stats: StatBlock,
    pub is_alive: bool,
    pub is_active: bool,
    pub default_disposition: DispositionLevel,
}

/// The outcome of checking a name for a new character: trimmed, it must not
/// be empty nor take more than 200 bytes.
pub open spec fn checked_npc_name(name: Seq<char>) -> Result<Seq<char>, Seq<char>> {
    let t = trimmed(name);
    if t.len() == 0 {
        Err("Character name cannot be empty"@)
    } else if utf8_len(t) > 200 {
        Err("Character name cannot exceed 200 characters"@)
    } else {
        Ok(t)
    }
}

impl Character {
    /// A living, active character with the trimmed name, a fresh id, the
    /// archetype as both base and current, no history, empty stats and a
    /// neutral disposition; a name that is blank, or longer than 200 bytes
    /// once trimmed, is a validation error.
    pub fn new(world_id: WorldId, name: &str, archetype: CampbellArchetype) -> (r: Result<Self, DomainError>)
        ensures
            match checked_npc_name(name@) {
                Ok(t) => r matches Ok(c) && c.world_id == world_id && c.name@ == t
                    && c.description@.len() == 0 && c.sprite_asset is None && c.portrait_asset is None
                    && c.base_archetype == archetype && c.current_archetype == archetype
                    && c.archetype_history@.len() == 0 && c.stats@.current_hp is None
                    && c.stats@.max_hp is None && c.is_alive && c.is_active
                    && c.default_disposition == DispositionLevel::Neutral,
                Err(m) => r matches Err(DomainError::Validation(e)) && e@ == m,
            },
    {
        let name = trim_str(name);
        let v = chars_of(name.as_str());
        if v.len() == 0 {
            return Err(DomainError::validation("Character name cannot be empty"));
        }
        if longer_than_bytes(&v, 200) {
            return Err(DomainError::validation("Character name cannot exceed 200 characters"));
        }
        Ok(Character {
            id: CharacterId::new(),
            world_id,
            name,
            description: String::new(),
            sprite_asset: None,
            portrait_asset: None,
            base_archetype: archetype,
            current_archetype: archetype,
            archetype_history: Vec::new(),
            stats: StatBlock::default(),
            is_alive: true,
            is_active: true,
            default_disposition: DispositionLevel::Neutral,
        })
    }

    pub fn with_default_disposition(self, disposition: DispositionLevel) -> (c: Self)
        ensures
            c == (Character { default_disposition: disposition, ..self }),
    {
        Character { default_disposition: disposition, ..self }
    }

    pub fn with_description(self, description: &str) -> (c: Self)
        ensures
            c.description@ == description@,
            c == (Character { description: c.description, ..self }),
    {
        Character { description: description.to_string(), ..self }
    }

    pub fn with_sprite(self, asset_path: &str) -> (c: Self)
        ensures
            c.sprite_asset matches Some(s) && s@ == asset_path@,
            c == (Character { sprite_asset: c.sprite_asset, ..self }),
    {
        Character { sprite_asset: Some(asset_path.to_string()), ..self }
    }

    pub fn with_portrait(self, asset_path: &str) -> (c: Self)
        ensures
            c.portrait_asset matches Some(s) && s@ == asset_path@,
            c == (Character { portrait_asset: c.portrait_asset, ..self }),
    {
        Character { portrait_asset: Some(asset_path.to_string()), ..self }
    }

    /// Changes the current archetype for good, recording the change.
    pub fn change_archetype(&mut self, new_archetype: CampbellArchetype, reason: &str, now: Timestamp)
        ensures
            change_views(final(self).archetype_history@) == change_views(old(self).archetype_history@).push(
                ArchetypeChangeView {
                    from: old(self).current_archetype,
                    to: new_archetype,
                    reason: reason@,
                    at: now,
                },
            ),
            *final(self) == (Character {
                current_archetype: new_archetype,
                archetype_history: final(self).archetype_history,
                ..*old(self)
            }),
    {
        let change = ArchetypeChange::new(self.current_archetype, new_archetype, reason, now);
        let ghost before = self.archetype_history@;
        self.archetype_history.push(change);
        assert(change_views(self.archetype_history@) =~= change_views(before).push(change@));
        self.current_archetype = new_archetype;
    }

    /// Takes on another archetype for a while, without recording it.
    pub fn assume_archetype(&mut self, archetype: CampbellArchetype)
        ensures
            *final(self) == (Character { current_archetype: archetype, ..*old(self) }),
    {
        self.current_archetype = archetype;
    }

    /// Goes back to the base archetype.
    pub fn revert_to_base(&mut self)
        ensures
            *final(self) == (Character { current_archetype: old(self).base_archetype, ..*old(self) }),
    {
        self.current_archetype = self.base_archetype;
    }
}

} // verus!
