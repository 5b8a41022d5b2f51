//! The player character aggregate: a PC's identity, position in the world,
//! assets and life state.

use crate::character::opt_asset;
use crate::error::DomainError;
use crate::ids::{LocationId, PlayerCharacterId, RegionId, WorldId};
use crate::value_objects::{
    AssetPath, CharacterName, CharacterState, Description, Timestamp,
    UserId, MAX_DESCRIPTION_CHARS,
};
use vstd::prelude::*;

verus! {

/// What a life-state change of a player character did.
#[derive(Debug, Clone, Copy, PartialEq, Eq, Structural)]
pub enum PlayerCharacterStateChange {
    Killed,
    AlreadyDead,
    Deactivated,
    AlreadyInactive,
    Activated,
    AlreadyActive,
    Resurrected,
    AlreadyAlive,
}

/// A player character.
#[derive(Debug, Clone)]
pub struct PlayerCharacter {
    id: PlayerCharacterId,
    user_id: UserId,
    world_id: WorldId,
    name: CharacterName,
    description: Option<Description>,
    current_location_id: LocationId,
    current_region_id: Option<RegionId>,
    starting_location_id: LocationId,
    sprite_asset: Option<AssetPath>,
    portrait_asset: Option<AssetPath>,
    state: CharacterState,
    created_at: Timestamp,
    last_active_at: Timestamp,
}

/// Abstract state of a player character.
pub ghost struct PlayerCharacterView {
    pub id: PlayerCharacterId,
    pub user_id: Seq<char>,
    pub world_id: WorldId,
    pub name: Seq<char>,
    pub description: Option<Seq<char>>,
    pub current_location_id: LocationId,
    pub current_region_id: Option<RegionId>,
    /// Where the character started (kept for reference).
    pub starting_location_id: LocationId,
    pub sprite_asset: Option<Seq<char>>,
    pub portrait_asset: Option<Seq<char>>,
    pub state: CharacterState,
    pub created_at: Timestamp,
    pub last_active_at: Timestamp,
}

/// The text of an optional description.
pub open spec fn opt_description(d: Option<Description>) -> Option<Seq<char>> {
    match d {
        Some(x) => Some(x@),
        None => None,
    }
}

/// The description kept for a given text: none when over-long.
pub open spec fn kept_description(s: Seq<char>) -> Option<Seq<char>> {
    if s.len() <= MAX_DESCRIPTION_CHARS {
        Some(s)
    } else {
        None
    }
}

impl View for PlayerCharacter {
    type V = PlayerCharacterView;

    closed spec fn view(&self) -> PlayerCharacterView {
        PlayerCharacterView {
            id: self.id,
            user_id: self.user_id@,
            world_id: self.world_id,
            name: self.name@,
            description: opt_description(self.description),
            current_location_id: self.current_location_id,
            current_region_id: self.current_region_id,
            starting_location_id: self.starting_location_id,
            sprite_asset: opt_asset(self.sprite_asset),
            portrait_asset: opt_asset(self.portrait_asset),
            state: self.state,
            created_at: self.created_at,
            last_active_at: self.last_active_at,
        }
    }
}

/// What `kill` reports and leaves.
pub open spec fn kill_step(s: CharacterState) -> (PlayerCharacterStateChange, CharacterState) {
    if s is Dead {
        (PlayerCharacterStateChange::AlreadyDead, s)
    } else {
        (PlayerCharacterStateChange::Killed, CharacterState::Dead)
    }
}

/// What `deactivate` reports and leaves.
pub open spec fn deactivate_step(s: CharacterState) -> (PlayerCharacterStateChange, CharacterState) {
    if s is Active {
        (PlayerCharacterStateChange::Deactivated, CharacterState::Inactive)
    } else {
        (PlayerCharacterStateChange::AlreadyInactive, s)
    }
}

/// What `activate` reports and leaves.
pub open spec fn activate_step(s: CharacterState) -> (PlayerCharacterStateChange, CharacterState) {
    if s is Inactive {
        (PlayerCharacterStateChange::Activated, CharacterState::Active)
    } else {
        (PlayerCharacterStateChange::AlreadyActive, s)
    }
}

/// What `resurrect` reports and leaves.
pub open spec fn resurrect_step(s: CharacterState) -> (PlayerCharacterStateChange, CharacterState) {
    if s is Dead {
        (PlayerCharacterStateChange::Resurrected, CharacterState::Active)
    } else {
        (PlayerCharacterStateChange::AlreadyAlive, s)
    }
}

impl PlayerCharacter {
    /// A new, active player character at its starting location, with a
    /// fresh random id, created and last active at `now`.
    pub fn new(
        user_id: UserId,
        world_id: WorldId,
        name: CharacterName,
        starting_location_id: LocationId,
        now: Timestamp,
    ) -> (pc: Self)
        ensures
            pc@ == (PlayerCharacterView {
                id: pc@.id,
                user_id: user_id@,
                world_id,
                name: name@,
                description: None,
                current_location_id: starting_location_id,
                current_region_id: None,
                starting_location_id,
                sprite_asset: None,
                portrait_asset: None,
                state: CharacterState::Active,
                created_at: now,
                last_active_at: now,
            }),
    {
        PlayerCharacter {
            id: PlayerCharacterId::new(),
            user_id,
            world_id,
            name,
            description: None,
            current_location_id: starting_location_id,
            current_region_id: None,
            starting_location_id,
            sprite_asset: None,
            portrait_asset: None,
            state: CharacterState::Active,
            created_at: now,
            last_active_at: now,
        }
    }

    pub fn id(&self) -> (r: PlayerCharacterId)
        ensures
            r == self@.id,
    {
        self.id
    }

    pub fn user_id(&self) -> (r: &str)
        ensures
            r@ == self@.user_id,
    {
        self.user_id.as_str()
    }

    pub fn world_id(&self) -> (r: WorldId)
        ensures
            r == self@.world_id,
    {
        self.world_id
    }

    pub fn name(&self) -> (r: &CharacterName)
        ensures
            r@ == self@.name,
    {
        &self.name
    }

    pub fn description(&self) -> (r: Option<&str>)
        ensures
            match r {
                Some(d) => self@.description == Some(d@),
                None => self@.description is None,
            },
    {
        match &self.description {
            Some(d) => Some(d.as_str()),
            None => None,
        }
    }

    pub fn current_location_id(&self) -> (r: LocationId)
        ensures
            r == self@.current_location_id,
    {
        self.current_location_id
    }

    pub fn current_region_id(&self) -> (r: Option<RegionId>)
        ensures
            r == self@.current_region_id,
    {
        self.current_region_id
    }

    pub fn starting_location_id(&self) -> (r: LocationId)
        ensures
            r == self@.starting_location_id,
    {
        self.starting_location_id
    }

    pub fn sprite_asset(&self) -> (r: Option<&AssetPath>)
        ensures
            match r {
                Some(p) => self@.sprite_asset == Some(p@),
                None => self@.sprite_asset is None,
            },
    {
        match &self.sprite_asset {
            Some(p) => Some(p),
            None => None,
        }
    }

    pub fn portrait_asset(&self) -> (r: Option<&AssetPath>)
        ensures
            match r {
                Some(p) => self@.portrait_asset == Some(p@),
                None => self@.portrait_asset is None,
            },
    {
        match &self.portrait_asset {
            Some(p) => Some(p),
            None => None,
        }
    }

    pub fn state(&self) -> (r: CharacterState)
        ensures
            r == self@.state,
    {
        self.state
    }

    /// Whether the character is alive (active or inactive).
    pub fn is_alive(&self) -> (b: bool)
        ensures
            b == !(self@.state is Dead),
    {
        self.state.is_alive()
    }

    pub fn is_active(&self) -> (b: bool)
        ensures
            b == (self@.state is Active),
    {
        self.state.is_active()
    }

    pub fn is_dead(&self) -> (b: bool)
        ensures
            b == (self@.state is Dead),
    {
        self.state.is_dead()
    }

    pub fn is_inactive(&self) -> (b: bool)
        ensures
            b == (self@.state is Inactive),
    {
        self.state.is_inactive()
    }

    pub fn created_at(&self) -> (r: Timestamp)
        ensures
            r == self@.created_at,
    {
        self.created_at
    }

    pub fn last_active_at(&self) -> (r: Timestamp)
        ensures
            r == self@.last_active_at,
    {
        self.last_active_at
    }

    /// This character starting in the given region.
    pub fn with_starting_region(self, region_id: RegionId) -> (pc: Self)
        ensures
            pc@ == (PlayerCharacterView { current_region_id: Some(region_id), ..self@ }),
    {
        PlayerCharacter { current_region_id: Some(region_id), ..self }
    }

    /// This character with the given description (none when over-long).
    pub fn with_description(self, description: &str) -> (pc: Self)
        ensures
            pc@ == (PlayerCharacterView { description: kept_description(description@), ..self@ }),
    {
        let d = match Description::new(description) {
            Ok(d) => Some(d),
            Err(_) => None,
        };
        PlayerCharacter { description: d, ..self }
    }

    /// This character with the given sprite.
    pub fn with_sprite(self, asset_path: AssetPath) -> (pc: Self)
        ensures
            pc@ == (PlayerCharacterView { sprite_asset: Some(asset_path@), ..self@ }),
    {
        PlayerCharacter { sprite_asset: Some(asset_path), ..self }
    }

    /// This character with the given portrait.
    pub fn with_portrait(self, asset_path: AssetPath) -> (pc: Self)
        ensures
            pc@ == (PlayerCharacterView { portrait_asset: Some(asset_path@), ..self@ }),
    {
        PlayerCharacter { portrait_asset: Some(asset_path), ..self }
    }

    /// This character with the given id (used when loading from storage).
    pub fn with_id(self, id: PlayerCharacterId) -> (pc: Self)
        ensures
            pc@ == (PlayerCharacterView { id, ..self@ }),
    {
        PlayerCharacter { id, ..self }
    }

    /// This character in the given state (used when loading from storage).
    pub fn with_state(self, state: CharacterState) -> (pc: Self)
        ensures
            pc@ == (PlayerCharacterView { state, ..self@ }),
    {
        PlayerCharacter { state, ..self }
    }

    /// This character at the given location.
    pub fn with_current_location(self, location_id: LocationId) -> (pc: Self)
        ensures
            pc@ == (PlayerCharacterView { current_location_id: location_id, ..self@ }),
    {
        PlayerCharacter { current_location_id: location_id, ..self }
    }

    /// This character in the given region, or in none.
    pub fn with_current_region(self, region_id: Option<RegionId>) -> (pc: Self)
        ensures
            pc@ == (PlayerCharacterView { current_region_id: region_id, ..self@ }),
    {
        PlayerCharacter { current_region_id: region_id, ..self }
    }

    /// This character with the given creation time.
    pub fn with_created_at(self, created_at: Timestamp) -> (pc: Self)
        ensures
            pc@ == (PlayerCharacterView { created_at, ..self@ }),
    {
        PlayerCharacter { created_at, ..self }
    }

    /// This character with the given last activity time.
    pub fn with_last_active_at(self, last_active_at: Timestamp) -> (pc: Self)
        ensures
            pc@ == (PlayerCharacterView { last_active_at, ..self@ }),
    {
        PlayerCharacter { last_active_at, ..self }
    }

    /// Moves to a location; the region is unknown until set again.
    pub fn update_location(&mut self, location_id: LocationId, now: Timestamp)
        ensures
            final(self)@ == (PlayerCharacterView {
                current_location_id: location_id,
                current_region_id: None,
                last_active_at: now,
                ..old(self)@
            }),
    {
        self.current_location_id = location_id;
        self.current_region_id = None;
        self.last_active_at = now;
    }

    /// Moves to a region of the current location.
    pub fn update_region(&mut self, region_id: RegionId, now: Timestamp)
        ensures
            final(self)@ == (PlayerCharacterView {
                current_region_id: Some(region_id),
                last_active_at: now,
                ..old(self)@
            }),
    {
        self.current_region_id = Some(region_id);
        self.last_active_at = now;
    }

    /// Moves to a location and region at once.
    pub fn update_position(&mut self, location_id: LocationId, region_id: Option<RegionId>, now: Timestamp)
        ensures
            final(self)@ == (PlayerCharacterView {
                current_location_id: location_id,
                current_region_id: region_id,
                last_active_at: now,
                ..old(self)@
            }),
    {
        self.current_location_id = location_id;
        self.current_region_id = region_id;
        self.last_active_at = now;
    }

    /// Records activity at `now`.
    pub fn touch(&mut self, now: Timestamp)
        ensures
            final(self)@ == (PlayerCharacterView { last_active_at: now, ..old(self)@ }),
    {
        self.last_active_at = now;
    }

    /// Renames the character.
    pub fn set_name(&mut self, name: CharacterName)
        ensures
            final(self)@ == (PlayerCharacterView { name: name@, ..old(self)@ }),
    {
        self.name = name;
    }

    /// Replaces the description (none for `None` or over-long text).
    pub fn set_description(&mut self, description: Option<&str>)
        ensures
            final(self)@ == (PlayerCharacterView {
                description: match description {
                    Some(d) => kept_description(d@),
                    None => None,
                },
                ..old(self)@
            }),
    {
        self.description = match description {
            Some(d) => match Description::new(d) {
                Ok(x) => Some(x),
                Err(_) => None,
            },
            None => None,
        };
    }

    /// Replaces the sprite.
    pub fn set_sprite(&mut self, path: Option<AssetPath>)
        ensures
            final(self)@ == (PlayerCharacterView { sprite_asset: opt_asset(path), ..old(self)@ }),
    {
        self.sprite_asset = path;
    }

    /// Replaces the portrait.
    pub fn set_portrait(&mut self, path: Option<AssetPath>)
        ensures
            final(self)@ == (PlayerCharacterView { portrait_asset: opt_asset(path), ..old(self)@ }),
    {
        self.portrait_asset = path;
    }

    /// Kills the character.
    pub fn kill(&mut self) -> (change: PlayerCharacterStateChange)
        ensures
            (change, final(self)@.state) == kill_step(old(self)@.state),
            final(self)@ == (PlayerCharacterView { state: final(self)@.state, ..old(self)@ }),
    {
        if self.state.is_dead() {
            PlayerCharacterStateChange::AlreadyDead
        } else {
            self.state = CharacterState::Dead;
            PlayerCharacterStateChange::Killed
        }
    }

    /// Sets an active character inactive.
    pub fn deactivate(&mut self) -> (change: PlayerCharacterStateChange)
        ensures
            (change, final(self)@.state) == deactivate_step(old(self)@.state),
            final(self)@ == (PlayerCharacterView { state: final(self)@.state, ..old(self)@ }),
    {
        if self.state.is_active() {
            self.state = CharacterState::Inactive;
            PlayerCharacterStateChange::Deactivated
        } else {
            PlayerCharacterStateChange::AlreadyInactive
        }
    }

    /// Sets an inactive character active again.
    pub fn activate(&mut self) -> (change: PlayerCharacterStateChange)
        ensures
            (change, final(self)@.state) == activate_step(old(self)@.state),
            final(self)@ == (PlayerCharacterView { state: final(self)@.state, ..old(self)@ }),
    {
        if self.state.is_inactive() {
            self.state = CharacterState::Active;
            PlayerCharacterStateChange::Activated
        } else {
            PlayerCharacterStateChange::AlreadyActive
        }
    }

    /// Brings a dead character back, active.
    pub fn resurrect(&mut self) -> (change: PlayerCharacterStateChange)
        ensures
            (change, final(self)@.state) == resurrect_step(old(self)@.state),
            final(self)@ == (PlayerCharacterView { state: final(self)@.state, ..old(self)@ }),
    {
        if self.state.is_dead() {
            self.state = CharacterState::Active;
            PlayerCharacterStateChange::Resurrected
        } else {
            PlayerCharacterStateChange::AlreadyAlive
        }
    }

    /// Checks the character; a character built through the constructors is
    /// always valid.
    pub fn validate(&self) -> (r: Result<(), DomainError>)
        ensures
            r is Ok,
    {
        Ok(())
    }
}

// ---------------------------------------------------------------------------
// Laws
// ---------------------------------------------------------------------------

/// Killing and then resurrecting leaves any character active.
pub proof fn law_kill_then_resurrect_is_active(s: CharacterState)
    ensures
        resurrect_step(kill_step(s).1).1 == CharacterState::Active,
        resurrect_step(kill_step(s).1).0 == PlayerCharacterStateChange::Resurrected,
{
}

/// Deactivating and then activating an active character gives it back
/// active; neither step revives the dead.
pub proof fn law_deactivate_then_activate_round_trip(s: CharacterState)
    ensures
        s is Active ==> activate_step(deactivate_step(s).1).1 == CharacterState::Active,
        s is Dead ==> deactivate_step(s).1 is Dead && activate_step(s).1 is Dead,
{
}

/// Every state change is reported truthfully: a step changes the state
/// exactly when it does not report "already".
pub proof fn law_state_changes_are_reported(s: CharacterState)
    ensures
        (kill_step(s).1 != s) <==> kill_step(s).0 == PlayerCharacterStateChange::Killed,
        (deactivate_step(s).1 != s) <==> deactivate_step(s).0
            == PlayerCharacterStateChange::Deactivated,
        (activate_step(s).1 != s) <==> activate_step(s).0 == PlayerCharacterStateChange::Activated,
        (resurrect_step(s).1 != s) <==> resurrect_step(s).0
            == PlayerCharacterStateChange::Resurrected,
{
}

} // verus!
