//! The character aggregate: an NPC with a layered archetype, hit points and
//! a life state. Mutations hand back what they did.

use crate::disposition::DispositionLevel;
use crate::events::{
    ArchetypeShift, CharacterStateChange, CharacterUpdate, DamageOutcome, HealOutcome,
    ResurrectOutcome,
};
use crate::ids::{CharacterId, WorldId};
use crate::value_objects::{
    change_views, ArchetypeChange, ArchetypeChangeView, AssetPath, CampbellArchetype,
    CharacterName, CharacterState, Description, StatBlock, StatBlockView, Timestamp,
};
use vstd::prelude::*;

verus! {

// ---------------------------------------------------------------------------
// Hit point arithmetic
// ---------------------------------------------------------------------------

/// `x` clamped to the range of `i32` (what saturating arithmetic gives).
pub open spec fn clamp_i32(x: int) -> i32 {
    if x < i32::MIN {
        i32::MIN
    } else if x > i32::MAX {
        i32::MAX
    } else {
        x as i32
    }
}

/// `a - b`, saturating at the bounds of `i32`.
pub fn saturating_sub_i32(a: i32, b: i32) -> (r: i32)
    ensures
        r == clamp_i32(a - b),
{
    let d: i64 = a as i64 - b as i64;
    if d < i32::MIN as i64 {
        i32::MIN
    } else if d > i32::MAX as i64 {
        i32::MAX
    } else {
        d as i32
    }
}

/// `a + b`, saturating at the bounds of `i32`.
pub fn saturating_add_i32(a: i32, b: i32) -> (r: i32)
    ensures
        r == clamp_i32(a + b),
{
    let d: i64 = a as i64 + b as i64;
    if d < i32::MIN as i64 {
        i32::MIN
    } else if d > i32::MAX as i64 {
        i32::MAX
    } else {
        d as i32
    }
}

// ---------------------------------------------------------------------------
// Abstract state and the rules of each mutation
// ---------------------------------------------------------------------------

/// Abstract state of a character.
pub ghost struct CharacterView {
    pub id: CharacterId,
    pub world_id: WorldId,
    pub name: Seq<char>,
    pub description: Seq<char>,
    pub sprite_asset: Option<Seq<char>>,
    pub portrait_asset: Option<Seq<char>>,
    /// The archetype the character was created with.
    pub base_archetype: CampbellArchetype,
    /// The archetype the character plays now.
    pub current_archetype: CampbellArchetype,
    /// Recorded (lasting) archetype changes, oldest first.
    pub archetype_history: Seq<ArchetypeChangeView>,
    pub stats: StatBlockView,
    pub state: CharacterState,
    pub default_disposition: DispositionLevel,
}

/// Whether both current and maximum hit points are tracked.
pub open spec fn tracks_hp(v: CharacterView) -> bool {
    v.stats.current_hp is Some && v.stats.max_hp is Some
}

/// Hit points after taking `amount` damage (saturating).
pub open spec fn hp_after_damage(v: CharacterView, amount: i32) -> i32 {
    clamp_i32(v.stats.current_hp->0 - amount)
}

/// What `apply_damage` reports.
pub open spec fn damage_outcome(v: CharacterView, amount: i32) -> DamageOutcome {
    if v.state is Dead {
        DamageOutcome::AlreadyDead
    } else if !tracks_hp(v) {
        DamageOutcome::NoHpTracking
    } else if hp_after_damage(v, amount) <= 0 {
        DamageOutcome::Killed { damage_dealt: amount }
    } else {
        DamageOutcome::Wounded { damage_dealt: amount, remaining_hp: hp_after_damage(v, amount) }
    }
}

/// The character after `apply_damage`: the dead and the untracked are left
/// alone; otherwise hit points drop, and at 0 or below the character dies.
pub open spec fn after_damage(v: CharacterView, amount: i32) -> CharacterView {
    if v.state is Dead || !tracks_hp(v) {
        v
    } else {
        CharacterView {
            stats: StatBlockView { current_hp: Some(hp_after_damage(v, amount)), ..v.stats },
            state: if hp_after_damage(v, amount) <= 0 {
                CharacterState::Dead
            } else {
                v.state
            },
            ..v
        }
    }
}

/// Hit points after healing `amount`: never above the maximum.
pub open spec fn hp_after_heal(v: CharacterView, amount: i32) -> i32 {
    let raised = clamp_i32(v.stats.current_hp->0 + amount);
    if raised < v.stats.max_hp->0 {
        raised
    } else {
        v.stats.max_hp->0
    }
}

/// Whether `heal` changes the character.
pub open spec fn heal_applies(v: CharacterView, amount: i32) -> bool {
    &&& amount > 0
    &&& !(v.state is Dead)
    &&& tracks_hp(v)
    &&& v.stats.current_hp->0 < v.stats.max_hp->0
}

/// What `heal` reports.
pub open spec fn heal_outcome(v: CharacterView, amount: i32) -> HealOutcome {
    if amount <= 0 {
        HealOutcome::InvalidAmount
    } else if v.state is Dead {
        HealOutcome::Dead
    } else if !tracks_hp(v) {
        HealOutcome::NoHpTracking
    } else if v.stats.current_hp->0 >= v.stats.max_hp->0 {
        HealOutcome::AlreadyFull
    } else {
        HealOutcome::Healed {
            amount_healed: (hp_after_heal(v, amount) - v.stats.current_hp->0) as i32,
            new_hp: hp_after_heal(v, amount),
        }
    }
}

/// The character after `heal`.
pub open spec fn after_heal(v: CharacterView, amount: i32) -> CharacterView {
    if heal_applies(v, amount) {
        CharacterView {
            stats: StatBlockView { current_hp: Some(hp_after_heal(v, amount)), ..v.stats },
            ..v
        }
    } else {
        v
    }
}

/// Hit points on resurrection: half the maximum, at least 1 (1 when no
/// maximum is tracked).
pub open spec fn resurrection_hp(v: CharacterView) -> i32 {
    match v.stats.max_hp {
        Some(m) => if m / 2 >= 1 {
            (m / 2) as i32
        } else {
            1
        },
        None => 1,
    }
}

/// What `resurrect` reports.
pub open spec fn resurrect_outcome(v: CharacterView) -> ResurrectOutcome {
    if v.state is Dead {
        ResurrectOutcome::Resurrected { hp_restored_to: resurrection_hp(v) }
    } else {
        ResurrectOutcome::NotDead
    }
}

/// The character after `resurrect`: the dead come back active.
pub open spec fn after_resurrect(v: CharacterView) -> CharacterView {
    if v.state is Dead {
        CharacterView {
            stats: StatBlockView { current_hp: Some(resurrection_hp(v)), ..v.stats },
            state: CharacterState::Active,
            ..v
        }
    } else {
        v
    }
}

/// The state after moving a character to `target` (`Active` or
/// `Inactive`): the dead stay dead.
pub open spec fn state_after_toggle(s: CharacterState, target: CharacterState) -> CharacterState {
    if s is Dead {
        s
    } else {
        target
    }
}

/// What `activate` and `deactivate` report when moving toward `target`.
pub open spec fn toggle_outcome(s: CharacterState, target: CharacterState) -> CharacterStateChange {
    if !(s is Dead) && s != target {
        CharacterStateChange::StateChanged { from: s, to: target }
    } else {
        CharacterStateChange::Unchanged { state: s }
    }
}

/// A character with no optional parts set, as `new` makes it.
pub open spec fn fresh_character(
    id: CharacterId,
    world_id: WorldId,
    name: Seq<char>,
    archetype: CampbellArchetype,
) -> CharacterView {
    CharacterView {
        id,
        world_id,
        name,
        description: Seq::empty(),
        sprite_asset: None,
        portrait_asset: None,
        base_archetype: archetype,
        current_archetype: archetype,
        archetype_history: Seq::empty(),
        stats: StatBlockView { current_hp: None, max_hp: None },
        state: CharacterState::Active,
        default_disposition: DispositionLevel::Neutral,
    }
}

/// The text of an optional asset path.
pub open spec fn opt_asset(p: Option<AssetPath>) -> Option<Seq<char>> {
    match p {
        Some(a) => Some(a@),
        None => None,
    }
}

// ---------------------------------------------------------------------------
// The aggregate
// ---------------------------------------------------------------------------

/// A character (NPC) in a world.
#[derive(Debug, Clone)]
pub struct Character {
    id: CharacterId,
    world_id: WorldId,
    name: CharacterName,
    description: Description,
    sprite_asset: Option<AssetPath>,
    portrait_asset: Option<AssetPath>,
    base_archetype: CampbellArchetype,
    current_archetype: CampbellArchetype,
    archetype_history: Vec<ArchetypeChange>,
    stats: StatBlock,
    state: CharacterState,
    default_disposition: DispositionLevel,
}

impl View for Character {
    type V = CharacterView;

    closed spec fn view(&self) -> CharacterView {
        CharacterView {
            id: self.id,
            world_id: self.world_id,
            name: self.name@,
            description: self.description@,
            sprite_asset: opt_asset(self.sprite_asset),
            portrait_asset: opt_asset(self.portrait_asset),
            base_archetype: self.base_archetype,
            current_archetype: self.current_archetype,
            archetype_history: change_views(self.archetype_history@),
            stats: self.stats@,
            state: self.state,
            default_disposition: self.default_disposition,
        }
    }
}

impl Character {
    /// A new active character with a fresh random id, the given name and
    /// archetype (as both base and current), an empty description, no
    /// assets, no hit points and a neutral disposition.
    pub fn new(world_id: WorldId, name: CharacterName, archetype: CampbellArchetype) -> (c: Self)
        ensures
            c@ == fresh_character(c@.id, world_id, name@, archetype),
    {
        let c = Character {
            id: CharacterId::new(),
            world_id,
            name,
            description: Description::empty(),
            sprite_asset: None,
            portrait_asset: None,
            base_archetype: archetype,
            current_archetype: archetype,
            archetype_history: Vec::new(),
            stats: StatBlock::new(),
            state: CharacterState::Active,
            default_disposition: DispositionLevel::Neutral,
        };
        assert(c@.archetype_history =~= Seq::<ArchetypeChangeView>::empty());
        c
    }

    pub fn id(&self) -> (r: CharacterId)
        ensures
            r == self@.id,
    {
        self.id
    }

    pub fn world_id(&self) -> (r: WorldId)
        ensures
            r == self@.world_id,
    {
        self.world_id
    }

    pub fn name(&self) -> (r: &CharacterName)
        ensures
            r@ == self@.name,
    {
        &self.name
    }

    pub fn description(&self) -> (r: &Description)
        ensures
            r@ == self@.description,
    {
        &self.description
    }

    pub fn sprite_asset(&self) -> (r: Option<&AssetPath>)
        ensures
            match r {
                Some(p) => self@.sprite_asset == Some(p@),
                None => self@.sprite_asset is None,
            },
    {
        match &self.sprite_asset {
            Some(p) => Some(p),
            None => None,
        }
    }

    pub fn portrait_asset(&self) -> (r: Option<&AssetPath>)
        ensures
            match r {
                Some(p) => self@.portrait_asset == Some(p@),
                None => self@.portrait_asset is None,
            },
    {
        match &self.portrait_asset {
            Some(p) => Some(p),
            None => None,
        }
    }

    pub fn base_archetype(&self) -> (r: CampbellArchetype)
        ensures
            r == self@.base_archetype,
    {
        self.base_archetype
    }

    pub fn current_archetype(&self) -> (r: CampbellArchetype)
        ensures
            r == self@.current_archetype,
    {
        self.current_archetype
    }

    pub fn archetype_history(&self) -> (r: &[ArchetypeChange])
        ensures
            change_views(r@) == self@.archetype_history,
    {
        self.archetype_history.as_slice()
    }

    pub fn stats(&self) -> (r: &StatBlock)
        ensures
            r@ == self@.stats,
    {
        &self.stats
    }

    /// Replaces the stats.
    pub fn set_stats(&mut self, stats: StatBlock)
        ensures
            final(self)@ == (CharacterView { stats: stats@, ..old(self)@ }),
    {
        self.stats = stats;
    }

    pub fn state(&self) -> (r: CharacterState)
        ensures
            r == self@.state,
    {
        self.state
    }

    /// Whether the character is alive (active or inactive).
    pub fn is_alive(&self) -> (b: bool)
        ensures
            b == !(self@.state is Dead),
    {
        self.state.is_alive()
    }

    /// Whether the character is taking part (active).
    pub fn is_active(&self) -> (b: bool)
        ensures
            b == (self@.state is Active),
    {
        self.state.is_active()
    }

    pub fn is_dead(&self) -> (b: bool)
        ensures
            b == (self@.state is Dead),
    {
        self.state.is_dead()
    }

    pub fn default_disposition(&self) -> (r: DispositionLevel)
        ensures
            r == self@.default_disposition,
    {
        self.default_disposition
    }

    /// This character with the given default disposition.
    pub fn with_default_disposition(self, disposition: DispositionLevel) -> (c: Self)
        ensures
            c@ == (CharacterView { default_disposition: disposition, ..self@ }),
    {
        Character { default_disposition: disposition, ..self }
    }

    /// This character with the given description.
    pub fn with_description(self, description: Description) -> (c: Self)
        ensures
            c@ == (CharacterView { description: description@, ..self@ }),
    {
        Character { description, ..self }
    }

    /// This character with the given sprite.
    pub fn with_sprite(self, asset_path: AssetPath) -> (c: Self)
        ensures
            c@ == (CharacterView { sprite_asset: Some(asset_path@), ..self@ }),
    {
        Character { sprite_asset: Some(asset_path), ..self }
    }

    /// This character with the given portrait.
    pub fn with_portrait(self, asset_path: AssetPath) -> (c: Self)
        ensures
            c@ == (CharacterView { portrait_asset: Some(asset_path@), ..self@ }),
    {
        Character { portrait_asset: Some(asset_path), ..self }
    }

    /// This character with the given stats.
    pub fn with_stats(self, stats: StatBlock) -> (c: Self)
        ensures
            c@ == (CharacterView { stats: stats@, ..self@ }),
    {
        Character { stats, ..self }
    }

    /// This character with the given id (used when loading from storage).
    pub fn with_id(self, id: CharacterId) -> (c: Self)
        ensures
            c@ == (CharacterView { id, ..self@ }),
    {
        Character { id, ..self }
    }

    /// This character in the given state (used when loading from storage).
    pub fn with_state(self, state: CharacterState) -> (c: Self)
        ensures
            c@ == (CharacterView { state, ..self@ }),
    {
        Character { state, ..self }
    }

    /// This character with the given archetype history (used when loading
    /// from storage).
    pub fn with_archetype_history(self, history: Vec<ArchetypeChange>) -> (c: Self)
        ensures
            c@ == (CharacterView { archetype_history: change_views(history@), ..self@ }),
    {
        Character { archetype_history: history, ..self }
    }

    /// This character with the given current archetype (used when loading
    /// from storage).
    pub fn with_current_archetype(self, archetype: CampbellArchetype) -> (c: Self)
        ensures
            c@ == (CharacterView { current_archetype: archetype, ..self@ }),
    {
        Character { current_archetype: archetype, ..self }
    }

    /// Applies `amount` damage. The dead are not hurt; without tracked hit
    /// points nothing changes; hit points drop (saturating) and at 0 or
    /// below the character dies.
    pub fn apply_damage(&mut self, amount: i32) -> (outcome: DamageOutcome)
        ensures
            outcome == damage_outcome(old(self)@, amount),
            final(self)@ == after_damage(old(self)@, amount),
    {
        if self.state.is_dead() {
            return DamageOutcome::AlreadyDead;
        }
        let current_hp: i32 = match (self.stats.current_hp(), self.stats.max_hp()) {
            (Some(current), Some(_)) => current,
            _ => return DamageOutcome::NoHpTracking,
        };
        let new_hp = saturating_sub_i32(current_hp, amount);
        self.stats = self.stats.with_current_hp(Some(new_hp));
        if new_hp <= 0 {
            self.state = CharacterState::Dead;
            DamageOutcome::Killed { damage_dealt: amount }
        } else {
            DamageOutcome::Wounded { damage_dealt: amount, remaining_hp: new_hp }
        }
    }

    /// Heals `amount` hit points, never above the maximum. Refused for a
    /// non-positive amount, for the dead, without tracked hit points, and
    /// at full hit points.
    pub fn heal(&mut self, amount: i32) -> (outcome: HealOutcome)
        ensures
            outcome == heal_outcome(old(self)@, amount),
            final(self)@ == after_heal(old(self)@, amount),
    {
        if amount <= 0 {
            return HealOutcome::InvalidAmount;
        }
        if self.state.is_dead() {
            return HealOutcome::Dead;
        }
        let (current_hp, max_hp): (i32, i32) = match (self.stats.current_hp(), self.stats.max_hp()) {
            (Some(current), Some(max)) => (current, max),
            _ => return HealOutcome::NoHpTracking,
        };
        if current_hp >= max_hp {
            return HealOutcome::AlreadyFull;
        }
        let raised = saturating_add_i32(current_hp, amount);
        let new_hp: i32 = if raised < max_hp { raised } else { max_hp };
        let actual_healed = new_hp - current_hp;
        self.stats = self.stats.with_current_hp(Some(new_hp));
        HealOutcome::Healed { amount_healed: actual_healed, new_hp }
    }

    /// Brings a dead character back, active, with half its maximum hit
    /// points (at least 1; 1 without a tracked maximum).
    pub fn resurrect(&mut self) -> (outcome: ResurrectOutcome)
        ensures
            outcome == resurrect_outcome(old(self)@),
            final(self)@ == after_resurrect(old(self)@),
    {
        if !self.state.is_dead() {
            return ResurrectOutcome::NotDead;
        }
        let hp_restored_to: i32 = match self.stats.max_hp() {
            Some(max) => if max >= 2 {
                max / 2
            } else {
                1
            },
            None => 1,
        };
        self.stats = self.stats.with_current_hp(Some(hp_restored_to));
        self.state = CharacterState::Active;
        ResurrectOutcome::Resurrected { hp_restored_to }
    }

    /// Sets a living character inactive; the dead stay dead.
    pub fn deactivate(&mut self) -> (change: CharacterStateChange)
        ensures
            change == toggle_outcome(old(self)@.state, CharacterState::Inactive),
            final(self)@ == (CharacterView {
                state: state_after_toggle(old(self)@.state, CharacterState::Inactive),
                ..old(self)@
            }),
    {
        let previous = self.state;
        if self.state.is_alive() && !matches!(self.state, CharacterState::Inactive) {
            self.state = CharacterState::Inactive;
            return CharacterStateChange::StateChanged { from: previous, to: self.state };
        }
        CharacterStateChange::Unchanged { state: self.state }
    }

    /// Sets a living character active; the dead stay dead.
    pub fn activate(&mut self) -> (change: CharacterStateChange)
        ensures
            change == toggle_outcome(old(self)@.state, CharacterState::Active),
            final(self)@ == (CharacterView {
                state: state_after_toggle(old(self)@.state, CharacterState::Active),
                ..old(self)@
            }),
    {
        let previous = self.state;
        if self.state.is_alive() && !matches!(self.state, CharacterState::Active) {
            self.state = CharacterState::Active;
            return CharacterStateChange::StateChanged { from: previous, to: self.state };
        }
        CharacterStateChange::Unchanged { state: self.state }
    }

    /// Changes the current archetype for good, recording the change with
    /// its reason and time.
    pub fn change_archetype(
        &mut self,
        new_archetype: CampbellArchetype,
        reason: &str,
        now: Timestamp,
    ) -> (shift: ArchetypeShift)
        ensures
            shift.from == old(self)@.current_archetype,
            shift.to == new_archetype,
            shift.reason@ == reason@,
            final(self)@ == (CharacterView {
                current_archetype: new_archetype,
                archetype_history: old(self)@.archetype_history.push(
                    ArchetypeChangeView {
                        from: old(self)@.current_archetype,
                        to: new_archetype,
                        reason: reason@,
                        at: now,
                    },
                ),
                ..old(self)@
            }),
    {
        let previous = self.current_archetype;
        let change = ArchetypeChange::new(self.current_archetype, new_archetype, reason, now);
        let ghost before = self.archetype_history@;
        self.archetype_history.push(change);
        assert(change_views(self.archetype_history@) =~= change_views(before).push(change@));
        self.current_archetype = new_archetype;
        ArchetypeShift { from: previous, to: self.current_archetype, reason: reason.to_owned() }
    }

    /// Plays another archetype for a while: only the current archetype
    /// changes, and nothing is recorded.
    pub fn assume_archetype(&mut self, archetype: CampbellArchetype) -> (shift: ArchetypeShift)
        ensures
            shift.from == old(self)@.current_archetype,
            shift.to == archetype,
            shift.reason@ == "assumed archetype"@,
            final(self)@ == (CharacterView { current_archetype: archetype, ..old(self)@ }),
    {
        let previous = self.current_archetype;
        self.current_archetype = archetype;
        ArchetypeShift {
            from: previous,
            to: self.current_archetype,
            reason: "assumed archetype".to_owned(),
        }
    }

    /// Goes back to the base archetype.
    pub fn revert_to_base(&mut self) -> (shift: ArchetypeShift)
        ensures
            shift.from == old(self)@.current_archetype,
            shift.to == old(self)@.base_archetype,
            shift.reason@ == "reverted to base archetype"@,
            final(self)@ == (CharacterView {
                current_archetype: old(self)@.base_archetype,
                ..old(self)@
            }),
    {
        let previous = self.current_archetype;
        self.current_archetype = self.base_archetype;
        ArchetypeShift {
            from: previous,
            to: self.current_archetype,
            reason: "reverted to base archetype".to_owned(),
        }
    }

    /// Renames the character.
    pub fn set_name(&mut self, name: CharacterName) -> (update: CharacterUpdate)
        ensures
            update matches CharacterUpdate::NameChanged { from, to } && from@ == old(self)@.name
                && to@ == name@,
            final(self)@ == (CharacterView { name: name@, ..old(self)@ }),
    {
        let mut previous = name;
        std::mem::swap(&mut self.name, &mut previous);
        CharacterUpdate::NameChanged { from: previous, to: self.name.clone() }
    }

    /// Replaces the description.
    pub fn set_description(&mut self, description: Description) -> (update: CharacterUpdate)
        ensures
            update matches CharacterUpdate::DescriptionChanged { from, to } && from@ == old(
                self,
            )@.description && to@ == description@,
            final(self)@ == (CharacterView { description: description@, ..old(self)@ }),
    {
        let mut previous = description;
        std::mem::swap(&mut self.description, &mut previous);
        CharacterUpdate::DescriptionChanged { from: previous, to: self.description.clone() }
    }

    /// Replaces the sprite.
    pub fn set_sprite(&mut self, path: Option<AssetPath>) -> (update: CharacterUpdate)
        ensures
            update matches CharacterUpdate::SpriteChanged { from, to } && opt_asset(from)
                == old(self)@.sprite_asset && opt_asset(to) == opt_asset(path),
            final(self)@ == (CharacterView { sprite_asset: opt_asset(path), ..old(self)@ }),
    {
        let mut previous = path;
        std::mem::swap(&mut self.sprite_asset, &mut previous);
        let to = match &self.sprite_asset {
            Some(p) => Some(p.clone()),
            None => None,
        };
        CharacterUpdate::SpriteChanged { from: previous, to }
    }

    /// Replaces the portrait.
    pub fn set_portrait(&mut self, path: Option<AssetPath>) -> (update: CharacterUpdate)
        ensures
            update matches CharacterUpdate::PortraitChanged { from, to } && opt_asset(from)
                == old(self)@.portrait_asset && opt_asset(to) == opt_asset(path),
            final(self)@ == (CharacterView { portrait_asset: opt_asset(path), ..old(self)@ }),
    {
        let mut previous = path;
        std::mem::swap(&mut self.portrait_asset, &mut previous);
        let to = match &self.portrait_asset {
            Some(p) => Some(p.clone()),
            None => None,
        };
        CharacterUpdate::PortraitChanged { from: previous, to }
    }
}


// ---------------------------------------------------------------------------
// Laws
// ---------------------------------------------------------------------------

/// Healing never takes a character above its maximum hit points, never
/// lowers them, and heals no more than was asked.
pub proof fn law_heal_stays_within_max(v: CharacterView, amount: i32)
    requires
        heal_applies(v, amount),
    ensures
        after_heal(v, amount).stats.current_hp->0 <= v.stats.max_hp->0,
        after_heal(v, amount).stats.current_hp->0 > v.stats.current_hp->0,
        heal_outcome(v, amount) matches HealOutcome::Healed { amount_healed, new_hp } && new_hp
            == after_heal(v, amount).stats.current_hp->0 && 0 < amount_healed <= amount,
{
}

/// Damage kills exactly when the hit points it leaves are 0 or below; a
/// character killed this way reports `Killed`.
pub proof fn law_damage_kills_at_zero(v: CharacterView, amount: i32)
    requires
        !(v.state is Dead),
        tracks_hp(v),
    ensures
        (after_damage(v, amount).state is Dead) <==> hp_after_damage(v, amount) <= 0,
        (after_damage(v, amount).state is Dead) <==> (damage_outcome(v, amount) is Killed),
        after_damage(v, amount).stats.current_hp == Some(hp_after_damage(v, amount)),
{
}

/// The dead are untouched by damage, healing, activation and deactivation.
pub proof fn law_dead_are_unaffected(v: CharacterView, amount: i32)
    requires
        v.state is Dead,
    ensures
        after_damage(v, amount) == v,
        after_heal(v, amount) == v,
        state_after_toggle(v.state, CharacterState::Active) == v.state,
        state_after_toggle(v.state, CharacterState::Inactive) == v.state,
        damage_outcome(v, amount) == DamageOutcome::AlreadyDead,
{
}

/// Without tracked hit points, damage and healing change nothing.
pub proof fn law_untracked_hp_unchanged(v: CharacterView, amount: i32)
    requires
        !tracks_hp(v),
    ensures
        after_damage(v, amount) == v,
        after_heal(v, amount) == v,
{
}

/// A character killed by damage and then resurrected is active again with
/// at least 1 hit point, and its maximum is unchanged.
pub proof fn law_resurrect_after_kill(v: CharacterView, amount: i32)
    requires
        !(v.state is Dead),
        tracks_hp(v),
        hp_after_damage(v, amount) <= 0,
    ensures
        after_resurrect(after_damage(v, amount)).state == CharacterState::Active,
        after_resurrect(after_damage(v, amount)).stats.current_hp->0 >= 1,
        after_resurrect(after_damage(v, amount)).stats.max_hp == v.stats.max_hp,
{
}

/// Resurrection gives half the maximum hit points, at least 1.
pub proof fn law_resurrection_hp(v: CharacterView)
    requires
        v.state is Dead,
    ensures
        after_resurrect(v).stats.current_hp->0 >= 1,
        (v.stats.max_hp matches Some(m) && m >= 2) ==> after_resurrect(v).stats.current_hp->0
            == v.stats.max_hp->0 / 2,
{
}

/// Deactivating and then activating a living character leaves it active.
pub proof fn law_deactivate_then_activate(s: CharacterState)
    requires
        !(s is Dead),
    ensures
        state_after_toggle(state_after_toggle(s, CharacterState::Inactive), CharacterState::Active)
            == CharacterState::Active,
        toggle_outcome(CharacterState::Inactive, CharacterState::Active)
            == (CharacterStateChange::StateChanged {
            from: CharacterState::Inactive,
            to: CharacterState::Active,
        }),
{
}

} // verus!
