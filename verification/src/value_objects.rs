//! Small validated values shared by the aggregates: names, descriptions,
//! asset paths, character state, archetypes, hit points and timestamps.

use crate::error::DomainError;
use crate::text::all_white;
use crate::text::is_blank;
use vstd::prelude::*;

verus! {

/// Most characters a name may hold.
pub const MAX_NAME_CHARS: usize = 200;

/// Most characters a description may hold.
pub const MAX_DESCRIPTION_CHARS: usize = 5000;

/// A point in time: whole seconds since the Unix epoch (UTC) and the
/// nanoseconds into that second.
#[derive(Debug, Clone, Copy, PartialEq, Eq, Structural, Hash)]
pub struct Timestamp {
    pub unix_seconds: i64,
    pub subsec_nanos: u32,
}

impl Timestamp {
    /// The moment `unix_seconds` seconds and `subsec_nanos` nanoseconds after
    /// the epoch.
    pub fn from_unix(unix_seconds: i64, subsec_nanos: u32) -> (t: Self)
        ensures
            t == (Timestamp { unix_seconds, subsec_nanos }),
    {
        Timestamp { unix_seconds, subsec_nanos }
    }
}

/// Life and participation state of a character.
#[derive(Debug, Clone, Copy, PartialEq, Eq, Structural, Hash)]
pub enum CharacterState {
    /// Alive and taking part in the story.
    Active,
    /// Alive but set aside.
    Inactive,
    /// Dead.
    Dead,
}

impl CharacterState {
    pub fn is_alive(&self) -> (b: bool)
        ensures
            b == !(*self is Dead),
    {
        !matches!(self, CharacterState::Dead)
    }

    pub fn is_active(&self) -> (b: bool)
        ensures
            b == (*self is Active),
    {
        matches!(self, CharacterState::Active)
    }

    pub fn is_dead(&self) -> (b: bool)
        ensures
            b == (*self is Dead),
    {
        matches!(self, CharacterState::Dead)
    }

    pub fn is_inactive(&self) -> (b: bool)
        ensures
            b == (*self is Inactive),
    {
        matches!(self, CharacterState::Inactive)
    }
}

/// The roles of Campbell's hero's journey that a character can play.
#[derive(Debug, Clone, Copy, PartialEq, Eq, Structural, Hash)]
pub enum CampbellArchetype {
    Hero,
    Mentor,
    ThresholdGuardian,
    Herald,
    Shapeshifter,
    Shadow,
    Trickster,
    Ally,
}

/// The outcome of a name check: blank and over-long names are refused.
pub open spec fn checked_name(s: Seq<char>, if_blank: Seq<char>, if_long: Seq<char>) -> Result<
    Seq<char>,
    Seq<char>,
> {
    if all_white(s) {
        Err(if_blank)
    } else if s.len() > MAX_NAME_CHARS {
        Err(if_long)
    } else {
        Ok(s)
    }
}

/// A character's name: not blank, at most 200 characters.
#[derive(Debug, PartialEq, Eq)]
pub struct CharacterName {
    value: String,
}

impl Clone for CharacterName {
    fn clone(&self) -> (r: Self)
        ensures
            r == *self,
    {
        CharacterName { value: self.value.clone() }
    }
}

impl View for CharacterName {
    type V = Seq<char>;

    closed spec fn view(&self) -> Seq<char> {
        self.value@
    }
}

impl CharacterName {
    /// The name `value`; blank or over-long text is a validation error.
    pub fn new(value: &str) -> (r: Result<Self, DomainError>)
        ensures
            match checked_name(
                value@,
                "Character name cannot be empty"@,
                "Character name cannot exceed 200 characters"@,
            ) {
                Ok(s) => r matches Ok(n) && n@ == s,
                Err(m) => r matches Err(DomainError::Validation(e)) && e@ == m,
            },
    {
        if is_blank(value) {
            return Err(DomainError::validation("Character name cannot be empty"));
        }
        if value.unicode_len() > MAX_NAME_CHARS {
            return Err(DomainError::validation("Character name cannot exceed 200 characters"));
        }
        Ok(CharacterName { value: value.to_owned() })
    }

    pub fn as_str(&self) -> (r: &str)
        ensures
            r@ == self@,
    {
        self.value.as_str()
    }
}

/// The name of a narrative event: not blank, at most 200 characters.
#[derive(Debug, PartialEq, Eq)]
pub struct NarrativeEventName {
    value: String,
}

impl Clone for NarrativeEventName {
    fn clone(&self) -> (r: Self)
        ensures
            r == *self,
    {
        NarrativeEventName { value: self.value.clone() }
    }
}

impl View for NarrativeEventName {
    type V = Seq<char>;

    closed spec fn view(&self) -> Seq<char> {
        self.value@
    }
}

impl NarrativeEventName {
    /// The name `value`; blank or over-long text is a validation error.
    pub fn new(value: &str) -> (r: Result<Self, DomainError>)
        ensures
            match checked_name(
                value@,
                "Narrative event name cannot be empty"@,
                "Narrative event name cannot exceed 200 characters"@,
            ) {
                Ok(s) => r matches Ok(n) && n@ == s,
                Err(m) => r matches Err(DomainError::Validation(e)) && e@ == m,
            },
    {
        if is_blank(value) {
            return Err(DomainError::validation("Narrative event name cannot be empty"));
        }
        if value.unicode_len() > MAX_NAME_CHARS {
            return Err(
                DomainError::validation("Narrative event name cannot exceed 200 characters"),
            );
        }
        Ok(NarrativeEventName { value: value.to_owned() })
    }

    pub fn as_str(&self) -> (r: &str)
        ensures
            r@ == self@,
    {
        self.value.as_str()
    }
}

/// The name of a scene: not blank, at most 200 characters.
#[derive(Debug, PartialEq, Eq)]
pub struct SceneName {
    value: String,
}

impl Clone for SceneName {
    fn clone(&self) -> (r: Self)
        ensures
            r == *self,
    {
        SceneName { value: self.value.clone() }
    }
}

impl View for SceneName {
    type V = Seq<char>;

    closed spec fn view(&self) -> Seq<char> {
        self.value@
    }
}

impl SceneName {
    /// The name `value`; blank or over-long text is a validation error.
    pub fn new(value: &str) -> (r: Result<Self, DomainError>)
        ensures
            match checked_name(
                value@,
                "Scene name cannot be empty"@,
                "Scene name cannot exceed 200 characters"@,
            ) {
                Ok(s) => r matches Ok(n) && n@ == s,
                Err(m) => r matches Err(DomainError::Validation(e)) && e@ == m,
            },
    {
        if is_blank(value) {
            return Err(DomainError::validation("Scene name cannot be empty"));
        }
        if value.unicode_len() > MAX_NAME_CHARS {
            return Err(
                DomainError::validation("Scene name cannot exceed 200 characters"),
            );
        }
        Ok(SceneName { value: value.to_owned() })
    }

    pub fn as_str(&self) -> (r: &str)
        ensures
            r@ == self@,
    {
        self.value.as_str()
    }
}

/// The name of a location: not blank, at most 200 characters.
#[derive(Debug, PartialEq, Eq)]
pub struct LocationName {
    value: String,
}

impl Clone for LocationName {
    fn clone(&self) -> (r: Self)
        ensures
            r == *self,
    {
        LocationName { value: self.value.clone() }
    }
}

impl View for LocationName {
    type V = Seq<char>;

    closed spec fn view(&self) -> Seq<char> {
        self.value@
    }
}

impl LocationName {
    /// The name `value`; blank or over-long text is a validation error.
    pub fn new(value: &str) -> (r: Result<Self, DomainError>)
        ensures
            match checked_name(
                value@,
                "Location name cannot be empty"@,
                "Location name cannot exceed 200 characters"@,
            ) {
                Ok(s) => r matches Ok(n) && n@ == s,
                Err(m) => r matches Err(DomainError::Validation(e)) && e@ == m,
            },
    {
        if is_blank(value) {
            return Err(DomainError::validation("Location name cannot be empty"));
        }
        if value.unicode_len() > MAX_NAME_CHARS {
            return Err(
                DomainError::validation("Location name cannot exceed 200 characters"),
            );
        }
        Ok(LocationName { value: value.to_owned() })
    }

    pub fn as_str(&self) -> (r: &str)
        ensures
            r@ == self@,
    {
        self.value.as_str()
    }
}

/// The name of a region: not blank, at most 200 characters.
#[derive(Debug, PartialEq, Eq)]
pub struct RegionName {
    value: String,
}

impl Clone for RegionName {
    fn clone(&self) -> (r: Self)
        ensures
            r == *self,
    {
        RegionName { value: self.value.clone() }
    }
}

impl View for RegionName {
    type V = Seq<char>;

    closed spec fn view(&self) -> Seq<char> {
        self.value@
    }
}

impl RegionName {
    /// The name `value`; blank or over-long text is a validation error.
    pub fn new(value: &str) -> (r: Result<Self, DomainError>)
        ensures
            match checked_name(
                value@,
                "Region name cannot be empty"@,
                "Region name cannot exceed 200 characters"@,
            ) {
                Ok(s) => r matches Ok(n) && n@ == s,
                Err(m) => r matches Err(DomainError::Validation(e)) && e@ == m,
            },
    {
        if is_blank(value) {
            return Err(DomainError::validation("Region name cannot be empty"));
        }
        if value.unicode_len() > MAX_NAME_CHARS {
            return Err(
                DomainError::validation("Region name cannot exceed 200 characters"),
            );
        }
        Ok(RegionName { value: value.to_owned() })
    }

    pub fn as_str(&self) -> (r: &str)
        ensures
            r@ == self@,
    {
        self.value.as_str()
    }
}

/// The name of a visual state: not blank, at most 200 characters; the
/// default name is empty.
#[derive(Debug, PartialEq, Eq)]
pub struct StateName {
    value: String,
}

impl Clone for StateName {
    fn clone(&self) -> (r: Self)
        ensures
            r == *self,
    {
        StateName { value: self.value.clone() }
    }
}

impl View for StateName {
    type V = Seq<char>;

    closed spec fn view(&self) -> Seq<char> {
        self.value@
    }
}

impl Default for StateName {
    fn default() -> (n: Self)
        ensures
            n@ == Seq::<char>::empty(),
    {
        StateName { value: String::new() }
    }
}

impl StateName {
    /// The name `value`; blank or over-long text is a validation error.
    pub fn new(value: &str) -> (r: Result<Self, DomainError>)
        ensures
            match checked_name(
                value@,
                "State name cannot be empty"@,
                "State name cannot exceed 200 characters"@,
            ) {
                Ok(s) => r matches Ok(n) && n@ == s,
                Err(m) => r matches Err(DomainError::Validation(e)) && e@ == m,
            },
    {
        if is_blank(value) {
            return Err(DomainError::validation("State name cannot be empty"));
        }
        if value.unicode_len() > MAX_NAME_CHARS {
            return Err(
                DomainError::validation("State name cannot exceed 200 characters"),
            );
        }
        Ok(StateName { value: value.to_owned() })
    }

    pub fn as_str(&self) -> (r: &str)
        ensures
            r@ == self@,
    {
        self.value.as_str()
    }
}

/// The name of an item: not blank, at most 200 characters.
#[derive(Debug, PartialEq, Eq)]
pub struct ItemName {
    value: String,
}

impl Clone for ItemName {
    fn clone(&self) -> (r: Self)
        ensures
            r == *self,
    {
        ItemName { value: self.value.clone() }
    }
}

impl View for ItemName {
    type V = Seq<char>;

    closed spec fn view(&self) -> Seq<char> {
        self.value@
    }
}

impl ItemName {
    /// The name `value`; blank or over-long text is a validation error.
    pub fn new(value: &str) -> (r: Result<Self, DomainError>)
        ensures
            match checked_name(
                value@,
                "Item name cannot be empty"@,
                "Item name cannot exceed 200 characters"@,
            ) {
                Ok(s) => r matches Ok(n) && n@ == s,
                Err(m) => r matches Err(DomainError::Validation(e)) && e@ == m,
            },
    {
        if is_blank(value) {
            return Err(DomainError::validation("Item name cannot be empty"));
        }
        if value.unicode_len() > MAX_NAME_CHARS {
            return Err(
                DomainError::validation("Item name cannot exceed 200 characters"),
            );
        }
        Ok(ItemName { value: value.to_owned() })
    }

    pub fn as_str(&self) -> (r: &str)
        ensures
            r@ == self@,
    {
        self.value.as_str()
    }
}

/// The name of a goal: not blank, at most 200 characters.
#[derive(Debug, PartialEq, Eq)]
pub struct GoalName {
    value: String,
}

impl Clone for GoalName {
    fn clone(&self) -> (r: Self)
        ensures
            r == *self,
    {
        GoalName { value: self.value.clone() }
    }
}

impl View for GoalName {
    type V = Seq<char>;

    closed spec fn view(&self) -> Seq<char> {
        self.value@
    }
}

impl GoalName {
    /// The name `value`; blank or over-long text is a validation error.
    pub fn new(value: &str) -> (r: Result<Self, DomainError>)
        ensures
            match checked_name(
                value@,
                "Goal name cannot be empty"@,
                "Goal name cannot exceed 200 characters"@,
            ) {
                Ok(s) => r matches Ok(n) && n@ == s,
                Err(m) => r matches Err(DomainError::Validation(e)) && e@ == m,
            },
    {
        if is_blank(value) {
            return Err(DomainError::validation("Goal name cannot be empty"));
        }
        if value.unicode_len() > MAX_NAME_CHARS {
            return Err(
                DomainError::validation("Goal name cannot exceed 200 characters"),
            );
        }
        Ok(GoalName { value: value.to_owned() })
    }

    pub fn as_str(&self) -> (r: &str)
        ensures
            r@ == self@,
    {
        self.value.as_str()
    }
}

/// A free-text description of at most 5000 characters (it may be empty).
#[derive(Debug, PartialEq, Eq)]
pub struct Description {
    value: String,
}

impl Clone for Description {
    fn clone(&self) -> (r: Self)
        ensures
            r == *self,
    {
        Description { value: self.value.clone() }
    }
}

impl View for Description {
    type V = Seq<char>;

    closed spec fn view(&self) -> Seq<char> {
        self.value@
    }
}

impl Default for Description {
    fn default() -> (d: Self)
        ensures
            d@ == Seq::<char>::empty(),
    {
        Description::empty()
    }
}

/// The text a description holds when built from `s`, falling back to the
/// empty description for over-long text.
pub open spec fn description_or_empty(s: Seq<char>) -> Seq<char> {
    if s.len() <= MAX_DESCRIPTION_CHARS {
        s
    } else {
        Seq::empty()
    }
}

impl Description {
    /// The description `value`, or the empty description when `value` is
    /// over-long.
    pub(crate) fn new_or_empty(value: &str) -> (d: Self)
        ensures
            d@ == description_or_empty(value@),
    {
        match Description::new(value) {
            Ok(d) => d,
            Err(_) => Description::empty(),
        }
    }

    /// The description `value`; over-long text is a validation error.
    pub fn new(value: &str) -> (r: Result<Self, DomainError>)
        ensures
            value@.len() <= MAX_DESCRIPTION_CHARS ==> (r matches Ok(d) && d@ == value@),
            value@.len() > MAX_DESCRIPTION_CHARS ==> (r matches Err(DomainError::Validation(e))
                && e@ == "Description cannot exceed 5000 characters"@),
    {
        if value.unicode_len() > MAX_DESCRIPTION_CHARS {
            return Err(DomainError::validation("Description cannot exceed 5000 characters"));
        }
        Ok(Description { value: value.to_owned() })
    }

    /// The empty description.
    pub fn empty() -> (d: Self)
        ensures
            d@ == Seq::<char>::empty(),
    {
        Description { value: String::new() }
    }

    pub fn as_str(&self) -> (r: &str)
        ensures
            r@ == self@,
    {
        self.value.as_str()
    }

    pub fn is_empty(&self) -> (b: bool)
        ensures
            b == (self@.len() == 0),
    {
        self.value.as_str().unicode_len() == 0
    }
}

/// The path of an asset (an image file); never blank.
#[derive(Debug, PartialEq, Eq)]
pub struct AssetPath {
    value: String,
}

impl Clone for AssetPath {
    fn clone(&self) -> (r: Self)
        ensures
            r == *self,
    {
        AssetPath { value: self.value.clone() }
    }
}

impl View for AssetPath {
    type V = Seq<char>;

    closed spec fn view(&self) -> Seq<char> {
        self.value@
    }
}

impl AssetPath {
    /// The path `value`; blank text is a validation error.
    pub fn new(value: &str) -> (r: Result<Self, DomainError>)
        ensures
            all_white(value@) ==> (r matches Err(DomainError::Validation(e)) && e@
                == "Asset path cannot be empty"@),
            !all_white(value@) ==> (r matches Ok(p) && p@ == value@),
    {
        if is_blank(value) {
            return Err(DomainError::validation("Asset path cannot be empty"));
        }
        Ok(AssetPath { value: value.to_owned() })
    }

    pub fn as_str(&self) -> (r: &str)
        ensures
            r@ == self@,
    {
        self.value.as_str()
    }
}

/// Hit points of a character, where they are tracked.
#[derive(Debug, Clone, Copy, PartialEq, Eq, Structural)]
pub struct StatBlock {
    current_hp: Option<i32>,
    max_hp: Option<i32>,
}

/// Abstract state of a stat block.
pub ghost struct StatBlockView {
    pub current_hp: Option<i32>,
    pub max_hp: Option<i32>,
}

impl View for StatBlock {
    type V = StatBlockView;

    closed spec fn view(&self) -> StatBlockView {
        StatBlockView { current_hp: self.current_hp, max_hp: self.max_hp }
    }
}

impl Default for StatBlock {
    fn default() -> (s: Self)
        ensures
            s@ == (StatBlockView { current_hp: None, max_hp: None }),
    {
        StatBlock::new()
    }
}

impl StatBlock {
    /// A stat block without hit points.
    pub fn new() -> (s: Self)
        ensures
            s@ == (StatBlockView { current_hp: None, max_hp: None }),
    {
        StatBlock { current_hp: None, max_hp: None }
    }

    /// This block with current and maximum hit points.
    pub fn with_hp(self, current: i32, max: i32) -> (s: Self)
        ensures
            s@ == (StatBlockView { current_hp: Some(current), max_hp: Some(max) }),
    {
        StatBlock { current_hp: Some(current), max_hp: Some(max) }
    }

    /// This block with the given current hit points.
    pub fn with_current_hp(self, current: Option<i32>) -> (s: Self)
        ensures
            s@ == (StatBlockView { current_hp: current, ..self@ }),
    {
        StatBlock { current_hp: current, ..self }
    }

    /// This block with the given maximum hit points.
    pub fn with_max_hp(self, max: Option<i32>) -> (s: Self)
        ensures
            s@ == (StatBlockView { max_hp: max, ..self@ }),
    {
        StatBlock { max_hp: max, ..self }
    }

    pub fn current_hp(&self) -> (r: Option<i32>)
        ensures
            r == self@.current_hp,
    {
        self.current_hp
    }

    pub fn max_hp(&self) -> (r: Option<i32>)
        ensures
            r == self@.max_hp,
    {
        self.max_hp
    }
}

/// A recorded change of a character's archetype.
#[derive(Debug, Clone, PartialEq, Eq)]
pub struct ArchetypeChange {
    from: CampbellArchetype,
    to: CampbellArchetype,
    reason: String,
    at: Timestamp,
}

/// Abstract state of an archetype change.
pub ghost struct ArchetypeChangeView {
    pub from: CampbellArchetype,
    pub to: CampbellArchetype,
    pub reason: Seq<char>,
    pub at: Timestamp,
}

impl View for ArchetypeChange {
    type V = ArchetypeChangeView;

    closed spec fn view(&self) -> ArchetypeChangeView {
        ArchetypeChangeView { from: self.from, to: self.to, reason: self.reason@, at: self.at }
    }
}

impl ArchetypeChange {
    /// A change from `from` to `to` for `reason`, made at `at`.
    pub fn new(from: CampbellArchetype, to: CampbellArchetype, reason: &str, at: Timestamp) -> (c:
        Self)
        ensures
            c@ == (ArchetypeChangeView { from, to, reason: reason@, at }),
    {
        ArchetypeChange { from, to, reason: reason.to_owned(), at }
    }

    pub fn from(&self) -> (r: CampbellArchetype)
        ensures
            r == self@.from,
    {
        self.from
    }

    pub fn to(&self) -> (r: CampbellArchetype)
        ensures
            r == self@.to,
    {
        self.to
    }

    pub fn reason(&self) -> (r: &str)
        ensures
            r@ == self@.reason,
    {
        self.reason.as_str()
    }

    pub fn at(&self) -> (r: Timestamp)
        ensures
            r == self@.at,
    {
        self.at
    }
}

/// The abstract states of archetype changes.
pub open spec fn change_views(v: Seq<ArchetypeChange>) -> Seq<ArchetypeChangeView> {
    v.map_values(|c: ArchetypeChange| c@)
}


/// The anonymous id of a user: never blank.
#[derive(Debug, PartialEq, Eq)]
pub struct UserId {
    value: String,
}

impl Clone for UserId {
    fn clone(&self) -> (r: Self)
        ensures
            r == *self,
    {
        UserId { value: self.value.clone() }
    }
}

impl View for UserId {
    type V = Seq<char>;

    closed spec fn view(&self) -> Seq<char> {
        self.value@
    }
}

impl UserId {
    /// The id `value`; blank text is a validation error.
    pub fn new(value: &str) -> (r: Result<Self, DomainError>)
        ensures
            all_white(value@) ==> (r matches Err(DomainError::Validation(e)) && e@
                == "User ID cannot be empty"@),
            !all_white(value@) ==> (r matches Ok(u) && u@ == value@),
    {
        if is_blank(value) {
            return Err(DomainError::validation("User ID cannot be empty"));
        }
        Ok(UserId { value: value.to_owned() })
    }

    pub fn as_str(&self) -> (r: &str)
        ensures
            r@ == self@,
    {
        self.value.as_str()
    }
}


/// The mood of a place (such as "Dark and echoing"): never blank.
#[derive(Debug, PartialEq, Eq)]
pub struct Atmosphere {
    value: String,
}

impl Clone for Atmosphere {
    fn clone(&self) -> (r: Self)
        ensures
            r == *self,
    {
        Atmosphere { value: self.value.clone() }
    }
}

impl View for Atmosphere {
    type V = Seq<char>;

    closed spec fn view(&self) -> Seq<char> {
        self.value@
    }
}

impl Atmosphere {
    /// The atmosphere `value`; blank text is a validation error.
    pub fn new(value: &str) -> (r: Result<Self, DomainError>)
        ensures
            all_white(value@) ==> (r matches Err(DomainError::Validation(e)) && e@
                == "Atmosphere cannot be empty"@),
            !all_white(value@) ==> (r matches Ok(a) && a@ == value@),
    {
        if is_blank(value) {
            return Err(DomainError::validation("Atmosphere cannot be empty"));
        }
        Ok(Atmosphere { value: value.to_owned() })
    }

    pub fn as_str(&self) -> (r: &str)
        ensures
            r@ == self@,
    {
        self.value.as_str()
    }
}

/// Fewest hours a presence cache is kept.
pub const MIN_PRESENCE_TTL_HOURS: i32 = 1;

/// Most hours a presence cache is kept.
pub const MAX_PRESENCE_TTL_HOURS: i32 = 168;

/// Hours for which the computed presence of NPCs at a location is kept.
#[derive(Debug, Clone, Copy, PartialEq, Eq, Structural)]
pub struct PresenceTtlHours {
    hours: i32,
}

/// `hours` clamped to the allowed range.
pub open spec fn clamp_ttl(hours: i32) -> i32 {
    if hours < MIN_PRESENCE_TTL_HOURS {
        MIN_PRESENCE_TTL_HOURS
    } else if hours > MAX_PRESENCE_TTL_HOURS {
        MAX_PRESENCE_TTL_HOURS
    } else {
        hours
    }
}

impl View for PresenceTtlHours {
    type V = i32;

    closed spec fn view(&self) -> i32 {
        self.hours
    }
}

impl Default for PresenceTtlHours {
    fn default() -> (t: Self)
        ensures
            t@ == 3,
    {
        PresenceTtlHours { hours: 3 }
    }
}

impl PresenceTtlHours {
    /// `hours`, or a validation error outside the allowed range.
    pub fn new(hours: i32) -> (r: Result<Self, DomainError>)
        ensures
            MIN_PRESENCE_TTL_HOURS <= hours <= MAX_PRESENCE_TTL_HOURS ==> (r matches Ok(t) && t@
                == hours),
            !(MIN_PRESENCE_TTL_HOURS <= hours <= MAX_PRESENCE_TTL_HOURS) ==> (r matches Err(
                DomainError::Validation(e),
            ) && e@ == "Presence TTL must be between 1 and 168 hours"@),
    {
        if hours < MIN_PRESENCE_TTL_HOURS || hours > MAX_PRESENCE_TTL_HOURS {
            return Err(DomainError::validation("Presence TTL must be between 1 and 168 hours"));
        }
        Ok(PresenceTtlHours { hours })
    }

    /// `hours` brought into the allowed range.
    pub fn clamped(hours: i32) -> (t: Self)
        ensures
            t@ == clamp_ttl(hours),
    {
        if hours < MIN_PRESENCE_TTL_HOURS {
            PresenceTtlHours { hours: MIN_PRESENCE_TTL_HOURS }
        } else if hours > MAX_PRESENCE_TTL_HOURS {
            PresenceTtlHours { hours: MAX_PRESENCE_TTL_HOURS }
        } else {
            PresenceTtlHours { hours }
        }
    }

    pub fn value(&self) -> (r: i32)
        ensures
            r == self@,
    {
        self.hours
    }
}


/// The game systems that come with preset rules.
#[derive(Debug, Clone, PartialEq, Eq)]
pub enum RuleSystemVariant {
    Dnd5e,
    Pathfinder2e,
    GenericD20,
    CallOfCthulhu7e,
    RuneQuest,
    GenericD100,
    KidsOnBikes,
    FateCore,
    PoweredByApocalypse,
    /// A system of the game master's own, by name.
    Custom(String),
}

} // verus!
