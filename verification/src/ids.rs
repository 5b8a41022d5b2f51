//! Typed identifiers. Each wraps the 128-bit value of a UUID; fresh ones are
//! random (version 4), and their text form is the hyphenated UUID.

use vstd::prelude::*;

verus! {

/// The lower-case hexadecimal digit for `n` (from 0 to 15).
pub open spec fn hex_digit(n: int) -> char {
    if n < 10 {
        (48 + n) as char
    } else {
        (87 + n) as char
    }
}

/// The 32 hexadecimal digits of `value`, most significant first.
pub open spec fn hex_digits(value: u128) -> Seq<char> {
    Seq::new(32, |i: int| hex_digit(((value >> ((124 - 4 * i) as u32)) & 0xf) as int))
}

/// Text of the UUID whose 128-bit value is `value`: its 32 lower-case
/// hexadecimal digits, most significant first, with a hyphen after the 8th,
/// 12th, 16th and 20th.
pub open spec fn uuid_text(value: u128) -> Seq<char> {
    let h = hex_digits(value);
    h.subrange(0, 8) + seq!['-'] + h.subrange(8, 12) + seq!['-'] + h.subrange(12, 16) + seq!['-']
        + h.subrange(16, 20) + seq!['-'] + h.subrange(20, 32)
}

/// The value of a random (version 4) UUID: the version bits hold 4 and
/// the variant bits hold the RFC 4122 variant; the other 122 bits are
/// random.
pub open spec fn is_random_uuid(value: u128) -> bool {
    value & 0xf000_c000_0000_0000_0000u128 == 0x4000_8000_0000_0000_0000u128
}

/// Calls `uuid::Uuid::new_v4` and hands back its 128-bit value. The value
/// is random; `new_v4` masks in the version and variant bits, and that is
/// all that is promised of it.
#[verifier::external_body]
fn random_uuid_value() -> (v: u128)
    ensures
        is_random_uuid(v),
{
    uuid::Uuid::new_v4().as_u128()
}

/// Calls `uuid::Uuid::from_u128`, which takes the value's bytes in
/// big-endian order, and formats the UUID with `Display`, which writes the
/// hyphenated lower-case form: the text is `uuid_text` of the value.
#[verifier::external_body]
fn uuid_string(value: u128) -> (s: String)
    ensures
        s@ == uuid_text(value),
{
    uuid::Uuid::from_u128(value).to_string()
}

/// Identifier of a world.
#[derive(Debug, Clone, Copy, PartialEq, Eq, Structural, Hash, PartialOrd, Ord)]
pub struct WorldId {
    value: u128,
}

impl WorldId {
    /// The 128-bit value of this identifier.
    pub closed spec fn spec_value(&self) -> u128 {
        self.value
    }

    /// A fresh random identifier.
    pub fn new() -> (id: Self)
        ensures
            is_random_uuid(id.spec_value()),
    {
        WorldId { value: random_uuid_value() }
    }

    /// The identifier with the given 128-bit value.
    pub fn from_u128(value: u128) -> (id: Self)
        ensures
            id.spec_value() == value,
    {
        WorldId { value }
    }

    /// The 128-bit value of this identifier.
    pub fn as_u128(&self) -> (v: u128)
        ensures
            v == self.spec_value(),
    {
        self.value
    }

    /// The hyphenated UUID text of this identifier.
    pub fn to_text(&self) -> (s: String)
        ensures
            s@ == uuid_text(self.spec_value()),
    {
        uuid_string(self.value)
    }
}

/// Identifier of a challenge.
#[derive(Debug, Clone, Copy, PartialEq, Eq, Structural, Hash, PartialOrd, Ord)]
pub struct ChallengeId {
    value: u128,
}

impl ChallengeId {
    /// The 128-bit value of this identifier.
    pub closed spec fn spec_value(&self) -> u128 {
        self.value
    }

    /// A fresh random identifier.
    pub fn new() -> (id: Self)
        ensures
            is_random_uuid(id.spec_value()),
    {
        ChallengeId { value: random_uuid_value() }
    }

    /// The identifier with the given 128-bit value.
    pub fn from_u128(value: u128) -> (id: Self)
        ensures
            id.spec_value() == value,
    {
        ChallengeId { value }
    }

    /// The 128-bit value of this identifier.
    pub fn as_u128(&self) -> (v: u128)
        ensures
            v == self.spec_value(),
    {
        self.value
    }

    /// The hyphenated UUID text of this identifier.
    pub fn to_text(&self) -> (s: String)
        ensures
            s@ == uuid_text(self.spec_value()),
    {
        uuid_string(self.value)
    }
}

/// Identifier of a scene.
#[derive(Debug, Clone, Copy, PartialEq, Eq, Structural, Hash, PartialOrd, Ord)]
pub struct SceneId {
    value: u128,
}

impl SceneId {
    /// The 128-bit value of this identifier.
    pub closed spec fn spec_value(&self) -> u128 {
        self.value
    }

    /// A fresh random identifier.
    pub fn new() -> (id: Self)
        ensures
            is_random_uuid(id.spec_value()),
    {
        SceneId { value: random_uuid_value() }
    }

    /// The identifier with the given 128-bit value.
    pub fn from_u128(value: u128) -> (id: Self)
        ensures
            id.spec_value() == value,
    {
        SceneId { value }
    }

    /// The 128-bit value of this identifier.
    pub fn as_u128(&self) -> (v: u128)
        ensures
            v == self.spec_value(),
    {
        self.value
    }

    /// The hyphenated UUID text of this identifier.
    pub fn to_text(&self) -> (s: String)
        ensures
            s@ == uuid_text(self.spec_value()),
    {
        uuid_string(self.value)
    }
}

/// Identifier of a location.
#[derive(Debug, Clone, Copy, PartialEq, Eq, Structural, Hash, PartialOrd, Ord)]
pub struct LocationId {
    value: u128,
}

impl LocationId {
    /// The 128-bit value of this identifier.
    pub closed spec fn spec_value(&self) -> u128 {
        self.value
    }

    /// A fresh random identifier.
    pub fn new() -> (id: Self)
        ensures
            is_random_uuid(id.spec_value()),
    {
        LocationId { value: random_uuid_value() }
    }

    /// The identifier with the given 128-bit value.
    pub fn from_u128(value: u128) -> (id: Self)
        ensures
            id.spec_value() == value,
    {
        LocationId { value }
    }

    /// The 128-bit value of this identifier.
    pub fn as_u128(&self) -> (v: u128)
        ensures
            v == self.spec_value(),
    {
        self.value
    }

    /// The hyphenated UUID text of this identifier.
    pub fn to_text(&self) -> (s: String)
        ensures
            s@ == uuid_text(self.spec_value()),
    {
        uuid_string(self.value)
    }
}

/// Identifier of a region.
#[derive(Debug, Clone, Copy, PartialEq, Eq, Structural, Hash, PartialOrd, Ord)]
pub struct RegionId {
    value: u128,
}

impl RegionId {
    /// The 128-bit value of this identifier.
    pub closed spec fn spec_value(&self) -> u128 {
        self.value
    }

    /// A fresh random identifier.
    pub fn new() -> (id: Self)
        ensures
            is_random_uuid(id.spec_value()),
    {
        RegionId { value: random_uuid_value() }
    }

    /// The identifier with the given 128-bit value.
    pub fn from_u128(value: u128) -> (id: Self)
        ensures
            id.spec_value() == value,
    {
        RegionId { value }
    }

    /// The 128-bit value of this identifier.
    pub fn as_u128(&self) -> (v: u128)
        ensures
            v == self.spec_value(),
    {
        self.value
    }

    /// The hyphenated UUID text of this identifier.
    pub fn to_text(&self) -> (s: String)
        ensures
            s@ == uuid_text(self.spec_value()),
    {
        uuid_string(self.value)
    }
}

/// Identifier of a character (NPC).
#[derive(Debug, Clone, Copy, PartialEq, Eq, Structural, Hash, PartialOrd, Ord)]
pub struct CharacterId {
    value: u128,
}

impl CharacterId {
    /// The 128-bit value of this identifier.
    pub closed spec fn spec_value(&self) -> u128 {
        self.value
    }

    /// A fresh random identifier.
    pub fn new() -> (id: Self)
        ensures
            is_random_uuid(id.spec_value()),
    {
        CharacterId { value: random_uuid_value() }
    }

    /// The identifier with the given 128-bit value.
    pub fn from_u128(value: u128) -> (id: Self)
        ensures
            id.spec_value() == value,
    {
        CharacterId { value }
    }

    /// The 128-bit value of this identifier.
    pub fn as_u128(&self) -> (v: u128)
        ensures
            v == self.spec_value(),
    {
        self.value
    }

    /// The hyphenated UUID text of this identifier.
    pub fn to_text(&self) -> (s: String)
        ensures
            s@ == uuid_text(self.spec_value()),
    {
        uuid_string(self.value)
    }
}

/// Identifier of a narrative event.
#[derive(Debug, Clone, Copy, PartialEq, Eq, Structural, Hash, PartialOrd, Ord)]
pub struct NarrativeEventId {
    value: u128,
}

impl NarrativeEventId {
    /// The 128-bit value of this identifier.
    pub closed spec fn spec_value(&self) -> u128 {
        self.value
    }

    /// A fresh random identifier.
    pub fn new() -> (id: Self)
        ensures
            is_random_uuid(id.spec_value()),
    {
        NarrativeEventId { value: random_uuid_value() }
    }

    /// The identifier with the given 128-bit value.
    pub fn from_u128(value: u128) -> (id: Self)
        ensures
            id.spec_value() == value,
    {
        NarrativeEventId { value }
    }

    /// The 128-bit value of this identifier.
    pub fn as_u128(&self) -> (v: u128)
        ensures
            v == self.spec_value(),
    {
        self.value
    }

    /// The hyphenated UUID text of this identifier.
    pub fn to_text(&self) -> (s: String)
        ensures
            s@ == uuid_text(self.spec_value()),
    {
        uuid_string(self.value)
    }
}

/// Identifier of a lore chunk.
#[derive(Debug, Clone, Copy, PartialEq, Eq, Structural, Hash, PartialOrd, Ord)]
pub struct LoreChunkId {
    value: u128,
}

impl LoreChunkId {
    /// The 128-bit value of this identifier.
    pub closed spec fn spec_value(&self) -> u128 {
        self.value
    }

    /// A fresh random identifier.
    pub fn new() -> (id: Self)
        ensures
            is_random_uuid(id.spec_value()),
    {
        LoreChunkId { value: random_uuid_value() }
    }

    /// The identifier with the given 128-bit value.
    pub fn from_u128(value: u128) -> (id: Self)
        ensures
            id.spec_value() == value,
    {
        LoreChunkId { value }
    }

    /// The 128-bit value of this identifier.
    pub fn as_u128(&self) -> (v: u128)
        ensures
            v == self.spec_value(),
    {
        self.value
    }

    /// The hyphenated UUID text of this identifier.
    pub fn to_text(&self) -> (s: String)
        ensures
            s@ == uuid_text(self.spec_value()),
    {
        uuid_string(self.value)
    }
}

/// Identifier of an event chain.
#[derive(Debug, Clone, Copy, PartialEq, Eq, Structural, Hash, PartialOrd, Ord)]
pub struct EventChainId {
    value: u128,
}

impl EventChainId {
    /// The 128-bit value of this identifier.
    pub closed spec fn spec_value(&self) -> u128 {
        self.value
    }

    /// A fresh random identifier.
    pub fn new() -> (id: Self)
        ensures
            is_random_uuid(id.spec_value()),
    {
        EventChainId { value: random_uuid_value() }
    }

    /// The identifier with the given 128-bit value.
    pub fn from_u128(value: u128) -> (id: Self)
        ensures
            id.spec_value() == value,
    {
        EventChainId { value }
    }

    /// The 128-bit value of this identifier.
    pub fn as_u128(&self) -> (v: u128)
        ensures
            v == self.spec_value(),
    {
        self.value
    }

    /// The hyphenated UUID text of this identifier.
    pub fn to_text(&self) -> (s: String)
        ensures
            s@ == uuid_text(self.spec_value()),
    {
        uuid_string(self.value)
    }
}

/// Identifier of a player character.
#[derive(Debug, Clone, Copy, PartialEq, Eq, Structural, Hash, PartialOrd, Ord)]
pub struct PlayerCharacterId {
    value: u128,
}

impl PlayerCharacterId {
    /// The 128-bit value of this identifier.
    pub closed spec fn spec_value(&self) -> u128 {
        self.value
    }

    /// A fresh random identifier.
    pub fn new() -> (id: Self)
        ensures
            is_random_uuid(id.spec_value()),
    {
        PlayerCharacterId { value: random_uuid_value() }
    }

    /// The identifier with the given 128-bit value.
    pub fn from_u128(value: u128) -> (id: Self)
        ensures
            id.spec_value() == value,
    {
        PlayerCharacterId { value }
    }

    /// The 128-bit value of this identifier.
    pub fn as_u128(&self) -> (v: u128)
        ensures
            v == self.spec_value(),
    {
        self.value
    }

    /// The hyphenated UUID text of this identifier.
    pub fn to_text(&self) -> (s: String)
        ensures
            s@ == uuid_text(self.spec_value()),
    {
        uuid_string(self.value)
    }
}

/// Identifier of an act of a story.
#[derive(Debug, Clone, Copy, PartialEq, Eq, Structural, Hash, PartialOrd, Ord)]
pub struct ActId {
    value: u128,
}

impl ActId {
    /// The 128-bit value of this identifier.
    pub closed spec fn spec_value(&self) -> u128 {
        self.value
    }

    /// A fresh random identifier.
    pub fn new() -> (id: Self)
        ensures
            is_random_uuid(id.spec_value()),
    {
        ActId { value: random_uuid_value() }
    }

    /// The identifier with the given 128-bit value.
    pub fn from_u128(value: u128) -> (id: Self)
        ensures
            id.spec_value() == value,
    {
        ActId { value }
    }

    /// The 128-bit value of this identifier.
    pub fn as_u128(&self) -> (v: u128)
        ensures
            v == self.spec_value(),
    {
        self.value
    }

    /// The hyphenated UUID text of this identifier.
    pub fn to_text(&self) -> (s: String)
        ensures
            s@ == uuid_text(self.spec_value()),
    {
        uuid_string(self.value)
    }
}

/// Identifier of an item.
#[derive(Debug, Clone, Copy, PartialEq, Eq, Structural, Hash, PartialOrd, Ord)]
pub struct ItemId {
    value: u128,
}

impl ItemId {
    /// The 128-bit value of this identifier.
    pub closed spec fn spec_value(&self) -> u128 {
        self.value
    }

    /// A fresh random identifier.
    pub fn new() -> (id: Self)
        ensures
            is_random_uuid(id.spec_value()),
    {
        ItemId { value: random_uuid_value() }
    }

    /// The identifier with the given 128-bit value.
    pub fn from_u128(value: u128) -> (id: Self)
        ensures
            id.spec_value() == value,
    {
        ItemId { value }
    }

    /// The 128-bit value of this identifier.
    pub fn as_u128(&self) -> (v: u128)
        ensures
            v == self.spec_value(),
    {
        self.value
    }

    /// The hyphenated UUID text of this identifier.
    pub fn to_text(&self) -> (s: String)
        ensures
            s@ == uuid_text(self.spec_value()),
    {
        uuid_string(self.value)
    }
}

/// Identifier of a gallery asset.
#[derive(Debug, Clone, Copy, PartialEq, Eq, Structural, Hash, PartialOrd, Ord)]
pub struct AssetId {
    value: u128,
}

impl AssetId {
    /// The 128-bit value of this identifier.
    pub closed spec fn spec_value(&self) -> u128 {
        self.value
    }

    /// A fresh random identifier.
    pub fn new() -> (id: Self)
        ensures
            is_random_uuid(id.spec_value()),
    {
        AssetId { value: random_uuid_value() }
    }

    /// The identifier with the given 128-bit value.
    pub fn from_u128(value: u128) -> (id: Self)
        ensures
            id.spec_value() == value,
    {
        AssetId { value }
    }

    /// The 128-bit value of this identifier.
    pub fn as_u128(&self) -> (v: u128)
        ensures
            v == self.spec_value(),
    {
        self.value
    }

    /// The hyphenated UUID text of this identifier.
    pub fn to_text(&self) -> (s: String)
        ensures
            s@ == uuid_text(self.spec_value()),
    {
        uuid_string(self.value)
    }
}

/// Identifier of a location state.
#[derive(Debug, Clone, Copy, PartialEq, Eq, Structural, Hash, PartialOrd, Ord)]
pub struct LocationStateId {
    value: u128,
}

impl LocationStateId {
    /// The 128-bit value of this identifier.
    pub closed spec fn spec_value(&self) -> u128 {
        self.value
    }

    /// A fresh random identifier.
    pub fn new() -> (id: Self)
        ensures
            is_random_uuid(id.spec_value()),
    {
        LocationStateId { value: random_uuid_value() }
    }

    /// The identifier with the given 128-bit value.
    pub fn from_u128(value: u128) -> (id: Self)
        ensures
            id.spec_value() == value,
    {
        LocationStateId { value }
    }

    /// The 128-bit value of this identifier.
    pub fn as_u128(&self) -> (v: u128)
        ensures
            v == self.spec_value(),
    {
        self.value
    }

    /// The hyphenated UUID text of this identifier.
    pub fn to_text(&self) -> (s: String)
        ensures
            s@ == uuid_text(self.spec_value()),
    {
        uuid_string(self.value)
    }
}

/// Identifier of a lore entry.
#[derive(Debug, Clone, Copy, PartialEq, Eq, Structural, Hash, PartialOrd, Ord)]
pub struct LoreId {
    value: u128,
}

impl LoreId {
    /// The 128-bit value of this identifier.
    pub closed spec fn spec_value(&self) -> u128 {
        self.value
    }

    /// A fresh random identifier.
    pub fn new() -> (id: Self)
        ensures
            is_random_uuid(id.spec_value()),
    {
        LoreId { value: random_uuid_value() }
    }

    /// The identifier with the given 128-bit value.
    pub fn from_u128(value: u128) -> (id: Self)
        ensures
            id.spec_value() == value,
    {
        LoreId { value }
    }

    /// The 128-bit value of this identifier.
    pub fn as_u128(&self) -> (v: u128)
        ensures
            v == self.spec_value(),
    {
        self.value
    }

    /// The hyphenated UUID text of this identifier.
    pub fn to_text(&self) -> (s: String)
        ensures
            s@ == uuid_text(self.spec_value()),
    {
        uuid_string(self.value)
    }
}

/// Identifier of a want.
#[derive(Debug, Clone, Copy, PartialEq, Eq, Structural, Hash, PartialOrd, Ord)]
pub struct WantId {
    value: u128,
}

impl WantId {
    /// The 128-bit value of this identifier.
    pub closed spec fn spec_value(&self) -> u128 {
        self.value
    }

    /// A fresh random identifier.
    pub fn new() -> (id: Self)
        ensures
            is_random_uuid(id.spec_value()),
    {
        WantId { value: random_uuid_value() }
    }

    /// The identifier with the given 128-bit value.
    pub fn from_u128(value: u128) -> (id: Self)
        ensures
            id.spec_value() == value,
    {
        WantId { value }
    }

    /// The 128-bit value of this identifier.
    pub fn as_u128(&self) -> (v: u128)
        ensures
            v == self.spec_value(),
    {
        self.value
    }

    /// The hyphenated UUID text of this identifier.
    pub fn to_text(&self) -> (s: String)
        ensures
            s@ == uuid_text(self.spec_value()),
    {
        uuid_string(self.value)
    }
}

/// Identifier of a region state.
#[derive(Debug, Clone, Copy, PartialEq, Eq, Structural, Hash, PartialOrd, Ord)]
pub struct RegionStateId {
    value: u128,
}

impl RegionStateId {
    /// The 128-bit value of this identifier.
    pub closed spec fn spec_value(&self) -> u128 {
        self.value
    }

    /// A fresh random identifier.
    pub fn new() -> (id: Self)
        ensures
            is_random_uuid(id.spec_value()),
    {
        RegionStateId { value: random_uuid_value() }
    }

    /// The identifier with the given 128-bit value.
    pub fn from_u128(value: u128) -> (id: Self)
        ensures
            id.spec_value() == value,
    {
        RegionStateId { value }
    }

    /// The 128-bit value of this identifier.
    pub fn as_u128(&self) -> (v: u128)
        ensures
            v == self.spec_value(),
    {
        self.value
    }

    /// The hyphenated UUID text of this identifier.
    pub fn to_text(&self) -> (s: String)
        ensures
            s@ == uuid_text(self.spec_value()),
    {
        uuid_string(self.value)
    }
}

/// Identifier of a goal.
#[derive(Debug, Clone, Copy, PartialEq, Eq, Structural, Hash, PartialOrd, Ord)]
pub struct GoalId {
    value: u128,
}

impl GoalId {
    /// The 128-bit value of this identifier.
    pub closed spec fn spec_value(&self) -> u128 {
        self.value
    }

    /// A fresh random identifier.
    pub fn new() -> (id: Self)
        ensures
            is_random_uuid(id.spec_value()),
    {
        GoalId { value: random_uuid_value() }
    }

    /// The identifier with the given 128-bit value.
    pub fn from_u128(value: u128) -> (id: Self)
        ensures
            id.spec_value() == value,
    {
        GoalId { value }
    }

    /// The 128-bit value of this identifier.
    pub fn as_u128(&self) -> (v: u128)
        ensures
            v == self.spec_value(),
    {
        self.value
    }

    /// The hyphenated UUID text of this identifier.
    pub fn to_text(&self) -> (s: String)
        ensures
            s@ == uuid_text(self.spec_value()),
    {
        uuid_string(self.value)
    }
}

/// Identifier of a generation batch.
#[derive(Debug, Clone, Copy, PartialEq, Eq, Structural, Hash, PartialOrd, Ord)]
pub struct BatchId {
    value: u128,
}

impl BatchId {
    /// The 128-bit value of this identifier.
    pub closed spec fn spec_value(&self) -> u128 {
        self.value
    }

    /// A fresh random identifier.
    pub fn new() -> (id: Self)
        ensures
            is_random_uuid(id.spec_value()),
    {
        BatchId { value: random_uuid_value() }
    }

    /// The identifier with the given 128-bit value.
    pub fn from_u128(value: u128) -> (id: Self)
        ensures
            id.spec_value() == value,
    {
        BatchId { value }
    }

    /// The 128-bit value of this identifier.
    pub fn as_u128(&self) -> (v: u128)
        ensures
            v == self.spec_value(),
    {
        self.value
    }

    /// The hyphenated UUID text of this identifier.
    pub fn to_text(&self) -> (s: String)
        ensures
            s@ == uuid_text(self.spec_value()),
    {
        uuid_string(self.value)
    }
}

/// Identifier of a grid map.
#[derive(Debug, Clone, Copy, PartialEq, Eq, Structural, Hash, PartialOrd, Ord)]
pub struct GridMapId {
    value: u128,
}

impl GridMapId {
    /// The 128-bit value of this identifier.
    pub closed spec fn spec_value(&self) -> u128 {
        self.value
    }

    /// A fresh random identifier.
    pub fn new() -> (id: Self)
        ensures
            is_random_uuid(id.spec_value()),
    {
        GridMapId { value: random_uuid_value() }
    }

    /// The identifier with the given 128-bit value.
    pub fn from_u128(value: u128) -> (id: Self)
        ensures
            id.spec_value() == value,
    {
        GridMapId { value }
    }

    /// The 128-bit value of this identifier.
    pub fn as_u128(&self) -> (v: u128)
        ensures
            v == self.spec_value(),
    {
        self.value
    }

    /// The hyphenated UUID text of this identifier.
    pub fn to_text(&self) -> (s: String)
        ensures
            s@ == uuid_text(self.spec_value()),
    {
        uuid_string(self.value)
    }
}

/// Identifier of a workflow configuration.
#[derive(Debug, Clone, Copy, PartialEq, Eq, Structural, Hash, PartialOrd, Ord)]
pub struct WorkflowConfigId {
    value: u128,
}

impl WorkflowConfigId {
    /// The 128-bit value of this identifier.
    pub closed spec fn spec_value(&self) -> u128 {
        self.value
    }

    /// A fresh random identifier.
    pub fn new() -> (id: Self)
        ensures
            is_random_uuid(id.spec_value()),
    {
        WorkflowConfigId { value: random_uuid_value() }
    }

    /// The identifier with the given 128-bit value.
    pub fn from_u128(value: u128) -> (id: Self)
        ensures
            id.spec_value() == value,
    {
        WorkflowConfigId { value }
    }

    /// The 128-bit value of this identifier.
    pub fn as_u128(&self) -> (v: u128)
        ensures
            v == self.spec_value(),
    {
        self.value
    }

    /// The hyphenated UUID text of this identifier.
    pub fn to_text(&self) -> (s: String)
        ensures
            s@ == uuid_text(self.spec_value()),
    {
        uuid_string(self.value)
    }
}

/// Identifier of a story event.
#[derive(Debug, Clone, Copy, PartialEq, Eq, Structural, Hash, PartialOrd, Ord)]
pub struct StoryEventId {
    value: u128,
}

impl StoryEventId {
    /// The 128-bit value of this identifier.
    pub closed spec fn spec_value(&self) -> u128 {
        self.value
    }

    /// A fresh random identifier.
    pub fn new() -> (id: Self)
        ensures
            is_random_uuid(id.spec_value()),
    {
        StoryEventId { value: random_uuid_value() }
    }

    /// The identifier with the given 128-bit value.
    pub fn from_u128(value: u128) -> (id: Self)
        ensures
            id.spec_value() == value,
    {
        StoryEventId { value }
    }

    /// The 128-bit value of this identifier.
    pub fn as_u128(&self) -> (v: u128)
        ensures
            v == self.spec_value(),
    {
        self.value
    }

    /// The hyphenated UUID text of this identifier.
    pub fn to_text(&self) -> (s: String)
        ensures
            s@ == uuid_text(self.spec_value()),
    {
        uuid_string(self.value)
    }
}

/// Identifier of a staging.
#[derive(Debug, Clone, Copy, PartialEq, Eq, Structural, Hash, PartialOrd, Ord)]
pub struct StagingId {
    value: u128,
}

impl StagingId {
    /// The 128-bit value of this identifier.
    pub closed spec fn spec_value(&self) -> u128 {
        self.value
    }

    /// A fresh random identifier.
    pub fn new() -> (id: Self)
        ensures
            is_random_uuid(id.spec_value()),
    {
        StagingId { value: random_uuid_value() }
    }

    /// The identifier with the given 128-bit value.
    pub fn from_u128(value: u128) -> (id: Self)
        ensures
            id.spec_value() == value,
    {
        StagingId { value }
    }

    /// The 128-bit value of this identifier.
    pub fn as_u128(&self) -> (v: u128)
        ensures
            v == self.spec_value(),
    {
        self.value
    }

    /// The hyphenated UUID text of this identifier.
    pub fn to_text(&self) -> (s: String)
        ensures
            s@ == uuid_text(self.spec_value()),
    {
        uuid_string(self.value)
    }
}

/// Identifier of a skill.
#[derive(Debug, Clone, Copy, PartialEq, Eq, Structural, Hash, PartialOrd, Ord)]
pub struct SkillId {
    value: u128,
}

impl SkillId {
    /// The 128-bit value of this identifier.
    pub closed spec fn spec_value(&self) -> u128 {
        self.value
    }

    /// A fresh random identifier.
    pub fn new() -> (id: Self)
        ensures
            is_random_uuid(id.spec_value()),
    {
        SkillId { value: random_uuid_value() }
    }

    /// The identifier with the given 128-bit value.
    pub fn from_u128(value: u128) -> (id: Self)
        ensures
            id.spec_value() == value,
    {
        SkillId { value }
    }

    /// The 128-bit value of this identifier.
    pub fn as_u128(&self) -> (v: u128)
        ensures
            v == self.spec_value(),
    {
        self.value
    }

    /// The hyphenated UUID text of this identifier.
    pub fn to_text(&self) -> (s: String)
        ensures
            s@ == uuid_text(self.spec_value()),
    {
        uuid_string(self.value)
    }
}

/// Identifier of an interaction.
#[derive(Debug, Clone, Copy, PartialEq, Eq, Structural, Hash, PartialOrd, Ord)]
pub struct InteractionId {
    value: u128,
}

impl InteractionId {
    /// The 128-bit value of this identifier.
    pub closed spec fn spec_value(&self) -> u128 {
        self.value
    }

    /// A fresh random identifier.
    pub fn new() -> (id: Self)
        ensures
            is_random_uuid(id.spec_value()),
    {
        InteractionId { value: random_uuid_value() }
    }

    /// The identifier with the given 128-bit value.
    pub fn from_u128(value: u128) -> (id: Self)
        ensures
            id.spec_value() == value,
    {
        InteractionId { value }
    }

    /// The 128-bit value of this identifier.
    pub fn as_u128(&self) -> (v: u128)
        ensures
            v == self.spec_value(),
    {
        self.value
    }

    /// The hyphenated UUID text of this identifier.
    pub fn to_text(&self) -> (s: String)
        ensures
            s@ == uuid_text(self.spec_value()),
    {
        uuid_string(self.value)
    }
}

} // verus!
