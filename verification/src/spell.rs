//! Spells: a system-agnostic representation of spells and their parts.

use crate::tag::Tag;
use vstd::prelude::*;

verus! {

/// A spell or magical ability.
#[derive(Debug, Clone, PartialEq)]
pub struct Spell {
    /// Unique identifier for this spell.
    pub id: String,
    /// Game system this spell belongs to (e.g. "dnd5e").
    pub system_id: String,
    /// Display name.
    pub name: String,
    /// Spell level (cantrip = 0 for D&D-like systems).
    pub level: SpellLevel,
    /// School of magic.
    pub school: Option<String>,
    /// How long it takes to cast.
    pub casting_time: CastingTime,
    /// Range of the spell.
    pub range: SpellRange,
    /// Required components.
    pub components: SpellComponents,
    /// How long the spell lasts.
    pub duration: SpellDuration,
    /// Full description of the spell's effects.
    pub description: String,
    /// Effects when cast at higher levels.
    pub higher_levels: Option<String>,
    /// Classes that can learn this spell.
    pub classes: Vec<String>,
    /// Source book reference.
    pub source: String,
    /// Tags for filtering.
    pub tags: Vec<Tag>,
    /// Whether the spell can be cast as a ritual.
    pub ritual: bool,
    /// Whether the spell requires concentration.
    pub concentration: bool,
}

impl Spell {
    /// A spell with the required fields; no school or higher-level text, no
    /// tags, neither ritual nor concentration.
    pub fn new(
        id: &str,
        system_id: &str,
        name: &str,
        level: SpellLevel,
        casting_time: CastingTime,
        range: SpellRange,
        components: SpellComponents,
        duration: SpellDuration,
        description: &str,
        classes: Vec<String>,
        source: &str,
    ) -> (s: Self)
        ensures
            s.id@ == id@,
            s.system_id@ == system_id@,
            s.name@ == name@,
            s.level == level,
            s.school is None,
            s.casting_time == casting_time,
            s.range == range,
            s.components == components,
            s.duration == duration,
            s.description@ == description@,
            s.higher_levels is None,
            s.classes == classes,
            s.source@ == source@,
            s.tags@.len() == 0,
            !s.ritual,
            !s.concentration,
    {
        Spell {
            id: id.to_owned(),
            system_id: system_id.to_owned(),
            name: name.to_owned(),
            level,
            school: None,
            casting_time,
            range,
            components,
            duration,
            description: description.to_owned(),
            higher_levels: None,
            classes,
            source: source.to_owned(),
            tags: Vec::new(),
            ritual: false,
            concentration: false,
        }
    }

    /// A spell from all of its stored fields.
    pub fn from_storage(
        id: &str,
        system_id: &str,
        name: &str,
        level: SpellLevel,
        school: Option<String>,
        casting_time: CastingTime,
        range: SpellRange,
        components: SpellComponents,
        duration: SpellDuration,
        description: &str,
        higher_levels: Option<String>,
        classes: Vec<String>,
        source: &str,
        tags: Vec<Tag>,
        ritual: bool,
        concentration: bool,
    ) -> (s: Self)
        ensures
            s.id@ == id@,
            s.system_id@ == system_id@,
            s.name@ == name@,
            s.level == level,
            s.school == school,
            s.casting_time == casting_time,
            s.range == range,
            s.components == components,
            s.duration == duration,
            s.description@ == description@,
            s.higher_levels == higher_levels,
            s.classes == classes,
            s.source@ == source@,
            s.tags == tags,
            s.ritual == ritual,
            s.concentration == concentration,
    {
        Spell {
            id: id.to_owned(),
            system_id: system_id.to_owned(),
            name: name.to_owned(),
            level,
            school,
            casting_time,
            range,
            components,
            duration,
            description: description.to_owned(),
            higher_levels,
            classes,
            source: source.to_owned(),
            tags,
            ritual,
            concentration,
        }
    }

    /// A spell from all of its parts (same as `from_storage`).
    pub fn from_parts(
        id: &str,
        system_id: &str,
        name: &str,
        level: SpellLevel,
        school: Option<String>,
        casting_time: CastingTime,
        range: SpellRange,
        components: SpellComponents,
        duration: SpellDuration,
        description: &str,
        higher_levels: Option<String>,
        classes: Vec<String>,
        source: &str,
        tags: Vec<Tag>,
        ritual: bool,
        concentration: bool,
    ) -> (s: Self)
        ensures
            s.id@ == id@,
            s.system_id@ == system_id@,
            s.name@ == name@,
            s.level == level,
            s.school == school,
            s.casting_time == casting_time,
            s.range == range,
            s.components == components,
            s.duration == duration,
            s.description@ == description@,
            s.higher_levels == higher_levels,
            s.classes == classes,
            s.source@ == source@,
            s.tags == tags,
            s.ritual == ritual,
            s.concentration == concentration,
    {
        Spell::from_storage(
            id,
            system_id,
            name,
            level,
            school,
            casting_time,
            range,
            components,
            duration,
            description,
            higher_levels,
            classes,
            source,
            tags,
            ritual,
            concentration,
        )
    }
}

/// Spell level.
#[derive(Debug, Clone, Copy, PartialEq, Eq, Structural, Hash)]
pub enum SpellLevel {
    /// Cantrip (level 0, cast at will).
    Cantrip,
    /// Leveled spell (1-9 for D&D-like systems).
    Level(u8),
}

impl SpellLevel {
    /// Numeric level (cantrip = 0).
    pub fn as_number(&self) -> (n: u8)
        ensures
            n == match self {
                SpellLevel::Cantrip => 0u8,
                SpellLevel::Level(n) => *n,
            },
    {
        match self {
            SpellLevel::Cantrip => 0,
            SpellLevel::Level(n) => *n,
        }
    }

    /// Whether this is a cantrip.
    pub fn is_cantrip(&self) -> (b: bool)
        ensures
            b == (*self == SpellLevel::Cantrip),
    {
        match self {
            SpellLevel::Cantrip => true,
            _ => false,
        }
    }
}

impl From<u8> for SpellLevel {
    fn from(level: u8) -> (l: Self) {
        if level == 0 {
            SpellLevel::Cantrip
        } else {
            SpellLevel::Level(level)
        }
    }
}

impl vstd::std_specs::convert::FromSpecImpl<u8> for SpellLevel {
    open spec fn obeys_from_spec() -> bool {
        true
    }

    /// Level 0 is a cantrip; any other number is that level.
    open spec fn from_spec(level: u8) -> SpellLevel {
        if level == 0 {
            SpellLevel::Cantrip
        } else {
            SpellLevel::Level(level)
        }
    }
}

/// Unit of time for casting.
#[derive(Debug, Clone, Copy, PartialEq, Eq, Structural)]
pub enum CastingTimeUnit {
    Action,
    BonusAction,
    Reaction,
    Minute,
    Hour,
    /// Special timing (e.g. "see text").
    Special,
}

/// How long it takes to cast a spell.
#[derive(Debug, Clone, PartialEq, Eq)]
pub struct CastingTime {
    /// The amount of time.
    pub amount: u32,
    /// The unit of time.
    pub unit: CastingTimeUnit,
    /// Additional condition (e.g. "which you take when..." for reactions).
    pub condition: Option<String>,
}

impl CastingTime {
    /// A casting time without a condition.
    pub fn new(amount: u32, unit: CastingTimeUnit) -> (t: Self)
        ensures
            t == (CastingTime { amount, unit, condition: None }),
    {
        CastingTime { amount, unit, condition: None }
    }

    /// This casting time with a condition.
    pub fn with_condition(self, condition: &str) -> (t: Self)
        ensures
            t.amount == self.amount,
            t.unit == self.unit,
            t.condition matches Some(c) && c@ == condition@,
    {
        CastingTime { amount: self.amount, unit: self.unit, condition: Some(condition.to_owned()) }
    }

    /// One action.
    pub fn action() -> (t: Self)
        ensures
            t == (CastingTime { amount: 1, unit: CastingTimeUnit::Action, condition: None }),
    {
        CastingTime { amount: 1, unit: CastingTimeUnit::Action, condition: None }
    }

    /// One bonus action.
    pub fn bonus_action() -> (t: Self)
        ensures
            t == (CastingTime { amount: 1, unit: CastingTimeUnit::BonusAction, condition: None }),
    {
        CastingTime { amount: 1, unit: CastingTimeUnit::BonusAction, condition: None }
    }

    /// One reaction, with an optional condition.
    pub fn reaction(condition: Option<String>) -> (t: Self)
        ensures
            t == (CastingTime { amount: 1, unit: CastingTimeUnit::Reaction, condition }),
    {
        CastingTime { amount: 1, unit: CastingTimeUnit::Reaction, condition }
    }

    /// A number of minutes.
    pub fn minutes(amount: u32) -> (t: Self)
        ensures
            t == (CastingTime { amount, unit: CastingTimeUnit::Minute, condition: None }),
    {
        CastingTime { amount, unit: CastingTimeUnit::Minute, condition: None }
    }

    /// A number of hours.
    pub fn hours(amount: u32) -> (t: Self)
        ensures
            t == (CastingTime { amount, unit: CastingTimeUnit::Hour, condition: None }),
    {
        CastingTime { amount, unit: CastingTimeUnit::Hour, condition: None }
    }
}

/// Range of a spell.
#[derive(Debug, Clone, PartialEq, Eq)]
pub enum SpellRange {
    /// Affects only the caster, with an optional area (e.g. "15-foot cone").
    SelfOnly { area: Option<String> },
    /// Touch range.
    Touch,
    /// A distance in feet.
    Feet { distance: u32 },
    /// A distance in miles.
    Miles { distance: u32 },
    /// Unlimited range (same plane).
    Unlimited,
    /// Sight range.
    Sight,
    /// Special range (see description).
    Special { description: String },
}

impl SpellRange {
    /// The caster only.
    pub fn self_only() -> (r: Self)
        ensures
            r == (SpellRange::SelfOnly { area: None }),
    {
        SpellRange::SelfOnly { area: None }
    }

    /// The caster, with an area of effect.
    pub fn self_with_area(area: &str) -> (r: Self)
        ensures
            r matches SpellRange::SelfOnly { area: Some(a) } && a@ == area@,
    {
        SpellRange::SelfOnly { area: Some(area.to_owned()) }
    }

    /// Touch range.
    pub fn touch() -> (r: Self)
        ensures
            r == SpellRange::Touch,
    {
        SpellRange::Touch
    }

    /// A distance in feet.
    pub fn feet(distance: u32) -> (r: Self)
        ensures
            r == (SpellRange::Feet { distance }),
    {
        SpellRange::Feet { distance }
    }
}

/// Material component of a spell.
#[derive(Debug, Clone, PartialEq, Eq)]
pub struct MaterialComponent {
    /// Description of the material.
    pub description: String,
    /// Whether the spell consumes the material.
    pub consumed: bool,
    /// Cost in gold pieces, if any.
    pub cost: Option<u32>,
}

impl MaterialComponent {
    /// A material that is neither consumed nor priced.
    pub fn new(description: &str) -> (m: Self)
        ensures
            m.description@ == description@,
            !m.consumed,
            m.cost is None,
    {
        MaterialComponent { description: description.to_owned(), consumed: false, cost: None }
    }

    /// This material, consumed or not.
    pub fn with_consumed(self, consumed: bool) -> (m: Self)
        ensures
            m == (MaterialComponent { consumed, ..self }),
    {
        MaterialComponent { consumed, ..self }
    }

    /// This material with a cost in gold pieces.
    pub fn with_cost(self, cost: u32) -> (m: Self)
        ensures
            m == (MaterialComponent { cost: Some(cost), ..self }),
    {
        MaterialComponent { cost: Some(cost), ..self }
    }
}

/// Spell components (what is required to cast).
#[derive(Debug, Clone, Default, PartialEq, Eq)]
pub struct SpellComponents {
    /// Requires a verbal component.
    pub verbal: bool,
    /// Requires a somatic component.
    pub somatic: bool,
    /// Material component details.
    pub material: Option<MaterialComponent>,
}

impl SpellComponents {
    /// No components.
    pub fn new() -> (c: Self)
        ensures
            c == (SpellComponents { verbal: false, somatic: false, material: None }),
    {
        SpellComponents { verbal: false, somatic: false, material: None }
    }

    /// These components with the verbal requirement set.
    pub fn with_verbal(self, verbal: bool) -> (c: Self)
        ensures
            c == (SpellComponents { verbal, ..self }),
    {
        SpellComponents { verbal, ..self }
    }

    /// These components with the somatic requirement set.
    pub fn with_somatic(self, somatic: bool) -> (c: Self)
        ensures
            c == (SpellComponents { somatic, ..self }),
    {
        SpellComponents { somatic, ..self }
    }

    /// These components with a material component.
    pub fn with_material(self, material: MaterialComponent) -> (c: Self)
        ensures
            c == (SpellComponents { material: Some(material), ..self }),
    {
        SpellComponents { material: Some(material), ..self }
    }

    /// Verbal only.
    pub fn verbal_only() -> (c: Self)
        ensures
            c == (SpellComponents { verbal: true, somatic: false, material: None }),
    {
        SpellComponents { verbal: true, somatic: false, material: None }
    }

    /// Verbal and somatic.
    pub fn verbal_somatic() -> (c: Self)
        ensures
            c == (SpellComponents { verbal: true, somatic: true, material: None }),
    {
        SpellComponents { verbal: true, somatic: true, material: None }
    }

    /// Verbal, somatic and the given material.
    pub fn all(material: &str) -> (c: Self)
        ensures
            c.verbal,
            c.somatic,
            c.material matches Some(m) && m.description@ == material@ && !m.consumed
                && m.cost is None,
    {
        SpellComponents {
            verbal: true,
            somatic: true,
            material: Some(MaterialComponent::new(material)),
        }
    }
}

/// Unit of time for durations.
#[derive(Debug, Clone, Copy, PartialEq, Eq, Structural)]
pub enum DurationUnit {
    Round,
    Minute,
    Hour,
    Day,
}

/// How long a spell's effects last.
#[derive(Debug, Clone, PartialEq, Eq)]
pub enum SpellDuration {
    /// The effect happens instantly.
    Instantaneous,
    /// Lasts a number of time units, possibly with concentration.
    Timed { amount: u32, unit: DurationUnit, concentration: bool },
    /// Until dispelled, or an optional triggering condition.
    UntilDispelled { trigger: Option<String> },
    /// Special duration (see description).
    Special { description: String },
}

impl SpellDuration {
    /// Instantaneous.
    pub fn instantaneous() -> (d: Self)
        ensures
            d == SpellDuration::Instantaneous,
    {
        SpellDuration::Instantaneous
    }

    /// A number of rounds.
    pub fn rounds(amount: u32) -> (d: Self)
        ensures
            d == (SpellDuration::Timed { amount, unit: DurationUnit::Round, concentration: false }),
    {
        SpellDuration::Timed { amount, unit: DurationUnit::Round, concentration: false }
    }

    /// A number of minutes.
    pub fn minutes(amount: u32) -> (d: Self)
        ensures
            d == (SpellDuration::Timed { amount, unit: DurationUnit::Minute, concentration: false }),
    {
        SpellDuration::Timed { amount, unit: DurationUnit::Minute, concentration: false }
    }

    /// A number of hours.
    pub fn hours(amount: u32) -> (d: Self)
        ensures
            d == (SpellDuration::Timed { amount, unit: DurationUnit::Hour, concentration: false }),
    {
        SpellDuration::Timed { amount, unit: DurationUnit::Hour, concentration: false }
    }

    /// A number of minutes, with concentration.
    pub fn concentration_minutes(amount: u32) -> (d: Self)
        ensures
            d == (SpellDuration::Timed { amount, unit: DurationUnit::Minute, concentration: true }),
    {
        SpellDuration::Timed { amount, unit: DurationUnit::Minute, concentration: true }
    }

    /// A number of hours, with concentration.
    pub fn concentration_hours(amount: u32) -> (d: Self)
        ensures
            d == (SpellDuration::Timed { amount, unit: DurationUnit::Hour, concentration: true }),
    {
        SpellDuration::Timed { amount, unit: DurationUnit::Hour, concentration: true }
    }
}

} // verus!
