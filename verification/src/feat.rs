//! Feats, their prerequisites and benefits, and limited-use formulas.

use crate::tag::Tag;
use vstd::prelude::*;

verus! {

/// A feat, talent, or special ability that a character can acquire.
#[derive(Debug, Clone, PartialEq)]
pub struct Feat {
    /// Unique identifier.
    pub id: String,
    /// Game system this feat belongs to.
    pub system_id: String,
    /// Display name.
    pub name: String,
    /// Full description.
    pub description: String,
    /// Requirements to take this feat.
    pub prerequisites: Vec<Prerequisite>,
    /// Mechanical benefits granted.
    pub benefits: Vec<FeatBenefit>,
    /// Source book reference.
    pub source: String,
    /// Category (system-specific, e.g. "general", "combat").
    pub category: Option<String>,
    /// Whether the feat can be taken several times.
    pub repeatable: bool,
    /// Tags for filtering.
    pub tags: Vec<Tag>,
}

impl Feat {
    /// A feat with the required fields; no prerequisites, benefits, category
    /// or tags, not repeatable.
    pub fn new(id: &str, system_id: &str, name: &str, description: &str, source: &str) -> (f: Self)
        ensures
            f.id@ == id@,
            f.system_id@ == system_id@,
            f.name@ == name@,
            f.description@ == description@,
            f.prerequisites@.len() == 0,
            f.benefits@.len() == 0,
            f.source@ == source@,
            f.category is None,
            !f.repeatable,
            f.tags@.len() == 0,
    {
        Feat {
            id: id.to_owned(),
            system_id: system_id.to_owned(),
            name: name.to_owned(),
            description: description.to_owned(),
            prerequisites: Vec::new(),
            benefits: Vec::new(),
            source: source.to_owned(),
            category: None,
            repeatable: false,
            tags: Vec::new(),
        }
    }

    /// A feat from its stored parts.
    pub fn from_parts(
        id: String,
        system_id: String,
        name: String,
        description: String,
        prerequisites: Vec<Prerequisite>,
        benefits: Vec<FeatBenefit>,
        source: String,
        category: Option<String>,
        repeatable: bool,
        tags: Vec<Tag>,
    ) -> (f: Self)
        ensures
            f == (Feat {
                id,
                system_id,
                name,
                description,
                prerequisites,
                benefits,
                source,
                category,
                repeatable,
                tags,
            }),
    {
        Feat {
            id,
            system_id,
            name,
            description,
            prerequisites,
            benefits,
            source,
            category,
            repeatable,
            tags,
        }
    }
}

/// A prerequisite for acquiring a feat.
#[derive(Debug, PartialEq, Eq)]
pub enum Prerequisite {
    /// Minimum ability score.
    MinStat { stat: String, value: i32 },
    /// Minimum character level.
    MinLevel { level: u8 },
    /// Must have another feat.
    HasFeat { feat_id: String, feat_name: Option<String> },
    /// Must have levels in a class (optionally a minimum).
    HasClass { class_id: String, class_name: Option<String>, min_level: Option<u8> },
    /// Must have a proficiency.
    HasProficiency { proficiency_type: String, proficiency: String },
    /// Must be a given race or ancestry.
    Race { race: String },
    /// Must be able to cast spells (optionally of a minimum level).
    Spellcaster { min_spell_level: Option<u8> },
    /// Free-form requirement.
    Custom { description: String },
    /// Any one of the listed prerequisites.
    AnyOf { options: Vec<Prerequisite> },
    /// All of the listed prerequisites.
    AllOf { requirements: Vec<Prerequisite> },
}

/// `r` is a copy of `s`: equal, except that nested lists are copied
/// element by element.
pub open spec fn copy_of(r: Prerequisite, s: Prerequisite) -> bool
    decreases s,
{
    match s {
        Prerequisite::AnyOf { options } => match r {
            Prerequisite::AnyOf { options: o } => o.len() == options.len() && forall|i: int|
                0 <= i < options.len() ==> copy_of(#[trigger] o[i], options[i]),
            _ => false,
        },
        Prerequisite::AllOf { requirements } => match r {
            Prerequisite::AllOf { requirements: q } => q.len() == requirements.len() && forall|
                i: int,
            |
                0 <= i < requirements.len() ==> copy_of(#[trigger] q[i], requirements[i]),
            _ => false,
        },
        _ => r == s,
    }
}

impl Prerequisite {
    /// A copy of this prerequisite, nested alternatives and requirements included.
    #[verifier::loop_isolation(false)]
    pub fn deep_copy(&self) -> (r: Self)
        ensures
            copy_of(r, *self),
        decreases self,
    {
        match self {
            Prerequisite::MinStat { stat, value } => Prerequisite::MinStat {
                stat: stat.clone(),
                value: *value,
            },
            Prerequisite::MinLevel { level } => Prerequisite::MinLevel { level: *level },
            Prerequisite::HasFeat { feat_id, feat_name } => Prerequisite::HasFeat {
                feat_id: feat_id.clone(),
                feat_name: copy_text(feat_name),
            },
            Prerequisite::HasClass { class_id, class_name, min_level } => Prerequisite::HasClass {
                class_id: class_id.clone(),
                class_name: copy_text(class_name),
                min_level: *min_level,
            },
            Prerequisite::HasProficiency { proficiency_type, proficiency } => {
                Prerequisite::HasProficiency {
                    proficiency_type: proficiency_type.clone(),
                    proficiency: proficiency.clone(),
                }
            },
            Prerequisite::Race { race } => Prerequisite::Race { race: race.clone() },
            Prerequisite::Spellcaster { min_spell_level } => Prerequisite::Spellcaster {
                min_spell_level: *min_spell_level,
            },
            Prerequisite::Custom { description } => Prerequisite::Custom {
                description: description.clone(),
            },
            Prerequisite::AnyOf { options } => {
                let mut out: Vec<Prerequisite> = Vec::new();
                for i in 0..options.len()
                    invariant
                        out@.len() == i,
                        i <= options@.len(),
                        forall|j: int| 0 <= j < i ==> copy_of(#[trigger] out@[j], options@[j]),
                {
                    proof {
                        assert(decreases_to!(*self => self->options));
                        assert(decreases_to!(self->options => options[i as int]));
                    }
                    out.push(options[i].deep_copy());
                }
                Prerequisite::AnyOf { options: out }
            },
            Prerequisite::AllOf { requirements } => {
                let mut out: Vec<Prerequisite> = Vec::new();
                for i in 0..requirements.len()
                    invariant
                        out@.len() == i,
                        i <= requirements@.len(),
                        forall|j: int| 0 <= j < i ==> copy_of(#[trigger] out@[j], requirements@[j]),
                {
                    proof {
                        assert(decreases_to!(*self => self->requirements));
                        assert(decreases_to!(self->requirements => requirements[i as int]));
                    }
                    out.push(requirements[i].deep_copy());
                }
                Prerequisite::AllOf { requirements: out }
            },
        }
    }

    /// Minimum value of a stat.
    pub fn min_stat(stat: &str, value: i32) -> (p: Self)
        ensures
            p matches Prerequisite::MinStat { stat: s, value: v } && s@ == stat@ && v == value,
    {
        Prerequisite::MinStat { stat: stat.to_owned(), value }
    }

    /// Minimum character level.
    pub fn min_level(level: u8) -> (p: Self)
        ensures
            p == (Prerequisite::MinLevel { level }),
    {
        Prerequisite::MinLevel { level }
    }

    /// Must have the given feat.
    pub fn has_feat(feat_id: &str) -> (p: Self)
        ensures
            p matches Prerequisite::HasFeat { feat_id: f, feat_name: None } && f@ == feat_id@,
    {
        Prerequisite::HasFeat { feat_id: feat_id.to_owned(), feat_name: None }
    }

    /// Must have levels in the given class.
    pub fn has_class(class_id: &str) -> (p: Self)
        ensures
            p matches Prerequisite::HasClass { class_id: c, class_name: None, min_level: None }
                && c@ == class_id@,
    {
        Prerequisite::HasClass { class_id: class_id.to_owned(), class_name: None, min_level: None }
    }

    /// A free-form requirement.
    pub fn custom(description: &str) -> (p: Self)
        ensures
            p matches Prerequisite::Custom { description: d } && d@ == description@,
    {
        Prerequisite::Custom { description: description.to_owned() }
    }
}

fn copy_text(o: &Option<String>) -> (r: Option<String>)
    ensures
        r == *o,
{
    match o {
        Some(s) => Some(s.clone()),
        None => None,
    }
}

impl Clone for Prerequisite {
    fn clone(&self) -> (r: Self)
        ensures
            copy_of(r, *self),
    {
        self.deep_copy()
    }
}

/// Formula for the number of uses of an ability.
#[derive(Debug, Clone, PartialEq, Eq)]
pub enum UsesFormula {
    /// A fixed number of uses.
    Fixed { value: u8 },
    /// Uses equal to the proficiency bonus.
    ProficiencyBonus,
    /// Uses equal to a stat modifier, at least `min`.
    StatModifier { stat: String, min: i32 },
    /// A custom expression.
    Formula { expression: String },
}

impl UsesFormula {
    /// A fixed number of uses.
    pub fn fixed(value: u8) -> (u: Self)
        ensures
            u == (UsesFormula::Fixed { value }),
    {
        UsesFormula::Fixed { value }
    }

    /// Uses equal to the proficiency bonus.
    pub fn proficiency_bonus() -> (u: Self)
        ensures
            u == UsesFormula::ProficiencyBonus,
    {
        UsesFormula::ProficiencyBonus
    }

    /// Uses equal to a stat modifier, at least 1.
    pub fn stat_modifier(stat: &str) -> (u: Self)
        ensures
            u matches UsesFormula::StatModifier { stat: s, min } && s@ == stat@ && min == 1,
    {
        UsesFormula::StatModifier { stat: stat.to_owned(), min: 1 }
    }
}

/// When ability uses are restored.
#[derive(Debug, Clone, Copy, PartialEq, Eq, Structural)]
pub enum RechargeType {
    ShortRest,
    LongRest,
    Dawn,
    /// Never restored automatically.
    Manual,
}

/// Limited uses of an ability granted by a feat.
#[derive(Debug, Clone, PartialEq, Eq)]
pub struct AbilityUses {
    /// Maximum uses.
    pub max: UsesFormula,
    /// When uses are restored.
    pub recharge: RechargeType,
}

impl AbilityUses {
    /// Uses with the given maximum and recharge.
    pub fn new(max: UsesFormula, recharge: RechargeType) -> (u: Self)
        ensures
            u == (AbilityUses { max, recharge }),
    {
        AbilityUses { max, recharge }
    }
}

/// A mechanical benefit granted by a feat.
#[derive(Debug, Clone, PartialEq, Eq)]
pub enum FeatBenefit {
    /// Increase an ability score.
    StatIncrease { stat: String, value: i32 },
    /// Choose `count` stats from the options to increase.
    StatChoice { options: Vec<String>, value: i32, count: u8 },
    /// Grant a proficiency.
    GrantProficiency { proficiency_type: String, proficiency: String },
    /// Choose `count` proficiencies from the options.
    ChooseProficiency { proficiency_type: String, options: Vec<String>, count: u8 },
    /// Grant a special ability, possibly with limited uses.
    GrantAbility { ability: String, description: String, uses: Option<AbilityUses> },
    /// Extra hit points, fixed and/or per level.
    BonusHitPoints { fixed: Option<i32>, per_level: Option<i32> },
    /// Increase a movement speed (in feet).
    SpeedIncrease { movement_type: String, value: u32 },
    /// Resistance to a damage type.
    DamageResistance { damage_type: String },
    /// Advantage on certain rolls.
    Advantage { on: String },
    /// Free-form benefit.
    Custom { description: String },
}

} // verus!
