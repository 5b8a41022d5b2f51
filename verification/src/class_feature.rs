//! Class features, racial traits and background features.

use crate::feat::{RechargeType, UsesFormula};
use crate::tag::Tag;
use vstd::prelude::*;

verus! {

/// Limited uses of a class feature.
#[derive(Debug, Clone, PartialEq, Eq)]
pub struct FeatureUses {
    /// How many uses the feature has.
    pub max: UsesFormula,
    /// When uses are restored.
    pub recharge: RechargeType,
}

impl FeatureUses {
    /// Uses with the given maximum and recharge.
    pub fn new(max: UsesFormula, recharge: RechargeType) -> (u: Self)
        ensures
            u == (FeatureUses { max, recharge }),
    {
        FeatureUses { max, recharge }
    }

    /// Uses restored on a short rest.
    pub fn short_rest(max: UsesFormula) -> (u: Self)
        ensures
            u == (FeatureUses { max, recharge: RechargeType::ShortRest }),
    {
        FeatureUses { max, recharge: RechargeType::ShortRest }
    }

    /// Uses restored on a long rest.
    pub fn long_rest(max: UsesFormula) -> (u: Self)
        ensures
            u == (FeatureUses { max, recharge: RechargeType::LongRest }),
    {
        FeatureUses { max, recharge: RechargeType::LongRest }
    }

    /// A fixed number of uses restored on a long rest.
    pub fn fixed_long_rest(value: u8) -> (u: Self)
        ensures
            u == (FeatureUses { max: UsesFormula::Fixed { value }, recharge: RechargeType::LongRest }),
    {
        FeatureUses { max: UsesFormula::Fixed { value }, recharge: RechargeType::LongRest }
    }

    /// Uses equal to the proficiency bonus, restored on a long rest.
    pub fn proficiency_long_rest() -> (u: Self)
        ensures
            u == (FeatureUses { max: UsesFormula::ProficiencyBonus, recharge: RechargeType::LongRest }),
    {
        FeatureUses { max: UsesFormula::ProficiencyBonus, recharge: RechargeType::LongRest }
    }
}

/// A feature gained from a class or subclass.
#[derive(Debug, Clone, PartialEq)]
pub struct ClassFeature {
    pub id: String,
    pub system_id: String,
    /// Class that grants this feature.
    pub class_id: String,
    /// Subclass, if this is a subclass feature.
    pub subclass_id: Option<String>,
    pub name: String,
    /// Level at which the feature is gained.
    pub level: u8,
    pub description: String,
    /// Limited uses, if any.
    pub uses: Option<FeatureUses>,
    pub source: String,
    /// Whether the feature grants choices.
    pub has_choices: bool,
    pub tags: Vec<Tag>,
}

impl ClassFeature {
    /// A class feature with the required fields; no subclass, uses, choices or tags.
    pub fn new(
        id: &str,
        system_id: &str,
        class_id: &str,
        name: &str,
        level: u8,
        description: &str,
        source: &str,
    ) -> (f: Self)
        ensures
            f.id@ == id@,
            f.system_id@ == system_id@,
            f.class_id@ == class_id@,
            f.subclass_id is None,
            f.name@ == name@,
            f.level == level,
            f.description@ == description@,
            f.uses is None,
            f.source@ == source@,
            !f.has_choices,
            f.tags@.len() == 0,
    {
        ClassFeature {
            id: id.to_owned(),
            system_id: system_id.to_owned(),
            class_id: class_id.to_owned(),
            subclass_id: None,
            name: name.to_owned(),
            level,
            description: description.to_owned(),
            uses: None,
            source: source.to_owned(),
            has_choices: false,
            tags: Vec::new(),
        }
    }
}

/// A racial trait or ancestry feature.
#[derive(Debug, Clone, PartialEq)]
pub struct RacialTrait {
    pub id: String,
    pub system_id: String,
    /// Race that grants this trait.
    pub race_id: String,
    /// Subrace, if this is a subrace trait.
    pub subrace_id: Option<String>,
    pub name: String,
    pub description: String,
    /// Limited uses, if any.
    pub uses: Option<FeatureUses>,
    pub source: String,
    pub tags: Vec<Tag>,
}

impl RacialTrait {
    /// A racial trait with the required fields; no subrace, uses or tags.
    pub fn new(id: &str, system_id: &str, race_id: &str, name: &str, description: &str, source: &str) -> (t: Self)
        ensures
            t.id@ == id@,
            t.system_id@ == system_id@,
            t.race_id@ == race_id@,
            t.subrace_id is None,
            t.name@ == name@,
            t.description@ == description@,
            t.uses is None,
            t.source@ == source@,
            t.tags@.len() == 0,
    {
        RacialTrait {
            id: id.to_owned(),
            system_id: system_id.to_owned(),
            race_id: race_id.to_owned(),
            subrace_id: None,
            name: name.to_owned(),
            description: description.to_owned(),
            uses: None,
            source: source.to_owned(),
            tags: Vec::new(),
        }
    }
}

/// A feature granted by a background.
#[derive(Debug, Clone, PartialEq, Eq)]
pub struct BackgroundFeature {
    pub id: String,
    pub system_id: String,
    /// Background that grants this feature.
    pub background_id: String,
    pub name: String,
    pub description: String,
    pub source: String,
}

impl BackgroundFeature {
    /// A background feature with the given fields.
    pub fn new(
        id: &str,
        system_id: &str,
        background_id: &str,
        name: &str,
        description: &str,
        source: &str,
    ) -> (f: Self)
        ensures
            f.id@ == id@,
            f.system_id@ == system_id@,
            f.background_id@ == background_id@,
            f.name@ == name@,
            f.description@ == description@,
            f.source@ == source@,
    {
        BackgroundFeature {
            id: id.to_owned(),
            system_id: system_id.to_owned(),
            background_id: background_id.to_owned(),
            name: name.to_owned(),
            description: description.to_owned(),
            source: source.to_owned(),
        }
    }
}

} // verus!
