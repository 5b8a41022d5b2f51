use wrldbldr_domain::feat::{AbilityUses, Feat, FeatBenefit, Prerequisite, RechargeType, UsesFormula};
use wrldbldr_domain::tag::Tag;

#[test]
fn feat_equality() {
    let mut feat = Feat::new(
        "dnd5e_great_weapon_master",
        "dnd5e",
        "Great Weapon Master",
        "You've learned to put the weight of a weapon...",
        "PHB p.167",
    );
    feat.benefits = vec![
        FeatBenefit::Custom {
            description: "On a critical hit or kill, bonus action attack".into(),
        },
        FeatBenefit::Custom {
            description: "-5 to hit for +10 damage".into(),
        },
    ];
    feat.category = Some("combat".to_string());
    feat.tags.push(Tag::new("combat").unwrap());
    feat.tags.push(Tag::new("melee").unwrap());

    let other = feat.clone();
    assert_eq!(feat, other);
}

#[test]
fn feat_accessors() {
    let mut feat = Feat::new(
        "test_feat",
        "test_system",
        "Test Feat",
        "Test description",
        "Test Source",
    );
    feat.repeatable = true;
    feat.category = Some("general".to_string());

    assert_eq!(feat.id, "test_feat");
    assert_eq!(feat.system_id, "test_system");
    assert_eq!(feat.name, "Test Feat");
    assert_eq!(feat.description, "Test description");
    assert_eq!(feat.source, "Test Source");
    assert!(feat.repeatable);
    assert_eq!(feat.category, Some("general".to_string()));
}

#[test]
fn prerequisite_constructors() {
    let prereq = Prerequisite::min_stat("STR", 13);
    assert!(
        matches!(prereq, Prerequisite::MinStat { stat, value } if stat == "STR" && value == 13)
    );

    let prereq = Prerequisite::min_level(4);
    assert!(matches!(prereq, Prerequisite::MinLevel { level: 4 }));
}

#[test]
fn feat_with_prerequisites() {
    let feat = Feat::new(
        "dnd5e_sentinel",
        "dnd5e",
        "Sentinel",
        "You have mastered techniques...",
        "PHB p.169",
    );

    assert!(feat.prerequisites.is_empty());
}

#[test]
fn complex_prerequisites() {
    let prereq = Prerequisite::AnyOf {
        options: vec![
            Prerequisite::min_stat("STR", 13),
            Prerequisite::min_stat("DEX", 13),
        ],
    };

    if let Prerequisite::AnyOf { options } = prereq {
        assert_eq!(options.len(), 2);
    } else {
        panic!("Expected AnyOf prerequisite");
    }
}

#[test]
fn uses_formula_constructors() {
    let uses = UsesFormula::fixed(3);
    assert!(matches!(uses, UsesFormula::Fixed { value: 3 }));

    let uses = UsesFormula::proficiency_bonus();
    assert!(matches!(uses, UsesFormula::ProficiencyBonus));

    let uses = UsesFormula::stat_modifier("WIS");
    assert!(matches!(uses, UsesFormula::StatModifier { stat, min: 1 } if stat == "WIS"));
}

#[test]
fn ability_uses_accessors() {
    let uses = AbilityUses::new(UsesFormula::fixed(2), RechargeType::LongRest);
    assert!(matches!(uses.max, UsesFormula::Fixed { value: 2 }));
    assert_eq!(uses.recharge, RechargeType::LongRest);
}

#[test]
fn nested_prerequisites_copy_whole() {
    let prereq = Prerequisite::AllOf {
        requirements: vec![
            Prerequisite::has_feat("alert"),
            Prerequisite::AnyOf { options: vec![Prerequisite::has_class("wizard")] },
        ],
    };
    assert_eq!(prereq.deep_copy(), prereq);
}
