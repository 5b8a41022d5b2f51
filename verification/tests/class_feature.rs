use wrldbldr_domain::class_feature::{BackgroundFeature, ClassFeature, FeatureUses, RacialTrait};
use wrldbldr_domain::feat::{RechargeType, UsesFormula};
use wrldbldr_domain::tag::Tag;

#[test]
fn class_feature_equality() {
    let mut feature = ClassFeature::new(
        "dnd5e_fighter_second_wind",
        "dnd5e",
        "fighter",
        "Second Wind",
        1,
        "You have a limited well of stamina...",
        "PHB p.72",
    );
    feature.uses = Some(FeatureUses::short_rest(UsesFormula::Fixed { value: 1 }));
    feature.tags.push(Tag::new("healing").unwrap());

    let other = feature.clone();
    assert_eq!(feature, other);
}

#[test]
fn class_feature_accessors() {
    let mut feature = ClassFeature::new(
        "test_feature",
        "test_system",
        "test_class",
        "Test Feature",
        5,
        "Test description",
        "Test Source",
    );
    feature.has_choices = true;

    assert_eq!(feature.id, "test_feature");
    assert_eq!(feature.system_id, "test_system");
    assert_eq!(feature.class_id, "test_class");
    assert_eq!(feature.name, "Test Feature");
    assert_eq!(feature.level, 5);
    assert!(feature.has_choices);
}

#[test]
fn subclass_feature() {
    let mut feature = ClassFeature::new(
        "dnd5e_champion_improved_critical",
        "dnd5e",
        "fighter",
        "Improved Critical",
        3,
        "Your weapon attacks score a critical hit on a roll of 19 or 20.",
        "PHB p.72",
    );
    feature.subclass_id = Some("champion".to_string());
    feature.tags.push(Tag::new("combat").unwrap());

    assert_eq!(feature.subclass_id.as_deref(), Some("champion"));
    assert!(feature.uses.is_none());
}

#[test]
fn feature_uses_constructors() {
    let uses = FeatureUses::fixed_long_rest(2);
    assert!(matches!(uses.max, UsesFormula::Fixed { value: 2 }));
    assert_eq!(uses.recharge, RechargeType::LongRest);

    let uses = FeatureUses::proficiency_long_rest();
    assert!(matches!(uses.max, UsesFormula::ProficiencyBonus));
}

#[test]
fn racial_trait_equality() {
    let mut trait_ = RacialTrait::new(
        "dnd5e_dwarf_darkvision",
        "dnd5e",
        "dwarf",
        "Darkvision",
        "You can see in dim light within 60 feet...",
        "PHB p.20",
    );
    trait_.tags.push(Tag::new("vision").unwrap());

    let other = trait_.clone();
    assert_eq!(trait_, other);
}

#[test]
fn racial_trait_accessors() {
    let mut trait_ = RacialTrait::new(
        "test_trait",
        "test_system",
        "test_race",
        "Test Trait",
        "Test description",
        "Test Source",
    );
    trait_.subrace_id = Some("test_subrace".to_string());

    assert_eq!(trait_.id, "test_trait");
    assert_eq!(trait_.race_id, "test_race");
    assert_eq!(trait_.subrace_id.as_deref(), Some("test_subrace"));
}

#[test]
fn background_feature_accessors() {
    let feature = BackgroundFeature::new(
        "test_bg_feature",
        "test_system",
        "test_background",
        "Test Background Feature",
        "Test description",
        "Test Source",
    );

    assert_eq!(feature.id, "test_bg_feature");
    assert_eq!(feature.background_id, "test_background");
    assert_eq!(feature.name, "Test Background Feature");
}

#[test]
fn blank_tags_are_refused() {
    assert!(Tag::new("   ").is_err());
    assert_eq!(Tag::new("fire").unwrap().as_str(), "fire");
}
