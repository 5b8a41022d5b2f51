use wrldbldr_domain::ids::WorldId;
use wrldbldr_domain::skill::{default_skills_for_variant, Skill, SkillCategory};
use wrldbldr_domain::value_objects::RuleSystemVariant;

#[test]
fn preset_skill_counts() {
    let w = WorldId::new();
    let count = |v: RuleSystemVariant| default_skills_for_variant(w, &v).len();
    assert_eq!(count(RuleSystemVariant::Dnd5e), 18);
    assert_eq!(count(RuleSystemVariant::Pathfinder2e), 16);
    assert_eq!(count(RuleSystemVariant::GenericD20), 6);
    assert_eq!(count(RuleSystemVariant::CallOfCthulhu7e), 33);
    assert_eq!(count(RuleSystemVariant::RuneQuest), 14);
    assert_eq!(count(RuleSystemVariant::GenericD100), 8);
    assert_eq!(count(RuleSystemVariant::KidsOnBikes), 6);
    assert_eq!(count(RuleSystemVariant::FateCore), 18);
    assert_eq!(count(RuleSystemVariant::PoweredByApocalypse), 9);
    assert_eq!(count(RuleSystemVariant::Custom("Homebrew".to_string())), 0);
}

#[test]
fn dnd_skills_start_with_athletics() {
    let w = WorldId::new();
    let skills = default_skills_for_variant(w, &RuleSystemVariant::Dnd5e);
    let first = &skills[0];
    assert_eq!(first.name, "Athletics");
    assert_eq!(first.category, SkillCategory::Physical);
    assert_eq!(first.base_attribute.as_deref(), Some("STR"));
    assert_eq!(first.order, 1);
    assert_eq!(first.world_id, w);
    assert!(skills.iter().all(|s| !s.is_custom && !s.is_hidden && s.world_id == w));
}

#[test]
fn custom_skill_builder() {
    let s = Skill::custom(WorldId::new(), "Basket Weaving", SkillCategory::Custom)
        .with_description("Weaving baskets")
        .with_base_attribute("DEX")
        .with_order(3);
    assert!(s.is_custom);
    assert_eq!(s.description, "Weaving baskets");
    assert_eq!(s.order, 3);
}
