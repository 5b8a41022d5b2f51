use wrldbldr_domain::spell::{
    CastingTime, CastingTimeUnit, MaterialComponent, Spell, SpellComponents, SpellDuration,
    SpellLevel, SpellRange,
};
use wrldbldr_domain::tag::Tag;

#[test]
fn spell_level_conversion() {
    assert_eq!(SpellLevel::from(0), SpellLevel::Cantrip);
    assert_eq!(SpellLevel::from(1), SpellLevel::Level(1));
    assert_eq!(SpellLevel::from(9), SpellLevel::Level(9));
}

#[test]
fn spell_level_as_number() {
    assert_eq!(SpellLevel::Cantrip.as_number(), 0);
    assert_eq!(SpellLevel::Level(3).as_number(), 3);
}

#[test]
fn spell_equality() {
    let mut spell = Spell::new(
        "dnd5e_fireball",
        "dnd5e",
        "Fireball",
        SpellLevel::Level(3),
        CastingTime::action(),
        SpellRange::feet(150),
        SpellComponents::all("a tiny ball of bat guano and sulfur"),
        SpellDuration::instantaneous(),
        "A bright streak flashes...",
        vec!["sorcerer".into(), "wizard".into()],
        "PHB p.241",
    );
    spell.school = Some("Evocation".to_string());
    spell.higher_levels = Some("When cast at 4th level or higher...".to_string());
    spell.tags = vec![Tag::new("damage").unwrap(), Tag::new("fire").unwrap()];

    let other = spell.clone();
    assert_eq!(spell, other);
}

#[test]
fn spell_accessors() {
    let spell = Spell::from_parts(
        "test_spell",
        "test_system",
        "Test Spell",
        SpellLevel::Level(1),
        None,
        CastingTime::action(),
        SpellRange::touch(),
        SpellComponents::verbal_somatic(),
        SpellDuration::minutes(10),
        "Test description",
        None,
        vec!["wizard".into()],
        "Test Source",
        vec![],
        true,
        true,
    );

    assert_eq!(spell.id, "test_spell");
    assert_eq!(spell.system_id, "test_system");
    assert_eq!(spell.name, "Test Spell");
    assert_eq!(spell.level, SpellLevel::Level(1));
    assert!(spell.ritual);
    assert!(spell.concentration);
}

#[test]
fn casting_time_constructors() {
    assert_eq!(CastingTime::action().unit, CastingTimeUnit::Action);
    assert_eq!(
        CastingTime::bonus_action().unit,
        CastingTimeUnit::BonusAction
    );
    assert_eq!(CastingTime::minutes(10).amount, 10);
}

#[test]
fn spell_range_constructors() {
    assert!(matches!(
        SpellRange::self_only(),
        SpellRange::SelfOnly { area: None }
    ));
    assert!(matches!(SpellRange::touch(), SpellRange::Touch));
    assert!(matches!(
        SpellRange::feet(60),
        SpellRange::Feet { distance: 60 }
    ));
}

#[test]
fn spell_components_accessors() {
    let components = SpellComponents::all("diamond dust worth 100 gp");
    assert!(components.verbal);
    assert!(components.somatic);
    assert!(components.material.is_some());
}

#[test]
fn material_component_builder() {
    let material = MaterialComponent::new("diamond")
        .with_consumed(true)
        .with_cost(500);

    assert_eq!(material.description, "diamond");
    assert!(material.consumed);
    assert_eq!(material.cost, Some(500));
}

#[test]
fn cantrips_are_level_zero() {
    assert!(SpellLevel::from(0).is_cantrip());
    assert!(!SpellLevel::from(2).is_cantrip());
    assert_eq!(SpellLevel::from(7).as_number(), 7);
}
