use wrldbldr_domain::character_content::{
    AcquiredFeat, ActiveFeature, CharacterFeats, CharacterFeatures, CharacterIdentity,
    CharacterSpells, ClassLevel, KnownSpell, SpellSlotPool,
};

#[test]
fn character_spells_basic() {
    let mut spells = CharacterSpells::new();
    spells.add_cantrip("fire_bolt");
    spells.learn_spell("magic_missile", "class");
    spells.prepare_spell("magic_missile");

    assert_eq!(spells.cantrips().len(), 1);
    assert_eq!(spells.known().len(), 1);
    assert_eq!(spells.prepared().len(), 1);
}

#[test]
fn spell_slot_usage() {
    let mut spells = CharacterSpells::new();
    spells.slots_mut().insert(1, SpellSlotPool::new(4));
    spells.slots_mut().insert(2, SpellSlotPool::new(3));

    assert!(spells.use_slot(1));
    assert_eq!(spells.slots()[&1].current(), 3);

    spells.restore_all_slots();
    assert_eq!(spells.slots()[&1].current(), 4);
}

#[test]
fn character_feats_basic() {
    let mut feats = CharacterFeats::new();
    feats.acquire("great_weapon_master", Some(4));

    assert!(feats.has_feat("great_weapon_master"));
    assert!(!feats.has_feat("sentinel"));
}

#[test]
fn character_features_with_uses() {
    let mut features = CharacterFeatures::new();
    features.add_with_uses("second_wind", 1);

    assert!(features.use_feature("second_wind"));
    assert!(!features.use_feature("second_wind")); // No uses left

    features.restore_all_uses();
    assert!(features.use_feature("second_wind"));
}

#[test]
fn character_identity_multiclass() {
    let mut identity = CharacterIdentity::new().with_race("human");
    identity.add_class("fighter", 5);
    identity.add_class("wizard", 2);

    assert_eq!(identity.total_level(), 7);
    assert_eq!(identity.class_level("fighter"), 5);
    assert_eq!(identity.class_level("wizard"), 2);
    assert_eq!(identity.class_level("rogue"), 0);
    assert_eq!(identity.primary_class().unwrap().class_id(), "fighter");
}

#[test]
fn spell_pool_equality() {
    let mut spells = CharacterSpells::new();
    spells.add_cantrip("prestidigitation");
    spells.learn_spell("shield", "class");
    spells.slots_mut().insert(1, SpellSlotPool::new(2));

    let other = spells.clone();
    assert_eq!(spells, other);
}

#[test]
fn known_spell_accessors() {
    let spell = KnownSpell::new("fireball", "class").with_notes("Favorite spell");

    assert_eq!(spell.spell_id(), "fireball");
    assert_eq!(spell.source(), "class");
    assert_eq!(spell.notes(), Some("Favorite spell"));
}

#[test]
fn acquired_feat_accessors() {
    let feat = AcquiredFeat::new("alert", Some(4))
        .with_notes("Always go first")
        .with_choice("stat", "DEX");

    assert_eq!(feat.feat_id(), "alert");
    assert_eq!(feat.acquired_at_level(), Some(4));
    assert_eq!(feat.notes(), Some("Always go first"));
    assert_eq!(feat.choices().get("stat"), Some(&"DEX".to_string()));
}

#[test]
fn active_feature_accessors() {
    let feature = ActiveFeature::new("action_surge")
        .with_uses(1, 1)
        .with_choice("target", "self");

    assert_eq!(feature.feature_id(), "action_surge");
    assert_eq!(feature.uses_remaining(), Some(1));
    assert_eq!(feature.uses_max(), Some(1));
    assert_eq!(feature.choices().get("target"), Some(&"self".to_string()));
}

#[test]
fn class_level_accessors() {
    let class = ClassLevel::new("wizard", 5).with_subclass("evocation");

    assert_eq!(class.class_id(), "wizard");
    assert_eq!(class.level(), 5);
    assert_eq!(class.subclass(), Some("evocation"));
}

#[test]
fn duplicate_cantrips_and_spells_are_kept_once() {
    let mut spells = CharacterSpells::new();
    spells.add_cantrip("light");
    spells.add_cantrip("light");
    spells.learn_spell("shield", "class");
    spells.learn_spell("shield", "feat");
    spells.prepare_spell("shield");
    spells.prepare_spell("shield");
    assert_eq!(spells.cantrips().len(), 1);
    assert_eq!(spells.known().len(), 1);
    assert_eq!(spells.known()[0].source(), "class");
    assert_eq!(spells.prepared().len(), 1);
    spells.unprepare_spell("shield");
    assert!(spells.prepared().is_empty());
}

#[test]
fn using_a_missing_or_empty_slot_fails() {
    let mut spells = CharacterSpells::new();
    assert!(!spells.use_slot(3));
    spells.slots_mut().insert(2, SpellSlotPool::empty(2));
    assert!(!spells.use_slot(2));
    assert_eq!(spells.slots()[&2].current(), 0);
}

#[test]
fn pact_slots_are_restored_too() {
    let mut pool = SpellSlotPool::new(2);
    pool.use_slot();
    pool.use_slot();
    pool.use_slot();
    assert_eq!(pool.current(), 0);
    assert!(!pool.has_slots());
    let mut spells = CharacterSpells::new()
        .with_pact_slots(pool)
        .with_spellcasting_ability("CHA");
    spells.restore_all_slots();
    assert_eq!(spells.pact_slots().unwrap().current(), 2);
    assert_eq!(spells.spellcasting_ability(), Some("CHA"));
}

#[test]
fn slot_restore_never_exceeds_max() {
    let mut pool = SpellSlotPool::empty(3);
    pool.restore(2);
    assert_eq!(pool.current(), 2);
    pool.restore(5);
    assert_eq!(pool.current(), 3);
    assert_eq!(pool.max(), 3);
}

#[test]
fn arcane_recovery_restores_from_the_highest_level_down() {
    let mut spells = CharacterSpells::new();
    spells.slots_mut().insert(1, SpellSlotPool::empty(4));
    spells.slots_mut().insert(2, SpellSlotPool::empty(3));
    spells.slots_mut().insert(3, SpellSlotPool::empty(2));
    // A budget of 5 levels from level 3 down: one 3rd-level slot (3),
    // one 2nd-level slot (2), nothing left for level 1.
    spells.restore_slots_up_to(3, 5);
    assert_eq!(spells.slots()[&3].current(), 1);
    assert_eq!(spells.slots()[&2].current(), 1);
    assert_eq!(spells.slots()[&1].current(), 0);

    let mut spells = CharacterSpells::new();
    spells.slots_mut().insert(1, SpellSlotPool::empty(4));
    spells.slots_mut().insert(2, SpellSlotPool::empty(1));
    // Level 2 lacks one slot (2 levels), the other 4 go to level 1.
    spells.restore_slots_up_to(2, 6);
    assert_eq!(spells.slots()[&2].current(), 1);
    assert_eq!(spells.slots()[&1].current(), 4);
}

#[test]
fn feats_can_be_changed_in_place() {
    let mut feats = CharacterFeats::new();
    feats.acquire("alert", None);
    {
        let feat = feats.get_mut("alert").unwrap();
        feat.choices_mut().insert("bonus".to_string(), "5".to_string());
    }
    assert_eq!(feats.feats()[0].choices().get("bonus"), Some(&"5".to_string()));
    assert!(feats.get_mut("lucky").is_none());
}

#[test]
fn features_without_counted_uses_never_run_out() {
    let mut features = CharacterFeatures::new();
    features.add("rage");
    assert!(features.use_feature("rage"));
    assert!(features.use_feature("rage"));
    assert!(!features.use_feature("missing"));
    assert_eq!(features.features()[0].uses_remaining(), None);
}

#[test]
fn choices_replace_earlier_values() {
    let feat = AcquiredFeat::new("resilient", None)
        .with_choice("stat", "CON")
        .with_choice("stat", "WIS");
    assert_eq!(feat.choices().get("stat"), Some(&"WIS".to_string()));
    assert_eq!(feat.choices().get("other"), None);
}

#[test]
fn adding_levels_to_an_existing_class() {
    let mut identity = CharacterIdentity::new();
    assert!(identity.primary_class().is_none());
    identity.add_class("rogue", 3);
    identity.add_class("cleric", 3);
    identity.add_class("rogue", 2);
    assert_eq!(identity.classes().len(), 2);
    assert_eq!(identity.class_level("rogue"), 5);
    assert_eq!(identity.total_level(), 8);
    identity.add_class("cleric", 2);
    // Equal levels: the last of the highest is the primary class.
    assert_eq!(identity.primary_class().unwrap().class_id(), "cleric");
}

#[test]
fn cloned_choices_hold_the_same_values() {
    let feat = AcquiredFeat::new("skilled", None)
        .with_choice("skill", "Stealth")
        .with_choice("tool", "Lockpicks")
        .with_choice("skill", "Arcana");
    let copy = feat.choices().clone();
    assert_eq!(copy.get("skill"), Some(&"Arcana".to_string()));
    assert_eq!(copy.get("tool"), Some(&"Lockpicks".to_string()));
    assert_eq!(copy.get("other"), None);
    assert_eq!(&copy, feat.choices());
}
