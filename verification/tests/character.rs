use wrldbldr_domain::character::Character;
use wrldbldr_domain::disposition::DispositionLevel;
use wrldbldr_domain::events::{
    CharacterStateChange, CharacterUpdate, DamageOutcome, HealOutcome, ResurrectOutcome,
};
use wrldbldr_domain::ids::WorldId;
use wrldbldr_domain::value_objects::{
    AssetPath, CampbellArchetype, CharacterName, CharacterState, Description, StatBlock,
    Timestamp,
};

fn fixed_time() -> Timestamp {
    Timestamp::from_unix(1_700_000_000, 0)
}

fn create_test_character() -> Character {
    let world_id = WorldId::new();
    let name = CharacterName::new("Test Hero").unwrap();
    Character::new(world_id, name, CampbellArchetype::Hero)
}

#[test]
fn new_creates_character_with_correct_defaults() {
    let world_id = WorldId::new();
    let name = CharacterName::new("Gandalf").unwrap();
    let character = Character::new(world_id, name, CampbellArchetype::Mentor);

    assert_eq!(character.name().as_str(), "Gandalf");
    assert_eq!(character.world_id(), world_id);
    assert_eq!(character.base_archetype(), CampbellArchetype::Mentor);
    assert_eq!(character.current_archetype(), CampbellArchetype::Mentor);
    assert!(character.is_alive());
    assert!(character.is_active());
    assert!(!character.is_dead());
    assert!(character.description().is_empty());
    assert!(character.sprite_asset().is_none());
    assert!(character.portrait_asset().is_none());
}

#[test]
fn character_builder_methods_work() {
    let world_id = WorldId::new();
    let name = CharacterName::new("Frodo").unwrap();
    let desc = Description::new("A hobbit").unwrap();
    let sprite = AssetPath::new("sprites/frodo.png").unwrap();
    let portrait = AssetPath::new("portraits/frodo.png").unwrap();
    let character = Character::new(world_id, name, CampbellArchetype::Hero)
        .with_description(desc)
        .with_sprite(sprite)
        .with_portrait(portrait)
        .with_default_disposition(DispositionLevel::Friendly);

    assert_eq!(character.description().as_str(), "A hobbit");
    assert_eq!(
        character.sprite_asset().map(|p| p.as_str()),
        Some("sprites/frodo.png")
    );
    assert_eq!(
        character.portrait_asset().map(|p| p.as_str()),
        Some("portraits/frodo.png")
    );
    assert_eq!(character.default_disposition(), DispositionLevel::Friendly);
}

#[test]
fn apply_damage_without_hp_tracking_returns_no_hp_tracking() {
    let mut character = create_test_character();
    let outcome = character.apply_damage(10);
    assert_eq!(outcome, DamageOutcome::NoHpTracking);
}

#[test]
fn apply_damage_wounds_character() {
    let mut character = create_test_character().with_stats(StatBlock::new().with_hp(50, 50));

    let outcome = character.apply_damage(20);
    assert_eq!(
        outcome,
        DamageOutcome::Wounded {
            damage_dealt: 20,
            remaining_hp: 30
        }
    );
    assert!(character.is_alive());
    assert_eq!(character.stats().current_hp(), Some(30));
}

#[test]
fn apply_damage_kills_character() {
    let mut character = create_test_character().with_stats(StatBlock::new().with_hp(20, 50));

    let outcome = character.apply_damage(30);
    assert_eq!(outcome, DamageOutcome::Killed { damage_dealt: 30 });
    assert!(character.is_dead());
}

#[test]
fn apply_damage_to_dead_character_returns_already_dead() {
    let mut character = create_test_character().with_stats(StatBlock::new().with_hp(10, 50));

    character.apply_damage(100); // Kill
    let outcome = character.apply_damage(10); // Try again

    assert_eq!(outcome, DamageOutcome::AlreadyDead);
}

#[test]
fn heal_without_hp_tracking_returns_no_hp_tracking() {
    let mut character = create_test_character();
    let outcome = character.heal(10);
    assert_eq!(outcome, HealOutcome::NoHpTracking);
}

#[test]
fn heal_heals_character() {
    let mut character = create_test_character().with_stats(StatBlock::new().with_hp(20, 50));

    let outcome = character.heal(15);
    assert_eq!(
        outcome,
        HealOutcome::Healed {
            amount_healed: 15,
            new_hp: 35
        }
    );
    assert_eq!(character.stats().current_hp(), Some(35));
}

#[test]
fn heal_caps_at_max_hp() {
    let mut character = create_test_character().with_stats(StatBlock::new().with_hp(45, 50));

    let outcome = character.heal(20);
    assert_eq!(
        outcome,
        HealOutcome::Healed {
            amount_healed: 5,
            new_hp: 50
        }
    );
}

#[test]
fn heal_at_max_hp_returns_already_full() {
    let mut character = create_test_character().with_stats(StatBlock::new().with_hp(50, 50));

    let outcome = character.heal(10);
    assert_eq!(outcome, HealOutcome::AlreadyFull);
}

#[test]
fn heal_dead_character_returns_dead() {
    let mut character = create_test_character().with_stats(StatBlock::new().with_hp(10, 50));

    character.apply_damage(100); // Kill
    let outcome = character.heal(10);

    assert_eq!(outcome, HealOutcome::Dead);
}

#[test]
fn heal_refuses_non_positive_amounts() {
    let mut character = create_test_character().with_stats(StatBlock::new().with_hp(10, 50));
    assert_eq!(character.heal(0), HealOutcome::InvalidAmount);
    assert_eq!(character.heal(-5), HealOutcome::InvalidAmount);
    assert_eq!(character.stats().current_hp(), Some(10));
}

#[test]
fn resurrect_alive_character_returns_not_dead() {
    let mut character = create_test_character();
    let outcome = character.resurrect();
    assert_eq!(outcome, ResurrectOutcome::NotDead);
}

#[test]
fn resurrect_dead_character_restores_to_half_hp() {
    let mut character = create_test_character().with_stats(StatBlock::new().with_hp(100, 100));

    character.apply_damage(200); // Kill
    assert!(character.is_dead());

    let outcome = character.resurrect();
    assert_eq!(
        outcome,
        ResurrectOutcome::Resurrected { hp_restored_to: 50 }
    );
    assert!(character.is_alive());
    assert!(character.is_active());
    assert_eq!(character.stats().current_hp(), Some(50));
}

#[test]
fn resurrect_without_hp_tracking_sets_hp_to_1() {
    let mut character = create_test_character().with_state(CharacterState::Dead);

    let outcome = character.resurrect();
    assert_eq!(outcome, ResurrectOutcome::Resurrected { hp_restored_to: 1 });
    assert_eq!(character.stats().current_hp(), Some(1));
}

#[test]
fn resurrect_with_tiny_maximum_gives_one_hp() {
    let mut character = create_test_character()
        .with_stats(StatBlock::new().with_hp(0, 1))
        .with_state(CharacterState::Dead);
    assert_eq!(
        character.resurrect(),
        ResurrectOutcome::Resurrected { hp_restored_to: 1 }
    );
}

#[test]
fn deactivate_sets_inactive() {
    let mut character = create_test_character();
    assert!(character.is_active());

    character.deactivate();
    assert!(!character.is_active());
    assert!(character.is_alive());
    assert_eq!(character.state(), CharacterState::Inactive);
}

#[test]
fn activate_sets_active() {
    let mut character = create_test_character();
    character.deactivate();
    assert!(!character.is_active());

    character.activate();
    assert!(character.is_active());
}

#[test]
fn deactivate_dead_character_has_no_effect() {
    let mut character = create_test_character().with_state(CharacterState::Dead);

    character.deactivate();
    assert!(character.is_dead());
}

#[test]
fn activate_dead_character_has_no_effect() {
    let mut character = create_test_character().with_state(CharacterState::Dead);

    character.activate();
    assert!(character.is_dead());
}

#[test]
fn toggles_report_what_changed() {
    let mut character = create_test_character();
    assert_eq!(
        character.activate(),
        CharacterStateChange::Unchanged { state: CharacterState::Active }
    );
    assert_eq!(
        character.deactivate(),
        CharacterStateChange::StateChanged {
            from: CharacterState::Active,
            to: CharacterState::Inactive
        }
    );
}

#[test]
fn assume_archetype_changes_current_only() {
    let mut character = create_test_character();
    assert_eq!(character.current_archetype(), CampbellArchetype::Hero);
    assert_eq!(character.base_archetype(), CampbellArchetype::Hero);

    character.assume_archetype(CampbellArchetype::Shadow);
    assert_eq!(character.current_archetype(), CampbellArchetype::Shadow);
    assert_eq!(character.base_archetype(), CampbellArchetype::Hero);
    assert!(character.archetype_history().is_empty());
}

#[test]
fn revert_to_base_restores_base_archetype() {
    let mut character = create_test_character();
    character.assume_archetype(CampbellArchetype::Shadow);
    character.revert_to_base();
    assert_eq!(character.current_archetype(), CampbellArchetype::Hero);
}

#[test]
fn change_archetype_records_history() {
    let mut character = create_test_character();
    let now = fixed_time();

    character.change_archetype(CampbellArchetype::Mentor, "Character growth", now);

    assert_eq!(character.current_archetype(), CampbellArchetype::Mentor);
    assert_eq!(character.archetype_history().len(), 1);
    let change = &character.archetype_history()[0];
    assert_eq!(change.from(), CampbellArchetype::Hero);
    assert_eq!(change.to(), CampbellArchetype::Mentor);
    assert_eq!(change.reason(), "Character growth");
    assert_eq!(change.at(), now);
}

#[test]
fn setters_report_previous_and_new_values() {
    let mut character = create_test_character();
    let update = character.set_name(CharacterName::new("Renamed").unwrap());
    match update {
        CharacterUpdate::NameChanged { from, to } => {
            assert_eq!(from.as_str(), "Test Hero");
            assert_eq!(to.as_str(), "Renamed");
        }
        other => panic!("unexpected {:?}", other),
    }
    let update = character.set_sprite(Some(AssetPath::new("a.png").unwrap()));
    assert_eq!(
        update,
        CharacterUpdate::SpriteChanged { from: None, to: Some(AssetPath::new("a.png").unwrap()) }
    );
    assert_eq!(character.name().as_str(), "Renamed");
}

#[test]
fn damage_saturates_instead_of_overflowing() {
    let mut character =
        create_test_character().with_stats(StatBlock::new().with_hp(i32::MIN + 5, 10));
    // Already at or below zero but alive: any damage kills.
    assert_eq!(character.apply_damage(i32::MAX), DamageOutcome::Killed { damage_dealt: i32::MAX });
    assert_eq!(character.stats().current_hp(), Some(i32::MIN));
}

#[test]
fn names_and_descriptions_are_validated() {
    assert!(CharacterName::new("  ").is_err());
    assert!(CharacterName::new(&"x".repeat(201)).is_err());
    assert!(CharacterName::new(&"x".repeat(200)).is_ok());
    assert!(Description::new(&"y".repeat(5001)).is_err());
    assert!(Description::new("").unwrap().is_empty());
    assert!(AssetPath::new("").is_err());
}
