use wrldbldr_domain::disposition::DispositionLevel;
use wrldbldr_domain::ids::WorldId;
use wrldbldr_domain::npc::Character;
use wrldbldr_domain::value_objects::{CampbellArchetype, Timestamp};

#[test]
fn character_new_empty_name_returns_error() {
    let world_id = WorldId::new();
    let result = Character::new(world_id, "", CampbellArchetype::Hero);

    assert!(result.is_err());
    let err = result.unwrap_err();
    assert!(err.to_text().contains("empty"));
}

#[test]
fn character_new_whitespace_only_name_returns_error() {
    let world_id = WorldId::new();
    let result = Character::new(world_id, "   \t\n  ", CampbellArchetype::Hero);

    assert!(result.is_err());
    let err = result.unwrap_err();
    assert!(err.to_text().contains("empty"));
}

#[test]
fn character_new_name_exceeds_200_chars_returns_error() {
    let world_id = WorldId::new();
    let long_name = "a".repeat(201);
    let result = Character::new(world_id, &long_name, CampbellArchetype::Hero);

    assert!(result.is_err());
    let err = result.unwrap_err();
    assert!(err.to_text().contains("200"));
}

#[test]
fn character_new_name_exactly_200_chars_succeeds() {
    let world_id = WorldId::new();
    let name_200 = "a".repeat(200);
    let result = Character::new(world_id, &name_200, CampbellArchetype::Hero);

    assert!(result.is_ok());
    let character = result.unwrap();
    assert_eq!(character.name, name_200);
}

#[test]
fn character_new_valid_name_succeeds() {
    let world_id = WorldId::new();
    let result = Character::new(world_id, "Gandalf", CampbellArchetype::Mentor);

    assert!(result.is_ok());
    let character = result.unwrap();
    assert_eq!(character.name, "Gandalf");
    assert_eq!(character.world_id, world_id);
    assert_eq!(character.base_archetype, CampbellArchetype::Mentor);
    assert_eq!(character.current_archetype, CampbellArchetype::Mentor);
}

#[test]
fn character_new_trims_whitespace_from_name() {
    let world_id = WorldId::new();
    let result = Character::new(world_id, "  Frodo Baggins  ", CampbellArchetype::Hero);

    assert!(result.is_ok());
    let character = result.unwrap();
    assert_eq!(character.name, "Frodo Baggins");
}

#[test]
fn name_limit_counts_bytes() {
    let w = WorldId::new();
    // 100 two-byte letters: 200 bytes.
    assert!(Character::new(w, &"\u{e9}".repeat(100), CampbellArchetype::Hero).is_ok());
    // 101 of them: 202 bytes, though only 101 characters.
    assert!(Character::new(w, &"\u{e9}".repeat(101), CampbellArchetype::Hero).is_err());
}

#[test]
fn archetype_changes() {
    let mut c = Character::new(WorldId::new(), "Boromir", CampbellArchetype::Ally)
        .unwrap()
        .with_default_disposition(DispositionLevel::Friendly)
        .with_description("Son of Denethor")
        .with_sprite("boromir.png")
        .with_portrait("boromir_face.png");
    c.assume_archetype(CampbellArchetype::Shapeshifter);
    assert_eq!(c.current_archetype, CampbellArchetype::Shapeshifter);
    assert!(c.archetype_history.is_empty());
    c.revert_to_base();
    assert_eq!(c.current_archetype, CampbellArchetype::Ally);
    c.change_archetype(CampbellArchetype::Shadow, "The Ring's pull", Timestamp::from_unix(5, 0));
    assert_eq!(c.current_archetype, CampbellArchetype::Shadow);
    assert_eq!(c.archetype_history.len(), 1);
    assert_eq!(c.archetype_history[0].from(), CampbellArchetype::Ally);
    assert_eq!(c.archetype_history[0].reason(), "The Ring's pull");
    assert_eq!(c.default_disposition, DispositionLevel::Friendly);
}
