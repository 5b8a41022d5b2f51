use wrldbldr_domain::ids::{LocationId, RegionId, WorldId};
use wrldbldr_domain::player_character::{PlayerCharacter, PlayerCharacterStateChange};
use wrldbldr_domain::value_objects::{AssetPath, CharacterName, CharacterState, Timestamp, UserId};

fn fixed_time() -> Timestamp {
    Timestamp::from_unix(1_700_000_000, 0)
}

fn create_test_pc() -> PlayerCharacter {
    let world_id = WorldId::new();
    let location_id = LocationId::new();
    let name = CharacterName::new("Test Hero").unwrap();
    let now = fixed_time();
    let user_id = UserId::new("user123").unwrap();
    PlayerCharacter::new(user_id, world_id, name, location_id, now)
}

#[test]
fn new_creates_pc_with_correct_defaults() {
    let world_id = WorldId::new();
    let location_id = LocationId::new();
    let name = CharacterName::new("Frodo").unwrap();
    let now = fixed_time();
    let user_id = UserId::new("user123").unwrap();
    let pc = PlayerCharacter::new(user_id, world_id, name, location_id, now);

    assert_eq!(pc.name().as_str(), "Frodo");
    assert_eq!(pc.user_id(), "user123");
    assert_eq!(pc.world_id(), world_id);
    assert_eq!(pc.current_location_id(), location_id);
    assert_eq!(pc.starting_location_id(), location_id);
    assert!(pc.current_region_id().is_none());
    assert!(pc.description().is_none());
    assert!(pc.sprite_asset().is_none());
    assert!(pc.portrait_asset().is_none());
    assert!(pc.is_alive());
    assert!(pc.is_active());
}

#[test]
fn player_character_builder_methods_work() {
    let world_id = WorldId::new();
    let location_id = LocationId::new();
    let region_id = RegionId::new();
    let name = CharacterName::new("Samwise").unwrap();
    let now = fixed_time();
    let user_id = UserId::new("user456").unwrap();

    let pc = PlayerCharacter::new(user_id, world_id, name, location_id, now)
        .with_description("A loyal gardener")
        .with_starting_region(region_id)
        .with_sprite(AssetPath::new("sprites/sam.png").unwrap())
        .with_portrait(AssetPath::new("portraits/sam.png").unwrap());

    assert_eq!(pc.description(), Some("A loyal gardener"));
    assert_eq!(pc.current_region_id(), Some(region_id));
    assert_eq!(pc.sprite_asset().map(AssetPath::as_str), Some("sprites/sam.png"));
    assert_eq!(pc.portrait_asset().map(AssetPath::as_str), Some("portraits/sam.png"));
}

#[test]
fn update_location_clears_region() {
    let mut pc = create_test_pc();
    let region_id = RegionId::new();
    let new_location = LocationId::new();
    let now = fixed_time();

    pc.update_region(region_id, now);
    assert_eq!(pc.current_region_id(), Some(region_id));

    pc.update_location(new_location, now);
    assert_eq!(pc.current_location_id(), new_location);
    assert!(pc.current_region_id().is_none());
}

#[test]
fn update_region_works() {
    let mut pc = create_test_pc();
    let region_id = RegionId::new();
    pc.update_region(region_id, fixed_time());
    assert_eq!(pc.current_region_id(), Some(region_id));
}

#[test]
fn update_position_works() {
    let mut pc = create_test_pc();
    let new_location = LocationId::new();
    let region_id = RegionId::new();
    pc.update_position(new_location, Some(region_id), fixed_time());
    assert_eq!(pc.current_location_id(), new_location);
    assert_eq!(pc.current_region_id(), Some(region_id));
}

#[test]
fn kill_sets_state_to_dead_and_returns_event() {
    let mut pc = create_test_pc();
    assert_eq!(pc.kill(), PlayerCharacterStateChange::Killed);
    assert!(pc.is_dead());
    assert!(!pc.is_alive());
    assert!(!pc.is_active());
    assert_eq!(pc.kill(), PlayerCharacterStateChange::AlreadyDead);
}

#[test]
fn deactivate_sets_state_to_inactive_and_returns_event() {
    let mut pc = create_test_pc();
    assert_eq!(pc.deactivate(), PlayerCharacterStateChange::Deactivated);
    assert!(pc.is_inactive());
    assert!(pc.is_alive());
    assert!(!pc.is_active());
    assert_eq!(pc.deactivate(), PlayerCharacterStateChange::AlreadyInactive);
}

#[test]
fn activate_works_only_if_inactive_and_returns_event() {
    let mut pc = create_test_pc();
    assert_eq!(pc.activate(), PlayerCharacterStateChange::AlreadyActive);
    pc.deactivate();
    assert_eq!(pc.activate(), PlayerCharacterStateChange::Activated);
    assert!(pc.is_active());
    pc.kill();
    assert_eq!(pc.activate(), PlayerCharacterStateChange::AlreadyActive);
    assert!(!pc.is_active());
}

#[test]
fn resurrect_sets_state_to_active_and_returns_event() {
    let mut pc = create_test_pc();
    pc.kill();
    assert_eq!(pc.resurrect(), PlayerCharacterStateChange::Resurrected);
    assert!(pc.is_alive());
    assert!(pc.is_active());
    assert_eq!(pc.state(), CharacterState::Active);
    assert_eq!(pc.resurrect(), PlayerCharacterStateChange::AlreadyAlive);
}

#[test]
fn state_accessor_returns_correct_values() {
    let mut pc = create_test_pc();
    assert_eq!(pc.state(), CharacterState::Active);
    pc.deactivate();
    assert_eq!(pc.state(), CharacterState::Inactive);
    pc.kill();
    assert_eq!(pc.state(), CharacterState::Dead);
    pc.resurrect();
    assert_eq!(pc.state(), CharacterState::Active);
}

#[test]
fn with_state_builder_works() {
    let world_id = WorldId::new();
    let location_id = LocationId::new();
    let name = CharacterName::new("Gimli").unwrap();
    let now = fixed_time();
    let user_id = UserId::new("user789").unwrap();

    let pc = PlayerCharacter::new(user_id.clone(), world_id, name, location_id, now)
        .with_state(CharacterState::Inactive);

    assert_eq!(pc.state(), CharacterState::Inactive);
    assert!(pc.is_inactive());
    assert!(pc.is_alive());
    assert!(!pc.is_active());

    let dead_pc = PlayerCharacter::new(
        user_id,
        world_id,
        CharacterName::new("Ghost").unwrap(),
        location_id,
        now,
    )
    .with_state(CharacterState::Dead);

    assert_eq!(dead_pc.state(), CharacterState::Dead);
    assert!(dead_pc.is_dead());
    assert!(!dead_pc.is_alive());
}

#[test]
fn validate_passes_for_valid_pc() {
    let pc = create_test_pc();
    assert!(pc.validate().is_ok());
}

#[test]
fn descriptions_that_are_too_long_are_dropped() {
    let mut pc = create_test_pc().with_description(&"d".repeat(5001));
    assert!(pc.description().is_none());
    pc.set_description(Some("Short"));
    assert_eq!(pc.description(), Some("Short"));
    pc.set_description(None);
    assert!(pc.description().is_none());
    assert!(UserId::new(" ").is_err());
}
