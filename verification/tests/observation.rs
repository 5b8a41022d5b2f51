use wrldbldr_domain::error::DomainError;
use wrldbldr_domain::ids::{CharacterId, LocationId, PlayerCharacterId, RegionId};
use wrldbldr_domain::observation::{NpcObservation, ObservationSummary, ObservationType};
use wrldbldr_domain::value_objects::Timestamp;

fn fixed_time() -> Timestamp {
    Timestamp::from_unix(1_700_000_000, 0)
}

#[test]
fn test_observation_type_from_str() {
    assert_eq!(
        "direct".parse::<ObservationType>().unwrap(),
        ObservationType::Direct
    );
    assert_eq!(
        "heard_about".parse::<ObservationType>().unwrap(),
        ObservationType::HeardAbout
    );
    assert_eq!(
        "deduced".parse::<ObservationType>().unwrap(),
        ObservationType::Deduced
    );
}

#[test]
fn observation_type_parse_errors_and_labels() {
    assert_eq!("HeardAbout".parse::<ObservationType>().unwrap(), ObservationType::HeardAbout);
    match "rumour".parse::<ObservationType>() {
        Err(DomainError::Parse(m)) => assert_eq!(m, "Invalid observation type: rumour"),
        other => panic!("unexpected {:?}", other),
    }
    assert_eq!(ObservationType::Direct.display_name(), "Saw directly");
    assert_eq!(ObservationType::Deduced.icon(), "brain");
}

#[test]
fn test_direct_observation() {
    let pc_id = PlayerCharacterId::new();
    let npc_id = CharacterId::new();
    let location_id = LocationId::new();
    let region_id = RegionId::new();
    let game_time = fixed_time();
    let now = fixed_time();

    let obs = NpcObservation::direct(pc_id, npc_id, location_id, region_id, game_time, now);

    assert_eq!(obs.observation_type(), ObservationType::Direct);
    assert!(obs.is_revealed_to_player());
    assert!(obs.notes().is_none());
}

#[test]
fn test_direct_unrevealed_observation() {
    let pc_id = PlayerCharacterId::new();
    let npc_id = CharacterId::new();
    let location_id = LocationId::new();
    let region_id = RegionId::new();
    let game_time = fixed_time();
    let now = fixed_time();

    let obs = NpcObservation::direct_unrevealed(
        pc_id,
        npc_id,
        location_id,
        region_id,
        game_time,
        now,
    );

    assert_eq!(obs.observation_type(), ObservationType::Direct);
    assert!(!obs.is_revealed_to_player());
}

#[test]
fn test_heard_about_with_notes() {
    let pc_id = PlayerCharacterId::new();
    let npc_id = CharacterId::new();
    let location_id = LocationId::new();
    let region_id = RegionId::new();
    let game_time = fixed_time();
    let now = fixed_time();

    let obs = NpcObservation::heard_about(
        pc_id,
        npc_id,
        location_id,
        region_id,
        game_time,
        Some("The bartender told me".to_string()),
        now,
    );

    assert_eq!(obs.observation_type(), ObservationType::HeardAbout);
    assert!(obs.is_revealed_to_player());
    assert_eq!(obs.notes(), Some("The bartender told me"));
}

#[test]
fn deduced_observation_keeps_ids_and_builders_apply() {
    let pc_id = PlayerCharacterId::new();
    let npc_id = CharacterId::new();
    let obs = NpcObservation::deduced(
        pc_id,
        npc_id,
        LocationId::new(),
        RegionId::new(),
        fixed_time(),
        None,
        Timestamp::from_unix(1_700_000_100, 0),
    )
    .with_notes("footprints")
    .with_revealed(false);
    assert_eq!(obs.pc_id(), pc_id);
    assert_eq!(obs.npc_id(), npc_id);
    assert_eq!(obs.observation_type(), ObservationType::Deduced);
    assert_eq!(obs.notes(), Some("footprints"));
    assert!(!obs.is_revealed_to_player());
    assert_eq!(obs.created_at(), Timestamp::from_unix(1_700_000_100, 0));
}

#[test]
fn observation_summary_builders() {
    let s = ObservationSummary::new("id", "Bob", true, "Town", "Square", fixed_time(), ObservationType::Direct)
        .with_npc_portrait("bob.png")
        .with_notes("n")
        .with_time_ago_description("2 hours ago");
    assert_eq!(s.npc_name, "Bob");
    assert_eq!(s.npc_portrait.as_deref(), Some("bob.png"));
    assert_eq!(s.notes.as_deref(), Some("n"));
    assert_eq!(s.time_ago_description.as_deref(), Some("2 hours ago"));
}
