use wrldbldr_domain::activation::{ActivationLogic, ActivationRule};
use wrldbldr_domain::ids::{LocationId, LocationStateId, RegionId, WorldId};
use wrldbldr_domain::location_state::LocationState;
use wrldbldr_domain::region_state::RegionState;
use wrldbldr_domain::scene::TimeOfDay;
use wrldbldr_domain::value_objects::{AssetPath, Atmosphere, Timestamp};

fn fixed_time() -> Timestamp {
    Timestamp::from_unix(1_700_000_000, 0)
}

#[test]
fn test_location_state_creation() {
    let now = fixed_time();
    let atm = Atmosphere::new("The streets are alive with music and laughter...").unwrap();
    let state = LocationState::new(LocationId::new(), WorldId::new(), "Festival Day", now)
        .with_description("City-wide festival celebration")
        .with_backdrop(AssetPath::new("/assets/city_festival.png").unwrap())
        .with_atmosphere(atm)
        .with_priority(100);

    assert_eq!(state.name(), "Festival Day");
    assert!(state.backdrop_override().is_some());
    assert_eq!(state.priority(), 100);
    assert!(!state.is_default());
}

#[test]
fn location_state_test_default_state() {
    let now = fixed_time();
    let state = LocationState::default_state(LocationId::new(), WorldId::new(), "Normal", now);

    assert!(state.is_default());
    assert_eq!(state.activation_rules().len(), 1);
    assert!(matches!(state.activation_rules()[0], ActivationRule::Always));
}

#[test]
fn location_state_test_soft_rules_detection() {
    let now = fixed_time();
    let state = LocationState::new(LocationId::new(), WorldId::new(), "Test", now);

    assert!(!state.has_soft_rules());

    let state = state.with_rule(ActivationRule::TimeOfDay {
        period: TimeOfDay::Evening,
    });
    assert!(!state.has_soft_rules());

    let state = state.with_rule(ActivationRule::Custom {
        description: "When the mood is tense".to_string(),
        llm_prompt: None,
    });
    assert!(state.has_soft_rules());
    assert_eq!(state.hard_rules().len(), 1);
    assert_eq!(state.soft_rules().len(), 1);
}

#[test]
fn test_generation_metadata() {
    let now = fixed_time();
    let state = LocationState::new(LocationId::new(), WorldId::new(), "Test", now)
        .with_generation_prompt("A serene forest path".to_string())
        .with_workflow_id("backdrop_v2".to_string());

    assert_eq!(state.generation_prompt(), Some("A serene forest path"));
    assert_eq!(state.workflow_id(), Some("backdrop_v2"));

    let summary = state.summary();
    assert_eq!(
        summary.generation_prompt,
        Some("A serene forest path".to_string())
    );
    assert_eq!(summary.workflow_id, Some("backdrop_v2".to_string()));
}

#[test]
fn test_new_with_id() {
    let now = fixed_time();
    let specific_id = LocationStateId::new();
    let state = LocationState::new_with_id(
        specific_id,
        LocationId::new(),
        WorldId::new(),
        "Deterministic State",
        now,
    );

    assert_eq!(state.id(), specific_id);
    assert_eq!(state.name(), "Deterministic State");
}

#[test]
fn location_state_blank_name_and_long_description_become_empty() {
    let state = LocationState::new(LocationId::new(), WorldId::new(), "   ", fixed_time())
        .with_description(&"d".repeat(5001));
    assert_eq!(state.name(), "");
    assert_eq!(state.description(), "");
    let state = state.with_rules(vec![ActivationRule::Always], ActivationLogic::Any);
    assert_eq!(state.activation_logic(), ActivationLogic::Any);
    let summary = state
        .with_ambient_sound(AssetPath::new("rain.ogg").unwrap())
        .summary();
    assert_eq!(summary.ambient_sound.as_deref(), Some("rain.ogg"));
}

#[test]
fn test_region_state_creation() {
    let now = fixed_time();
    let state = RegionState::new(
        RegionId::new(),
        LocationId::new(),
        WorldId::new(),
        "Evening",
        now,
    )
    .with_description("Warm evening atmosphere")
    .with_backdrop("/assets/tavern_evening.png")
    .with_atmosphere("Warm candlelight flickers across polished brass...")
    .with_rule(ActivationRule::TimeOfDay {
        period: TimeOfDay::Evening,
    })
    .with_priority(10);

    assert_eq!(state.name, "Evening");
    assert!(state.backdrop_override.is_some());
    assert_eq!(state.priority, 10);
    assert!(!state.is_default);
    assert_eq!(state.activation_rules.len(), 1);
}

#[test]
fn region_state_test_default_state() {
    let now = fixed_time();
    let state = RegionState::default_state(
        RegionId::new(),
        LocationId::new(),
        WorldId::new(),
        "Default",
        now,
    );

    assert!(state.is_default);
    assert_eq!(state.activation_rules.len(), 1);
    assert!(matches!(state.activation_rules[0], ActivationRule::Always));
}

#[test]
fn region_state_test_soft_rules_detection() {
    let now = fixed_time();
    let mut state = RegionState::new(
        RegionId::new(),
        LocationId::new(),
        WorldId::new(),
        "Test",
        now,
    );

    assert!(!state.has_soft_rules());

    state.activation_rules.push(ActivationRule::TimeOfDay {
        period: TimeOfDay::Morning,
    });
    assert!(!state.has_soft_rules());

    state.activation_rules.push(ActivationRule::Custom {
        description: "When the party is celebrating".to_string(),
        llm_prompt: None,
    });
    assert!(state.has_soft_rules());
    assert_eq!(state.hard_rules().len(), 1);
    assert_eq!(state.soft_rules().len(), 1);
}

#[test]
fn test_summary() {
    let now = fixed_time();
    let state = RegionState::new(
        RegionId::new(),
        LocationId::new(),
        WorldId::new(),
        "Morning",
        now,
    )
    .with_backdrop("/assets/tavern_morning.png")
    .with_priority(10);

    let summary = state.summary();
    assert_eq!(summary.name, "Morning");
    assert_eq!(
        summary.backdrop_override,
        Some("/assets/tavern_morning.png".to_string())
    );
    assert_eq!(summary.priority, 10);
}
