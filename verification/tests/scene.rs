use wrldbldr_domain::ids::{ActId, CharacterId, SceneId};
use wrldbldr_domain::scene::{
    Scene, SceneCharacter, SceneCharacterRole, SceneCondition, SceneUpdate, TimeContext, TimeOfDay,
};
use wrldbldr_domain::value_objects::SceneName;

fn create_test_scene() -> Scene {
    let act_id = ActId::new();
    Scene::new(act_id, SceneName::new("Test Scene").unwrap())
}

#[test]
fn new_creates_scene_with_correct_defaults() {
    let act_id = ActId::new();
    let scene = Scene::new(act_id, SceneName::new("The Opening").unwrap());
    assert_eq!(scene.name().as_str(), "The Opening");
    assert_eq!(scene.act_id(), act_id);
    assert!(matches!(scene.time_context(), TimeContext::Unspecified));
    assert!(scene.backdrop_override().is_none());
    assert!(scene.entry_conditions().is_empty());
    assert!(scene.directorial_notes().is_empty());
    assert_eq!(scene.order(), 0);
}

#[test]
fn scene_builder_methods_work() {
    let act_id = ActId::new();
    let scene = Scene::new(act_id, SceneName::new("The Climax").unwrap())
        .with_time(TimeContext::Custom("Midnight".to_string()))
        .with_directorial_notes("Dramatic tension!")
        .with_order(5)
        .with_backdrop_override("dark_throne_room.png");
    assert_eq!(scene.name().as_str(), "The Climax");
    assert!(matches!(scene.time_context(), TimeContext::Custom(s) if s == "Midnight"));
    assert_eq!(scene.directorial_notes(), "Dramatic tension!");
    assert_eq!(scene.order(), 5);
    assert_eq!(scene.backdrop_override(), Some("dark_throne_room.png"));
}

#[test]
fn scene_set_name_works() {
    let mut scene = create_test_scene();
    scene.set_name(SceneName::new("New Name").unwrap());
    assert_eq!(scene.name().as_str(), "New Name");
}

#[test]
fn set_order_works() {
    let mut scene = create_test_scene();
    scene.set_order(10);
    assert_eq!(scene.order(), 10);
}

#[test]
fn set_backdrop_override_works() {
    let mut scene = create_test_scene();
    scene.set_backdrop_override(Some("new_backdrop.png".to_string()));
    assert_eq!(scene.backdrop_override(), Some("new_backdrop.png"));
    scene.set_backdrop_override(None);
    assert!(scene.backdrop_override().is_none());
}

#[test]
fn entry_conditions_and_updates() {
    let mut scene = create_test_scene().with_entry_condition(SceneCondition::FlagSet("door_open".to_string()));
    let done = SceneId::new();
    match scene.add_entry_condition(SceneCondition::CompletedScene(done)) {
        SceneUpdate::EntryConditionAdded { condition } => {
            assert_eq!(condition, SceneCondition::CompletedScene(done))
        }
        other => panic!("unexpected {:?}", other),
    }
    assert_eq!(scene.entry_conditions().len(), 2);
    match scene.clear_entry_conditions() {
        SceneUpdate::EntryConditionsCleared { previous_count } => assert_eq!(previous_count, 2),
        other => panic!("unexpected {:?}", other),
    }
    assert!(scene.entry_conditions().is_empty());
    match scene.set_time_context(TimeContext::TimeOfDay(TimeOfDay::Night)) {
        SceneUpdate::TimeContextChanged { from, to } => {
            assert_eq!(from, TimeContext::Unspecified);
            assert_eq!(to, TimeContext::TimeOfDay(TimeOfDay::Night));
        }
        other => panic!("unexpected {:?}", other),
    }
}

#[test]
fn scene_character_roles() {
    let c = SceneCharacter::new(CharacterId::new(), SceneCharacterRole::Primary).with_entrance_cue("At dawn");
    assert_eq!(c.role(), SceneCharacterRole::Primary);
    assert_eq!(c.entrance_cue(), Some("At dawn"));
    for role in [SceneCharacterRole::Primary, SceneCharacterRole::Secondary, SceneCharacterRole::Background] {
        assert_eq!(role.as_str().parse::<SceneCharacterRole>(), Ok(role));
    }
    assert_eq!("primary".parse::<SceneCharacterRole>(), Err(()));
    assert!(SceneName::new("").is_err());
}
