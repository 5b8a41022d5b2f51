use wrldbldr_domain::game_flag::{FlagScope, GameFlag};
use wrldbldr_domain::goal::Goal;
use wrldbldr_domain::ids::{CharacterId, GoalId, ItemId, PlayerCharacterId, SceneId, WorldId};
use wrldbldr_domain::interaction::{
    InteractionCondition, InteractionRequirement, InteractionTarget, InteractionTemplate,
    InteractionType,
};
use wrldbldr_domain::value_objects::{GoalName, Timestamp};

#[test]
fn interaction_template_builders() {
    let scene = SceneId::new();
    let t = InteractionTemplate::new(
        scene,
        "Talk to the barkeep",
        InteractionType::Dialogue,
        InteractionTarget::Character(CharacterId::new()),
    )
    .with_prompt_hints("friendly")
    .with_allowed_tool("give_item")
    .with_allowed_tool("reveal_info")
    .with_condition(InteractionCondition::FlagSet("tavern_open".to_string()))
    .with_order(2);
    assert_eq!(t.scene_id, scene);
    assert_eq!(t.name, "Talk to the barkeep");
    assert_eq!(t.allowed_tools, vec!["give_item".to_string(), "reveal_info".to_string()]);
    assert_eq!(t.conditions.len(), 1);
    assert!(t.is_available);
    assert_eq!(t.order, 2);
    let t = t.disabled();
    assert!(!t.is_available);
    let u = InteractionTemplate::new(
        scene,
        "Look",
        InteractionType::Custom("peek".to_string()),
        InteractionTarget::NoTarget,
    );
    assert_eq!(u.interaction_type, InteractionType::Custom("peek".to_string()));
    assert!(u.allowed_tools.is_empty());
    assert!(!InteractionRequirement::default().consumed);
    let _ = InteractionCondition::HasItem(ItemId::new());
}

#[test]
fn game_flag_constructors() {
    let t = Timestamp::from_unix(10, 0);
    let f = GameFlag::set("door_open", t);
    assert_eq!(f.name(), "door_open");
    assert!(f.value());
    assert!(!GameFlag::unset("door_open", t).value());
    let f = f.with_value(false).with_updated_at(Timestamp::from_unix(20, 0));
    assert!(!f.value());
    assert_eq!(f.updated_at(), Timestamp::from_unix(20, 0));
}

#[test]
fn flag_scope_accessors() {
    let w = WorldId::new();
    let pc = PlayerCharacterId::new();
    let ws = FlagScope::World(w);
    let ps = FlagScope::PlayerCharacter(pc);
    assert_eq!(ws.world_id(), Some(w));
    assert_eq!(ws.player_character_id(), None);
    assert!(ws.is_world() && !ws.is_player_character());
    assert_eq!(ps.player_character_id(), Some(pc));
    assert_eq!(ps.world_id(), None);
    assert!(ps.is_player_character());
}

#[test]
fn goal_builders() {
    let id = GoalId::new();
    let g = Goal::new(WorldId::new(), GoalName::new("Revenge").unwrap())
        .with_description("For the fallen")
        .with_id(id);
    assert_eq!(g.id(), id);
    assert_eq!(g.name().as_str(), "Revenge");
    assert_eq!(g.description(), Some("For the fallen"));
    let w = WorldId::new();
    let g2 = Goal::from_storage(id, w, GoalName::new("Power").unwrap(), None);
    assert_eq!(g2.world_id(), w);
    assert!(g2.description().is_none());
    assert!(GoalName::new("").is_err());
}
