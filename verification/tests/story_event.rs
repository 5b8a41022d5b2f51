use wrldbldr_domain::events::DomainEvent;
use wrldbldr_domain::ids::{CharacterId, LocationId, SceneId, StoryEventId, WorldId};
use wrldbldr_domain::narrative::Sentiment;
use wrldbldr_domain::story_event::{
    ChallengeEventOutcome, CombatEventType, CombatOutcome, InvolvedCharacter, StoryEvent,
    StoryEventType,
};
use wrldbldr_domain::value_objects::Timestamp;

fn now() -> Timestamp {
    Timestamp::from_unix(1_700_000_000, 0)
}

fn summarized(event_type: StoryEventType) -> String {
    let mut e = StoryEvent::new(WorldId::new(), event_type, now());
    e.auto_summarize();
    e.summary
}

#[test]
fn summaries_of_common_events() {
    assert_eq!(
        summarized(StoryEventType::LocationChange {
            from_location: None,
            to_location: LocationId::new(),
            character_id: CharacterId::new(),
            travel_method: None,
        }),
        "Traveled to a new location"
    );
    assert_eq!(
        summarized(StoryEventType::DialogueExchange {
            npc_id: CharacterId::new(),
            npc_name: "Mira".to_string(),
            player_dialogue: "hi".to_string(),
            npc_response: "hello".to_string(),
            topics_discussed: vec![],
            tone: None,
        }),
        "Spoke with Mira"
    );
    assert_eq!(
        summarized(StoryEventType::ChallengeAttempted {
            challenge_id: None,
            challenge_name: "Climb".to_string(),
            character_id: CharacterId::new(),
            skill_used: None,
            difficulty: None,
            roll_result: Some(15),
            modifier: None,
            outcome: ChallengeEventOutcome::PartialSuccess,
        }),
        "Climb: PartialSuccess"
    );
    assert_eq!(
        summarized(StoryEventType::FlagChanged {
            flag_name: "door_open".to_string(),
            new_value: false,
            reason: "closed".to_string(),
        }),
        "Flag door_open: unset"
    );
    assert_eq!(
        summarized(StoryEventType::SessionStarted {
            session_number: 12,
            session_name: None,
            players_present: vec![],
        }),
        "Session 12 started"
    );
    assert_eq!(
        summarized(StoryEventType::NpcAction {
            npc_id: CharacterId::new(),
            npc_name: "Guard".to_string(),
            action_type: "an arrest".to_string(),
            description: String::new(),
            dm_approved: true,
            dm_modified: false,
        }),
        "Guard performed an arrest"
    );
    assert_eq!(
        summarized(StoryEventType::SceneTransition {
            from_scene: None,
            to_scene: SceneId::new(),
            from_scene_name: None,
            to_scene_name: "The Docks".to_string(),
            trigger_reason: String::new(),
        }),
        "Entered: The Docks"
    );
    assert_eq!(
        summarized(StoryEventType::RelationshipChanged {
            from_character: CharacterId::new(),
            to_character: CharacterId::new(),
            previous_sentiment: None,
            new_sentiment: Sentiment::from_bits(0.5f32.to_bits()),
            sentiment_change: Sentiment::from_bits(0.5f32.to_bits()),
            reason: "Saved her life".to_string(),
        }),
        "Saved her life"
    );
}

#[test]
fn combat_summaries_follow_stage_and_outcome() {
    let combat = |t: CombatEventType, o: Option<CombatOutcome>| {
        summarized(StoryEventType::CombatEvent {
            combat_type: t,
            participants: vec![],
            enemies: vec![],
            outcome: o,
            location_id: LocationId::new(),
            rounds: None,
        })
    };
    assert_eq!(combat(CombatEventType::Started, Some(CombatOutcome::Victory)), "Combat began");
    assert_eq!(combat(CombatEventType::Ended, Some(CombatOutcome::Victory)), "Won the battle");
    assert_eq!(combat(CombatEventType::Ended, Some(CombatOutcome::Draw)), "Combat ended in a draw");
    assert_eq!(combat(CombatEventType::Ended, None), "Combat ended");
    assert_eq!(combat(CombatEventType::CharacterFled, None), "Character fled from combat");
}

#[test]
fn custom_event_keeps_its_data_and_title() {
    let e = StoryEvent::new(
        WorldId::new(),
        StoryEventType::Custom {
            event_subtype: "weather".to_string(),
            title: "Storm rolls in".to_string(),
            description: String::new(),
            data: serde_json::Value::Null,
        },
        now(),
    )
    .with_tag("weather")
    .with_game_time("Day 3, Evening")
    .hidden();
    assert_eq!(e.kind_name(), "Custom");
    assert!(e.is_hidden);
    assert_eq!(e.tags, vec!["weather".to_string()]);
    let mut e2 = e.clone();
    e2.auto_summarize();
    assert_eq!(e2.summary, "Storm rolls in");
    assert_eq!(e2.game_time.as_deref(), Some("Day 3, Evening"));
}

#[test]
fn involved_character_roles() {
    let id = CharacterId::new();
    assert_eq!(InvolvedCharacter::actor(id).role, "Actor");
    assert_eq!(InvolvedCharacter::target(id).role, "Target");
    assert_eq!(InvolvedCharacter::speaker(id).role, "Speaker");
    assert_eq!(InvolvedCharacter::witness(id).role, "Witness");
    assert_eq!(InvolvedCharacter::new(id, "Ally").character_id, id);
}

#[test]
fn domain_event_type_and_world() {
    let w = WorldId::new();
    let e = DomainEvent::StoryEventCreated {
        story_event_id: StoryEventId::new(),
        world_id: w,
        event_type: "Dialogue".to_string(),
    };
    assert_eq!(e.event_type(), "story_event_created");
    assert_eq!(e.world_id(), Some(w));
    let s = DomainEvent::SuggestionProgress {
        request_id: "r".to_string(),
        status: "running".to_string(),
        world_id: None,
    };
    assert_eq!(s.event_type(), "suggestion_progress");
    assert_eq!(s.world_id(), None);
    let p = DomainEvent::GenerationBatchProgress {
        batch_id: "b".to_string(),
        world_id: w,
        progress: 0.5f32.to_bits(),
    };
    assert_eq!(p.event_type(), "generation_batch_progress");
}
