use wrldbldr_domain::events::NarrativeEventUpdate;
use wrldbldr_domain::ids::{ChallengeId, CharacterId, LocationId, NarrativeEventId, WorldId};
use wrldbldr_domain::narrative::{
    trigger_matches, EventOutcome, NarrativeTrigger, NarrativeTriggerType, Sentiment,
    TriggerContext, TriggerLogic,
};
use wrldbldr_domain::narrative_event::{EventActivation, FavoriteStatus, NarrativeEvent};
use wrldbldr_domain::tag::Tag;
use wrldbldr_domain::value_objects::{Description, NarrativeEventName, Timestamp};

fn fixed_time() -> Timestamp {
    Timestamp::from_unix(1_700_000_000, 0)
}

fn create_test_event() -> NarrativeEvent {
    let world_id = WorldId::new();
    let now = fixed_time();
    NarrativeEvent::new(world_id, NarrativeEventName::new("Test Event").unwrap(), now)
}

#[test]
fn new_creates_event_with_correct_defaults() {
    let world_id = WorldId::new();
    let now = fixed_time();
    let event = NarrativeEvent::new(
        world_id,
        NarrativeEventName::new("The Revelation").unwrap(),
        now,
    );

    assert_eq!(event.name().as_str(), "The Revelation");
    assert_eq!(event.world_id(), world_id);
    assert!(event.description().is_empty());
    assert!(event.tags().is_empty());
    assert!(event.trigger_conditions().is_empty());
    assert!(matches!(event.trigger_logic(), TriggerLogic::All));
    assert!(event.scene_direction().is_empty());
    assert!(event.suggested_opening().is_none());
    assert!(event.outcomes().is_empty());
    assert!(event.default_outcome().is_none());
    assert!(event.is_active());
    assert!(!event.is_triggered());
    assert!(event.triggered_at().is_none());
    assert!(event.selected_outcome().is_none());
    assert!(!event.is_repeatable());
    assert_eq!(event.trigger_count(), 0);
    assert_eq!(event.delay_turns(), 0);
    assert!(event.expires_after_turns().is_none());
    assert_eq!(event.priority(), 0);
    assert!(!event.is_favorite());
}

#[test]
fn narrative_event_builder_methods_work() {
    let world_id = WorldId::new();
    let now = fixed_time();

    let event = NarrativeEvent::new(world_id, NarrativeEventName::new("Epic Event").unwrap(), now)
        .with_description("A dramatic event")
        .with_tag(Tag::new("drama").unwrap())
        .with_tag(Tag::new("important").unwrap())
        .with_scene_direction(Description::new("Build tension slowly").unwrap())
        .with_suggested_opening("The air grows thick...")
        .with_repeatable(true)
        .with_priority(10)
        .with_favorite(true);

    assert_eq!(event.name().as_str(), "Epic Event");
    assert_eq!(event.description(), "A dramatic event");
    assert_eq!(
        event.tags(),
        &[Tag::new("drama").unwrap(), Tag::new("important").unwrap()]
    );
    assert_eq!(event.scene_direction(), "Build tension slowly");
    assert_eq!(event.suggested_opening(), Some("The air grows thick..."));
    assert!(event.is_repeatable());
    assert_eq!(event.priority(), 10);
    assert!(event.is_favorite());
}

#[test]
fn trigger_sets_state_correctly() {
    let mut event = create_test_event();
    let now = fixed_time();

    event.trigger(Some("success".to_string()), now);

    assert!(event.is_triggered());
    assert!(event.triggered_at().is_some());
    assert_eq!(event.selected_outcome(), Some("success"));
    assert_eq!(event.trigger_count(), 1);
    assert!(!event.is_active()); // Non-repeatable events become inactive
}

#[test]
fn trigger_repeatable_stays_active() {
    let mut event = create_test_event();
    event = event.with_repeatable(true);
    let now = fixed_time();

    event.trigger(Some("success".to_string()), now);

    assert!(event.is_triggered());
    assert!(event.is_active()); // Repeatable events stay active
}

#[test]
fn reset_clears_triggered_state() {
    let mut event = create_test_event();
    event = event.with_repeatable(true);
    let now = fixed_time();

    event.trigger(Some("success".to_string()), now);
    event.reset(now);

    assert!(!event.is_triggered());
    assert!(event.triggered_at().is_none());
    assert!(event.selected_outcome().is_none());
    assert_eq!(event.trigger_count(), 1); // Count is preserved
}

#[test]
fn multiple_triggers_increment_count() {
    let mut event = create_test_event();
    event = event.with_repeatable(true);
    let now = fixed_time();

    event.trigger(None, now);
    event.reset(now);
    event.trigger(None, now);
    event.reset(now);
    event.trigger(None, now);

    assert_eq!(event.trigger_count(), 3);
}

#[test]
fn narrative_event_set_name_works() {
    let mut event = create_test_event();
    event.set_name(NarrativeEventName::new("New Name").unwrap(), fixed_time());
    assert_eq!(event.name().as_str(), "New Name");
}

#[test]
fn narrative_event_set_description_works() {
    let mut event = create_test_event();
    event.set_description("New description", fixed_time());
    assert_eq!(event.description(), "New description");
}

#[test]
fn set_active_works() {
    let mut event = create_test_event();
    let now = fixed_time();
    event.set_active(EventActivation::Inactive, now);
    assert!(!event.is_active());

    event.set_active(EventActivation::Active, now);
    assert!(event.is_active());
}

#[test]
fn set_priority_works() {
    let mut event = create_test_event();
    event.set_priority(5, fixed_time());
    assert_eq!(event.priority(), 5);
}

#[test]
fn set_favorite_works() {
    let mut event = create_test_event();
    let now = fixed_time();
    event.set_favorite(FavoriteStatus::Favorite, now);
    assert!(event.is_favorite());

    event.set_favorite(FavoriteStatus::Normal, now);
    assert!(!event.is_favorite());
}

#[test]
fn no_triggers_returns_not_triggered() {
    let event = create_test_event();
    let context = TriggerContext::new();

    let eval = event.evaluate_triggers(&context);
    assert!(!eval.is_triggered);
    assert_eq!(eval.total_triggers, 0);
}

#[test]
fn flag_set_trigger_works() {
    let world_id = WorldId::new();
    let now = fixed_time();

    let mut trigger = NarrativeTrigger::new(
        NarrativeTriggerType::FlagSet {
            flag_name: "quest_started".to_string(),
        },
        "Quest must be started",
        "flag-1",
    );
    trigger.is_required = true;

    let event = NarrativeEvent::new(world_id, NarrativeEventName::new("Test").unwrap(), now)
        .with_trigger_condition(trigger);

    // Without flag set
    let context = TriggerContext::new();
    let eval = event.evaluate_triggers(&context);
    assert!(!eval.is_triggered);

    // With flag set
    let mut context = TriggerContext::new();
    context.flags = vec![("quest_started".to_string(), true)];
    let eval = event.evaluate_triggers(&context);
    assert!(eval.is_triggered);
}

fn trig(t: NarrativeTriggerType, id: &str) -> NarrativeTrigger {
    NarrativeTrigger::new(t, "test", id)
}

#[test]
fn logic_all_any_and_at_least() {
    let world_id = WorldId::new();
    let now = fixed_time();
    let triggers = vec![
        trig(NarrativeTriggerType::FlagSet { flag_name: "a".to_string() }, "t1"),
        trig(NarrativeTriggerType::FlagSet { flag_name: "b".to_string() }, "t2"),
        trig(NarrativeTriggerType::FlagSet { flag_name: "c".to_string() }, "t3"),
    ];
    let mut context = TriggerContext::new();
    context.flags = vec![("a".to_string(), true), ("c".to_string(), true)];
    let base = NarrativeEvent::new(world_id, NarrativeEventName::new("Logic").unwrap(), now)
        .with_trigger_conditions(triggers);

    let all = base.clone().with_trigger_logic(TriggerLogic::All).evaluate_triggers(&context);
    assert!(!all.is_triggered);
    assert_eq!(all.matched_triggers, vec!["t1".to_string(), "t3".to_string()]);
    assert_eq!(all.unmatched_triggers, vec!["t2".to_string()]);
    assert_eq!(all.total_triggers, 3);

    let any = base.clone().with_trigger_logic(TriggerLogic::Any).evaluate_triggers(&context);
    assert!(any.is_triggered);

    let two = base.clone().with_trigger_logic(TriggerLogic::AtLeast(2)).evaluate_triggers(&context);
    assert!(two.is_triggered);
    let three = base.with_trigger_logic(TriggerLogic::AtLeast(3)).evaluate_triggers(&context);
    assert!(!three.is_triggered);
}

#[test]
fn required_trigger_blocks_any_logic() {
    let world_id = WorldId::new();
    let now = fixed_time();
    let mut required = trig(NarrativeTriggerType::FlagSet { flag_name: "b".to_string() }, "need");
    required.is_required = true;
    let event = NarrativeEvent::new(world_id, NarrativeEventName::new("Req").unwrap(), now)
        .with_trigger_condition(trig(NarrativeTriggerType::FlagSet { flag_name: "a".to_string() }, "opt"))
        .with_trigger_condition(required)
        .with_trigger_logic(TriggerLogic::Any);
    let mut context = TriggerContext::new();
    context.flags = vec![("a".to_string(), true)];
    assert!(!event.evaluate_triggers(&context).is_triggered);
    context.flags.push(("b".to_string(), true));
    assert!(event.evaluate_triggers(&context).is_triggered);
    // A later entry for the same flag replaces the earlier one.
    context.flags.push(("b".to_string(), false));
    assert!(!event.evaluate_triggers(&context).is_triggered);
}

#[test]
fn item_event_and_turn_triggers() {
    let mut context = TriggerContext::new();
    context.inventory = vec!["Rope".to_string(), "Rope".to_string(), "Torch".to_string()];
    assert!(trigger_matches(
        &NarrativeTriggerType::HasItem { item_name: "Rope".to_string(), quantity: Some(2) },
        &context
    ));
    assert!(!trigger_matches(
        &NarrativeTriggerType::HasItem { item_name: "Rope".to_string(), quantity: Some(3) },
        &context
    ));
    assert!(!trigger_matches(
        &NarrativeTriggerType::HasItem { item_name: "rope".to_string(), quantity: None },
        &context
    ));
    assert!(trigger_matches(
        &NarrativeTriggerType::MissingItem { item_name: "Key".to_string() },
        &context
    ));

    let done = NarrativeEventId::new();
    context.completed_events.push(done);
    context.event_outcomes.push((done, "victory".to_string()));
    assert!(trigger_matches(
        &NarrativeTriggerType::EventCompleted {
            event_id: done,
            event_name: "x".to_string(),
            outcome_name: Some("victory".to_string())
        },
        &context
    ));
    assert!(!trigger_matches(
        &NarrativeTriggerType::EventCompleted {
            event_id: done,
            event_name: "x".to_string(),
            outcome_name: Some("defeat".to_string())
        },
        &context
    ));
    assert!(!trigger_matches(
        &NarrativeTriggerType::EventCompleted {
            event_id: NarrativeEventId::new(),
            event_name: "y".to_string(),
            outcome_name: None
        },
        &context
    ));

    context.turn_count = 5;
    context.turns_since_event.push((done, 2));
    assert!(trigger_matches(&NarrativeTriggerType::TurnCount { turns: 5, since_event: None }, &context));
    assert!(!trigger_matches(&NarrativeTriggerType::TurnCount { turns: 6, since_event: None }, &context));
    assert!(trigger_matches(&NarrativeTriggerType::TurnCount { turns: 2, since_event: Some(done) }, &context));
    assert!(!trigger_matches(&NarrativeTriggerType::TurnCount { turns: 3, since_event: Some(done) }, &context));
}

#[test]
fn challenge_location_and_dialogue_triggers() {
    let mut context = TriggerContext::new();
    let ch = ChallengeId::new();
    context.completed_challenges.push(ch);
    context.challenge_successes.push((ch, false));
    let completed = |need: Option<bool>| NarrativeTriggerType::ChallengeCompleted {
        challenge_id: ch,
        challenge_name: "c".to_string(),
        requires_success: need,
    };
    assert!(trigger_matches(&completed(None), &context));
    assert!(trigger_matches(&completed(Some(false)), &context));
    assert!(!trigger_matches(&completed(Some(true)), &context));

    let here = LocationId::new();
    context.current_location = Some(here);
    context.time_context = Some("  Evening ".to_string());
    assert!(trigger_matches(
        &NarrativeTriggerType::PlayerEntersLocation { location_id: here, location_name: "h".to_string() },
        &context
    ));
    assert!(trigger_matches(
        &NarrativeTriggerType::TimeAtLocation {
            location_id: here,
            location_name: "h".to_string(),
            time_context: "evening".to_string()
        },
        &context
    ));
    assert!(!trigger_matches(
        &NarrativeTriggerType::TimeAtLocation {
            location_id: here,
            location_name: "h".to_string(),
            time_context: "morning".to_string()
        },
        &context
    ));

    context.recent_dialogue_topics = vec!["dragons".to_string()];
    assert!(trigger_matches(
        &NarrativeTriggerType::DialogueTopic {
            keywords: vec!["gold".to_string(), "dragons".to_string()],
            with_npc: None,
            npc_name: None
        },
        &context
    ));
    context.recent_player_action = Some("I ASK Marcus about the artifact".to_string());
    assert!(trigger_matches(
        &NarrativeTriggerType::NpcAction {
            npc_id: CharacterId::new(),
            npc_name: "Marcus".to_string(),
            action_keywords: vec!["ask".to_string(), "quest".to_string()],
            action_description: "asks".to_string()
        },
        &context
    ));
}

#[test]
fn compendium_stat_and_custom_triggers() {
    let mut context = TriggerContext::new();
    context.known_spells = vec!["Fireball".to_string()];
    context.class_levels = vec![("Wizard".to_string(), 5)];
    context.origin_id = Some("ELF".to_string());
    assert!(trigger_matches(
        &NarrativeTriggerType::KnowsSpell { spell_id: "fireball".to_string(), spell_name: "F".to_string() },
        &context
    ));
    assert!(trigger_matches(
        &NarrativeTriggerType::HasClass {
            class_id: "wizard".to_string(),
            class_name: "W".to_string(),
            min_level: Some(5)
        },
        &context
    ));
    assert!(!trigger_matches(
        &NarrativeTriggerType::HasClass {
            class_id: "wizard".to_string(),
            class_name: "W".to_string(),
            min_level: Some(6)
        },
        &context
    ));
    assert!(trigger_matches(
        &NarrativeTriggerType::HasOrigin { origin_id: "elf".to_string(), origin_name: "Elf".to_string() },
        &context
    ));
    assert!(!trigger_matches(
        &NarrativeTriggerType::HasFeat { feat_id: "alert".to_string(), feat_name: "A".to_string() },
        &context
    ));

    let npc = CharacterId::new();
    context.add_character_stat(npc, "STR", 14);
    let stat = |min: Option<i32>, max: Option<i32>| NarrativeTriggerType::StatThreshold {
        character_id: npc,
        stat_name: "STR".to_string(),
        min_value: min,
        max_value: max,
    };
    assert!(trigger_matches(&stat(Some(10), Some(14)), &context));
    assert!(!trigger_matches(&stat(Some(15), None), &context));
    context.add_character_stats(npc, vec![("DEX".to_string(), 9)]);
    assert_eq!(context.get_character_stat(npc, "STR"), None);
    assert_eq!(context.get_character_stat(npc, "DEX"), Some(9));

    context.add_custom_trigger_result("The moon is full".to_string(), true);
    assert!(trigger_matches(
        &NarrativeTriggerType::Custom { description: "The moon is full".to_string(), llm_evaluation: true },
        &context
    ));
    assert!(!trigger_matches(
        &NarrativeTriggerType::Custom { description: "The moon is full".to_string(), llm_evaluation: false },
        &context
    ));
    assert!(!trigger_matches(
        &NarrativeTriggerType::CombatResult { victory: Some(true), involved_npc: None },
        &context
    ));
}

fn s(x: f32) -> Sentiment {
    Sentiment::from_bits(x.to_bits())
}

#[test]
fn relationship_threshold_uses_sentiment_bounds() {
    let mut context = TriggerContext::new();
    let npc = CharacterId::new();
    let pc = CharacterId::new();
    context.add_relationship(npc, pc, s(0.6));
    let rel = |min: Option<f32>, max: Option<f32>| NarrativeTriggerType::RelationshipThreshold {
        character_id: npc,
        character_name: "n".to_string(),
        with_character: pc,
        with_character_name: "p".to_string(),
        min_sentiment: min.map(s),
        max_sentiment: max.map(s),
    };
    assert!(trigger_matches(&rel(Some(0.5), None), &context));
    assert!(!trigger_matches(&rel(Some(0.7), None), &context));
    assert!(trigger_matches(&rel(Some(-1.0), Some(0.6)), &context));
    assert!(!trigger_matches(&rel(None, Some(-0.2)), &context));
    assert_eq!(context.get_relationship(pc, npc), None);
}

#[test]
fn sentiment_order_agrees_with_f32() {
    let values = [
        f32::NEG_INFINITY, -1.0, -0.5, -1e-30, -0.0, 0.0, 1e-30, 0.25, 0.6, 1.0,
        f32::INFINITY, f32::NAN, f32::MAX, f32::MIN,
    ];
    for a in values.iter() {
        for b in values.iter() {
            assert_eq!(s(*a).at_least(&s(*b)), *a >= *b, "{} >= {}", a, b);
            assert_eq!(s(*a).at_most(&s(*b)), *a <= *b, "{} <= {}", a, b);
        }
    }
}

#[test]
fn outcomes_by_name_and_default() {
    let outcome = |name: &str| EventOutcome {
        name: name.to_string(),
        label: name.to_uppercase(),
        description: String::new(),
        condition: None,
        effects: vec![],
        chain_events: vec![],
        timeline_summary: None,
    };
    let event = create_test_event()
        .with_outcome(outcome("win"))
        .with_outcome(outcome("lose"))
        .with_default_outcome("lose");
    assert_eq!(event.get_outcome("win").unwrap().label, "WIN");
    assert!(event.get_outcome("draw").is_none());
    assert_eq!(event.get_default_outcome().unwrap().name, "lose");
    assert!(create_test_event().get_default_outcome().is_none());
}

#[test]
fn updates_report_changes() {
    let mut event = create_test_event();
    match event.set_priority(7, fixed_time()) {
        NarrativeEventUpdate::PriorityChanged { from, to } => {
            assert_eq!(from, 0);
            assert_eq!(to, 7);
        }
        other => panic!("unexpected {:?}", other),
    }
    match event.trigger(Some("end".to_string()), fixed_time()) {
        NarrativeEventUpdate::Triggered { outcome, trigger_count, active } => {
            assert_eq!(outcome.as_deref(), Some("end"));
            assert_eq!(trigger_count, 1);
            assert!(!active);
        }
        other => panic!("unexpected {:?}", other),
    }
    let long = "x".repeat(5001);
    event.set_description(&long, fixed_time());
    assert_eq!(event.description(), "");
}

#[test]
fn later_custom_result_replaces_earlier_one() {
    let mut context = TriggerContext::new();
    let trigger = NarrativeTriggerType::Custom {
        description: "The bell tolls".to_string(),
        llm_evaluation: true,
    };
    context.add_custom_trigger_result("The bell tolls".to_string(), true);
    assert!(trigger_matches(&trigger, &context));
    context.add_custom_trigger_result("The bell tolls".to_string(), false);
    assert!(!trigger_matches(&trigger, &context));
    context.add_custom_trigger_result("The bell tolls".to_string(), true);
    assert!(trigger_matches(&trigger, &context));
}
