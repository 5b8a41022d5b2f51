use wrldbldr_domain::challenge::{
    Challenge, ChallengeOutcomes, Difficulty, Outcome, OutcomeTrigger, OutcomeType,
    TriggerCondition, TriggerType,
};
use wrldbldr_domain::ids::{ChallengeId, WorldId};
use wrldbldr_domain::resolution::{
    DifficultyDescriptor, EffectLevel, NarrativeResolutionConfig, NarrativeResolutionStyle,
    NarrativeThresholds, Position,
};

#[test]
fn test_challenge_creation() {
    let world_id = WorldId::new();

    let challenge =
        Challenge::new(world_id, "Investigate the Statue", Difficulty::d20_medium())
            .with_description("Examine the ancient statue for hidden compartments")
            .with_outcomes(ChallengeOutcomes::simple(
                "You find a hidden mechanism in the statue's base",
                "The statue appears to be solid stone",
            ));

    assert_eq!(challenge.name(), "Investigate the Statue");
    assert!(challenge.active());
    assert_eq!(
        challenge.outcomes().success.description,
        "You find a hidden mechanism in the statue's base"
    );
}

#[test]
fn test_trigger_condition_matching() {
    let trigger = TriggerCondition::new(
        TriggerType::object(["statue", "ancient", "stone"]),
        "When player examines the statue",
    );

    assert!(trigger.matches("I want to examine the statue", ""));
    assert!(trigger.matches("look at", "there is an ancient monument here"));
    assert!(!trigger.matches("I walk away", "there is a door"));
}

#[test]
fn test_difficulty_display() {
    assert_eq!(Difficulty::DC(15).display(), "DC 15");
    assert_eq!(Difficulty::Percentage(45).display(), "45%");
    assert_eq!(
        Difficulty::Descriptor(DifficultyDescriptor::Hard).display(),
        "Hard"
    );
}

#[test]
fn test_outcome_triggers() {
    let outcome = Outcome::new("You discover a secret passage!")
        .with_trigger(OutcomeTrigger::reveal_persistent("Map of the catacombs"))
        .with_trigger(OutcomeTrigger::enable(ChallengeId::new()));

    assert_eq!(outcome.triggers.len(), 2);
}

#[test]
fn test_evaluate_roll_dc_success() {
    let world_id = WorldId::new();
    let challenge = Challenge::new(world_id, "Test", Difficulty::DC(15))
        .with_outcomes(ChallengeOutcomes::simple("Success!", "Failure!"));

    // Roll 10 + modifier 5 = 15, meets DC 15
    let (outcome_type, outcome) = challenge.evaluate_roll(10, 5);
    assert_eq!(outcome_type, OutcomeType::Success);
    assert_eq!(outcome.description, "Success!");

    // Roll 10 + modifier 3 = 13, below DC 15
    let (outcome_type, outcome) = challenge.evaluate_roll(10, 3);
    assert_eq!(outcome_type, OutcomeType::Failure);
    assert_eq!(outcome.description, "Failure!");
}

#[test]
fn test_evaluate_roll_dc_critical() {
    let world_id = WorldId::new();
    let challenge = Challenge::new(world_id, "Test", Difficulty::DC(15)).with_outcomes(
        ChallengeOutcomes::simple("Success!", "Failure!")
            .with_critical_success("Critical!")
            .with_critical_failure("Fumble!"),
    );

    // Natural 20 = critical success
    let (outcome_type, outcome) = challenge.evaluate_roll(20, 0);
    assert_eq!(outcome_type, OutcomeType::CriticalSuccess);
    assert_eq!(outcome.description, "Critical!");

    // Natural 1 = critical failure
    let (outcome_type, outcome) = challenge.evaluate_roll(1, 10);
    assert_eq!(outcome_type, OutcomeType::CriticalFailure);
    assert_eq!(outcome.description, "Fumble!");
}

#[test]
fn test_evaluate_roll_percentage() {
    let world_id = WorldId::new();
    let challenge = Challenge::new(world_id, "Test", Difficulty::Percentage(45))
        .with_outcomes(ChallengeOutcomes::simple("Success!", "Failure!"));

    // Roll 30 <= 45 = success (lower is better)
    let (outcome_type, _) = challenge.evaluate_roll(30, 0);
    assert_eq!(outcome_type, OutcomeType::Success);

    // Roll 50 > 45 = failure
    let (outcome_type, _) = challenge.evaluate_roll(50, 0);
    assert_eq!(outcome_type, OutcomeType::Failure);
}

#[test]
fn test_evaluate_roll_descriptor() {
    let world_id = WorldId::new();
    let challenge = Challenge::new(
        world_id,
        "Test",
        Difficulty::Descriptor(DifficultyDescriptor::Moderate),
    )
    .with_outcomes(ChallengeOutcomes::simple("Success!", "Failure!").with_partial("Partial!"));

    // Roll 8 + modifier 3 = 11, >= 10 = full success
    let (outcome_type, _) = challenge.evaluate_roll(8, 3);
    assert_eq!(outcome_type, OutcomeType::Success);

    // Roll 5 + modifier 5 = 10, >= 10 = full success
    let (outcome_type, _) = challenge.evaluate_roll(5, 5);
    assert_eq!(outcome_type, OutcomeType::Success);

    // Roll 5 + modifier 3 = 8, 7-9 = partial success
    let (outcome_type, outcome) = challenge.evaluate_roll(5, 3);
    assert_eq!(outcome_type, OutcomeType::Partial);
    assert_eq!(outcome.description, "Partial!");

    // Roll 4 + modifier 3 = 7, 7-9 = partial success
    let (outcome_type, _) = challenge.evaluate_roll(4, 3);
    assert_eq!(outcome_type, OutcomeType::Partial);

    // Roll 3 + modifier 3 = 6, 6- = failure
    let (outcome_type, _) = challenge.evaluate_roll(3, 3);
    assert_eq!(outcome_type, OutcomeType::Failure);

    // Roll 2 + modifier 1 = 3, 6- = failure
    let (outcome_type, _) = challenge.evaluate_roll(2, 1);
    assert_eq!(outcome_type, OutcomeType::Failure);
}

#[test]
fn test_difficulty_dice_suggestion() {
    assert_eq!(Difficulty::DC(15).dice_suggestion().0, "1d20");
    assert_eq!(Difficulty::Percentage(50).dice_suggestion().0, "1d100");
    assert_eq!(
        Difficulty::Descriptor(DifficultyDescriptor::Hard)
            .dice_suggestion()
            .0,
        "2d6"
    );
    assert_eq!(Difficulty::Opposed.dice_suggestion().0, "1d20");
}

#[test]
fn test_difficulty_parse() {
    assert_eq!(Difficulty::parse("DC 15"), Difficulty::DC(15));
    assert_eq!(Difficulty::parse("DC15"), Difficulty::DC(15));
    assert_eq!(Difficulty::parse("dc 20"), Difficulty::DC(20));
    assert_eq!(Difficulty::parse("45%"), Difficulty::Percentage(45));
    assert_eq!(Difficulty::parse(" 80% "), Difficulty::Percentage(80));
    assert_eq!(
        Difficulty::parse("Very Hard"),
        Difficulty::Custom("Very Hard".to_string())
    );
}

#[test]
fn test_evaluate_roll_narrative_pbta_custom_thresholds() {
    let world_id = WorldId::new();
    let challenge = Challenge::new(
        world_id,
        "Test",
        Difficulty::Descriptor(DifficultyDescriptor::Moderate),
    )
    .with_outcomes(ChallengeOutcomes::simple("Success!", "Failure!").with_partial("Partial!"));

    // Custom thresholds: 12+ success, 8+ partial
    let config = NarrativeResolutionConfig {
        style: NarrativeResolutionStyle::PbtA,
        thresholds: NarrativeThresholds {
            critical_success: None,
            full_success: 12,
            partial_success: 8,
            critical_failure: None,
        },
        ..Default::default()
    };

    // Roll 7 + 4 = 11, below 12 but >= 8 = partial with custom thresholds
    let (outcome_type, _) =
        challenge.evaluate_roll_narrative(7, 4, Some(&config), None, None, None);
    assert_eq!(outcome_type, OutcomeType::Partial);

    // Roll 8 + 4 = 12, >= 12 = success with custom thresholds
    let (outcome_type, _) =
        challenge.evaluate_roll_narrative(8, 4, Some(&config), None, None, None);
    assert_eq!(outcome_type, OutcomeType::Success);
}

#[test]
fn test_evaluate_roll_narrative_ladder() {
    let world_id = WorldId::new();
    let challenge = Challenge::new(
        world_id,
        "Test",
        Difficulty::Descriptor(DifficultyDescriptor::Hard), // Hard = +4 on ladder
    )
    .with_outcomes(ChallengeOutcomes::simple("Success!", "Failure!").with_partial("Tie!"));

    let config = NarrativeResolutionConfig {
        style: NarrativeResolutionStyle::Ladder,
        ..Default::default()
    };

    // Roll 0 (4dF with all blanks) + modifier 4 = 4, equals Hard (+4) = tie = partial
    let (outcome_type, _) =
        challenge.evaluate_roll_narrative(0, 4, Some(&config), None, None, None);
    assert_eq!(outcome_type, OutcomeType::Partial);

    // Roll 0 + modifier 5 = 5, beats Hard (+4) by 1 = success
    let (outcome_type, _) =
        challenge.evaluate_roll_narrative(0, 5, Some(&config), None, None, None);
    assert_eq!(outcome_type, OutcomeType::Success);

    // Roll 0 + modifier 3 = 3, below Hard (+4) = failure
    let (outcome_type, _) =
        challenge.evaluate_roll_narrative(0, 3, Some(&config), None, None, None);
    assert_eq!(outcome_type, OutcomeType::Failure);
}

#[test]
fn test_evaluate_roll_narrative_blades() {
    let world_id = WorldId::new();
    let challenge = Challenge::new(
        world_id,
        "Test",
        Difficulty::Descriptor(DifficultyDescriptor::Moderate),
    )
    .with_outcomes(ChallengeOutcomes::simple("Success!", "Failure!").with_partial("Partial!"));

    let config = NarrativeResolutionConfig {
        style: NarrativeResolutionStyle::Blades,
        ..Default::default()
    };

    // Single 6 = success
    let (outcome_type, _) = challenge.evaluate_roll_narrative(
        6,
        0,
        Some(&config),
        Some(Position::Risky),
        Some(EffectLevel::Standard),
        Some(&[6]),
    );
    assert_eq!(outcome_type, OutcomeType::Success);

    // 4 or 5 = partial
    let (outcome_type, _) = challenge.evaluate_roll_narrative(
        5,
        0,
        Some(&config),
        Some(Position::Risky),
        Some(EffectLevel::Standard),
        Some(&[5]),
    );
    assert_eq!(outcome_type, OutcomeType::Partial);

    // 1-3 = failure
    let (outcome_type, _) = challenge.evaluate_roll_narrative(
        3,
        0,
        Some(&config),
        Some(Position::Risky),
        Some(EffectLevel::Standard),
        Some(&[3]),
    );
    assert_eq!(outcome_type, OutcomeType::Failure);

    // Two 6s = critical
    let (outcome_type, _) = challenge.evaluate_roll_narrative(
        6,
        0,
        Some(&config),
        Some(Position::Risky),
        Some(EffectLevel::Standard),
        Some(&[6, 6]),
    );
    assert_eq!(outcome_type, OutcomeType::CriticalSuccess);
}

#[test]
fn test_challenge_accessors() {
    let world_id = WorldId::new();
    let challenge = Challenge::new(world_id, "Test Challenge", Difficulty::DC(15))
        .with_description("A test")
        .with_tag("combat")
        .with_check_stat("STR")
        .with_active(false)
        .with_order(5)
        .with_is_favorite(true);

    assert_eq!(challenge.name(), "Test Challenge");
    assert_eq!(challenge.description(), "A test");
    assert_eq!(challenge.tags(), &["combat"]);
    assert_eq!(challenge.check_stat(), Some("STR"));
    assert!(!challenge.active());
    assert_eq!(challenge.order(), 5);
    assert!(challenge.is_favorite());
}


fn rank(t: OutcomeType) -> u8 {
    match t {
        OutcomeType::CriticalFailure => 0,
        OutcomeType::Failure => 1,
        OutcomeType::Partial => 2,
        OutcomeType::Success => 3,
        OutcomeType::CriticalSuccess => 4,
    }
}

#[test]
fn dc_larger_modifier_never_worse() {
    let challenge = Challenge::new(WorldId::new(), "Leap", Difficulty::DC(15)).with_outcomes(
        ChallengeOutcomes::simple("Made it", "Fell").with_critical_failure("Broke a leg"),
    );
    for roll in 1..=20 {
        let mut last = 0;
        for modifier in -5..=10 {
            let r = rank(challenge.evaluate_roll(roll, modifier).0);
            assert!(r >= last);
            last = r;
        }
    }
    assert_eq!(challenge.evaluate_roll(1, 30).0, OutcomeType::CriticalFailure);
}

#[test]
fn opposed_and_custom_always_succeed() {
    let opposed = Challenge::new(WorldId::new(), "Arm wrestle", Difficulty::Opposed);
    assert_eq!(opposed.evaluate_roll(1, -10).0, OutcomeType::Success);
    let custom = Challenge::new(WorldId::new(), "Odd", Difficulty::Custom("GM decides".to_string()));
    assert_eq!(custom.evaluate_roll(3, 0).0, OutcomeType::Success);
}

#[test]
fn percentage_lower_roll_never_worse() {
    let challenge = Challenge::new(WorldId::new(), "Spot", Difficulty::Percentage(40));
    let mut last = 4;
    for roll in 2..=99 {
        let r = rank(challenge.evaluate_roll(roll, 0).0);
        assert!(r <= last);
        last = r;
    }
}

#[test]
fn natural_rolls_are_criticals_without_critical_outcomes() {
    let w = WorldId::new();
    let c1 = Challenge::new(w, "Test", Difficulty::DC(15))
        .with_outcomes(ChallengeOutcomes::simple("Success!", "Failure!"));
    let (t, o) = c1.evaluate_roll(10, 5);
    assert_eq!(t, OutcomeType::Success);
    assert_eq!(o.description, "Success!");
    assert_eq!(c1.evaluate_roll(10, 3).1.description, "Failure!");
    let c3 = Challenge::new(w, "Test", Difficulty::DC(25))
        .with_outcomes(ChallengeOutcomes::simple("S", "F"));
    let (t, o) = c3.evaluate_roll(20, 0);
    assert_eq!(t, OutcomeType::CriticalSuccess);
    assert_eq!(o.description, "S");
    let (t, o) = c3.evaluate_roll(1, 30);
    assert_eq!(t, OutcomeType::CriticalFailure);
    assert_eq!(o.description, "F");
    let p = Challenge::new(w, "Spot", Difficulty::Percentage(40))
        .with_outcomes(ChallengeOutcomes::simple("S", "F"));
    assert_eq!(p.evaluate_roll(1, 0).0, OutcomeType::CriticalSuccess);
    assert_eq!(p.evaluate_roll(100, 0).0, OutcomeType::CriticalFailure);
}

#[test]
fn difficulty_display_parses_back() {
    for n in [1u32, 5, 15, 20, 45, 100, 12345, u32::MAX] {
        assert_eq!(Difficulty::parse(&Difficulty::DC(n).display()), Difficulty::DC(n));
        assert_eq!(
            Difficulty::parse(&Difficulty::Percentage(n).display()),
            Difficulty::Percentage(n)
        );
    }
}

#[test]
fn reveal_triggers_differ_only_in_persistence() {
    assert_eq!(
        OutcomeTrigger::reveal_information("A hidden door"),
        OutcomeTrigger::RevealInformation { info: "A hidden door".to_string(), persist: false }
    );
    assert_eq!(
        OutcomeTrigger::reveal_persistent("A hidden door"),
        OutcomeTrigger::RevealInformation { info: "A hidden door".to_string(), persist: true }
    );
}
