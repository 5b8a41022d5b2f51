use wrldbldr_domain::event_chain::EventChain;
use wrldbldr_domain::ids::{NarrativeEventId, WorldId};
use wrldbldr_domain::value_objects::Timestamp;

fn test_world_id() -> WorldId {
    WorldId::from_u128(0)
}

fn test_event_id(n: u8) -> NarrativeEventId {
    NarrativeEventId::from_u128(u128::from_be_bytes([n; 16]))
}

fn test_now() -> Timestamp {
    // 2024-01-01T00:00:00Z
    Timestamp::from_unix(1_704_067_200, 0)
}

fn later_by(t: Timestamp, seconds: i64) -> Timestamp {
    Timestamp::from_unix(t.unix_seconds + seconds, t.subsec_nanos)
}

/// The chain with its current position set (as loading it would).
fn at_position(chain: EventChain, position: u32) -> EventChain {
    EventChain::from_parts(
        chain.id(),
        chain.world_id(),
        chain.name().to_string(),
        chain.description().to_string(),
        chain.events().to_vec(),
        chain.is_active(),
        position,
        chain.completed_events().to_vec(),
        chain.act_id(),
        chain.tags().to_vec(),
        chain.color().map(|c| c.to_string()),
        chain.is_favorite(),
        chain.created_at(),
        chain.updated_at(),
    )
}

#[test]
fn test_new() {
    let world_id = test_world_id();
    let now = test_now();
    let chain = EventChain::new(world_id, "Test Chain", now);

    assert_eq!(chain.name(), "Test Chain");
    assert_eq!(chain.world_id(), world_id);
    assert!(chain.is_active());
    assert_eq!(chain.current_position(), 0);
    assert!(chain.events().is_empty());
    assert!(chain.completed_events().is_empty());
    assert_eq!(chain.created_at(), now);
    assert_eq!(chain.updated_at(), now);
}

#[test]
fn test_add_event() {
    let world_id = test_world_id();
    let now = test_now();
    let mut chain = EventChain::new(world_id, "Test", now);
    let event1 = test_event_id(1);
    let event2 = test_event_id(2);

    let later = later_by(now, 1);
    chain.add_event(event1, later);
    assert_eq!(chain.events().len(), 1);
    assert_eq!(chain.events()[0], event1);
    assert_eq!(chain.updated_at(), later);

    chain.add_event(event2, later);
    assert_eq!(chain.events().len(), 2);
    assert_eq!(chain.events()[1], event2);
}

fn abc(now: Timestamp) -> EventChain {
    let mut chain = EventChain::new(test_world_id(), "Test", now);
    chain.add_event(test_event_id(1), now);
    chain.add_event(test_event_id(2), now);
    chain.add_event(test_event_id(3), now);
    chain
}

#[test]
fn test_insert_event_at_beginning() {
    let now = test_now();
    let (event_a, event_b, event_c, event_x) =
        (test_event_id(1), test_event_id(2), test_event_id(3), test_event_id(10));
    let mut chain = at_position(abc(now), 1);

    chain.insert_event(0, event_x, now);

    assert_eq!(chain.events().len(), 4);
    assert_eq!(chain.events()[0], event_x);
    assert_eq!(chain.events()[1], event_a);
    assert_eq!(chain.events()[2], event_b);
    assert_eq!(chain.events()[3], event_c);
    assert_eq!(chain.current_position(), 2);
}

#[test]
fn test_insert_event_at_current_position() {
    let now = test_now();
    let (event_a, event_b, event_c, event_x) =
        (test_event_id(1), test_event_id(2), test_event_id(3), test_event_id(10));
    let mut chain = at_position(abc(now), 1);

    chain.insert_event(1, event_x, now);

    assert_eq!(chain.events().len(), 4);
    assert_eq!(chain.events()[0], event_a);
    assert_eq!(chain.events()[1], event_x);
    assert_eq!(chain.events()[2], event_b);
    assert_eq!(chain.events()[3], event_c);
    assert_eq!(chain.current_position(), 2);
}

#[test]
fn test_insert_event_after_current_position() {
    let now = test_now();
    let (event_a, event_b, event_c, event_x) =
        (test_event_id(1), test_event_id(2), test_event_id(3), test_event_id(10));
    let mut chain = at_position(abc(now), 1);

    chain.insert_event(2, event_x, now);

    assert_eq!(chain.events().len(), 4);
    assert_eq!(chain.events()[0], event_a);
    assert_eq!(chain.events()[1], event_b);
    assert_eq!(chain.events()[2], event_x);
    assert_eq!(chain.events()[3], event_c);
    assert_eq!(chain.current_position(), 1);
}

#[test]
fn test_insert_event_at_end() {
    let now = test_now();
    let mut chain = EventChain::new(test_world_id(), "Test", now);
    let event_a = test_event_id(1);
    let event_b = test_event_id(2);
    let event_x = test_event_id(10);
    chain.add_event(event_a, now);
    chain.add_event(event_b, now);
    let mut chain = at_position(chain, 0);

    chain.insert_event(2, event_x, now);

    assert_eq!(chain.events().len(), 3);
    assert_eq!(chain.events()[2], event_x);
    assert_eq!(chain.current_position(), 0);
}

#[test]
fn test_insert_event_out_of_bounds() {
    let now = test_now();
    let mut chain = EventChain::new(test_world_id(), "Test", now);
    chain.add_event(test_event_id(1), now);
    let original_len = chain.events().len();

    chain.insert_event(10, test_event_id(10), now);

    assert_eq!(chain.events().len(), original_len);
}

#[test]
fn test_remove_event() {
    let now = test_now();
    let (event_a, event_b, event_c) = (test_event_id(1), test_event_id(2), test_event_id(3));
    let mut chain = abc(now);

    let later = later_by(now, 1);
    let removed = chain.remove_event(&event_b, later);

    assert!(removed);
    assert_eq!(chain.events().len(), 2);
    assert_eq!(chain.events()[0], event_a);
    assert_eq!(chain.events()[1], event_c);
    assert!(!chain.contains_event(&event_b));
    assert_eq!(chain.updated_at(), later);
}

#[test]
fn test_remove_event_not_found() {
    let now = test_now();
    let mut chain = EventChain::new(test_world_id(), "Test", now);
    chain.add_event(test_event_id(1), now);
    let original_updated = chain.updated_at();

    let removed = chain.remove_event(&test_event_id(2), later_by(now, 5));

    assert!(!removed);
    assert_eq!(chain.events().len(), 1);
    assert_eq!(chain.updated_at(), original_updated);
}

#[test]
fn test_remove_event_also_removes_from_completed() {
    let now = test_now();
    let mut chain = EventChain::new(test_world_id(), "Test", now);
    let event_a = test_event_id(1);
    let event_b = test_event_id(2);
    chain.add_event(event_a, now);
    chain.add_event(event_b, now);
    chain.complete_event(event_b, now);

    chain.remove_event(&event_b, now);

    assert!(!chain.completed_events().contains(&event_b));
}

#[test]
fn test_remove_event_before_current_position() {
    let now = test_now();
    let (event_a, event_b, event_c) = (test_event_id(1), test_event_id(2), test_event_id(3));
    let mut chain = at_position(abc(now), 2);

    chain.remove_event(&event_a, now);

    assert_eq!(chain.events().len(), 2);
    assert_eq!(chain.events()[0], event_b);
    assert_eq!(chain.events()[1], event_c);
    assert_eq!(chain.current_position(), 1);
}

#[test]
fn test_remove_event_at_current_position() {
    let now = test_now();
    let (event_a, event_b, event_c) = (test_event_id(1), test_event_id(2), test_event_id(3));
    let mut chain = at_position(abc(now), 1);

    chain.remove_event(&event_b, now);

    assert_eq!(chain.events().len(), 2);
    assert_eq!(chain.events()[0], event_a);
    assert_eq!(chain.events()[1], event_c);
    assert_eq!(chain.current_position(), 1);
}

#[test]
fn test_remove_event_after_current_position() {
    let now = test_now();
    let (event_a, event_b, event_c) = (test_event_id(1), test_event_id(2), test_event_id(3));
    let mut chain = at_position(abc(now), 0);

    chain.remove_event(&event_c, now);

    assert_eq!(chain.events().len(), 2);
    assert_eq!(chain.events()[0], event_a);
    assert_eq!(chain.events()[1], event_b);
    assert_eq!(chain.current_position(), 0);
}

#[test]
fn test_reorder_events() {
    let now = test_now();
    let (event_a, event_b, event_c) = (test_event_id(1), test_event_id(2), test_event_id(3));
    let mut chain = abc(now);

    let later = later_by(now, 1);
    chain.reorder_events(vec![event_c, event_a, event_b], later);

    assert_eq!(chain.events().len(), 3);
    assert_eq!(chain.events()[0], event_c);
    assert_eq!(chain.events()[1], event_a);
    assert_eq!(chain.events()[2], event_b);
    assert_eq!(chain.updated_at(), later);
}

#[test]
fn test_reorder_events_clamps_current_position() {
    let now = test_now();
    let mut chain = EventChain::new(test_world_id(), "Test", now);
    let event_a = test_event_id(1);
    let event_b = test_event_id(2);
    chain.add_event(event_a, now);
    chain.add_event(event_b, now);
    let mut chain = at_position(chain, 5);

    chain.reorder_events(vec![event_b], now);

    assert_eq!(chain.current_position(), 0);
}

#[test]
fn test_reorder_events_empty_list() {
    let now = test_now();
    let mut chain = EventChain::new(test_world_id(), "Test", now);
    chain.add_event(test_event_id(1), now);
    let mut chain = at_position(chain, 0);

    chain.reorder_events(vec![], now);

    assert_eq!(chain.current_position(), 0);
    assert!(chain.events().is_empty());
}

#[test]
fn test_complete_event() {
    let now = test_now();
    let event_b = test_event_id(2);
    let mut chain = at_position(abc(now), 1);

    let later = later_by(now, 1);
    chain.complete_event(event_b, later);

    assert!(chain.completed_events().contains(&event_b));
    assert_eq!(chain.current_position(), 2);
    assert_eq!(chain.updated_at(), later);
}

#[test]
fn test_complete_event_not_current() {
    let now = test_now();
    let event_a = test_event_id(1);
    let mut chain = at_position(abc(now), 1);

    chain.complete_event(event_a, now);

    assert!(chain.completed_events().contains(&event_a));
    assert_eq!(chain.current_position(), 1);
}

#[test]
fn test_complete_event_duplicate() {
    let now = test_now();
    let mut chain = EventChain::new(test_world_id(), "Test", now);
    let event_a = test_event_id(1);
    chain.add_event(event_a, now);
    chain.complete_event(event_a, now);

    let completed_count = chain.completed_events().len();
    chain.complete_event(event_a, now);

    assert_eq!(chain.completed_events().len(), completed_count);
}

#[test]
fn test_current_event() {
    let now = test_now();
    let mut chain = EventChain::new(test_world_id(), "Test", now);
    let event_a = test_event_id(1);
    let event_b = test_event_id(2);
    chain.add_event(event_a, now);
    chain.add_event(event_b, now);

    let chain = at_position(chain, 0);
    assert_eq!(chain.current_event(), Some(&event_a));

    let chain = at_position(chain, 1);
    assert_eq!(chain.current_event(), Some(&event_b));

    let chain = at_position(chain, 2);
    assert_eq!(chain.current_event(), None);
}

#[test]
fn test_next_event() {
    let now = test_now();
    let (event_b, event_c) = (test_event_id(2), test_event_id(3));
    let chain = at_position(abc(now), 0);

    assert_eq!(chain.next_event(), Some(&event_b));

    let chain = at_position(chain, 1);
    assert_eq!(chain.next_event(), Some(&event_c));

    let chain = at_position(chain, 2);
    assert_eq!(chain.next_event(), None);
}

#[test]
fn test_is_complete() {
    let now = test_now();
    let mut chain = EventChain::new(test_world_id(), "Test", now);
    chain.add_event(test_event_id(1), now);
    chain.add_event(test_event_id(2), now);

    let chain = at_position(chain, 0);
    assert!(!chain.is_complete());

    let chain = at_position(chain, 1);
    assert!(!chain.is_complete());

    let chain = at_position(chain, 2);
    assert!(chain.is_complete());

    let chain = at_position(chain, 5);
    assert!(chain.is_complete());
}

#[test]
fn test_is_complete_empty() {
    let chain = EventChain::new(test_world_id(), "Test", test_now());

    assert!(chain.is_complete());
}

#[test]
fn test_remaining_events() {
    let now = test_now();
    let mut chain = abc(now);

    assert_eq!(chain.remaining_events(), 3);

    chain.complete_event(test_event_id(1), now);
    assert_eq!(chain.remaining_events(), 2);
}

#[test]
fn test_reset() {
    let now = test_now();
    let mut chain = EventChain::new(test_world_id(), "Test", now);
    let event_a = test_event_id(1);
    let event_b = test_event_id(2);
    chain.add_event(event_a, now);
    chain.add_event(event_b, now);
    let mut chain = at_position(chain, 2);
    chain.complete_event(event_a, now);
    chain.complete_event(event_b, now);

    let later = later_by(now, 1);
    chain.reset(later);

    assert_eq!(chain.current_position(), 0);
    assert!(chain.completed_events().is_empty());
    assert_eq!(chain.updated_at(), later);
}

#[test]
fn test_activate_deactivate() {
    let now = test_now();
    let mut chain = EventChain::new(test_world_id(), "Test", now);

    assert!(chain.is_active());

    let later = later_by(now, 1);
    chain.deactivate(later);
    assert!(!chain.is_active());
    assert_eq!(chain.updated_at(), later);

    let later2 = later_by(later, 1);
    chain.activate(later2);
    assert!(chain.is_active());
    assert_eq!(chain.updated_at(), later2);
}

#[test]
fn test_contains_event() {
    let now = test_now();
    let mut chain = EventChain::new(test_world_id(), "Test", now);
    let event_a = test_event_id(1);
    chain.add_event(event_a, now);

    assert!(chain.contains_event(&event_a));
    assert!(!chain.contains_event(&test_event_id(2)));
}

#[test]
fn test_event_position() {
    let chain = abc(test_now());

    assert_eq!(chain.event_position(&test_event_id(1)), Some(0));
    assert_eq!(chain.event_position(&test_event_id(2)), Some(1));
    assert_eq!(chain.event_position(&test_event_id(3)), Some(2));
    assert_eq!(chain.event_position(&test_event_id(4)), None);
}

#[test]
fn test_is_event_completed() {
    let now = test_now();
    let mut chain = EventChain::new(test_world_id(), "Test", now);
    let event_a = test_event_id(1);
    let event_b = test_event_id(2);
    chain.add_event(event_a, now);
    chain.add_event(event_b, now);
    chain.complete_event(event_a, now);

    assert!(chain.is_event_completed(&event_a));
    assert!(!chain.is_event_completed(&event_b));
}

#[test]
fn insert_then_remove_restores_the_chain() {
    let now = test_now();
    let original = at_position(abc(now), 1);
    let mut chain = original.clone();
    chain.insert_event(1, test_event_id(9), now);
    assert_eq!(chain.current_position(), 2);
    assert!(chain.remove_event(&test_event_id(9), now));
    assert_eq!(chain.events(), original.events());
    assert_eq!(chain.current_position(), 1);
}

#[test]
fn builders_and_setters() {
    let now = test_now();
    let mut chain = EventChain::new(test_world_id(), "Arc", now)
        .with_description("The long road")
        .with_tags(vec!["main".to_string()])
        .with_color("#ff0000")
        .with_favorite(true)
        .with_active(false);
    assert_eq!(chain.description(), "The long road");
    assert_eq!(chain.tags(), &["main".to_string()]);
    assert_eq!(chain.color(), Some("#ff0000"));
    assert!(chain.is_favorite());
    assert!(!chain.is_active());
    chain.set_name("Arc II", later_by(now, 3));
    chain.set_color(None, now);
    assert_eq!(chain.name(), "Arc II");
    assert_eq!(chain.color(), None);
}

#[test]
fn completing_an_id_outside_the_chain_records_nothing() {
    let now = test_now();
    let event_a = test_event_id(1);
    let event_b = test_event_id(2);
    let mut chain = EventChain::new(test_world_id(), "One", now);
    chain.add_event(event_a, now);
    chain.complete_event(event_b, now);
    assert!(chain.completed_events().is_empty());
    assert_eq!(chain.current_position(), 0);
    chain.complete_event(event_a, now);
    assert_eq!(chain.completed_events(), &[event_a]);
    assert!(chain.completed_events().len() <= chain.events().len());
    assert_eq!(chain.remaining_events(), 0);
}

#[test]
fn reordering_drops_completions_of_dropped_events() {
    let now = test_now();
    let mut chain = abc(now);
    chain.complete_event(test_event_id(1), now);
    chain.complete_event(test_event_id(3), now);
    chain.reorder_events(vec![test_event_id(3), test_event_id(2)], now);
    assert_eq!(chain.completed_events(), &[test_event_id(3)]);
    assert_eq!(chain.remaining_events(), 1);
}

#[test]
fn stored_completions_keep_only_chain_events_once() {
    let now = test_now();
    let chain = abc(now);
    let loaded = EventChain::from_parts(
        chain.id(),
        chain.world_id(),
        chain.name().to_string(),
        chain.description().to_string(),
        chain.events().to_vec(),
        chain.is_active(),
        0,
        vec![test_event_id(2), test_event_id(9), test_event_id(2), test_event_id(1)],
        chain.act_id(),
        chain.tags().to_vec(),
        None,
        false,
        chain.created_at(),
        chain.updated_at(),
    );
    assert_eq!(loaded.completed_events(), &[test_event_id(2), test_event_id(1)]);
    assert_eq!(loaded.remaining_events(), 1);
}

#[test]
fn progress_counts_stay_within_the_chain() {
    let now = test_now();
    let mut chain = abc(now);
    for n in [1u8, 2, 3, 4] {
        chain.complete_event(test_event_id(n), now);
        assert!(chain.completed_events().len() <= chain.events().len());
    }
    assert_eq!(chain.completed_events().len(), 3);
    assert_eq!(chain.remaining_events(), 0);
}

#[test]
fn cloned_chain_is_equal() {
    let now = test_now();
    let mut chain = abc(now).with_color("#ff0000").with_tags(vec!["main".to_string()]);
    chain.complete_event(test_event_id(1), now);
    let copy = chain.clone();
    assert_eq!(copy, chain);
}
