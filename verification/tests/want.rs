use wrldbldr_domain::value_objects::Timestamp;
use wrldbldr_domain::want::{ActantialView, CharacterWant, Want, WantVisibility};

fn now() -> Timestamp {
    Timestamp::from_unix(1_700_000_000, 0)
}

fn intensity_of(w: &Want) -> f32 {
    f32::from_bits(w.intensity())
}

#[test]
fn new_want_is_hidden_at_half_intensity() {
    let w = Want::new("Find my sister", now());
    assert_eq!(w.description(), "Find my sister");
    assert_eq!(intensity_of(&w), 0.5);
    assert_eq!(w.visibility(), WantVisibility::Hidden);
    assert!(w.tells().is_empty());
    assert!(w.deflection_behavior().is_none());
}

#[test]
fn intensity_is_clamped_to_unit_range() {
    assert_eq!(intensity_of(&Want::new_with_intensity("a", 1.7f32.to_bits(), now())), 1.0);
    assert_eq!(intensity_of(&Want::new_with_intensity("a", (-0.3f32).to_bits(), now())), 0.0);
    assert_eq!(intensity_of(&Want::new_with_intensity("a", 0.25f32.to_bits(), now())), 0.25);
    let w = Want::new("b", now()).with_intensity(2.0f32.to_bits());
    assert_eq!(intensity_of(&w), 1.0);
    assert_eq!(intensity_of(&Want::new_with_intensity("a", f32::NAN.to_bits(), now())), 0.0);
}

#[test]
fn default_deflection_depends_on_intensity() {
    let strong = Want::new_with_intensity("a", 0.9f32.to_bits(), now());
    assert_eq!(
        strong.default_deflection(),
        "Become visibly uncomfortable; firmly redirect conversation"
    );
    let middling = Want::new_with_intensity("a", 0.6f32.to_bits(), now());
    assert_eq!(middling.default_deflection(), "Give a vague, non-committal response");
    let exactly_four_fifths = Want::new_with_intensity("a", 0.8f32.to_bits(), now());
    assert_eq!(exactly_four_fifths.default_deflection(), "Give a vague, non-committal response");
    let mild = Want::new("a", now());
    assert_eq!(mild.default_deflection(), "Smoothly change the subject");
}

#[test]
fn effective_deflection_prefers_the_set_one() {
    let w = Want::new("a", now()).with_deflection("Laughs it off");
    assert_eq!(w.effective_deflection(), "Laughs it off");
    let w = Want::new("a", now());
    assert_eq!(w.effective_deflection(), "Smoothly change the subject");
}

#[test]
fn tells_and_visibility_builders() {
    let w = Want::new("a", now())
        .add_tell("fidgets")
        .add_tell("glances at the door")
        .known();
    assert_eq!(w.tells(), &["fidgets".to_string(), "glances at the door".to_string()]);
    assert!(w.visibility().is_known());
    let cw = CharacterWant::new(w, 1, now()).with_priority(2);
    assert_eq!(cw.priority, 2);
    assert!(cw.is_known());
    assert!(cw.is_at_least_suspected());
    let cw2 = CharacterWant::new(Want::new("b", now()).with_visibility(WantVisibility::Suspected), 1, now());
    assert!(!cw2.is_known());
    assert!(cw2.is_at_least_suspected());
}

#[test]
fn actantial_view_reason() {
    let w = Want::new("a", now());
    let v = ActantialView::new(w.id(), "helped me once", now()).with_reason("saved my life");
    assert_eq!(v.want_id, w.id());
    assert_eq!(v.reason, "saved my life");
}
