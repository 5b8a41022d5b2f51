use wrldbldr_domain::disposition::{DispositionLevel, RelationshipLevel};
use wrldbldr_domain::narrative::Sentiment;

fn level(x: f32) -> DispositionLevel {
    DispositionLevel::from_sentiment(Sentiment::from_bits(x.to_bits()))
}

#[test]
fn from_sentiment_thresholds() {
    assert_eq!(level(1.0), DispositionLevel::Grateful);
    assert_eq!(level(0.6), DispositionLevel::Grateful);
    assert_eq!(level(0.59), DispositionLevel::Friendly);
    assert_eq!(level(0.3), DispositionLevel::Friendly);
    assert_eq!(level(0.1), DispositionLevel::Respectful);
    assert_eq!(level(0.0), DispositionLevel::Neutral);
    assert_eq!(level(-0.0), DispositionLevel::Neutral);
    assert_eq!(level(-0.1), DispositionLevel::Neutral);
    assert_eq!(level(-0.3), DispositionLevel::Dismissive);
    assert_eq!(level(-0.5), DispositionLevel::Suspicious);
    assert_eq!(level(-0.51), DispositionLevel::Hostile);
    assert_eq!(level(f32::NAN), DispositionLevel::Hostile);
}

#[test]
fn base_sentiment_values_and_round_trip() {
    assert_eq!(f32::from_bits(DispositionLevel::Grateful.base_sentiment().bits), 0.7);
    assert_eq!(f32::from_bits(DispositionLevel::Hostile.base_sentiment().bits), -0.8);
    for d in DispositionLevel::all() {
        assert_eq!(DispositionLevel::from_sentiment(d.base_sentiment()), *d);
    }
}

#[test]
fn interaction_modifiers() {
    assert_eq!(f32::from_bits(RelationshipLevel::Ally.interaction_modifier().bits), 0.5);
    assert_eq!(f32::from_bits(RelationshipLevel::Stranger.interaction_modifier().bits), 0.0);
    assert_eq!(f32::from_bits(RelationshipLevel::Nemesis.interaction_modifier().bits), -0.6);
}

#[test]
fn disposition_names_parse_back_in_any_case() {
    for d in DispositionLevel::all() {
        let name = d.display_name();
        assert_eq!(name.parse::<DispositionLevel>(), Ok(*d));
        assert_eq!(name.to_uppercase().parse::<DispositionLevel>(), Ok(*d));
        assert_eq!(name.to_lowercase().parse::<DispositionLevel>(), Ok(*d));
    }
    assert_eq!("HOSTILE".parse::<DispositionLevel>(), Ok(DispositionLevel::Hostile));
    assert_eq!(
        "smitten".parse::<DispositionLevel>(),
        Err("Unknown disposition level: smitten".to_string())
    );
}

#[test]
fn relationship_names_parse_back_in_any_case() {
    for r in RelationshipLevel::all() {
        let name = r.display_name();
        assert_eq!(name.parse::<RelationshipLevel>(), Ok(*r));
        assert_eq!(name.to_uppercase().parse::<RelationshipLevel>(), Ok(*r));
    }
    assert_eq!(
        "pal".parse::<RelationshipLevel>(),
        Err("Unknown relationship level: pal".to_string())
    );
}

#[test]
fn display_names_are_distinct() {
    let ds = DispositionLevel::all();
    for i in 0..ds.len() {
        for j in 0..ds.len() {
            assert_eq!(i == j, ds[i].display_name() == ds[j].display_name());
        }
    }
    let rs = RelationshipLevel::all();
    for i in 0..rs.len() {
        for j in 0..rs.len() {
            assert_eq!(i == j, rs[i].display_name() == rs[j].display_name());
        }
    }
}

#[test]
fn all_lists_are_ordered() {
    let ds = DispositionLevel::all();
    assert_eq!(ds.len(), 7);
    assert_eq!(ds[3], DispositionLevel::Neutral);
    for i in 1..ds.len() {
        let a = f32::from_bits(ds[i - 1].base_sentiment().bits);
        let b = f32::from_bits(ds[i].base_sentiment().bits);
        assert!(a < b);
    }
    let rs = RelationshipLevel::all();
    assert_eq!(rs.len(), 7);
    assert_eq!(rs[3], RelationshipLevel::Stranger);
    for i in 1..rs.len() {
        let a = f32::from_bits(rs[i - 1].interaction_modifier().bits);
        let b = f32::from_bits(rs[i].interaction_modifier().bits);
        assert!(a > b);
    }
}
