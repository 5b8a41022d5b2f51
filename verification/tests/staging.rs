use wrldbldr_domain::ids::{CharacterId, LocationId, LocationStateId, RegionId, RegionStateId, WorldId};
use wrldbldr_domain::staging::{
    ResolvedStateInfo, ResolvedVisualState, StagedNpc, Staging, StagingSource, VisualStateSource,
};
use wrldbldr_domain::value_objects::Timestamp;

fn at(secs: i64) -> Timestamp {
    Timestamp::from_unix(secs, 0)
}

fn staging(ttl: i32) -> Staging {
    Staging::new(
        RegionId::new(),
        LocationId::new(),
        WorldId::new(),
        at(1_700_000_000),
        "dm-1",
        StagingSource::RuleBased,
        ttl,
        at(1_700_000_500),
    )
}

#[test]
fn new_staging_is_active_without_visual_state() {
    let s = staging(3);
    assert!(s.is_active);
    assert!(s.npcs.is_empty());
    assert!(!s.has_visual_state());
    assert_eq!(s.visual_state_source, VisualStateSource::HardRulesOnly);
    assert_eq!(s.approved_by, "dm-1");
    let s = s.with_location_state(LocationStateId::new());
    assert!(s.has_visual_state());
    let s = staging(3).with_region_state(RegionStateId::new()).with_guidance("keep it calm");
    assert!(s.has_visual_state());
    assert_eq!(s.dm_guidance.as_deref(), Some("keep it calm"));
}

#[test]
fn staging_expires_after_its_hours() {
    let s = staging(3);
    assert!(!s.is_expired(&at(1_700_000_000 + 3 * 3600)));
    assert!(s.is_expired(&Timestamp::from_unix(1_700_000_000 + 3 * 3600, 1)));
    assert!(s.is_expired(&at(1_700_000_000 + 3 * 3600 + 1)));
    assert!(!s.is_expired(&at(1_600_000_000)));
}

#[test]
fn present_and_visible_npcs_are_filtered_in_order() {
    let mut hidden = StagedNpc::new(CharacterId::new(), "Spy", true, "lurking");
    hidden.is_hidden_from_players = true;
    let npcs = vec![
        StagedNpc::new(CharacterId::new(), "Barkeep", true, "works here"),
        StagedNpc::new(CharacterId::new(), "Guard", false, "off duty"),
        hidden,
        StagedNpc::new(CharacterId::new(), "Bard", true, "evening show").with_sprite("bard.png"),
    ];
    let s = staging(1).with_npcs(npcs);
    let present: Vec<&str> = s.present_npcs().iter().map(|n| n.name.as_str()).collect();
    assert_eq!(present, vec!["Barkeep", "Spy", "Bard"]);
    let visible: Vec<&str> = s.present_visible_npcs().iter().map(|n| n.name.as_str()).collect();
    assert_eq!(visible, vec!["Barkeep", "Bard"]);
    assert!(!s.npcs[2].is_visible_to_players());
    assert!(s.npcs[0].is_visible_to_players());
}

#[test]
fn staging_source_names_parse() {
    assert_eq!("Rule".parse::<StagingSource>().unwrap(), StagingSource::RuleBased);
    assert_eq!("llmbased".parse::<StagingSource>().unwrap(), StagingSource::LlmBased);
    assert_eq!("CUSTOM".parse::<StagingSource>().unwrap(), StagingSource::DmCustomized);
    assert_eq!("whatever".parse::<StagingSource>().unwrap(), StagingSource::Unknown);
    assert_eq!(StagingSource::AutoApproved.as_str(), "auto");
    assert_eq!(StagingSource::PreStaged.as_str(), "prestaged");
}

#[test]
fn visual_state_source_names_parse() {
    assert_eq!("rules".parse::<VisualStateSource>().unwrap(), VisualStateSource::HardRulesOnly);
    assert_eq!("DmOverride".parse::<VisualStateSource>().unwrap(), VisualStateSource::DmOverride);
    assert_eq!(
        "bogus".parse::<VisualStateSource>().unwrap_err(),
        "Unknown visual state source: bogus"
    );
    assert_eq!(VisualStateSource::WithLlmEvaluation.as_str(), "llm");
}

#[test]
fn resolved_visual_state_builders() {
    let v = ResolvedVisualState::new();
    assert!(!v.has_any());
    let info = ResolvedStateInfo::new("id-1", "Festival")
        .with_backdrop("fest.png")
        .with_atmosphere("lively")
        .with_ambient_sound("music.ogg");
    let v = v.with_region_state(info);
    assert!(v.has_any());
    assert_eq!(v.region_state.as_ref().unwrap().ambient_sound.as_deref(), Some("music.ogg"));
    assert!(ResolvedVisualState::default().location_state.is_none());
}
