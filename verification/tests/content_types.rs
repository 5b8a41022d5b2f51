use wrldbldr_domain::content_types::{ContentSource, ContentType, SourceType};

#[test]
fn content_type_display() {
    assert_eq!(ContentType::CharacterOrigin.display_name(), "Origin");
    assert_eq!(ContentType::CharacterClass.display_name(), "Class");
    assert_eq!(
        ContentType::Custom("Playbook".to_string()).display_name(),
        "Playbook"
    );
}

#[test]
fn content_type_slug() {
    assert_eq!(ContentType::CharacterOrigin.slug(), "origin");
    assert_eq!(ContentType::ClassFeature.slug(), "class_feature");
    assert_eq!(
        ContentType::Custom("Special Move".to_string()).slug(),
        "special_move"
    );
}

#[test]
fn sources_from_known_and_unknown_codes() {
    let phb = ContentSource::from_code("phb");
    assert_eq!(phb.code(), "PHB");
    assert_eq!(phb.name(), "Player's Handbook");
    assert_eq!(phb.source_type(), &SourceType::Official);

    let srd = ContentSource::from_code("srd5");
    assert_eq!(srd.source_type(), &SourceType::Srd);

    let kobold = ContentSource::from_code("Kobold");
    assert_eq!(kobold.code(), "KOBOLD");
    assert_eq!(kobold.source_type(), &SourceType::ThirdParty);

    let odd = ContentSource::from_code("zz9");
    assert_eq!(odd.code(), "ZZ9");
    assert_eq!(odd.name(), "zz9");
    assert_eq!(odd.source_type(), &SourceType::Official);
    assert_eq!(odd.page(), None);
}

#[test]
fn source_builders_and_labels() {
    let hb = ContentSource::homebrew("My Book").with_page(12);
    assert_eq!(hb.code(), "HB");
    assert_eq!(hb.name(), "My Book");
    assert_eq!(hb.page(), Some(12));
    let third = ContentSource::new("X", "Y", SourceType::Official).with_source_type(SourceType::ThirdParty);
    assert_eq!(third.source_type().label(), "Third Party");
    assert_eq!(SourceType::Srd.label(), "SRD");
}
