use wrldbldr_domain::monomyth::MonomythStage;

const STAGES: [MonomythStage; 12] = [
    MonomythStage::OrdinaryWorld,
    MonomythStage::CallToAdventure,
    MonomythStage::RefusalOfTheCall,
    MonomythStage::MeetingTheMentor,
    MonomythStage::CrossingTheThreshold,
    MonomythStage::TestsAlliesEnemies,
    MonomythStage::ApproachToInnermostCave,
    MonomythStage::Ordeal,
    MonomythStage::Reward,
    MonomythStage::TheRoadBack,
    MonomythStage::Resurrection,
    MonomythStage::ReturnWithElixir,
];

#[test]
fn stage_names_parse_back() {
    assert_eq!(MonomythStage::CallToAdventure.as_str(), "CallToAdventure");
    for s in STAGES {
        assert_eq!(s.as_str().parse::<MonomythStage>(), Ok(s));
    }
}

#[test]
fn stage_names_are_distinct() {
    for (i, a) in STAGES.iter().enumerate() {
        for (j, b) in STAGES.iter().enumerate() {
            assert_eq!(i == j, a.as_str() == b.as_str());
        }
    }
}

#[test]
fn stage_parsing_is_case_sensitive() {
    assert_eq!("Unknown".parse::<MonomythStage>(), Err(()));
    assert_eq!("ordinaryworld".parse::<MonomythStage>(), Err(()));
    assert_eq!("Ordeal".parse::<MonomythStage>(), Ok(MonomythStage::Ordeal));
    assert_eq!(MonomythStage::default(), MonomythStage::OrdinaryWorld);
}
