use wrldbldr_domain::gallery_asset::{GalleryAsset, GenerationMetadata};
use wrldbldr_domain::value_objects::Timestamp;
use wrldbldr_domain::ids::{ActId, BatchId, WorldId};
use wrldbldr_domain::monomyth::MonomythStage;
use wrldbldr_domain::world::Act;

#[test]
fn act_new_and_builder() {
    let w = WorldId::new();
    let act = Act::new(w, "The Call", MonomythStage::CallToAdventure, 1)
        .with_description("A stranger arrives");
    assert_eq!(act.world_id(), w);
    assert_eq!(act.name(), "The Call");
    assert_eq!(act.stage(), MonomythStage::CallToAdventure);
    assert_eq!(act.description(), "A stranger arrives");
    assert_eq!(act.order(), 1);
    let id = ActId::new();
    let stored = Act::from_parts(id, w, "Return".to_string(), MonomythStage::ReturnWithElixir, String::new(), 9);
    assert_eq!(stored.id(), id);
    assert_eq!(stored.description(), "");
}

#[test]
fn generation_metadata_fields() {
    let batch = BatchId::new();
    let m = GenerationMetadata {
        workflow: "portrait".to_string(),
        prompt: "an elf".to_string(),
        negative_prompt: None,
        seed: 42,
        style_reference_id: None,
        batch_id: batch,
    };
    assert_eq!(m.clone(), m);
    assert_eq!(m.batch_id, batch);
}

#[test]
fn gallery_asset_activation_and_labels() {
    let t = Timestamp::from_unix(1, 0);
    let mut a = GalleryAsset::new(1u8, "char-1", 2u8, "/img/a.png", t).with_label("Front");
    assert!(!a.is_active());
    assert!(!a.is_generated());
    assert_eq!(a.label(), Some("Front"));
    a.activate();
    assert!(a.is_active());
    a.update_label(None);
    assert_eq!(a.label(), None);
    a.deactivate();
    assert!(!a.is_active());
    let meta = GenerationMetadata {
        workflow: "w".to_string(),
        prompt: "p".to_string(),
        negative_prompt: None,
        seed: 1,
        style_reference_id: None,
        batch_id: BatchId::new(),
    };
    let g = GalleryAsset::new_generated(1u8, "char-1", 2u8, "/img/b.png", meta.clone(), t).set_active(true);
    assert!(g.is_generated());
    assert!(g.is_active());
    assert_eq!(g.generation_metadata(), Some(&meta));
    assert_eq!(g.file_path(), "/img/b.png");
}
