use wrldbldr_domain::generation_batch::{BatchStatus, GenerationBatch, GenerationRequest};
use wrldbldr_domain::ids::{AssetId, WorldId};
use wrldbldr_domain::value_objects::Timestamp;

#[derive(Debug, Clone, Copy, PartialEq, Eq)]
enum Entity {
    Character,
}

#[derive(Debug, Clone, Copy, PartialEq, Eq)]
enum Asset {
    Portrait,
}

fn at(s: i64) -> Timestamp {
    Timestamp::from_unix(s, 0)
}

#[test]
fn request_becomes_queued_batch() {
    let style = AssetId::new();
    let req = GenerationRequest::new(
        WorldId::new(),
        Entity::Character,
        "char-1",
        Asset::Portrait,
        "portrait_v1",
        "an old wizard",
        4,
    )
    .with_negative_prompt("blurry")
    .with_style_reference(style);
    assert_eq!(req.entity_type(), Entity::Character);
    assert_eq!(req.asset_type(), Asset::Portrait);
    assert_eq!(req.negative_prompt(), Some("blurry"));
    let batch = req.into_batch(at(100));
    assert_eq!(batch.status(), &BatchStatus::Queued);
    assert_eq!(batch.count(), 4);
    assert_eq!(batch.prompt(), "an old wizard");
    assert_eq!(batch.negative_prompt(), Some("blurry"));
    assert_eq!(batch.style_reference_id(), Some(style));
    assert_eq!(batch.requested_at(), at(100));
    assert!(batch.completed_at().is_none());
    assert!(batch.assets().is_empty());
    assert_eq!(batch.queue_position(), None);
}

#[test]
fn batch_lifecycle() {
    let mut b = GenerationBatch::new(WorldId::new(), 1u8, "x", 2u8, "wf", "p", 2, at(0));
    b.start_generating();
    assert_eq!(b.status(), &BatchStatus::Generating { progress: 0 });
    b.update_progress(250);
    assert_eq!(b.status(), &BatchStatus::Generating { progress: 100 });
    b.update_progress(42);
    assert_eq!(b.status(), &BatchStatus::Generating { progress: 42 });
    let ids = vec![AssetId::new(), AssetId::new()];
    b.complete_generation(ids.clone(), at(50));
    assert_eq!(b.status(), &BatchStatus::ReadyForSelection);
    assert_eq!(b.assets(), ids.as_slice());
    b.finalize(at(90));
    assert_eq!(b.status(), &BatchStatus::Completed);
    assert_eq!(b.completed_at(), Some(at(50)));
}

#[test]
fn finalize_without_completion_sets_time_and_fail_records_error() {
    let mut b = GenerationBatch::new(WorldId::new(), 1u8, "x", 2u8, "wf", "p", 1, at(0));
    b.finalize(at(7));
    assert_eq!(b.completed_at(), Some(at(7)));
    let mut c = GenerationBatch::new(WorldId::new(), 1u8, "x", 2u8, "wf", "p", 1, at(0));
    c.fail("GPU out of memory", at(3));
    assert_eq!(c.status(), &BatchStatus::Failed { error: "GPU out of memory".to_string() });
    assert_eq!(c.completed_at(), Some(at(3)));
}
