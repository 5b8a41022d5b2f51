use wrldbldr_domain::ids::{CharacterId, LoreChunkId, LoreId, WorldId};
use wrldbldr_domain::lore::{Lore, LoreCategory, LoreChunk, LoreDiscoverySource, LoreKnowledge};
use wrldbldr_domain::value_objects::Timestamp;

fn fixed_time() -> Timestamp {
    Timestamp::from_unix(1_700_000_000, 0)
}

#[test]
fn test_lore_category_from_str() {
    assert_eq!(
        "historical".parse::<LoreCategory>().unwrap(),
        LoreCategory::Historical
    );
    assert_eq!(
        "SECRET".parse::<LoreCategory>().unwrap(),
        LoreCategory::Secret
    );
    assert_eq!(
        "unknown".parse::<LoreCategory>().unwrap(),
        LoreCategory::Unknown
    );
    // Invalid strings return an error
    assert!("invalid".parse::<LoreCategory>().is_err());
}

#[test]
fn lore_category_names_round_trip() {
    for category in LoreCategory::all() {
        let name = category.display_name().to_lowercase();
        assert_eq!(name.parse::<LoreCategory>().unwrap(), *category);
    }
    assert!(!LoreCategory::all().contains(&LoreCategory::Unknown));
}

#[test]
fn lore_chunk_builders() {
    let chunk = LoreChunk::new("The founding")
        .with_title("Origins")
        .with_order(3)
        .with_discovery_hint("library");
    assert_eq!(chunk.content, "The founding");
    assert_eq!(chunk.title.as_deref(), Some("Origins"));
    assert_eq!(chunk.order, 3);
    assert_eq!(chunk.discovery_hint.as_deref(), Some("library"));
}

#[test]
fn test_lore_creation() {
    let now = fixed_time();
    let lore = Lore::new(WorldId::new(), "Test Lore", LoreCategory::Historical, now)
        .with_summary("A test lore entry")
        .with_chunk("First chunk of content")
        .with_chunk("Second chunk of content")
        .with_tags(vec!["test".to_string(), "history".to_string()]);

    assert_eq!(lore.title, "Test Lore");
    assert_eq!(lore.summary, "A test lore entry");
    assert_eq!(lore.chunks.len(), 2);
    assert_eq!(lore.chunks[0].order, 0);
    assert_eq!(lore.chunks[1].order, 1);
    assert_eq!(lore.tags.len(), 2);
}

#[test]
fn test_lore_full_text() {
    let now = fixed_time();
    let lore = Lore::new(WorldId::new(), "Test", LoreCategory::Historical, now)
        .with_chunk("First part")
        .with_chunk("Second part");

    assert_eq!(lore.full_text(), "First part\n\nSecond part");
}

#[test]
fn test_lore_knowledge_full() {
    let now = fixed_time();
    let knowledge = LoreKnowledge::full(
        LoreId::new(),
        CharacterId::new(),
        LoreDiscoverySource::Investigation,
        now,
    );

    assert!(knowledge.knows_all());
}

#[test]
fn test_lore_knowledge_partial() {
    let now = fixed_time();
    let chunk_id = LoreChunkId::new();
    let knowledge = LoreKnowledge::partial(
        LoreId::new(),
        CharacterId::new(),
        vec![chunk_id],
        LoreDiscoverySource::Investigation,
        now,
    );

    assert!(!knowledge.knows_all());
    assert_eq!(knowledge.known_chunk_ids.len(), 1);
}

#[test]
fn full_text_of_no_chunks_is_empty() {
    let lore = Lore::new(WorldId::new(), "Empty", LoreCategory::Legend, fixed_time());
    assert_eq!(lore.full_text(), "");
}

#[test]
fn text_for_chunks_keeps_chunk_order_and_skips_others() {
    let lore = Lore::new(WorldId::new(), "Tale", LoreCategory::Legend, fixed_time())
        .with_chunk("one")
        .with_chunk("two")
        .with_chunk("three");
    let ids = lore.chunk_ids();
    assert_eq!(ids.len(), 3);
    assert_eq!(lore.text_for_chunks(&[ids[2], ids[0]]), "one\n\nthree");
    assert_eq!(lore.text_for_chunks(&[ids[1]]), "two");
    assert_eq!(lore.text_for_chunks(&[]), "");
    assert_eq!(lore.text_for_chunks(&ids), lore.full_text());
}

#[test]
fn get_chunk_finds_by_id() {
    let lore = Lore::new(WorldId::new(), "Tale", LoreCategory::Secret, fixed_time())
        .with_chunk("alpha")
        .with_chunk("beta");
    let ids = lore.chunk_ids();
    assert_eq!(lore.get_chunk(ids[1]).unwrap().content, "beta");
    assert!(lore.get_chunk(LoreChunkId::new()).is_none());
}

#[test]
fn add_chunks_skips_known_ids() {
    let a = LoreChunkId::new();
    let b = LoreChunkId::new();
    let c = LoreChunkId::new();
    let mut knowledge = LoreKnowledge::partial(
        LoreId::new(),
        CharacterId::new(),
        vec![a],
        LoreDiscoverySource::CommonKnowledge,
        fixed_time(),
    )
    .with_notes("heard at the inn");
    knowledge.add_chunks(&[b, a, c, b]);
    assert_eq!(knowledge.known_chunk_ids, vec![a, b, c]);
    knowledge.add_chunks(&[c, a]);
    assert_eq!(knowledge.known_chunk_ids, vec![a, b, c]);
    assert_eq!(knowledge.notes.as_deref(), Some("heard at the inn"));
}

#[test]
fn chunk_builder_sets_fields() {
    let chunk = LoreChunk::new("text").with_title("T").with_order(4).with_discovery_hint("look");
    assert_eq!(chunk.order, 4);
    assert_eq!(chunk.title.as_deref(), Some("T"));
    assert_eq!(chunk.discovery_hint.as_deref(), Some("look"));
}

#[test]
fn adding_chunks_to_full_knowledge_keeps_it_full() {
    let mut k = LoreKnowledge::full(
        LoreId::new(),
        CharacterId::new(),
        LoreDiscoverySource::Investigation,
        fixed_time(),
    );
    k.add_chunks(&[LoreChunkId::new()]);
    assert!(k.knows_all());
    assert!(k.known_chunk_ids.is_empty());
}
