use wrldbldr_domain::ids::{ItemId, WorldId};
use wrldbldr_domain::item::{AcquisitionMethod, FrequencyLevel, InventoryItem, Item};
use wrldbldr_domain::value_objects::{ItemName, Timestamp};

#[test]
fn item_builders_set_fields() {
    let id = ItemId::new();
    let item = Item::new(WorldId::new(), ItemName::new("Lantern").unwrap())
        .with_id(id)
        .with_description("Brass lantern")
        .with_type("tool")
        .unique()
        .with_properties("{\"light\":30}");
    assert_eq!(item.id(), id);
    assert_eq!(item.name().as_str(), "Lantern");
    assert_eq!(item.description(), Some("Brass lantern"));
    assert_eq!(item.item_type(), Some("tool"));
    assert!(item.is_unique());
    assert_eq!(item.properties(), Some("{\"light\":30}"));
    assert!(!item.can_contain_items());
    assert_eq!(item.container_limit(), None);
}

#[test]
fn container_limit_makes_a_container() {
    let bag = Item::new(WorldId::new(), ItemName::new("Bag").unwrap()).with_container_limit(10);
    assert!(bag.can_contain_items());
    assert_eq!(bag.container_limit(), Some(10));
    let chest = Item::new(WorldId::new(), ItemName::new("Chest").unwrap()).as_container();
    assert!(chest.can_contain_items());
    assert_eq!(chest.container_limit(), None);
    let inv = InventoryItem {
        item: chest,
        quantity: 1,
        equipped: false,
        acquired_at: Timestamp::from_unix(0, 0),
        acquisition_method: Some(AcquisitionMethod::Looted),
    };
    assert_eq!(inv.quantity, 1);
}

#[test]
fn item_name_rejects_blank() {
    assert!(ItemName::new("  ").is_err());
}

#[test]
fn acquisition_method_names() {
    assert_eq!("Purchased".parse::<AcquisitionMethod>().unwrap(), AcquisitionMethod::Purchased);
    assert_eq!("purchased".parse::<AcquisitionMethod>().unwrap(), AcquisitionMethod::Unknown);
    assert_eq!(AcquisitionMethod::Inherited.as_str(), "Inherited");
    assert_eq!("Often".parse::<FrequencyLevel>().unwrap(), FrequencyLevel::Often);
    assert_eq!("never".parse::<FrequencyLevel>().unwrap(), FrequencyLevel::Unknown);
    assert_eq!(FrequencyLevel::Rarely.as_str(), "Rarely");
}
