use wrldbldr_domain::ids::{LocationId, RegionId};
use wrldbldr_domain::region::{MapBounds, Region, RegionConnection, RegionExit};
use wrldbldr_domain::value_objects::{AssetPath, Atmosphere, RegionName};

#[test]
fn test_map_bounds_contains_normal_case() {
    let bounds = MapBounds::new(10, 20, 100, 50).unwrap();
    // Inside bounds
    assert!(bounds.contains(10, 20)); // Top-left corner
    assert!(bounds.contains(109, 69)); // Just inside bottom-right
    assert!(bounds.contains(50, 40)); // Middle

    // Outside bounds
    assert!(!bounds.contains(9, 20)); // Left of bounds
    assert!(!bounds.contains(10, 19)); // Above bounds
    assert!(!bounds.contains(110, 20)); // Right of bounds
    assert!(!bounds.contains(10, 70)); // Below bounds
}

#[test]
fn test_map_bounds_contains_near_max_values() {
    let bounds = MapBounds {
        x: u32::MAX - 10,
        y: u32::MAX - 10,
        width: 100,
        height: 100,
    };

    assert!(bounds.contains(u32::MAX - 10, u32::MAX - 10));
    assert!(bounds.contains(u32::MAX - 1, u32::MAX - 1));
    assert!(!bounds.contains(u32::MAX, u32::MAX));
    assert!(!bounds.contains(u32::MAX - 11, u32::MAX - 10));
    assert!(!bounds.contains(u32::MAX - 10, u32::MAX - 11));
}

#[test]
fn test_map_bounds_overflow_protection() {
    let bounds = MapBounds {
        x: u32::MAX,
        y: u32::MAX,
        width: 10,
        height: 10,
    };
    assert!(!bounds.contains(u32::MAX, u32::MAX)); // MAX is not < MAX
}

#[test]
fn test_map_bounds_new_rejects_zero_width() {
    assert!(MapBounds::new(10, 20, 0, 50).is_none());
}

#[test]
fn test_map_bounds_new_rejects_zero_height() {
    assert!(MapBounds::new(10, 20, 100, 0).is_none());
}

#[test]
fn test_map_bounds_new_rejects_both_zero() {
    assert!(MapBounds::new(10, 20, 0, 0).is_none());
}

#[test]
fn test_map_bounds_new_accepts_valid_bounds() {
    let bounds = MapBounds::new(10, 20, 100, 50);
    assert!(bounds.is_some());
    let bounds = bounds.unwrap();
    assert_eq!(bounds.x, 10);
    assert_eq!(bounds.y, 20);
    assert_eq!(bounds.width, 100);
    assert_eq!(bounds.height, 50);
}

#[test]
fn test_map_bounds_contains_returns_false_for_zero_size() {
    let zero_width = MapBounds {
        x: 10,
        y: 20,
        width: 0,
        height: 50,
    };
    assert!(!zero_width.contains(10, 20));

    let zero_height = MapBounds {
        x: 10,
        y: 20,
        width: 100,
        height: 0,
    };
    assert!(!zero_height.contains(10, 20));

    let zero_both = MapBounds {
        x: 10,
        y: 20,
        width: 0,
        height: 0,
    };
    assert!(!zero_both.contains(10, 20));
}

#[test]
fn test_region_connection_field_access() {
    let from_region = RegionId::new();
    let to_region = RegionId::new();
    let connection = RegionConnection {
        from_region,
        to_region,
        description: Some("A narrow passage".to_string()),
        bidirectional: false,
        is_locked: true,
        lock_description: Some("Requires a key".to_string()),
    };

    assert_eq!(connection.from_region, from_region);
    assert_eq!(connection.to_region, to_region);
    assert!(!connection.bidirectional);
    assert_eq!(connection.description.as_deref(), Some("A narrow passage"));
    assert!(connection.is_locked);
    assert_eq!(
        connection.lock_description.as_deref(),
        Some("Requires a key")
    );
}

#[test]
fn region_builders_and_point_lookup() {
    let location_id = LocationId::new();
    let region = Region::new(location_id, RegionName::new("Bar").unwrap())
        .with_description("Smoky")
        .with_backdrop(AssetPath::new("bar.png").unwrap())
        .with_atmosphere(Atmosphere::new("loud").unwrap())
        .as_spawn_point()
        .with_order(3);
    assert_eq!(region.location_id(), location_id);
    assert_eq!(region.name().as_str(), "Bar");
    assert_eq!(region.description(), "Smoky");
    assert_eq!(region.backdrop_asset().unwrap().as_str(), "bar.png");
    assert!(region.is_spawn_point());
    assert_eq!(region.order(), 3);
    assert!(!region.contains_point(5, 5));
    let region = region.with_map_bounds(MapBounds::new(0, 0, 10, 10).unwrap());
    assert!(region.contains_point(5, 5));
    assert!(!region.contains_point(10, 5));
}

#[test]
fn region_name_rejects_blank() {
    assert!(RegionName::new("   ").is_err());
    assert!(RegionName::new(&"x".repeat(201)).is_err());
    assert!(RegionName::new(&"x".repeat(200)).is_ok());
}

#[test]
fn region_exit_from_parts() {
    let from = RegionId::new();
    let exit = RegionExit::from_parts(from, LocationId::new(), RegionId::new(), None, true);
    assert_eq!(exit.from_region, from);
    assert!(exit.bidirectional);
    let c = RegionConnection::from_parts(from, RegionId::new(), None, true, false, None);
    assert!(!c.is_locked);
}
