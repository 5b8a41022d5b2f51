use wrldbldr_domain::ids::{LocationId, RegionId, WorldId};
use wrldbldr_domain::location::{
    ConnectionType, Location, LocationConnection, LocationType,
};
use wrldbldr_domain::region::MapBounds;
use wrldbldr_domain::value_objects::{AssetPath, Atmosphere, Description, LocationName, PresenceTtlHours};

fn create_test_location() -> Location {
    let world_id = WorldId::new();
    let name = LocationName::new("Test Location").unwrap();
    Location::new(world_id, name, LocationType::Interior)
}

#[test]
fn new_creates_location_with_correct_defaults() {
    let world_id = WorldId::new();
    let name = LocationName::new("The Prancing Pony").unwrap();
    let location = Location::new(world_id, name, LocationType::Interior);

    assert_eq!(location.name().as_str(), "The Prancing Pony");
    assert_eq!(location.world_id(), world_id);
    assert!(matches!(location.location_type(), LocationType::Interior));
    assert!(location.description().is_empty());
    assert!(location.backdrop_asset().is_none());
    assert!(location.map_asset().is_none());
    assert!(location.parent_map_bounds().is_none());
    assert!(location.default_region_id().is_none());
    assert!(location.atmosphere().is_none());
    assert_eq!(location.presence_cache_ttl_hours(), 3);
    assert!(location.use_llm_presence());
}

#[test]
fn location_builder_methods_work() {
    let world_id = WorldId::new();
    let name = LocationName::new("Moria").unwrap();
    let desc = Description::new("An ancient dwarven kingdom").unwrap();
    let region_id = RegionId::new();
    let bounds = MapBounds::new(10, 20, 100, 50).unwrap();
    let backdrop = AssetPath::new("backdrops/moria.png").unwrap();
    let map = AssetPath::new("maps/moria.png").unwrap();

    let atm = Atmosphere::new("Dark and echoing").unwrap();
    let location = Location::new(world_id, name, LocationType::Interior)
        .with_description(desc)
        .with_backdrop(backdrop)
        .with_map(map)
        .with_parent_map_bounds(bounds)
        .with_default_region(region_id)
        .with_atmosphere(atm)
        .with_presence_ttl(6)
        .with_llm_presence(false);

    assert_eq!(location.description().as_str(), "An ancient dwarven kingdom");
    assert_eq!(location.backdrop_asset().map(|p| p.as_str()), Some("backdrops/moria.png"));
    assert_eq!(location.map_asset().map(|p| p.as_str()), Some("maps/moria.png"));
    assert!(location.parent_map_bounds().is_some());
    assert_eq!(location.default_region_id(), Some(region_id));
    assert_eq!(location.atmosphere().map(|a| a.as_str()), Some("Dark and echoing"));
    assert_eq!(location.presence_cache_ttl_hours(), 6);
    assert!(!location.use_llm_presence());
}

#[test]
fn location_set_description_works() {
    let mut location = create_test_location();
    let desc = Description::new("A cozy tavern").unwrap();
    location.set_description(desc);
    assert_eq!(location.description().as_str(), "A cozy tavern");
}

#[test]
fn set_backdrop_works() {
    let mut location = create_test_location();
    location.set_backdrop(Some(AssetPath::new("backdrops/tavern.png").unwrap()));
    assert_eq!(location.backdrop_asset().map(|p| p.as_str()), Some("backdrops/tavern.png"));
    location.set_backdrop(None);
    assert!(location.backdrop_asset().is_none());
}

#[test]
fn set_map_works() {
    let mut location = create_test_location();
    location.set_map(Some(AssetPath::new("maps/tavern.png").unwrap()));
    assert_eq!(location.map_asset().map(|p| p.as_str()), Some("maps/tavern.png"));
    location.set_map(None);
    assert!(location.map_asset().is_none());
}

#[test]
fn set_atmosphere_works() {
    let mut location = create_test_location();
    let atm = Atmosphere::new("Warm and inviting").unwrap();
    location.set_atmosphere(Some(atm));
    assert_eq!(location.atmosphere().map(|a| a.as_str()), Some("Warm and inviting"));
    location.set_atmosphere(None);
    assert!(location.atmosphere().is_none());
}

#[test]
fn set_default_region_works() {
    let mut location = create_test_location();
    let region_id = RegionId::new();
    location.set_default_region(Some(region_id));
    assert_eq!(location.default_region_id(), Some(region_id));
    location.set_default_region(None);
    assert!(location.default_region_id().is_none());
}

#[test]
fn set_parent_map_bounds_works() {
    let mut location = create_test_location();
    let bounds = MapBounds::new(10, 20, 100, 50).unwrap();
    location.set_parent_map_bounds(Some(bounds));
    assert!(location.parent_map_bounds().is_some());
    location.set_parent_map_bounds(None);
    assert!(location.parent_map_bounds().is_none());
}

#[test]
fn set_presence_ttl_works() {
    let mut location = create_test_location();
    location.set_presence_ttl(12);
    assert_eq!(location.presence_cache_ttl_hours(), 12);
}

#[test]
fn set_llm_presence_works() {
    let mut location = create_test_location();
    assert!(location.use_llm_presence());
    location.set_llm_presence(false);
    assert!(!location.use_llm_presence());
}

#[test]
fn contains_point_on_parent_map_without_bounds_returns_false() {
    let location = create_test_location();
    assert!(!location.contains_point_on_parent_map(50, 50));
}

#[test]
fn contains_point_on_parent_map_with_bounds_works() {
    let world_id = WorldId::new();
    let name = LocationName::new("Test").unwrap();
    let bounds = MapBounds::new(10, 20, 100, 50).unwrap();
    let location = Location::new(world_id, name, LocationType::Interior).with_parent_map_bounds(bounds);

    assert!(location.contains_point_on_parent_map(50, 40));
    assert!(location.contains_point_on_parent_map(10, 20));
    assert!(!location.contains_point_on_parent_map(5, 40));
    assert!(!location.contains_point_on_parent_map(200, 40));
}

#[test]
fn presence_ttl_is_kept_in_range() {
    let mut location = create_test_location();
    location.set_presence_ttl(0);
    assert_eq!(location.presence_cache_ttl_hours(), 1);
    location.set_presence_ttl(1000);
    assert_eq!(location.presence_cache_ttl_hours(), 168);
    assert!(PresenceTtlHours::new(0).is_err());
    assert_eq!(PresenceTtlHours::new(24).unwrap().value(), 24);
}

#[test]
fn connections_default_to_open_two_way() {
    let a = LocationId::new();
    let b = LocationId::new();
    let door = LocationConnection::door(a, b);
    assert_eq!(door.connection_type, ConnectionType::Door);
    assert!(door.bidirectional);
    assert!(!door.is_locked);
    assert_eq!(door.travel_time, 0);
    assert_eq!(LocationConnection::hidden(b, a).from_location, b);
    assert_eq!(ConnectionType::parse("PORTAL"), ConnectionType::Portal);
    assert_eq!(ConnectionType::parse("tunnel"), ConnectionType::Other);
    assert_eq!(ConnectionType::Other.display_name(), "Connection");
}
