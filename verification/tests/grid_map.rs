use wrldbldr_domain::grid_map::{GridMap, TerrainType, Tile};
use wrldbldr_domain::ids::WorldId;
use wrldbldr_domain::value_objects::AssetPath;

fn map(w: u32, h: u32) -> GridMap {
    GridMap::new(WorldId::new(), "Arena", w, h, AssetPath::new("tiles.png").unwrap())
}

#[test]
fn new_map_is_filled_with_ground() {
    let m = map(3, 2);
    assert_eq!(m.width(), 3);
    assert_eq!(m.height(), 2);
    assert_eq!(m.tile_size(), 32);
    assert_eq!(m.tiles().len(), 2);
    assert_eq!(m.tiles()[1].len(), 3);
    let t = m.get_tile(2, 1).unwrap();
    assert_eq!(t.terrain_type, TerrainType::Ground);
    assert!(t.passable);
    assert!(m.get_tile(3, 0).is_none());
    assert!(m.get_tile(0, 2).is_none());
}

#[test]
fn set_tile_then_get() {
    let mut m = map(4, 4);
    let wall = Tile::new(TerrainType::Wall, 7);
    m.set_tile(1, 2, wall);
    assert_eq!(m.get_tile(1, 2), Some(&wall));
    assert_eq!(m.get_tile(2, 1).unwrap().terrain_type, TerrainType::Ground);
    m.set_tile(10, 10, wall);
    assert!(m.get_tile(10, 10).is_none());
    if let Some(t) = m.get_tile_mut(0, 0) {
        t.elevation = 3;
    }
    assert_eq!(m.get_tile(0, 0).unwrap().elevation, 3);
    assert!(m.get_tile_mut(4, 0).is_none());
}

#[test]
fn movement_cost_adds_climb_and_blocks_walls() {
    let mut m = map(3, 1);
    m.set_tile(1, 0, Tile::new(TerrainType::Water, 0).with_elevation(2));
    m.set_tile(2, 0, Tile::new(TerrainType::Wall, 0));
    assert_eq!(m.movement_cost((0, 0), (1, 0)), Some(4));
    assert_eq!(m.movement_cost((1, 0), (0, 0)), Some(3));
    assert_eq!(m.movement_cost((1, 0), (2, 0)), None);
    assert_eq!(m.movement_cost((0, 0), (5, 0)), None);
    m.set_tile(2, 0, Tile::new(TerrainType::Pit, 0).with_passable(true).with_elevation(-1));
    assert_eq!(m.movement_cost((0, 0), (2, 0)), Some(u32::MAX));
}

#[test]
fn builders_replace_parts() {
    let m = map(1, 1).with_tile_size(64).with_tiles(vec![vec![Tile::default(); 2]; 3]);
    assert_eq!(m.tile_size(), 64);
    assert_eq!(m.tiles().len(), 3);
    assert_eq!(m.name(), "Arena");
    assert_eq!(m.tilesheet_asset().as_str(), "tiles.png");
}
