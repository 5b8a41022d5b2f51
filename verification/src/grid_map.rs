//! Tactical grid maps: terrain and tiles.

use crate::ids::{GridMapId, WorldId};
use crate::value_objects::AssetPath;
use vstd::prelude::*;

verus! {

/// Terrain of a grid tile.
#[derive(Debug, Clone, Copy, PartialEq, Eq, Structural, Hash)]
pub enum TerrainType {
    Ground,
    Water,
    Wall,
    Difficult,
    Hazard,
    Pit,
}

impl Default for TerrainType {
    fn default() -> (d: Self)
        ensures
            d == TerrainType::Ground,
    {
        TerrainType::Ground
    }
}

impl TerrainType {
    /// Cost of moving onto this terrain.
    pub open spec fn base_cost(self) -> u32 {
        match self {
            TerrainType::Ground => 1,
            TerrainType::Water => 2,
            TerrainType::Wall => u32::MAX,
            TerrainType::Difficult => 2,
            TerrainType::Hazard => 1,
            TerrainType::Pit => u32::MAX,
        }
    }

    /// Cost of moving onto this terrain (walls and pits cost `u32::MAX`).
    pub fn movement_cost(&self) -> (r: u32)
        ensures
            r == self.base_cost(),
    {
        match self {
            TerrainType::Ground => 1,
            TerrainType::Water => 2,
            TerrainType::Wall => u32::MAX,
            TerrainType::Difficult => 2,
            TerrainType::Hazard => 1,
            TerrainType::Pit => u32::MAX,
        }
    }

    /// Whether units can pass this terrain by default (not walls or pits).
    pub fn default_passable(&self) -> (b: bool)
        ensures
            b == !(*self == TerrainType::Wall || *self == TerrainType::Pit),
    {
        match self {
            TerrainType::Wall | TerrainType::Pit => false,
            _ => true,
        }
    }

    /// Default cover value (2 for walls, otherwise 0).
    pub fn default_cover(&self) -> (c: u8)
        ensures
            c == if *self == TerrainType::Wall {
                2u8
            } else {
                0u8
            },
    {
        match self {
            TerrainType::Wall => 2,
            _ => 0,
        }
    }
}

/// One tile of a grid map.
#[derive(Debug, Clone, Copy, PartialEq, Eq, Structural)]
pub struct Tile {
    pub terrain_type: TerrainType,
    /// Elevation level (supports height differences).
    pub elevation: i32,
    /// Index into the tilesheet.
    pub tile_index: u32,
    /// Whether units can move through this tile.
    pub passable: bool,
    /// Cover value for combat (0 = none, 1 = light, 2 = heavy).
    pub cover_value: u8,
}

impl Default for Tile {
    fn default() -> (t: Self)
        ensures
            t == (Tile {
                terrain_type: TerrainType::Ground,
                elevation: 0,
                tile_index: 0,
                passable: true,
                cover_value: 0,
            }),
    {
        Tile::new(TerrainType::Ground, 0)
    }
}

impl Tile {
    /// A tile at elevation 0 with the terrain's default passability and cover.
    pub fn new(terrain_type: TerrainType, tile_index: u32) -> (t: Self)
        ensures
            t == (Tile {
                terrain_type,
                elevation: 0,
                tile_index,
                passable: !(terrain_type == TerrainType::Wall || terrain_type == TerrainType::Pit),
                cover_value: if terrain_type == TerrainType::Wall {
                    2u8
                } else {
                    0u8
                },
            }),
    {
        Tile {
            terrain_type,
            elevation: 0,
            tile_index,
            passable: terrain_type.default_passable(),
            cover_value: terrain_type.default_cover(),
        }
    }

    /// A tile from stored data.
    pub fn from_parts(
        terrain_type: TerrainType,
        elevation: i32,
        tile_index: u32,
        passable: bool,
        cover_value: u8,
    ) -> (t: Self)
        ensures
            t == (Tile { terrain_type, elevation, tile_index, passable, cover_value }),
    {
        Tile { terrain_type, elevation, tile_index, passable, cover_value }
    }

    /// This tile at the given elevation.
    pub fn with_elevation(self, elevation: i32) -> (t: Self)
        ensures
            t == (Tile { elevation, ..self }),
    {
        Tile { elevation, ..self }
    }

    /// This tile with the given tilesheet index.
    pub fn with_tile_index(self, tile_index: u32) -> (t: Self)
        ensures
            t == (Tile { tile_index, ..self }),
    {
        Tile { tile_index, ..self }
    }

    /// This tile, impassable.
    pub fn blocking(self) -> (t: Self)
        ensures
            t == (Tile { passable: false, ..self }),
    {
        Tile { passable: false, ..self }
    }

    /// This tile with the given passability.
    pub fn with_passable(self, passable: bool) -> (t: Self)
        ensures
            t == (Tile { passable, ..self }),
    {
        Tile { passable, ..self }
    }

    /// This tile with the given cover value.
    pub fn with_cover(self, cover: u8) -> (t: Self)
        ensures
            t == (Tile { cover_value: cover, ..self }),
    {
        Tile { cover_value: cover, ..self }
    }
}


/// The tile at column `x` of row `y`, if the grid has one there.
pub open spec fn tile_at(tiles: Seq<Seq<Tile>>, x: int, y: int) -> Option<Tile> {
    if 0 <= y < tiles.len() && 0 <= x < tiles[y].len() {
        Some(tiles[y][x])
    } else {
        None
    }
}

/// The grid with the tile at column `x` of row `y` replaced, where there is one.
pub open spec fn with_tile_at(tiles: Seq<Seq<Tile>>, x: int, y: int, tile: Tile) -> Seq<
    Seq<Tile>,
> {
    if tile_at(tiles, x, y) is Some {
        tiles.update(y, tiles[y].update(x, tile))
    } else {
        tiles
    }
}

/// A grid of `height` rows of `width` default tiles.
pub open spec fn blank_grid(width: nat, height: nat) -> Seq<Seq<Tile>> {
    Seq::new(height, |_y: int| Seq::new(width, |_x: int| Tile::new_spec(TerrainType::Ground, 0)))
}

/// Absolute difference of two elevations.
pub open spec fn elevation_gap(a: i32, b: i32) -> int {
    if a - b < 0 {
        b - a
    } else {
        a - b
    }
}

/// Whether the elevation difference between the two tiles can be taken in `i32`
/// arithmetic where it is needed, that is when the destination is passable (it
/// cannot when it is `i32::MIN` or leaves the `i32` range).
pub open spec fn gap_in_range(tiles: Seq<Seq<Tile>>, from: (u32, u32), to: (u32, u32)) -> bool {
    match (tile_at(tiles, from.0 as int, from.1 as int), tile_at(tiles, to.0 as int, to.1 as int)) {
        (Some(f), Some(t)) => t.passable ==> i32::MIN < t.elevation - f.elevation <= i32::MAX,
        _ => true,
    }
}

/// Cost of moving from one tile onto an adjacent one: `None` where either tile
/// is missing or the destination is impassable; otherwise the destination's
/// terrain cost plus the elevation difference, saturating at `u32::MAX`.
pub open spec fn step_cost(tiles: Seq<Seq<Tile>>, from: (u32, u32), to: (u32, u32)) -> Option<u32> {
    match (tile_at(tiles, from.0 as int, from.1 as int), tile_at(tiles, to.0 as int, to.1 as int)) {
        (Some(f), Some(t)) => if !t.passable {
            None
        } else {
            let sum = t.terrain_type.base_cost() + elevation_gap(t.elevation, f.elevation);
            Some(
                if sum > u32::MAX {
                    u32::MAX
                } else {
                    sum as u32
                },
            )
        },
        _ => None,
    }
}

/// Abstract state of a grid map.
pub ghost struct GridMapView {
    pub id: GridMapId,
    pub world_id: WorldId,
    pub name: Seq<char>,
    pub width: u32,
    pub height: u32,
    pub tilesheet_asset: Seq<char>,
    pub tile_size: u32,
    pub tiles: Seq<Seq<Tile>>,
}

/// The rows of a grid, each taken as the sequence of its tiles.
pub open spec fn grid_rows(rows: Seq<Vec<Tile>>) -> Seq<Seq<Tile>> {
    rows.map_values(|r: Vec<Tile>| r@)
}

/// A tactical grid map for combat.
#[derive(Debug, Clone)]
pub struct GridMap {
    id: GridMapId,
    world_id: WorldId,
    name: String,
    width: u32,
    height: u32,
    tilesheet_asset: AssetPath,
    tile_size: u32,
    tiles: Vec<Vec<Tile>>,
}

impl View for GridMap {
    type V = GridMapView;

    closed spec fn view(&self) -> GridMapView {
        GridMapView {
            id: self.id,
            world_id: self.world_id,
            name: self.name@,
            width: self.width,
            height: self.height,
            tilesheet_asset: self.tilesheet_asset@,
            tile_size: self.tile_size,
            tiles: grid_rows(self.tiles@),
        }
    }
}

impl Tile {
    /// The tile that `Tile::new` builds.
    pub open spec fn new_spec(terrain_type: TerrainType, tile_index: u32) -> Tile {
        Tile {
            terrain_type,
            elevation: 0,
            tile_index,
            passable: !(terrain_type == TerrainType::Wall || terrain_type == TerrainType::Pit),
            cover_value: if terrain_type == TerrainType::Wall {
                2u8
            } else {
                0u8
            },
        }
    }
}

impl GridMap {
    /// A map of `height` rows of `width` default (ground) tiles, drawn from
    /// `tilesheet_asset` at 32 pixels per tile.
    pub fn new(world_id: WorldId, name: &str, width: u32, height: u32, tilesheet_asset: AssetPath) -> (m: Self)
        ensures
            m@ == (GridMapView {
                id: m@.id,
                world_id,
                name: name@,
                width,
                height,
                tilesheet_asset: tilesheet_asset@,
                tile_size: 32,
                tiles: blank_grid(width as nat, height as nat),
            }),
    {
        let mut tiles: Vec<Vec<Tile>> = Vec::new();
        let mut y: u32 = 0;
        while y < height
            invariant
                y <= height,
                grid_rows(tiles@) =~= blank_grid(width as nat, y as nat),
            decreases height - y,
        {
            let mut row: Vec<Tile> = Vec::new();
            let mut x: u32 = 0;
            while x < width
                invariant
                    x <= width,
                    row@ =~= Seq::new(x as nat, |_x: int| Tile::new_spec(TerrainType::Ground, 0)),
                decreases width - x,
            {
                row.push(Tile::default());
                x = x + 1;
            }
            let ghost before = tiles@;
            tiles.push(row);
            proof {
                assert(grid_rows(tiles@) =~= grid_rows(before).push(row@));
            }
            y = y + 1;
        }
        GridMap {
            id: GridMapId::new(),
            world_id,
            name: name.to_string(),
            width,
            height,
            tilesheet_asset,
            tile_size: 32,
            tiles,
        }
    }

    /// A map from stored data.
    pub fn from_parts(
        id: GridMapId,
        world_id: WorldId,
        name: String,
        width: u32,
        height: u32,
        tilesheet_asset: AssetPath,
        tile_size: u32,
        tiles: Vec<Vec<Tile>>,
    ) -> (m: Self)
        ensures
            m@ == (GridMapView {
                id,
                world_id,
                name: name@,
                width,
                height,
                tilesheet_asset: tilesheet_asset@,
                tile_size,
                tiles: grid_rows(tiles@),
            }),
    {
        GridMap { id, world_id, name, width, height, tilesheet_asset, tile_size, tiles }
    }

    pub fn id(&self) -> (r: GridMapId)
        ensures
            r == self@.id,
    {
        self.id
    }

    pub fn world_id(&self) -> (r: WorldId)
        ensures
            r == self@.world_id,
    {
        self.world_id
    }

    pub fn name(&self) -> (r: &str)
        ensures
            r@ == self@.name,
    {
        self.name.as_str()
    }

    pub fn width(&self) -> (r: u32)
        ensures
            r == self@.width,
    {
        self.width
    }

    pub fn height(&self) -> (r: u32)
        ensures
            r == self@.height,
    {
        self.height
    }

    pub fn tilesheet_asset(&self) -> (r: &AssetPath)
        ensures
            r@ == self@.tilesheet_asset,
    {
        &self.tilesheet_asset
    }

    pub fn tile_size(&self) -> (r: u32)
        ensures
            r == self@.tile_size,
    {
        self.tile_size
    }

    /// The rows of tiles.
    pub fn tiles(&self) -> (r: &[Vec<Tile>])
        ensures
            grid_rows(r@) == self@.tiles,
    {
        self.tiles.as_slice()
    }

    /// This map with the given tile size.
    pub fn with_tile_size(self, tile_size: u32) -> (m: Self)
        ensures
            m@ == (GridMapView { tile_size, ..self@ }),
    {
        GridMap { tile_size, ..self }
    }

    /// This map with the given rows of tiles.
    pub fn with_tiles(self, tiles: Vec<Vec<Tile>>) -> (m: Self)
        ensures
            m@ == (GridMapView { tiles: grid_rows(tiles@), ..self@ }),
    {
        GridMap { tiles, ..self }
    }

    /// The tile at column `x` of row `y`, if there is one.
    pub fn get_tile(&self, x: u32, y: u32) -> (r: Option<&Tile>)
        ensures
            match r {
                Some(t) => tile_at(self@.tiles, x as int, y as int) == Some(*t),
                None => tile_at(self@.tiles, x as int, y as int) is None,
            },
    {
        let yi = y as usize;
        let xi = x as usize;
        if yi < self.tiles.len() {
            let row = &self.tiles[yi];
            if xi < row.len() {
                return Some(&row[xi]);
            }
        }
        None
    }

    /// The tile at column `x` of row `y`, for changing in place.
    pub fn get_tile_mut(&mut self, x: u32, y: u32) -> (r: Option<&mut Tile>)
        ensures
            match r {
                Some(t) => tile_at(old(self)@.tiles, x as int, y as int) == Some(*t) && final(self)@
                    == (GridMapView { tiles: final(self)@.tiles, ..old(self)@ }) && final(self)@.tiles
                    =~= with_tile_at(old(self)@.tiles, x as int, y as int, *final(t)),
                None => tile_at(old(self)@.tiles, x as int, y as int) is None && final(self)@
                    == old(self)@,
            },
    {
        let yi = y as usize;
        let xi = x as usize;
        if yi < self.tiles.len() && xi < self.tiles[yi].len() {
            let t = &mut self.tiles[yi][xi];
            Some(t)
        } else {
            None
        }
    }

    /// Replaces the tile at column `x` of row `y`; out of range nothing changes.
    pub fn set_tile(&mut self, x: u32, y: u32, tile: Tile)
        ensures
            final(self)@ == (GridMapView {
                tiles: with_tile_at(old(self)@.tiles, x as int, y as int, tile),
                ..old(self)@
            }),
    {
        let yi = y as usize;
        let xi = x as usize;
        if yi < self.tiles.len() && xi < self.tiles[yi].len() {
            let ghost before = self.tiles@;
            let mut row = Vec::new();
            std::mem::swap(&mut row, &mut self.tiles[yi]);
            row.set(xi, tile);
            std::mem::swap(&mut row, &mut self.tiles[yi]);
            proof {
                assert(grid_rows(self.tiles@) =~= grid_rows(before).update(
                    y as int,
                    grid_rows(before)[y as int].update(x as int, tile),
                ));
            }
        }
    }

    /// Cost of moving between adjacent tiles: `None` where either tile is
    /// missing or the destination is impassable; otherwise the destination's
    /// terrain cost plus the climb, saturating at `u32::MAX`.
    pub fn movement_cost(&self, from: (u32, u32), to: (u32, u32)) -> (r: Option<u32>)
        requires
            gap_in_range(self@.tiles, from, to),
        ensures
            r == step_cost(self@.tiles, from, to),
    {
        let from_tile = match self.get_tile(from.0, from.1) {
            Some(t) => t,
            None => return None,
        };
        let to_tile = match self.get_tile(to.0, to.1) {
            Some(t) => t,
            None => return None,
        };
        if !to_tile.passable {
            return None;
        }
        let diff: i32 = to_tile.elevation - from_tile.elevation;
        let gap: i32 = if diff < 0 {
            -diff
        } else {
            diff
        };
        let base_cost = to_tile.terrain_type.movement_cost();
        Some(base_cost.saturating_add(gap as u32))
    }
}

/// After a tile is set inside the grid, reading that place gives it back, and
/// every other place keeps its tile.
pub proof fn law_set_tile_then_get(tiles: Seq<Seq<Tile>>, x: int, y: int, tile: Tile, x2: int, y2: int)
    requires
        tile_at(tiles, x, y) is Some,
    ensures
        tile_at(with_tile_at(tiles, x, y, tile), x, y) == Some(tile),
        (x2 != x || y2 != y) ==> tile_at(with_tile_at(tiles, x, y, tile), x2, y2) == tile_at(
            tiles,
            x2,
            y2,
        ),
{
}

/// Setting a tile outside the grid leaves the grid as it was.
pub proof fn law_set_tile_outside_is_ignored(tiles: Seq<Seq<Tile>>, x: int, y: int, tile: Tile)
    requires
        tile_at(tiles, x, y) is None,
    ensures
        with_tile_at(tiles, x, y, tile) == tiles,
{
}

/// A fresh grid has a passable ground tile at every place inside its bounds and
/// none outside them.
pub proof fn law_blank_grid_tiles(width: nat, height: nat, x: int, y: int)
    ensures
        (0 <= x < width && 0 <= y < height) ==> tile_at(blank_grid(width, height), x, y) == Some(
            Tile::new_spec(TerrainType::Ground, 0),
        ),
        !(0 <= x < width && 0 <= y < height) ==> tile_at(blank_grid(width, height), x, y) is None,
{
}

} // verus!
