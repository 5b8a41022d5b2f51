//! Regions: the distinct areas ("screens") inside a location, their bounds on
//! the location map, and the ways between them.

use crate::character::opt_asset;
use crate::ids::{LocationId, RegionId};
use crate::location::opt_atmosphere;
use crate::value_objects::{AssetPath, Atmosphere, RegionName};
use vstd::prelude::*;

verus! {

/// Pixel bounds of a region on a location map.
#[derive(Debug, Clone, Copy, PartialEq, Eq, Structural)]
pub struct MapBounds {
    /// X coordinate of the region's top-left corner.
    pub x: u32,
    /// Y coordinate of the region's top-left corner.
    pub y: u32,
    /// Width of the region.
    pub width: u32,
    /// Height of the region.
    pub height: u32,
}

/// `a + b`, capped at `u32::MAX`.
pub open spec fn sat_add(a: u32, b: u32) -> int {
    if a + b > u32::MAX {
        u32::MAX as int
    } else {
        a + b
    }
}

impl MapBounds {
    /// Bounds with the given corner and size; none when the width or height is 0.
    pub fn new(x: u32, y: u32, width: u32, height: u32) -> (r: Option<Self>)
        ensures
            width == 0 || height == 0 ==> r is None,
            width != 0 && height != 0 ==> r == Some(MapBounds { x, y, width, height }),
    {
        if width == 0 || height == 0 {
            return None;
        }
        Some(MapBounds { x, y, width, height })
    }

    /// Whether the pixel `(px, py)` lies within these bounds; the far edges
    /// saturate at `u32::MAX` (excluded), and zero-size bounds contain nothing.
    pub fn contains(&self, px: u32, py: u32) -> (b: bool)
        ensures
            b == (self.width != 0 && self.height != 0 && self.x <= px && px < sat_add(
                self.x,
                self.width,
            ) && self.y <= py && py < sat_add(self.y, self.height)),
    {
        if self.width == 0 || self.height == 0 {
            return false;
        }
        px >= self.x && px < self.x.saturating_add(self.width) && py >= self.y && py
            < self.y.saturating_add(self.height)
    }
}


/// Abstract state of a region.
pub ghost struct RegionView {
    pub id: RegionId,
    pub location_id: LocationId,
    pub name: Seq<char>,
    pub description: Seq<char>,
    pub backdrop_asset: Option<Seq<char>>,
    pub atmosphere: Option<Seq<char>>,
    pub map_bounds: Option<MapBounds>,
    pub is_spawn_point: bool,
    pub order: u32,
}

/// A distinct area within a location, with its own backdrop.
#[derive(Debug, Clone)]
pub struct Region {
    id: RegionId,
    location_id: LocationId,
    name: RegionName,
    description: String,
    backdrop_asset: Option<AssetPath>,
    atmosphere: Option<Atmosphere>,
    map_bounds: Option<MapBounds>,
    is_spawn_point: bool,
    order: u32,
}

impl View for Region {
    type V = RegionView;

    closed spec fn view(&self) -> RegionView {
        RegionView {
            id: self.id,
            location_id: self.location_id,
            name: self.name@,
            description: self.description@,
            backdrop_asset: opt_asset(self.backdrop_asset),
            atmosphere: opt_atmosphere(self.atmosphere),
            map_bounds: self.map_bounds,
            is_spawn_point: self.is_spawn_point,
            order: self.order,
        }
    }
}

impl Region {
    /// A region of the location with a fresh id, no description, backdrop,
    /// atmosphere or bounds, not a spawn point, at order 0.
    pub fn new(location_id: LocationId, name: RegionName) -> (r: Self)
        ensures
            r@ == (RegionView {
                id: r@.id,
                location_id,
                name: name@,
                description: Seq::empty(),
                backdrop_asset: None,
                atmosphere: None,
                map_bounds: None,
                is_spawn_point: false,
                order: 0,
            }),
    {
        Region {
            id: RegionId::new(),
            location_id,
            name,
            description: String::new(),
            backdrop_asset: None,
            atmosphere: None,
            map_bounds: None,
            is_spawn_point: false,
            order: 0,
        }
    }

    /// A region from stored parts.
    pub fn from_parts(
        id: RegionId,
        location_id: LocationId,
        name: RegionName,
        description: String,
        backdrop_asset: Option<AssetPath>,
        atmosphere: Option<Atmosphere>,
        map_bounds: Option<MapBounds>,
        is_spawn_point: bool,
        order: u32,
    ) -> (r: Self)
        ensures
            r@ == (RegionView {
                id,
                location_id,
                name: name@,
                description: description@,
                backdrop_asset: opt_asset(backdrop_asset),
                atmosphere: opt_atmosphere(atmosphere),
                map_bounds,
                is_spawn_point,
                order,
            }),
    {
        Region {
            id,
            location_id,
            name,
            description,
            backdrop_asset,
            atmosphere,
            map_bounds,
            is_spawn_point,
            order,
        }
    }

    pub fn id(&self) -> (r: RegionId)
        ensures
            r == self@.id,
    {
        self.id
    }

    pub fn location_id(&self) -> (r: LocationId)
        ensures
            r == self@.location_id,
    {
        self.location_id
    }

    pub fn name(&self) -> (r: &RegionName)
        ensures
            r@ == self@.name,
    {
        &self.name
    }

    pub fn description(&self) -> (r: &str)
        ensures
            r@ == self@.description,
    {
        self.description.as_str()
    }

    pub fn backdrop_asset(&self) -> (r: Option<&AssetPath>)
        ensures
            match r {
                Some(p) => self@.backdrop_asset == Some(p@),
                None => self@.backdrop_asset is None,
            },
    {
        match &self.backdrop_asset {
            Some(p) => Some(p),
            None => None,
        }
    }

    pub fn atmosphere(&self) -> (r: Option<&Atmosphere>)
        ensures
            match r {
                Some(a) => self@.atmosphere == Some(a@),
                None => self@.atmosphere is None,
            },
    {
        match &self.atmosphere {
            Some(a) => Some(a),
            None => None,
        }
    }

    pub fn map_bounds(&self) -> (r: Option<&MapBounds>)
        ensures
            match r {
                Some(b) => self@.map_bounds == Some(*b),
                None => self@.map_bounds is None,
            },
    {
        match &self.map_bounds {
            Some(b) => Some(b),
            None => None,
        }
    }

    pub fn is_spawn_point(&self) -> (r: bool)
        ensures
            r == self@.is_spawn_point,
    {
        self.is_spawn_point
    }

    pub fn order(&self) -> (r: u32)
        ensures
            r == self@.order,
    {
        self.order
    }

    /// This region with the given description.
    pub fn with_description(self, description: &str) -> (r: Self)
        ensures
            r@ == (RegionView { description: description@, ..self@ }),
    {
        Region { description: description.to_string(), ..self }
    }

    /// This region with the given backdrop.
    pub fn with_backdrop(self, asset_path: AssetPath) -> (r: Self)
        ensures
            r@ == (RegionView { backdrop_asset: Some(asset_path@), ..self@ }),
    {
        Region { backdrop_asset: Some(asset_path), ..self }
    }

    /// This region with the given atmosphere.
    pub fn with_atmosphere(self, atmosphere: Atmosphere) -> (r: Self)
        ensures
            r@ == (RegionView { atmosphere: Some(atmosphere@), ..self@ }),
    {
        Region { atmosphere: Some(atmosphere), ..self }
    }

    /// This region with the given bounds on the location map.
    pub fn with_map_bounds(self, bounds: MapBounds) -> (r: Self)
        ensures
            r@ == (RegionView { map_bounds: Some(bounds), ..self@ }),
    {
        Region { map_bounds: Some(bounds), ..self }
    }

    /// This region, as a place where new player characters can start.
    pub fn as_spawn_point(self) -> (r: Self)
        ensures
            r@ == (RegionView { is_spawn_point: true, ..self@ }),
    {
        Region { is_spawn_point: true, ..self }
    }

    /// This region at the given display order.
    pub fn with_order(self, order: u32) -> (r: Self)
        ensures
            r@ == (RegionView { order, ..self@ }),
    {
        Region { order, ..self }
    }

    /// Whether the pixel `(x, y)` of the location map lies in this region;
    /// a region without bounds contains no point.
    pub fn contains_point(&self, x: u32, y: u32) -> (b: bool)
        ensures
            b == match self@.map_bounds {
                Some(bounds) => bounds.width != 0 && bounds.height != 0 && bounds.x <= x && x
                    < sat_add(bounds.x, bounds.width) && bounds.y <= y && y < sat_add(
                    bounds.y,
                    bounds.height,
                ),
                None => false,
            },
    {
        match &self.map_bounds {
            Some(bounds) => bounds.contains(x, y),
            None => false,
        }
    }
}

/// A way between two regions.
#[derive(Debug, Clone)]
pub struct RegionConnection {
    pub from_region: RegionId,
    pub to_region: RegionId,
    /// Description of the path (such as "A door leads to...").
    pub description: Option<String>,
    /// Whether the way works in both directions.
    pub bidirectional: bool,
    /// Whether the way is locked.
    pub is_locked: bool,
    /// What unlocks it, if locked.
    pub lock_description: Option<String>,
}

impl RegionConnection {
    /// A connection from stored parts.
    pub fn from_parts(
        from_region: RegionId,
        to_region: RegionId,
        description: Option<String>,
        bidirectional: bool,
        is_locked: bool,
        lock_description: Option<String>,
    ) -> (c: Self)
        ensures
            c == (RegionConnection {
                from_region,
                to_region,
                description,
                bidirectional,
                is_locked,
                lock_description,
            }),
    {
        RegionConnection {
            from_region,
            to_region,
            description,
            bidirectional,
            is_locked,
            lock_description,
        }
    }
}

/// An exit from a region to another location.
#[derive(Debug, Clone)]
pub struct RegionExit {
    pub from_region: RegionId,
    pub to_location: LocationId,
    /// The region of the target location where the player arrives.
    pub arrival_region_id: RegionId,
    pub description: Option<String>,
    /// Whether the exit can also be taken from the other side.
    pub bidirectional: bool,
}

impl RegionExit {
    /// An exit from stored parts.
    pub fn from_parts(
        from_region: RegionId,
        to_location: LocationId,
        arrival_region_id: RegionId,
        description: Option<String>,
        bidirectional: bool,
    ) -> (e: Self)
        ensures
            e == (RegionExit {
                from_region,
                to_location,
                arrival_region_id,
                description,
                bidirectional,
            }),
    {
        RegionExit { from_region, to_location, arrival_region_id, description, bidirectional }
    }
}

} // verus!
