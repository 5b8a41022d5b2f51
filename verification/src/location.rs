//! Location vocabulary: kinds of locations and of connections between them.

use crate::character::opt_asset;
use crate::ids::{LocationId, RegionId, WorldId};
use crate::region::{sat_add, MapBounds};
use crate::text::{lowercase, str_eq, to_lowercase};
use crate::value_objects::{
    clamp_ttl, AssetPath, Atmosphere, Description, LocationName, PresenceTtlHours,
};
use vstd::prelude::*;

verus! {

/// Kind of location.
#[derive(Debug, Clone, Copy, PartialEq, Eq, Structural, Hash)]
pub enum LocationType {
    /// Indoor location (tavern, dungeon room, etc.)
    Interior,
    /// Outdoor location (forest, city street, etc.)
    Exterior,
    /// Abstract or metaphysical location (dreamscape, etc.)
    Abstract,
    /// Unknown type for forward compatibility
    Unknown,
}

/// Kind of connection between two locations.
#[derive(Debug, Clone, Copy, PartialEq, Eq, Structural, Hash)]
pub enum ConnectionType {
    /// A door or doorway
    Door,
    /// A path, road, or trail
    Path,
    /// Stairs or ladder
    Stairs,
    /// Magical or supernatural portal
    Portal,
    /// Hidden or secret passage
    Hidden,
    /// Other/custom connection type
    Other,
}

impl Default for ConnectionType {
    fn default() -> (d: Self)
        ensures
            d == ConnectionType::Other,
    {
        ConnectionType::Other
    }
}

/// The connection type a lower-cased text names; `Other` for anything else.
pub open spec fn connection_type_named(s: Seq<char>) -> Option<ConnectionType> {
    if s == "door"@ {
        Some(ConnectionType::Door)
    } else     if s == "path"@ {
        Some(ConnectionType::Path)
    } else     if s == "stairs"@ {
        Some(ConnectionType::Stairs)
    } else     if s == "portal"@ {
        Some(ConnectionType::Portal)
    } else     if s == "hidden"@ {
        Some(ConnectionType::Hidden)
    } else {
        Some(ConnectionType::Other)
    }
}

impl ConnectionType {
    /// Display-friendly name.
    pub fn display_name(&self) -> (r: &'static str)
        ensures
            r == match self {
                ConnectionType::Door => "Door",
                ConnectionType::Path => "Path",
                ConnectionType::Stairs => "Stairs",
                ConnectionType::Portal => "Portal",
                ConnectionType::Hidden => "Hidden",
                ConnectionType::Other => "Connection",
            },
    {
        match self {
            ConnectionType::Door => "Door",
            ConnectionType::Path => "Path",
            ConnectionType::Stairs => "Stairs",
            ConnectionType::Portal => "Portal",
            ConnectionType::Hidden => "Hidden",
            ConnectionType::Other => "Connection",
        }
    }

    /// Text used for storage.
    pub fn as_str(&self) -> (r: &'static str)
        ensures
            r == match self {
                ConnectionType::Door => "Door",
                ConnectionType::Path => "Path",
                ConnectionType::Stairs => "Stairs",
                ConnectionType::Portal => "Portal",
                ConnectionType::Hidden => "Hidden",
                ConnectionType::Other => "Connection",
            },
    {
        match self {
            ConnectionType::Door => "Door",
            ConnectionType::Path => "Path",
            ConnectionType::Stairs => "Stairs",
            ConnectionType::Portal => "Portal",
            ConnectionType::Hidden => "Hidden",
            ConnectionType::Other => "Connection",
        }
    }

    /// The connection type a lower-cased text names (`Other` for anything else).
    pub fn from_lowercase(text: &str) -> (r: Option<Self>)
        ensures
            r == connection_type_named(text@),
    {
        if str_eq(text, "door") {
            return Some(ConnectionType::Door);
        }
        if str_eq(text, "path") {
            return Some(ConnectionType::Path);
        }
        if str_eq(text, "stairs") {
            return Some(ConnectionType::Stairs);
        }
        if str_eq(text, "portal") {
            return Some(ConnectionType::Portal);
        }
        if str_eq(text, "hidden") {
            return Some(ConnectionType::Hidden);
        }
        Some(ConnectionType::Other)
    }

    /// Parses a connection type in any letter case; unknown names give `Other`.
    pub fn parse(s: &str) -> (r: Self)
        ensures
            Some(r) == connection_type_named(lowercase(s@)),
    {
        let lower = to_lowercase(s);
        match Self::from_lowercase(lower.as_str()) {
            Some(t) => t,
            None => ConnectionType::Other,
        }
    }
}


/// A connection between two locations.
#[derive(Debug, Clone, PartialEq, Eq)]
pub struct LocationConnection {
    pub from_location: LocationId,
    pub to_location: LocationId,
    pub connection_type: ConnectionType,
    pub description: Option<Description>,
    /// Whether the connection can be travelled both ways.
    pub bidirectional: bool,
    /// Travel time in game minutes.
    pub travel_time: u32,
    pub is_locked: bool,
    pub lock_description: Option<String>,
}

/// An open two-way connection without travel time or description.
pub open spec fn open_connection(from: LocationId, to: LocationId, connection_type: ConnectionType) -> LocationConnection {
    LocationConnection {
        from_location: from,
        to_location: to,
        connection_type,
        description: None,
        bidirectional: true,
        travel_time: 0,
        is_locked: false,
        lock_description: None,
    }
}

impl LocationConnection {
    /// An open two-way connection without travel time or description.
    pub fn new(from: LocationId, to: LocationId, connection_type: ConnectionType) -> (c: Self)
        ensures
            c == open_connection(from, to, connection_type),
    {
        LocationConnection {
            from_location: from,
            to_location: to,
            connection_type,
            description: None,
            bidirectional: true,
            travel_time: 0,
            is_locked: false,
            lock_description: None,
        }
    }

    /// A connection from stored parts.
    pub fn from_storage(
        from_location: LocationId,
        to_location: LocationId,
        connection_type: ConnectionType,
        description: Option<Description>,
        bidirectional: bool,
        travel_time: u32,
        is_locked: bool,
        lock_description: Option<String>,
    ) -> (c: Self)
        ensures
            c == (LocationConnection {
                from_location,
                to_location,
                connection_type,
                description,
                bidirectional,
                travel_time,
                is_locked,
                lock_description,
            }),
    {
        LocationConnection {
            from_location,
            to_location,
            connection_type,
            description,
            bidirectional,
            travel_time,
            is_locked,
            lock_description,
        }
    }

    /// A door between two locations.
    pub fn door(from: LocationId, to: LocationId) -> (c: Self)
        ensures
            c == open_connection(from, to, ConnectionType::Door),
    {
        Self::new(from, to, ConnectionType::Door)
    }

    /// A path between two locations.
    pub fn path(from: LocationId, to: LocationId) -> (c: Self)
        ensures
            c == open_connection(from, to, ConnectionType::Path),
    {
        Self::new(from, to, ConnectionType::Path)
    }

    /// Stairs between two locations.
    pub fn stairs(from: LocationId, to: LocationId) -> (c: Self)
        ensures
            c == open_connection(from, to, ConnectionType::Stairs),
    {
        Self::new(from, to, ConnectionType::Stairs)
    }

    /// A portal between two locations.
    pub fn portal(from: LocationId, to: LocationId) -> (c: Self)
        ensures
            c == open_connection(from, to, ConnectionType::Portal),
    {
        Self::new(from, to, ConnectionType::Portal)
    }

    /// A hidden passage between two locations.
    pub fn hidden(from: LocationId, to: LocationId) -> (c: Self)
        ensures
            c == open_connection(from, to, ConnectionType::Hidden),
    {
        Self::new(from, to, ConnectionType::Hidden)
    }
}

/// A location in a world.
#[derive(Debug, Clone)]
pub struct Location {
    id: LocationId,
    world_id: WorldId,
    name: LocationName,
    description: Description,
    location_type: LocationType,
    backdrop_asset: Option<AssetPath>,
    map_asset: Option<AssetPath>,
    parent_map_bounds: Option<MapBounds>,
    default_region_id: Option<RegionId>,
    atmosphere: Option<Atmosphere>,
    presence_cache_ttl_hours: PresenceTtlHours,
    use_llm_presence: bool,
}

/// Abstract state of a location.
pub ghost struct LocationView {
    pub id: LocationId,
    pub world_id: WorldId,
    pub name: Seq<char>,
    pub description: Seq<char>,
    pub location_type: LocationType,
    pub backdrop_asset: Option<Seq<char>>,
    pub map_asset: Option<Seq<char>>,
    /// Where this location lies on its parent location's map.
    pub parent_map_bounds: Option<MapBounds>,
    /// The region a visitor enters first.
    pub default_region_id: Option<RegionId>,
    pub atmosphere: Option<Seq<char>>,
    /// Hours for which NPC presence is kept.
    pub presence_cache_ttl_hours: i32,
    /// Whether an LLM decides NPC presence.
    pub use_llm_presence: bool,
}

/// The text of an optional atmosphere.
pub open spec fn opt_atmosphere(a: Option<Atmosphere>) -> Option<Seq<char>> {
    match a {
        Some(x) => Some(x@),
        None => None,
    }
}

impl View for Location {
    type V = LocationView;

    closed spec fn view(&self) -> LocationView {
        LocationView {
            id: self.id,
            world_id: self.world_id,
            name: self.name@,
            description: self.description@,
            location_type: self.location_type,
            backdrop_asset: opt_asset(self.backdrop_asset),
            map_asset: opt_asset(self.map_asset),
            parent_map_bounds: self.parent_map_bounds,
            default_region_id: self.default_region_id,
            atmosphere: opt_atmosphere(self.atmosphere),
            presence_cache_ttl_hours: self.presence_cache_ttl_hours@,
            use_llm_presence: self.use_llm_presence,
        }
    }
}

/// Whether a point lies within bounds (edges saturating).
pub open spec fn bounds_hold(b: MapBounds, x: u32, y: u32) -> bool {
    b.x <= x && x < sat_add(b.x, b.width) && b.y <= y && y < sat_add(b.y, b.height)
}

impl Location {
    /// A new location with a fresh random id, an empty description, no
    /// assets, bounds, default region or atmosphere, a presence cache of 3
    /// hours and LLM presence on.
    pub fn new(world_id: WorldId, name: LocationName, location_type: LocationType) -> (l: Self)
        ensures
            l@ == (LocationView {
                id: l@.id,
                world_id,
                name: name@,
                description: Seq::empty(),
                location_type,
                backdrop_asset: None,
                map_asset: None,
                parent_map_bounds: None,
                default_region_id: None,
                atmosphere: None,
                presence_cache_ttl_hours: 3,
                use_llm_presence: true,
            }),
    {
        Location {
            id: LocationId::new(),
            world_id,
            name,
            description: Description::empty(),
            location_type,
            backdrop_asset: None,
            map_asset: None,
            parent_map_bounds: None,
            default_region_id: None,
            atmosphere: None,
            presence_cache_ttl_hours: PresenceTtlHours::default(),
            use_llm_presence: true,
        }
    }

    pub fn id(&self) -> (r: LocationId)
        ensures
            r == self@.id,
    {
        self.id
    }

    pub fn world_id(&self) -> (r: WorldId)
        ensures
            r == self@.world_id,
    {
        self.world_id
    }

    pub fn name(&self) -> (r: &LocationName)
        ensures
            r@ == self@.name,
    {
        &self.name
    }

    pub fn description(&self) -> (r: &Description)
        ensures
            r@ == self@.description,
    {
        &self.description
    }

    pub fn location_type(&self) -> (r: LocationType)
        ensures
            r == self@.location_type,
    {
        self.location_type
    }

    pub fn backdrop_asset(&self) -> (r: Option<&AssetPath>)
        ensures
            match r {
                Some(p) => self@.backdrop_asset == Some(p@),
                None => self@.backdrop_asset is None,
            },
    {
        match &self.backdrop_asset {
            Some(p) => Some(p),
            None => None,
        }
    }

    pub fn map_asset(&self) -> (r: Option<&AssetPath>)
        ensures
            match r {
                Some(p) => self@.map_asset == Some(p@),
                None => self@.map_asset is None,
            },
    {
        match &self.map_asset {
            Some(p) => Some(p),
            None => None,
        }
    }

    pub fn parent_map_bounds(&self) -> (r: Option<&MapBounds>)
        ensures
            match r {
                Some(b) => self@.parent_map_bounds == Some(*b),
                None => self@.parent_map_bounds is None,
            },
    {
        match &self.parent_map_bounds {
            Some(b) => Some(b),
            None => None,
        }
    }

    pub fn default_region_id(&self) -> (r: Option<RegionId>)
        ensures
            r == self@.default_region_id,
    {
        self.default_region_id
    }

    pub fn atmosphere(&self) -> (r: Option<&Atmosphere>)
        ensures
            match r {
                Some(a) => self@.atmosphere == Some(a@),
                None => self@.atmosphere is None,
            },
    {
        match &self.atmosphere {
            Some(a) => Some(a),
            None => None,
        }
    }

    pub fn presence_cache_ttl_hours(&self) -> (r: i32)
        ensures
            r == self@.presence_cache_ttl_hours,
    {
        self.presence_cache_ttl_hours.value()
    }

    pub fn use_llm_presence(&self) -> (b: bool)
        ensures
            b == self@.use_llm_presence,
    {
        self.use_llm_presence
    }

    /// This location with the given description.
    pub fn with_description(self, description: Description) -> (l: Self)
        ensures
            l@ == (LocationView { description: description@, ..self@ }),
    {
        Location { description, ..self }
    }

    /// This location with the given backdrop.
    pub fn with_backdrop(self, asset_path: AssetPath) -> (l: Self)
        ensures
            l@ == (LocationView { backdrop_asset: Some(asset_path@), ..self@ }),
    {
        Location { backdrop_asset: Some(asset_path), ..self }
    }

    /// This location with the given map.
    pub fn with_map(self, asset_path: AssetPath) -> (l: Self)
        ensures
            l@ == (LocationView { map_asset: Some(asset_path@), ..self@ }),
    {
        Location { map_asset: Some(asset_path), ..self }
    }

    /// This location placed on its parent's map.
    pub fn with_parent_map_bounds(self, bounds: MapBounds) -> (l: Self)
        ensures
            l@ == (LocationView { parent_map_bounds: Some(bounds), ..self@ }),
    {
        Location { parent_map_bounds: Some(bounds), ..self }
    }

    /// This location with the given default region.
    pub fn with_default_region(self, region_id: RegionId) -> (l: Self)
        ensures
            l@ == (LocationView { default_region_id: Some(region_id), ..self@ }),
    {
        Location { default_region_id: Some(region_id), ..self }
    }

    /// This location with the given atmosphere.
    pub fn with_atmosphere(self, atmosphere: Atmosphere) -> (l: Self)
        ensures
            l@ == (LocationView { atmosphere: Some(atmosphere@), ..self@ }),
    {
        Location { atmosphere: Some(atmosphere), ..self }
    }

    /// This location with a presence cache of `hours`, brought into range.
    pub fn with_presence_ttl(self, hours: i32) -> (l: Self)
        ensures
            l@ == (LocationView { presence_cache_ttl_hours: clamp_ttl(hours), ..self@ }),
    {
        Location { presence_cache_ttl_hours: PresenceTtlHours::clamped(hours), ..self }
    }

    /// This location with a checked presence cache duration.
    pub fn with_presence_ttl_validated(self, ttl: PresenceTtlHours) -> (l: Self)
        ensures
            l@ == (LocationView { presence_cache_ttl_hours: ttl@, ..self@ }),
    {
        Location { presence_cache_ttl_hours: ttl, ..self }
    }

    /// This location with LLM presence on or off.
    pub fn with_llm_presence(self, enabled: bool) -> (l: Self)
        ensures
            l@ == (LocationView { use_llm_presence: enabled, ..self@ }),
    {
        Location { use_llm_presence: enabled, ..self }
    }

    /// This location with the given id.
    pub fn with_id(self, id: LocationId) -> (l: Self)
        ensures
            l@ == (LocationView { id, ..self@ }),
    {
        Location { id, ..self }
    }

    /// Renames the location.
    pub fn set_name(&mut self, name: LocationName)
        ensures
            final(self)@ == (LocationView { name: name@, ..old(self)@ }),
    {
        self.name = name;
    }

    /// Replaces the description.
    pub fn set_description(&mut self, description: Description)
        ensures
            final(self)@ == (LocationView { description: description@, ..old(self)@ }),
    {
        self.description = description;
    }

    /// Replaces the backdrop.
    pub fn set_backdrop(&mut self, path: Option<AssetPath>)
        ensures
            final(self)@ == (LocationView { backdrop_asset: opt_asset(path), ..old(self)@ }),
    {
        self.backdrop_asset = path;
    }

    /// Replaces the map.
    pub fn set_map(&mut self, path: Option<AssetPath>)
        ensures
            final(self)@ == (LocationView { map_asset: opt_asset(path), ..old(self)@ }),
    {
        self.map_asset = path;
    }

    /// Replaces the atmosphere.
    pub fn set_atmosphere(&mut self, atmosphere: Option<Atmosphere>)
        ensures
            final(self)@ == (LocationView { atmosphere: opt_atmosphere(atmosphere), ..old(self)@ }),
    {
        self.atmosphere = atmosphere;
    }

    /// Replaces the default region.
    pub fn set_default_region(&mut self, region_id: Option<RegionId>)
        ensures
            final(self)@ == (LocationView { default_region_id: region_id, ..old(self)@ }),
    {
        self.default_region_id = region_id;
    }

    /// Replaces the bounds on the parent's map.
    pub fn set_parent_map_bounds(&mut self, bounds: Option<MapBounds>)
        ensures
            final(self)@ == (LocationView { parent_map_bounds: bounds, ..old(self)@ }),
    {
        self.parent_map_bounds = bounds;
    }

    /// Sets the presence cache to `hours`, brought into range.
    pub fn set_presence_ttl(&mut self, hours: i32)
        ensures
            final(self)@ == (LocationView { presence_cache_ttl_hours: clamp_ttl(hours), ..old(self)@ }),
    {
        self.presence_cache_ttl_hours = PresenceTtlHours::clamped(hours);
    }

    /// Sets a checked presence cache duration.
    pub fn set_presence_ttl_validated(&mut self, ttl: PresenceTtlHours)
        ensures
            final(self)@ == (LocationView { presence_cache_ttl_hours: ttl@, ..old(self)@ }),
    {
        self.presence_cache_ttl_hours = ttl;
    }

    /// Turns LLM presence on or off.
    pub fn set_llm_presence(&mut self, enabled: bool)
        ensures
            final(self)@ == (LocationView { use_llm_presence: enabled, ..old(self)@ }),
    {
        self.use_llm_presence = enabled;
    }

    /// Whether a point of the parent's map lies within this location;
    /// false without bounds.
    pub fn contains_point_on_parent_map(&self, x: u32, y: u32) -> (b: bool)
        ensures
            b == match self@.parent_map_bounds {
                Some(bounds) => bounds_hold(bounds, x, y),
                None => false,
            },
    {
        match &self.parent_map_bounds {
            Some(bounds) => bounds.contains(x, y),
            None => false,
        }
    }
}

} // verus!
