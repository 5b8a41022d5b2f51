//! Items and inventories.

use crate::ids::{ItemId, WorldId};
use crate::text::{opt_as_str, opt_str_text, opt_text, str_eq};
use crate::value_objects::{ItemName, Timestamp};
use vstd::prelude::*;

verus! {

/// Abstract state of an item.
pub ghost struct ItemView {
    pub id: ItemId,
    pub world_id: WorldId,
    pub name: Seq<char>,
    pub description: Option<Seq<char>>,
    pub item_type: Option<Seq<char>>,
    pub is_unique: bool,
    pub properties: Option<Seq<char>>,
    pub can_contain_items: bool,
    pub container_limit: Option<u32>,
}

/// An item that can be found, carried and used.
#[derive(Debug, Clone)]
pub struct Item {
    id: ItemId,
    world_id: WorldId,
    name: ItemName,
    description: Option<String>,
    item_type: Option<String>,
    is_unique: bool,
    /// Free-form properties (JSON text).
    properties: Option<String>,
    can_contain_items: bool,
    /// How many items fit inside, where it is a container with a limit.
    container_limit: Option<u32>,
}

impl View for Item {
    type V = ItemView;

    closed spec fn view(&self) -> ItemView {
        ItemView {
            id: self.id,
            world_id: self.world_id,
            name: self.name@,
            description: opt_text(self.description),
            item_type: opt_text(self.item_type),
            is_unique: self.is_unique,
            properties: opt_text(self.properties),
            can_contain_items: self.can_contain_items,
            container_limit: self.container_limit,
        }
    }
}

impl Item {
    /// An ordinary item with a fresh id and nothing else set.
    pub fn new(world_id: WorldId, name: ItemName) -> (i: Self)
        ensures
            i@ == (ItemView {
                id: i@.id,
                world_id,
                name: name@,
                description: None,
                item_type: None,
                is_unique: false,
                properties: None,
                can_contain_items: false,
                container_limit: None,
            }),
    {
        Item {
            id: ItemId::new(),
            world_id,
            name,
            description: None,
            item_type: None,
            is_unique: false,
            properties: None,
            can_contain_items: false,
            container_limit: None,
        }
    }

    pub fn id(&self) -> (r: ItemId)
        ensures
            r == self@.id,
    {
        self.id
    }

    pub fn world_id(&self) -> (r: WorldId)
        ensures
            r == self@.world_id,
    {
        self.world_id
    }

    pub fn name(&self) -> (r: &ItemName)
        ensures
            r@ == self@.name,
    {
        &self.name
    }

    pub fn description(&self) -> (r: Option<&str>)
        ensures
            opt_str_text(r) == self@.description,
    {
        opt_as_str(&self.description)
    }

    pub fn item_type(&self) -> (r: Option<&str>)
        ensures
            opt_str_text(r) == self@.item_type,
    {
        opt_as_str(&self.item_type)
    }

    pub fn is_unique(&self) -> (r: bool)
        ensures
            r == self@.is_unique,
    {
        self.is_unique
    }

    pub fn properties(&self) -> (r: Option<&str>)
        ensures
            opt_str_text(r) == self@.properties,
    {
        opt_as_str(&self.properties)
    }

    pub fn can_contain_items(&self) -> (r: bool)
        ensures
            r == self@.can_contain_items,
    {
        self.can_contain_items
    }

    pub fn container_limit(&self) -> (r: Option<u32>)
        ensures
            r == self@.container_limit,
    {
        self.container_limit
    }

    pub fn with_id(self, id: ItemId) -> (i: Self)
        ensures
            i@ == (ItemView { id, ..self@ }),
    {
        Item { id, ..self }
    }

    pub fn with_description(self, description: &str) -> (i: Self)
        ensures
            i@ == (ItemView { description: Some(description@), ..self@ }),
    {
        Item { description: Some(description.to_string()), ..self }
    }

    pub fn with_type(self, item_type: &str) -> (i: Self)
        ensures
            i@ == (ItemView { item_type: Some(item_type@), ..self@ }),
    {
        Item { item_type: Some(item_type.to_string()), ..self }
    }

    /// This item, one of a kind.
    pub fn unique(self) -> (i: Self)
        ensures
            i@ == (ItemView { is_unique: true, ..self@ }),
    {
        Item { is_unique: true, ..self }
    }

    pub fn with_properties(self, properties: &str) -> (i: Self)
        ensures
            i@ == (ItemView { properties: Some(properties@), ..self@ }),
    {
        Item { properties: Some(properties.to_string()), ..self }
    }

    /// This item, able to hold other items.
    pub fn as_container(self) -> (i: Self)
        ensures
            i@ == (ItemView { can_contain_items: true, ..self@ }),
    {
        Item { can_contain_items: true, ..self }
    }

    /// This item, a container holding at most `limit` items.
    pub fn with_container_limit(self, limit: u32) -> (i: Self)
        ensures
            i@ == (ItemView { can_contain_items: true, container_limit: Some(limit), ..self@ }),
    {
        Item { can_contain_items: true, container_limit: Some(limit), ..self }
    }
}

/// An item in a character's inventory.
#[derive(Debug, Clone)]
pub struct InventoryItem {
    pub item: Item,
    pub quantity: u32,
    pub equipped: bool,
    pub acquired_at: Timestamp,
    pub acquisition_method: Option<AcquisitionMethod>,
}

/// How an item came into a character's inventory.
#[derive(Debug, Clone, Copy, PartialEq, Eq, Structural, Hash)]
pub enum AcquisitionMethod {
    Found,
    Purchased,
    Gifted,
    Looted,
    Crafted,
    Inherited,
    Unknown,
}

/// The name of each acquisition method.
pub open spec fn acquisition_method_name(x: AcquisitionMethod) -> &'static str {
    match x {
        AcquisitionMethod::Found => "Found",
        AcquisitionMethod::Purchased => "Purchased",
        AcquisitionMethod::Gifted => "Gifted",
        AcquisitionMethod::Looted => "Looted",
        AcquisitionMethod::Crafted => "Crafted",
        AcquisitionMethod::Inherited => "Inherited",
        AcquisitionMethod::Unknown => "Unknown",
    }
}

/// The acquisition method a name stands for; any other name gives `Unknown`.
pub open spec fn acquisition_method_named(s: Seq<char>) -> AcquisitionMethod {
    if s == "Found"@ {
        AcquisitionMethod::Found
    } else if s == "Purchased"@ {
        AcquisitionMethod::Purchased
    } else if s == "Gifted"@ {
        AcquisitionMethod::Gifted
    } else if s == "Looted"@ {
        AcquisitionMethod::Looted
    } else if s == "Crafted"@ {
        AcquisitionMethod::Crafted
    } else if s == "Inherited"@ {
        AcquisitionMethod::Inherited
    } else {
        AcquisitionMethod::Unknown
    }
}

impl AcquisitionMethod {
    /// The name of this value.
    pub fn as_str(&self) -> (r: &'static str)
        ensures
            r == acquisition_method_name(*self),
    {
        match self {
            AcquisitionMethod::Found => "Found",
            AcquisitionMethod::Purchased => "Purchased",
            AcquisitionMethod::Gifted => "Gifted",
            AcquisitionMethod::Looted => "Looted",
            AcquisitionMethod::Crafted => "Crafted",
            AcquisitionMethod::Inherited => "Inherited",
            AcquisitionMethod::Unknown => "Unknown",
        }
    }

    /// The value a name stands for; any other name gives `Unknown`.
    pub fn parse(s: &str) -> (r: AcquisitionMethod)
        ensures
            r == acquisition_method_named(s@),
    {
        if str_eq(s, "Found") {
            return AcquisitionMethod::Found;
        }
        if str_eq(s, "Purchased") {
            return AcquisitionMethod::Purchased;
        }
        if str_eq(s, "Gifted") {
            return AcquisitionMethod::Gifted;
        }
        if str_eq(s, "Looted") {
            return AcquisitionMethod::Looted;
        }
        if str_eq(s, "Crafted") {
            return AcquisitionMethod::Crafted;
        }
        if str_eq(s, "Inherited") {
            return AcquisitionMethod::Inherited;
        }
        AcquisitionMethod::Unknown
    }
}

impl std::str::FromStr for AcquisitionMethod {
    type Err = ();

    fn from_str(s: &str) -> (r: Result<Self, Self::Err>)
        ensures
            r == Ok::<AcquisitionMethod, ()>(acquisition_method_named(s@)),
    {
        Ok(AcquisitionMethod::parse(s))
    }
}

/// Every acquisition method's name parses back to it.
pub proof fn law_acquisition_method_name_round_trip(x: AcquisitionMethod)
    ensures
        acquisition_method_named(acquisition_method_name(x)@) == x,
{
    reveal_strlit("Crafted");
    reveal_strlit("Found");
    reveal_strlit("Gifted");
    reveal_strlit("Inherited");
    reveal_strlit("Looted");
    reveal_strlit("Purchased");
    reveal_strlit("Unknown");
    match x {
        AcquisitionMethod::Found => {
        },
        AcquisitionMethod::Purchased => {
            assert("Purchased"@.len() != "Found"@.len());
        },
        AcquisitionMethod::Gifted => {
            assert("Gifted"@.len() != "Found"@.len());
            assert("Gifted"@.len() != "Purchased"@.len());
        },
        AcquisitionMethod::Looted => {
            assert("Looted"@.len() != "Found"@.len());
            assert("Looted"@.len() != "Purchased"@.len());
            assert("Looted"@[0] != "Gifted"@[0]);
        },
        AcquisitionMethod::Crafted => {
            assert("Crafted"@.len() != "Found"@.len());
            assert("Crafted"@.len() != "Purchased"@.len());
            assert("Crafted"@.len() != "Gifted"@.len());
            assert("Crafted"@.len() != "Looted"@.len());
        },
        AcquisitionMethod::Inherited => {
            assert("Inherited"@.len() != "Found"@.len());
            assert("Inherited"@[0] != "Purchased"@[0]);
            assert("Inherited"@.len() != "Gifted"@.len());
            assert("Inherited"@.len() != "Looted"@.len());
            assert("Inherited"@.len() != "Crafted"@.len());
        },
        AcquisitionMethod::Unknown => {
            assert("Unknown"@.len() != "Found"@.len());
            assert("Unknown"@.len() != "Purchased"@.len());
            assert("Unknown"@.len() != "Gifted"@.len());
            assert("Unknown"@.len() != "Looted"@.len());
            assert("Unknown"@[0] != "Crafted"@[0]);
            assert("Unknown"@.len() != "Inherited"@.len());
        },
    }
}

/// How often something happens.
#[derive(Debug, Clone, Copy, PartialEq, Eq, Structural, Hash)]
pub enum FrequencyLevel {
    Rarely,
    Sometimes,
    Often,
    Always,
    Unknown,
}

/// The name of each frequency level.
pub open spec fn frequency_level_name(x: FrequencyLevel) -> &'static str {
    match x {
        FrequencyLevel::Rarely => "Rarely",
        FrequencyLevel::Sometimes => "Sometimes",
        FrequencyLevel::Often => "Often",
        FrequencyLevel::Always => "Always",
        FrequencyLevel::Unknown => "Unknown",
    }
}

/// The frequency level a name stands for; any other name gives `Unknown`.
pub open spec fn frequency_level_named(s: Seq<char>) -> FrequencyLevel {
    if s == "Rarely"@ {
        FrequencyLevel::Rarely
    } else if s == "Sometimes"@ {
        FrequencyLevel::Sometimes
    } else if s == "Often"@ {
        FrequencyLevel::Often
    } else if s == "Always"@ {
        FrequencyLevel::Always
    } else {
        FrequencyLevel::Unknown
    }
}

impl FrequencyLevel {
    /// The name of this value.
    pub fn as_str(&self) -> (r: &'static str)
        ensures
            r == frequency_level_name(*self),
    {
        match self {
            FrequencyLevel::Rarely => "Rarely",
            FrequencyLevel::Sometimes => "Sometimes",
            FrequencyLevel::Often => "Often",
            FrequencyLevel::Always => "Always",
            FrequencyLevel::Unknown => "Unknown",
        }
    }

    /// The value a name stands for; any other name gives `Unknown`.
    pub fn parse(s: &str) -> (r: FrequencyLevel)
        ensures
            r == frequency_level_named(s@),
    {
        if str_eq(s, "Rarely") {
            return FrequencyLevel::Rarely;
        }
        if str_eq(s, "Sometimes") {
            return FrequencyLevel::Sometimes;
        }
        if str_eq(s, "Often") {
            return FrequencyLevel::Often;
        }
        if str_eq(s, "Always") {
            return FrequencyLevel::Always;
        }
        FrequencyLevel::Unknown
    }
}

impl std::str::FromStr for FrequencyLevel {
    type Err = ();

    fn from_str(s: &str) -> (r: Result<Self, Self::Err>)
        ensures
            r == Ok::<FrequencyLevel, ()>(frequency_level_named(s@)),
    {
        Ok(FrequencyLevel::parse(s))
    }
}

/// Every frequency level's name parses back to it.
pub proof fn law_frequency_level_name_round_trip(x: FrequencyLevel)
    ensures
        frequency_level_named(frequency_level_name(x)@) == x,
{
    reveal_strlit("Always");
    reveal_strlit("Often");
    reveal_strlit("Rarely");
    reveal_strlit("Sometimes");
    reveal_strlit("Unknown");
    match x {
        FrequencyLevel::Rarely => {
        },
        FrequencyLevel::Sometimes => {
            assert("Sometimes"@.len() != "Rarely"@.len());
        },
        FrequencyLevel::Often => {
            assert("Often"@.len() != "Rarely"@.len());
            assert("Often"@.len() != "Sometimes"@.len());
        },
        FrequencyLevel::Always => {
            assert("Always"@[0] != "Rarely"@[0]);
            assert("Always"@.len() != "Sometimes"@.len());
            assert("Always"@.len() != "Often"@.len());
        },
        FrequencyLevel::Unknown => {
            assert("Unknown"@.len() != "Rarely"@.len());
            assert("Unknown"@.len() != "Sometimes"@.len());
            assert("Unknown"@.len() != "Often"@.len());
            assert("Unknown"@.len() != "Always"@.len());
        },
    }
}

} // verus!
