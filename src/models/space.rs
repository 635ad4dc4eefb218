use vstd::prelude::*;

use crate::ids::Uuid;
use crate::models::{Category, Identifier, Relation, Binary64};
use crate::request::{single_pair, Method, Request};

verus! {

/// Area figures of a space.
#[derive(Clone, Debug)]
pub struct Area {
    pub id: Uuid,
    /// The wire key is `type`.
    pub atype: String,
    pub name: String,
    pub identifiers: Option<Vec<Identifier>>,
    pub gross_area: Option<Binary64>,
    pub net_area: Option<Binary64>,
    pub rentable_area: Option<Binary64>,
}

/// Capacity figures of a space.
#[derive(Clone, Debug)]
pub struct Capacity {
    pub id: Uuid,
    /// The wire key is `type`.
    pub atype: String,
    pub name: String,
    pub identifiers: Option<Vec<Identifier>>,
    pub max_occupancy: Option<Binary64>,
    pub seating_capacity: Option<Binary64>,
}

/// The subtypes of spaces.
#[derive(Clone, Copy, Debug, PartialEq, Eq, Structural)]
pub enum SpaceType {
    AccessControlZone,
    Building,
    Level,
    Room,
    Entrance,
}

impl SpaceType {
    /// The subtype's tag: the list filter value, the wire discriminator and
    /// the type of a relation to an entity of this subtype.
    pub open spec fn spec_str(&self) -> Seq<char> {
        match self {
            SpaceType::AccessControlZone => "access_control_zone"@,
            SpaceType::Building => "building"@,
            SpaceType::Level => "level"@,
            SpaceType::Room => "room"@,
            SpaceType::Entrance => "entrance"@,
        }
    }

    pub fn to_string(&self) -> (r: String)
        ensures
            r@ == self.spec_str(),
    {
        match self {
            SpaceType::AccessControlZone => String::from_str("access_control_zone"),
            SpaceType::Building => String::from_str("building"),
            SpaceType::Level => String::from_str("level"),
            SpaceType::Room => String::from_str("room"),
            SpaceType::Entrance => String::from_str("entrance"),
        }
    }
}

/// A stored space, of one of its subtypes.
#[derive(Clone, Debug)]
pub enum Space {
    AccessControlZone(AccessControlZone),
    Building(Building),
    Level(Level),
    Room(Room),
    Entrance(Entrance),
}

#[derive(Clone, Debug)]
pub struct AccessControlZone {
    pub id: Uuid,
    pub name: String,
    pub identifiers: Option<Vec<Identifier>>,
    pub has_part: Option<Vec<Relation>>,
    pub is_part_of: Option<Vec<Relation>>,
    pub is_location_of: Option<Vec<Relation>>,
    pub area: Option<Area>,
    pub capacity: Option<Capacity>,
    pub address: Option<Vec<Relation>>,
    pub included_in: Option<Vec<Relation>>,
    pub has_point: Option<Vec<Relation>>,
}

#[derive(Clone, Debug)]
pub struct Building {
    pub id: Uuid,
    pub name: String,
    pub identifiers: Option<Vec<Identifier>>,
    pub has_part: Option<Vec<Relation>>,
    pub is_part_of: Option<Vec<Relation>>,
    pub is_location_of: Option<Vec<Relation>>,
    pub area: Option<Area>,
    pub capacity: Option<Capacity>,
    pub address: Option<Vec<Relation>>,
    pub included_in: Option<Vec<Relation>>,
    pub has_point: Option<Vec<Relation>>,
}

#[derive(Clone, Debug)]
pub struct Level {
    pub id: Uuid,
    pub name: String,
    pub identifiers: Option<Vec<Identifier>>,
    pub has_part: Option<Vec<Relation>>,
    pub is_part_of: Option<Vec<Relation>>,
    pub is_location_of: Option<Vec<Relation>>,
    pub area: Option<Area>,
    pub capacity: Option<Capacity>,
    pub address: Option<Vec<Relation>>,
    pub included_in: Option<Vec<Relation>>,
    pub has_point: Option<Vec<Relation>>,
    pub level_number: Option<u32>,
}

#[derive(Clone, Debug)]
pub struct Room {
    pub id: Uuid,
    pub name: String,
    pub identifiers: Option<Vec<Identifier>>,
    pub has_part: Option<Vec<Relation>>,
    pub is_part_of: Option<Vec<Relation>>,
    pub is_location_of: Option<Vec<Relation>>,
    pub area: Option<Area>,
    pub capacity: Option<Capacity>,
    pub address: Option<Vec<Relation>>,
    pub included_in: Option<Vec<Relation>>,
    pub has_point: Option<Vec<Relation>>,
    pub bookable: Option<bool>,
}

#[derive(Clone, Debug)]
pub struct Entrance {
    pub id: Uuid,
    pub name: String,
    pub identifiers: Option<Vec<Identifier>>,
    pub has_part: Option<Vec<Relation>>,
    pub is_part_of: Option<Vec<Relation>>,
    pub is_location_of: Option<Vec<Relation>>,
    pub area: Option<Area>,
    pub capacity: Option<Capacity>,
    pub address: Option<Vec<Relation>>,
    pub included_in: Option<Vec<Relation>>,
    pub has_point: Option<Vec<Relation>>,
    pub bookable: Option<bool>,
}

/// A space to create: an entity without its id, which the server assigns.
#[derive(Clone, Debug)]
pub enum NewSpace {
    AccessControlZone {
        name: String,
        identifiers: Option<Vec<Identifier>>,
        has_part: Option<Vec<Relation>>,
        is_part_of: Option<Vec<Relation>>,
        is_location_of: Option<Vec<Relation>>,
        area: Option<Area>,
        capacity: Option<Capacity>,
        address: Option<Vec<Relation>>,
        included_in: Option<Vec<Relation>>,
        has_point: Option<Vec<Relation>>,
    },
    Building {
        name: String,
        identifiers: Option<Vec<Identifier>>,
        has_part: Option<Vec<Relation>>,
        is_part_of: Option<Vec<Relation>>,
        is_location_of: Option<Vec<Relation>>,
        area: Option<Area>,
        capacity: Option<Capacity>,
        address: Option<Vec<Relation>>,
        included_in: Option<Vec<Relation>>,
        has_point: Option<Vec<Relation>>,
    },
    Level {
        name: String,
        identifiers: Option<Vec<Identifier>>,
        has_part: Option<Vec<Relation>>,
        is_part_of: Option<Vec<Relation>>,
        is_location_of: Option<Vec<Relation>>,
        area: Option<Area>,
        capacity: Option<Capacity>,
        address: Option<Vec<Relation>>,
        included_in: Option<Vec<Relation>>,
        has_point: Option<Vec<Relation>>,
        level_number: Option<u32>,
    },
    Room {
        name: String,
        identifiers: Option<Vec<Identifier>>,
        has_part: Option<Vec<Relation>>,
        is_part_of: Option<Vec<Relation>>,
        is_location_of: Option<Vec<Relation>>,
        area: Option<Area>,
        capacity: Option<Capacity>,
        address: Option<Vec<Relation>>,
        included_in: Option<Vec<Relation>>,
        has_point: Option<Vec<Relation>>,
        bookable: Option<bool>,
    },
    Entrance {
        name: String,
        identifiers: Option<Vec<Identifier>>,
        has_part: Option<Vec<Relation>>,
        is_part_of: Option<Vec<Relation>>,
        is_location_of: Option<Vec<Relation>>,
        area: Option<Area>,
        capacity: Option<Capacity>,
        address: Option<Vec<Relation>>,
        included_in: Option<Vec<Relation>>,
        has_point: Option<Vec<Relation>>,
        bookable: Option<bool>,
    },
}

impl Space {
    pub open spec fn spec_id(&self) -> Uuid {
        match self {
            Space::AccessControlZone(e) => e.id,
            Space::Building(e) => e.id,
            Space::Level(e) => e.id,
            Space::Room(e) => e.id,
            Space::Entrance(e) => e.id,
        }
    }

    pub open spec fn spec_name(&self) -> Seq<char> {
        match self {
            Space::AccessControlZone(e) => e.name@,
            Space::Building(e) => e.name@,
            Space::Level(e) => e.name@,
            Space::Room(e) => e.name@,
            Space::Entrance(e) => e.name@,
        }
    }

    pub open spec fn spec_type(&self) -> SpaceType {
        match self {
            Space::AccessControlZone(_) => SpaceType::AccessControlZone,
            Space::Building(_) => SpaceType::Building,
            Space::Level(_) => SpaceType::Level,
            Space::Room(_) => SpaceType::Room,
            Space::Entrance(_) => SpaceType::Entrance,
        }
    }

    pub fn id(&self) -> (r: Uuid)
        ensures
            r == self.spec_id(),
    {
        match self {
            Space::AccessControlZone(e) => e.id,
            Space::Building(e) => e.id,
            Space::Level(e) => e.id,
            Space::Room(e) => e.id,
            Space::Entrance(e) => e.id,
        }
    }

    pub fn space_type(&self) -> (r: SpaceType)
        ensures
            r == self.spec_type(),
    {
        match self {
            Space::AccessControlZone(_) => SpaceType::AccessControlZone,
            Space::Building(_) => SpaceType::Building,
            Space::Level(_) => SpaceType::Level,
            Space::Room(_) => SpaceType::Room,
            Space::Entrance(_) => SpaceType::Entrance,
        }
    }
}

impl NewSpace {
    pub open spec fn spec_type(&self) -> SpaceType {
        match self {
            NewSpace::AccessControlZone { .. } => SpaceType::AccessControlZone,
            NewSpace::Building { .. } => SpaceType::Building,
            NewSpace::Level { .. } => SpaceType::Level,
            NewSpace::Room { .. } => SpaceType::Room,
            NewSpace::Entrance { .. } => SpaceType::Entrance,
        }
    }

    pub fn space_type(&self) -> (r: SpaceType)
        ensures
            r == self.spec_type(),
    {
        match self {
            NewSpace::AccessControlZone { .. } => SpaceType::AccessControlZone,
            NewSpace::Building { .. } => SpaceType::Building,
            NewSpace::Level { .. } => SpaceType::Level,
            NewSpace::Room { .. } => SpaceType::Room,
            NewSpace::Entrance { .. } => SpaceType::Entrance,
        }
    }
}

/// Lists the spaces of one subtype: `GET space?type=<subtype>`.
impl Request for SpaceType {
    open spec fn spec_endpoint(&self) -> Seq<char> {
        Category::Space.spec_path()
    }

    open spec fn spec_method(&self) -> Method {
        Method::Get
    }

    open spec fn spec_query(&self) -> Option<Seq<(Seq<char>, Seq<char>)>> {
        Some(seq![("type"@, self.spec_str())])
    }

    open spec fn spec_form(&self) -> Option<Seq<(Seq<char>, Seq<char>)>> {
        None
    }

    open spec fn spec_basic_auth(&self) -> Option<(Seq<char>, Option<Seq<char>>)> {
        None
    }

    open spec fn spec_has_body(&self) -> bool {
        false
    }

    fn endpoint(&self) -> String {
        Category::Space.path()
    }

    fn method(&self) -> Method {
        Method::Get
    }

    fn query(&self) -> Option<Vec<(String, String)>> {
        Some(single_pair("type", self.to_string()))
    }

    fn form(&self) -> Option<Vec<(String, String)>> {
        None
    }

    fn basic_auth(&self) -> Option<(String, Option<String>)> {
        None
    }

    fn has_body(&self) -> bool {
        false
    }
}

/// Creates an entry: `POST space` with the entry as the body.
impl Request for NewSpace {
    open spec fn spec_endpoint(&self) -> Seq<char> {
        Category::Space.spec_path()
    }

    open spec fn spec_method(&self) -> Method {
        Method::Post
    }

    open spec fn spec_query(&self) -> Option<Seq<(Seq<char>, Seq<char>)>> {
        None
    }

    open spec fn spec_form(&self) -> Option<Seq<(Seq<char>, Seq<char>)>> {
        None
    }

    open spec fn spec_basic_auth(&self) -> Option<(Seq<char>, Option<Seq<char>>)> {
        None
    }

    open spec fn spec_has_body(&self) -> bool {
        true
    }

    fn endpoint(&self) -> String {
        Category::Space.path()
    }

    fn method(&self) -> Method {
        Method::Post
    }

    fn query(&self) -> Option<Vec<(String, String)>> {
        None
    }

    fn form(&self) -> Option<Vec<(String, String)>> {
        None
    }

    fn basic_auth(&self) -> Option<(String, Option<String>)> {
        None
    }

    fn has_body(&self) -> bool {
        true
    }
}

/// Replaces an entry: `PUT space/<id>` with the whole entry as the body.
impl Request for Space {
    open spec fn spec_endpoint(&self) -> Seq<char> {
        Category::Space.spec_item_path(self.spec_id())
    }

    open spec fn spec_method(&self) -> Method {
        Method::Put
    }

    open spec fn spec_query(&self) -> Option<Seq<(Seq<char>, Seq<char>)>> {
        None
    }

    open spec fn spec_form(&self) -> Option<Seq<(Seq<char>, Seq<char>)>> {
        None
    }

    open spec fn spec_basic_auth(&self) -> Option<(Seq<char>, Option<Seq<char>>)> {
        None
    }

    open spec fn spec_has_body(&self) -> bool {
        true
    }

    fn endpoint(&self) -> String {
        Category::Space.item_path(self.id())
    }

    fn method(&self) -> Method {
        Method::Put
    }

    fn query(&self) -> Option<Vec<(String, String)>> {
        None
    }

    fn form(&self) -> Option<Vec<(String, String)>> {
        None
    }

    fn basic_auth(&self) -> Option<(String, Option<String>)> {
        None
    }

    fn has_body(&self) -> bool {
        true
    }
}

} // verus!
