use vstd::prelude::*;

use crate::error::Error;
use crate::ids::{uuid_parse, uuid_text, Uuid};
use crate::request::{Method, Request};

pub mod agent;
pub mod asset;
pub mod auth;
pub mod collection;
pub mod event;
pub mod information;
pub mod space;

use agent::{Agent, AgentType};
use asset::{Asset, AssetType};
use collection::{Collection, CollectionType};
use event::{Event, EventType};
use information::{Information, InformationType};
use space::{Space, SpaceType};

verus! {

/// The six entity categories, each with its own path on the API.
#[derive(Clone, Copy, Debug, PartialEq, Eq, Structural)]
pub enum Category {
    Agent,
    Asset,
    Space,
    Event,
    Collection,
    Information,
}

impl Category {
    /// The category's path below the API's base URL.
    pub open spec fn spec_path(&self) -> Seq<char> {
        match self {
            Category::Agent => "agent"@,
            Category::Asset => "asset"@,
            Category::Space => "space"@,
            Category::Event => "event"@,
            Category::Collection => "collection"@,
            Category::Information => "information"@,
        }
    }

    /// The path of one entry of the category: `<category>/<id>`.
    pub open spec fn spec_item_path(&self, id: Uuid) -> Seq<char> {
        self.spec_path() + "/"@ + uuid_text(id.value)
    }

    pub fn path(&self) -> (r: String)
        ensures
            r@ == self.spec_path(),
    {
        match self {
            Category::Agent => String::from_str("agent"),
            Category::Asset => String::from_str("asset"),
            Category::Space => String::from_str("space"),
            Category::Event => String::from_str("event"),
            Category::Collection => String::from_str("collection"),
            Category::Information => String::from_str("information"),
        }
    }

    pub fn item_path(&self, id: Uuid) -> (r: String)
        ensures
            r@ == self.spec_item_path(id),
    {
        let id_text = id.to_string();
        self.path().concat("/").concat(id_text.as_str())
    }
}

/// A bare id: the reply to a create call, and a reference inside new events.
#[derive(Clone, Copy, Debug, PartialEq, Eq, Structural)]
pub struct Id {
    pub id: Uuid,
}

impl From<Uuid> for Id {
    fn from(value: Uuid) -> Self {
        Id { id: value }
    }
}

impl vstd::std_specs::convert::FromSpecImpl<Uuid> for Id {
    open spec fn obeys_from_spec() -> bool {
        true
    }

    open spec fn from_spec(v: Uuid) -> Id {
        Id { id: v }
    }
}

/// An id of an entity in an outside system. Duplicates are allowed.
#[derive(Clone, Debug)]
pub struct Identifier {
    pub integration: String,
    pub external_id: String,
}

/// A point-in-time reference to another entity: its id, and, where known,
/// its subtype's tag and its name. It is not kept up to date.
#[derive(Clone, Debug)]
pub struct Relation {
    pub id: Uuid,
    /// The wire key is `type`.
    pub rtype: Option<String>,
    pub name: Option<String>,
}

/// The text of an optional string.
pub open spec fn opt_text(o: Option<String>) -> Option<Seq<char>> {
    match o {
        Some(s) => Some(s@),
        None => None,
    }
}

impl View for Relation {
    type V = (Uuid, Option<Seq<char>>, Option<Seq<char>>);

    open spec fn view(&self) -> (Uuid, Option<Seq<char>>, Option<Seq<char>>) {
        (self.id, opt_text(self.rtype), opt_text(self.name))
    }
}

impl From<Uuid> for Relation {
    /// A relation known by its id only.
    fn from(value: Uuid) -> Self {
        Relation { id: value, rtype: None, name: None }
    }
}

impl vstd::std_specs::convert::FromSpecImpl<Uuid> for Relation {
    open spec fn obeys_from_spec() -> bool {
        true
    }

    open spec fn from_spec(v: Uuid) -> Relation {
        Relation { id: v, rtype: None, name: None }
    }
}

impl Relation {
    /// A relation known by its id only, read from the id's text.
    pub fn try_from(value: String) -> (r: Result<Relation, Error>)
        ensures
            match uuid_parse(value@) {
                Some(v) => r matches Ok(rel) && rel@ == (Uuid { value: v }, None::<Seq<char>>, None::<Seq<char>>),
                None => r matches Err(e) && e@ == (crate::error::ErrorKind::Unknown, "Failed to parse UUID"@),
            },
    {
        match Uuid::parse(value.as_str()) {
            Some(id) => Ok(Relation { id, rtype: None, name: None }),
            None => Err(Error::Unknown(String::from_str("Failed to parse UUID"))),
        }
    }

    /// The relation to an agent: its id, its subtype's tag and its name.
    pub fn from_agent(value: Agent) -> (r: Relation)
        ensures
            r@ == (value.spec_id(), Some(value.spec_type().spec_str()), Some(value.spec_name())),
    {
        match value {
            Agent::AccessGroup(e) => Relation {
                id: e.id,
                rtype: Some(AgentType::AccessGroup.to_string()),
                name: Some(e.name),
            },
            Agent::Company(e) => Relation {
                id: e.id,
                rtype: Some(AgentType::Company.to_string()),
                name: Some(e.name),
            },
            Agent::Department(e) => Relation {
                id: e.id,
                rtype: Some(AgentType::Department.to_string()),
                name: Some(e.name),
            },
            Agent::Person(e) => Relation {
                id: e.id,
                rtype: Some(AgentType::Person.to_string()),
                name: Some(e.name),
            },
        }
    }

    /// The relation to an asset: its id, its subtype's tag and its name.
    pub fn from_asset(value: Asset) -> (r: Relation)
        ensures
            r@ == (value.spec_id(), Some(value.spec_type().spec_str()), Some(value.spec_name())),
    {
        match value {
            Asset::Door(e) => Relation {
                id: e.id,
                rtype: Some(AssetType::Door.to_string()),
                name: Some(e.name),
            },
            Asset::Meter(e) => Relation {
                id: e.id,
                rtype: Some(AssetType::Meter.to_string()),
                name: Some(e.name),
            },
            Asset::ElectricalMeter(e) => Relation {
                id: e.id,
                rtype: Some(AssetType::ElectricalMeter.to_string()),
                name: Some(e.name),
            },
            Asset::GasMeter(e) => Relation {
                id: e.id,
                rtype: Some(AssetType::GasMeter.to_string()),
                name: Some(e.name),
            },
            Asset::HotWaterMeter(e) => Relation {
                id: e.id,
                rtype: Some(AssetType::HotWaterMeter.to_string()),
                name: Some(e.name),
            },
            Asset::ChilledWaterMeter(e) => Relation {
                id: e.id,
                rtype: Some(AssetType::ChilledWaterMeter.to_string()),
                name: Some(e.name),
            },
        }
    }

    /// The relation to a space: its id, its subtype's tag and its name.
    pub fn from_space(value: Space) -> (r: Relation)
        ensures
            r@ == (value.spec_id(), Some(value.spec_type().spec_str()), Some(value.spec_name())),
    {
        match value {
            Space::AccessControlZone(e) => Relation {
                id: e.id,
                rtype: Some(SpaceType::AccessControlZone.to_string()),
                name: Some(e.name),
            },
            Space::Building(e) => Relation {
                id: e.id,
                rtype: Some(SpaceType::Building.to_string()),
                name: Some(e.name),
            },
            Space::Level(e) => Relation {
                id: e.id,
                rtype: Some(SpaceType::Level.to_string()),
                name: Some(e.name),
            },
            Space::Room(e) => Relation {
                id: e.id,
                rtype: Some(SpaceType::Room.to_string()),
                name: Some(e.name),
            },
            Space::Entrance(e) => Relation {
                id: e.id,
                rtype: Some(SpaceType::Entrance.to_string()),
                name: Some(e.name),
            },
        }
    }

    /// The relation to an event: its id, its subtype's tag and its name.
    pub fn from_event(value: Event) -> (r: Relation)
        ensures
            r@ == (value.spec_id(), Some(value.spec_type().spec_str()), Some(value.spec_name())),
    {
        match value {
            Event::Lease(e) => Relation {
                id: e.id,
                rtype: Some(EventType::Lease.to_string()),
                name: Some(e.name),
            },
            Event::Booking(e) => Relation {
                id: e.id,
                rtype: Some(EventType::Booking.to_string()),
                name: Some(e.name),
            },
        }
    }

    /// The relation to a collection: its id, its subtype's tag and its name.
    pub fn from_collection(value: Collection) -> (r: Relation)
        ensures
            r@ == (value.spec_id(), Some(value.spec_type().spec_str()), Some(value.spec_name())),
    {
        match value {
            Collection::Apartment(e) => Relation {
                id: e.id,
                rtype: Some(CollectionType::Apartment.to_string()),
                name: Some(e.name),
            },
            Collection::Premises(e) => Relation {
                id: e.id,
                rtype: Some(CollectionType::Premises.to_string()),
                name: Some(e.name),
            },
            Collection::RealEstate(e) => Relation {
                id: e.id,
                rtype: Some(CollectionType::RealEstate.to_string()),
                name: Some(e.name),
            },
        }
    }

    /// The relation to an information entry: its id, its subtype's tag and its name.
    pub fn from_information(value: Information) -> (r: Relation)
        ensures
            r@ == (value.spec_id(), Some(value.spec_type().spec_str()), Some(value.spec_name())),
    {
        match value {
            Information::ArchitectureArea(e) => Relation {
                id: e.id,
                rtype: Some(InformationType::ArchitectureArea.to_string()),
                name: Some(e.name),
            },
            Information::ArchitectureCapacity(e) => Relation {
                id: e.id,
                rtype: Some(InformationType::ArchitectureCapacity.to_string()),
                name: Some(e.name),
            },
            Information::PostalAddress(e) => Relation {
                id: e.id,
                rtype: Some(InformationType::PostalAddress.to_string()),
                name: Some(e.name),
            },
        }
    }
}

/// An instant in UTC, held as whole seconds since the Unix epoch and the
/// nanoseconds past that second.
#[derive(Clone, Copy, Debug, PartialEq, Eq, Structural)]
pub struct Timestamp {
    pub secs: i64,
    pub nanos: u32,
}

/// An IEEE 754 double-precision number, held by its bit pattern.
#[derive(Clone, Copy, Debug, PartialEq, Eq, Structural)]
pub struct Binary64 {
    pub bits: u64,
}

/// An IEEE 754 single-precision number, held by its bit pattern.
#[derive(Clone, Copy, Debug, PartialEq, Eq, Structural)]
pub struct Binary32 {
    pub bits: u32,
}

/// A call on one entry, known by its id.
#[derive(Clone, Copy, Debug, PartialEq, Eq, Structural)]
pub enum ById {
    /// `GET <category>/<id>`
    Get(Category, Uuid),
    /// `DELETE <category>/<id>`
    Delete(Category, Uuid),
    /// `GET person/<id>/keys`
    PersonKeys(Uuid),
}

impl Request for ById {
    open spec fn spec_endpoint(&self) -> Seq<char> {
        match self {
            ById::Get(c, id) => c.spec_item_path(*id),
            ById::Delete(c, id) => c.spec_item_path(*id),
            ById::PersonKeys(id) => "person/"@ + uuid_text(id.value) + "/keys"@,
        }
    }

    open spec fn spec_method(&self) -> Method {
        match self {
            ById::Delete(..) => Method::Delete,
            _ => Method::Get,
        }
    }

    open spec fn spec_query(&self) -> Option<Seq<(Seq<char>, Seq<char>)>> {
        None
    }

    open spec fn spec_form(&self) -> Option<Seq<(Seq<char>, Seq<char>)>> {
        None
    }

    open spec fn spec_basic_auth(&self) -> Option<(Seq<char>, Option<Seq<char>>)> {
        None
    }

    open spec fn spec_has_body(&self) -> bool {
        false
    }

    fn endpoint(&self) -> String {
        match self {
            ById::Get(c, id) => c.item_path(*id),
            ById::Delete(c, id) => c.item_path(*id),
            ById::PersonKeys(id) => {
                let id_text = id.to_string();
                String::from_str("person/").concat(id_text.as_str()).concat("/keys")
            },
        }
    }

    fn method(&self) -> Method {
        match self {
            ById::Delete(..) => Method::Delete,
            _ => Method::Get,
        }
    }

    fn query(&self) -> Option<Vec<(String, String)>> {
        None
    }

    fn form(&self) -> Option<Vec<(String, String)>> {
        None
    }

    fn basic_auth(&self) -> Option<(String, Option<String>)> {
        None
    }

    fn has_body(&self) -> bool {
        false
    }
}

} // verus!
