use vstd::prelude::*;

use crate::ids::Uuid;
use crate::models::{Category, Identifier, Binary32};
use crate::request::{single_pair, Method, Request};

verus! {

/// The subtypes of information entries.
#[derive(Clone, Copy, Debug, PartialEq, Eq, Structural)]
pub enum InformationType {
    ArchitectureArea,
    ArchitectureCapacity,
    PostalAddress,
}

impl InformationType {
    /// The subtype's tag: the list filter value, the wire discriminator and
    /// the type of a relation to an entity of this subtype.
    pub open spec fn spec_str(&self) -> Seq<char> {
        match self {
            InformationType::ArchitectureArea => "architecture_area"@,
            InformationType::ArchitectureCapacity => "architecture_capacity"@,
            InformationType::PostalAddress => "postal_address"@,
        }
    }

    pub fn to_string(&self) -> (r: String)
        ensures
            r@ == self.spec_str(),
    {
        match self {
            InformationType::ArchitectureArea => String::from_str("architecture_area"),
            InformationType::ArchitectureCapacity => String::from_str("architecture_capacity"),
            InformationType::PostalAddress => String::from_str("postal_address"),
        }
    }
}

/// A stored information entry, of one of its subtypes.
#[derive(Clone, Debug)]
pub enum Information {
    ArchitectureArea(ArchitectureArea),
    ArchitectureCapacity(ArchitectureCapacity),
    PostalAddress(PostalAddress),
}

#[derive(Clone, Debug)]
pub struct ArchitectureArea {
    pub id: Uuid,
    pub name: String,
    pub identifiers: Option<Vec<Identifier>>,
    pub gross_area: Option<Binary32>,
    pub net_area: Option<Binary32>,
    pub rentable_area: Option<Binary32>,
}

#[derive(Clone, Debug)]
pub struct ArchitectureCapacity {
    pub id: Uuid,
    pub name: String,
    pub identifiers: Option<Vec<Identifier>>,
    pub max_occupancy: Option<u32>,
    pub seating_capacity: Option<u32>,
}

#[derive(Clone, Debug)]
pub struct PostalAddress {
    pub id: Uuid,
    pub name: String,
    pub identifiers: Option<Vec<Identifier>>,
    pub address_line1: Option<String>,
    pub address_line2: Option<String>,
    pub city: Option<String>,
    pub country: Option<String>,
    pub postal_code: Option<String>,
    pub region: Option<String>,
}

/// An information entry to create: an entity without its id, which the server assigns.
#[derive(Clone, Debug)]
pub enum NewInformation {
    ArchitectureArea {
        name: String,
        identifiers: Option<Vec<Identifier>>,
        gross_area: Option<Binary32>,
        net_area: Option<Binary32>,
        rentable_area: Option<Binary32>,
    },
    ArchitectureCapacity {
        name: String,
        identifiers: Option<Vec<Identifier>>,
        max_occupancy: Option<u32>,
        seating_capacity: Option<u32>,
    },
    PostalAddress {
        name: String,
        identifiers: Option<Vec<Identifier>>,
        address_line1: Option<String>,
        address_line2: Option<String>,
        city: Option<String>,
        country: Option<String>,
        postal_code: Option<String>,
        region: Option<String>,
    },
}

impl Information {
    pub open spec fn spec_id(&self) -> Uuid {
        match self {
            Information::ArchitectureArea(e) => e.id,
            Information::ArchitectureCapacity(e) => e.id,
            Information::PostalAddress(e) => e.id,
        }
    }

    pub open spec fn spec_name(&self) -> Seq<char> {
        match self {
            Information::ArchitectureArea(e) => e.name@,
            Information::ArchitectureCapacity(e) => e.name@,
            Information::PostalAddress(e) => e.name@,
        }
    }

    pub open spec fn spec_type(&self) -> InformationType {
        match self {
            Information::ArchitectureArea(_) => InformationType::ArchitectureArea,
            Information::ArchitectureCapacity(_) => InformationType::ArchitectureCapacity,
            Information::PostalAddress(_) => InformationType::PostalAddress,
        }
    }

    pub fn id(&self) -> (r: Uuid)
        ensures
            r == self.spec_id(),
    {
        match self {
            Information::ArchitectureArea(e) => e.id,
            Information::ArchitectureCapacity(e) => e.id,
            Information::PostalAddress(e) => e.id,
        }
    }

    pub fn information_type(&self) -> (r: InformationType)
        ensures
            r == self.spec_type(),
    {
        match self {
            Information::ArchitectureArea(_) => InformationType::ArchitectureArea,
            Information::ArchitectureCapacity(_) => InformationType::ArchitectureCapacity,
            Information::PostalAddress(_) => InformationType::PostalAddress,
        }
    }
}

impl NewInformation {
    pub open spec fn spec_type(&self) -> InformationType {
        match self {
            NewInformation::ArchitectureArea { .. } => InformationType::ArchitectureArea,
            NewInformation::ArchitectureCapacity { .. } => InformationType::ArchitectureCapacity,
            NewInformation::PostalAddress { .. } => InformationType::PostalAddress,
        }
    }

    pub fn information_type(&self) -> (r: InformationType)
        ensures
            r == self.spec_type(),
    {
        match self {
            NewInformation::ArchitectureArea { .. } => InformationType::ArchitectureArea,
            NewInformation::ArchitectureCapacity { .. } => InformationType::ArchitectureCapacity,
            NewInformation::PostalAddress { .. } => InformationType::PostalAddress,
        }
    }
}

/// Lists the information entries of one subtype: `GET information?type=<subtype>`.
impl Request for InformationType {
    open spec fn spec_endpoint(&self) -> Seq<char> {
        Category::Information.spec_path()
    }

    open spec fn spec_method(&self) -> Method {
        Method::Get
    }

    open spec fn spec_query(&self) -> Option<Seq<(Seq<char>, Seq<char>)>> {
        Some(seq![("type"@, self.spec_str())])
    }

    open spec fn spec_form(&self) -> Option<Seq<(Seq<char>, Seq<char>)>> {
        None
    }

    open spec fn spec_basic_auth(&self) -> Option<(Seq<char>, Option<Seq<char>>)> {
        None
    }

    open spec fn spec_has_body(&self) -> bool {
        false
    }

    fn endpoint(&self) -> String {
        Category::Information.path()
    }

    fn method(&self) -> Method {
        Method::Get
    }

    fn query(&self) -> Option<Vec<(String, String)>> {
        Some(single_pair("type", self.to_string()))
    }

    fn form(&self) -> Option<Vec<(String, String)>> {
        None
    }

    fn basic_auth(&self) -> Option<(String, Option<String>)> {
        None
    }

    fn has_body(&self) -> bool {
        false
    }
}

/// Creates an entry: `POST information` with the entry as the body.
impl Request for NewInformation {
    open spec fn spec_endpoint(&self) -> Seq<char> {
        Category::Information.spec_path()
    }

    open spec fn spec_method(&self) -> Method {
        Method::Post
    }

    open spec fn spec_query(&self) -> Option<Seq<(Seq<char>, Seq<char>)>> {
        None
    }

    open spec fn spec_form(&self) -> Option<Seq<(Seq<char>, Seq<char>)>> {
        None
    }

    open spec fn spec_basic_auth(&self) -> Option<(Seq<char>, Option<Seq<char>>)> {
        None
    }

    open spec fn spec_has_body(&self) -> bool {
        true
    }

    fn endpoint(&self) -> String {
        Category::Information.path()
    }

    fn method(&self) -> Method {
        Method::Post
    }

    fn query(&self) -> Option<Vec<(String, String)>> {
        None
    }

    fn form(&self) -> Option<Vec<(String, String)>> {
        None
    }

    fn basic_auth(&self) -> Option<(String, Option<String>)> {
        None
    }

    fn has_body(&self) -> bool {
        true
    }
}

/// Replaces an entry: `PUT information/<id>` with the whole entry as the body.
impl Request for Information {
    open spec fn spec_endpoint(&self) -> Seq<char> {
        Category::Information.spec_item_path(self.spec_id())
    }

    open spec fn spec_method(&self) -> Method {
        Method::Put
    }

    open spec fn spec_query(&self) -> Option<Seq<(Seq<char>, Seq<char>)>> {
        None
    }

    open spec fn spec_form(&self) -> Option<Seq<(Seq<char>, Seq<char>)>> {
        None
    }

    open spec fn spec_basic_auth(&self) -> Option<(Seq<char>, Option<Seq<char>>)> {
        None
    }

    open spec fn spec_has_body(&self) -> bool {
        true
    }

    fn endpoint(&self) -> String {
        Category::Information.item_path(self.id())
    }

    fn method(&self) -> Method {
        Method::Put
    }

    fn query(&self) -> Option<Vec<(String, String)>> {
        None
    }

    fn form(&self) -> Option<Vec<(String, String)>> {
        None
    }

    fn basic_auth(&self) -> Option<(String, Option<String>)> {
        None
    }

    fn has_body(&self) -> bool {
        true
    }
}

} // verus!
