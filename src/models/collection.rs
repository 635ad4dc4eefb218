use vstd::prelude::*;

use crate::ids::Uuid;
use crate::models::{Category, Identifier, Relation};
use crate::request::{single_pair, Method, Request};

verus! {

/// The subtypes of collections.
#[derive(Clone, Copy, Debug, PartialEq, Eq, Structural)]
pub enum CollectionType {
    Apartment,
    Premises,
    RealEstate,
}

impl CollectionType {
    /// The subtype's tag: the list filter value, the wire discriminator and
    /// the type of a relation to an entity of this subtype.
    pub open spec fn spec_str(&self) -> Seq<char> {
        match self {
            CollectionType::Apartment => "apartment"@,
            CollectionType::Premises => "premises"@,
            CollectionType::RealEstate => "real_estate"@,
        }
    }

    pub fn to_string(&self) -> (r: String)
        ensures
            r@ == self.spec_str(),
    {
        match self {
            CollectionType::Apartment => String::from_str("apartment"),
            CollectionType::Premises => String::from_str("premises"),
            CollectionType::RealEstate => String::from_str("real_estate"),
        }
    }
}

/// A stored collection, of one of its subtypes.
#[derive(Clone, Debug)]
pub enum Collection {
    Apartment(Apartment),
    Premises(Premises),
    RealEstate(RealEstate),
}

#[derive(Clone, Debug)]
pub struct Apartment {
    pub id: Uuid,
    pub name: String,
    pub identifiers: Option<Vec<Identifier>>,
    pub includes: Option<Vec<Relation>>,
}

#[derive(Clone, Debug)]
pub struct Premises {
    pub id: Uuid,
    pub name: String,
    pub identifiers: Option<Vec<Identifier>>,
    pub includes: Option<Vec<Relation>>,
}

#[derive(Clone, Debug)]
pub struct RealEstate {
    pub id: Uuid,
    pub name: String,
    pub identifiers: Option<Vec<Identifier>>,
    pub includes: Option<Vec<Relation>>,
}

/// A collection to create: an entity without its id, which the server assigns.
#[derive(Clone, Debug)]
pub enum NewCollection {
    Apartment {
        name: String,
        includes: Option<Vec<Relation>>,
    },
    Premises {
        name: String,
        includes: Option<Vec<Relation>>,
    },
    RealEstate {
        name: String,
        includes: Option<Vec<Relation>>,
    },
}

impl Collection {
    pub open spec fn spec_id(&self) -> Uuid {
        match self {
            Collection::Apartment(e) => e.id,
            Collection::Premises(e) => e.id,
            Collection::RealEstate(e) => e.id,
        }
    }

    pub open spec fn spec_name(&self) -> Seq<char> {
        match self {
            Collection::Apartment(e) => e.name@,
            Collection::Premises(e) => e.name@,
            Collection::RealEstate(e) => e.name@,
        }
    }

    pub open spec fn spec_type(&self) -> CollectionType {
        match self {
            Collection::Apartment(_) => CollectionType::Apartment,
            Collection::Premises(_) => CollectionType::Premises,
            Collection::RealEstate(_) => CollectionType::RealEstate,
        }
    }

    pub fn id(&self) -> (r: Uuid)
        ensures
            r == self.spec_id(),
    {
        match self {
            Collection::Apartment(e) => e.id,
            Collection::Premises(e) => e.id,
            Collection::RealEstate(e) => e.id,
        }
    }

    pub fn collection_type(&self) -> (r: CollectionType)
        ensures
            r == self.spec_type(),
    {
        match self {
            Collection::Apartment(_) => CollectionType::Apartment,
            Collection::Premises(_) => CollectionType::Premises,
            Collection::RealEstate(_) => CollectionType::RealEstate,
        }
    }
}

impl NewCollection {
    pub open spec fn spec_type(&self) -> CollectionType {
        match self {
            NewCollection::Apartment { .. } => CollectionType::Apartment,
            NewCollection::Premises { .. } => CollectionType::Premises,
            NewCollection::RealEstate { .. } => CollectionType::RealEstate,
        }
    }

    pub fn collection_type(&self) -> (r: CollectionType)
        ensures
            r == self.spec_type(),
    {
        match self {
            NewCollection::Apartment { .. } => CollectionType::Apartment,
            NewCollection::Premises { .. } => CollectionType::Premises,
            NewCollection::RealEstate { .. } => CollectionType::RealEstate,
        }
    }
}

/// Lists the collections of one subtype: `GET collection?type=<subtype>`.
impl Request for CollectionType {
    open spec fn spec_endpoint(&self) -> Seq<char> {
        Category::Collection.spec_path()
    }

    open spec fn spec_method(&self) -> Method {
        Method::Get
    }

    open spec fn spec_query(&self) -> Option<Seq<(Seq<char>, Seq<char>)>> {
        Some(seq![("type"@, self.spec_str())])
    }

    open spec fn spec_form(&self) -> Option<Seq<(Seq<char>, Seq<char>)>> {
        None
    }

    open spec fn spec_basic_auth(&self) -> Option<(Seq<char>, Option<Seq<char>>)> {
        None
    }

    open spec fn spec_has_body(&self) -> bool {
        false
    }

    fn endpoint(&self) -> String {
        Category::Collection.path()
    }

    fn method(&self) -> Method {
        Method::Get
    }

    fn query(&self) -> Option<Vec<(String, String)>> {
        Some(single_pair("type", self.to_string()))
    }

    fn form(&self) -> Option<Vec<(String, String)>> {
        None
    }

    fn basic_auth(&self) -> Option<(String, Option<String>)> {
        None
    }

    fn has_body(&self) -> bool {
        false
    }
}

/// Creates an entry: `POST collection` with the entry as the body.
impl Request for NewCollection {
    open spec fn spec_endpoint(&self) -> Seq<char> {
        Category::Collection.spec_path()
    }

    open spec fn spec_method(&self) -> Method {
        Method::Post
    }

    open spec fn spec_query(&self) -> Option<Seq<(Seq<char>, Seq<char>)>> {
        None
    }

    open spec fn spec_form(&self) -> Option<Seq<(Seq<char>, Seq<char>)>> {
        None
    }

    open spec fn spec_basic_auth(&self) -> Option<(Seq<char>, Option<Seq<char>>)> {
        None
    }

    open spec fn spec_has_body(&self) -> bool {
        true
    }

    fn endpoint(&self) -> String {
        Category::Collection.path()
    }

    fn method(&self) -> Method {
        Method::Post
    }

    fn query(&self) -> Option<Vec<(String, String)>> {
        None
    }

    fn form(&self) -> Option<Vec<(String, String)>> {
        None
    }

    fn basic_auth(&self) -> Option<(String, Option<String>)> {
        None
    }

    fn has_body(&self) -> bool {
        true
    }
}

/// Replaces an entry: `PUT collection/<id>` with the whole entry as the body.
impl Request for Collection {
    open spec fn spec_endpoint(&self) -> Seq<char> {
        Category::Collection.spec_item_path(self.spec_id())
    }

    open spec fn spec_method(&self) -> Method {
        Method::Put
    }

    open spec fn spec_query(&self) -> Option<Seq<(Seq<char>, Seq<char>)>> {
        None
    }

    open spec fn spec_form(&self) -> Option<Seq<(Seq<char>, Seq<char>)>> {
        None
    }

    open spec fn spec_basic_auth(&self) -> Option<(Seq<char>, Option<Seq<char>>)> {
        None
    }

    open spec fn spec_has_body(&self) -> bool {
        true
    }

    fn endpoint(&self) -> String {
        Category::Collection.item_path(self.id())
    }

    fn method(&self) -> Method {
        Method::Put
    }

    fn query(&self) -> Option<Vec<(String, String)>> {
        None
    }

    fn form(&self) -> Option<Vec<(String, String)>> {
        None
    }

    fn basic_auth(&self) -> Option<(String, Option<String>)> {
        None
    }

    fn has_body(&self) -> bool {
        true
    }
}

} // verus!
