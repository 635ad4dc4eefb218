use vstd::prelude::*;

use crate::ids::Uuid;
use crate::models::{Category, Identifier, Relation};
use crate::request::{single_pair, Method, Request};

verus! {

/// The subtypes of agents.
#[derive(Clone, Copy, Debug, PartialEq, Eq, Structural)]
pub enum AgentType {
    AccessGroup,
    Company,
    Department,
    Person,
}

impl AgentType {
    /// The subtype's tag: the list filter value, the wire discriminator and
    /// the type of a relation to an entity of this subtype.
    pub open spec fn spec_str(&self) -> Seq<char> {
        match self {
            AgentType::AccessGroup => "access_group"@,
            AgentType::Company => "company"@,
            AgentType::Department => "department"@,
            AgentType::Person => "person"@,
        }
    }

    pub fn to_string(&self) -> (r: String)
        ensures
            r@ == self.spec_str(),
    {
        match self {
            AgentType::AccessGroup => String::from_str("access_group"),
            AgentType::Company => String::from_str("company"),
            AgentType::Department => String::from_str("department"),
            AgentType::Person => String::from_str("person"),
        }
    }
}

/// A stored agent, of one of its subtypes.
#[derive(Clone, Debug)]
pub enum Agent {
    AccessGroup(AccessGroup),
    Company(Company),
    Department(Department),
    Person(Person),
}

#[derive(Clone, Debug)]
pub struct AccessGroup {
    pub id: Uuid,
    pub name: String,
    pub identifiers: Option<Vec<Identifier>>,
    pub member_of: Option<Vec<Relation>>,
    pub logo: Option<String>,
    pub has_member: Option<Vec<Relation>>,
    pub includes_door: Option<Vec<Relation>>,
    pub includes_zone: Option<Vec<Relation>>,
}

#[derive(Clone, Debug)]
pub struct Company {
    pub id: Uuid,
    pub name: String,
    pub identifiers: Option<Vec<Identifier>>,
    pub member_of: Option<Vec<Relation>>,
    pub logo: Option<String>,
    pub has_member: Option<Vec<Relation>>,
}

#[derive(Clone, Debug)]
pub struct Department {
    pub id: Uuid,
    pub name: String,
    pub identifiers: Option<Vec<Identifier>>,
    pub member_of: Option<Vec<Relation>>,
    pub logo: Option<String>,
    pub has_member: Option<Vec<Relation>>,
}

#[derive(Clone, Debug)]
pub struct Person {
    pub id: Uuid,
    pub name: String,
    pub identifiers: Option<Vec<Identifier>>,
    pub member_of: Option<Vec<Relation>>,
    pub family_name: Option<String>,
    pub given_name: Option<String>,
    pub gender: Option<String>,
    pub image: Option<String>,
}

/// An agent to create: an entity without its id, which the server assigns.
#[derive(Clone, Debug)]
pub enum NewAgent {
    AccessGroup {
        name: String,
        identifiers: Option<Vec<Identifier>>,
        member_of: Option<Vec<Relation>>,
        logo: Option<String>,
        has_member: Option<Vec<Relation>>,
        includes_door: Option<Vec<Relation>>,
        includes_zone: Option<Vec<Relation>>,
    },
    Company {
        name: String,
        identifiers: Option<Vec<Identifier>>,
        member_of: Option<Vec<Relation>>,
        logo: Option<String>,
        has_member: Option<Vec<Relation>>,
    },
    Department {
        name: String,
        identifiers: Option<Vec<Identifier>>,
        member_of: Option<Vec<Relation>>,
        logo: Option<String>,
        has_member: Option<Vec<Relation>>,
    },
    Person {
        name: String,
        identifiers: Option<Vec<Identifier>>,
        member_of: Option<Vec<Relation>>,
        family_name: Option<String>,
        given_name: Option<String>,
        gender: Option<String>,
        image: Option<String>,
    },
}

impl Agent {
    pub open spec fn spec_id(&self) -> Uuid {
        match self {
            Agent::AccessGroup(e) => e.id,
            Agent::Company(e) => e.id,
            Agent::Department(e) => e.id,
            Agent::Person(e) => e.id,
        }
    }

    pub open spec fn spec_name(&self) -> Seq<char> {
        match self {
            Agent::AccessGroup(e) => e.name@,
            Agent::Company(e) => e.name@,
            Agent::Department(e) => e.name@,
            Agent::Person(e) => e.name@,
        }
    }

    pub open spec fn spec_type(&self) -> AgentType {
        match self {
            Agent::AccessGroup(_) => AgentType::AccessGroup,
            Agent::Company(_) => AgentType::Company,
            Agent::Department(_) => AgentType::Department,
            Agent::Person(_) => AgentType::Person,
        }
    }

    pub fn id(&self) -> (r: Uuid)
        ensures
            r == self.spec_id(),
    {
        match self {
            Agent::AccessGroup(e) => e.id,
            Agent::Company(e) => e.id,
            Agent::Department(e) => e.id,
            Agent::Person(e) => e.id,
        }
    }

    pub fn agent_type(&self) -> (r: AgentType)
        ensures
            r == self.spec_type(),
    {
        match self {
            Agent::AccessGroup(_) => AgentType::AccessGroup,
            Agent::Company(_) => AgentType::Company,
            Agent::Department(_) => AgentType::Department,
            Agent::Person(_) => AgentType::Person,
        }
    }
}

impl NewAgent {
    pub open spec fn spec_type(&self) -> AgentType {
        match self {
            NewAgent::AccessGroup { .. } => AgentType::AccessGroup,
            NewAgent::Company { .. } => AgentType::Company,
            NewAgent::Department { .. } => AgentType::Department,
            NewAgent::Person { .. } => AgentType::Person,
        }
    }

    pub fn agent_type(&self) -> (r: AgentType)
        ensures
            r == self.spec_type(),
    {
        match self {
            NewAgent::AccessGroup { .. } => AgentType::AccessGroup,
            NewAgent::Company { .. } => AgentType::Company,
            NewAgent::Department { .. } => AgentType::Department,
            NewAgent::Person { .. } => AgentType::Person,
        }
    }
}

/// A key held by a person.
#[derive(Clone, Debug)]
pub struct Key {
    /// The wire key is `type`.
    pub key_type: String,
    pub provider: String,
    pub key: String,
}

/// Lists the agents of one subtype: `GET agent?type=<subtype>`.
impl Request for AgentType {
    open spec fn spec_endpoint(&self) -> Seq<char> {
        Category::Agent.spec_path()
    }

    open spec fn spec_method(&self) -> Method {
        Method::Get
    }

    open spec fn spec_query(&self) -> Option<Seq<(Seq<char>, Seq<char>)>> {
        Some(seq![("type"@, self.spec_str())])
    }

    open spec fn spec_form(&self) -> Option<Seq<(Seq<char>, Seq<char>)>> {
        None
    }

    open spec fn spec_basic_auth(&self) -> Option<(Seq<char>, Option<Seq<char>>)> {
        None
    }

    open spec fn spec_has_body(&self) -> bool {
        false
    }

    fn endpoint(&self) -> String {
        Category::Agent.path()
    }

    fn method(&self) -> Method {
        Method::Get
    }

    fn query(&self) -> Option<Vec<(String, String)>> {
        Some(single_pair("type", self.to_string()))
    }

    fn form(&self) -> Option<Vec<(String, String)>> {
        None
    }

    fn basic_auth(&self) -> Option<(String, Option<String>)> {
        None
    }

    fn has_body(&self) -> bool {
        false
    }
}

/// Creates an entry: `POST agent` with the entry as the body.
impl Request for NewAgent {
    open spec fn spec_endpoint(&self) -> Seq<char> {
        Category::Agent.spec_path()
    }

    open spec fn spec_method(&self) -> Method {
        Method::Post
    }

    open spec fn spec_query(&self) -> Option<Seq<(Seq<char>, Seq<char>)>> {
        None
    }

    open spec fn spec_form(&self) -> Option<Seq<(Seq<char>, Seq<char>)>> {
        None
    }

    open spec fn spec_basic_auth(&self) -> Option<(Seq<char>, Option<Seq<char>>)> {
        None
    }

    open spec fn spec_has_body(&self) -> bool {
        true
    }

    fn endpoint(&self) -> String {
        Category::Agent.path()
    }

    fn method(&self) -> Method {
        Method::Post
    }

    fn query(&self) -> Option<Vec<(String, String)>> {
        None
    }

    fn form(&self) -> Option<Vec<(String, String)>> {
        None
    }

    fn basic_auth(&self) -> Option<(String, Option<String>)> {
        None
    }

    fn has_body(&self) -> bool {
        true
    }
}

/// Replaces an entry: `PUT agent/<id>` with the whole entry as the body.
impl Request for Agent {
    open spec fn spec_endpoint(&self) -> Seq<char> {
        Category::Agent.spec_item_path(self.spec_id())
    }

    open spec fn spec_method(&self) -> Method {
        Method::Put
    }

    open spec fn spec_query(&self) -> Option<Seq<(Seq<char>, Seq<char>)>> {
        None
    }

    open spec fn spec_form(&self) -> Option<Seq<(Seq<char>, Seq<char>)>> {
        None
    }

    open spec fn spec_basic_auth(&self) -> Option<(Seq<char>, Option<Seq<char>>)> {
        None
    }

    open spec fn spec_has_body(&self) -> bool {
        true
    }

    fn endpoint(&self) -> String {
        Category::Agent.item_path(self.id())
    }

    fn method(&self) -> Method {
        Method::Put
    }

    fn query(&self) -> Option<Vec<(String, String)>> {
        None
    }

    fn form(&self) -> Option<Vec<(String, String)>> {
        None
    }

    fn basic_auth(&self) -> Option<(String, Option<String>)> {
        None
    }

    fn has_body(&self) -> bool {
        true
    }
}

} // verus!
