use vstd::prelude::*;

use crate::ids::Uuid;
use crate::models::agent::{Agent, AgentType, NewAgent};
use crate::models::asset::{Asset, AssetType, NewAsset};
use crate::models::auth::AuthReq;
use crate::models::collection::{Collection, CollectionType, NewCollection};
use crate::models::event::{Event, EventType, NewEvent};
use crate::models::information::{Information, InformationType, NewInformation};
use crate::models::space::{NewSpace, Space, SpaceType};
use crate::models::{ById, Category};
use crate::request::{build, described, Call, Execution, Request};

verus! {

/// The dispatcher: turns each operation of the API into the call that
/// performs it. Its only state is the two base URLs.
#[derive(Clone, Debug)]
pub struct Handler {
    api_url: String,
    auth_url: String,
}

impl Handler {
    /// The base URL of the data API.
    pub closed spec fn spec_api_url(&self) -> Seq<char> {
        self.api_url@
    }

    /// The base URL of the authentication service.
    pub closed spec fn spec_auth_url(&self) -> Seq<char> {
        self.auth_url@
    }

    pub fn new(api_url: String, auth_url: String) -> (r: Handler)
        ensures
            r.spec_api_url() == api_url@,
            r.spec_auth_url() == auth_url@,
    {
        Handler { api_url, auth_url }
    }

    /// The authentication call: against the authentication service, with the
    /// credentials as basic auth and no bearer token.
    pub fn auth(&self, payload: &AuthReq) -> (r: Call)
        ensures
            r@ == described(payload, self.spec_auth_url(), None, Execution::Required),
    {
        build(payload, self.auth_url.as_str())
    }

    /// A call against the data API with the caller's bearer token, whose
    /// response body is decoded into the expected shape.
    fn send<T: Request>(&self, payload: &T, token: &str) -> (r: Call)
        ensures
            r@ == described(payload, self.spec_api_url(), Some(token@), Execution::Required),
    {
        build(payload, self.api_url.as_str()).bearer_auth(token)
    }

    /// A call against the data API with the caller's bearer token, whose
    /// response may come back without a body.
    fn send_opt<T: Request>(&self, payload: &T, token: &str) -> (r: Call)
        ensures
            r@ == described(payload, self.spec_api_url(), Some(token@), Execution::Optional),
    {
        build(payload, self.api_url.as_str()).bearer_auth(token).optional()
    }

    /// Lists the agents of one subtype.
    pub fn agents(&self, token: &str, agent_type: AgentType) -> (r: Call)
        ensures
            r@ == described(&agent_type, self.spec_api_url(), Some(token@), Execution::Required),
    {
        self.send(&agent_type, token)
    }

    /// Creates an entry; the reply holds its new id.
    pub fn create_agent(&self, token: &str, payload: &NewAgent) -> (r: Call)
        ensures
            r@ == described(payload, self.spec_api_url(), Some(token@), Execution::Required),
    {
        self.send(payload, token)
    }

    /// Reads one entry by its id.
    pub fn agent(&self, token: &str, id: Uuid) -> (r: Call)
        ensures
            r@ == described(&ById::Get(Category::Agent, id), self.spec_api_url(), Some(token@), Execution::Required),
    {
        self.send(&ById::Get(Category::Agent, id), token)
    }

    /// Deletes an agent; the reply has no content.
    pub fn delete_agent(&self, token: &str, id: Uuid) -> (r: Call)
        ensures
            r@ == described(&ById::Delete(Category::Agent, id), self.spec_api_url(), Some(token@), Execution::Optional),
    {
        self.send_opt(&ById::Delete(Category::Agent, id), token)
    }

    /// Lists the keys held by a person.
    pub fn person_keys(&self, token: &str, id: Uuid) -> (r: Call)
        ensures
            r@ == described(&ById::PersonKeys(id), self.spec_api_url(), Some(token@), Execution::Required),
    {
        self.send(&ById::PersonKeys(id), token)
    }

    /// Replaces an entry as a whole; the reply has no content.
    pub fn replace_agent(&self, token: &str, payload: &Agent) -> (r: Call)
        ensures
            r@ == described(payload, self.spec_api_url(), Some(token@), Execution::Optional),
    {
        self.send_opt(payload, token)
    }

    /// Lists the assets of one subtype.
    pub fn assets(&self, token: &str, asset_type: AssetType) -> (r: Call)
        ensures
            r@ == described(&asset_type, self.spec_api_url(), Some(token@), Execution::Required),
    {
        self.send(&asset_type, token)
    }

    /// Creates an entry; the reply holds its new id.
    pub fn create_asset(&self, token: &str, payload: &NewAsset) -> (r: Call)
        ensures
            r@ == described(payload, self.spec_api_url(), Some(token@), Execution::Required),
    {
        self.send(payload, token)
    }

    /// Reads one entry by its id.
    pub fn asset(&self, token: &str, id: Uuid) -> (r: Call)
        ensures
            r@ == described(&ById::Get(Category::Asset, id), self.spec_api_url(), Some(token@), Execution::Required),
    {
        self.send(&ById::Get(Category::Asset, id), token)
    }

    /// Replaces an entry as a whole; the reply has no content.
    pub fn replace_asset(&self, token: &str, payload: &Asset) -> (r: Call)
        ensures
            r@ == described(payload, self.spec_api_url(), Some(token@), Execution::Optional),
    {
        self.send_opt(payload, token)
    }

    /// Lists the spaces of one subtype.
    pub fn spaces(&self, token: &str, space_type: SpaceType) -> (r: Call)
        ensures
            r@ == described(&space_type, self.spec_api_url(), Some(token@), Execution::Required),
    {
        self.send(&space_type, token)
    }

    /// Creates an entry; the reply holds its new id.
    pub fn create_space(&self, token: &str, payload: &NewSpace) -> (r: Call)
        ensures
            r@ == described(payload, self.spec_api_url(), Some(token@), Execution::Required),
    {
        self.send(payload, token)
    }

    /// Reads one entry by its id.
    pub fn space(&self, token: &str, id: Uuid) -> (r: Call)
        ensures
            r@ == described(&ById::Get(Category::Space, id), self.spec_api_url(), Some(token@), Execution::Required),
    {
        self.send(&ById::Get(Category::Space, id), token)
    }

    /// Replaces an entry as a whole; the reply has no content.
    pub fn replace_space(&self, token: &str, payload: &Space) -> (r: Call)
        ensures
            r@ == described(payload, self.spec_api_url(), Some(token@), Execution::Optional),
    {
        self.send_opt(payload, token)
    }

    /// Lists the events of one subtype.
    pub fn events(&self, token: &str, event_type: EventType) -> (r: Call)
        ensures
            r@ == described(&event_type, self.spec_api_url(), Some(token@), Execution::Required),
    {
        self.send(&event_type, token)
    }

    /// Creates an entry; the reply holds its new id.
    pub fn create_event(&self, token: &str, payload: &NewEvent) -> (r: Call)
        ensures
            r@ == described(payload, self.spec_api_url(), Some(token@), Execution::Required),
    {
        self.send(payload, token)
    }

    /// Reads one entry by its id.
    pub fn event(&self, token: &str, id: Uuid) -> (r: Call)
        ensures
            r@ == described(&ById::Get(Category::Event, id), self.spec_api_url(), Some(token@), Execution::Required),
    {
        self.send(&ById::Get(Category::Event, id), token)
    }

    /// Deletes an event; the reply has no content.
    pub fn delete_event(&self, token: &str, id: Uuid) -> (r: Call)
        ensures
            r@ == described(&ById::Delete(Category::Event, id), self.spec_api_url(), Some(token@), Execution::Optional),
    {
        self.send_opt(&ById::Delete(Category::Event, id), token)
    }

    /// Replaces an entry as a whole; the reply has no content.
    pub fn replace_event(&self, token: &str, payload: &Event) -> (r: Call)
        ensures
            r@ == described(payload, self.spec_api_url(), Some(token@), Execution::Optional),
    {
        self.send_opt(payload, token)
    }

    /// Lists the collections of one subtype.
    pub fn collections(&self, token: &str, collection_type: CollectionType) -> (r: Call)
        ensures
            r@ == described(&collection_type, self.spec_api_url(), Some(token@), Execution::Required),
    {
        self.send(&collection_type, token)
    }

    /// Creates an entry; the reply holds its new id.
    pub fn create_collection(&self, token: &str, payload: &NewCollection) -> (r: Call)
        ensures
            r@ == described(payload, self.spec_api_url(), Some(token@), Execution::Required),
    {
        self.send(payload, token)
    }

    /// Reads one entry by its id.
    pub fn collection(&self, token: &str, id: Uuid) -> (r: Call)
        ensures
            r@ == described(&ById::Get(Category::Collection, id), self.spec_api_url(), Some(token@), Execution::Required),
    {
        self.send(&ById::Get(Category::Collection, id), token)
    }

    /// Replaces an entry as a whole; the reply has no content.
    pub fn replace_collection(&self, token: &str, payload: &Collection) -> (r: Call)
        ensures
            r@ == described(payload, self.spec_api_url(), Some(token@), Execution::Optional),
    {
        self.send_opt(payload, token)
    }

    /// Lists the information entries of one subtype.
    pub fn all_information(&self, token: &str, information_type: InformationType) -> (r: Call)
        ensures
            r@ == described(&information_type, self.spec_api_url(), Some(token@), Execution::Required),
    {
        self.send(&information_type, token)
    }

    /// Creates an entry; the reply holds its new id.
    pub fn create_information(&self, token: &str, payload: &NewInformation) -> (r: Call)
        ensures
            r@ == described(payload, self.spec_api_url(), Some(token@), Execution::Required),
    {
        self.send(payload, token)
    }

    /// Reads one entry by its id.
    pub fn information(&self, token: &str, id: Uuid) -> (r: Call)
        ensures
            r@ == described(&ById::Get(Category::Information, id), self.spec_api_url(), Some(token@), Execution::Required),
    {
        self.send(&ById::Get(Category::Information, id), token)
    }

    /// Replaces an entry as a whole; the reply has no content.
    pub fn replace_information(&self, token: &str, payload: &Information) -> (r: Call)
        ensures
            r@ == described(payload, self.spec_api_url(), Some(token@), Execution::Optional),
    {
        self.send_opt(payload, token)
    }
}

} // verus!
