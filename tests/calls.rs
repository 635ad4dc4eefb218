use srenity::models::agent::{AgentType, NewAgent};
use srenity::models::auth::AuthReq;
use srenity::models::event::EventType;
use srenity::models::information::InformationType;
use srenity::models::space::{Room, Space};
use srenity::request::{is_success, settle};
use srenity::{Execution, Handler, Method, Received, Uuid};

const ID: u128 = 0x550e8400_e29b_41d4_a716_446655440000;
const ID_TEXT: &str = "550e8400-e29b-41d4-a716-446655440000";

fn handler() -> Handler {
    Handler::new("https://api.example.com".to_string(), "https://auth.example.com".to_string())
}

fn pairs(v: &Option<Vec<(String, String)>>) -> Option<Vec<(&str, &str)>> {
    v.as_ref().map(|v| v.iter().map(|(a, b)| (a.as_str(), b.as_str())).collect())
}

#[test]
fn auth_call() {
    let req = AuthReq {
        username: "client".to_string(),
        password: "SECRET-REDACTED".to_string(),
    };
    let c = handler().auth(&req);
    assert_eq!(c.url, "https://auth.example.com/realms/Core/protocol/openid-connect/token");
    assert_eq!(c.method, Method::Post);
    assert_eq!(pairs(&c.form), Some(vec![("grant_type", "client_credentials")]));
    assert_eq!(pairs(&c.query), None);
    assert_eq!(
        c.basic_auth,
        Some(("client".to_string(), Some("SECRET-REDACTED".to_string())))
    );
    assert_eq!(c.bearer, None);
    assert!(!c.with_body);
    assert_eq!(c.execution, Execution::Required);
}

#[test]
fn list_persons_call() {
    let c = handler().agents("tok", AgentType::Person);
    assert_eq!(c.url, "https://api.example.com/agent");
    assert_eq!(c.method, Method::Get);
    assert_eq!(pairs(&c.query), Some(vec![("type", "person")]));
    assert_eq!(pairs(&c.form), None);
    assert_eq!(c.basic_auth, None);
    assert_eq!(c.bearer.as_deref(), Some("tok"));
    assert!(!c.with_body);
    assert_eq!(c.execution, Execution::Required);
}

#[test]
fn list_calls_of_other_categories() {
    let c = handler().events("tok", EventType::Lease);
    assert_eq!(c.url, "https://api.example.com/event");
    assert_eq!(pairs(&c.query), Some(vec![("type", "lease")]));
    let c = handler().all_information("tok", InformationType::PostalAddress);
    assert_eq!(c.url, "https://api.example.com/information");
    assert_eq!(pairs(&c.query), Some(vec![("type", "postal_address")]));
}

#[test]
fn create_agent_call() {
    let payload = NewAgent::Company {
        name: "Acme".to_string(),
        identifiers: None,
        member_of: None,
        logo: None,
        has_member: None,
    };
    let c = handler().create_agent("tok", &payload);
    assert_eq!(c.url, "https://api.example.com/agent");
    assert_eq!(c.method, Method::Post);
    assert!(c.with_body);
    assert_eq!(pairs(&c.query), None);
    assert_eq!(c.execution, Execution::Required);
    assert_eq!(payload.agent_type(), AgentType::Company);
}

#[test]
fn get_and_delete_by_id_calls() {
    let id = Uuid::from_u128(ID);
    let c = handler().agent("tok", id);
    assert_eq!(c.url, format!("https://api.example.com/agent/{ID_TEXT}"));
    assert_eq!(c.method, Method::Get);
    assert!(!c.with_body);
    assert_eq!(c.execution, Execution::Required);

    let c = handler().delete_agent("tok", id);
    assert_eq!(c.url, format!("https://api.example.com/agent/{ID_TEXT}"));
    assert_eq!(c.method, Method::Delete);
    assert!(!c.with_body);
    assert_eq!(c.execution, Execution::Optional);

    let c = handler().delete_event("tok", id);
    assert_eq!(c.url, format!("https://api.example.com/event/{ID_TEXT}"));
    assert_eq!(c.method, Method::Delete);

    let c = handler().collection("tok", id);
    assert_eq!(c.url, format!("https://api.example.com/collection/{ID_TEXT}"));
}

#[test]
fn person_keys_call() {
    let c = handler().person_keys("tok", Uuid::from_u128(ID));
    assert_eq!(c.url, format!("https://api.example.com/person/{ID_TEXT}/keys"));
    assert_eq!(c.method, Method::Get);
    assert_eq!(c.bearer.as_deref(), Some("tok"));
}

#[test]
fn replace_room_call() {
    let room = Space::Room(Room {
        id: Uuid::from_u128(ID),
        name: "Room 101".to_string(),
        identifiers: None,
        has_part: None,
        is_part_of: None,
        is_location_of: None,
        area: None,
        capacity: None,
        address: None,
        included_in: None,
        has_point: None,
        bookable: Some(true),
    });
    let c = handler().replace_space("tok", &room);
    assert_eq!(c.url, format!("https://api.example.com/space/{ID_TEXT}"));
    assert_eq!(c.method, Method::Put);
    assert!(c.with_body);
    assert_eq!(c.execution, Execution::Optional);
}

#[test]
fn success_statuses() {
    assert!(!is_success(199));
    assert!(is_success(200));
    assert!(is_success(204));
    assert!(is_success(299));
    assert!(!is_success(300));
    assert!(!is_success(404));
}

#[test]
fn settling_success_bodies() {
    assert!(matches!(settle(Execution::Required, Received::Decoded(5u32)), Ok(Some(5))));
    assert!(matches!(settle(Execution::Optional, Received::Decoded(5u32)), Ok(Some(5))));
    assert!(matches!(settle::<u32>(Execution::Optional, Received::Empty), Ok(None)));
    match settle::<u32>(Execution::Required, Received::Empty) {
        Err(srenity::Error::ClientDecodeError(r)) => assert_eq!(r, "Empty response body"),
        _ => panic!("expected a decode error"),
    }
    match settle::<u32>(Execution::Optional, Received::Undecodable("bad".to_string())) {
        Err(srenity::Error::ClientDecodeError(r)) => assert_eq!(r, "bad"),
        _ => panic!("expected a decode error"),
    }
}
