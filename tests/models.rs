use srenity::models::agent::{Agent, AgentType, Person};
use srenity::models::asset::{Asset, AssetType, Door};
use srenity::models::collection::{Collection, CollectionType, RealEstate};
use srenity::models::event::{Booking, Event, EventType};
use srenity::models::information::{Information, InformationType, PostalAddress};
use srenity::models::space::{Room, Space, SpaceType};
use srenity::models::{Category, Id, Relation, Timestamp};
use srenity::{Error, Uuid};

const ID: u128 = 0x550e8400_e29b_41d4_a716_446655440000;

fn person(id: u128, name: &str) -> Agent {
    Agent::Person(Person {
        id: Uuid::from_u128(id),
        name: name.to_string(),
        identifiers: None,
        member_of: None,
        family_name: None,
        given_name: Some("Ada".to_string()),
        gender: None,
        image: None,
    })
}

fn room(id: u128, name: &str) -> Space {
    Space::Room(Room {
        id: Uuid::from_u128(id),
        name: name.to_string(),
        identifiers: None,
        has_part: None,
        is_part_of: None,
        is_location_of: None,
        area: None,
        capacity: None,
        address: None,
        included_in: None,
        has_point: None,
        bookable: Some(true),
    })
}

#[test]
fn agent_type_strings() {
    assert_eq!(AgentType::AccessGroup.to_string(), "access_group");
    assert_eq!(AgentType::Company.to_string(), "company");
    assert_eq!(AgentType::Department.to_string(), "department");
    assert_eq!(AgentType::Person.to_string(), "person");
}

#[test]
fn asset_type_strings() {
    assert_eq!(AssetType::Door.to_string(), "door");
    assert_eq!(AssetType::Meter.to_string(), "meter");
    assert_eq!(AssetType::ElectricalMeter.to_string(), "electrical_meter");
    assert_eq!(AssetType::GasMeter.to_string(), "gas_meter");
    assert_eq!(AssetType::HotWaterMeter.to_string(), "hot_water_meter");
    assert_eq!(AssetType::ChilledWaterMeter.to_string(), "chilled_water_meter");
}

#[test]
fn space_type_strings() {
    assert_eq!(SpaceType::AccessControlZone.to_string(), "access_control_zone");
    assert_eq!(SpaceType::Building.to_string(), "building");
    assert_eq!(SpaceType::Level.to_string(), "level");
    assert_eq!(SpaceType::Room.to_string(), "room");
    assert_eq!(SpaceType::Entrance.to_string(), "entrance");
}

#[test]
fn other_type_strings() {
    assert_eq!(EventType::Lease.to_string(), "lease");
    assert_eq!(EventType::Booking.to_string(), "booking");
    assert_eq!(CollectionType::Apartment.to_string(), "apartment");
    assert_eq!(CollectionType::Premises.to_string(), "premises");
    assert_eq!(CollectionType::RealEstate.to_string(), "real_estate");
    assert_eq!(InformationType::ArchitectureArea.to_string(), "architecture_area");
    assert_eq!(InformationType::ArchitectureCapacity.to_string(), "architecture_capacity");
    assert_eq!(InformationType::PostalAddress.to_string(), "postal_address");
}

#[test]
fn category_paths() {
    assert_eq!(Category::Agent.path(), "agent");
    assert_eq!(Category::Asset.path(), "asset");
    assert_eq!(Category::Space.path(), "space");
    assert_eq!(Category::Event.path(), "event");
    assert_eq!(Category::Collection.path(), "collection");
    assert_eq!(Category::Information.path(), "information");
    assert_eq!(
        Category::Agent.item_path(Uuid::from_u128(ID)),
        "agent/550e8400-e29b-41d4-a716-446655440000"
    );
}

#[test]
fn uuid_text_is_hyphenated_lower_case() {
    assert_eq!(Uuid::from_u128(ID).to_string(), "550e8400-e29b-41d4-a716-446655440000");
    assert_eq!(Uuid::from_u128(0).to_string(), "00000000-0000-0000-0000-000000000000");
    assert_eq!(Uuid::from_u128(u128::MAX).to_string(), "ffffffff-ffff-ffff-ffff-ffffffffffff");
}

#[test]
fn uuid_parse_reads_text_forms() {
    assert_eq!(Uuid::parse("550e8400-e29b-41d4-a716-446655440000"), Some(Uuid::from_u128(ID)));
    assert_eq!(Uuid::parse("550E8400E29B41D4A716446655440000"), Some(Uuid::from_u128(ID)));
    assert_eq!(Uuid::parse("not a uuid"), None);
    assert_eq!(Uuid::parse(""), None);
    assert_eq!(Uuid::from_u128(ID).as_u128(), ID);
}

#[test]
fn relation_from_person() {
    let r = Relation::from_agent(person(ID, "Ada Lovelace"));
    assert_eq!(r.id, Uuid::from_u128(ID));
    assert_eq!(r.rtype.as_deref(), Some("person"));
    assert_eq!(r.name.as_deref(), Some("Ada Lovelace"));
}

#[test]
fn relation_from_room() {
    let r = Relation::from_space(room(7, "Room 101"));
    assert_eq!(r.id, Uuid::from_u128(7));
    assert_eq!(r.rtype.as_deref(), Some(SpaceType::Room.to_string().as_str()));
    assert_eq!(r.name.as_deref(), Some("Room 101"));
}

#[test]
fn relation_from_other_categories() {
    let door = Asset::Door(Door {
        id: Uuid::from_u128(1),
        name: "Front door".to_string(),
        identifiers: None,
        initial_cost: None,
        installation_date: None,
        ip_address: None,
        mac_address: None,
        maintenance_interval: Some(30),
        model_number: None,
        serial_number: None,
        turnover_date: None,
        weight: None,
        located_in: None,
    });
    let r = Relation::from_asset(door);
    assert_eq!((r.id, r.rtype.as_deref(), r.name.as_deref()), (Uuid::from_u128(1), Some("door"), Some("Front door")));

    let booking = Event::Booking(Booking {
        id: Uuid::from_u128(2),
        name: "Standup".to_string(),
        start: Timestamp { secs: 1_700_000_000, nanos: 0 },
        end: Timestamp { secs: 1_700_000_900, nanos: 0 },
        identifiers: None,
        booked_by: None,
        lease: None,
        room: Some(Relation::from(Uuid::from_u128(7))),
    });
    let r = Relation::from_event(booking);
    assert_eq!((r.id, r.rtype.as_deref(), r.name.as_deref()), (Uuid::from_u128(2), Some("booking"), Some("Standup")));

    let estate = Collection::RealEstate(RealEstate {
        id: Uuid::from_u128(3),
        name: "Campus".to_string(),
        identifiers: None,
        includes: None,
    });
    let r = Relation::from_collection(estate);
    assert_eq!((r.id, r.rtype.as_deref(), r.name.as_deref()), (Uuid::from_u128(3), Some("real_estate"), Some("Campus")));

    let address = Information::PostalAddress(PostalAddress {
        id: Uuid::from_u128(4),
        name: "HQ".to_string(),
        identifiers: None,
        address_line1: Some("1 Main St".to_string()),
        address_line2: None,
        city: None,
        country: None,
        postal_code: None,
        region: None,
    });
    let r = Relation::from_information(address);
    assert_eq!((r.id, r.rtype.as_deref(), r.name.as_deref()), (Uuid::from_u128(4), Some("postal_address"), Some("HQ")));
}

#[test]
fn entity_accessors_agree_with_subtype() {
    let a = person(ID, "Ada");
    assert_eq!(a.id(), Uuid::from_u128(ID));
    assert_eq!(a.agent_type(), AgentType::Person);
    let s = room(9, "R");
    assert_eq!(s.space_type(), SpaceType::Room);
}

#[test]
fn relation_from_bare_id() {
    let r = Relation::from(Uuid::from_u128(ID));
    assert_eq!(r.id, Uuid::from_u128(ID));
    assert!(r.rtype.is_none());
    assert!(r.name.is_none());
    assert_eq!(Id::from(Uuid::from_u128(5)), Id { id: Uuid::from_u128(5) });
}

#[test]
fn relation_from_id_text() {
    let r = Relation::try_from("550e8400-e29b-41d4-a716-446655440000".to_string()).unwrap();
    assert_eq!(r.id, Uuid::from_u128(ID));
    assert!(r.rtype.is_none() && r.name.is_none());
    match Relation::try_from("nope".to_string()) {
        Err(Error::Unknown(reason)) => assert_eq!(reason, "Failed to parse UUID"),
        _ => panic!("expected an Unknown error"),
    }
}
