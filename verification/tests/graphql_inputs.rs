//! The wire-side input objects and their validation into service requests.

use api::graphql::InputFault;
use api::graphql::address::AddressInput;
use api::graphql::geo::Coordinate;
use api::graphql::id::Id;
use api::graphql::mutation::Mutation;
use api::graphql::query::Query;
use api::graphql::shelter::CreateShelterInput;
use api::graphql::shelter::DeleteShelterInput;
use api::graphql::shelter::ShelterFood;
use api::graphql::shelter::ShelterSpaceInput;
use api::graphql::shelter::ShelterTag;
use api::graphql::shelter::UpdateShelterInput;
use api::graphql::signal::CreateSignalInput;
use api::graphql::signal::CreateSignalMeasurementInput;
use api::graphql::signal::DeleteSignalInput;
use api::graphql::signal::ShelterMeasure;
use api::graphql::user::UpdateUserInput;
use api::service::shelter::ShelterFood as ShelterFoodRepr;
use api::service::shelter::ShelterTag as ShelterTagRepr;
use api::service::signal::ShelterMeasure as ShelterMeasureRepr;
use api::uid::UuidValue;

fn address_input() -> AddressInput {
    AddressInput {
        line1: "51 Charles St W".to_string(),
        line2: Some("Suite #199".to_string()),
        city: "Waterloo".to_string(),
        region: "Ontario".to_string(),
        country: "Canada".to_string(),
        postcode: "N2G 1H6".to_string(),
    }
}

fn create_shelter_input() -> CreateShelterInput {
    CreateShelterInput {
        name: "  Haven  ".to_string(),
        about: Some("warm and open".to_string()),
        image_url: Some("https://example.com/haven.png".to_string()),
        email: Some("haven@example.com".to_string()),
        phone: "+1 519 555 0199".to_string(),
        website_url: None,
        address: address_input(),
        location: Coordinate(api::service::geo::Coordinate { x: -80_516_000, y: 43_463_000 }),
        capacity: ShelterSpaceInput { spots: 40, beds: 20 },
        food: ShelterFood::Snacks,
        tags: vec![ShelterTag::Adult, ShelterTag::Pets],
    }
}

#[test]
fn create_shelter_input_validates_and_converts() {
    let request = create_shelter_input().into_request().unwrap();
    assert_eq!(request.name.as_str(), "Haven");
    assert_eq!(request.about.as_ref().unwrap().as_str(), "warm and open");
    assert_eq!(request.image_url.as_deref(), Some("https://example.com/haven.png"));
    assert_eq!(request.email.as_ref().unwrap().as_str(), "haven@example.com");
    assert!(request.phone.as_str().starts_with("+1"));
    assert_eq!(request.website_url, None);
    assert_eq!(request.address.line2.as_deref(), Some("Suite #199"));
    assert_eq!(request.food, ShelterFoodRepr::Snacks);
    assert_eq!(request.tags, vec![ShelterTagRepr::Adult, ShelterTagRepr::Pets]);
}

#[test]
fn create_shelter_input_reports_the_failing_field() {
    let mut input = create_shelter_input();
    input.email = Some("not-an-email".to_string());
    assert_eq!(input.into_request().unwrap_err(), InputFault::InvalidEmail);
    let mut input = create_shelter_input();
    input.phone = "what".to_string();
    assert_eq!(input.into_request().unwrap_err(), InputFault::InvalidPhone);
    let mut input = create_shelter_input();
    input.image_url = Some("not a url".to_string());
    assert_eq!(input.into_request().unwrap_err(), InputFault::InvalidImageUrl);
    let mut input = create_shelter_input();
    input.name = "x".repeat(1001);
    assert_eq!(input.into_request().unwrap_err(), InputFault::InvalidName);
}

#[test]
fn update_shelter_input_requires_a_shelter_id() {
    let uuid = UuidValue { hi: 4, lo: 2 };
    let input = UpdateShelterInput {
        shelter_id: Id::new("Shelter", uuid),
        name: Some("New Haven".to_string()),
        about: None,
        image_url: None,
        email: None,
        phone: None,
        website_url: None,
        address: None,
        location: None,
        capacity: None,
        food: Some(ShelterFood::NoFood),
        tags: None,
    };
    let request = input.into_request().unwrap();
    assert_eq!(request.shelter_id, uuid);
    assert_eq!(request.name.unwrap().as_str(), "New Haven");
    assert_eq!(request.food, Some(ShelterFoodRepr::NoFood));
    assert_eq!(request.tags, None);

    let wrong = UpdateShelterInput {
        shelter_id: Id::new("Signal", uuid),
        name: None,
        about: None,
        image_url: None,
        email: None,
        phone: None,
        website_url: None,
        address: None,
        location: None,
        capacity: None,
        food: None,
        tags: None,
    };
    assert_eq!(wrong.into_request().unwrap_err(), InputFault::InvalidId);
}

#[test]
fn delete_shelter_input_checks_the_id_type() {
    let uuid = UuidValue { hi: 1, lo: 2 };
    let ok = DeleteShelterInput { shelter_id: Id::new("Shelter", uuid) };
    assert_eq!(ok.into_request().unwrap().shelter_id, uuid);
    let wrong = DeleteShelterInput { shelter_id: Id::new("User", uuid) };
    assert_eq!(wrong.into_request().unwrap_err(), InputFault::InvalidId);
}

#[test]
fn signal_inputs_validate_and_convert() {
    let shelter = UuidValue { hi: 8, lo: 8 };
    let input = CreateSignalInput {
        name: " door sensor ".to_string(),
        shelter_id: Id::new("Shelter", shelter),
        measure: ShelterMeasure::Beds,
    };
    let request = input.into_request().unwrap();
    assert_eq!(request.name.as_str(), "door sensor");
    assert_eq!(request.shelter_id, shelter);
    assert_eq!(request.measure, ShelterMeasureRepr::Beds);

    let signal = UuidValue { hi: 9, lo: 9 };
    let report = CreateSignalMeasurementInput {
        signal_id: Id::new("Signal", signal),
        signal_secret: "s3cret".to_string(),
        measurement: 17,
    };
    let request = report.into_request().unwrap();
    assert_eq!(request.signal_id, signal);
    assert_eq!(request.signal_secret, "s3cret");
    assert_eq!(request.measurement, 17);

    let wrong = CreateSignalMeasurementInput {
        signal_id: Id::new("Shelter", signal),
        signal_secret: "s3cret".to_string(),
        measurement: 17,
    };
    assert_eq!(wrong.into_request().unwrap_err(), InputFault::InvalidId);

    let delete = DeleteSignalInput { signal_id: Id::new("Signal", signal) };
    assert_eq!(delete.into_request().unwrap().signal_id, signal);
}

#[test]
fn update_user_input_validates_and_converts() {
    let me = UuidValue { hi: 3, lo: 1 };
    let input = UpdateUserInput {
        first_name: Some(" Augusta ".to_string()),
        last_name: None,
        about: None,
        image_url: Some("https://example.com/ada.png".to_string()),
    };
    let request = input.into_request(me).unwrap();
    assert_eq!(request.user_id, me);
    assert_eq!(request.first_name.unwrap().as_str(), "Augusta");
    assert_eq!(request.last_name, None);
    assert_eq!(request.image_url.as_deref(), Some("https://example.com/ada.png"));

    let bad = UpdateUserInput {
        first_name: None,
        last_name: Some("x".repeat(1001)),
        about: None,
        image_url: None,
    };
    assert_eq!(bad.into_request(me).unwrap_err(), InputFault::InvalidLastName);
}

#[test]
fn root_objects_assemble() {
    let _query = Query::new();
    let _mutation = Mutation::new();
    let _default_query = Query::default();
    let _default_mutation = Mutation::default();
}
