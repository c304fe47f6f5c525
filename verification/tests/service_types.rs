//! The service layer's value types and pure operations.

use api::meta::HealthInfo;
use api::meta::Status;
use api::service::context::Context;
use api::service::context::ContextViewer;
use api::service::email::Email;
use api::service::input::InputError;
use api::service::input::InputString;
use api::service::meta::Meta;
use api::service::phone::Phone;
use api::service::shelter::ShelterSpace;
use api::service::shelter::can_edit_shelter;
use api::service::signal::Signal;
use api::service::signal::ShelterMeasure;
use api::service::signal::apply_measurement;
use api::service::signal::secret_matches;
use api::service::slug::Slug;
use api::service::user::CreateUserRequest;
use api::service::user::UpdateUserRequest;
use api::service::user::User;
use api::service::user::can_edit_user;
use api::service::user::can_view_user;
use api::service::verifiable::Verifiable;
use api::service::shelter::CreateShelterRequest;
use api::service::shelter::ShelterFood;
use api::service::address::Address;
use api::service::geo::Coordinate;
use api::uid::UuidValue;

fn test_user(id: UuidValue, is_admin: bool) -> User {
    User {
        id,
        created_at: 1,
        updated_at: 1,
        first_name: "Ada".to_string(),
        last_name: "Lovelace".to_string(),
        slug: Slug::new("ada lovelace"),
        about: None,
        image_url: None,
        email: None,
        phone: None,
        firebase_id: "fb-1".to_string(),
        is_admin,
    }
}

#[test]
fn verifiable_tracks_state_without_touching_the_value() {
    let v = Verifiable::new(5, true);
    assert!(v.is_verified());
    assert_eq!(*v.get(), 5);
    let mut u = Verifiable::new(7, false);
    assert!(!u.is_verified());
    *u.get_mut() = 8;
    assert!(!u.is_verified());
    assert_eq!(u.into_inner(), 8);
}

#[test]
fn input_string_trims_and_bounds() {
    let s = InputString::from_str("  hello  ").unwrap();
    assert_eq!(s.as_str(), "hello");
    assert!(!s.is_empty());
    let long = "x".repeat(1001);
    assert_eq!(InputString::from_str(&long), Err(InputError::TooLong));
    assert!(InputString::from_str(&"x".repeat(1000)).is_ok());
    let blank = InputString::from_str("   ").unwrap();
    assert!(blank.is_empty());
    assert!(blank.discard_empty().is_none());
    let kept = InputString::from_str(" a ").unwrap().discard_empty().unwrap();
    assert_eq!(kept.as_str(), "a");
}

#[test]
fn email_accepts_real_addresses_only() {
    let email = Email::from_str("ada@example.com").unwrap();
    assert_eq!(email.as_str(), "ada@example.com");
    assert_eq!(Email::from_str("not-an-email"), Err(InputError::BadFormat));
    assert_eq!(Email::try_from("still@not valid".to_string()), Err(InputError::BadFormat));
}

#[test]
fn phone_normalizes_full_numbers_only() {
    let phone = Phone::from_str("+1 519 555 0199").unwrap();
    assert!(phone.as_str().starts_with("+1"));
    assert_eq!(Phone::from_str("not a phone"), Err(InputError::BadFormat));
}

#[test]
fn slug_mints_name_dash_tail() {
    let slug = Slug::new("Ada Lovelace");
    let text = slug.as_str();
    assert!(text.starts_with("ada-lovelace-"));
    assert_eq!(text.len(), "ada-lovelace".len() + 17);
    let bare = Slug::new("");
    assert_eq!(bare.as_str().len(), 16);
}

#[test]
fn slug_accepts_its_own_shape_only() {
    assert!(Slug::from_str("ada-lovelace-abc123").is_ok());
    assert!(Slug::from_str("a").is_ok());
    assert_eq!(Slug::from_str(""), Err(InputError::BadFormat));
    assert_eq!(Slug::from_str("-leading"), Err(InputError::BadFormat));
    assert_eq!(Slug::from_str("has space"), Err(InputError::BadFormat));
    assert_eq!(Slug::from_str("under_score"), Err(InputError::BadFormat));
}

#[test]
fn context_authority_follows_the_viewer() {
    let nobody = Context { viewer: None };
    assert!(nobody.is_internal());
    let anon = Context { viewer: Some(ContextViewer::Anonymous) };
    assert!(anon.is_internal());
    let user = test_user(UuidValue { hi: 1, lo: 1 }, false);
    let signed_in = Context { viewer: Some(ContextViewer::User(user.clone())) };
    assert!(!signed_in.is_internal());
    assert_eq!(signed_in.viewing_user().unwrap().firebase_id, "fb-1");
    let admin = Context { viewer: Some(ContextViewer::User(test_user(UuidValue { hi: 2, lo: 2 }, true))) };
    assert!(admin.is_internal());
    assert!(signed_in.internal().is_internal());
}

#[test]
fn users_may_edit_only_themselves() {
    let me = UuidValue { hi: 1, lo: 1 };
    let other = UuidValue { hi: 2, lo: 2 };
    let context = Context { viewer: Some(ContextViewer::User(test_user(me, false))) };
    assert!(can_edit_user(&context, me));
    assert!(!can_edit_user(&context, other));
    assert!(can_view_user(&context, me));
    assert!(!can_view_user(&context, other));
    assert!(!can_edit_shelter(&context, other));
    let admin = Context { viewer: Some(ContextViewer::User(test_user(other, true))) };
    assert!(can_edit_user(&admin, me));
    assert!(can_edit_shelter(&admin, me));
}

#[test]
fn create_user_builds_the_described_account() {
    let request = CreateUserRequest {
        first_name: InputString::from_str("Ada").unwrap(),
        last_name: InputString::from_str("Lovelace").unwrap(),
        about: Some(InputString::from_str("mathematician").unwrap()),
        image_url: None,
        email: None,
        phone: None,
        firebase_id: "fb-9".to_string(),
        is_admin: false,
    };
    let meta = Meta::new();
    let user = request.build_user(meta);
    assert_eq!(user.id, meta.id);
    assert_eq!(user.first_name, "Ada");
    assert_eq!(user.last_name, "Lovelace");
    assert_eq!(user.about.as_deref(), Some("mathematician"));
    assert_eq!(user.firebase_id, "fb-9");
    assert_eq!(user.name(), "Ada Lovelace");
    assert!(user.slug.as_str().starts_with("ada-lovelace-"));
}

#[test]
fn update_user_merges_present_fields_and_clears_empty_about() {
    let user = test_user(UuidValue { hi: 3, lo: 3 }, false);
    let update = UpdateUserRequest {
        user_id: user.id,
        first_name: Some(InputString::from_str("Augusta").unwrap()),
        last_name: None,
        about: Some(InputString::from_str("   ").unwrap()),
        image_url: Some("https://example.com/ada.png".to_string()),
        email: None,
        phone: None,
    };
    let updated = update.apply(user.clone());
    assert_eq!(updated.first_name, "Augusta");
    assert_eq!(updated.last_name, "Lovelace");
    assert_eq!(updated.about, None);
    assert_eq!(updated.image_url.as_deref(), Some("https://example.com/ada.png"));
    assert_eq!(updated.firebase_id, user.firebase_id);
}

fn test_shelter() -> api::service::shelter::Shelter {
    let request = CreateShelterRequest {
        name: InputString::from_str("Haven").unwrap(),
        about: None,
        image_url: None,
        email: None,
        phone: Phone::from_str("+1 519 555 0199").unwrap(),
        website_url: None,
        address: Address {
            line1: "51 Charles St W".to_string(),
            line2: None,
            city: "Waterloo".to_string(),
            region: "Ontario".to_string(),
            country: "Canada".to_string(),
            postcode: "N2G 1H6".to_string(),
        },
        location: Coordinate { x: -80_516_000, y: 43_463_000 },
        capacity: ShelterSpace { spots: 40, beds: 20 },
        food: ShelterFood::Meals,
        tags: vec![],
    };
    request.build_shelter(Meta::new())
}

#[test]
fn create_shelter_starts_unoccupied() {
    let shelter = test_shelter();
    assert_eq!(shelter.name, "Haven");
    assert_eq!(shelter.occupancy, None);
    assert_eq!(shelter.capacity, ShelterSpace { spots: 40, beds: 20 });
    assert_eq!(shelter.slug.as_str().len(), 16);
}

#[test]
fn measurement_updates_only_the_measured_count() {
    let mut shelter = test_shelter();
    let signal = Signal {
        id: UuidValue { hi: 5, lo: 5 },
        created_at: 1,
        updated_at: 1,
        slug: Slug::new("door sensor"),
        name: "door sensor".to_string(),
        shelter_id: shelter.id,
        measure: ShelterMeasure::Beds,
        secret: "s3cret".to_string(),
    };
    let meta = Meta::new();
    let measurement = apply_measurement(&mut shelter, &signal, 12, meta);
    assert_eq!(shelter.occupancy, Some(ShelterSpace { spots: 0, beds: 12 }));
    assert_eq!(measurement.capacity, ShelterSpace { spots: 40, beds: 20 });
    assert_eq!(measurement.occupancy, ShelterSpace { spots: 0, beds: 12 });
    assert_eq!(measurement.shelter_id, shelter.id);
    assert_eq!(measurement.signal_id, signal.id);
    // A second report through a spots signal keeps the measured beds.
    let spots_signal = Signal { measure: ShelterMeasure::Spots, ..signal.clone() };
    let _ = apply_measurement(&mut shelter, &spots_signal, 33, Meta::new());
    assert_eq!(shelter.occupancy, Some(ShelterSpace { spots: 33, beds: 12 }));
}

#[test]
fn signal_secret_must_match_exactly() {
    let signal = Signal {
        id: UuidValue { hi: 5, lo: 5 },
        created_at: 1,
        updated_at: 1,
        slug: Slug::new("door sensor"),
        name: "door sensor".to_string(),
        shelter_id: UuidValue { hi: 6, lo: 6 },
        measure: ShelterMeasure::Spots,
        secret: "s3cret".to_string(),
    };
    assert!(secret_matches(&signal, &"s3cret".to_string()));
    assert!(!secret_matches(&signal, &"S3cret".to_string()));
}

#[test]
fn health_report_carries_its_status() {
    let health = HealthInfo::new(Status::Pass);
    assert_eq!(health.status(), Status::Pass);
    assert_eq!(HealthInfo::new(Status::Fail).status(), Status::Fail);
}
