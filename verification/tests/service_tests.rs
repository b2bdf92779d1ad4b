use builder_pattern::authenticator::Authenticator;
use builder_pattern::entity::{BasicEntity, EntityData};
use builder_pattern::isp_subscriber::ISPSubscriber;
use builder_pattern::password::PasswordHasher;
use builder_pattern::phone_subscriber::PhoneSubscriber;
use builder_pattern::subscriber::{Subscriber, SubscriberDetails};
use builder_pattern::user_repository::UserRepository;

fn details(base_rate: i32) -> SubscriberDetails {
    SubscriberDetails {
        subscriber_id: "S1".to_string(),
        address: "1234 Elm St".to_string(),
        phone_number: "555-1234".to_string(),
        base_rate,
    }
}

#[test]
fn phone_bill_is_rate_times_minutes() {
    let s = PhoneSubscriber { details: details(2), usage: 120 };
    assert_eq!(s.calculate_bill(), 240);
}

#[test]
fn isp_bill_charges_usage_beyond_allowance() {
    let s = ISPSubscriber { details: details(3), data_usage: 50, free_usage: 10 };
    assert_eq!(s.calculate_bill(), 120);
}

#[test]
fn isp_bill_is_zero_within_allowance() {
    let s = ISPSubscriber { details: details(3), data_usage: 8, free_usage: 10 };
    assert_eq!(s.calculate_bill(), 0);
}

#[test]
fn basic_entity_carries_its_id() {
    let mut e = BasicEntity::default();
    assert_eq!(e.id(), 0);
    e.set_id(42);
    assert_eq!(e.id(), 42);
}

#[test]
fn get_user_returns_the_example_record() {
    let repo = UserRepository;
    let (name, hash) = repo.get_user("user1").unwrap();
    assert_eq!(name, "user1");
    assert_eq!(hash, "$2a$04$examplehash");
}

#[test]
fn hash_then_verify_round_trip() {
    let hasher = PasswordHasher;
    let hash = hasher.hash_password("password123").unwrap();
    assert_eq!(hash.len(), 60);
    assert_eq!(hasher.verify_password("password123", &hash).unwrap(), true);
    assert_eq!(hasher.verify_password("wrong", &hash).unwrap(), false);
}

#[test]
fn verify_rejects_a_malformed_hash() {
    let hasher = PasswordHasher;
    assert!(hasher.verify_password("password123", "$2a$04$examplehash").is_err());
}

#[test]
fn authenticate_fails_on_the_malformed_stored_hash() {
    let hasher = PasswordHasher;
    let repo = UserRepository;
    let auth = Authenticator::new(&hasher, &repo);
    // The repository's stored hash is not a parseable bcrypt hash, so
    // verification errs and the error is surfaced.
    assert_eq!(
        auth.authenticate("user1", "password123").unwrap_err(),
        "Failed to verify password"
    );
}
