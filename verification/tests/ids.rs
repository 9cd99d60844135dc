use library_system::ids::{fresh_uuid, BookId, ReviewId, UserId};
use uuid::Uuid;

#[test]
fn user_id_roundtrips_through_string() {
    let id = UserId::new(Uuid::new_v4().as_u128());
    let parsed: UserId = id.to_string().parse().unwrap();
    assert_eq!(id, parsed);
}

#[test]
fn book_id_roundtrips_through_string() {
    let id = BookId::new(Uuid::new_v4().as_u128());
    let parsed: BookId = id.to_string().parse().unwrap();
    assert_eq!(id, parsed);
}

#[test]
fn review_id_roundtrips_through_string() {
    let id = ReviewId::new(Uuid::new_v4().as_u128());
    let parsed: ReviewId = id.to_string().parse().unwrap();
    assert_eq!(id, parsed);
}

#[test]
fn into_uuid_returns_inner_value() {
    let uuid = Uuid::new_v4();
    let id = UserId::new(uuid.as_u128());
    assert_eq!(id.into_uuid(), uuid.as_u128());
}

#[test]
fn from_str_rejects_invalid_uuid() {
    assert!("not-a-uuid".parse::<BookId>().is_err());
}

#[test]
fn id_text_is_hyphenated_lowercase() {
    let id = UserId::new(0x550e8400_e29b_41d4_a716_446655440000);
    assert_eq!(id.to_string(), "550e8400-e29b-41d4-a716-446655440000");
}

#[test]
fn parse_accepts_simple_braced_and_urn_forms() {
    let v = 0x550e8400_e29b_41d4_a716_446655440000u128;
    let simple: UserId = "550e8400e29b41d4a716446655440000".parse().unwrap();
    let braced: UserId = "{550e8400-e29b-41d4-a716-446655440000}".parse().unwrap();
    let urn: UserId = "urn:uuid:550e8400-e29b-41d4-a716-446655440000".parse().unwrap();
    assert_eq!(simple.into_uuid(), v);
    assert_eq!(braced.into_uuid(), v);
    assert_eq!(urn.into_uuid(), v);
}

#[test]
fn parse_rejects_bad_hex_digit() {
    assert!(ReviewId::parse_str("550e8400-e29b-41d4-a716-44665544000g").is_err());
}

#[test]
fn fresh_uuid_is_a_version_4_uuid() {
    let v = fresh_uuid();
    assert_ne!(v, 0);
    assert_eq!(Uuid::from_u128(v).get_version_num(), 4);
}
