use library_system::authz::AuthzError;
use library_system::book::{self, BookResponse};
use library_system::clock::Timestamp;
use library_system::flow::{
    after_book_deleted, after_book_stored, after_owner_released, after_owner_written,
    after_reader_check, after_review_deleted, after_review_stored, Failure,
};
use library_system::ids::{BookId, ReviewId, UserId};
use library_system::review::{self, ReviewResponse};

const ALICE: u128 = 0x11111111_2222_4333_8444_555555555555;
const ITEM: u128 = 0xaaaaaaaa_bbbb_4ccc_8ddd_eeeeeeeeeeee;

fn book_response() -> BookResponse {
    BookResponse {
        id: ITEM,
        isbn: "0306406152".to_string(),
        title: "Dune".to_string(),
        author: "Frank Herbert".to_string(),
        created_at: Timestamp { secs: 1, nanos: 0 },
    }
}

fn review_response() -> ReviewResponse {
    ReviewResponse {
        id: ITEM,
        book_id: 9,
        user_id: ALICE,
        rating: 5,
        body: "great".to_string(),
        created_at: Timestamp { secs: 1, nanos: 0 },
    }
}

#[test]
fn review_is_stored_only_after_an_allowed_check() {
    assert_eq!(after_reader_check::<review::Error>(Ok(true)), Ok(()));
    assert_eq!(
        after_reader_check::<review::Error>(Ok(false)),
        Err(Failure::Authz(AuthzError::Forbidden))
    );
    let down = AuthzError::Infrastructure("503: down".to_string());
    assert_eq!(after_reader_check::<review::Error>(Err(down.clone())), Err(Failure::Authz(down)));
}

#[test]
fn stored_book_leads_to_its_owner_tuple() {
    let (t, item) = after_book_stored(UserId::new(ALICE), Ok(book_response())).unwrap();
    assert_eq!(item, book_response());
    assert_eq!(t.user, "user:11111111-2222-4333-8444-555555555555");
    assert_eq!(t.relation, "owner");
    assert_eq!(t.object, "book:aaaaaaaa-bbbb-4ccc-8ddd-eeeeeeeeeeee");
    assert_eq!(
        after_book_stored(UserId::new(ALICE), Err(book::Error::Conflict)),
        Err(Failure::Service(book::Error::Conflict))
    );
}

#[test]
fn stored_review_leads_to_its_owner_tuple() {
    let (t, item) = after_review_stored(UserId::new(ALICE), Ok(review_response())).unwrap();
    assert_eq!(item, review_response());
    assert_eq!(t.relation, "owner");
    assert_eq!(t.object, "review:aaaaaaaa-bbbb-4ccc-8ddd-eeeeeeeeeeee");
    let invalid = review::Error::Validation("rating must be between 1 and 5".to_string());
    assert_eq!(
        after_review_stored(UserId::new(ALICE), Err(invalid.clone())),
        Err(Failure::Service(invalid))
    );
}

#[test]
fn created_item_is_answered_once_its_owner_is_written() {
    assert_eq!(after_owner_written::<_, book::Error>(7u8, Ok(())), Ok(7u8));
    assert_eq!(
        after_owner_written::<_, book::Error>(7u8, Err(AuthzError::Forbidden)),
        Err(Failure::Authz(AuthzError::Forbidden))
    );
}

#[test]
fn deletion_releases_the_owner_tuple_best_effort() {
    let t = after_book_deleted(UserId::new(ALICE), BookId::new(ITEM), Ok(())).unwrap();
    assert_eq!(t.object, "book:aaaaaaaa-bbbb-4ccc-8ddd-eeeeeeeeeeee");
    assert_eq!(t.relation, "owner");
    assert_eq!(
        after_book_deleted(UserId::new(ALICE), BookId::new(ITEM), Err(book::Error::NotFound)),
        Err(Failure::Service(book::Error::NotFound))
    );
    let t = after_review_deleted(UserId::new(ALICE), ReviewId::new(ITEM), Ok(())).unwrap();
    assert_eq!(t.object, "review:aaaaaaaa-bbbb-4ccc-8ddd-eeeeeeeeeeee");
    assert_eq!(
        after_review_deleted(UserId::new(ALICE), ReviewId::new(ITEM), Err(review::Error::NotFound)),
        Err(Failure::Service(review::Error::NotFound))
    );
    assert_eq!(after_owner_released::<book::Error>(Ok(())), Ok(()));
    assert_eq!(
        after_owner_released::<book::Error>(Err(AuthzError::Infrastructure("x".to_string()))),
        Ok(())
    );
}
