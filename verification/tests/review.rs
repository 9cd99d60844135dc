use library_system::clock::Timestamp;
use library_system::ids::{BookId, ReviewId, UserId};
use library_system::review::{
    create_review_outcome, deletion_outcome, get_review_outcome, list_reviews_outcome,
    map_db_error, reviews_from_rows, CreateReviewRequest, Error, Rating, RatingError, Review,
    ReviewResponse, ReviewRow,
};
use library_system::store::DbError;
use uuid::Uuid;

fn now() -> Timestamp {
    let now = chrono::Utc::now();
    Timestamp { secs: now.timestamp(), nanos: now.timestamp_subsec_nanos() }
}

fn sample() -> Review {
    Review {
        id: ReviewId::new(1),
        book_id: BookId::new(2),
        user_id: UserId::new(3),
        rating: Rating::new(5).unwrap(),
        body: "great".to_string(),
        created_at: Timestamp { secs: 10, nanos: 20 },
    }
}

#[test]
fn rating_rejects_zero() {
    assert_eq!(Rating::new(0), Err(RatingError::OutOfRange(0)));
}

#[test]
fn rating_rejects_six() {
    assert_eq!(Rating::new(6), Err(RatingError::OutOfRange(6)));
}

#[test]
fn rating_accepts_one_through_five() {
    for v in 1..=5 {
        assert!(Rating::new(v).is_ok());
    }
}

#[test]
fn rating_keeps_its_value() {
    for v in 1..=5 {
        assert_eq!(Rating::new(v).unwrap().value(), v);
    }
    assert_eq!(Rating::new(i16::MIN), Err(RatingError::OutOfRange(i16::MIN)));
}

#[test]
fn rating_error_message_shows_the_value() {
    assert_eq!(
        RatingError::OutOfRange(0).to_string(),
        "rating must be between 1 and 5 inclusive (got 0)"
    );
    assert_eq!(
        RatingError::OutOfRange(-32768).to_string(),
        "rating must be between 1 and 5 inclusive (got -32768)"
    );
    assert_eq!(
        RatingError::OutOfRange(120).to_string(),
        "rating must be between 1 and 5 inclusive (got 120)"
    );
}

#[test]
fn error_messages_and_statuses() {
    assert_eq!(Error::NotFound.to_string(), "review not found");
    assert_eq!(Error::Validation("v".to_string()).to_string(), "validation error: v");
    assert_eq!(Error::Conflict.to_string(), "conflict");
    assert_eq!(Error::Infrastructure("i".to_string()).to_string(), "infrastructure error: i");
    assert_eq!(Error::NotFound.status_code(), 404);
    assert_eq!(Error::Validation(String::new()).status_code(), 400);
    assert_eq!(Error::Conflict.status_code(), 409);
    assert_eq!(Error::Infrastructure(String::new()).status_code(), 500);
}

#[test]
fn create_review_request_rejects_rating_zero() {
    let req = CreateReviewRequest {
        book_id: Uuid::new_v4().as_u128(),
        user_id: Uuid::new_v4().as_u128(),
        rating: 0,
        body: "good".to_string(),
    };
    assert!(matches!(Review::try_from(req), Err(Error::Validation(_))));
}

#[test]
fn create_review_request_rejects_rating_six() {
    let req = CreateReviewRequest {
        book_id: Uuid::new_v4().as_u128(),
        user_id: Uuid::new_v4().as_u128(),
        rating: 6,
        body: "good".to_string(),
    };
    assert!(matches!(Review::try_from(req), Err(Error::Validation(_))));
}

#[test]
fn create_review_request_rejects_empty_body() {
    let req = CreateReviewRequest {
        book_id: Uuid::new_v4().as_u128(),
        user_id: Uuid::new_v4().as_u128(),
        rating: 3,
        body: "".to_string(),
    };
    assert!(matches!(Review::try_from(req), Err(Error::Validation(_))));
}

#[test]
fn create_review_request_assigns_fresh_uuid() {
    let req = CreateReviewRequest {
        book_id: Uuid::new_v4().as_u128(),
        user_id: Uuid::new_v4().as_u128(),
        rating: 4,
        body: "decent".to_string(),
    };
    let review = Review::try_from(req).unwrap();
    assert_ne!(review.id.into_uuid(), Uuid::nil().as_u128());
}

#[test]
fn fresh_review_id_is_version_four() {
    let req = CreateReviewRequest { book_id: 1, user_id: 2, rating: 3, body: "fine".to_string() };
    let review = Review::try_from(req).unwrap();
    assert_eq!(Uuid::from_u128(review.id.into_uuid()).get_version_num(), 4);
    assert_eq!(review.id.into_uuid() & 0xC000_0000_0000_0000, 0x8000_0000_0000_0000);
    assert!(review.created_at.nanos < 1_000_000_000);
}

#[test]
fn create_review_request_messages() {
    let blank = CreateReviewRequest { book_id: 1, user_id: 2, rating: 9, body: " \n".to_string() };
    assert_eq!(
        Review::try_from(blank),
        Err(Error::Validation("body cannot be empty".to_string()))
    );
    let bad = CreateReviewRequest { book_id: 1, user_id: 2, rating: 9, body: "ok".to_string() };
    assert_eq!(
        Review::try_from(bad),
        Err(Error::Validation("rating must be between 1 and 5 inclusive (got 9)".to_string()))
    );
}

#[test]
fn from_request_keeps_the_request() {
    let req = CreateReviewRequest { book_id: 2, user_id: 3, rating: 5, body: "great".to_string() };
    let review =
        Review::from_request(req, ReviewId::new(1), Timestamp { secs: 10, nanos: 20 }).unwrap();
    assert_eq!(review, sample());
}

#[test]
fn review_round_trips_through_review_row() {
    let review = Review {
        id: ReviewId::new(Uuid::new_v4().as_u128()),
        book_id: BookId::new(Uuid::new_v4().as_u128()),
        user_id: UserId::new(Uuid::new_v4().as_u128()),
        rating: Rating::new(4).unwrap(),
        body: "great read".to_string(),
        created_at: now(),
    };
    let row: ReviewRow = ReviewRow::from(review.clone());
    let back: Review = Review::try_from_row(row).unwrap();
    assert_eq!(review, back);
}

#[test]
fn row_with_rating_out_of_range_does_not_read_back() {
    let mut row = ReviewRow::from(sample());
    row.rating = 7;
    assert_eq!(
        Review::try_from_row(row),
        Err(Error::Validation("rating must be between 1 and 5 inclusive (got 7)".to_string()))
    );
}

#[test]
fn listing_and_outcomes() {
    let good = ReviewRow::from(sample());
    let mut bad = ReviewRow::from(sample());
    bad.rating = 0;
    assert_eq!(reviews_from_rows(vec![good.clone()]), Ok(vec![sample()]));
    assert!(reviews_from_rows(vec![good, bad]).is_err());
    assert_eq!(deletion_outcome(0), Err(Error::NotFound));
    assert_eq!(deletion_outcome(3), Ok(()));
    assert_eq!(
        map_db_error(DbError::CheckViolation("rating".to_string())),
        Error::Validation("rating".to_string())
    );
    assert_eq!(map_db_error(DbError::UniqueViolation("u".to_string())), Error::Conflict);
    assert_eq!(map_db_error(DbError::NotFound), Error::NotFound);
    assert_eq!(
        map_db_error(DbError::Other("o".to_string())),
        Error::Infrastructure("o".to_string())
    );
    assert_eq!(create_review_outcome(sample(), Ok(())), Ok(ReviewResponse::from(sample())));
    assert_eq!(create_review_outcome(sample(), Err(Error::Conflict)), Err(Error::Conflict));
    assert_eq!(get_review_outcome(Ok(sample())), Ok(ReviewResponse::from(sample())));
    assert_eq!(get_review_outcome(Err(Error::NotFound)), Err(Error::NotFound));
    assert_eq!(
        list_reviews_outcome(Ok(vec![sample(), sample()])),
        Ok(vec![ReviewResponse::from(sample()), ReviewResponse::from(sample())])
    );
    let r = ReviewResponse::from(sample());
    assert_eq!((r.id, r.book_id, r.user_id, r.rating), (1, 2, 3, 5));
}
