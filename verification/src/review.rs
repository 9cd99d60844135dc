//! Book reviews: the rating value object, the review entity, its request,
//! response and row forms, and the outcomes of the review use cases.

use vstd::prelude::*;

use crate::clock::{utc_now, Timestamp};
use crate::ids::{fresh_uuid, BookId, ReviewId, UserId};
use crate::store::DbError;
use crate::text::{blank, i16_decimal, int_decimal, is_blank};

verus! {

/// Why a number is not a rating: it lies outside `1..=5`.
#[derive(Debug, Clone, Copy, PartialEq, Eq, Structural)]
pub enum RatingError {
    OutOfRange(i16),
}

/// The text that `Display` shows for a rating error.
pub open spec fn rating_error_message(e: RatingError) -> Seq<char> {
    match e {
        RatingError::OutOfRange(v) => "rating must be between 1 and 5 inclusive (got "@ + int_decimal(
            v as int,
        ) + ")"@,
    }
}

impl RatingError {
    /// The error's message.
    pub fn to_string(&self) -> (s: String)
        ensures
            s@ == rating_error_message(*self),
    {
        match self {
            RatingError::OutOfRange(v) => {
                let got = i16_decimal(*v);
                "rating must be between 1 and 5 inclusive (got ".to_string().concat(
                    got.as_str(),
                ).concat(")")
            },
        }
    }
}

/// A rating from 1 to 5 stars.
#[derive(Debug, Clone, Copy, PartialEq, Eq)]
pub struct Rating(i16);

impl Rating {
    /// The number of stars.
    pub closed spec fn stars(self) -> i16 {
        self.0
    }

    #[verifier::type_invariant]
    closed spec fn inv(self) -> bool {
        1 <= self.0 <= 5
    }

    /// Holds of every rating that exists.
    pub open spec fn wf(self) -> bool {
        1 <= self.stars() <= 5
    }

    /// Two ratings with the same number of stars are the same.
    pub proof fn lemma_stars_injective(a: Self, b: Self)
        ensures
            a.stars() == b.stars() ==> a == b,
    {
    }

    pub fn new(value: i16) -> (r: Result<Self, RatingError>)
        ensures
            1 <= value <= 5 ==> (r matches Ok(rating) && rating.stars() == value),
            !(1 <= value <= 5) ==> r == Err::<Self, RatingError>(RatingError::OutOfRange(value)),
    {
        if !(1 <= value && value <= 5) {
            return Err(RatingError::OutOfRange(value));
        }
        Ok(Rating(value))
    }

    pub fn value(self) -> (r: i16)
        ensures
            r == self.stars(),
            1 <= r <= 5,
    {
        proof {
            use_type_invariant(&self);
        }
        self.0
    }
}

/// The review service's domain error.
#[derive(Debug, Clone, PartialEq, Eq)]
pub enum Error {
    NotFound,
    Validation(String),
    Conflict,
    Infrastructure(String),
}

/// The text that `Display` shows for a review-service error.
pub open spec fn error_message(e: Error) -> Seq<char> {
    match e {
        Error::NotFound => "review not found"@,
        Error::Validation(m) => "validation error: "@ + m@,
        Error::Conflict => "conflict"@,
        Error::Infrastructure(m) => "infrastructure error: "@ + m@,
    }
}

/// `e` is a validation error with message `msg`.
pub open spec fn is_validation(e: Error, msg: Seq<char>) -> bool {
    e matches Error::Validation(m) && m@ == msg
}

impl Error {
    /// The error's message.
    pub fn to_string(&self) -> (s: String)
        ensures
            s@ == error_message(*self),
    {
        match self {
            Error::NotFound => "review not found".to_string(),
            Error::Validation(m) => "validation error: ".to_string().concat(m.as_str()),
            Error::Conflict => "conflict".to_string(),
            Error::Infrastructure(m) => "infrastructure error: ".to_string().concat(m.as_str()),
        }
    }

    /// The HTTP status the error is answered with: `404` not found, `400`
    /// invalid, `409` conflict, `500` infrastructure.
    pub fn status_code(&self) -> (r: u16)
        ensures
            *self is NotFound ==> r == 404,
            *self is Validation ==> r == 400,
            *self is Conflict ==> r == 409,
            *self is Infrastructure ==> r == 500,
    {
        match self {
            Error::NotFound => 404,
            Error::Validation(_) => 400,
            Error::Conflict => 409,
            Error::Infrastructure(_) => 500,
        }
    }

    /// A rating out of range is a validation error carrying the rating
    /// error's message.
    pub fn from_rating_error(value: RatingError) -> (r: Self)
        ensures
            is_validation(r, rating_error_message(value)),
    {
        Error::Validation(value.to_string())
    }
}

/// A review of a book by a member.
#[derive(Debug, Clone, PartialEq, Eq)]
pub struct Review {
    pub id: ReviewId,
    pub book_id: BookId,
    pub user_id: UserId,
    pub rating: Rating,
    pub body: String,
    pub created_at: Timestamp,
}

impl Review {
    /// The rating is within `1..=5`; holds of every review that exists.
    pub open spec fn wf(self) -> bool {
        self.rating.wf()
    }
}

/// The body of a request to submit a review.
#[derive(Debug, Clone)]
pub struct CreateReviewRequest {
    pub book_id: u128,
    pub user_id: u128,
    pub rating: i16,
    pub body: String,
}

/// What the service answers about a review.
#[derive(Debug, Clone, PartialEq, Eq)]
pub struct ReviewResponse {
    pub id: u128,
    pub book_id: u128,
    pub user_id: u128,
    pub rating: i16,
    pub body: String,
    pub created_at: Timestamp,
}

/// A row of the `reviews` table.
#[derive(Debug, Clone, PartialEq, Eq)]
pub struct ReviewRow {
    pub id: u128,
    pub book_id: u128,
    pub user_id: u128,
    pub rating: i16,
    pub body: String,
    pub created_at: Timestamp,
}

/// Why a request cannot become a review, checked in this order: the body is
/// blank; the rating is out of range. `None` when it can.
pub open spec fn request_problem(request: CreateReviewRequest) -> Option<Seq<char>> {
    if blank(request.body@) {
        Some("body cannot be empty"@)
    } else if !(1 <= request.rating <= 5) {
        Some(rating_error_message(RatingError::OutOfRange(request.rating)))
    } else {
        None
    }
}

/// The review holds what the request gave, with the given id and time.
pub open spec fn review_from_request_fields(
    r: Review,
    request: CreateReviewRequest,
    id: ReviewId,
    created_at: Timestamp,
) -> bool {
    &&& r.id == id
    &&& r.book_id.value() == request.book_id
    &&& r.user_id.value() == request.user_id
    &&& r.rating.stars() == request.rating
    &&& r.body == request.body
    &&& r.created_at == created_at
}

/// Why a row does not hold a review: its rating is out of range.
pub open spec fn row_problem(row: ReviewRow) -> Option<Seq<char>> {
    if !(1 <= row.rating <= 5) {
        Some(rating_error_message(RatingError::OutOfRange(row.rating)))
    } else {
        None
    }
}

/// The review holds what the row holds.
pub open spec fn review_matches_row(r: Review, row: ReviewRow) -> bool {
    &&& r.id.value() == row.id
    &&& r.book_id.value() == row.book_id
    &&& r.user_id.value() == row.user_id
    &&& r.rating.stars() == row.rating
    &&& r.body == row.body
    &&& r.created_at == row.created_at
}

/// The row that stores a review.
pub open spec fn row_of_review(r: Review) -> ReviewRow {
    ReviewRow {
        id: r.id.value(),
        book_id: r.book_id.value(),
        user_id: r.user_id.value(),
        rating: r.rating.stars(),
        body: r.body,
        created_at: r.created_at,
    }
}

/// The answer that describes a review.
pub open spec fn response_of_review(r: Review) -> ReviewResponse {
    ReviewResponse {
        id: r.id.value(),
        book_id: r.book_id.value(),
        user_id: r.user_id.value(),
        rating: r.rating.stars(),
        body: r.body,
        created_at: r.created_at,
    }
}

/// A review request is accepted exactly when its body is not blank and its
/// rating lies in 1..=5, both ends included; the review built from it
/// carries the request's book, author, rating and body, and the given id
/// and time.
pub proof fn law_review_request_accepted(
    request: CreateReviewRequest,
    rv: Review,
    id: ReviewId,
    created_at: Timestamp,
)
    ensures
        request_problem(request) is None <==> (!blank(request.body@) && 1 <= request.rating
            && request.rating <= 5),
        review_from_request_fields(rv, request, id, created_at) ==> {
            &&& rv.book_id.value() == request.book_id
            &&& rv.user_id.value() == request.user_id
            &&& rv.rating.stars() == request.rating
            &&& rv.body == request.body
            &&& rv.id == id
            &&& rv.created_at == created_at
        },
{
}

/// A review's row keeps each field in its own column, and reading a row puts
/// each column back in its own field.
pub proof fn law_review_row_columns(review: Review, row: ReviewRow, back: Review)
    ensures
        row_of_review(review).id == review.id.value(),
        row_of_review(review).book_id == review.book_id.value(),
        row_of_review(review).user_id == review.user_id.value(),
        row_of_review(review).rating == review.rating.stars(),
        row_of_review(review).body == review.body,
        row_of_review(review).created_at == review.created_at,
        review_matches_row(back, row) ==> {
            &&& back.id.value() == row.id
            &&& back.book_id.value() == row.book_id
            &&& back.user_id.value() == row.user_id
            &&& back.rating.stars() == row.rating
            &&& back.body == row.body
            &&& back.created_at == row.created_at
        },
{
}

impl Review {
    /// Validates a request and builds the review with the given id and
    /// creation time.
    pub fn from_request(request: CreateReviewRequest, id: ReviewId, created_at: Timestamp) -> (r:
        Result<Review, Error>)
        ensures
            match request_problem(request) {
                Some(msg) => r matches Err(e) && is_validation(e, msg),
                None => r matches Ok(rv) && review_from_request_fields(rv, request, id, created_at),
            },
            !blank(request.body@) && 1 <= request.rating <= 5 ==> (r matches Ok(rv)
                && rv.rating.stars() == request.rating && rv.body == request.body
                && rv.book_id.value() == request.book_id && rv.user_id.value() == request.user_id),
            r is Ok ==> !blank(request.body@) && 1 <= request.rating <= 5,
    {
        if is_blank(request.body.as_str()) {
            return Err(Error::Validation("body cannot be empty".to_string()));
        }
        let rating = match Rating::new(request.rating) {
            Ok(rating) => rating,
            Err(e) => return Err(Error::from_rating_error(e)),
        };
        Ok(Review {
            id,
            book_id: BookId::new(request.book_id),
            user_id: UserId::new(request.user_id),
            rating,
            body: request.body,
            created_at,
        })
    }

    /// Validates a request and builds the review under a fresh random id,
    /// created now.
    pub fn try_from(value: CreateReviewRequest) -> (r: Result<Review, Error>)
        ensures
            match request_problem(value) {
                Some(msg) => r matches Err(e) && is_validation(e, msg),
                None => r matches Ok(rv) && review_from_request_fields(rv, value, rv.id, rv.created_at)
                    && rv.id.value() != 0 && rv.id.value() & 0xF000_C000_0000_0000_0000u128
                    == 0x4000_8000_0000_0000_0000u128 && rv.created_at.secs >= 0
                    && rv.created_at.nanos < 1_000_000_000,
            },
            !blank(value.body@) && 1 <= value.rating <= 5 ==> (r matches Ok(rv)
                && rv.rating.stars() == value.rating && rv.body == value.body
                && rv.book_id.value() == value.book_id && rv.user_id.value() == value.user_id),
            r is Ok ==> !blank(value.body@) && 1 <= value.rating <= 5,
    {
        let id = ReviewId::new(fresh_uuid());
        let created_at = utc_now();
        Review::from_request(value, id, created_at)
    }

    /// Reads a review back from its row; the rating is checked again. The row
    /// that stores a review reads back as that very review.
    pub fn try_from_row(row: ReviewRow) -> (r: Result<Review, Error>)
        ensures
            match row_problem(row) {
                Some(msg) => r matches Err(e) && is_validation(e, msg),
                None => r matches Ok(rv) && review_matches_row(rv, row) && rv.wf(),
            },
            forall|rv: Review|
                rv.wf() && row == #[trigger] row_of_review(rv) ==> r == Ok::<Review, Error>(rv),
            r matches Ok(rv) ==> {
                &&& rv.id.value() == row.id
                &&& rv.book_id.value() == row.book_id
                &&& rv.user_id.value() == row.user_id
                &&& rv.rating.stars() == row.rating
                &&& rv.body == row.body
                &&& rv.created_at == row.created_at
            },
    {
        let ghost stored = row;
        let rating = match Rating::new(row.rating) {
            Ok(rating) => rating,
            Err(e) => return Err(Error::from_rating_error(e)),
        };
        let review = Review {
            id: ReviewId::new(row.id),
            book_id: BookId::new(row.book_id),
            user_id: UserId::new(row.user_id),
            rating,
            body: row.body,
            created_at: row.created_at,
        };
        proof {
            assert forall|rv: Review| rv.wf() && stored == #[trigger] row_of_review(rv) implies review
                == rv by {
                lemma_review_row_round_trip(rv, review);
            }
        }
        Ok(review)
    }
}

impl ReviewRow {
    /// The row that stores a review; it always reads back.
    pub fn from(review: Review) -> (r: ReviewRow)
        ensures
            r == row_of_review(review),
            row_problem(r) is None,
            r.id == review.id.value(),
            r.book_id == review.book_id.value(),
            r.user_id == review.user_id.value(),
            r.rating == review.rating.stars(),
            r.body == review.body,
            r.created_at == review.created_at,
    {
        ReviewRow {
            id: review.id.into_uuid(),
            book_id: review.book_id.into_uuid(),
            user_id: review.user_id.into_uuid(),
            rating: review.rating.value(),
            body: review.body,
            created_at: review.created_at,
        }
    }
}

impl ReviewResponse {
    /// The answer that describes a review.
    pub fn from(review: Review) -> (r: ReviewResponse)
        ensures
            r == response_of_review(review),
    {
        ReviewResponse {
            id: review.id.into_uuid(),
            book_id: review.book_id.into_uuid(),
            user_id: review.user_id.into_uuid(),
            rating: review.rating.value(),
            body: review.body,
            created_at: review.created_at,
        }
    }
}

/// A valid review stored as a row and read back is the same review.
pub proof fn lemma_review_row_round_trip(review: Review, back: Review)
    requires
        review.wf(),
        review_matches_row(back, row_of_review(review)),
    ensures
        row_problem(row_of_review(review)) is None,
        back == review,
{
    Rating::lemma_stars_injective(back.rating, review.rating);
    ReviewId::lemma_value_injective(back.id, review.id);
    BookId::lemma_value_injective(back.book_id, review.book_id);
    UserId::lemma_value_injective(back.user_id, review.user_id);
}

/// Every row before index `k` holds a review.
pub open spec fn rows_ok_before(rows: Seq<ReviewRow>, k: int) -> bool {
    forall|j: int| 0 <= j < k ==> row_problem(#[trigger] rows[j]) is None
}

/// The repository's listing: every row becomes a review, in order, or the
/// first row that does not hold a review decides the error.
pub fn reviews_from_rows(rows: Vec<ReviewRow>) -> (r: Result<Vec<Review>, Error>)
    ensures
        rows_ok_before(rows@, rows@.len() as int) ==> (r matches Ok(reviews) && reviews@.len()
            == rows@.len() && forall|j: int|
            0 <= j < rows@.len() ==> review_matches_row(#[trigger] reviews@[j], rows@[j])),
        forall|k: int|
            0 <= k < rows@.len() && rows_ok_before(rows@, k) && #[trigger] row_problem(rows@[k])
                is Some ==> (r matches Err(e) && is_validation(e, row_problem(rows@[k])->0)),
{
    let ghost rs = rows@;
    let mut reviews: Vec<Review> = Vec::new();
    for row in it: rows.into_iter()
        invariant
            it.seq() == rs,
            reviews@.len() == it.index(),
            rows_ok_before(rs, it.index()),
            forall|j: int| 0 <= j < it.index() ==> review_matches_row(#[trigger] reviews@[j], rs[j]),
    {
        match Review::try_from_row(row) {
            Ok(rv) => reviews.push(rv),
            Err(e) => return Err(e),
        }
    }
    Ok(reviews)
}

/// Deleting succeeds when a row went away, and finds nothing otherwise.
pub fn deletion_outcome(deleted: usize) -> (r: Result<(), Error>)
    ensures
        deleted == 0 ==> r == Err::<(), Error>(Error::NotFound),
        deleted != 0 ==> r == Ok::<(), Error>(()),
{
    if deleted == 0 {
        Err(Error::NotFound)
    } else {
        Ok(())
    }
}

/// How a database failure shows in the review service: a missing record is
/// not found, a unique violation is a conflict, a broken check constraint is
/// a validation error with the database's message, anything else is an
/// infrastructure error with the failure's text.
pub fn map_db_error(error: DbError) -> (r: Error)
    ensures
        error is NotFound ==> r == Error::NotFound,
        error is UniqueViolation ==> r == Error::Conflict,
        error matches DbError::CheckViolation(m) ==> r == Error::Validation(m),
        error matches DbError::Other(m) ==> r == Error::Infrastructure(m),
{
    match error {
        DbError::NotFound => Error::NotFound,
        DbError::UniqueViolation(_) => Error::Conflict,
        DbError::CheckViolation(m) => Error::Validation(m),
        DbError::Other(m) => Error::Infrastructure(m),
    }
}

/// The create-review use case once the repository has answered: its error
/// stands, and otherwise the stored review is described.
pub fn create_review_outcome(review: Review, stored: Result<(), Error>) -> (r: Result<
    ReviewResponse,
    Error,
>)
    ensures
        stored matches Err(e) ==> r == Err::<ReviewResponse, Error>(e),
        stored is Ok ==> r == Ok::<ReviewResponse, Error>(response_of_review(review)),
{
    match stored {
        Err(e) => Err(e),
        Ok(()) => Ok(ReviewResponse::from(review)),
    }
}

/// The get-review use case once the repository has answered.
pub fn get_review_outcome(found: Result<Review, Error>) -> (r: Result<ReviewResponse, Error>)
    ensures
        found matches Err(e) ==> r == Err::<ReviewResponse, Error>(e),
        found matches Ok(rv) ==> r == Ok::<ReviewResponse, Error>(response_of_review(rv)),
{
    match found {
        Err(e) => Err(e),
        Ok(rv) => Ok(ReviewResponse::from(rv)),
    }
}

/// The list-reviews use case once the repository has answered: its error
/// stands, and otherwise every review is described, in the repository's
/// order.
pub fn list_reviews_outcome(listed: Result<Vec<Review>, Error>) -> (r: Result<
    Vec<ReviewResponse>,
    Error,
>)
    ensures
        listed matches Err(e) ==> r == Err::<Vec<ReviewResponse>, Error>(e),
        listed matches Ok(reviews) ==> (r matches Ok(out) && out@.len() == reviews@.len()
            && forall|j: int|
            0 <= j < reviews@.len() ==> #[trigger] out@[j] == response_of_review(reviews@[j])),
{
    match listed {
        Err(e) => Err(e),
        Ok(reviews) => {
            let ghost rs = reviews@;
            let mut out: Vec<ReviewResponse> = Vec::new();
            for rv in it: reviews.into_iter()
                invariant
                    it.seq() == rs,
                    out@.len() == it.index(),
                    forall|j: int| 0 <= j < it.index() ==> #[trigger] out@[j] == response_of_review(rs[j]),
            {
                out.push(ReviewResponse::from(rv));
            }
            Ok(out)
        },
    }
}

} // verus!
