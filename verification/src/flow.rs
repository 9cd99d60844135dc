//! The order in which the create and delete handlers talk to the
//! authorization backend and to the repository. Each function takes what one
//! step answered and says what the handler does next; a step that cannot be
//! reached without the one before it takes that step's result as input.

use vstd::prelude::*;

use crate::authz::{
    book_owner_tuple, review_owner_tuple, tuple_is, typed_ref, AccessTuple, AuthzError,
};
use crate::book::{self, BookResponse};
use crate::ids::{BookId, ReviewId, UserId};
use crate::review::{self, ReviewResponse};

verus! {

/// Why a handler failed: an authorization step, or the service itself.
#[derive(Debug, Clone, PartialEq, Eq)]
pub enum Failure<E> {
    Authz(AuthzError),
    Service(E),
}

/// The reader check made before a review is stored: the handler goes on to
/// store only when the check allowed it; a denial is forbidden and a failed
/// check stands as it failed, and nothing is stored in either case.
pub fn after_reader_check<E>(checked: Result<bool, AuthzError>) -> (r: Result<(), Failure<E>>)
    ensures
        checked == Ok::<bool, AuthzError>(true) ==> r == Ok::<(), Failure<E>>(()),
        checked == Ok::<bool, AuthzError>(false) ==> r == Err::<(), Failure<E>>(
            Failure::Authz(AuthzError::Forbidden),
        ),
        checked matches Err(e) ==> r == Err::<(), Failure<E>>(Failure::Authz(e)),
{
    match checked {
        Ok(true) => Ok(()),
        Ok(false) => Err(Failure::Authz(AuthzError::Forbidden)),
        Err(e) => Err(Failure::Authz(e)),
    }
}

/// A book has been stored, or not: a stored book is followed by writing the
/// tuple that makes the caller its owner; a failed store is answered with
/// its error and no tuple is written.
pub fn after_book_stored(caller: UserId, stored: Result<BookResponse, book::Error>) -> (r: Result<
    (AccessTuple, BookResponse),
    Failure<book::Error>,
>)
    ensures
        stored matches Err(e) ==> r == Err::<(AccessTuple, BookResponse), Failure<book::Error>>(
            Failure::Service(e),
        ),
        stored matches Ok(resp) ==> (r matches Ok((t, item)) && item == resp && tuple_is(
            t,
            typed_ref("user"@, caller.value()),
            "owner"@,
            typed_ref("book"@, resp.id),
        )),
{
    match stored {
        Err(e) => Err(Failure::Service(e)),
        Ok(resp) => {
            let t = book_owner_tuple(caller, BookId::new(resp.id));
            Ok((t, resp))
        },
    }
}

/// A review has been stored, or not: a stored review is followed by writing
/// the tuple that makes the caller its owner; a failed store is answered
/// with its error and no tuple is written.
pub fn after_review_stored(caller: UserId, stored: Result<ReviewResponse, review::Error>) -> (r:
    Result<(AccessTuple, ReviewResponse), Failure<review::Error>>)
    ensures
        stored matches Err(e) ==> r == Err::<(AccessTuple, ReviewResponse), Failure<review::Error>>(
            Failure::Service(e),
        ),
        stored matches Ok(resp) ==> (r matches Ok((t, item)) && item == resp && tuple_is(
            t,
            typed_ref("user"@, caller.value()),
            "owner"@,
            typed_ref("review"@, resp.id),
        )),
{
    match stored {
        Err(e) => Err(Failure::Service(e)),
        Ok(resp) => {
            let t = review_owner_tuple(caller, ReviewId::new(resp.id));
            Ok((t, resp))
        },
    }
}

/// The owner tuple of a created item has been written, or not: the item is
/// the answer once it is; a failed write is answered with its error.
pub fn after_owner_written<T, E>(item: T, written: Result<(), AuthzError>) -> (r: Result<
    T,
    Failure<E>,
>)
    ensures
        written is Ok ==> r == Ok::<T, Failure<E>>(item),
        written matches Err(e) ==> r == Err::<T, Failure<E>>(Failure::Authz(e)),
{
    match written {
        Ok(()) => Ok(item),
        Err(e) => Err(Failure::Authz(e)),
    }
}

/// A book has been deleted, or not: a deletion is followed by removing the
/// caller's owner tuple of the book; a failed deletion is answered with its
/// error and no tuple is touched.
pub fn after_book_deleted(caller: UserId, book_id: BookId, deleted: Result<(), book::Error>) -> (r:
    Result<AccessTuple, Failure<book::Error>>)
    ensures
        deleted matches Err(e) ==> r == Err::<AccessTuple, Failure<book::Error>>(
            Failure::Service(e),
        ),
        deleted is Ok ==> (r matches Ok(t) && tuple_is(
            t,
            typed_ref("user"@, caller.value()),
            "owner"@,
            typed_ref("book"@, book_id.value()),
        )),
{
    match deleted {
        Err(e) => Err(Failure::Service(e)),
        Ok(()) => Ok(book_owner_tuple(caller, book_id)),
    }
}

/// A review has been deleted, or not: a deletion is followed by removing the
/// caller's owner tuple of the review; a failed deletion is answered with its
/// error and no tuple is touched.
pub fn after_review_deleted(
    caller: UserId,
    review_id: ReviewId,
    deleted: Result<(), review::Error>,
) -> (r: Result<AccessTuple, Failure<review::Error>>)
    ensures
        deleted matches Err(e) ==> r == Err::<AccessTuple, Failure<review::Error>>(
            Failure::Service(e),
        ),
        deleted is Ok ==> (r matches Ok(t) && tuple_is(
            t,
            typed_ref("user"@, caller.value()),
            "owner"@,
            typed_ref("review"@, review_id.value()),
        )),
{
    match deleted {
        Err(e) => Err(Failure::Service(e)),
        Ok(()) => Ok(review_owner_tuple(caller, review_id)),
    }
}

/// The owner tuple of a deleted item has been removed, or not: removal is
/// best effort, so the deletion succeeds either way.
pub fn after_owner_released<E>(released: Result<(), AuthzError>) -> (r: Result<(), Failure<E>>)
    ensures
        r == Ok::<(), Failure<E>>(()),
{
    match released {
        Ok(()) => Ok(()),
        Err(_) => Ok(()),
    }
}

} // verus!
