//! The book catalog: ISBN and title value objects, the book entity, its
//! request, response and row forms, and the outcomes of the book use cases.

use vstd::prelude::*;

use crate::clock::{utc_now, Timestamp};
use crate::ids::{fresh_uuid, BookId};
use crate::store::DbError;
use crate::text::{blank, is_blank};

verus! {

/// Why a text is not an ISBN.
#[derive(Debug, Clone, Copy, PartialEq, Eq, Structural)]
pub enum IsbnError {
    Empty,
    InvalidLength,
    InvalidCharacter,
}

/// The text that `Display` shows for an ISBN error.
pub open spec fn isbn_error_message(e: IsbnError) -> Seq<char> {
    match e {
        IsbnError::Empty => "ISBN cannot be empty"@,
        IsbnError::InvalidLength => "ISBN must be 10 or 13 digits (hyphens allowed)"@,
        IsbnError::InvalidCharacter => "ISBN may only contain digits and hyphens"@,
    }
}

impl IsbnError {
    /// The error's message.
    pub fn to_string(&self) -> (s: String)
        ensures
            s@ == isbn_error_message(*self),
    {
        match self {
            IsbnError::Empty => "ISBN cannot be empty".to_string(),
            IsbnError::InvalidLength => "ISBN must be 10 or 13 digits (hyphens allowed)".to_string(),
            IsbnError::InvalidCharacter => "ISBN may only contain digits and hyphens".to_string(),
        }
    }
}

/// `0` to `9`.
pub open spec fn is_ascii_digit(c: char) -> bool {
    '0' <= c <= '9'
}

/// A character an ISBN may hold: a digit or a hyphen.
pub open spec fn isbn_char(c: char) -> bool {
    c == '-' || is_ascii_digit(c)
}

/// How many digits a text holds.
pub open spec fn digit_count(s: Seq<char>) -> nat
    decreases s.len(),
{
    if s.len() == 0 {
        0
    } else {
        digit_count(s.drop_last()) + if is_ascii_digit(s.last()) {
            1nat
        } else {
            0nat
        }
    }
}

/// What is wrong with a text as an ISBN, checked in this order: it is empty;
/// it holds a character other than a digit or a hyphen; its digits number
/// neither 10 nor 13. `None` when it is an ISBN.
pub open spec fn isbn_problem(s: Seq<char>) -> Option<IsbnError> {
    if s.len() == 0 {
        Some(IsbnError::Empty)
    } else if exists|i: int| 0 <= i < s.len() && !isbn_char(#[trigger] s[i]) {
        Some(IsbnError::InvalidCharacter)
    } else if digit_count(s) != 10 && digit_count(s) != 13 {
        Some(IsbnError::InvalidLength)
    } else {
        None
    }
}

/// How many of a text's characters are ASCII digits `0` to `9`.
pub open spec fn ascii_digit_total(s: Seq<char>) -> nat {
    s.filter(|c: char| '0' <= c && c <= '9').len()
}

/// The text is not empty and every character is a hyphen or an ASCII digit.
pub open spec fn digits_and_hyphens(s: Seq<char>) -> bool {
    &&& s.len() > 0
    &&& forall|i: int| 0 <= i < s.len() ==> s[i] == '-' || ('0' <= #[trigger] s[i] && s[i] <= '9')
}

proof fn lemma_digit_count_is_total(s: Seq<char>)
    ensures
        digit_count(s) == ascii_digit_total(s),
    decreases s.len(),
{
    reveal(Seq::filter);
    if s.len() > 0 {
        lemma_digit_count_is_total(s.drop_last());
    }
}

/// An ISBN is accepted exactly when it is a non-empty text of digits and
/// hyphens with exactly 10 or exactly 13 digits; such a text with any other
/// number of digits is refused for its length.
pub proof fn law_isbn_digit_count(s: Seq<char>)
    ensures
        isbn_problem(s) is None <==> (digits_and_hyphens(s) && (ascii_digit_total(s) == 10
            || ascii_digit_total(s) == 13)),
        digits_and_hyphens(s) && ascii_digit_total(s) != 10 && ascii_digit_total(s) != 13
            ==> isbn_problem(s) == Some(IsbnError::InvalidLength),
{
    lemma_digit_count_is_total(s);
    if digits_and_hyphens(s) {
        assert forall|i: int| 0 <= i < s.len() implies isbn_char(s[i]) by {
            assert(s[i] == '-' || ('0' <= s[i] && s[i] <= '9'));
        }
    }
    if s.len() > 0 && !(exists|i: int| 0 <= i < s.len() && !isbn_char(#[trigger] s[i])) {
        assert forall|i: int| 0 <= i < s.len() implies s[i] == '-' || ('0' <= #[trigger] s[i]
            && s[i] <= '9') by {
            assert(isbn_char(s[i]));
        }
    }
}

/// An ISBN: digits and hyphens, with 10 or 13 digits.
#[derive(Debug, PartialEq, Eq)]
pub struct Isbn(String);

impl Clone for Isbn {
    fn clone(&self) -> (r: Self)
        ensures
            r == *self,
    {
        proof {
            use_type_invariant(self);
        }
        Isbn(self.0.clone())
    }
}

impl Isbn {
    /// The text of the ISBN, as it was given.
    pub closed spec fn text(self) -> String {
        self.0
    }

    #[verifier::type_invariant]
    closed spec fn inv(self) -> bool {
        isbn_problem(self.0@) is None
    }

    /// Holds of every ISBN that exists.
    pub open spec fn wf(self) -> bool {
        isbn_problem(self.text()@) is None
    }

    /// Two ISBNs with the same text are the same.
    pub proof fn lemma_text_injective(a: Self, b: Self)
        ensures
            a.text() == b.text() ==> a == b,
    {
    }

    pub fn new(value: String) -> (r: Result<Self, IsbnError>)
        ensures
            match isbn_problem(value@) {
                Some(e) => r == Err::<Self, IsbnError>(e),
                None => r matches Ok(isbn) && isbn.text() == value,
            },
            r is Ok <==> (digits_and_hyphens(value@) && (ascii_digit_total(value@) == 10
                || ascii_digit_total(value@) == 13)),
            digits_and_hyphens(value@) && ascii_digit_total(value@) != 10 && ascii_digit_total(
                value@,
            ) != 13 ==> r == Err::<Self, IsbnError>(IsbnError::InvalidLength),
    {
        proof {
            law_isbn_digit_count(value@);
        }
        if value.as_str().is_empty() {
            return Err(IsbnError::Empty);
        }
        let mut digits: usize = 0;
        for ch in it: value.chars()
            invariant
                it.seq() == value@,
                value@.len() > 0,
                forall|j: int| 0 <= j < it.index() ==> isbn_char(#[trigger] value@[j]),
                digits as nat == if digit_count(value@.take(it.index())) < 14 {
                    digit_count(value@.take(it.index()))
                } else {
                    14
                },
        {
            let ghost k = it.index();
            assert(value@.take(k + 1).drop_last() =~= value@.take(k));
            if ch != '-' {
                if !('0' <= ch && ch <= '9') {
                    return Err(IsbnError::InvalidCharacter);
                }
                if digits < 14 {
                    digits = digits + 1;
                }
            }
        }
        assert(value@.take(value@.len() as int) =~= value@);
        if digits != 10 && digits != 13 {
            return Err(IsbnError::InvalidLength);
        }
        Ok(Isbn(value))
    }

    pub fn as_str(&self) -> (s: &str)
        ensures
            s@ == self.text()@,
    {
        self.0.as_str()
    }

    pub fn into_string(self) -> (s: String)
        ensures
            s == self.text(),
            isbn_problem(s@) is None,
    {
        proof {
            use_type_invariant(&self);
        }
        self.0
    }
}

/// Why a text is not a title.
#[derive(Debug, Clone, Copy, PartialEq, Eq, Structural)]
pub enum TitleError {
    Empty,
}

/// The text that `Display` shows for a title error.
pub open spec fn title_error_message(e: TitleError) -> Seq<char> {
    "title cannot be empty"@
}

impl TitleError {
    /// The error's message.
    pub fn to_string(&self) -> (s: String)
        ensures
            s@ == title_error_message(*self),
    {
        "title cannot be empty".to_string()
    }
}

/// A book title: any text that is not blank.
#[derive(Debug, PartialEq, Eq)]
pub struct Title(String);

impl Clone for Title {
    fn clone(&self) -> (r: Self)
        ensures
            r == *self,
    {
        proof {
            use_type_invariant(self);
        }
        Title(self.0.clone())
    }
}

impl Title {
    /// The text of the title, as it was given.
    pub closed spec fn text(self) -> String {
        self.0
    }

    #[verifier::type_invariant]
    closed spec fn inv(self) -> bool {
        !blank(self.0@)
    }

    /// Holds of every title that exists.
    pub open spec fn wf(self) -> bool {
        !blank(self.text()@)
    }

    /// Two titles with the same text are the same.
    pub proof fn lemma_text_injective(a: Self, b: Self)
        ensures
            a.text() == b.text() ==> a == b,
    {
    }

    pub fn new(value: String) -> (r: Result<Self, TitleError>)
        ensures
            blank(value@) ==> r == Err::<Self, TitleError>(TitleError::Empty),
            !blank(value@) ==> (r matches Ok(title) && title.text() == value),
    {
        if is_blank(value.as_str()) {
            return Err(TitleError::Empty);
        }
        Ok(Title(value))
    }

    pub fn as_str(&self) -> (s: &str)
        ensures
            s@ == self.text()@,
    {
        self.0.as_str()
    }

    pub fn into_string(self) -> (s: String)
        ensures
            s == self.text(),
            !blank(s@),
    {
        proof {
            use_type_invariant(&self);
        }
        self.0
    }
}

/// The book service's domain error.
#[derive(Debug, Clone, PartialEq, Eq)]
pub enum Error {
    NotFound,
    Validation(String),
    Conflict,
    Infrastructure(String),
}

/// The text that `Display` shows for a book-service error.
pub open spec fn error_message(e: Error) -> Seq<char> {
    match e {
        Error::NotFound => "book not found"@,
        Error::Validation(m) => "validation error: "@ + m@,
        Error::Conflict => "conflict"@,
        Error::Infrastructure(m) => "infrastructure error: "@ + m@,
    }
}

/// `e` is a validation error with message `msg`.
pub open spec fn is_validation(e: Error, msg: Seq<char>) -> bool {
    e matches Error::Validation(m) && m@ == msg
}

impl Error {
    /// The error's message.
    pub fn to_string(&self) -> (s: String)
        ensures
            s@ == error_message(*self),
    {
        match self {
            Error::NotFound => "book not found".to_string(),
            Error::Validation(m) => "validation error: ".to_string().concat(m.as_str()),
            Error::Conflict => "conflict".to_string(),
            Error::Infrastructure(m) => "infrastructure error: ".to_string().concat(m.as_str()),
        }
    }

    /// The HTTP status the error is answered with: `404` not found, `400`
    /// invalid, `409` conflict, `500` infrastructure.
    pub fn status_code(&self) -> (r: u16)
        ensures
            *self is NotFound ==> r == 404,
            *self is Validation ==> r == 400,
            *self is Conflict ==> r == 409,
            *self is Infrastructure ==> r == 500,
    {
        match self {
            Error::NotFound => 404,
            Error::Validation(_) => 400,
            Error::Conflict => 409,
            Error::Infrastructure(_) => 500,
        }
    }

    /// An invalid ISBN is a validation error carrying the ISBN error's message.
    pub fn from_isbn_error(value: IsbnError) -> (r: Self)
        ensures
            is_validation(r, isbn_error_message(value)),
    {
        Error::Validation(value.to_string())
    }

    /// An invalid title is a validation error carrying the title error's message.
    pub fn from_title_error(value: TitleError) -> (r: Self)
        ensures
            is_validation(r, title_error_message(value)),
    {
        Error::Validation(value.to_string())
    }
}

/// A book of the catalog.
#[derive(Debug, Clone, PartialEq, Eq)]
pub struct Book {
    pub id: BookId,
    pub isbn: Isbn,
    pub title: Title,
    pub author: String,
    pub created_at: Timestamp,
}

impl Book {
    /// The ISBN and the title are valid; holds of every book that exists.
    pub open spec fn wf(self) -> bool {
        self.isbn.wf() && self.title.wf()
    }
}

/// The body of a request to add a book.
#[derive(Debug, Clone)]
pub struct CreateBookRequest {
    pub isbn: String,
    pub title: String,
    pub author: String,
}

/// What the service answers about a book.
#[derive(Debug, Clone, PartialEq, Eq)]
pub struct BookResponse {
    pub id: u128,
    pub isbn: String,
    pub title: String,
    pub author: String,
    pub created_at: Timestamp,
}

/// A row of the `books` table.
#[derive(Debug, Clone, PartialEq, Eq)]
pub struct BookRow {
    pub id: u128,
    pub isbn: String,
    pub title: String,
    pub author: String,
    pub created_at: Timestamp,
}

/// Why a request cannot become a book, checked in this order: the author
/// is blank; the ISBN is invalid; the title is blank. `None` when it can.
pub open spec fn request_problem(request: CreateBookRequest) -> Option<Seq<char>> {
    if blank(request.author@) {
        Some("author cannot be empty"@)
    } else if isbn_problem(request.isbn@) is Some {
        Some(isbn_error_message(isbn_problem(request.isbn@)->0))
    } else if blank(request.title@) {
        Some(title_error_message(TitleError::Empty))
    } else {
        None
    }
}

/// The book holds what the request gave, with the given id and time.
pub open spec fn book_from_request_fields(
    b: Book,
    request: CreateBookRequest,
    id: BookId,
    created_at: Timestamp,
) -> bool {
    &&& b.id == id
    &&& b.isbn.text() == request.isbn
    &&& b.title.text() == request.title
    &&& b.author == request.author
    &&& b.created_at == created_at
}

/// Why a row does not hold a book: an invalid ISBN, then a blank title.
pub open spec fn row_problem(row: BookRow) -> Option<Seq<char>> {
    if isbn_problem(row.isbn@) is Some {
        Some(isbn_error_message(isbn_problem(row.isbn@)->0))
    } else if blank(row.title@) {
        Some(title_error_message(TitleError::Empty))
    } else {
        None
    }
}

/// The book holds what the row holds.
pub open spec fn book_matches_row(b: Book, row: BookRow) -> bool {
    &&& b.id.value() == row.id
    &&& b.isbn.text() == row.isbn
    &&& b.title.text() == row.title
    &&& b.author == row.author
    &&& b.created_at == row.created_at
}

/// The row that stores a book.
pub open spec fn row_of_book(b: Book) -> BookRow {
    BookRow {
        id: b.id.value(),
        isbn: b.isbn.text(),
        title: b.title.text(),
        author: b.author,
        created_at: b.created_at,
    }
}

/// The answer that describes a book.
pub open spec fn response_of_book(b: Book) -> BookResponse {
    BookResponse {
        id: b.id.value(),
        isbn: b.isbn.text(),
        title: b.title.text(),
        author: b.author,
        created_at: b.created_at,
    }
}

impl Book {
    /// Validates a request and builds the book with the given id and
    /// creation time.
    pub fn from_request(request: CreateBookRequest, id: BookId, created_at: Timestamp) -> (r:
        Result<Book, Error>)
        ensures
            match request_problem(request) {
                Some(msg) => r matches Err(e) && is_validation(e, msg),
                None => r matches Ok(b) && book_from_request_fields(b, request, id, created_at),
            },
            r is Ok ==> digits_and_hyphens(request.isbn@) && (ascii_digit_total(request.isbn@)
                == 10 || ascii_digit_total(request.isbn@) == 13),
    {
        proof {
            law_isbn_digit_count(request.isbn@);
        }
        if is_blank(request.author.as_str()) {
            return Err(Error::Validation("author cannot be empty".to_string()));
        }
        let isbn = match Isbn::new(request.isbn) {
            Ok(isbn) => isbn,
            Err(e) => return Err(Error::from_isbn_error(e)),
        };
        let title = match Title::new(request.title) {
            Ok(title) => title,
            Err(e) => return Err(Error::from_title_error(e)),
        };
        Ok(Book { id, isbn, title, author: request.author, created_at })
    }

    /// Validates a request and builds the book under a fresh random id,
    /// created now.
    pub fn try_from(value: CreateBookRequest) -> (r: Result<Book, Error>)
        ensures
            match request_problem(value) {
                Some(msg) => r matches Err(e) && is_validation(e, msg),
                None => r matches Ok(b) && book_from_request_fields(b, value, b.id, b.created_at)
                    && b.id.value() != 0 && b.id.value() & 0xF000_C000_0000_0000_0000u128
                    == 0x4000_8000_0000_0000_0000u128 && b.created_at.secs >= 0
                    && b.created_at.nanos < 1_000_000_000,
            },
            r is Ok ==> digits_and_hyphens(value.isbn@) && (ascii_digit_total(value.isbn@) == 10
                || ascii_digit_total(value.isbn@) == 13),
    {
        let id = BookId::new(fresh_uuid());
        let created_at = utc_now();
        Book::from_request(value, id, created_at)
    }

    /// Reads a book back from its row; the row's ISBN and title are checked
    /// again. The row that stores a book reads back as that very book.
    pub fn try_from_row(row: BookRow) -> (r: Result<Book, Error>)
        ensures
            match row_problem(row) {
                Some(msg) => r matches Err(e) && is_validation(e, msg),
                None => r matches Ok(b) && book_matches_row(b, row) && b.wf(),
            },
            forall|b: Book| b.wf() && row == #[trigger] row_of_book(b) ==> r == Ok::<Book, Error>(b),
            r matches Ok(b) ==> {
                &&& b.id.value() == row.id
                &&& b.isbn.text() == row.isbn
                &&& b.title.text() == row.title
                &&& b.author == row.author
                &&& b.created_at == row.created_at
            },
    {
        let ghost stored = row;
        let isbn = match Isbn::new(row.isbn) {
            Ok(isbn) => isbn,
            Err(e) => return Err(Error::from_isbn_error(e)),
        };
        let title = match Title::new(row.title) {
            Ok(title) => title,
            Err(e) => return Err(Error::from_title_error(e)),
        };
        let book = Book {
            id: BookId::new(row.id),
            isbn,
            title,
            author: row.author,
            created_at: row.created_at,
        };
        proof {
            assert forall|b: Book| b.wf() && stored == #[trigger] row_of_book(b) implies book == b by {
                lemma_book_row_round_trip(b, book);
            }
        }
        Ok(book)
    }
}

impl BookRow {
    /// The row that stores a book; it always reads back.
    pub fn from(book: Book) -> (r: BookRow)
        ensures
            r == row_of_book(book),
            row_problem(r) is None,
            r.id == book.id.value(),
            r.isbn == book.isbn.text(),
            r.title == book.title.text(),
            r.author == book.author,
            r.created_at == book.created_at,
    {
        BookRow {
            id: book.id.into_uuid(),
            isbn: book.isbn.into_string(),
            title: book.title.into_string(),
            author: book.author,
            created_at: book.created_at,
        }
    }
}

impl BookResponse {
    /// The answer that describes a book.
    pub fn from(book: Book) -> (r: BookResponse)
        ensures
            r == response_of_book(book),
    {
        BookResponse {
            id: book.id.into_uuid(),
            isbn: book.isbn.into_string(),
            title: book.title.into_string(),
            author: book.author,
            created_at: book.created_at,
        }
    }
}

/// A valid book stored as a row and read back is the same book.
pub proof fn lemma_book_row_round_trip(book: Book, back: Book)
    requires
        book.wf(),
        book_matches_row(back, row_of_book(book)),
    ensures
        row_problem(row_of_book(book)) is None,
        back == book,
{
    Isbn::lemma_text_injective(back.isbn, book.isbn);
    Title::lemma_text_injective(back.title, book.title);
    BookId::lemma_value_injective(back.id, book.id);
}

/// Every row before index `k` holds a book.
pub open spec fn rows_ok_before(rows: Seq<BookRow>, k: int) -> bool {
    forall|j: int| 0 <= j < k ==> row_problem(#[trigger] rows[j]) is None
}

/// The repository's lookup of one row: no row is no book; a row that does
/// not hold a book is a validation error.
pub fn book_from_optional_row(row: Option<BookRow>) -> (r: Result<Option<Book>, Error>)
    ensures
        row is None ==> r == Ok::<Option<Book>, Error>(None),
        row matches Some(rw) ==> match row_problem(rw) {
            Some(msg) => r matches Err(e) && is_validation(e, msg),
            None => r matches Ok(Some(b)) && book_matches_row(b, rw),
        },
{
    match row {
        None => Ok(None),
        Some(rw) => match Book::try_from_row(rw) {
            Ok(b) => Ok(Some(b)),
            Err(e) => Err(e),
        },
    }
}

/// The repository's listing: every row becomes a book, in order, or the
/// first row that does not hold a book decides the error.
pub fn books_from_rows(rows: Vec<BookRow>) -> (r: Result<Vec<Book>, Error>)
    ensures
        rows_ok_before(rows@, rows@.len() as int) ==> (r matches Ok(books) && books@.len()
            == rows@.len() && forall|j: int|
            0 <= j < rows@.len() ==> book_matches_row(#[trigger] books@[j], rows@[j])),
        forall|k: int|
            0 <= k < rows@.len() && rows_ok_before(rows@, k) && #[trigger] row_problem(rows@[k])
                is Some ==> (r matches Err(e) && is_validation(e, row_problem(rows@[k])->0)),
{
    let ghost rs = rows@;
    let mut books: Vec<Book> = Vec::new();
    for row in it: rows.into_iter()
        invariant
            it.seq() == rs,
            books@.len() == it.index(),
            rows_ok_before(rs, it.index()),
            forall|j: int| 0 <= j < it.index() ==> book_matches_row(#[trigger] books@[j], rs[j]),
    {
        match Book::try_from_row(row) {
            Ok(b) => books.push(b),
            Err(e) => return Err(e),
        }
    }
    Ok(books)
}

/// Deleting succeeds when a row went away, and finds nothing otherwise.
pub fn deletion_outcome(deleted: usize) -> (r: Result<(), Error>)
    ensures
        deleted == 0 ==> r == Err::<(), Error>(Error::NotFound),
        deleted != 0 ==> r == Ok::<(), Error>(()),
{
    if deleted == 0 {
        Err(Error::NotFound)
    } else {
        Ok(())
    }
}

/// How a database failure shows in the book service: a missing record is
/// not found, a unique violation is a conflict, anything else is an
/// infrastructure error with the failure's text.
pub fn map_db_error(error: DbError) -> (r: Error)
    ensures
        error is NotFound ==> r == Error::NotFound,
        error is UniqueViolation ==> r == Error::Conflict,
        error matches DbError::CheckViolation(m) ==> r == Error::Infrastructure(m),
        error matches DbError::Other(m) ==> r == Error::Infrastructure(m),
{
    match error {
        DbError::NotFound => Error::NotFound,
        DbError::UniqueViolation(_) => Error::Conflict,
        DbError::CheckViolation(m) => Error::Infrastructure(m),
        DbError::Other(m) => Error::Infrastructure(m),
    }
}

/// The create-book use case once the repository has answered: its error
/// stands, and otherwise the stored book is described.
pub fn create_book_outcome(book: Book, stored: Result<(), Error>) -> (r: Result<
    BookResponse,
    Error,
>)
    ensures
        stored matches Err(e) ==> r == Err::<BookResponse, Error>(e),
        stored is Ok ==> r == Ok::<BookResponse, Error>(response_of_book(book)),
{
    match stored {
        Err(e) => Err(e),
        Ok(()) => Ok(BookResponse::from(book)),
    }
}

/// The get-book use case once the repository has answered: its error
/// stands, no book is not found, and a book is described.
pub fn get_book_outcome(found: Result<Option<Book>, Error>) -> (r: Result<BookResponse, Error>)
    ensures
        found matches Err(e) ==> r == Err::<BookResponse, Error>(e),
        found matches Ok(None) ==> r == Err::<BookResponse, Error>(Error::NotFound),
        found matches Ok(Some(b)) ==> r == Ok::<BookResponse, Error>(response_of_book(b)),
{
    match found {
        Err(e) => Err(e),
        Ok(None) => Err(Error::NotFound),
        Ok(Some(b)) => Ok(BookResponse::from(b)),
    }
}

/// The list-books use case once the repository has answered: its error
/// stands, and otherwise every book is described, in order.
pub fn list_books_outcome(listed: Result<Vec<Book>, Error>) -> (r: Result<
    Vec<BookResponse>,
    Error,
>)
    ensures
        listed matches Err(e) ==> r == Err::<Vec<BookResponse>, Error>(e),
        listed matches Ok(books) ==> (r matches Ok(out) && out@.len() == books@.len() && forall|
            j: int,
        | 0 <= j < books@.len() ==> #[trigger] out@[j] == response_of_book(books@[j])),
{
    match listed {
        Err(e) => Err(e),
        Ok(books) => {
            let ghost bs = books@;
            let mut out: Vec<BookResponse> = Vec::new();
            for b in it: books.into_iter()
                invariant
                    it.seq() == bs,
                    out@.len() == it.index(),
                    forall|j: int| 0 <= j < it.index() ==> #[trigger] out@[j] == response_of_book(bs[j]),
            {
                out.push(BookResponse::from(b));
            }
            Ok(out)
        },
    }
}

} // verus!
