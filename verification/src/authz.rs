//! Authorization: the relation tuples the services ask about and write, the
//! decisions taken on a backend's answers, and the typed guards that a
//! request must pass before a handler runs.

use vstd::prelude::*;

use crate::ids::{uuid_format, uuid_parse_value, uuid_text, BookId, ReviewId, UserId};

verus! {

/// Why an authorization step failed.
#[derive(Debug, Clone, PartialEq, Eq)]
pub enum AuthzError {
    Forbidden,
    Infrastructure(String),
}

/// The text that `Display` shows for an authorization error.
pub open spec fn authz_error_message(e: AuthzError) -> Seq<char> {
    match e {
        AuthzError::Forbidden => "forbidden"@,
        AuthzError::Infrastructure(m) => "authorization service error: "@ + m@,
    }
}

impl AuthzError {
    /// The error's message.
    pub fn to_string(&self) -> (s: String)
        ensures
            s@ == authz_error_message(*self),
    {
        match self {
            AuthzError::Forbidden => "forbidden".to_string(),
            AuthzError::Infrastructure(m) => "authorization service error: ".to_string().concat(
                m.as_str(),
            ),
        }
    }
}

/// Enforcing a check: allowed passes, denied is forbidden, and a failed
/// check stands as it failed.
pub fn require_outcome(checked: Result<bool, AuthzError>) -> (r: Result<(), AuthzError>)
    ensures
        checked == Ok::<bool, AuthzError>(true) ==> r == Ok::<(), AuthzError>(()),
        checked == Ok::<bool, AuthzError>(false) ==> r == Err::<(), AuthzError>(
            AuthzError::Forbidden,
        ),
        checked matches Err(e) ==> r == Err::<(), AuthzError>(e),
{
    match checked {
        Ok(true) => Ok(()),
        Ok(false) => Err(AuthzError::Forbidden),
        Err(e) => Err(e),
    }
}

/// A relation tuple: `user` stands in `relation` to `object`.
#[derive(Debug, Clone, PartialEq, Eq)]
pub struct AccessTuple {
    pub user: String,
    pub relation: String,
    pub object: String,
}

/// The tuple holds exactly these three texts.
pub open spec fn tuple_is(t: AccessTuple, user: Seq<char>, relation: Seq<char>, object: Seq<char>) -> bool {
    &&& t.user@ == user
    &&& t.relation@ == relation
    &&& t.object@ == object
}

/// `<kind>:<uuid>`, the name of an object or subject of type `kind`.
pub open spec fn typed_ref(kind: Seq<char>, id: u128) -> Seq<char> {
    kind + ":"@ + uuid_text(id)
}

/// `<kind>:<uuid>`.
pub fn typed_name(kind: &str, id: u128) -> (s: String)
    ensures
        s@ == typed_ref(kind@, id),
{
    let text = uuid_format(id);
    kind.to_string().concat(":").concat(text.as_str())
}

/// The tuple `user:<caller>` / `relation` / `<kind>:<id>`.
pub fn caller_tuple(caller: UserId, relation: &str, kind: &str, id: u128) -> (t: AccessTuple)
    ensures
        tuple_is(t, typed_ref("user"@, caller.value()), relation@, typed_ref(kind@, id)),
{
    AccessTuple {
        user: typed_name("user", caller.into_uuid()),
        relation: relation.to_string(),
        object: typed_name(kind, id),
    }
}

/// The tuple that makes the creator of a book its owner (written after the
/// book is created, removed after it is deleted).
pub fn book_owner_tuple(caller: UserId, book_id: BookId) -> (t: AccessTuple)
    ensures
        tuple_is(t, typed_ref("user"@, caller.value()), "owner"@, typed_ref("book"@, book_id.value())),
{
    caller_tuple(caller, "owner", "book", book_id.into_uuid())
}

/// The tuple that makes the author of a review its owner.
pub fn review_owner_tuple(caller: UserId, review_id: ReviewId) -> (t: AccessTuple)
    ensures
        tuple_is(
            t,
            typed_ref("user"@, caller.value()),
            "owner"@,
            typed_ref("review"@, review_id.value()),
        ),
{
    caller_tuple(caller, "owner", "review", review_id.into_uuid())
}

/// The check made before a review is accepted: the caller must be a reader
/// of the reviewed book.
pub fn review_book_reader_tuple(caller: UserId, book_id: u128) -> (t: AccessTuple)
    ensures
        tuple_is(t, typed_ref("user"@, caller.value()), "reader"@, typed_ref("book"@, book_id)),
{
    caller_tuple(caller, "reader", "book", book_id)
}

/// Why a guard turned a request away; answered as `403` when forbidden and
/// `500` when the authorization service failed.
#[derive(Debug)]
pub struct AuthzRejection(AuthzError);

impl AuthzRejection {
    /// The error behind the rejection.
    pub closed spec fn reason(self) -> AuthzError {
        self.0
    }

    pub fn from(e: AuthzError) -> (r: Self)
        ensures
            r.reason() == e,
    {
        AuthzRejection(e)
    }

    /// The status code and the `error` text of the answer.
    pub fn into_response(self) -> (r: (u16, String))
        ensures
            self.reason() == AuthzError::Forbidden ==> r.0 == 403 && r.1@ == "forbidden"@,
            self.reason() matches AuthzError::Infrastructure(m) ==> r.0 == 500 && r.1 == m,
    {
        match self.0 {
            AuthzError::Forbidden => (403, "forbidden".to_string()),
            AuthzError::Infrastructure(m) => (500, m),
        }
    }
}

/// A rejection for lack of permission.
pub open spec fn is_forbidden(r: AuthzRejection) -> bool {
    r.reason() == AuthzError::Forbidden
}

/// A guard's verdict once the backend has answered the check: the prepared
/// value passes when allowed; denied is forbidden; a failed check rejects
/// with its error.
pub fn grant<T>(value: T, checked: Result<bool, AuthzError>) -> (r: Result<T, AuthzRejection>)
    ensures
        checked == Ok::<bool, AuthzError>(true) ==> r == Ok::<T, AuthzRejection>(value),
        checked == Ok::<bool, AuthzError>(false) ==> (r matches Err(rej) && is_forbidden(rej)),
        checked matches Err(e) ==> (r matches Err(rej) && rej.reason() == e),
{
    match checked {
        Ok(true) => Ok(value),
        Ok(false) => Err(AuthzRejection::from(AuthzError::Forbidden)),
        Err(e) => Err(AuthzRejection::from(e)),
    }
}

/// The caller a guard acts for: the id that the caller-id middleware put on
/// the request; without it the request is forbidden.
pub fn caller_from_parts(caller: Option<UserId>) -> (r: Result<UserId, AuthzRejection>)
    ensures
        caller matches Some(c) ==> r == Ok::<UserId, AuthzRejection>(c),
        caller is None ==> (r matches Err(rej) && is_forbidden(rej)),
{
    match caller {
        Some(c) => Ok(c),
        None => Err(AuthzRejection::from(AuthzError::Forbidden)),
    }
}

/// The value of the first path parameter named `key`.
pub open spec fn first_param(params: Seq<(String, String)>, key: Seq<char>) -> Option<String>
    decreases params.len(),
{
    if params.len() == 0 {
        None
    } else if params[0].0@ == key {
        Some(params[0].1)
    } else {
        first_param(params.drop_first(), key)
    }
}

/// The UUID named by the path parameter `key`, when the parameters could be
/// read, the parameter is there, and its value parses.
pub open spec fn path_uuid(params: Option<Vec<(String, String)>>, key: Seq<char>) -> Option<u128> {
    match params {
        None => None,
        Some(ps) => match first_param(ps@, key) {
            None => None,
            Some(v) => uuid_parse_value(v@),
        },
    }
}

/// Reads a UUID path parameter; `params` is `None` when the path could not
/// be read. Anything missing or malformed is forbidden.
pub fn path_param(params: Option<Vec<(String, String)>>, key: &str) -> (r: Result<u128, AuthzRejection>)
    ensures
        path_uuid(params, key@) matches Some(id) ==> r == Ok::<u128, AuthzRejection>(id),
        path_uuid(params, key@) is None ==> (r matches Err(rej) && is_forbidden(rej)),
{
    let ps = match params {
        None => return Err(AuthzRejection::from(AuthzError::Forbidden)),
        Some(ps) => ps,
    };
    let key_text = key.to_string();
    let ghost all = ps@;
    assert(all.skip(0) =~= all);
    let mut i: usize = 0;
    while i < ps.len()
        invariant
            ps@ == all,
            key_text@ == key@,
            0 <= i <= ps@.len(),
            first_param(all, key@) == first_param(all.skip(i as int), key@),
            path_uuid(params, key@) == match first_param(all, key@) {
                None => None,
                Some(v) => uuid_parse_value(v@),
            },
        decreases ps@.len() - i,
    {
        assert(all.skip(i as int).drop_first() =~= all.skip(i + 1));
        assert(all.skip(i as int)[0] == all[i as int]);
        if ps[i].0 == key_text {
            assert(first_param(all, key@) == Some(all[i as int].1));
            return match UserId::parse_str(ps[i].1.as_str()) {
                Ok(id) => Ok(id.into_uuid()),
                Err(_) => Err(AuthzRejection::from(AuthzError::Forbidden)),
            };
        }
        i = i + 1;
    }
    assert(all.skip(i as int) =~= Seq::<(String, String)>::empty());
    Err(AuthzRejection::from(AuthzError::Forbidden))
}

/// A caller who is an admin of the whole library system.
pub struct SystemAdmin(pub UserId);

impl SystemAdmin {
    /// What the guard hands on if the check passes, and the tuple to check:
    /// `user:<caller>` must be `admin` of `system:library`.
    pub fn prepare(caller: Option<UserId>) -> (r: Result<(SystemAdmin, AccessTuple), AuthzRejection>)
        ensures
            caller is None ==> (r matches Err(rej) && is_forbidden(rej)),
            caller matches Some(c) ==> (r matches Ok((g, t)) && g.0 == c && tuple_is(
                t,
                typed_ref("user"@, c.value()),
                "admin"@,
                "system:library"@,
            )),
    {
        let caller = caller_from_parts(caller)?;
        let t = AccessTuple {
            user: typed_name("user", caller.into_uuid()),
            relation: "admin".to_string(),
            object: "system:library".to_string(),
        };
        Ok((SystemAdmin(caller), t))
    }
}

/// A caller who is an admin of the group named by the path parameter `id`.
pub struct GroupAdmin {
    pub caller: UserId,
    pub group_id: u128,
}

impl GroupAdmin {
    /// What the guard hands on if the check passes, and the tuple to check:
    /// `user:<caller>` must be `admin` of `group:<id>`.
    pub fn prepare(caller: Option<UserId>, params: Option<Vec<(String, String)>>) -> (r: Result<
        (GroupAdmin, AccessTuple),
        AuthzRejection,
    >)
        ensures
            caller is None ==> (r matches Err(rej) && is_forbidden(rej)),
            caller is Some && path_uuid(params, "id"@) is None ==> (r matches Err(rej)
                && is_forbidden(rej)),
            caller matches Some(c) ==> (path_uuid(params, "id"@) matches Some(id) ==> (r matches Ok(
                (g, t),
            ) && g.caller == c && g.group_id == id && tuple_is(
                t,
                typed_ref("user"@, c.value()),
                "admin"@,
                typed_ref("group"@, id),
            ))),
    {
        let caller = caller_from_parts(caller)?;
        let id = path_param(params, "id")?;
        let t = caller_tuple(caller, "admin", "group", id);
        Ok((GroupAdmin { caller, group_id: id }, t))
    }
}

/// A caller who may at least read the book named by the path parameter `id`.
pub struct BookReader {
    pub caller: UserId,
    pub book_id: BookId,
}

impl BookReader {
    /// What the guard hands on if the check passes, and the tuple to check:
    /// `user:<caller>` must be `reader` of `book:<id>`.
    pub fn prepare(caller: Option<UserId>, params: Option<Vec<(String, String)>>) -> (r: Result<
        (BookReader, AccessTuple),
        AuthzRejection,
    >)
        ensures
            caller is None ==> (r matches Err(rej) && is_forbidden(rej)),
            caller is Some && path_uuid(params, "id"@) is None ==> (r matches Err(rej)
                && is_forbidden(rej)),
            caller matches Some(c) ==> (path_uuid(params, "id"@) matches Some(id) ==> (r matches Ok(
                (g, t),
            ) && g.caller == c && g.book_id.value() == id && tuple_is(
                t,
                typed_ref("user"@, c.value()),
                "reader"@,
                typed_ref("book"@, id),
            ))),
    {
        let caller = caller_from_parts(caller)?;
        let id = path_param(params, "id")?;
        let t = caller_tuple(caller, "reader", "book", id);
        Ok((BookReader { caller, book_id: BookId::new(id) }, t))
    }
}

/// A caller who may at least write the book named by the path parameter `id`.
pub struct BookWriter {
    pub caller: UserId,
    pub book_id: BookId,
}

impl BookWriter {
    /// What the guard hands on if the check passes, and the tuple to check:
    /// `user:<caller>` must be `writer` of `book:<id>`.
    pub fn prepare(caller: Option<UserId>, params: Option<Vec<(String, String)>>) -> (r: Result<
        (BookWriter, AccessTuple),
        AuthzRejection,
    >)
        ensures
            caller is None ==> (r matches Err(rej) && is_forbidden(rej)),
            caller is Some && path_uuid(params, "id"@) is None ==> (r matches Err(rej)
                && is_forbidden(rej)),
            caller matches Some(c) ==> (path_uuid(params, "id"@) matches Some(id) ==> (r matches Ok(
                (g, t),
            ) && g.caller == c && g.book_id.value() == id && tuple_is(
                t,
                typed_ref("user"@, c.value()),
                "writer"@,
                typed_ref("book"@, id),
            ))),
    {
        let caller = caller_from_parts(caller)?;
        let id = path_param(params, "id")?;
        let t = caller_tuple(caller, "writer", "book", id);
        Ok((BookWriter { caller, book_id: BookId::new(id) }, t))
    }
}

/// A caller who may at least read the book named by the path parameter
/// `book_id` (the reviews of a book are listed under it).
pub struct BookReaderByBookId {
    pub caller: UserId,
    pub book_id: BookId,
}

impl BookReaderByBookId {
    /// What the guard hands on if the check passes, and the tuple to check:
    /// `user:<caller>` must be `reader` of `book:<book_id>`.
    pub fn prepare(caller: Option<UserId>, params: Option<Vec<(String, String)>>) -> (r: Result<
        (BookReaderByBookId, AccessTuple),
        AuthzRejection,
    >)
        ensures
            caller is None ==> (r matches Err(rej) && is_forbidden(rej)),
            caller is Some && path_uuid(params, "book_id"@) is None ==> (r matches Err(rej)
                && is_forbidden(rej)),
            caller matches Some(c) ==> (path_uuid(params, "book_id"@) matches Some(id) ==> (r matches Ok(
                (g, t),
            ) && g.caller == c && g.book_id.value() == id && tuple_is(
                t,
                typed_ref("user"@, c.value()),
                "reader"@,
                typed_ref("book"@, id),
            ))),
    {
        let caller = caller_from_parts(caller)?;
        let id = path_param(params, "book_id")?;
        let t = caller_tuple(caller, "reader", "book", id);
        Ok((BookReaderByBookId { caller, book_id: BookId::new(id) }, t))
    }
}

/// A caller who may at least write the review named by the path parameter `id`.
pub struct ReviewWriter {
    pub caller: UserId,
    pub review_id: ReviewId,
}

impl ReviewWriter {
    /// What the guard hands on if the check passes, and the tuple to check:
    /// `user:<caller>` must be `writer` of `review:<id>`.
    pub fn prepare(caller: Option<UserId>, params: Option<Vec<(String, String)>>) -> (r: Result<
        (ReviewWriter, AccessTuple),
        AuthzRejection,
    >)
        ensures
            caller is None ==> (r matches Err(rej) && is_forbidden(rej)),
            caller is Some && path_uuid(params, "id"@) is None ==> (r matches Err(rej)
                && is_forbidden(rej)),
            caller matches Some(c) ==> (path_uuid(params, "id"@) matches Some(id) ==> (r matches Ok(
                (g, t),
            ) && g.caller == c && g.review_id.value() == id && tuple_is(
                t,
                typed_ref("user"@, c.value()),
                "writer"@,
                typed_ref("review"@, id),
            ))),
    {
        let caller = caller_from_parts(caller)?;
        let id = path_param(params, "id")?;
        let t = caller_tuple(caller, "writer", "review", id);
        Ok((ReviewWriter { caller, review_id: ReviewId::new(id) }, t))
    }
}

/// The caller that the caller-id middleware found on the request.
pub struct CallerId(pub UserId);

/// The caller-id middleware did not run before a handler that needs it.
pub struct MissingCallerId;

impl CallerId {
    /// The caller that the middleware put on the request. The middleware
    /// must have been applied: a handler that asks for the caller without it
    /// is a misconfiguration of the service, not a request it serves, so the
    /// caller is required here; `MissingCallerId` is how that fault is
    /// answered.
    pub fn from_parts(caller: Option<UserId>) -> (r: Result<CallerId, MissingCallerId>)
        requires
            caller is Some,
        ensures
            r matches Ok(id) && id.0 == caller->0,
    {
        match caller {
            Some(c) => Ok(CallerId(c)),
            None => Err(MissingCallerId),
        }
    }
}

impl MissingCallerId {
    /// The status code and the `error` text of the answer: a server error.
    pub fn into_response(self) -> (r: (u16, String))
        ensures
            r.0 == 500,
            r.1@ == "caller id extension missing — require_caller_id middleware not applied"@,
    {
        (500, "caller id extension missing — require_caller_id middleware not applied".to_string())
    }
}

/// The caller named by the `X-User-Id` header (`None` when the header is
/// absent or not text). An absent or malformed id is answered `403`.
pub fn caller_from_header(header: Option<&str>) -> (r: Result<UserId, (u16, String)>)
    ensures
        header matches Some(h) ==> (uuid_parse_value(h@) matches Some(v) ==> (r matches Ok(id)
            && id.value() == v)),
        header is None || uuid_parse_value(header->0@) is None ==> (r matches Err(e) && e.0 == 403
            && e.1@ == "missing or invalid X-User-Id header"@),
{
    let parsed = match header {
        Some(h) => match UserId::parse_str(h) {
            Ok(id) => Some(id),
            Err(_) => None,
        },
        None => None,
    };
    match parsed {
        Some(id) => Ok(id),
        None => Err((403, "missing or invalid X-User-Id header".to_string())),
    }
}

/// The HTTP method of a call to an authorization backend.
#[derive(Debug, Clone, Copy, PartialEq, Eq, Structural)]
pub enum HttpMethod {
    Post,
    Put,
    Delete,
}

/// The JSON body of a call to an authorization backend.
#[derive(Debug, Clone, PartialEq, Eq)]
pub enum CallBody {
    /// OpenFGA check: `{"tuple_key": {user, relation, object}, "authorization_model_id"}`.
    FgaCheck { tuple: AccessTuple, model_id: String },
    /// OpenFGA write: `{"writes": {"tuple_keys": [tuple]}, "authorization_model_id"}`.
    FgaWrite { tuple: AccessTuple, model_id: String },
    /// OpenFGA delete: `{"deletes": {"tuple_keys": [tuple]}, "authorization_model_id"}`.
    FgaDelete { tuple: AccessTuple, model_id: String },
    /// OPA query: `{"input": {user, relation, object}}`.
    OpaInput { tuple: AccessTuple },
    /// The JSON value `true`.
    True,
    /// No body.
    Empty,
}

/// A call to make to an authorization backend.
#[derive(Debug, Clone, PartialEq, Eq)]
pub struct AuthzCall {
    pub method: HttpMethod,
    pub url: String,
    pub body: CallBody,
}

/// Whether a reply's status code is in the success class `200..=299`.
pub fn status_ok(status: u16) -> (r: bool)
    ensures
        r == (200 <= status <= 299),
{
    200 <= status && status <= 299
}

/// A reply with an unsuccessful status: an infrastructure error carrying
/// `<status>: <body>`.
pub fn status_failure(status_text: &str, body: &str) -> (r: AuthzError)
    ensures
        r matches AuthzError::Infrastructure(m) && m@ == status_text@ + ": "@ + body@,
{
    AuthzError::Infrastructure(status_text.to_string().concat(": ").concat(body))
}

/// A successful check reply, once decoded: the verdict when it has one,
/// denied when it has none; a reply that did not decode is an
/// infrastructure error with the decoder's message.
pub fn check_verdict(decoded: Result<Option<bool>, String>) -> (r: Result<bool, AuthzError>)
    ensures
        decoded matches Ok(Some(b)) ==> r == Ok::<bool, AuthzError>(b),
        decoded matches Ok(None) ==> r == Ok::<bool, AuthzError>(false),
        decoded matches Err(m) ==> r == Err::<bool, AuthzError>(AuthzError::Infrastructure(m)),
{
    match decoded {
        Ok(Some(b)) => Ok(b),
        Ok(None) => Ok(false),
        Err(m) => Err(AuthzError::Infrastructure(m)),
    }
}

/// A request to give a subject access to a book.
#[derive(Debug, Clone)]
pub struct GrantAccessRequest {
    /// `user:<uuid>` or `group:<uuid>#member`.
    pub subject: String,
    /// `reader` or `writer`.
    pub relation: String,
}

/// The (empty) answer to a granted access.
#[derive(Debug, Clone, Copy)]
pub struct GrantAccessResponse {}

impl GrantAccessRequest {
    /// The tuple to write for the book: only `reader` and `writer` may be
    /// granted; any other relation is refused with a validation message.
    pub fn access_tuple(self, book_id: BookId) -> (r: Result<AccessTuple, String>)
        ensures
            self.relation@ == "reader"@ || self.relation@ == "writer"@ ==> (r matches Ok(t)
                && tuple_is(t, self.subject@, self.relation@, typed_ref("book"@, book_id.value()))),
            !(self.relation@ == "reader"@ || self.relation@ == "writer"@) ==> (r matches Err(m)
                && m@ == "relation must be 'reader' or 'writer'"@),
    {
        if self.relation != "reader".to_string() && self.relation != "writer".to_string() {
            return Err("relation must be 'reader' or 'writer'".to_string());
        }
        Ok(AccessTuple {
            user: self.subject,
            relation: self.relation,
            object: typed_name("book", book_id.into_uuid()),
        })
    }
}

impl AuthzError {
    /// The HTTP status an authorization error is answered with: `403` when
    /// forbidden, `500` when the service failed.
    pub fn status_code(&self) -> (r: u16)
        ensures
            *self == AuthzError::Forbidden ==> r == 403,
            *self is Infrastructure ==> r == 500,
    {
        match self {
            AuthzError::Forbidden => 403,
            AuthzError::Infrastructure(_) => 500,
        }
    }
}

} // verus!
