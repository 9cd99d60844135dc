use library_system::authz::{
    book_owner_tuple, caller_from_header, caller_from_parts, check_verdict, grant, path_param,
    require_outcome, review_book_reader_tuple, review_owner_tuple, status_failure, status_ok,
    AccessTuple, AuthzError, AuthzRejection, BookReader, BookReaderByBookId, BookWriter, CallBody,
    CallerId, GrantAccessRequest, MissingCallerId, GroupAdmin, HttpMethod, ReviewWriter, SystemAdmin,
};
use library_system::ids::{BookId, ReviewId, UserId};
use library_system::opa::{encode_segment, split_colon, tuple_path, OpaTarget};
use library_system::openfga::OpenFgaTarget;

const ALICE: u128 = 0x11111111_2222_4333_8444_555555555555;
const BOOK: u128 = 0xaaaaaaaa_bbbb_4ccc_8ddd_eeeeeeeeeeee;

fn params(pairs: &[(&str, &str)]) -> Option<Vec<(String, String)>> {
    Some(pairs.iter().map(|(k, v)| (k.to_string(), v.to_string())).collect())
}

fn tuple(user: &str, relation: &str, object: &str) -> AccessTuple {
    AccessTuple { user: user.to_string(), relation: relation.to_string(), object: object.to_string() }
}

#[test]
fn require_follows_the_check() {
    assert_eq!(require_outcome(Ok(true)), Ok(()));
    assert_eq!(require_outcome(Ok(false)), Err(AuthzError::Forbidden));
    let down = AuthzError::Infrastructure("down".to_string());
    assert_eq!(require_outcome(Err(down.clone())), Err(down));
}

#[test]
fn rejection_responses() {
    assert_eq!(
        AuthzRejection::from(AuthzError::Forbidden).into_response(),
        (403, "forbidden".to_string())
    );
    assert_eq!(
        AuthzRejection::from(AuthzError::Infrastructure("boom".to_string())).into_response(),
        (500, "boom".to_string())
    );
    assert_eq!(AuthzError::Forbidden.to_string(), "forbidden");
    assert_eq!(
        AuthzError::Infrastructure("x".to_string()).to_string(),
        "authorization service error: x"
    );
    assert_eq!(AuthzError::Forbidden.status_code(), 403);
    assert_eq!(AuthzError::Infrastructure(String::new()).status_code(), 500);
}

#[test]
fn grant_passes_only_allowed() {
    assert_eq!(grant(5, Ok(true)).ok(), Some(5));
    assert_eq!(grant(5, Ok(false)).err().unwrap().into_response().0, 403);
    assert_eq!(
        grant(5, Err(AuthzError::Infrastructure("e".to_string()))).err().unwrap().into_response(),
        (500, "e".to_string())
    );
}

#[test]
fn tuples_name_caller_and_object() {
    let alice = UserId::new(ALICE);
    assert_eq!(
        book_owner_tuple(alice, BookId::new(BOOK)),
        tuple(
            "user:11111111-2222-4333-8444-555555555555",
            "owner",
            "book:aaaaaaaa-bbbb-4ccc-8ddd-eeeeeeeeeeee"
        )
    );
    assert_eq!(
        review_owner_tuple(alice, ReviewId::new(BOOK)).object,
        "review:aaaaaaaa-bbbb-4ccc-8ddd-eeeeeeeeeeee"
    );
    assert_eq!(review_book_reader_tuple(alice, BOOK).relation, "reader");
}

#[test]
fn caller_is_required() {
    assert!(caller_from_parts(None).is_err());
    assert_eq!(caller_from_parts(Some(UserId::new(ALICE))).ok(), Some(UserId::new(ALICE)));
    assert_eq!(CallerId::from_parts(Some(UserId::new(ALICE))).ok().unwrap().0, UserId::new(ALICE));
    let (code, msg) = MissingCallerId.into_response();
    assert_eq!(code, 500);
    assert_eq!(msg, "caller id extension missing — require_caller_id middleware not applied");
}

#[test]
fn header_names_the_caller() {
    assert_eq!(
        caller_from_header(Some("11111111-2222-4333-8444-555555555555")),
        Ok(UserId::new(ALICE))
    );
    let rejected = (403, "missing or invalid X-User-Id header".to_string());
    assert_eq!(caller_from_header(Some("alice")), Err(rejected.clone()));
    assert_eq!(caller_from_header(None), Err(rejected));
}

#[test]
fn path_parameters() {
    let ps = params(&[("other", "x"), ("id", "aaaaaaaa-bbbb-4ccc-8ddd-eeeeeeeeeeee")]);
    assert_eq!(path_param(ps.clone(), "id").ok(), Some(BOOK));
    assert!(path_param(ps, "book_id").is_err());
    assert!(path_param(params(&[("id", "nope")]), "id").is_err());
    assert!(path_param(None, "id").is_err());
    let first_wins = params(&[("id", "bad"), ("id", "aaaaaaaa-bbbb-4ccc-8ddd-eeeeeeeeeeee")]);
    assert!(path_param(first_wins, "id").is_err());
}

#[test]
fn guards_prepare_their_checks() {
    let alice = Some(UserId::new(ALICE));
    let ps = params(&[("id", "aaaaaaaa-bbbb-4ccc-8ddd-eeeeeeeeeeee")]);
    let user = "user:11111111-2222-4333-8444-555555555555";

    let (g, t) = SystemAdmin::prepare(alice).ok().unwrap();
    assert_eq!(g.0, UserId::new(ALICE));
    assert_eq!(t, tuple(user, "admin", "system:library"));
    assert!(SystemAdmin::prepare(None).is_err());

    let (g, t) = GroupAdmin::prepare(alice, ps.clone()).ok().unwrap();
    assert_eq!(g.group_id, BOOK);
    assert_eq!(t, tuple(user, "admin", "group:aaaaaaaa-bbbb-4ccc-8ddd-eeeeeeeeeeee"));

    let (g, t) = BookReader::prepare(alice, ps.clone()).ok().unwrap();
    assert_eq!(g.book_id, BookId::new(BOOK));
    assert_eq!(t, tuple(user, "reader", "book:aaaaaaaa-bbbb-4ccc-8ddd-eeeeeeeeeeee"));

    let (_, t) = BookWriter::prepare(alice, ps.clone()).ok().unwrap();
    assert_eq!(t.relation, "writer");

    assert!(BookReaderByBookId::prepare(alice, ps.clone()).is_err());
    let by_book = params(&[("book_id", "aaaaaaaa-bbbb-4ccc-8ddd-eeeeeeeeeeee")]);
    let (g, t) = BookReaderByBookId::prepare(alice, by_book).ok().unwrap();
    assert_eq!(g.caller, UserId::new(ALICE));
    assert_eq!(t.object, "book:aaaaaaaa-bbbb-4ccc-8ddd-eeeeeeeeeeee");

    let (g, t) = ReviewWriter::prepare(alice, ps.clone()).ok().unwrap();
    assert_eq!(g.review_id, ReviewId::new(BOOK));
    assert_eq!(t, tuple(user, "writer", "review:aaaaaaaa-bbbb-4ccc-8ddd-eeeeeeeeeeee"));

    assert_eq!(
        BookWriter::prepare(None, ps).err().unwrap().into_response(),
        (403, "forbidden".to_string())
    );
}

#[test]
fn grant_access_accepts_reader_and_writer_only() {
    let req = GrantAccessRequest { subject: "group:g1#member".to_string(), relation: "reader".to_string() };
    assert_eq!(
        req.access_tuple(BookId::new(BOOK)),
        Ok(tuple("group:g1#member", "reader", "book:aaaaaaaa-bbbb-4ccc-8ddd-eeeeeeeeeeee"))
    );
    let req = GrantAccessRequest { subject: "user:u".to_string(), relation: "owner".to_string() };
    assert_eq!(
        req.access_tuple(BookId::new(BOOK)),
        Err("relation must be 'reader' or 'writer'".to_string())
    );
}

#[test]
fn replies() {
    assert!(status_ok(200));
    assert!(status_ok(204));
    assert!(!status_ok(199));
    assert!(!status_ok(404));
    assert_eq!(
        status_failure("404 Not Found", "no store"),
        AuthzError::Infrastructure("404 Not Found: no store".to_string())
    );
    assert_eq!(check_verdict(Ok(Some(true))), Ok(true));
    assert_eq!(check_verdict(Ok(None)), Ok(false));
    assert_eq!(
        check_verdict(Err("bad json".to_string())),
        Err(AuthzError::Infrastructure("bad json".to_string()))
    );
}

#[test]
fn split_colon_splits_at_first_colon() {
    assert_eq!(split_colon("book:1:2"), ("book", "1:2"));
    assert_eq!(split_colon("plain"), ("", "plain"));
    assert_eq!(split_colon(":x"), ("", "x"));
}

#[test]
fn segments_are_pointer_encoded() {
    assert_eq!(encode_segment("a~b/c"), "a~0b~1c");
    assert_eq!(encode_segment("~1"), "~01");
}

#[test]
fn tuple_paths() {
    assert_eq!(
        tuple_path("user:u1", "reader", "book:b1"),
        "/v1/data/library/tuples/book/b1/reader/user/u1"
    );
    assert_eq!(
        tuple_path("group:g1#member", "writer", "book:b/1"),
        "/v1/data/library/tuples/book/b~11/writer/group#member/g1"
    );
    assert_eq!(tuple_path("alice", "r", "o"), "/v1/data/library/tuples//o/r//alice");
}

#[test]
fn backend_calls() {
    let t = tuple("user:u", "reader", "book:b");
    let opa = OpaTarget { base_url: "http://opa:8181".to_string() };
    let c = opa.check_call(t.clone());
    assert_eq!(c.method, HttpMethod::Post);
    assert_eq!(c.url, "http://opa:8181/v1/data/library/authz/allow");
    assert_eq!(c.body, CallBody::OpaInput { tuple: t.clone() });
    let w = opa.write_call(t.clone());
    assert_eq!(w.method, HttpMethod::Put);
    assert_eq!(w.url, "http://opa:8181/v1/data/library/tuples/book/b/reader/user/u");
    assert_eq!(w.body, CallBody::True);
    let d = opa.delete_call(t.clone());
    assert_eq!(d.method, HttpMethod::Delete);
    assert_eq!(d.body, CallBody::Empty);

    let fga = OpenFgaTarget::new("http://fga".to_string(), "s1".to_string(), "m1".to_string());
    let c = fga.check_call(t.clone());
    assert_eq!(c.url, "http://fga/stores/s1/check");
    assert_eq!(c.body, CallBody::FgaCheck { tuple: t.clone(), model_id: "m1".to_string() });
    let w = fga.write_call(t.clone());
    assert_eq!(w.url, "http://fga/stores/s1/write");
    assert_eq!(w.body, CallBody::FgaWrite { tuple: t.clone(), model_id: "m1".to_string() });
    let d = fga.delete_call(t.clone());
    assert_eq!(d.method, HttpMethod::Post);
    assert_eq!(d.url, "http://fga/stores/s1/write");
    assert_eq!(d.body, CallBody::FgaDelete { tuple: t, model_id: "m1".to_string() });
}
